use vehicle_shadow_client::routing::has_prefix;
use vehicle_shadow_client::{
    ClientError, GetResponse, SetResponse, UnlockResponse, VehicleShadowClient,
};

fn client_with(bindings: &[(&str, u32)]) -> VehicleShadowClient<u32> {
    let mut c = VehicleShadowClient::create().unwrap();
    for (prefix, conn) in bindings {
        c.connect(prefix.to_string(), *conn);
    }
    c
}

fn strings(items: &[&str]) -> Vec<String> {
    items.iter().map(|s| s.to_string()).collect()
}

fn get_reply(signals: &[&str]) -> GetResponse<String> {
    GetResponse { signals: strings(signals), success: true, error_message: String::new() }
}

fn set_reply(results: &[&str]) -> SetResponse<String> {
    SetResponse { results: strings(results), success: true, error_message: String::new() }
}

#[test]
fn create_has_no_shards() {
    let c: VehicleShadowClient<u32> = VehicleShadowClient::create().unwrap();
    assert_eq!(c.shard_count(), 0);
    assert_eq!(c.get_target_client(&"A.x".to_string()), None);
}

#[test]
fn first_registered_match_wins() {
    let c = client_with(&[("A.", 10), ("A.B.", 20)]);
    let shard = c.get_target_client(&"A.B.c".to_string());
    assert_eq!(shard, Some(0));
    assert_eq!(*c.connection(0), 10);
}

#[test]
fn later_binding_resolves_when_earlier_does_not_match() {
    let c = client_with(&[("A.", 10), ("B.", 20)]);
    assert_eq!(c.get_target_client(&"B.z".to_string()), Some(1));
    assert_eq!(*c.connection(1), 20);
}

#[test]
fn resolve_none_when_no_prefix_matches() {
    let c = client_with(&[("A.", 10), ("A.B.", 20)]);
    assert_eq!(c.get_target_client(&"Z.y".to_string()), None);
    assert_eq!(c.get_target_client(&"A".to_string()), None);
}

#[test]
fn matching_is_plain_string_prefix() {
    let c = client_with(&[("Body", 1)]);
    assert_eq!(c.get_target_client(&"Body1.X".to_string()), Some(0));
    assert!(has_prefix("Body1.X", "Body"));
    assert!(has_prefix("Body", ""));
    assert!(!has_prefix("Bod", "Body"));
    assert!(!has_prefix("Vehicle.Body", "Body"));
}

#[test]
fn repeated_connect_keeps_first_binding() {
    let c = client_with(&[("A.", 1), ("A.", 2)]);
    assert_eq!(c.shard_count(), 2);
    assert_eq!(c.get_target_client(&"A.x".to_string()), Some(0));
}

#[test]
fn get_drops_unresolved_paths() {
    let c = client_with(&[("A.", 7)]);
    let mut batch = c.get_signals::<String>(strings(&["A.x", "Z.y"]));
    let (shard, req) = batch.next_request().unwrap();
    assert_eq!(shard, 0);
    assert_eq!(req.paths, strings(&["A.x"]));
    assert!(batch.on_reply(Ok(get_reply(&["A.x=1"]))).is_ok());
    assert!(batch.next_request().is_none());
    let resp = batch.into_response();
    assert_eq!(resp.signals, strings(&["A.x=1"]));
    assert!(resp.success);
    assert_eq!(resp.error_message, "");
}

#[test]
fn get_issues_one_call_per_path_in_input_order() {
    let c = client_with(&[("A.", 1), ("B.", 2)]);
    let mut batch = c.get_signals::<String>(strings(&["B.1", "A.1", "B.2"]));
    let mut shards = Vec::new();
    while let Some((shard, req)) = batch.next_request() {
        shards.push(shard);
        let reply = get_reply(&[req.paths[0].as_str()]);
        batch.on_reply(Ok(reply)).unwrap();
    }
    assert_eq!(shards, vec![1, 0, 1]);
    assert_eq!(batch.into_response().signals, strings(&["B.1", "A.1", "B.2"]));
}

#[test]
fn get_stops_at_first_failure() {
    let c = client_with(&[("A.", 1)]);
    let mut batch = c.get_signals::<String>(strings(&["A.1", "A.2", "A.3"]));
    batch.next_request().unwrap();
    batch.on_reply(Ok(get_reply(&["one"]))).unwrap();
    batch.next_request().unwrap();
    let err = batch.on_reply(Err(tonic::Status::unavailable("down"))).unwrap_err();
    match err {
        ClientError::TransportFailure(status) => {
            assert_eq!(status.code(), tonic::Code::Unavailable);
            assert_eq!(status.message(), "down");
        }
        _ => panic!("expected a transport failure"),
    }
    assert!(batch.next_request().is_none());
    assert_eq!(batch.pending.len(), 1);
    assert_eq!(batch.into_response().signals, strings(&["one"]));
}

#[test]
fn set_carries_token_and_skips_unresolved() {
    let c = client_with(&[("A.", 1), ("B.", 2)]);
    let signals = vec![
        ("Z.q".to_string(), 0u8),
        ("B.x".to_string(), 5u8),
        ("A.y".to_string(), 6u8),
    ];
    let mut batch = c.set_signals::<u8, String>(signals, "tok".to_string());
    let (shard, req) = batch.next_request().unwrap();
    assert_eq!(shard, 1);
    assert_eq!(req.token, "tok");
    assert_eq!(req.signals.len(), 1);
    assert_eq!(req.signals[0].path, "B.x");
    assert_eq!(req.signals[0].state, Some(5));
    batch.on_reply(Ok(set_reply(&["B.x ok"]))).unwrap();
    let (shard, req) = batch.next_request().unwrap();
    assert_eq!(shard, 0);
    assert_eq!(req.signals[0].path, "A.y");
    assert_eq!(req.signals[0].state, Some(6));
    batch.on_reply(Ok(set_reply(&["A.y ok"]))).unwrap();
    assert!(batch.next_request().is_none());
    let resp = batch.into_response();
    assert_eq!(resp.results, strings(&["B.x ok", "A.y ok"]));
    assert!(resp.success);
}

#[test]
fn set_without_lock_sends_empty_token() {
    let c = client_with(&[("A.", 1)]);
    let mut batch = c.set_signals::<u8, String>(vec![("A.y".to_string(), 1u8)], String::new());
    let (_, req) = batch.next_request().unwrap();
    assert_eq!(req.token, "");
}

#[test]
fn set_aborts_on_failure_and_keeps_earlier_results() {
    let c = client_with(&[("A.", 1), ("B.", 2)]);
    let signals = vec![
        ("A.1".to_string(), 1u8),
        ("B.1".to_string(), 2u8),
        ("A.2".to_string(), 3u8),
    ];
    let mut batch = c.set_signals::<u8, String>(signals, "t".to_string());
    batch.next_request().unwrap();
    batch.on_reply(Ok(set_reply(&["A.1 ok"]))).unwrap();
    let (shard, _) = batch.next_request().unwrap();
    assert_eq!(shard, 1);
    let err = batch.on_reply(Err(tonic::Status::internal("boom")));
    assert!(matches!(err, Err(ClientError::TransportFailure(_))));
    assert!(batch.failed);
    assert!(batch.next_request().is_none());
    let resp = batch.into_response();
    assert_eq!(resp.results, strings(&["A.1 ok"]));
}

#[test]
fn subscribe_routes_single_path() {
    let c = client_with(&[("A.", 1), ("B.", 2)]);
    let (shard, req) = c.subscribe("B.speed".to_string()).unwrap();
    assert_eq!(shard, 1);
    assert_eq!(req.paths, strings(&["B.speed"]));
}

#[test]
fn subscribe_not_found_without_binding() {
    let c = client_with(&[("A.", 1)]);
    match c.subscribe("Z.y".to_string()) {
        Err(ClientError::NotFound(path)) => assert_eq!(path, "Z.y"),
        _ => panic!("expected NotFound"),
    }
    let empty: VehicleShadowClient<u32> = VehicleShadowClient::create().unwrap();
    assert!(matches!(empty.subscribe("A.x".to_string()), Err(ClientError::NotFound(_))));
}

#[test]
fn unsubscribe_is_not_implemented() {
    let c = client_with(&[("A.", 1)]);
    assert!(matches!(c.unsubscribe(strings(&["A.x"])), Err(ClientError::NotImplemented)));
}

#[test]
fn lock_empty_is_invalid_input() {
    let c = client_with(&[("A.", 1)]);
    assert!(matches!(c.lock(Vec::new()), Err(ClientError::InvalidInput)));
}

#[test]
fn lock_routes_whole_list_by_first_path() {
    let c = client_with(&[("A.", 1), ("B.", 2)]);
    let (shard, req) = c.lock(strings(&["B.p", "A.q"])).unwrap();
    assert_eq!(shard, 1);
    assert_eq!(req.paths, strings(&["B.p", "A.q"]));
    let (shard, req) = c.lock(strings(&["A.q", "B.p"])).unwrap();
    assert_eq!(shard, 0);
    assert_eq!(req.paths, strings(&["A.q", "B.p"]));
}

#[test]
fn lock_first_path_unresolved_is_not_found() {
    let c = client_with(&[("A.", 1)]);
    match c.lock(strings(&["Z.p", "A.q"])) {
        Err(ClientError::NotFound(path)) => assert_eq!(path, "Z.p"),
        _ => panic!("expected NotFound"),
    }
}

fn run_unlock(c: &VehicleShadowClient<u32>, replies: &[bool]) -> (usize, Vec<usize>, UnlockResponse) {
    let mut batch = c.unlock("tok".to_string());
    let mut asked = Vec::new();
    let mut count = 0;
    while let Some((shard, req)) = batch.next_request() {
        assert_eq!(req.token, "tok");
        asked.push(shard);
        batch.on_reply(Ok(UnlockResponse { success: replies[count] })).unwrap();
        count += 1;
    }
    (count, asked, batch.into_response())
}

#[test]
fn unlock_with_no_shards_succeeds() {
    let c: VehicleShadowClient<u32> = VehicleShadowClient::create().unwrap();
    let (count, _, resp) = run_unlock(&c, &[]);
    assert_eq!(count, 0);
    assert!(resp.success);
}

#[test]
fn unlock_asks_every_shard_and_ands_replies() {
    let c = client_with(&[("A.", 1), ("B.", 2), ("C.", 3)]);
    let (count, asked, resp) = run_unlock(&c, &[true, true, true]);
    assert_eq!(count, 3);
    assert_eq!(asked, vec![0, 1, 2]);
    assert!(resp.success);
    let (count, _, resp) = run_unlock(&c, &[true, false, true]);
    assert_eq!(count, 3);
    assert!(!resp.success);
}

#[test]
fn unlock_stops_at_failed_rpc() {
    let c = client_with(&[("A.", 1), ("B.", 2)]);
    let mut batch = c.unlock("tok".to_string());
    batch.next_request().unwrap();
    let err = batch.on_reply(Err(tonic::Status::unavailable("gone")));
    assert!(matches!(err, Err(ClientError::TransportFailure(_))));
    assert!(batch.next_request().is_none());
    assert_eq!(batch.issued, 1);
}
