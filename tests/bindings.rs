use waku_bindings::address::{decode_listen_addresses, split_on_commas};
use waku_bindings::node::{listen_addresses_outcome, message_hash_outcome, node_config, timeout_millis};
use waku_bindings::response::{handle_no_response, handle_response, registration_event};
use waku_bindings::store::reversed;
use waku_bindings::{
    EngineCall, Initialized, LibwakuResponse, MessageHash, PubsubTopic, ResponseCell, Running,
    StorePage, StoreQuery, StoreStep, WakuError, WakuNodeConfig, WakuNodeHandle,
};

fn config_with_relay(relay: Option<bool>) -> WakuNodeConfig {
    let mut config = node_config(None);
    config.relay = relay;
    config
}

fn success() -> LibwakuResponse {
    LibwakuResponse::Success(None)
}

fn instantiate(relay: Option<bool>, ptr: usize) -> WakuNodeHandle<Initialized> {
    match WakuNodeHandle::new(config_with_relay(relay), ptr, success()) {
        Ok(node) => node,
        Err(e) => panic!("instantiation failed: {:?}", e),
    }
}

fn running(relay: Option<bool>, ptr: usize) -> WakuNodeHandle<Running> {
    match instantiate(relay, ptr).start(success()) {
        Ok(node) => node,
        Err(e) => panic!("start failed: {:?}", e),
    }
}

fn topic(s: &str) -> PubsubTopic {
    PubsubTopic::from(s)
}

#[test]
fn pubsub_topic_conversions() {
    let a = PubsubTopic::from("/waku/2/rs/1/0");
    let b = PubsubTopic::from(String::from("/waku/2/rs/1/0"));
    assert_eq!(a.as_str(), "/waku/2/rs/1/0");
    assert_eq!(b.as_str(), "/waku/2/rs/1/0");
    let bytes: Vec<u8> = a.into();
    assert_eq!(bytes, b"/waku/2/rs/1/0".to_vec());
    let bytes: Vec<u8> = PubsubTopic::from("é").into();
    assert_eq!(bytes, vec![0xc3, 0xa9]);
}

#[test]
fn default_config_when_none_given() {
    let config = node_config(None);
    assert_eq!(config.relay, None);
    assert!(config.relay_topics.is_empty());
    assert!(config.shards.is_empty());
    let mut given = node_config(None);
    given.tcp_port = Some(60010);
    assert_eq!(node_config(Some(given)).tcp_port, Some(60010));
}

#[test]
fn instantiate_then_destroy_succeeds() {
    let node = instantiate(None, 7);
    assert!(matches!(node.destroy_call(), EngineCall::Destroy { handle: 7 }));
    assert_eq!(node.waku_destroy(success()), Ok(()));
}

#[test]
fn instantiation_failure_is_reported() {
    let r = WakuNodeHandle::new(node_config(None), 7, LibwakuResponse::Failure("bad config".to_string()));
    assert!(matches!(r, Err(WakuError::Engine(m)) if m == "bad config"));
    let r = WakuNodeHandle::new(node_config(None), 7, LibwakuResponse::MissingCallback);
    assert!(matches!(r, Err(WakuError::MissingCallback)));
}

#[test]
fn start_stop_alternation_keeps_handle() {
    let mut node = instantiate(Some(true), 42);
    for _ in 0..3 {
        assert!(matches!(node.version(), EngineCall::Version { handle: 42 }));
        assert!(matches!(node.start_call(), EngineCall::Start { handle: 42 }));
        let started = node.start(success()).unwrap();
        assert!(matches!(started.version(), EngineCall::Version { handle: 42 }));
        assert!(matches!(started.stop_call(), EngineCall::Stop { handle: 42 }));
        node = started.stop(success()).unwrap();
    }
    assert_eq!(node.waku_destroy(success()), Ok(()));
}

#[test]
fn failed_start_reports_engine_message() {
    let node = instantiate(None, 3);
    let r = node.start(LibwakuResponse::Failure("port in use".to_string()));
    assert!(matches!(r, Err(WakuError::Engine(m)) if m == "port in use"));
}

#[test]
fn relay_operations_refused_without_relay() {
    for relay in [None, Some(false)] {
        let node = running(relay, 5);
        assert_eq!(
            node.relay_publish_message("{}".to_string(), topic("t"), None).err(),
            Some(WakuError::RelayDisabled)
        );
        assert_eq!(node.relay_subscribe(topic("t")).err(), Some(WakuError::RelayDisabled));
        assert_eq!(node.relay_unsubscribe(topic("t")).err(), Some(WakuError::RelayDisabled));
    }
    assert_eq!(
        WakuError::RelayDisabled.message(),
        "Relay is disabled. Restart the waku node with Relay enabled to use this function."
    );
}

#[test]
fn relay_operations_with_relay() {
    let node = running(Some(true), 5);
    match node.relay_publish_message("{\"payload\":\"\"}".to_string(), topic("t"), Some(1500)) {
        Ok(EngineCall::RelayPublish { handle, message, pubsub_topic, timeout_ms }) => {
            assert_eq!(handle, 5);
            assert_eq!(message, "{\"payload\":\"\"}");
            assert_eq!(pubsub_topic.as_str(), "t");
            assert_eq!(timeout_ms, 1500);
        }
        _ => panic!("expected a publish call"),
    }
    assert!(matches!(node.relay_subscribe(topic("t")), Ok(EngineCall::RelaySubscribe { handle: 5, .. })));
    assert!(matches!(node.relay_unsubscribe(topic("t")), Ok(EngineCall::RelayUnsubscribe { handle: 5, .. })));
}

#[test]
fn other_running_calls_carry_handle() {
    let node = running(None, 9);
    assert!(matches!(node.listen_addresses(), EngineCall::ListenAddresses { handle: 9 }));
    assert!(matches!(node.filter_unsubscribe_all(), EngineCall::FilterUnsubscribeAll { handle: 9 }));
    match node.filter_subscribe(topic("p"), vec!["/app/1/c/proto".to_string()]) {
        EngineCall::FilterSubscribe { handle, pubsub_topic, content_topics } => {
            assert_eq!(handle, 9);
            assert_eq!(pubsub_topic.as_str(), "p");
            assert_eq!(content_topics, vec!["/app/1/c/proto".to_string()]);
        }
        _ => panic!("expected a filter call"),
    }
    assert!(matches!(
        node.filter_unsubscribe(topic("p"), vec![]),
        EngineCall::FilterUnsubscribe { handle: 9, .. }
    ));
    assert!(matches!(
        node.lightpush_publish_message("{}".to_string(), topic("p")),
        EngineCall::LightpushPublish { handle: 9, .. }
    ));
}

#[test]
fn connect_timeout_clamped() {
    assert_eq!(timeout_millis(None), 0);
    assert_eq!(timeout_millis(Some(0)), 0);
    assert_eq!(timeout_millis(Some(2500)), 2500);
    assert_eq!(timeout_millis(Some(i32::MAX as u128)), i32::MAX);
    assert_eq!(timeout_millis(Some(i32::MAX as u128 + 1)), i32::MAX);
    assert_eq!(timeout_millis(Some(u64::MAX as u128 * 1000)), i32::MAX);
    assert_eq!(timeout_millis(Some(u32::MAX as u128 + 5)), i32::MAX);
    let node = running(None, 11);
    let address: multiaddr::Multiaddr = "/ip4/127.0.0.1/tcp/60000".parse().unwrap();
    match node.connect(&address, Some(1u128 << 40)) {
        EngineCall::Connect { handle, address, timeout_ms } => {
            assert_eq!(handle, 11);
            assert_eq!(address, "/ip4/127.0.0.1/tcp/60000");
            assert_eq!(timeout_ms, i32::MAX);
        }
        _ => panic!("expected a connect call"),
    }
}

#[test]
fn bridge_outcomes() {
    assert_eq!(handle_no_response(LibwakuResponse::Success(Some("x".to_string()))), Ok(()));
    assert_eq!(
        handle_no_response(LibwakuResponse::Failure("m".to_string())),
        Err(WakuError::Engine("m".to_string()))
    );
    assert_eq!(handle_no_response(LibwakuResponse::MissingCallback), Err(WakuError::MissingCallback));
    assert_eq!(handle_response(LibwakuResponse::Success(Some("v0.31.0".to_string()))), Ok("v0.31.0".to_string()));
    assert_eq!(handle_response(LibwakuResponse::Success(None)), Ok(String::new()));
    assert_eq!(
        handle_response(LibwakuResponse::Failure("m".to_string())),
        Err(WakuError::Engine("m".to_string()))
    );
    assert_eq!(handle_response(LibwakuResponse::MissingCallback), Err(WakuError::MissingCallback));
}

#[test]
fn response_cell_keeps_first_response() {
    let mut cell = ResponseCell::new();
    assert!(!cell.is_complete());
    assert!(cell.complete(LibwakuResponse::Success(Some("first".to_string()))));
    assert!(cell.is_complete());
    assert!(!cell.complete(LibwakuResponse::Failure("second".to_string())));
    assert_eq!(cell.outcome(), LibwakuResponse::Success(Some("first".to_string())));
    assert_eq!(ResponseCell::new().outcome(), LibwakuResponse::MissingCallback);
}

#[test]
fn concurrent_cells_keep_their_own_results() {
    let n: usize = 16;
    let mut cells: Vec<ResponseCell> = (0..n).map(|_| ResponseCell::new()).collect();
    let mut order: Vec<usize> = (0..n).collect();
    // a fixed scramble of completion order
    for i in 0..n {
        order.swap(i, (i * 7 + 3) % n);
    }
    for &i in &order {
        assert!(cells[i].complete(LibwakuResponse::Success(Some(format!("result {}", i)))));
    }
    for (i, cell) in cells.drain(..).enumerate() {
        assert_eq!(handle_response(cell.outcome()), Ok(format!("result {}", i)));
    }
}

#[test]
fn registration_failure_becomes_event() {
    assert_eq!(registration_event(Ok(())), None);
    assert_eq!(
        registration_event(Err(WakuError::Engine("no node".to_string()))),
        Some(LibwakuResponse::Failure("no node".to_string()))
    );
    assert_eq!(
        registration_event(Err(WakuError::MissingCallback)),
        Some(LibwakuResponse::Failure("callback is required".to_string()))
    );
    let node = instantiate(None, 13);
    let registration = node.set_event_callback(17u32);
    assert_eq!(registration.handle, 13);
    assert_eq!(registration.callback, 17);
}

fn page(items: &[&str], cursor: Option<&str>) -> Result<StorePage<String>, WakuError> {
    Ok(StorePage {
        messages: items.iter().map(|s| s.to_string()).collect(),
        pagination_cursor: cursor.map(|c| MessageHash(c.to_string())),
    })
}

#[test]
fn pagination_reverses_accumulated_pages() {
    let node = running(None, 21);
    let (call, query) = node.store_query::<String>(None, vec![], "/ip4/1.2.3.4/tcp/1".to_string(), true, None, None, Some(10_000));
    assert!(matches!(call, EngineCall::StoreQuery { handle: 21, timeout_ms: 10_000, .. }));
    assert!(query.request().pagination_cursor.is_none());
    assert!(query.request().pagination_forward);
    let mut requests = 1;
    let query = match query.step(page(&["c", "b"], Some("cursor1"))) {
        StoreStep::Next(q) => q,
        _ => panic!("expected another page"),
    };
    assert_eq!(query.request().pagination_cursor.as_ref().map(|c| c.0.as_str()), Some("cursor1"));
    requests += 1;
    match query.step(page(&["a"], None)) {
        StoreStep::Done(v) => assert_eq!(v, vec!["a", "b", "c"]),
        _ => panic!("expected the end"),
    }
    assert_eq!(requests, 2);
}

#[test]
fn pagination_aborts_on_failure() {
    let query: StoreQuery<String> = StoreQuery::new(None, vec![], false, Some(1), Some(2));
    let query = match query.step(page(&["x"], Some("cursor1"))) {
        StoreStep::Next(q) => q,
        _ => panic!("expected another page"),
    };
    match query.step(Err(WakuError::Engine("timeout".to_string()))) {
        StoreStep::Failed(e) => assert_eq!(e, WakuError::Engine("timeout".to_string())),
        _ => panic!("expected a failure"),
    }
}

#[test]
fn reversed_items() {
    assert_eq!(reversed(Vec::<u8>::new()), Vec::<u8>::new());
    assert_eq!(reversed(vec![1, 2, 3]), vec![3, 2, 1]);
}

#[test]
fn listen_addresses_decoded() {
    let pieces = split_on_commas("a,,b");
    assert_eq!(pieces, vec!["a".to_string(), String::new(), "b".to_string()]);
    assert_eq!(split_on_commas(""), vec![String::new()]);
    let addrs = decode_listen_addresses("/ip4/127.0.0.1/tcp/60000,/ip4/10.0.0.1/tcp/60001").unwrap();
    assert_eq!(addrs.len(), 2);
    assert_eq!(addrs[1].to_string(), "/ip4/10.0.0.1/tcp/60001");
    assert!(matches!(decode_listen_addresses("/ip4/127.0.0.1/tcp/60000,nonsense"), Err(WakuError::Decode(_))));
    let r = listen_addresses_outcome(LibwakuResponse::Success(Some("/ip4/127.0.0.1/tcp/1".to_string())));
    assert_eq!(r.unwrap().len(), 1);
    assert!(matches!(
        listen_addresses_outcome(LibwakuResponse::Failure("down".to_string())),
        Err(WakuError::Engine(_))
    ));
}

#[test]
fn message_hash_from_payload() {
    let h = message_hash_outcome(LibwakuResponse::Success(Some("0xabc".to_string()))).unwrap();
    assert_eq!(h.0, "0xabc");
    assert!(matches!(message_hash_outcome(LibwakuResponse::MissingCallback), Err(WakuError::MissingCallback)));
}
