use wallet_relay::events::{AppOutWsEvent, HistoryEvent, TopicMessage, WalletEvent};
use wallet_relay::http_api::{get_config, health, RouterCtx};
use wallet_relay::relay::AppModule;
use wallet_relay::router::{app_routes, Handler, Route, RouterSlot};

fn hist(account: &str, detail: &str) -> HistoryEvent {
    HistoryEvent { account: account.to_string(), detail: detail.to_string() }
}

fn wallet(account: &str, program_outputs: &str) -> WalletEvent {
    WalletEvent { account: account.to_string(), program_outputs: program_outputs.to_string() }
}

fn built_module() -> AppModule {
    let mut slot = RouterSlot::vacated();
    let (module, _ctx) = AppModule::build("wallet".to_string(), &mut slot);
    module
}

#[test]
fn batch_relays_every_element_in_order() {
    let module = built_module();
    let batch = vec![hist("alice", "tx1"), hist("bob", "tx2")];
    let msgs = module.on_history_batch(batch);
    assert_eq!(msgs.len(), 2);
    assert_eq!(
        msgs[0],
        TopicMessage {
            topic: "alice".to_string(),
            payload: AppOutWsEvent::TxEvent(hist("alice", "tx1")),
        }
    );
    assert_eq!(
        msgs[1],
        TopicMessage {
            topic: "bob".to_string(),
            payload: AppOutWsEvent::TxEvent(hist("bob", "tx2")),
        }
    );
}

#[test]
fn batch_repeated_account_keeps_every_message() {
    let module = built_module();
    let batch = vec![hist("carol", "a"), hist("carol", "b"), hist("dave", "c")];
    let msgs = module.on_history_batch(batch);
    assert_eq!(msgs.len(), 3);
    assert_eq!(msgs[0].topic, "carol");
    assert_eq!(msgs[1].topic, "carol");
    assert_eq!(msgs[2].topic, "dave");
    assert_eq!(msgs[1].payload, AppOutWsEvent::TxEvent(hist("carol", "b")));
}

#[test]
fn empty_batch_publishes_nothing() {
    let module = built_module();
    let msgs = module.on_history_batch(Vec::new());
    assert!(msgs.is_empty());
}

#[test]
fn wallet_event_yields_exactly_one_message() {
    let module = built_module();
    let msg = module.on_wallet_event(wallet("alice", "balance=10"));
    assert_eq!(
        msg,
        TopicMessage {
            topic: "alice".to_string(),
            payload: AppOutWsEvent::WalletEvent {
                account: "alice".to_string(),
                event: "balance=10".to_string(),
            },
        }
    );
}

#[test]
fn health_is_constant_ok() {
    assert_eq!(health(), "OK");
}

#[test]
fn config_returns_contract_name() {
    let ctx = RouterCtx { wallet_cn: "wallet".to_string() };
    let r = get_config(&ctx);
    assert_eq!(r.contract_name, "wallet");
}

#[test]
fn repeated_reads_return_identical_responses() {
    let ctx = RouterCtx { wallet_cn: "wallet".to_string() };
    assert_eq!(health(), health());
    assert_eq!(get_config(&ctx), get_config(&ctx));
}

#[test]
fn module_routes_have_fixed_paths() {
    let routes = app_routes();
    assert_eq!(routes.len(), 2);
    assert_eq!(routes[0], Route { path: "/_health".to_string(), handler: Handler::Health });
    assert_eq!(routes[1], Route { path: "/api/config".to_string(), handler: Handler::Config });
}

#[test]
fn merge_appends_routes_to_present_router() {
    let base = vec![Route { path: "/base".to_string(), handler: Handler::Health }];
    let mut slot = RouterSlot::holding(base);
    let merged = slot.merge(app_routes());
    assert!(merged);
    let routes = slot.take_router().expect("router should still be present");
    assert_eq!(routes.len(), 3);
    assert_eq!(routes[0].path, "/base");
    assert_eq!(routes[1].path, "/_health");
    assert_eq!(routes[2].path, "/api/config");
}

#[test]
fn merge_into_vacated_slot_is_skipped() {
    let mut slot = RouterSlot::vacated();
    let merged = slot.merge(app_routes());
    assert!(!merged);
    assert!(slot.take_router().is_none());
}

#[test]
fn build_succeeds_when_router_already_taken() {
    let mut slot = RouterSlot::vacated();
    let (module, ctx) = AppModule::build("wallet".to_string(), &mut slot);
    assert!(module.running());
    assert_eq!(ctx.wallet_cn, "wallet");
    assert!(slot.take_router().is_none());
}

#[test]
fn build_contributes_routes_when_router_present() {
    let mut slot = RouterSlot::holding(Vec::new());
    let (module, _ctx) = AppModule::build("wallet".to_string(), &mut slot);
    assert!(module.running());
    let routes = slot.take_router().expect("router should still be present");
    assert_eq!(routes.len(), 2);
    assert_eq!(routes[0].path, "/_health");
    assert_eq!(routes[1].path, "/api/config");
}

#[test]
fn publish_failure_stops_the_loop_mid_batch() {
    let mut module = built_module();
    let batch = vec![hist("alice", "tx1"), hist("bob", "tx2"), hist("carol", "tx3")];
    let accepted = vec![true, false, true];
    let sent = module.turn_history_batch(batch, &accepted);
    assert_eq!(sent.len(), 1);
    assert_eq!(sent[0].topic, "alice");
    assert!(!module.running());
}

#[test]
fn fully_accepted_batch_keeps_running() {
    let mut module = built_module();
    let batch = vec![hist("alice", "tx1"), hist("bob", "tx2")];
    let accepted = vec![true, true];
    let sent = module.turn_history_batch(batch, &accepted);
    assert_eq!(sent.len(), 2);
    assert!(module.running());
}

#[test]
fn refusal_on_first_publish_sends_nothing() {
    let mut module = built_module();
    let batch = vec![hist("alice", "tx1"), hist("bob", "tx2")];
    let accepted = vec![false, true];
    let sent = module.turn_history_batch(batch, &accepted);
    assert!(sent.is_empty());
    assert!(!module.running());
}

#[test]
fn wallet_turn_publishes_when_accepted() {
    let mut module = built_module();
    let sent = module.turn_wallet_event(wallet("alice", "balance=10"), true);
    assert_eq!(sent.map(|m| m.topic), Some("alice".to_string()));
    assert!(module.running());
}

#[test]
fn wallet_turn_refusal_stops_the_loop() {
    let mut module = built_module();
    let sent = module.turn_wallet_event(wallet("alice", "balance=10"), false);
    assert!(sent.is_none());
    assert!(!module.running());
}

#[test]
fn record_publish_failure_terminates() {
    let mut module = built_module();
    assert!(module.running());
    module.record_publish_failure();
    assert!(!module.running());
}
