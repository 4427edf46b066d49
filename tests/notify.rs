use bar::notify::{
    choose_strategy, dunst_str, parse_dunstctl_history, HistoryPoller, JsonValue, NotifDaemon,
    NotifyStrategy,
};
use bar::delivery::{after_send, ProducerStep, SendOutcome};
use bar::state::Message;

fn field(v: JsonValue) -> JsonValue {
    JsonValue::Object(vec![
        ("data".to_string(), v),
        ("type".to_string(), JsonValue::Str("string".to_string())),
    ])
}

fn entry(id: u64, app: &str, summary: &str) -> JsonValue {
    JsonValue::Object(vec![
        ("id".to_string(), field(JsonValue::Number(Some(id)))),
        ("appname".to_string(), field(JsonValue::Str(app.to_string()))),
        ("summary".to_string(), field(JsonValue::Str(summary.to_string()))),
    ])
}

fn history(stacks: Vec<Vec<JsonValue>>) -> JsonValue {
    JsonValue::Object(vec![(
        "data".to_string(),
        JsonValue::Array(stacks.into_iter().map(JsonValue::Array).collect()),
    )])
}

fn item(id: u32) -> (u32, String, String, String) {
    (id, "a".to_string(), "s".to_string(), "b".to_string())
}

#[test]
fn daemon_allocates_sequential_ids_and_keeps_replaced_ones() {
    let mut d = NotifDaemon::new();
    let (a, _) = d.notify("x".into(), 0, "s".into(), "b".into());
    let (b, _) = d.notify("x".into(), 0, "s".into(), "b".into());
    assert_eq!((a, b), (1, 2));
    let (c, m) = d.notify("x".into(), 1, "new".into(), "b".into());
    assert_eq!(c, 1);
    match m {
        Message::NotificationReceived { id, summary, .. } => {
            assert_eq!(id, 1);
            assert_eq!(summary, "new");
        }
        other => panic!("unexpected {other:?}"),
    }
    let (e, _) = d.notify("x".into(), 0, "s".into(), "b".into());
    assert_eq!(e, 3);
    assert!(matches!(d.close_notification(2), Message::NotificationClosed(2)));
    assert_eq!(d.get_capabilities(), vec!["body", "persistence"]);
    assert_eq!(d.get_server_information(), ("bar", "bar", "0.1.0", "1.2"));
}

#[test]
fn strategy_follows_registration() {
    assert_eq!(choose_strategy(true), NotifyStrategy::Sink);
    assert_eq!(choose_strategy(false), NotifyStrategy::PollHistory);
}

#[test]
fn history_entries_are_flattened_and_zero_ids_dropped() {
    let doc = history(vec![
        vec![entry(5, "mail", "hello"), entry(0, "x", "dropped")],
        vec![entry(7, "chat", "hi")],
    ]);
    let items = parse_dunstctl_history(&doc);
    assert_eq!(items.len(), 2);
    assert_eq!(items[0], (5, "mail".to_string(), "hello".to_string(), String::new()));
    assert_eq!(items[1].0, 7);
    assert_eq!(dunst_str(&entry(1, "a", "b"), "summary"), "b");
    assert_eq!(dunst_str(&entry(1, "a", "b"), "body"), "");
}

#[test]
fn malformed_history_yields_nothing() {
    assert!(parse_dunstctl_history(&JsonValue::Null).is_empty());
    assert!(parse_dunstctl_history(&JsonValue::Object(vec![])).is_empty());
    let doc = JsonValue::Object(vec![("data".to_string(), JsonValue::Str("x".into()))]);
    assert!(parse_dunstctl_history(&doc).is_empty());
}

#[test]
fn poller_emits_only_unseen_ids() {
    let mut p = HistoryPoller::new();
    let first = p.take_new(vec![item(1), item(2), item(1)]);
    assert_eq!(first.len(), 2);
    let second = p.take_new(vec![item(2), item(3)]);
    assert_eq!(second.len(), 1);
    assert!(matches!(second[0], Message::NotificationReceived { id: 3, .. }));
}

#[test]
fn poller_forgets_after_limit() {
    let mut p = HistoryPoller::new();
    let batch: Vec<_> = (1..=501).map(item).collect();
    assert_eq!(p.take_new(batch).len(), 501);
    assert!(p.known.is_empty());
    assert_eq!(p.take_new(vec![item(1)]).len(), 1);
}

#[test]
fn producers_stop_only_when_receiver_is_gone() {
    assert_eq!(after_send(SendOutcome::Delivered), ProducerStep::Continue);
    assert_eq!(after_send(SendOutcome::Full), ProducerStep::Continue);
    assert_eq!(after_send(SendOutcome::Closed), ProducerStep::Stop);
}
