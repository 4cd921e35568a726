use event_listener::delivery::{frame_batch, matching_positions};
use event_listener::protocol::{Action, ClientMessage, Input, Phase, MAILBOX_CAPACITY};
use event_listener::subscriber::Subscriber;

type Session = Subscriber<String, u32>;

fn registered() -> Session {
    let mut s: Session = Subscriber::new(7);
    assert_eq!(s.handle(Input::Start), Action::Register);
    assert_eq!(s.handle(Input::Registered(true)), Action::Nothing);
    s
}

fn with_filter(filter: &str) -> Session {
    let mut s = registered();
    let text = filter.to_string();
    assert_eq!(
        s.handle(Input::Client(ClientMessage::Text(text.clone()))),
        Action::ParseFilter(text)
    );
    assert_eq!(s.handle(Input::FilterParsed(Some(filter.to_string()))), Action::Nothing);
    s
}

fn text(t: &str) -> Input<String> {
    Input::Client(ClientMessage::Text(t.to_string()))
}

fn ping(p: &[u8]) -> Input<String> {
    Input::Client(ClientMessage::Ping(p.to_vec()))
}

#[test]
fn new_subscriber_is_created_and_unregistered() {
    let s: Session = Subscriber::new(42);
    assert_eq!(s.phase(), Phase::Created);
    assert!(!s.is_registered());
    assert!(s.filter().is_none());
    assert_eq!(*s.monitor(), 42);
    assert_eq!(MAILBOX_CAPACITY, 1024);
}

#[test]
fn start_requests_registration_once() {
    let mut s: Session = Subscriber::new(0);
    assert_eq!(s.handle(Input::Start), Action::Register);
    assert_eq!(s.phase(), Phase::Registering);
    assert_eq!(s.handle(Input::Start), Action::Nothing);
    assert_eq!(s.phase(), Phase::Registering);
}

#[test]
fn scenario_filter_type_a_delivers_second_event() {
    let mut s = registered();
    let filter_text = "{\"type\":\"A\"}";
    assert_eq!(
        s.handle(text(filter_text)),
        Action::ParseFilter(filter_text.to_string())
    );
    assert_eq!(s.handle(Input::FilterParsed(Some("A".to_string()))), Action::Nothing);
    let batch = vec![("1", "B"), ("2", "A"), ("3", "C")];
    let wanted = s.filter().unwrap().clone();
    let matched: Vec<bool> = batch.iter().map(|(_, t)| *t == wanted).collect();
    let positions = s.handle_new_events(&matched);
    assert_eq!(positions, vec![1]);
    let encoded: Vec<Option<String>> = positions
        .iter()
        .map(|&i| Some(format!("{{\"id\":{},\"type\":\"{}\"}}", batch[i].0, batch[i].1)))
        .collect();
    let out = frame_batch(encoded);
    assert!(!out.fatal);
    assert_eq!(out.messages, vec!["{\"id\":2,\"type\":\"A\"}".to_string()]);
}

#[test]
fn batch_order_is_kept() {
    let s = with_filter("f");
    let positions = s.handle_new_events(&vec![true, false, true]);
    assert_eq!(positions, vec![0, 2]);
    let batch = ["e1", "e2", "e3"];
    let out = frame_batch(positions.iter().map(|&i| Some(batch[i].to_string())).collect());
    assert!(!out.fatal);
    assert_eq!(out.messages, vec!["e1".to_string(), "e3".to_string()]);
}

#[test]
fn no_delivery_without_filter() {
    let s = registered();
    assert!(s.handle_new_events(&vec![true, true, true]).is_empty());
    let mut t = registered();
    assert_eq!(
        t.handle(text("bad")),
        Action::ParseFilter("bad".to_string())
    );
    assert!(t.handle_new_events(&vec![true]).is_empty());
}

#[test]
fn no_delivery_before_registration() {
    let mut s: Session = Subscriber::new(0);
    assert!(s.handle_new_events(&vec![true]).is_empty());
    s.handle(Input::Start);
    assert!(s.handle_new_events(&vec![true]).is_empty());
    assert_eq!(s.handle(text("f")), Action::Nothing);
    assert_eq!(s.handle(Input::FilterParsed(Some("f".to_string()))), Action::Nothing);
    assert!(s.filter().is_none());
}

#[test]
fn second_filter_is_ignored() {
    let mut s = with_filter("first");
    assert_eq!(s.handle(text("second")), Action::Nothing);
    assert_eq!(s.handle(Input::FilterParsed(Some("second".to_string()))), Action::Nothing);
    assert_eq!(s.filter(), Some(&"first".to_string()));
    assert_eq!(s.phase(), Phase::Active);
    assert_eq!(s.handle_new_events(&vec![false, true]), vec![1]);
}

#[test]
fn malformed_filter_closes_and_unregisters_once() {
    let mut s = registered();
    assert_eq!(s.handle(text("{")), Action::ParseFilter("{".to_string()));
    assert_eq!(s.handle(Input::FilterParsed(None)), Action::Close);
    assert_eq!(s.phase(), Phase::Closing);
    assert!(s.filter().is_none());
    assert_eq!(s.handle(text("again")), Action::Nothing);
    assert_eq!(s.handle(Input::Stopped), Action::Unregister);
    assert_eq!(s.handle(Input::Stopped), Action::Nothing);
    assert_eq!(s.handle(Input::Unregistered(true)), Action::Nothing);
    assert_eq!(s.phase(), Phase::Destroyed);
}

#[test]
fn client_close_tears_down_with_one_unregister() {
    let mut s = with_filter("f");
    assert_eq!(s.handle(Input::Client(ClientMessage::Close)), Action::Close);
    assert_eq!(s.phase(), Phase::Closing);
    assert!(s.handle_new_events(&vec![true]).is_empty());
    assert_eq!(s.handle(Input::Client(ClientMessage::Close)), Action::Nothing);
    assert_eq!(s.handle(Input::Stopped), Action::Unregister);
    assert_eq!(s.phase(), Phase::Stopping);
    assert_eq!(s.handle(Input::Stopped), Action::Nothing);
    assert_eq!(s.handle(Input::Unregistered(false)), Action::Nothing);
    assert_eq!(s.phase(), Phase::Destroyed);
    assert_eq!(s.handle(Input::Stopped), Action::Nothing);
    assert_eq!(s.handle(Input::Unregistered(true)), Action::Nothing);
}

#[test]
fn protocol_error_is_treated_as_close() {
    let mut s = registered();
    assert_eq!(s.handle(Input::Client(ClientMessage::ProtocolError)), Action::Close);
    assert_eq!(s.phase(), Phase::Closing);
    assert_eq!(s.handle(Input::Stopped), Action::Unregister);
}

#[test]
fn abrupt_disconnect_unregisters() {
    let mut s = with_filter("f");
    assert_eq!(s.handle(Input::Stopped), Action::Unregister);
    assert_eq!(s.phase(), Phase::Stopping);
    assert!(s.is_registered());
}

#[test]
fn refused_registration_closes_without_unregister() {
    let mut s: Session = Subscriber::new(0);
    assert_eq!(s.handle(Input::Start), Action::Register);
    assert_eq!(s.handle(Input::Registered(false)), Action::Close);
    assert_eq!(s.phase(), Phase::RegisterFailed);
    assert!(!s.is_registered());
    assert_eq!(s.handle(text("f")), Action::Nothing);
    assert_eq!(s.handle(ping(b"x")), Action::Nothing);
    assert!(s.handle_new_events(&vec![true]).is_empty());
    assert_eq!(s.handle(Input::Registered(true)), Action::Nothing);
    assert_eq!(s.handle(Input::Stopped), Action::Nothing);
    assert_eq!(s.phase(), Phase::Destroyed);
    assert_eq!(s.handle(Input::Stopped), Action::Nothing);
}

#[test]
fn close_before_start_needs_no_unregister() {
    let mut s: Session = Subscriber::new(0);
    assert_eq!(s.handle(Input::Stopped), Action::Nothing);
    assert_eq!(s.phase(), Phase::Destroyed);
    assert_eq!(s.handle(Input::Start), Action::Nothing);
}

#[test]
fn close_during_registration_then_accepted_unregisters() {
    let mut s: Session = Subscriber::new(0);
    s.handle(Input::Start);
    assert_eq!(s.handle(Input::Stopped), Action::Nothing);
    assert_eq!(s.phase(), Phase::Cancelling);
    assert_eq!(s.handle(Input::Registered(true)), Action::Unregister);
    assert_eq!(s.phase(), Phase::Stopping);
    assert_eq!(s.handle(Input::Unregistered(true)), Action::Nothing);
    assert_eq!(s.phase(), Phase::Destroyed);
}

#[test]
fn close_during_registration_then_refused_ends() {
    let mut s: Session = Subscriber::new(0);
    s.handle(Input::Start);
    s.handle(Input::Stopped);
    assert_eq!(s.handle(Input::Registered(false)), Action::Nothing);
    assert_eq!(s.phase(), Phase::Destroyed);
    assert!(!s.is_registered());
}

#[test]
fn ping_yields_pong_before_and_after_filter() {
    let mut s = registered();
    assert_eq!(s.handle(ping(b"abc")), Action::Pong(b"abc".to_vec()));
    assert_eq!(s.phase(), Phase::Active);
    assert!(s.filter().is_none());
    assert_eq!(s.handle(text("f")), Action::ParseFilter("f".to_string()));
    assert_eq!(s.handle(ping(b"")), Action::Pong(Vec::new()));
    assert_eq!(s.handle(Input::FilterParsed(Some("f".to_string()))), Action::Nothing);
    assert_eq!(s.handle(ping(b"z")), Action::Pong(b"z".to_vec()));
    assert_eq!(s.filter(), Some(&"f".to_string()));
    assert_eq!(s.handle_new_events(&vec![true, false]), vec![0]);
}

#[test]
fn other_frames_are_ignored() {
    let mut s = with_filter("f");
    assert_eq!(s.handle(Input::Client(ClientMessage::Other)), Action::Nothing);
    assert_eq!(s.phase(), Phase::Active);
    assert_eq!(s.filter(), Some(&"f".to_string()));
}

#[test]
fn matching_positions_of_edge_batches() {
    assert!(matching_positions(&Vec::new()).is_empty());
    assert!(matching_positions(&vec![false, false]).is_empty());
    assert_eq!(matching_positions(&vec![true, true, true]), vec![0, 1, 2]);
    assert_eq!(matching_positions(&vec![false, false, true, false, true]), vec![2, 4]);
}

#[test]
fn frame_batch_stops_at_first_encoding_failure() {
    let out = frame_batch(vec![Some("a".to_string()), None, Some("c".to_string())]);
    assert!(out.fatal);
    assert_eq!(out.messages, vec!["a".to_string()]);
}

#[test]
fn frame_batch_edges() {
    let empty = frame_batch(Vec::new());
    assert!(!empty.fatal);
    assert!(empty.messages.is_empty());
    let first_fails = frame_batch(vec![None, Some("b".to_string())]);
    assert!(first_fails.fatal);
    assert!(first_fails.messages.is_empty());
    let all = frame_batch(vec![Some("x".to_string()), Some("y".to_string())]);
    assert!(!all.fatal);
    assert_eq!(all.messages, vec!["x".to_string(), "y".to_string()]);
}

#[test]
fn encoding_failure_closes_and_unregisters_once() {
    let mut s = with_filter("f");
    let out = frame_batch(vec![None]);
    assert!(out.fatal);
    assert_eq!(s.handle(Input::DeliveryFailed), Action::Close);
    assert_eq!(s.phase(), Phase::Closing);
    assert_eq!(s.handle(Input::DeliveryFailed), Action::Nothing);
    assert_eq!(s.handle(Input::Stopped), Action::Unregister);
    assert_eq!(s.handle(Input::Unregistered(true)), Action::Nothing);
    assert_eq!(s.phase(), Phase::Destroyed);
}
