use tokio_tungstenite::tungstenite::Message;
use url::Url;
use ws_session::message::WebSocketMessage;
use ws_session::sender::WebSocketSender;
use ws_session::session::{Outbound, WebSocketSession};
use ws_session::status::WebSocketStatus;

fn address() -> Url {
    Url::parse("ws://localhost:3012").unwrap()
}

fn text(payload: &str) -> Message {
    Message::Text(payload.to_string())
}

fn connected() -> WebSocketSession {
    let mut session = WebSocketSender::connect(address());
    assert!(session.connect_finished(Ok(())));
    session
}

#[test]
fn test_connect() {
    let mut session = WebSocketSender::connect(Url::parse("ws://localhost:3012").unwrap());
    let mut index = 1;
    while index <= 7 {
        println!("{:?}", session);
        if session.get_status() == WebSocketStatus::Connect {
            session.send_message(Message::Text("hello".to_string()));
        }
        if index > 5 {
            session.disconnect();
        }
        index = index + 1;
    }
    assert_eq!(session.get_status(), WebSocketStatus::Disconnect);
    assert!(session.history().is_empty());
}

#[test]
fn connect_hands_out_a_connecting_session() {
    let session = WebSocketSender::connect(address());
    assert_eq!(session.get_status(), WebSocketStatus::Connecting);
    assert!(session.history().is_empty());
    assert_eq!(session.queued(), 0);
    assert_eq!(session.url().as_str(), "ws://localhost:3012/");
    assert_eq!(*session.url(), address());
}

#[test]
fn failed_handshake_ends_the_session_with_empty_history() {
    let mut session = WebSocketSender::connect(address());
    let start = session.connect_finished(Err("connection refused".to_string()));
    assert!(!start);
    assert_eq!(
        session.get_status(),
        WebSocketStatus::ConnectError("connection refused".to_string())
    );
    assert!(session.history().is_empty());
    let mut session = session;
    assert_eq!(session.next_outbound(), Outbound::Stop);
}

#[test]
fn sent_payload_is_recorded_and_handed_to_the_network() {
    let mut session = connected();
    assert_eq!(session.get_status(), WebSocketStatus::Connect);
    assert!(session.send_message_at(1_700_000_000_000, text("hello")));
    assert_eq!(
        session.history(),
        vec![WebSocketMessage::Send(1_700_000_000_000, text("hello"))]
    );
    assert_eq!(session.queued(), 1);
    assert_eq!(session.next_outbound(), Outbound::Write(text("hello")));
    assert_eq!(session.queued(), 0);
    assert_eq!(session.next_outbound(), Outbound::Wait);
    assert_eq!(session.get_status(), WebSocketStatus::Connect);
    assert_eq!(session.history().len(), 1);
}

#[test]
fn received_payload_is_recorded() {
    let mut session = connected();
    assert!(session.receive_at(42, text("ping")));
    assert_eq!(session.history(), vec![WebSocketMessage::Receive(42, text("ping"))]);
    assert_eq!(session.queued(), 0);
    assert_eq!(session.get_status(), WebSocketStatus::Connect);
}

#[test]
fn disconnect_while_connected_stops_everything() {
    let mut session = connected();
    assert!(session.send_message_at(1, text("a")));
    assert!(session.receive_at(2, text("b")));
    session.disconnect();
    assert_eq!(session.get_status(), WebSocketStatus::Disconnect);
    assert_eq!(session.queued(), 0);
    let before = session.history();
    assert!(!session.receive_at(3, text("late")));
    assert!(!session.send_message_at(4, text("late too")));
    assert_eq!(session.next_outbound(), Outbound::Stop);
    assert_eq!(session.history(), before);
    assert_eq!(before.len(), 2);
}

#[test]
fn failed_write_ends_the_session_and_abandons_the_queue() {
    let mut session = connected();
    assert!(session.send_message_at(1, text("first")));
    assert!(session.send_message_at(2, text("second")));
    assert_eq!(session.next_outbound(), Outbound::Write(text("first")));
    session.write_failed("broken pipe".to_string());
    assert_eq!(
        session.get_status(),
        WebSocketStatus::SendError("broken pipe".to_string())
    );
    assert_eq!(session.queued(), 0);
    assert_eq!(session.next_outbound(), Outbound::Stop);
    assert_eq!(session.next_outbound(), Outbound::Stop);
    assert_eq!(session.history().len(), 2);
}

#[test]
fn early_sends_are_written_in_submission_order() {
    let mut session = WebSocketSender::connect(address());
    assert!(session.send_message_at(10, text("one")));
    assert!(session.send_message_at(11, text("two")));
    assert!(session.send_message_at(12, Message::Binary(vec![1, 2, 3])));
    assert_eq!(session.queued(), 3);
    assert_eq!(session.next_outbound(), Outbound::Stop);
    assert_eq!(session.queued(), 3);
    assert!(session.connect_finished(Ok(())));
    assert_eq!(session.next_outbound(), Outbound::Write(text("one")));
    assert_eq!(session.next_outbound(), Outbound::Write(text("two")));
    assert_eq!(
        session.next_outbound(),
        Outbound::Write(Message::Binary(vec![1, 2, 3]))
    );
    assert_eq!(session.next_outbound(), Outbound::Wait);
}

#[test]
fn early_sends_are_discarded_together_on_failure() {
    let mut session = WebSocketSender::connect(address());
    assert!(session.send_message_at(10, text("one")));
    assert!(session.send_message_at(11, text("two")));
    assert!(!session.connect_finished(Err("no route".to_string())));
    assert_eq!(session.queued(), 0);
    assert_eq!(session.next_outbound(), Outbound::Stop);
    assert_eq!(
        session.history(),
        vec![
            WebSocketMessage::Send(10, text("one")),
            WebSocketMessage::Send(11, text("two")),
        ]
    );
}

#[test]
fn terminal_status_never_becomes_live_again() {
    let mut session = WebSocketSender::connect(address());
    assert!(!session.connect_finished(Err("refused".to_string())));
    let ended = WebSocketStatus::ConnectError("refused".to_string());
    assert!(!session.connect_finished(Ok(())));
    assert_eq!(session.get_status(), ended);
    session.disconnect();
    assert_eq!(session.get_status(), ended);
    session.write_failed("late".to_string());
    assert_eq!(session.get_status(), ended);
    assert!(!session.receive_at(1, text("x")));
    assert!(!session.send_message_at(2, text("y")));
    assert_eq!(session.next_outbound(), Outbound::Stop);
    assert_eq!(session.get_status(), ended);
    assert!(session.history().is_empty());
}

#[test]
fn disconnect_before_the_handshake_ends_wins() {
    let mut session = WebSocketSender::connect(address());
    assert!(session.send_message_at(1, text("queued")));
    session.disconnect();
    assert_eq!(session.queued(), 0);
    assert!(!session.connect_finished(Ok(())));
    assert_eq!(session.get_status(), WebSocketStatus::Disconnect);
    assert_eq!(session.next_outbound(), Outbound::Stop);
}

#[test]
fn second_handshake_report_changes_nothing() {
    let mut session = connected();
    assert!(!session.connect_finished(Ok(())));
    assert_eq!(session.get_status(), WebSocketStatus::Connect);
    assert!(!session.connect_finished(Err("late".to_string())));
    assert_eq!(session.get_status(), WebSocketStatus::Connect);
}

#[test]
fn write_failure_after_disconnect_keeps_disconnect() {
    let mut session = connected();
    session.disconnect();
    session.write_failed("reset".to_string());
    assert_eq!(session.get_status(), WebSocketStatus::Disconnect);
}

#[test]
fn frames_before_connection_are_not_recorded() {
    let mut session = WebSocketSender::connect(address());
    assert!(!session.receive_at(1, text("early")));
    assert!(session.history().is_empty());
    assert_eq!(session.get_status(), WebSocketStatus::Connecting);
}

#[test]
fn history_keeps_each_direction_in_order() {
    let mut session = connected();
    assert!(session.receive_at(1, text("r1")));
    assert!(session.send_message_at(2, text("s1")));
    assert!(session.receive_at(3, text("r2")));
    assert!(session.send_message_at(4, text("s2")));
    assert!(session.receive_at(5, text("r3")));
    let history = session.history();
    assert_eq!(
        history,
        vec![
            WebSocketMessage::Receive(1, text("r1")),
            WebSocketMessage::Send(2, text("s1")),
            WebSocketMessage::Receive(3, text("r2")),
            WebSocketMessage::Send(4, text("s2")),
            WebSocketMessage::Receive(5, text("r3")),
        ]
    );
    let received: Vec<Message> = history
        .iter()
        .filter(|record| record.is_receive())
        .map(|record| record.message().clone())
        .collect();
    assert_eq!(received, vec![text("r1"), text("r2"), text("r3")]);
    let sent: Vec<i64> = history
        .iter()
        .filter(|record| !record.is_receive())
        .map(|record| record.timestamp())
        .collect();
    assert_eq!(sent, vec![2, 4]);
}

#[test]
fn set_status_overwrites_and_touches_nothing_else() {
    let mut session = connected();
    assert!(session.send_message_at(1, text("a")));
    session.set_status(WebSocketStatus::SendError("x".to_string()));
    assert_eq!(session.get_status(), WebSocketStatus::SendError("x".to_string()));
    assert_eq!(session.queued(), 1);
    assert_eq!(session.history().len(), 1);
    session.set_status(WebSocketStatus::Connect);
    assert_eq!(session.get_status(), WebSocketStatus::Connect);
    assert_eq!(session.next_outbound(), Outbound::Write(text("a")));
}

#[test]
fn add_message_appends_whatever_the_status() {
    let mut session = WebSocketSender::connect(address());
    session.add_message(WebSocketMessage::Receive(7, text("x")));
    session.add_message(WebSocketMessage::Send(8, text("y")));
    assert_eq!(
        session.history(),
        vec![
            WebSocketMessage::Receive(7, text("x")),
            WebSocketMessage::Send(8, text("y")),
        ]
    );
    assert_eq!(session.queued(), 0);
    assert_eq!(session.get_status(), WebSocketStatus::Connecting);
}

#[test]
fn clock_stamps_sent_and_received_records() {
    let mut session = connected();
    assert!(session.send_message(text("hello")));
    assert!(session.receive(text("ping")));
    let history = session.history();
    assert_eq!(history.len(), 2);
    assert!(matches!(&history[0], WebSocketMessage::Send(_, frame) if *frame == text("hello")));
    assert!(matches!(&history[1], WebSocketMessage::Receive(_, frame) if *frame == text("ping")));
    assert!(history[0].timestamp() > 1_600_000_000_000);
    assert!(history[1].timestamp() >= history[0].timestamp());
    assert_eq!(session.next_outbound(), Outbound::Write(text("hello")));
}

#[test]
fn clock_operations_refuse_on_a_terminal_session() {
    let mut session = connected();
    session.disconnect();
    assert!(!session.send_message(text("hello")));
    assert!(!session.receive(text("ping")));
    assert!(session.history().is_empty());
}

#[test]
fn status_predicates_and_equality() {
    assert!(WebSocketStatus::Connect.is_connect());
    assert!(!WebSocketStatus::Connecting.is_connect());
    assert!(!WebSocketStatus::Connecting.is_terminal());
    assert!(!WebSocketStatus::Connect.is_terminal());
    assert!(WebSocketStatus::Disconnect.is_terminal());
    assert!(WebSocketStatus::ConnectError("a".to_string()).is_terminal());
    assert!(WebSocketStatus::SendError("a".to_string()).is_terminal());
    assert_eq!(
        WebSocketStatus::SendError("a".to_string()),
        WebSocketStatus::SendError("a".to_string())
    );
    assert_ne!(
        WebSocketStatus::SendError("a".to_string()),
        WebSocketStatus::SendError("b".to_string())
    );
    assert_ne!(
        WebSocketStatus::SendError("a".to_string()),
        WebSocketStatus::ConnectError("a".to_string())
    );
    assert_ne!(WebSocketStatus::Connecting, WebSocketStatus::Connect);
    let status = WebSocketStatus::ConnectError("why".to_string());
    assert_eq!(status.clone(), status);
}

#[test]
fn record_accessors_and_clone() {
    let record = WebSocketMessage::Send(5, text("p"));
    assert_eq!(record.timestamp(), 5);
    assert_eq!(*record.message(), text("p"));
    assert!(!record.is_receive());
    let copy = record.clone();
    assert_eq!(copy, record);
    let other = WebSocketMessage::Receive(6, Message::Binary(vec![9]));
    assert!(other.is_receive());
    assert_eq!(other.timestamp(), 6);
    assert_eq!(*other.message(), Message::Binary(vec![9]));
    assert_ne!(other, record);
}

#[test]
fn sender_has_its_std_traits() {
    let sender = WebSocketSender::default();
    assert_eq!(sender.clone(), sender);
}
