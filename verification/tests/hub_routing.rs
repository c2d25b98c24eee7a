use auto_update::command::Command;
use auto_update::gateway::{connect, send_message, sessions, GatewayError};
use auto_update::message_server::{ConnectServer, DisconnectServer, MessageServer, SendCommand};
use auto_update::session::{Session, SessionMessage};

fn hub_with(ids: &[u64]) -> MessageServer<String> {
    let mut hub = MessageServer::new();
    for id in ids {
        hub.connect(ConnectServer { session_id: *id, addr: format!("channel-{}", id) });
    }
    hub
}

#[test]
fn a_command_reaches_the_session_it_is_for() {
    let hub = hub_with(&[1, 2]);
    let d = hub.send_command(SendCommand { session_id: 2, command: Command::Update }).unwrap();
    assert_eq!(d.session_id, 2);
    assert_eq!(d.addr, "channel-2");
    assert_eq!(d.message, SessionMessage(String::from("\"Update\"")));
}

#[test]
fn a_command_for_an_absent_session_is_dropped() {
    let hub = hub_with(&[1, 2]);
    assert!(hub.send_command(SendCommand { session_id: 3, command: Command::Update }).is_none());
    let empty: MessageServer<String> = MessageServer::new();
    assert!(empty.send_command(SendCommand { session_id: 1, command: Command::Dummy }).is_none());
}

#[test]
fn the_last_registration_wins() {
    let mut hub = hub_with(&[1]);
    hub.connect(ConnectServer { session_id: 1, addr: String::from("newer") });
    let d = hub.send_command(SendCommand { session_id: 1, command: Command::Dummy }).unwrap();
    assert_eq!(d.addr, "newer");
    assert_eq!(d.message, SessionMessage(String::from("\"Dummy\"")));
}

#[test]
fn disconnecting_twice_is_harmless() {
    let mut hub = hub_with(&[1, 2]);
    hub.disconnect(DisconnectServer(1));
    hub.disconnect(DisconnectServer(1));
    hub.disconnect(DisconnectServer(9));
    assert!(!hub.is_connected(1));
    assert!(hub.is_connected(2));
}

#[test]
fn a_broadcast_reaches_each_session_exactly_once() {
    let hub = hub_with(&[10, 20]);
    let deliveries = hub.broadcast(Command::Update, &vec![10, 20]);
    assert_eq!(deliveries.len(), 2);
    assert_eq!(deliveries[0].session_id, 10);
    assert_eq!(deliveries[0].addr, "channel-10");
    assert_eq!(deliveries[0].message, SessionMessage(String::from("\"Update\"")));
    assert_eq!(deliveries[1].session_id, 20);
    assert_eq!(deliveries[1].addr, "channel-20");
    assert_eq!(deliveries[1].message, SessionMessage(String::from("\"Update\"")));
}

#[test]
fn an_absent_target_does_not_disturb_the_others() {
    let hub = hub_with(&[10, 20]);
    let deliveries = hub.broadcast(Command::Dummy, &vec![99, 10, 98, 20, 97]);
    let reached: Vec<u64> = deliveries.iter().map(|d| d.session_id).collect();
    assert_eq!(reached, vec![10, 20]);
    let without = hub.broadcast(Command::Dummy, &vec![10, 20]);
    let reached: Vec<u64> = without.iter().map(|d| d.session_id).collect();
    assert_eq!(reached, vec![10, 20]);
}

#[test]
fn a_broadcast_to_nobody_delivers_nothing() {
    let hub = hub_with(&[10]);
    assert!(hub.broadcast(Command::Update, &vec![]).is_empty());
    assert!(hub.broadcast(Command::Update, &vec![1, 2, 3]).is_empty());
}

#[test]
fn a_session_registers_and_takes_its_leave_under_its_own_id() {
    let session = Session::new(42);
    assert_eq!(session.id(), 42);
    let hello = session.started(String::from("socket"));
    assert_eq!(hello.session_id, 42);
    assert_eq!(hello.addr, "socket");
    let (remove, disconnect) = session.finished();
    assert_eq!(remove.0, 42);
    assert_eq!(disconnect.0, 42);
}

#[test]
fn a_session_pushes_the_text_it_is_given() {
    let session = Session::new(1);
    assert_eq!(session.handle(SessionMessage(String::from("\"Update\""))), "\"Update\"");
}

#[test]
fn a_disconnected_session_is_no_longer_routed_to() {
    let mut hub = hub_with(&[5]);
    let session = Session::new(5);
    let (_, disconnect) = session.finished();
    hub.disconnect(disconnect);
    assert!(hub.send_command(SendCommand { session_id: 5, command: Command::Update }).is_none());
}

#[test]
fn the_gateway_answers_with_what_the_registry_gave() {
    assert_eq!(connect(Some(7)).ok().map(|s| s.id()), Some(7));
    assert_eq!(sessions(Some(vec![3, 1, 2])), Ok(vec![3, 1, 2]));
    let requests = send_message(Some(vec![3, 1]), Command::Update).ok().unwrap();
    assert_eq!(requests.len(), 2);
    assert_eq!(requests[0].session_id, 3);
    assert_eq!(requests[0].command, Command::Update);
    assert_eq!(requests[1].session_id, 1);
    assert_eq!(requests[1].command, Command::Update);
    assert_eq!(send_message(Some(vec![]), Command::Dummy).ok().unwrap().len(), 0);
}

#[test]
fn a_dead_registry_is_a_mailbox_error() {
    assert_eq!(connect(None).err(), Some(GatewayError::Mailbox));
    assert_eq!(sessions(None), Err(GatewayError::Mailbox));
    assert_eq!(send_message(None, Command::Update).err(), Some(GatewayError::Mailbox));
    assert_eq!(GatewayError::Mailbox.message(), "Mailbox");
}
