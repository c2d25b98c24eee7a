use auto_update::backoff::Backoff;
use auto_update::command::Command;
use auto_update::connection::{Action, Connection, Frame, FrameError, LinkState};
use auto_update::connection::{ProtocolError, Running};
use auto_update::download::Artifact;
use auto_update::updater::{UpdateAction, UpdateEvent};

const HUB: &str = "http://127.0.0.1:8080/ws";

fn fetch_updater() -> Action {
    Action::Update(UpdateAction::Fetch(Artifact {
        url: "http://127.0.0.1:8080/updater",
        path: "storage/client/updater",
    }))
}

fn connected() -> Connection {
    let mut c = Connection::new(String::from(HUB));
    c.try_connect();
    assert_eq!(c.connect_result(true), Action::ReadFrames);
    c
}

#[test]
fn a_new_connection_is_idle() {
    let c = Connection::new(String::from(HUB));
    assert_eq!(c.link(), LinkState::Disconnected);
    assert_eq!(c.timing_index(), 0);
    assert!(!c.restarting());
}

#[test]
fn starting_dials_the_hub() {
    let mut c = Connection::new(String::from(HUB));
    assert_eq!(c.started(), Action::Connect(String::from(HUB)));
    assert_eq!(c.link(), LinkState::Connecting);
}

#[test]
fn only_one_attempt_is_in_flight() {
    let mut c = Connection::new(String::from(HUB));
    assert_eq!(c.try_connect(), Action::Connect(String::from(HUB)));
    assert_eq!(c.try_connect(), Action::Nothing);
    let mut up = connected();
    assert_eq!(up.try_connect(), Action::Nothing);
    assert_eq!(up.link(), LinkState::Connected);
}

#[test]
fn a_result_without_an_attempt_is_passed_over() {
    let mut c = Connection::new(String::from(HUB));
    assert_eq!(c.connect_result(false), Action::Nothing);
    assert_eq!(c.connect_result(true), Action::Nothing);
    assert_eq!(c.link(), LinkState::Disconnected);
    assert_eq!(c.timing_index(), 0);
}

#[test]
fn three_failures_wait_two_four_six_and_success_resets() {
    let mut c = Connection::with_backoff(
        String::from(HUB),
        Backoff::new(vec![0, 2, 4, 6, 8]).unwrap(),
    );
    let mut delays = Vec::new();
    for _ in 0..3 {
        assert_eq!(c.try_connect(), Action::Connect(String::from(HUB)));
        match c.connect_result(false) {
            Action::RetryAfter(secs) => delays.push(secs),
            other => panic!("unexpected action {:?}", other),
        }
        assert_eq!(c.link(), LinkState::Disconnected);
    }
    assert_eq!(delays, vec![2, 4, 6]);
    assert_eq!(c.timing_index(), 3);
    c.try_connect();
    assert_eq!(c.connect_result(true), Action::ReadFrames);
    assert_eq!(c.link(), LinkState::Connected);
    assert_eq!(c.timing_index(), 0);
    assert_eq!(c.finished(), Action::Connect(String::from(HUB)));
    assert_eq!(c.connect_result(false), Action::RetryAfter(2));
    assert_eq!(c.timing_index(), 1);
}

#[test]
fn the_delay_stops_growing_at_the_last_entry() {
    let mut c = Connection::new(String::from(HUB));
    let mut last = Action::Nothing;
    for _ in 0..9 {
        c.try_connect();
        last = c.connect_result(false);
    }
    assert_eq!(last, Action::RetryAfter(8));
    assert_eq!(c.timing_index(), 4);
}

#[test]
fn a_dropped_link_reconnects_at_once() {
    let mut c = connected();
    assert_eq!(c.finished(), Action::Connect(String::from(HUB)));
    assert_eq!(c.link(), LinkState::Connecting);
    assert_eq!(c.timing_index(), 0);
}

#[test]
fn a_ping_is_answered_while_the_link_is_up() {
    let mut c = connected();
    assert_eq!(c.handle_frame(Frame::Ping(vec![1, 2, 3])), Ok(Action::Pong(vec![1, 2, 3])));
    let mut down = Connection::new(String::from(HUB));
    assert_eq!(down.handle_frame(Frame::Ping(vec![1, 2, 3])), Ok(Action::Nothing));
}

#[test]
fn pongs_and_other_frames_are_passed_over() {
    let mut c = connected();
    assert_eq!(c.handle_frame(Frame::Pong(vec![9])), Ok(Action::Nothing));
    assert_eq!(c.handle_frame(Frame::Other), Ok(Action::Nothing));
    assert_eq!(c.link(), LinkState::Connected);
}

#[test]
fn a_malformed_text_frame_is_an_error_and_keeps_the_link() {
    let mut c = connected();
    assert_eq!(
        c.handle_frame(Frame::Text(b"{\"nonsense\":1}".to_vec())),
        Err(FrameError::InvalidMessage)
    );
    assert_eq!(c.link(), LinkState::Connected);
    assert!(!c.restarting());
    assert_eq!(c.handle(Ok(Frame::Text(b"not json".to_vec()))), Action::Nothing);
    assert_eq!(c.link(), LinkState::Connected);
}

#[test]
fn a_stream_fault_keeps_the_link() {
    let mut c = connected();
    assert_eq!(c.handle(Err(ProtocolError(String::from("bad opcode")))), Action::Nothing);
    assert_eq!(c.link(), LinkState::Connected);
}

#[test]
fn a_dummy_command_does_nothing() {
    let mut c = connected();
    let frame = Frame::Text(Command::Dummy.encode().into_bytes());
    assert_eq!(c.handle_frame(frame), Ok(Action::Nothing));
    assert!(!c.restarting());
}

#[test]
fn an_update_command_starts_the_sequence_once() {
    let mut c = connected();
    let frame = Frame::Text(Command::Update.encode().into_bytes());
    assert_eq!(c.handle_frame(frame), Ok(fetch_updater()));
    assert!(c.restarting());
    let again = Frame::Text(Command::Update.encode().into_bytes());
    assert_eq!(c.handle(Ok(again)), Action::Nothing);
    assert!(c.restarting());
    assert_eq!(c.dispatch(Command::Update), Action::Nothing);
}

#[test]
fn restart_fetches_the_updater_first() {
    let mut c = connected();
    assert_eq!(c.restart(), fetch_updater());
    assert!(c.restarting());
}

#[test]
fn a_failed_second_download_clears_the_guard_and_spawns_nothing() {
    let mut c = connected();
    assert_eq!(c.dispatch(Command::Update), fetch_updater());
    assert_eq!(
        c.update_event(UpdateEvent::Downloaded),
        UpdateAction::Fetch(Artifact {
            url: "http://127.0.0.1:8080/app",
            path: "storage/client/app",
        })
    );
    assert!(c.restarting());
    assert_eq!(c.update_event(UpdateEvent::DownloadFailed), UpdateAction::Resume);
    assert!(!c.restarting());
    assert_eq!(c.update_event(UpdateEvent::Spawned), UpdateAction::Ignore);
    assert_eq!(c.link(), LinkState::Connected);
    assert_eq!(c.dispatch(Command::Update), fetch_updater());
}

#[test]
fn a_completed_update_hands_over_and_clears_the_guard() {
    let mut c = connected();
    c.dispatch(Command::Update);
    c.update_event(UpdateEvent::Downloaded);
    assert_eq!(
        c.update_event(UpdateEvent::Downloaded),
        UpdateAction::Spawn("storage/client/updater")
    );
    assert_eq!(c.update_event(UpdateEvent::Spawned), UpdateAction::Stop);
    assert!(!c.restarting());
}

#[test]
fn a_failed_spawn_leaves_the_process_running() {
    let mut c = connected();
    c.dispatch(Command::Update);
    c.update_event(UpdateEvent::Downloaded);
    c.update_event(UpdateEvent::Downloaded);
    assert_eq!(c.update_event(UpdateEvent::SpawnFailed), UpdateAction::Resume);
    assert!(!c.restarting());
}

#[test]
fn the_update_survives_a_dropped_link() {
    let mut c = connected();
    c.dispatch(Command::Update);
    c.finished();
    assert!(c.restarting());
    assert_eq!(c.link(), LinkState::Connecting);
}

#[test]
fn a_connection_asked_to_stop_stops() {
    let c = Connection::new(String::from(HUB));
    assert_eq!(c.stopping(), Running::Stop);
}
