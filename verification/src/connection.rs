//! The client's link to the hub: connecting, reconnecting with backoff,
//! answering frames, and guarding the self-update sequence.
//!
//! A `Connection` owns all of this state and is driven by one caller, which
//! does the network work and reports each event. The connection answers with
//! the action to perform. It never gives up: every dropped link and every
//! failed attempt leads to another attempt.

use vstd::prelude::*;
use crate::backoff::{advanced, standard_schedule, Backoff};
use crate::command::Command;
use crate::updater::{next_action, next_stage, updater_artifact, SelfUpdater};
use crate::updater::{UpdateAction, UpdateEvent, UpdateStage};

verus! {

/// Whether the link to the hub is up.
#[derive(Clone, Copy, Debug, PartialEq, Eq, Structural)]
pub enum LinkState {
    /// No link and no attempt in flight.
    Disconnected,
    /// A handshake is out; its result is awaited.
    Connecting,
    /// The link is up and frames are being read.
    Connected,
}

/// One frame read from the hub.
#[derive(Debug, PartialEq, Eq)]
pub enum Frame {
    /// A ping, with its payload.
    Ping(Vec<u8>),
    /// A pong, with its payload.
    Pong(Vec<u8>),
    /// A text frame, which should hold a command.
    Text(Vec<u8>),
    /// Any other kind of frame.
    Other,
}

/// A fault of the frame stream itself, with the caller's description of it.
#[derive(Debug, PartialEq, Eq)]
pub struct ProtocolError(pub String);

/// Why a frame could not be handled.
#[derive(Clone, Copy, Debug, PartialEq, Eq, Structural)]
pub enum FrameError {
    /// A text frame that holds no command.
    InvalidMessage,
}

/// Whether an actor that is asked to stop does so.
#[derive(Clone, Copy, Debug, PartialEq, Eq, Structural)]
pub enum Running {
    /// Stop now.
    Stop,
    /// Keep running.
    Continue,
}

/// What the caller has to do next.
#[derive(Debug, PartialEq, Eq)]
pub enum Action {
    /// Nothing.
    Nothing,
    /// Open a link to the hub at this address and report the result.
    Connect(String),
    /// The link is up: start reading frames from it.
    ReadFrames,
    /// Wait this many seconds, then ask for the next connect attempt.
    RetryAfter(u64),
    /// Send a pong with this payload on the link.
    Pong(Vec<u8>),
    /// Perform this step of the update sequence and report the result.
    Update(UpdateAction),
}

/// The state of a connection, as far as its rules are concerned.
pub struct ConnectionView {
    /// The hub's address.
    pub url: Seq<char>,
    /// Whether the link is up.
    pub link: LinkState,
    /// The delays of the retry policy.
    pub schedule: Seq<u64>,
    /// The position in the schedule.
    pub position: nat,
    /// The stage of the update sequence in flight, if there is one.
    pub update: Option<UpdateStage>,
}

impl ConnectionView {
    /// Whether the state is sound: the position lies within the schedule.
    pub open spec fn wf(self) -> bool {
        self.position < self.schedule.len()
    }

    /// Whether an update sequence is in flight.
    pub open spec fn restarting(self) -> bool {
        self.update is Some
    }

    /// The state after a connect attempt was asked for: an attempt starts
    /// only where there is neither a link nor an attempt.
    pub open spec fn after_try_connect(self) -> ConnectionView {
        if self.link == LinkState::Disconnected {
            ConnectionView { link: LinkState::Connecting, ..self }
        } else {
            self
        }
    }

    /// The state after the attempt in flight has ended. Success brings the
    /// link up and puts the retry policy back on its first entry; failure
    /// moves the policy one step on. Without an attempt in flight nothing
    /// changes.
    pub open spec fn after_connect_result(self, established: bool) -> ConnectionView {
        if self.link != LinkState::Connecting {
            self
        } else if established {
            ConnectionView { link: LinkState::Connected, position: 0, ..self }
        } else {
            ConnectionView {
                link: LinkState::Disconnected,
                position: advanced(self.position, self.schedule.len()),
                ..self
            }
        }
    }

    /// The state after the link has dropped: the next attempt is under way.
    pub open spec fn after_finished(self) -> ConnectionView {
        ConnectionView { link: LinkState::Connecting, ..self }
    }

    /// The state after a command was received. An update command starts an
    /// update sequence unless one is in flight; nothing else changes anything.
    pub open spec fn after_command(self, command: Command) -> ConnectionView {
        if command == Command::Update && !self.restarting() {
            ConnectionView { update: Some(UpdateStage::FetchingUpdater), ..self }
        } else {
            self
        }
    }

    /// The state after a step of the update sequence was reported. A
    /// sequence that ends is let go of, so that the next update command is
    /// accepted again.
    pub open spec fn after_update_event(self, event: UpdateEvent) -> ConnectionView {
        match self.update {
            Some(stage) => {
                let next = next_stage(stage, event);
                if next is Done {
                    ConnectionView { update: None, ..self }
                } else {
                    ConnectionView { update: Some(next), ..self }
                }
            },
            None => self,
        }
    }
}

/// The client's side of the link to the hub.
pub struct Connection {
    url: String,
    link: LinkState,
    backoff: Backoff,
    updater: Option<SelfUpdater>,
}

impl View for Connection {
    type V = ConnectionView;

    closed spec fn view(&self) -> ConnectionView {
        ConnectionView {
            url: self.url@,
            link: self.link,
            schedule: self.backoff.schedule(),
            position: self.backoff.position(),
            update: match self.updater {
                Some(u) => Some(u.stage()),
                None => None,
            },
        }
    }
}

impl Connection {
    /// A connection to the hub at `url`, with the standard retry policy:
    /// not linked, no failure counted, no update in flight.
    pub fn new(url: String) -> (c: Connection)
        ensures
            c@ == (ConnectionView {
                url: url@,
                link: LinkState::Disconnected,
                schedule: standard_schedule(),
                position: 0,
                update: None,
            }),
            c@.wf(),
    {
        Connection {
            url,
            link: LinkState::Disconnected,
            backoff: Backoff::standard(),
            updater: None,
        }
    }

    /// A connection to the hub at `url` that retries by the given policy.
    pub fn with_backoff(url: String, backoff: Backoff) -> (c: Connection)
        ensures
            c@ == (ConnectionView {
                url: url@,
                link: LinkState::Disconnected,
                schedule: backoff.schedule(),
                position: backoff.position(),
                update: None,
            }),
            c@.wf(),
    {
        proof {
            use_type_invariant(&backoff);
        }
        Connection { url, link: LinkState::Disconnected, backoff, updater: None }
    }

    /// Whether the link is up.
    pub fn link(&self) -> (l: LinkState)
        ensures
            l == self@.link,
    {
        self.link
    }

    /// The position of the retry policy in its schedule.
    pub fn timing_index(&self) -> (i: usize)
        ensures
            i == self@.position,
            self@.position < self@.schedule.len(),
    {
        self.backoff.index()
    }

    /// Whether an update sequence is in flight.
    pub fn restarting(&self) -> (b: bool)
        ensures
            b == self@.restarting(),
    {
        self.updater.is_some()
    }

    /// Asks for a connect attempt. Where there is neither a link nor an
    /// attempt in flight, one starts and the caller is told to open a link to
    /// the hub; otherwise nothing happens.
    pub fn try_connect(&mut self) -> (action: Action)
        ensures
            final(self)@ == old(self)@.after_try_connect(),
            old(self)@.link == LinkState::Disconnected ==> (action matches Action::Connect(url)
                && url@ == old(self)@.url),
            old(self)@.link != LinkState::Disconnected ==> action == Action::Nothing,
    {
        match self.link {
            LinkState::Disconnected => {
                self.link = LinkState::Connecting;
                Action::Connect(self.url.clone())
            },
            _ => Action::Nothing,
        }
    }

    /// Takes in the result of the attempt in flight. On success the link is
    /// up, the retry policy starts over and the caller is told to read
    /// frames. On failure the policy moves one step on and the caller is told
    /// to wait for the delay at the new position before asking for the next
    /// attempt. Without an attempt in flight nothing happens.
    pub fn connect_result(&mut self, established: bool) -> (action: Action)
        ensures
            final(self)@ == old(self)@.after_connect_result(established),
            action == if old(self)@.link != LinkState::Connecting {
                Action::Nothing
            } else if established {
                Action::ReadFrames
            } else {
                Action::RetryAfter(final(self)@.schedule[final(self)@.position as int])
            },
            final(self)@.position < final(self)@.schedule.len(),
    {
        proof {
            use_type_invariant(&self.backoff);
        }
        match self.link {
            LinkState::Connecting => {
                if established {
                    self.link = LinkState::Connected;
                    self.backoff.reset();
                    Action::ReadFrames
                } else {
                    self.link = LinkState::Disconnected;
                    let delay = self.backoff.advance();
                    Action::RetryAfter(delay)
                }
            },
            _ => Action::Nothing,
        }
    }

    /// The actor has started: the first connect attempt is asked for.
    pub fn started(&mut self) -> (action: Action)
        ensures
            final(self)@ == old(self)@.after_try_connect(),
            old(self)@.link == LinkState::Disconnected ==> (action matches Action::Connect(url)
                && url@ == old(self)@.url),
            old(self)@.link != LinkState::Disconnected ==> action == Action::Nothing,
    {
        self.try_connect()
    }

    /// The actor is asked to stop, and does.
    pub fn stopping(&self) -> (r: Running)
        ensures
            r == Running::Stop,
    {
        Running::Stop
    }

    /// The frame stream has ended: the link is gone, and the next connect
    /// attempt starts at once, whatever the state was.
    pub fn finished(&mut self) -> (action: Action)
        ensures
            final(self)@ == old(self)@.after_finished(),
            action matches Action::Connect(url) && url@ == old(self)@.url,
    {
        self.link = LinkState::Disconnected;
        self.try_connect()
    }

    /// Starts the update sequence and tells the caller to fetch the updater.
    /// A sequence never overlaps with another: none may be in flight.
    pub fn restart(&mut self) -> (action: Action)
        requires
            !old(self)@.restarting(),
        ensures
            final(self)@ == old(self)@.after_command(Command::Update),
            final(self)@.restarting(),
            action == Action::Update(UpdateAction::Fetch(updater_artifact())),
    {
        let (updater, first) = SelfUpdater::start();
        self.updater = Some(updater);
        Action::Update(first)
    }

    /// Acts on a command. An update command starts the update sequence,
    /// unless one is in flight: then it is ignored. A dummy command does
    /// nothing.
    pub fn dispatch(&mut self, command: Command) -> (action: Action)
        ensures
            final(self)@ == old(self)@.after_command(command),
            action == if command == Command::Update && !old(self)@.restarting() {
                Action::Update(UpdateAction::Fetch(updater_artifact()))
            } else {
                Action::Nothing
            },
    {
        match command {
            Command::Update => {
                if self.restarting() {
                    return Action::Nothing;
                }
                self.restart()
            },
            Command::Dummy => Action::Nothing,
        }
    }

    /// Handles one frame. A ping is answered with a pong of the same payload
    /// while the link is up. A text frame is read as a command and acted on;
    /// one that holds no command is an error and changes nothing. Every
    /// other frame is passed over.
    pub fn handle_frame(&mut self, frame: Frame) -> (r: Result<Action, FrameError>)
        ensures
            match frame {
                Frame::Ping(payload) => {
                    &&& final(self)@ == old(self)@
                    &&& r == Ok::<Action, FrameError>(
                        if old(self)@.link == LinkState::Connected {
                            Action::Pong(payload)
                        } else {
                            Action::Nothing
                        },
                    )
                },
                Frame::Text(text) => match Command::decoded(text@) {
                    Some(command) => {
                        &&& final(self)@ == old(self)@.after_command(command)
                        &&& r == Ok::<Action, FrameError>(
                            if command == Command::Update && !old(self)@.restarting() {
                                Action::Update(UpdateAction::Fetch(updater_artifact()))
                            } else {
                                Action::Nothing
                            },
                        )
                    },
                    None => {
                        &&& final(self)@ == old(self)@
                        &&& r == Err::<Action, FrameError>(FrameError::InvalidMessage)
                    },
                },
                _ => {
                    &&& final(self)@ == old(self)@
                    &&& r == Ok::<Action, FrameError>(Action::Nothing)
                },
            },
    {
        match frame {
            Frame::Ping(payload) => {
                match self.link {
                    LinkState::Connected => Ok(Action::Pong(payload)),
                    _ => Ok(Action::Nothing),
                }
            },
            Frame::Pong(_) => Ok(Action::Nothing),
            Frame::Text(text) => {
                match Command::decode(text.as_slice()) {
                    Some(command) => Ok(self.dispatch(command)),
                    None => Err(FrameError::InvalidMessage),
                }
            },
            Frame::Other => Ok(Action::Nothing),
        }
    }

    /// Handles one item of the frame stream. A frame is handled as
    /// `handle_frame` says; a frame that cannot be handled, and a fault of
    /// the stream itself, are passed over and leave the link open.
    pub fn handle(&mut self, item: Result<Frame, ProtocolError>) -> (action: Action)
        ensures
            match item {
                Ok(Frame::Ping(payload)) => {
                    &&& final(self)@ == old(self)@
                    &&& action == if old(self)@.link == LinkState::Connected {
                        Action::Pong(payload)
                    } else {
                        Action::Nothing
                    }
                },
                Ok(Frame::Text(text)) => match Command::decoded(text@) {
                    Some(command) => {
                        &&& final(self)@ == old(self)@.after_command(command)
                        &&& action == if command == Command::Update && !old(self)@.restarting() {
                            Action::Update(UpdateAction::Fetch(updater_artifact()))
                        } else {
                            Action::Nothing
                        }
                    },
                    None => final(self)@ == old(self)@ && action == Action::Nothing,
                },
                _ => final(self)@ == old(self)@ && action == Action::Nothing,
            },
    {
        match item {
            Ok(frame) => match self.handle_frame(frame) {
                Ok(action) => action,
                Err(_) => Action::Nothing,
            },
            Err(_) => Action::Nothing,
        }
    }

    /// Takes in the result of a step of the update sequence and says what to
    /// do next. When the sequence ends, in success or in failure, it is let
    /// go of and the next update command is accepted again. Without a
    /// sequence in flight nothing happens.
    pub fn update_event(&mut self, event: UpdateEvent) -> (action: UpdateAction)
        ensures
            final(self)@ == old(self)@.after_update_event(event),
            action == (match old(self)@.update {
                Some(stage) => next_action(stage, event),
                None => UpdateAction::Ignore,
            }),
    {
        match self.updater.take() {
            Some(mut updater) => {
                let action = updater.step(event);
                if updater.outcome().is_none() {
                    self.updater = Some(updater);
                }
                action
            },
            None => UpdateAction::Ignore,
        }
    }
}

/// The state after `failures` connect attempts in a row that each failed.
pub open spec fn after_failed_attempts(state: ConnectionView, failures: nat) -> ConnectionView
    decreases failures,
{
    if failures == 0 {
        state
    } else {
        after_failed_attempts(
            state.after_try_connect().after_connect_result(false),
            (failures - 1) as nat,
        )
    }
}

/// No event leads out of the sound states: whatever happens, the position of
/// the retry policy stays within its schedule.
pub proof fn lemma_position_stays_in_schedule(
    state: ConnectionView,
    established: bool,
    command: Command,
    event: UpdateEvent,
)
    requires
        state.wf(),
    ensures
        state.after_try_connect().wf(),
        state.after_connect_result(established).wf(),
        state.after_finished().wf(),
        state.after_command(command).wf(),
        state.after_update_event(event).wf(),
{
}

/// Across consecutive failed attempts the position of the retry policy goes
/// up by one per failure until it rests on the last entry of the schedule.
/// Nothing else changes, and the client is ready for yet another attempt.
pub proof fn lemma_failed_attempts_advance(state: ConnectionView, failures: nat)
    requires
        state.wf(),
        state.link == LinkState::Disconnected,
    ensures
        after_failed_attempts(state, failures) == (ConnectionView {
            position: if state.position + failures < state.schedule.len() {
                state.position + failures
            } else {
                (state.schedule.len() - 1) as nat
            },
            ..state
        }),
    decreases failures,
{
    if failures > 0 {
        let next = state.after_try_connect().after_connect_result(false);
        lemma_failed_attempts_advance(next, (failures - 1) as nat);
    }
}

/// A successful attempt puts the retry policy back on its first entry at
/// once, however many failures came before.
pub proof fn lemma_success_resets(state: ConnectionView)
    requires
        state.link == LinkState::Disconnected,
    ensures
        state.after_try_connect().after_connect_result(true) == (ConnectionView {
            link: LinkState::Connected,
            position: 0,
            ..state
        }),
{
}

/// After a dropped link the client is always connecting again.
pub proof fn lemma_drop_reconnects(state: ConnectionView)
    ensures
        state.after_finished().link == LinkState::Connecting,
        state.after_finished().position == state.position,
        state.after_finished().update == state.update,
{
}

/// An update command that arrives while an update sequence is in flight
/// changes nothing: no second sequence starts.
pub proof fn lemma_update_while_restarting_is_ignored(state: ConnectionView)
    requires
        state.restarting(),
    ensures
        state.after_command(Command::Update) == state,
{
}

/// Once an update sequence has ended, in success or in failure, the next
/// update command is accepted and starts a new sequence from its first step.
pub proof fn lemma_update_accepted_after_cycle(state: ConnectionView, event: UpdateEvent)
    requires
        state.update matches Some(stage) && next_stage(stage, event) is Done,
    ensures
        !state.after_update_event(event).restarting(),
        state.after_update_event(event).after_command(Command::Update).update == Some(
            UpdateStage::FetchingUpdater,
        ),
{
}

/// Only an update command that arrives while no sequence is in flight
/// changes the state, and a dummy command never does.
pub proof fn lemma_dummy_changes_nothing(state: ConnectionView)
    ensures
        state.after_command(Command::Dummy) == state,
{
}

} // verus!
