//! The command dispatcher: the single-consumer control loop that owns the
//! session, serializes every operation against it, and turns commands into
//! replies.
//!
//! The dispatcher is a state machine. The embedding program runs the loop:
//! it feeds one [`Event`] at a time to [`Dispatcher::step`], performs the
//! returned [`Action`]s (the I/O: port enumeration, the handshake race,
//! session reads and writes, the file write, spawning and cancelling the
//! scanner task), feeds each action's outcome back as the next event, and
//! delivers the returned [`Reply`]s to the caller. Every decision — and
//! nothing of the I/O — is made here.
//!
//! The dispatcher's visible state is exactly `{ session present, scanner
//! task present }`; `connecting` is the transient phase inside a `Connect`
//! command's execution, and `scanner_gen` numbers the scanner tasks so that
//! a cancelled task's leftover output is recognisably stale.

use vstd::prelude::*;

use crate::export::{export_csv, spec_export};
use crate::protocol::{spec_trim, trim};

verus! {

/// A command from the caller. Commands are consumed exactly once, in
/// arrival order.
#[derive(Debug, Clone, PartialEq)]
pub enum Command {
    /// Discover candidate devices, race handshakes, adopt the winner.
    Connect,
    /// Ask the connected device for its info record.
    Read,
    /// Send one line to the connected device.
    Write(String),
    /// Export the accumulated records to the named file: the path, the
    /// barcode labels, the device output lines.
    Download(String, Vec<String>, Vec<String>),
    /// Cancel the scanner task, if one runs.
    StopScanner,
    /// Cancel the scanner task, if one runs, then start a fresh one.
    StartScanner,
    /// Exit the control loop. Terminal.
    Terminate,
}

/// A reply to the caller. Replies are delivered in the order the triggering
/// events were processed.
#[derive(Debug, Clone, PartialEq)]
pub enum Reply {
    /// Candidates were found; a connection is being attempted.
    Connecting,
    /// A session to the named device is established.
    Connected(String),
    /// No session exists any more (failed connect, lost session, dead probe).
    Disconnected,
    /// The device's info record, trimmed.
    Read(String),
    /// A `Read` could not be served; the reason.
    ReadError(String),
    /// A `Write` could not be served; the reason.
    WriteError(String),
    /// The export failed; the reason.
    DownloadError(String),
    /// One decoded barcode line from the scanner task, trimmed.
    BarcodeOutput(String),
    /// The scanner task could not start or its stream ended. Sent exactly
    /// once per task; the task is not restarted implicitly.
    ScannerStartFail,
}

/// An I/O task the embedding program must perform after a step.
#[derive(Debug, Clone, PartialEq)]
pub enum Action {
    /// Enumerate serial ports, filter them to candidates, feed the names
    /// back as [`Event::Discovered`].
    Discover,
    /// Race one handshake per named candidate, feed the winner's name — the
    /// first to complete successfully — back as [`Event::ConnectDone`].
    Race(Vec<String>),
    /// Write the info request to the session, read one line with the fixed
    /// timeout, feed the raw outcome back as [`Event::ReadDone`].
    ReadInfo,
    /// Write the line to the session, feed the outcome back as
    /// [`Event::WriteDone`].
    WriteLine(String),
    /// Write the contents to the file at the path, feed the outcome back as
    /// [`Event::DownloadDone`].
    WriteFile(String, String),
    /// Close the session handle. The dispatcher has already forgotten it.
    CloseSession,
    /// Cancel the scanner task of this generation.
    StopScanner(u64),
    /// Spawn a fresh scanner task under this generation; its lines and its
    /// failure come back as [`Event::ScannerLine`] and [`Event::ScannerFail`]
    /// tagged with the generation.
    StartScanner(u64),
}

/// What the dispatcher reacts to: a caller command, or the outcome of an
/// action it asked for.
#[derive(Debug, PartialEq)]
pub enum Event {
    /// The next command from the caller.
    Cmd(Command),
    /// Discovery finished: the candidate device names.
    Discovered(Vec<String>),
    /// The handshake race finished: the winner's name, or `None` when no
    /// candidate acknowledged.
    ConnectDone(Option<String>),
    /// The info read finished: the raw reply line, or how it failed. A
    /// timeout and an I/O error are reported distinctly, though both lose
    /// the session.
    ReadDone(Result<String, ReadFailure>),
    /// The session write finished: `None` on success, the reason otherwise.
    WriteDone(Option<String>),
    /// The export file write finished: `None` on success, the reason
    /// otherwise.
    DownloadDone(Option<String>),
    /// A health-check probe of the session finished; `true` means the device
    /// still acknowledges.
    Probe(bool),
    /// The scanner task of this generation decoded one raw line.
    ScannerLine(u64, String),
    /// The scanner task of this generation could not start, or its stream
    /// ended or failed.
    ScannerFail(u64),
}

/// Why a timed session read failed: the bound elapsed with no line, or the
/// transport failed.
#[derive(Debug, Clone, PartialEq)]
pub enum ReadFailure {
    /// No full line arrived within the fixed read timeout.
    Timeout,
    /// The write of the request or the read of the reply failed; the reason.
    Io(String),
}

/// Mathematical image of a [`ReadFailure`].
pub enum ReadFailureView {
    Timeout,
    Io(Seq<char>),
}

impl View for ReadFailure {
    type V = ReadFailureView;

    open spec fn view(&self) -> ReadFailureView {
        match self {
            ReadFailure::Timeout => ReadFailureView::Timeout,
            ReadFailure::Io(reason) => ReadFailureView::Io(reason@),
        }
    }
}

impl DeepView for ReadFailure {
    type V = ReadFailureView;

    open spec fn deep_view(&self) -> ReadFailureView {
        self.view()
    }
}

/// The reason a read failure is reported with: a fixed phrase for a timeout,
/// the transport's own reason otherwise.
pub open spec fn spec_failure_reason(failure: ReadFailureView) -> Seq<char> {
    match failure {
        ReadFailureView::Timeout => "Connection timeout"@,
        ReadFailureView::Io(reason) => reason,
    }
}

/// The reason a read failure is reported with, as [`spec_failure_reason`]
/// says.
pub fn failure_reason(failure: ReadFailure) -> (r: String)
    ensures
        r@ == spec_failure_reason(failure@),
{
    match failure {
        ReadFailure::Timeout => "Connection timeout".to_owned(),
        ReadFailure::Io(reason) => reason,
    }
}

/// Mathematical image of a [`Command`].
pub enum CommandView {
    Connect,
    Read,
    Write(Seq<char>),
    Download(Seq<char>, Seq<Seq<char>>, Seq<Seq<char>>),
    StopScanner,
    StartScanner,
    Terminate,
}

/// Mathematical image of a [`Reply`].
pub enum ReplyView {
    Connecting,
    Connected(Seq<char>),
    Disconnected,
    Read(Seq<char>),
    ReadError(Seq<char>),
    WriteError(Seq<char>),
    DownloadError(Seq<char>),
    BarcodeOutput(Seq<char>),
    ScannerStartFail,
}

/// Mathematical image of an [`Action`].
pub enum ActionView {
    Discover,
    Race(Seq<Seq<char>>),
    ReadInfo,
    WriteLine(Seq<char>),
    WriteFile(Seq<char>, Seq<char>),
    CloseSession,
    StopScanner(u64),
    StartScanner(u64),
}

/// Mathematical image of an [`Event`].
pub enum EventView {
    Cmd(CommandView),
    Discovered(Seq<Seq<char>>),
    ConnectDone(Option<Seq<char>>),
    ReadDone(Result<Seq<char>, ReadFailureView>),
    WriteDone(Option<Seq<char>>),
    DownloadDone(Option<Seq<char>>),
    Probe(bool),
    ScannerLine(u64, Seq<char>),
    ScannerFail(u64),
}

impl View for Command {
    type V = CommandView;

    open spec fn view(&self) -> CommandView {
        match self {
            Command::Connect => CommandView::Connect,
            Command::Read => CommandView::Read,
            Command::Write(payload) => CommandView::Write(payload@),
            Command::Download(path, labels, device) => CommandView::Download(
                path@,
                labels.deep_view(),
                device.deep_view(),
            ),
            Command::StopScanner => CommandView::StopScanner,
            Command::StartScanner => CommandView::StartScanner,
            Command::Terminate => CommandView::Terminate,
        }
    }
}

impl DeepView for Command {
    type V = CommandView;

    open spec fn deep_view(&self) -> CommandView {
        self.view()
    }
}

impl View for Reply {
    type V = ReplyView;

    open spec fn view(&self) -> ReplyView {
        match self {
            Reply::Connecting => ReplyView::Connecting,
            Reply::Connected(name) => ReplyView::Connected(name@),
            Reply::Disconnected => ReplyView::Disconnected,
            Reply::Read(line) => ReplyView::Read(line@),
            Reply::ReadError(reason) => ReplyView::ReadError(reason@),
            Reply::WriteError(reason) => ReplyView::WriteError(reason@),
            Reply::DownloadError(reason) => ReplyView::DownloadError(reason@),
            Reply::BarcodeOutput(line) => ReplyView::BarcodeOutput(line@),
            Reply::ScannerStartFail => ReplyView::ScannerStartFail,
        }
    }
}

impl DeepView for Reply {
    type V = ReplyView;

    open spec fn deep_view(&self) -> ReplyView {
        self.view()
    }
}

impl View for Action {
    type V = ActionView;

    open spec fn view(&self) -> ActionView {
        match self {
            Action::Discover => ActionView::Discover,
            Action::Race(names) => ActionView::Race(names.deep_view()),
            Action::ReadInfo => ActionView::ReadInfo,
            Action::WriteLine(line) => ActionView::WriteLine(line@),
            Action::WriteFile(path, contents) => ActionView::WriteFile(path@, contents@),
            Action::CloseSession => ActionView::CloseSession,
            Action::StopScanner(gen) => ActionView::StopScanner(*gen),
            Action::StartScanner(gen) => ActionView::StartScanner(*gen),
        }
    }
}

impl DeepView for Action {
    type V = ActionView;

    open spec fn deep_view(&self) -> ActionView {
        self.view()
    }
}

impl View for Event {
    type V = EventView;

    open spec fn view(&self) -> EventView {
        match self {
            Event::Cmd(c) => EventView::Cmd(c@),
            Event::Discovered(names) => EventView::Discovered(names.deep_view()),
            Event::ConnectDone(winner) => EventView::ConnectDone(winner.deep_view()),
            Event::ReadDone(outcome) => EventView::ReadDone(
                match outcome {
                    Ok(line) => Ok(line@),
                    Err(failure) => Err(failure@),
                },
            ),
            Event::WriteDone(failure) => EventView::WriteDone(failure.deep_view()),
            Event::DownloadDone(failure) => EventView::DownloadDone(failure.deep_view()),
            Event::Probe(ok) => EventView::Probe(*ok),
            Event::ScannerLine(gen, line) => EventView::ScannerLine(*gen, line@),
            Event::ScannerFail(gen) => EventView::ScannerFail(*gen),
        }
    }
}

impl DeepView for Event {
    type V = EventView;

    open spec fn deep_view(&self) -> EventView {
        self.view()
    }
}

/// The reason handed back when a `Read` or `Write` arrives without a
/// session.
pub open spec fn spec_not_connected() -> Seq<char> {
    "Not connected"@
}

/// How often the embedding program probes the health of a live session, in
/// milliseconds. A tunable; the dispatcher only reacts to the probe results.
pub const HEALTH_INTERVAL_MS: u64 = 500;

/// The dispatcher's state. `connected` says whether the session slot is
/// filled; no component but the dispatcher ever touches that slot.
pub struct Dispatcher {
    /// A live session exists (and is owned by this dispatcher alone).
    pub connected: bool,
    /// A `Connect` command is executing: discovery or the handshake race is
    /// outstanding. Transient.
    pub connecting: bool,
    /// A scanner task is supposed to be running.
    pub scanner_alive: bool,
    /// Generation number of the current scanner task; output tagged with an
    /// older generation is stale and dropped.
    pub scanner_gen: u64,
    /// A `Terminate` command was processed; the machine ignores everything.
    pub terminated: bool,
}

impl Dispatcher {
    /// The state's internal consistency: a session cannot be both present
    /// and being established.
    pub open spec fn wf(self) -> bool {
        !(self.connected && self.connecting)
    }

    /// The actions that release everything the dispatcher owns: the session,
    /// if one is live, then the scanner task, if one runs.
    pub open spec fn spec_shutdown_actions(pre: Dispatcher) -> Seq<ActionView> {
        if pre.connected && pre.scanner_alive {
            seq![ActionView::CloseSession, ActionView::StopScanner(pre.scanner_gen)]
        } else if pre.connected {
            seq![ActionView::CloseSession]
        } else if pre.scanner_alive {
            seq![ActionView::StopScanner(pre.scanner_gen)]
        } else {
            seq![]
        }
    }

    /// The transition function: what one event does to the state, the
    /// replies it sends, and the actions it asks for.
    pub open spec fn spec_step(pre: Dispatcher, ev: EventView) -> (Dispatcher, Seq<ReplyView>, Seq<
        ActionView,
    >) {
        if pre.terminated {
            (pre, seq![], seq![])
        } else {
            match ev {
                EventView::Cmd(CommandView::Connect) => (
                    Dispatcher { connected: false, connecting: true, ..pre },
                    seq![],
                    if pre.connected {
                        seq![ActionView::CloseSession, ActionView::Discover]
                    } else {
                        seq![ActionView::Discover]
                    },
                ),
                EventView::Cmd(CommandView::Read) => if pre.connected {
                    (pre, seq![], seq![ActionView::ReadInfo])
                } else {
                    (
                        pre,
                        seq![
                            ReplyView::ReadError(spec_not_connected()),
                            ReplyView::Disconnected,
                        ],
                        seq![],
                    )
                },
                EventView::Cmd(CommandView::Write(payload)) => if pre.connected {
                    (pre, seq![], seq![ActionView::WriteLine(payload)])
                } else {
                    (
                        pre,
                        seq![
                            ReplyView::WriteError(spec_not_connected()),
                            ReplyView::Disconnected,
                        ],
                        seq![],
                    )
                },
                EventView::Cmd(CommandView::Download(path, labels, device)) => (
                    pre,
                    seq![],
                    seq![ActionView::WriteFile(path, spec_export(labels, device))],
                ),
                EventView::Cmd(CommandView::StopScanner) => (
                    Dispatcher { scanner_alive: false, ..pre },
                    seq![],
                    if pre.scanner_alive {
                        seq![ActionView::StopScanner(pre.scanner_gen)]
                    } else {
                        seq![]
                    },
                ),
                EventView::Cmd(CommandView::StartScanner) => (
                    Dispatcher {
                        scanner_alive: true,
                        scanner_gen: (pre.scanner_gen + 1) as u64,
                        ..pre
                    },
                    seq![],
                    if pre.scanner_alive {
                        seq![
                            ActionView::StopScanner(pre.scanner_gen),
                            ActionView::StartScanner((pre.scanner_gen + 1) as u64),
                        ]
                    } else {
                        seq![ActionView::StartScanner((pre.scanner_gen + 1) as u64)]
                    },
                ),
                EventView::Cmd(CommandView::Terminate) => (
                    Dispatcher {
                        connected: false,
                        connecting: false,
                        scanner_alive: false,
                        terminated: true,
                        ..pre
                    },
                    seq![],
                    Self::spec_shutdown_actions(pre),
                ),
                EventView::Discovered(names) => if pre.connecting {
                    if names.len() == 0 {
                        (
                            Dispatcher { connecting: false, ..pre },
                            seq![ReplyView::Disconnected],
                            seq![],
                        )
                    } else {
                        (pre, seq![ReplyView::Connecting], seq![ActionView::Race(names)])
                    }
                } else {
                    (pre, seq![], seq![])
                },
                EventView::ConnectDone(winner) => if pre.connecting {
                    match winner {
                        Some(name) => (
                            Dispatcher { connected: true, connecting: false, ..pre },
                            seq![ReplyView::Connected(name)],
                            seq![],
                        ),
                        None => (
                            Dispatcher { connecting: false, ..pre },
                            seq![ReplyView::Disconnected],
                            seq![],
                        ),
                    }
                } else {
                    (pre, seq![], seq![])
                },
                EventView::ReadDone(outcome) => if pre.connected {
                    match outcome {
                        Ok(line) => (pre, seq![ReplyView::Read(spec_trim(line))], seq![]),
                        Err(failure) => (
                            Dispatcher { connected: false, ..pre },
                            seq![
                                ReplyView::ReadError(spec_failure_reason(failure)),
                                ReplyView::Disconnected,
                            ],
                            seq![ActionView::CloseSession],
                        ),
                    }
                } else {
                    (pre, seq![], seq![])
                },
                EventView::WriteDone(failure) => if pre.connected {
                    match failure {
                        None => (pre, seq![], seq![]),
                        Some(reason) => (
                            Dispatcher { connected: false, ..pre },
                            seq![ReplyView::WriteError(reason), ReplyView::Disconnected],
                            seq![ActionView::CloseSession],
                        ),
                    }
                } else {
                    (pre, seq![], seq![])
                },
                EventView::DownloadDone(failure) => match failure {
                    None => (pre, seq![], seq![]),
                    Some(reason) => (pre, seq![ReplyView::DownloadError(reason)], seq![]),
                },
                EventView::Probe(ok) => if pre.connected && !ok {
                    (
                        Dispatcher { connected: false, ..pre },
                        seq![ReplyView::Disconnected],
                        seq![ActionView::CloseSession],
                    )
                } else {
                    (pre, seq![], seq![])
                },
                EventView::ScannerLine(gen, line) => if pre.scanner_alive && gen
                    == pre.scanner_gen {
                    (pre, seq![ReplyView::BarcodeOutput(spec_trim(line))], seq![])
                } else {
                    (pre, seq![], seq![])
                },
                EventView::ScannerFail(gen) => if pre.scanner_alive && gen == pre.scanner_gen {
                    (
                        Dispatcher { scanner_alive: false, ..pre },
                        seq![ReplyView::ScannerStartFail],
                        seq![],
                    )
                } else {
                    (pre, seq![], seq![])
                },
            }
        }
    }

    /// A fresh dispatcher: no session, scanner task starting under
    /// generation 0, together with the startup action that spawns it.
    pub fn new() -> (r: (Dispatcher, Vec<Action>))
        ensures
            r.0 == (Dispatcher {
                connected: false,
                connecting: false,
                scanner_alive: true,
                scanner_gen: 0u64,
                terminated: false,
            }),
            r.1.deep_view() =~= seq![ActionView::StartScanner(0u64)],
            r.0.wf(),
    {
        let state = Dispatcher {
            connected: false,
            connecting: false,
            scanner_alive: true,
            scanner_gen: 0,
            terminated: false,
        };
        let mut actions: Vec<Action> = Vec::new();
        actions.push(Action::StartScanner(0));
        (state, actions)
    }

    /// Process one event: update the state and return the replies to
    /// deliver and the actions to perform, exactly as [`Self::spec_step`]
    /// says.
    pub fn step(&mut self, event: Event) -> (out: (Vec<Reply>, Vec<Action>))
        requires
            old(self).wf(),
            event matches Event::Cmd(Command::StartScanner) ==> old(self).scanner_gen
                < u64::MAX,
        ensures
            *final(self) == Self::spec_step(*old(self), event@).0,
            out.0.deep_view() == Self::spec_step(*old(self), event@).1,
            out.1.deep_view() == Self::spec_step(*old(self), event@).2,
            final(self).wf(),
    {
        let ghost pre = *old(self);
        let ghost ev = event@;
        let mut replies: Vec<Reply> = Vec::new();
        let mut actions: Vec<Action> = Vec::new();
        if self.terminated {
            proof {
                assert(replies.deep_view() =~= Self::spec_step(pre, ev).1);
                assert(actions.deep_view() =~= Self::spec_step(pre, ev).2);
            }
            return (replies, actions);
        }
        match event {
            Event::Cmd(Command::Connect) => {
                if self.connected {
                    actions.push(Action::CloseSession);
                }
                actions.push(Action::Discover);
                self.connected = false;
                self.connecting = true;
            },
            Event::Cmd(Command::Read) => {
                if self.connected {
                    actions.push(Action::ReadInfo);
                } else {
                    replies.push(Reply::ReadError("Not connected".to_owned()));
                    replies.push(Reply::Disconnected);
                }
            },
            Event::Cmd(Command::Write(payload)) => {
                if self.connected {
                    actions.push(Action::WriteLine(payload));
                } else {
                    replies.push(Reply::WriteError("Not connected".to_owned()));
                    replies.push(Reply::Disconnected);
                }
            },
            Event::Cmd(Command::Download(path, labels, device)) => {
                let contents = export_csv(&labels, &device);
                actions.push(Action::WriteFile(path, contents));
            },
            Event::Cmd(Command::StopScanner) => {
                if self.scanner_alive {
                    actions.push(Action::StopScanner(self.scanner_gen));
                }
                self.scanner_alive = false;
            },
            Event::Cmd(Command::StartScanner) => {
                let next_gen = self.scanner_gen + 1;
                if self.scanner_alive {
                    actions.push(Action::StopScanner(self.scanner_gen));
                }
                actions.push(Action::StartScanner(next_gen));
                self.scanner_alive = true;
                self.scanner_gen = next_gen;
            },
            Event::Cmd(Command::Terminate) => {
                if self.connected {
                    actions.push(Action::CloseSession);
                }
                if self.scanner_alive {
                    actions.push(Action::StopScanner(self.scanner_gen));
                }
                self.connected = false;
                self.connecting = false;
                self.scanner_alive = false;
                self.terminated = true;
            },
            Event::Discovered(names) => {
                if self.connecting {
                    if names.is_empty() {
                        replies.push(Reply::Disconnected);
                        self.connecting = false;
                    } else {
                        replies.push(Reply::Connecting);
                        actions.push(Action::Race(names));
                    }
                }
            },
            Event::ConnectDone(winner) => {
                if self.connecting {
                    match winner {
                        Some(name) => {
                            replies.push(Reply::Connected(name));
                            self.connected = true;
                            self.connecting = false;
                        },
                        None => {
                            replies.push(Reply::Disconnected);
                            self.connecting = false;
                        },
                    }
                }
            },
            Event::ReadDone(outcome) => {
                if self.connected {
                    match outcome {
                        Ok(line) => {
                            replies.push(Reply::Read(trim(line.as_str()).to_owned()));
                        },
                        Err(failure) => {
                            replies.push(Reply::ReadError(failure_reason(failure)));
                            replies.push(Reply::Disconnected);
                            actions.push(Action::CloseSession);
                            self.connected = false;
                        },
                    }
                }
            },
            Event::WriteDone(failure) => {
                if self.connected {
                    match failure {
                        None => {},
                        Some(reason) => {
                            replies.push(Reply::WriteError(reason));
                            replies.push(Reply::Disconnected);
                            actions.push(Action::CloseSession);
                            self.connected = false;
                        },
                    }
                }
            },
            Event::DownloadDone(failure) => {
                match failure {
                    None => {},
                    Some(reason) => {
                        replies.push(Reply::DownloadError(reason));
                    },
                }
            },
            Event::Probe(ok) => {
                if self.connected && !ok {
                    replies.push(Reply::Disconnected);
                    actions.push(Action::CloseSession);
                    self.connected = false;
                }
            },
            Event::ScannerLine(gen, line) => {
                if self.scanner_alive && gen == self.scanner_gen {
                    replies.push(Reply::BarcodeOutput(trim(line.as_str()).to_owned()));
                }
            },
            Event::ScannerFail(gen) => {
                if self.scanner_alive && gen == self.scanner_gen {
                    replies.push(Reply::ScannerStartFail);
                    self.scanner_alive = false;
                }
            },
        }
        proof {
            assert(*self == Self::spec_step(pre, ev).0);
            assert(replies.deep_view() =~~= Self::spec_step(pre, ev).1);
            assert(actions.deep_view() =~~= Self::spec_step(pre, ev).2);
        }
        (replies, actions)
    }
}

/// Law: a `Read` or a `Write` that arrives while no session is present is
/// rejected without touching any transport — the state does not change, the
/// corresponding error reply and then one `Disconnected` reply are sent, and
/// no action is requested.
pub proof fn lemma_rejected_without_session(pre: Dispatcher, payload: Seq<char>)
    requires
        !pre.terminated,
        !pre.connected,
    ensures
        Dispatcher::spec_step(pre, EventView::Cmd(CommandView::Read)).0 == pre,
        Dispatcher::spec_step(pre, EventView::Cmd(CommandView::Read)).1 =~~= seq![
            ReplyView::ReadError(spec_not_connected()),
            ReplyView::Disconnected,
        ],
        Dispatcher::spec_step(pre, EventView::Cmd(CommandView::Read)).2 =~= Seq::<
            ActionView,
        >::empty(),
        Dispatcher::spec_step(pre, EventView::Cmd(CommandView::Write(payload))).0 == pre,
        Dispatcher::spec_step(pre, EventView::Cmd(CommandView::Write(payload))).1 =~~= seq![
            ReplyView::WriteError(spec_not_connected()),
            ReplyView::Disconnected,
        ],
        Dispatcher::spec_step(pre, EventView::Cmd(CommandView::Write(payload))).2 =~= Seq::<
            ActionView,
        >::empty(),
{
}

/// Law: when the health-check probe of a live session fails, exactly one
/// `Disconnected` reply is emitted and the session slot is cleared — a
/// subsequent `Read` is rejected as not connected and reaches no transport.
pub proof fn lemma_probe_failure_clears_session(pre: Dispatcher)
    requires
        !pre.terminated,
        pre.wf(),
        pre.connected,
    ensures
        Dispatcher::spec_step(pre, EventView::Probe(false)).0 == (Dispatcher {
            connected: false,
            ..pre
        }),
        Dispatcher::spec_step(pre, EventView::Probe(false)).1 =~~= seq![ReplyView::Disconnected],
        Dispatcher::spec_step(pre, EventView::Probe(false)).2 =~~= seq![ActionView::CloseSession],
        Dispatcher::spec_step(
            Dispatcher::spec_step(pre, EventView::Probe(false)).0,
            EventView::Cmd(CommandView::Read),
        ).1 =~~= seq![ReplyView::ReadError(spec_not_connected()), ReplyView::Disconnected],
        Dispatcher::spec_step(
            Dispatcher::spec_step(pre, EventView::Probe(false)).0,
            EventView::Cmd(CommandView::Read),
        ).2 =~= Seq::<ActionView>::empty(),
{
}

/// Law: `StopScanner` followed immediately by `StartScanner` leaves exactly
/// one scanner task alive: the two steps together request exactly one
/// `StartScanner` action, under a fresh generation; output tagged with any
/// older generation is dropped, while the fresh task's output is delivered.
pub proof fn lemma_scanner_restart(pre: Dispatcher, stale_gen: u64, line: Seq<char>)
    requires
        !pre.terminated,
        pre.scanner_gen < u64::MAX,
    ensures
        ({
            let s1 = Dispatcher::spec_step(pre, EventView::Cmd(CommandView::StopScanner)).0;
            let s2 = Dispatcher::spec_step(s1, EventView::Cmd(CommandView::StartScanner)).0;
            &&& s2.scanner_alive
            &&& s2.scanner_gen == pre.scanner_gen + 1
            &&& forall|a: ActionView|
                Dispatcher::spec_step(pre, EventView::Cmd(CommandView::StopScanner)).2.contains(a)
                    ==> !(a is StartScanner)
            &&& Dispatcher::spec_step(s1, EventView::Cmd(CommandView::StartScanner)).2 =~~= seq![
                ActionView::StartScanner((pre.scanner_gen + 1) as u64),
            ]
            &&& (stale_gen < s2.scanner_gen ==> {
                &&& Dispatcher::spec_step(s2, EventView::ScannerLine(stale_gen, line)).0 == s2
                &&& Dispatcher::spec_step(s2, EventView::ScannerLine(stale_gen, line)).1 =~= Seq::<
                    ReplyView,
                >::empty()
            })
            &&& Dispatcher::spec_step(s2, EventView::ScannerLine(s2.scanner_gen, line)).1 =~~= seq![
                ReplyView::BarcodeOutput(spec_trim(line)),
            ]
        }),
{
}

/// The state after a whole event sequence has been processed, one event at a
/// time, front first.
pub open spec fn spec_run(start: Dispatcher, events: Seq<EventView>) -> Dispatcher
    decreases events.len(),
{
    if events.len() == 0 {
        start
    } else {
        spec_run(Dispatcher::spec_step(start, events[0]).0, events.drop_first())
    }
}

/// Processing one more event of a sequence takes one step from the state the
/// prefix reached.
pub proof fn lemma_run_snoc(start: Dispatcher, events: Seq<EventView>, i: int)
    requires
        0 <= i < events.len(),
    ensures
        spec_run(start, events.take(i + 1)) == Dispatcher::spec_step(
            spec_run(start, events.take(i)),
            events[i],
        ).0,
    decreases i,
{
    if i == 0 {
        let first = Dispatcher::spec_step(start, events[0]).0;
        assert(events.take(1) =~= seq![events[0]]);
        assert(events.take(0) =~= Seq::<EventView>::empty());
        assert(events.take(1).drop_first() =~= Seq::<EventView>::empty());
        assert(events.take(1)[0] == events[0]);
        assert(spec_run(start, events.take(1)) == spec_run(first, events.take(1).drop_first()));
        assert(spec_run(first, Seq::<EventView>::empty()) == first);
        assert(spec_run(start, events.take(0)) == start);
    } else {
        let next = Dispatcher::spec_step(start, events[0]).0;
        let rest = events.drop_first();
        assert(events.take(i + 1).drop_first() =~= rest.take(i));
        assert(events.take(i).drop_first() =~= rest.take(i - 1));
        assert(events.take(i + 1)[0] == events[0]);
        assert(events.take(i)[0] == events[0]);
        assert(spec_run(start, events.take(i + 1)) == spec_run(next, rest.take(i)));
        assert(spec_run(start, events.take(i)) == spec_run(next, rest.take(i - 1)));
        lemma_run_snoc(next, rest, i - 1);
        assert(rest[i - 1] == events[i]);
    }
}

/// Law, over whole traces: in the processing of any event sequence, a `Read`
/// or a `Write` command that is reached while no session is present yields
/// the corresponding error reply and one `Disconnected` reply, requests no
/// action — no transport is touched — and leaves the state as it was.
pub proof fn lemma_rejected_in_any_trace(start: Dispatcher, events: Seq<EventView>, i: int)
    requires
        0 <= i < events.len(),
        !spec_run(start, events.take(i)).connected,
        !spec_run(start, events.take(i)).terminated,
    ensures
        events[i] == EventView::Cmd(CommandView::Read) ==> {
            let here = spec_run(start, events.take(i));
            &&& Dispatcher::spec_step(here, events[i]).1 =~~= seq![
                ReplyView::ReadError(spec_not_connected()),
                ReplyView::Disconnected,
            ]
            &&& Dispatcher::spec_step(here, events[i]).2 =~= Seq::<ActionView>::empty()
            &&& spec_run(start, events.take(i + 1)) == here
        },
        (events[i] matches EventView::Cmd(CommandView::Write(payload))) ==> {
            let here = spec_run(start, events.take(i));
            &&& Dispatcher::spec_step(here, events[i]).1 =~~= seq![
                ReplyView::WriteError(spec_not_connected()),
                ReplyView::Disconnected,
            ]
            &&& Dispatcher::spec_step(here, events[i]).2 =~= Seq::<ActionView>::empty()
            &&& spec_run(start, events.take(i + 1)) == here
        },
{
    lemma_run_snoc(start, events, i);
}

} // verus!
