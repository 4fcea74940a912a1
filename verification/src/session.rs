//! The per-session supervision state machine.
//!
//! One session supervises one external tunnel process for one id, through
//! all of its retries. The machine holds every decision of the supervision
//! loop; the unverified driving loop only performs the returned [`Action`],
//! feeds the observed [`Event`] back in, and forwards the emitted
//! [`StatusEvent`]s to the host.

use vstd::prelude::*;

use crate::backoff::decide_spec;
use crate::backoff::BackoffPolicy;
use crate::backoff::Decision;
use crate::classify::classify;
use crate::classify::classify_spec;
use crate::classify::Classification;
use crate::classify::ConnectKind;
use crate::classify::LineClass;

verus! {

/// Connection status reported to the observer.
#[derive(Debug, Clone, Copy, PartialEq, Eq, Structural)]
pub enum Status {
    Connecting,
    Connected,
    Reconnecting,
    Disconnected,
    Error,
}

/// The message carried by a status event. Free-text details (the text of an
/// offending output line, an exit code) are payloads; the host renders them.
#[derive(Debug, Clone, PartialEq, Eq)]
pub enum Message {
    /// The session was created and is starting up.
    StartingTunnel,
    /// An attempt is about to spawn the process for this local port.
    ConnectingToPort(u16),
    /// The process was spawned; waiting for it to report a connection.
    Authenticating,
    /// A registered-connection diagnostic was seen.
    TunnelEstablished,
    /// A quick-tunnel public URL was announced.
    TunnelReady,
    /// A connector-established diagnostic was seen.
    TunnelConnected,
    /// An output line that the classifier recognised as an error.
    OutputLine(Vec<u8>),
    /// The process exited cleanly.
    TunnelClosed,
    /// The process exited with this non-zero code.
    ExitCode(i32),
    /// Waiting for the process failed.
    ProcessError,
    /// An established tunnel was lost; reconnecting with the counter reset.
    ConnectionLost,
    /// Retry number `n` out of `MAX_RETRIES`.
    Retrying(u32),
    /// The retry budget is spent.
    RetriesExhausted,
    /// The tunnel executable was not found; nothing to retry.
    BinaryNotFound,
    /// Spawning the process failed for another reason; the payload is the
    /// operating system's description of the failure.
    SpawnFailed(Vec<u8>),
    /// The session was stopped from outside.
    TunnelStopped,
}

/// One outward status notification. The registry key (the tunnel id) is
/// attached by the caller that owns the session.
#[derive(Debug, Clone, PartialEq, Eq)]
pub struct StatusEvent {
    pub status: Status,
    pub message: Message,
    pub url: Option<Vec<u8>>,
}

/// How one supervised process attempt ended.
#[derive(Debug, Clone, Copy, PartialEq, Eq, Structural)]
pub enum ExitKind {
    /// Exit code zero.
    Clean,
    /// A non-zero exit code.
    Abnormal(i32),
    /// Waiting for the process itself failed.
    Unknown,
}

/// What the driving loop observed since the machine last spoke.
#[derive(Debug, Clone, PartialEq, Eq)]
pub enum Event {
    /// The session begins.
    Start,
    /// The executable was resolved.
    BinaryFound,
    /// No executable exists anywhere on the search path.
    BinaryMissing,
    /// The process was spawned.
    SpawnedOk,
    /// Spawning failed; `not_found` says whether the executable vanished,
    /// `detail` is the operating system's description of the failure.
    SpawnFailed { not_found: bool, detail: Vec<u8> },
    /// One decoded line of the process's diagnostic output.
    OutputLine(Vec<u8>),
    /// The process exited.
    Exited(ExitKind),
    /// The inter-retry delay has elapsed.
    DelayElapsed,
    /// Cancellation was requested from outside.
    Cancelled,
}

/// What the driving loop must do next.
#[derive(Debug, Clone, Copy, PartialEq, Eq, Structural)]
pub enum Action {
    /// Resolve the executable; answer with `BinaryFound` or `BinaryMissing`.
    Locate,
    /// Spawn the process; answer with `SpawnedOk` or `SpawnFailed`.
    Spawn,
    /// Keep delivering `OutputLine`, `Exited` or `Cancelled` events.
    Listen,
    /// Wait for the retry delay; answer with `DelayElapsed`, or `Cancelled`
    /// if the stop signal wins the race.
    Sleep,
    /// Kill the child process, then deliver the emissions; the session is
    /// over.
    Kill,
    /// The session is over; no child process is running.
    Done,
    /// Nothing new to do.
    Continue,
}

/// Where the session stands.
#[derive(Debug, Clone, Copy, PartialEq, Eq, Structural)]
pub enum Phase {
    /// Created, not yet started.
    Idle,
    /// Resolving the executable.
    Locating,
    /// About to spawn, or waiting for the spawn result.
    Spawning,
    /// The child process is running and its output is being read.
    Running,
    /// Waiting out the delay before the next attempt.
    Backoff,
    /// Terminal: disconnected, stopped, or permanently failed.
    Finished,
}

/// What one step hands back to the driving loop: the status events to
/// forward, in order, and the next action.
#[derive(Debug, Clone, PartialEq, Eq)]
pub struct StepOut {
    pub emits: Vec<StatusEvent>,
    pub action: Action,
}

/// The supervision state machine of one session.
pub struct SessionMachine {
    pub phase: Phase,
    pub backoff: BackoffPolicy,
    /// The sticky URL of the current attempt: once a quick-tunnel URL is
    /// seen it is attached to every later `connected` emission of the
    /// attempt, and cleared when a new attempt spawns.
    pub attempt_url: Option<Vec<u8>>,
    /// The local port, echoed in `ConnectingToPort` messages.
    pub port: u16,
}

/// The mathematical value of an optional URL.
pub open spec fn url_view(o: Option<Vec<u8>>) -> Option<Seq<u8>> {
    match o {
        Some(v) => Some(v@),
        None => None,
    }
}

/// `e` is an event with this status and message and no URL.
pub open spec fn plain_ev(e: StatusEvent, s: Status, m: Message) -> bool {
    e.status == s && e.message == m && e.url is None
}

/// `e` is a `connected` event with this message and URL.
pub open spec fn connected_ev(e: StatusEvent, m: Message, url: Option<Seq<u8>>) -> bool {
    e.status == Status::Connected && e.message == m && url_view(e.url) == url
}

/// `e` is an `error` event carrying the offending line.
pub open spec fn error_line_ev(e: StatusEvent, line: Seq<u8>) -> bool {
    e.status == Status::Error && (e.message matches Message::OutputLine(l) && l@ == line)
        && e.url is None
}

/// The event that reports how an attempt's process ended.
pub open spec fn exit_report_ev(e: StatusEvent, kind: ExitKind) -> bool {
    match kind {
        ExitKind::Clean => plain_ev(e, Status::Disconnected, Message::TunnelClosed),
        ExitKind::Abnormal(c) => plain_ev(e, Status::Error, Message::ExitCode(c)),
        ExitKind::Unknown => plain_ev(e, Status::Error, Message::ProcessError),
    }
}

/// The machine ignored the event.
pub open spec fn no_change(pre: SessionMachine, post: SessionMachine, out: StepOut) -> bool {
    post == pre && out.emits@.len() == 0 && out.action == Action::Continue
}

/// Cancellation: from any non-terminal phase the session emits one
/// `disconnected` event and finishes, killing the child if one is running;
/// on a finished session it is a no-op.
pub open spec fn cancel_step(pre: SessionMachine, post: SessionMachine, out: StepOut) -> bool {
    if pre.phase == Phase::Finished {
        no_change(pre, post, out)
    } else {
        &&& post == (SessionMachine { phase: Phase::Finished, ..pre })
        &&& out.emits@.len() == 1
        &&& plain_ev(out.emits@[0], Status::Disconnected, Message::TunnelStopped)
        &&& out.action == (if pre.phase == Phase::Running {
            Action::Kill
        } else {
            Action::Done
        })
    }
}

/// After the report of a failed attempt: the phase, the trailing emissions
/// and the action that the backoff decision dictates.
pub open spec fn decision_step(
    pre: SessionMachine,
    bp: BackoffPolicy,
    d: Decision,
    post: SessionMachine,
    tail: Seq<StatusEvent>,
    act: Action,
) -> bool {
    match d {
        Decision::RetryReset => {
            &&& post == (SessionMachine { phase: Phase::Backoff, backoff: bp, ..pre })
            &&& tail.len() == 1
            &&& plain_ev(tail[0], Status::Reconnecting, Message::ConnectionLost)
            &&& act == Action::Sleep
        },
        Decision::RetryCounted(n) => {
            &&& post == (SessionMachine { phase: Phase::Backoff, backoff: bp, ..pre })
            &&& tail.len() == 1
            &&& plain_ev(tail[0], Status::Reconnecting, Message::Retrying(n))
            &&& act == Action::Sleep
        },
        Decision::StopExhausted => {
            &&& post == (SessionMachine { phase: Phase::Finished, backoff: bp, ..pre })
            &&& tail.len() == 1
            &&& plain_ev(tail[0], Status::Error, Message::RetriesExhausted)
            &&& act == Action::Done
        },
        Decision::StopNotFound => {
            &&& post == (SessionMachine { phase: Phase::Finished, backoff: bp, ..pre })
            &&& tail.len() == 0
            &&& act == Action::Done
        },
    }
}

/// One classified output line, observed while the process runs.
pub open spec fn line_step(
    pre: SessionMachine,
    line: Seq<u8>,
    post: SessionMachine,
    out: StepOut,
) -> bool {
    match classify_spec(line) {
        LineClass::Registered => {
            &&& post == (SessionMachine {
                backoff: (BackoffPolicy {
                    retry_count: pre.backoff.retry_count,
                    connected_ever: true,
                }),
                ..pre
            })
            &&& out.emits@.len() == 1
            &&& connected_ev(out.emits@[0], Message::TunnelEstablished, url_view(pre.attempt_url))
            &&& out.action == Action::Listen
        },
        LineClass::QuickUrl(u) => {
            &&& post.phase == pre.phase
            &&& post.port == pre.port
            &&& post.backoff == (BackoffPolicy {
                retry_count: pre.backoff.retry_count,
                connected_ever: true,
            })
            &&& url_view(post.attempt_url) == Some(u)
            &&& out.emits@.len() == 1
            &&& connected_ev(out.emits@[0], Message::TunnelReady, Some(u))
            &&& out.action == Action::Listen
        },
        LineClass::ErrorLine => {
            &&& post == pre
            &&& out.emits@.len() == 1
            &&& error_line_ev(out.emits@[0], line)
            &&& out.action == Action::Listen
        },
        LineClass::Established => {
            &&& post == (SessionMachine {
                backoff: (BackoffPolicy {
                    retry_count: pre.backoff.retry_count,
                    connected_ever: true,
                }),
                ..pre
            })
            &&& out.emits@.len() == 1
            &&& connected_ev(out.emits@[0], Message::TunnelConnected, url_view(pre.attempt_url))
            &&& out.action == Action::Listen
        },
        LineClass::NoMatch => {
            &&& post == pre
            &&& out.emits@.len() == 0
            &&& out.action == Action::Listen
        },
    }
}

/// The transition relation of the machine: what `step` did for the given
/// prior state and event.
pub open spec fn step_ok(
    pre: SessionMachine,
    event: Event,
    post: SessionMachine,
    out: StepOut,
) -> bool {
    match (pre.phase, event) {
        (Phase::Idle, Event::Start) => {
            &&& post == (SessionMachine { phase: Phase::Locating, ..pre })
            &&& out.emits@.len() == 1
            &&& plain_ev(out.emits@[0], Status::Connecting, Message::StartingTunnel)
            &&& out.action == Action::Locate
        },
        (Phase::Locating, Event::BinaryFound) => {
            &&& post == (SessionMachine { phase: Phase::Spawning, ..pre })
            &&& out.emits@.len() == 1
            &&& plain_ev(out.emits@[0], Status::Connecting, Message::ConnectingToPort(pre.port))
            &&& out.action == Action::Spawn
        },
        (Phase::Locating, Event::BinaryMissing) => {
            &&& post == (SessionMachine { phase: Phase::Finished, ..pre })
            &&& out.emits@.len() == 1
            &&& plain_ev(out.emits@[0], Status::Error, Message::BinaryNotFound)
            &&& out.action == Action::Done
        },
        (Phase::Spawning, Event::SpawnedOk) => {
            &&& post.phase == Phase::Running
            &&& post.backoff == pre.backoff
            &&& post.port == pre.port
            &&& post.attempt_url is None
            &&& out.emits@.len() == 1
            &&& plain_ev(out.emits@[0], Status::Connecting, Message::Authenticating)
            &&& out.action == Action::Listen
        },
        (Phase::Spawning, Event::SpawnFailed { not_found, detail }) => {
            let (bp, d) = decide_spec(pre.backoff, not_found);
            &&& out.emits@.len() >= 1
            &&& (if not_found {
                plain_ev(out.emits@[0], Status::Error, Message::BinaryNotFound)
            } else {
                out.emits@[0].status == Status::Error && (out.emits@[0].message matches
                    Message::SpawnFailed(m) && m@ == detail@) && out.emits@[0].url is None
            })
            &&& decision_step(
                pre,
                bp,
                d,
                post,
                out.emits@.subrange(1, out.emits@.len() as int),
                out.action,
            )
        },
        (Phase::Running, Event::OutputLine(l)) => line_step(pre, l@, post, out),
        (Phase::Running, Event::Exited(k)) => {
            let (bp, d) = decide_spec(pre.backoff, false);
            &&& out.emits@.len() >= 1
            &&& exit_report_ev(out.emits@[0], k)
            &&& decision_step(
                pre,
                bp,
                d,
                post,
                out.emits@.subrange(1, out.emits@.len() as int),
                out.action,
            )
        },
        (Phase::Backoff, Event::DelayElapsed) => {
            &&& post == (SessionMachine { phase: Phase::Spawning, ..pre })
            &&& out.emits@.len() == 1
            &&& plain_ev(out.emits@[0], Status::Connecting, Message::ConnectingToPort(pre.port))
            &&& out.action == Action::Spawn
        },
        (_, Event::Cancelled) => cancel_step(pre, post, out),
        _ => no_change(pre, post, out),
    }
}

/// Copy an optional URL.
fn clone_url(o: &Option<Vec<u8>>) -> (r: Option<Vec<u8>>)
    ensures
        url_view(r) == url_view(*o),
{
    match o {
        Some(v) => {
            let mut c: Vec<u8> = Vec::new();
            let mut i: usize = 0;
            while i < v.len()
                invariant
                    i <= v@.len(),
                    c@ =~= v@.subrange(0, i as int),
                decreases v@.len() - i,
            {
                c.push(v[i]);
                i = i + 1;
            }
            proof {
                assert(c@ =~= v@);
            }
            Some(c)
        },
        None => None,
    }
}

impl SessionMachine {
    /// A fresh session for a tunnel on this local port.
    pub fn new(port: u16) -> (m: SessionMachine)
        ensures
            m.phase == Phase::Idle,
            m.backoff == (BackoffPolicy { retry_count: 0u32, connected_ever: false }),
            m.attempt_url is None,
            m.port == port,
    {
        SessionMachine {
            phase: Phase::Idle,
            backoff: BackoffPolicy::new(),
            attempt_url: None,
            port,
        }
    }

    /// Advance the machine by one observed event.
    pub fn step(&mut self, event: Event) -> (out: StepOut)
        ensures
            step_ok(*old(self), event, *final(self), out),
    {
        let phase = self.phase;
        match (phase, event) {
            (Phase::Idle, Event::Start) => {
                self.phase = Phase::Locating;
                StepOut {
                    emits: vec![
                        StatusEvent {
                            status: Status::Connecting,
                            message: Message::StartingTunnel,
                            url: None,
                        },
                    ],
                    action: Action::Locate,
                }
            },
            (Phase::Locating, Event::BinaryFound) => {
                self.phase = Phase::Spawning;
                StepOut {
                    emits: vec![
                        StatusEvent {
                            status: Status::Connecting,
                            message: Message::ConnectingToPort(self.port),
                            url: None,
                        },
                    ],
                    action: Action::Spawn,
                }
            },
            (Phase::Locating, Event::BinaryMissing) => {
                self.phase = Phase::Finished;
                StepOut {
                    emits: vec![
                        StatusEvent {
                            status: Status::Error,
                            message: Message::BinaryNotFound,
                            url: None,
                        },
                    ],
                    action: Action::Done,
                }
            },
            (Phase::Spawning, Event::SpawnedOk) => {
                self.phase = Phase::Running;
                self.attempt_url = None;
                StepOut {
                    emits: vec![
                        StatusEvent {
                            status: Status::Connecting,
                            message: Message::Authenticating,
                            url: None,
                        },
                    ],
                    action: Action::Listen,
                }
            },
            (Phase::Spawning, Event::SpawnFailed { not_found, detail }) => {
                let mut emits: Vec<StatusEvent> = Vec::new();
                emits.push(
                    StatusEvent {
                        status: Status::Error,
                        message: if not_found {
                            Message::BinaryNotFound
                        } else {
                            Message::SpawnFailed(detail)
                        },
                        url: None,
                    },
                );
                let ghost before = emits@;
                let action = self.follow_decision(not_found, &mut emits);
                proof {
                    assert(emits@[0] == before[0]) by {
                        assert(emits@.subrange(0, 1) == before);
                    }
                    assert(emits@.subrange(1, emits@.len() as int) == emits@.subrange(
                        before.len() as int,
                        emits@.len() as int,
                    ));
                }
                StepOut { emits, action }
            },
            (Phase::Running, Event::OutputLine(l)) => self.handle_line(l),
            (Phase::Running, Event::Exited(k)) => {
                let mut emits: Vec<StatusEvent> = Vec::new();
                emits.push(
                    match k {
                        ExitKind::Clean => StatusEvent {
                            status: Status::Disconnected,
                            message: Message::TunnelClosed,
                            url: None,
                        },
                        ExitKind::Abnormal(c) => StatusEvent {
                            status: Status::Error,
                            message: Message::ExitCode(c),
                            url: None,
                        },
                        ExitKind::Unknown => StatusEvent {
                            status: Status::Error,
                            message: Message::ProcessError,
                            url: None,
                        },
                    },
                );
                let ghost before = emits@;
                let action = self.follow_decision(false, &mut emits);
                proof {
                    assert(emits@[0] == before[0]) by {
                        assert(emits@.subrange(0, 1) == before);
                    }
                    assert(emits@.subrange(1, emits@.len() as int) == emits@.subrange(
                        before.len() as int,
                        emits@.len() as int,
                    ));
                }
                StepOut { emits, action }
            },
            (Phase::Backoff, Event::DelayElapsed) => {
                self.phase = Phase::Spawning;
                StepOut {
                    emits: vec![
                        StatusEvent {
                            status: Status::Connecting,
                            message: Message::ConnectingToPort(self.port),
                            url: None,
                        },
                    ],
                    action: Action::Spawn,
                }
            },
            (_, Event::Cancelled) => {
                if matches!(phase, Phase::Finished) {
                    StepOut { emits: Vec::new(), action: Action::Continue }
                } else {
                    self.phase = Phase::Finished;
                    StepOut {
                        emits: vec![
                            StatusEvent {
                                status: Status::Disconnected,
                                message: Message::TunnelStopped,
                                url: None,
                            },
                        ],
                        action: if matches!(phase, Phase::Running) {
                            Action::Kill
                        } else {
                            Action::Done
                        },
                    }
                }
            },
            _ => StepOut { emits: Vec::new(), action: Action::Continue },
        }
    }

    /// Consult the backoff policy after a failed attempt and apply what it
    /// says: push the trailing emission and move to the next phase.
    fn follow_decision(&mut self, not_found: bool, emits: &mut Vec<StatusEvent>) -> (act: Action)
        ensures
            ({
                let (bp, d) = decide_spec(old(self).backoff, not_found);
                &&& final(emits)@.len() >= old(emits)@.len()
                &&& final(emits)@.subrange(0, old(emits)@.len() as int) == old(emits)@
                &&& decision_step(
                    *old(self),
                    bp,
                    d,
                    *final(self),
                    final(emits)@.subrange(old(emits)@.len() as int, final(emits)@.len() as int),
                    act,
                )
            }),
    {
        let d = self.backoff.decide(not_found);
        match d {
            Decision::RetryReset => {
                self.phase = Phase::Backoff;
                emits.push(
                    StatusEvent {
                        status: Status::Reconnecting,
                        message: Message::ConnectionLost,
                        url: None,
                    },
                );
                proof {
                    assert(emits@.subrange(0, old(emits)@.len() as int) =~= old(emits)@);
                    assert(emits@.subrange(old(emits)@.len() as int, emits@.len() as int)
                        =~= seq![emits@[emits@.len() - 1]]);
                }
                Action::Sleep
            },
            Decision::RetryCounted(n) => {
                self.phase = Phase::Backoff;
                emits.push(
                    StatusEvent {
                        status: Status::Reconnecting,
                        message: Message::Retrying(n),
                        url: None,
                    },
                );
                proof {
                    assert(emits@.subrange(0, old(emits)@.len() as int) =~= old(emits)@);
                    assert(emits@.subrange(old(emits)@.len() as int, emits@.len() as int)
                        =~= seq![emits@[emits@.len() - 1]]);
                }
                Action::Sleep
            },
            Decision::StopExhausted => {
                self.phase = Phase::Finished;
                emits.push(
                    StatusEvent {
                        status: Status::Error,
                        message: Message::RetriesExhausted,
                        url: None,
                    },
                );
                proof {
                    assert(emits@.subrange(0, old(emits)@.len() as int) =~= old(emits)@);
                    assert(emits@.subrange(old(emits)@.len() as int, emits@.len() as int)
                        =~= seq![emits@[emits@.len() - 1]]);
                }
                Action::Done
            },
            Decision::StopNotFound => {
                self.phase = Phase::Finished;
                proof {
                    assert(emits@.subrange(0, old(emits)@.len() as int) =~= old(emits)@);
                    assert(emits@.subrange(old(emits)@.len() as int, emits@.len() as int)
                        =~= Seq::<StatusEvent>::empty());
                }
                Action::Done
            },
        }
    }

    /// Classify one output line and react to it.
    fn handle_line(&mut self, l: Vec<u8>) -> (out: StepOut)
        requires
            old(self).phase == Phase::Running,
        ensures
            line_step(*old(self), l@, *final(self), out),
    {
        let c = classify(l.as_slice());
        match c {
            Classification::Connected { kind, url } => {
                self.backoff.note_connected();
                match (kind, url) {
                    (ConnectKind::QuickUrl, Some(v)) => {
                        self.attempt_url = Some(v);
                        let emitted = clone_url(&self.attempt_url);
                        StepOut {
                            emits: vec![
                                StatusEvent {
                                    status: Status::Connected,
                                    message: Message::TunnelReady,
                                    url: emitted,
                                },
                            ],
                            action: Action::Listen,
                        }
                    },
                    (ConnectKind::QuickUrl, None) => {
                        // The classifier's contract rules this arm out: a
                        // quick-tunnel classification always carries a URL.
                        proof {
                            assert(false);
                        }
                        StepOut { emits: Vec::new(), action: Action::Listen }
                    },
                    (ConnectKind::Registered, _) => {
                        let emitted = clone_url(&self.attempt_url);
                        StepOut {
                            emits: vec![
                                StatusEvent {
                                    status: Status::Connected,
                                    message: Message::TunnelEstablished,
                                    url: emitted,
                                },
                            ],
                            action: Action::Listen,
                        }
                    },
                    (ConnectKind::Established, _) => {
                        let emitted = clone_url(&self.attempt_url);
                        StepOut {
                            emits: vec![
                                StatusEvent {
                                    status: Status::Connected,
                                    message: Message::TunnelConnected,
                                    url: emitted,
                                },
                            ],
                            action: Action::Listen,
                        }
                    },
                }
            },
            Classification::ErrorDetected => {
                StepOut {
                    emits: vec![
                        StatusEvent { status: Status::Error, message: Message::OutputLine(l), url: None },
                    ],
                    action: Action::Listen,
                }
            },
            Classification::NoMatch => StepOut { emits: Vec::new(), action: Action::Listen },
        }
    }
}

/// Law: a finished session is inert. No event makes it emit, act, or change;
/// in particular no `connected` emission and no spawn can follow a terminal
/// `disconnected` or permanent `error`.
pub proof fn lemma_finished_inert(
    pre: SessionMachine,
    event: Event,
    post: SessionMachine,
    out: StepOut,
)
    requires
        pre.phase == Phase::Finished,
        step_ok(pre, event, post, out),
    ensures
        post == pre,
        out.emits@.len() == 0,
        out.action == Action::Continue,
{
}

/// Law: cancellation from any non-terminal phase yields exactly one
/// `disconnected` event, finishes the session, and never asks for another
/// spawn; while the retry delay is pending the answer is immediate
/// (`Action::Done`), and only a running child is killed.
pub proof fn lemma_cancel_terminal(pre: SessionMachine, post: SessionMachine, out: StepOut)
    requires
        pre.phase != Phase::Finished,
        step_ok(pre, Event::Cancelled, post, out),
    ensures
        out.emits@.len() == 1,
        plain_ev(out.emits@[0], Status::Disconnected, Message::TunnelStopped),
        post.phase == Phase::Finished,
        out.action == (if pre.phase == Phase::Running {
            Action::Kill
        } else {
            Action::Done
        }),
{
}

/// Law: the retry counter never exceeds the budget, whatever happens.
pub proof fn lemma_retry_budget(
    pre: SessionMachine,
    event: Event,
    post: SessionMachine,
    out: StepOut,
)
    requires
        pre.backoff.retry_count <= crate::backoff::MAX_RETRIES,
        step_ok(pre, event, post, out),
    ensures
        post.backoff.retry_count <= crate::backoff::MAX_RETRIES,
{
}

/// Law: with the budget spent and no connection ever seen, the next exit is
/// terminal: one report, one final `error`, and no further attempt.
pub proof fn lemma_budget_spent_is_terminal(
    pre: SessionMachine,
    k: ExitKind,
    post: SessionMachine,
    out: StepOut,
)
    requires
        pre.phase == Phase::Running,
        !pre.backoff.connected_ever,
        pre.backoff.retry_count == crate::backoff::MAX_RETRIES,
        step_ok(pre, Event::Exited(k), post, out),
    ensures
        post.phase == Phase::Finished,
        out.action == Action::Done,
        out.emits@.len() == 2,
        plain_ev(out.emits@[1], Status::Error, Message::RetriesExhausted),
{
    assert(out.emits@.subrange(1, out.emits@.len() as int).len() == 1);
    assert(out.emits@[1] == out.emits@.subrange(1, out.emits@.len() as int)[0]);
}

/// Law: once the session has connected, an exit never exhausts the budget:
/// the counter resets and the session retries after the delay, indefinitely.
pub proof fn lemma_connected_always_retries(
    pre: SessionMachine,
    k: ExitKind,
    post: SessionMachine,
    out: StepOut,
)
    requires
        pre.phase == Phase::Running,
        pre.backoff.connected_ever,
        step_ok(pre, Event::Exited(k), post, out),
    ensures
        post.phase == Phase::Backoff,
        post.backoff.retry_count == 0,
        out.action == Action::Sleep,
{
}

/// Law: once cancellation has been handled, no later event produces an
/// emission or a state change: in particular, no `connected` emission and no
/// spawn ever follows the terminal `disconnected` of a cancelled session.
pub proof fn lemma_no_emission_after_cancel(
    pre: SessionMachine,
    mid: SessionMachine,
    out1: StepOut,
    event: Event,
    post: SessionMachine,
    out2: StepOut,
)
    requires
        pre.phase != Phase::Finished,
        step_ok(pre, Event::Cancelled, mid, out1),
        step_ok(mid, event, post, out2),
    ensures
        out2.emits@.len() == 0,
        post == mid,
        out2.action == Action::Continue,
{
    lemma_cancel_terminal(pre, mid, out1);
    lemma_finished_inert(mid, event, post, out2);
}

/// Law: a missing executable at lookup time ends the session with exactly
/// one `error` event and no retry, whatever the port or token.
pub proof fn lemma_binary_missing(pre: SessionMachine, post: SessionMachine, out: StepOut)
    requires
        pre.phase == Phase::Locating,
        step_ok(pre, Event::BinaryMissing, post, out),
    ensures
        out.emits@.len() == 1,
        plain_ev(out.emits@[0], Status::Error, Message::BinaryNotFound),
        post.phase == Phase::Finished,
        out.action == Action::Done,
{
}

/// Law: a spawn failure whose cause is a missing executable ends the
/// session with exactly one `error` event, no delay and no retry, whatever
/// the retry counter or the configuration.
pub proof fn lemma_spawn_not_found(
    pre: SessionMachine,
    detail: Vec<u8>,
    post: SessionMachine,
    out: StepOut,
)
    requires
        pre.phase == Phase::Spawning,
        step_ok(pre, Event::SpawnFailed { not_found: true, detail }, post, out),
    ensures
        out.emits@.len() == 1,
        plain_ev(out.emits@[0], Status::Error, Message::BinaryNotFound),
        post.phase == Phase::Finished,
        out.action == Action::Done,
{
    assert(out.emits@.subrange(1, out.emits@.len() as int).len() == 0);
}

} // verus!
