//! The per-connection session: from its state and what just happened, the
//! next state, the header to send (if any) and the next blocking action.
use vstd::prelude::*;
use crate::command::{DumpCommand, Kind, ResponseHeader, kind_of, replies_after_steps};
use crate::plan::{
    StepView, dump_base, dump_length, hex_arg_of, phy_name, plan_of, register_offset,
    register_script, shell_line, step_count, tmp_path,
};
use crate::text::digits;

verus! {

/// Where a connection stands between two blocking operations.
#[derive(Clone, Copy, Debug, PartialEq, Eq, Structural)]
pub enum SessionState {
    /// Waiting for the next request line.
    AwaitingRequest,
    /// Running step `step` of a request of kind `kind`; `ok` holds while
    /// every earlier step succeeded.
    Running { kind: Kind, step: usize, ok: bool },
    /// Waiting to learn whether the requested file can be read.
    Opening,
    /// The header of a file is sent and its bytes are being copied.
    Streaming,
    /// The connection is over.
    Closed,
}

/// What the driver of a session observed after the last action.
#[derive(Clone, Copy, Debug, PartialEq, Eq, Structural)]
pub enum Event {
    /// A line was read and decoded to a request of this kind.
    Request(Kind),
    /// A line was read that is no request.
    Malformed,
    /// The peer went away, or reading or writing the connection failed.
    Disconnected,
    /// The running step ended; `true` when it succeeded.
    StepFinished(bool),
    /// The requested file can be read and holds this many bytes.
    FileOpened(u64),
    /// The requested file cannot be opened.
    FileMissing,
    /// The file's bytes were all written and flushed.
    PayloadSent,
}

/// The next blocking operation the driver performs.
#[derive(Clone, Copy, Debug, PartialEq, Eq, Structural)]
pub enum Action {
    /// Read and decode the next line.
    ReadRequest,
    /// Run the step with this index of the current request's plan.
    Execute(usize),
    /// Open the file the current request names.
    OpenFile,
    /// Copy the opened file to the connection and flush it.
    StreamFile,
    /// Drop the connection.
    Close,
}

/// The answer of a session to an event: a header to write first, if any,
/// then the next action.
#[derive(Clone, Copy, Debug, PartialEq, Eq, Structural)]
pub struct Reaction {
    pub header: Option<ResponseHeader>,
    pub then: Action,
}

pub open spec fn error_header() -> ResponseHeader {
    ResponseHeader { is_error: true, file_size: 0 }
}

pub open spec fn closing() -> (SessionState, Reaction) {
    (SessionState::Closed, Reaction { header: None, then: Action::Close })
}

/// Back to waiting for a request once every step of a request of kind `kind`
/// has run; `ok` when all of them succeeded.
pub open spec fn finished(kind: Kind, ok: bool) -> (SessionState, Reaction) {
    (
        SessionState::AwaitingRequest,
        Reaction {
            header: if replies_after_steps(kind) {
                Some(ResponseHeader { is_error: !ok, file_size: 0 })
            } else {
                None
            },
            then: Action::ReadRequest,
        },
    )
}

/// The session's transition on event `e` in state `s`. An event that does
/// not fit the state ends the session, as does a lost connection.
pub open spec fn transition(s: SessionState, e: Event) -> (SessionState, Reaction) {
    match (s, e) {
        (_, Event::Disconnected) => closing(),
        (SessionState::AwaitingRequest, Event::Request(kind)) => {
            if kind == Kind::CopyFile {
                (SessionState::Opening, Reaction { header: None, then: Action::OpenFile })
            } else {
                (
                    SessionState::Running { kind, step: 0, ok: true },
                    Reaction { header: None, then: Action::Execute(0) },
                )
            }
        },
        (SessionState::AwaitingRequest, Event::Malformed) => (
            SessionState::Closed,
            Reaction { header: Some(error_header()), then: Action::Close },
        ),
        (SessionState::Running { kind, step, ok }, Event::StepFinished(success)) => {
            if step + 1 < step_count(kind) {
                (
                    SessionState::Running { kind, step: (step + 1) as usize, ok: ok && success },
                    Reaction { header: None, then: Action::Execute((step + 1) as usize) },
                )
            } else {
                finished(kind, ok && success)
            }
        },
        (SessionState::Opening, Event::FileOpened(size)) => (
            SessionState::Streaming,
            Reaction {
                header: Some(ResponseHeader { is_error: false, file_size: size }),
                then: Action::StreamFile,
            },
        ),
        (SessionState::Opening, Event::FileMissing) => (
            SessionState::AwaitingRequest,
            Reaction { header: Some(error_header()), then: Action::ReadRequest },
        ),
        (SessionState::Streaming, Event::PayloadSent) => (
            SessionState::AwaitingRequest,
            Reaction { header: None, then: Action::ReadRequest },
        ),
        _ => closing(),
    }
}

impl Kind {
    pub fn step_count(&self) -> (r: usize)
        ensures
            r == step_count(*self),
    {
        match self {
            Kind::DumpIq => 2,
            Kind::DelFiles => 1,
            Kind::CopyFile => 0,
            Kind::SetReg => 1,
            Kind::ShellCmd => 1,
            Kind::AteInit => 4,
            Kind::AteCmd => 1,
        }
    }
}

impl SessionState {
    /// A fresh connection waits for its first request.
    pub fn new() -> (s: SessionState)
        ensures
            s == SessionState::AwaitingRequest,
    {
        SessionState::AwaitingRequest
    }

    pub fn is_closed(&self) -> (r: bool)
        ensures
            r == (*self == SessionState::Closed),
    {
        match self {
            SessionState::Closed => true,
            _ => false,
        }
    }

    /// The next state and reaction after `e`.
    pub fn on_event(self, e: Event) -> (r: (SessionState, Reaction))
        ensures
            r == transition(self, e),
    {
        let close = (SessionState::Closed, Reaction { header: None, then: Action::Close });
        match (self, e) {
            (_, Event::Disconnected) => close,
            (SessionState::AwaitingRequest, Event::Request(kind)) => {
                if kind == Kind::CopyFile {
                    (SessionState::Opening, Reaction { header: None, then: Action::OpenFile })
                } else {
                    (
                        SessionState::Running { kind, step: 0, ok: true },
                        Reaction { header: None, then: Action::Execute(0) },
                    )
                }
            },
            (SessionState::AwaitingRequest, Event::Malformed) => (
                SessionState::Closed,
                Reaction { header: Some(ResponseHeader::error()), then: Action::Close },
            ),
            (SessionState::Running { kind, step, ok }, Event::StepFinished(success)) => {
                let count = kind.step_count();
                let all_ok = ok && success;
                if step < count && count - step > 1 {
                    (
                        SessionState::Running { kind, step: step + 1, ok: all_ok },
                        Reaction { header: None, then: Action::Execute(step + 1) },
                    )
                } else {
                    let replies = match kind {
                        Kind::DumpIq | Kind::DelFiles => true,
                        _ => false,
                    };
                    let header = if replies {
                        Some(ResponseHeader { is_error: !all_ok, file_size: 0 })
                    } else {
                        None
                    };
                    (
                        SessionState::AwaitingRequest,
                        Reaction { header, then: Action::ReadRequest },
                    )
                }
            },
            (SessionState::Opening, Event::FileOpened(size)) => (
                SessionState::Streaming,
                Reaction {
                    header: Some(ResponseHeader { is_error: false, file_size: size }),
                    then: Action::StreamFile,
                },
            ),
            (SessionState::Opening, Event::FileMissing) => (
                SessionState::AwaitingRequest,
                Reaction { header: Some(ResponseHeader::error()), then: Action::ReadRequest },
            ),
            (SessionState::Streaming, Event::PayloadSent) => (
                SessionState::AwaitingRequest,
                Reaction { header: None, then: Action::ReadRequest },
            ),
            _ => close,
        }
    }
}

/// The state reached and the reactions given when `events` arrive, one
/// after the other, in state `s`.
pub open spec fn feed(s: SessionState, events: Seq<Event>) -> (SessionState, Seq<Reaction>)
    decreases events.len(),
{
    if events.len() == 0 {
        (s, Seq::empty())
    } else {
        let (t, r) = transition(s, events[0]);
        let (u, rs) = feed(t, events.drop_first());
        (u, seq![r] + rs)
    }
}

/// The events that report the outcomes of steps, in order.
pub open spec fn step_events(outcomes: Seq<bool>) -> Seq<Event> {
    outcomes.map_values(|b: bool| Event::StepFinished(b))
}

pub open spec fn all_succeeded(outcomes: Seq<bool>) -> bool {
    forall|i: int| 0 <= i < outcomes.len() ==> outcomes[i]
}

proof fn lemma_remaining_steps(kind: Kind, step: usize, ok: bool, outcomes: Seq<bool>)
    requires
        step < step_count(kind),
        outcomes.len() == step_count(kind) - step,
    ensures
        ({
            let (s, rs) = feed(SessionState::Running { kind, step, ok }, step_events(outcomes));
            &&& s == SessionState::AwaitingRequest
            &&& rs.len() == outcomes.len()
            &&& forall|i: int|
                0 <= i < outcomes.len() - 1 ==> rs[i] == Reaction {
                    header: None,
                    then: Action::Execute((step + i + 1) as usize),
                }
            &&& rs.last() == finished(kind, ok && all_succeeded(outcomes)).1
        }),
    decreases outcomes.len(),
{
    let events = step_events(outcomes);
    let rest = outcomes.drop_first();
    assert(events.drop_first() =~= step_events(rest));
    assert(events[0] == Event::StepFinished(outcomes[0]));
    let ok2 = ok && outcomes[0];
    assert((ok2 && all_succeeded(rest)) == (ok && all_succeeded(outcomes))) by {
        if ok2 && all_succeeded(rest) {
            assert forall|i: int| 0 <= i < outcomes.len() implies outcomes[i] by {
                if i > 0 {
                    assert(outcomes[i] == rest[i - 1]);
                }
            }
        }
        if all_succeeded(outcomes) {
            assert forall|i: int| 0 <= i < rest.len() implies rest[i] by {
                assert(rest[i] == outcomes[i + 1]);
            }
        }
    }
    let here = SessionState::Running { kind, step, ok };
    let (t, r) = transition(here, events[0]);
    let (u, rs) = feed(t, step_events(rest));
    assert(feed(here, events) == (u, seq![r] + rs));
    if step + 1 < step_count(kind) {
        lemma_remaining_steps(kind, (step + 1) as usize, ok2, rest);
        assert(t == SessionState::Running { kind, step: (step + 1) as usize, ok: ok2 });
        assert(r == Reaction { header: None, then: Action::Execute((step + 1) as usize) });
        let all = seq![r] + rs;
        assert forall|i: int| 0 <= i < outcomes.len() - 1 implies all[i] == Reaction {
            header: None,
            then: Action::Execute((step + i + 1) as usize),
        } by {
            if i > 0 {
                assert(all[i] == rs[i - 1]);
            }
        }
        assert(all.last() == rs.last());
    } else {
        assert(rest.len() == 0);
        assert(all_succeeded(rest));
        assert(step_events(rest) =~= Seq::<Event>::empty());
        assert((t, r) == finished(kind, ok2));
        assert(rs == Seq::<Reaction>::empty());
        assert(seq![r] + rs =~= seq![r]);
    }
}

/// Every request other than a file copy runs its steps in order, whatever
/// each of them returns: no header is sent before its last step ends, then
/// exactly one header if its kind is answered (an error unless every step
/// succeeded) and none otherwise, and the next request is awaited.
pub proof fn lemma_request_framing(kind: Kind, outcomes: Seq<bool>)
    requires
        kind != Kind::CopyFile,
        outcomes.len() == step_count(kind),
    ensures
        ({
            let (s, rs) = feed(
                SessionState::AwaitingRequest,
                seq![Event::Request(kind)] + step_events(outcomes),
            );
            &&& s == SessionState::AwaitingRequest
            &&& rs.len() == outcomes.len() + 1
            &&& forall|i: int|
                0 <= i < outcomes.len() ==> rs[i] == Reaction {
                    header: None,
                    then: Action::Execute(i as usize),
                }
            &&& rs.last() == Reaction {
                header: if replies_after_steps(kind) {
                    Some(ResponseHeader { is_error: !all_succeeded(outcomes), file_size: 0 })
                } else {
                    None
                },
                then: Action::ReadRequest,
            }
        }),
{
    let events = seq![Event::Request(kind)] + step_events(outcomes);
    assert(events.drop_first() =~= step_events(outcomes));
    assert(events[0] == Event::Request(kind));
    lemma_remaining_steps(kind, 0, true, outcomes);
}

/// A line that is no request is answered with an error header, which says
/// no file follows, and the session then ends.
pub proof fn lemma_malformed_line_ends_session()
    ensures
        transition(SessionState::AwaitingRequest, Event::Malformed) == (
            SessionState::Closed,
            Reaction {
                header: Some(ResponseHeader { is_error: true, file_size: 0 }),
                then: Action::Close,
            },
        ),
{
}

/// A request for a file of `size` bytes that opens: no header before the
/// file is opened, then one header without error that announces `size`,
/// then the file's bytes, and after them the next request is awaited with
/// no further header.
pub proof fn lemma_copy_existing_file(size: u64)
    ensures
        ({
            let (s1, r1) = transition(SessionState::AwaitingRequest, Event::Request(Kind::CopyFile));
            let (s2, r2) = transition(s1, Event::FileOpened(size));
            let (s3, r3) = transition(s2, Event::PayloadSent);
            &&& r1 == Reaction { header: None, then: Action::OpenFile }
            &&& r2 == Reaction {
                header: Some(ResponseHeader { is_error: false, file_size: size }),
                then: Action::StreamFile,
            }
            &&& r3 == Reaction { header: None, then: Action::ReadRequest }
            &&& s3 == SessionState::AwaitingRequest
        }),
{
}

/// A request for a file that does not open is answered with an error header
/// of size zero, no bytes follow, and the next request is awaited.
pub proof fn lemma_copy_missing_file()
    ensures
        ({
            let (s1, r1) = transition(SessionState::AwaitingRequest, Event::Request(Kind::CopyFile));
            let (s2, r2) = transition(s1, Event::FileMissing);
            &&& r1 == Reaction { header: None, then: Action::OpenFile }
            &&& r2 == Reaction {
                header: Some(ResponseHeader { is_error: true, file_size: 0 }),
                then: Action::ReadRequest,
            }
            &&& s2 == SessionState::AwaitingRequest
        }),
{
}

/// A dump first arms the band's capture engine at the band's offset, then
/// reads the band's address range through the word formatter into the named
/// file; the answer is an error unless both steps succeeded.
pub proof fn lemma_dump_iq(c: DumpCommand, first: bool, second: bool)
    requires
        c is DumpIQ,
    ensures
        ({
            let band = c->band;
            let plan = plan_of(c);
            let (s1, r1) = transition(SessionState::AwaitingRequest, Event::Request(kind_of(c)));
            let (s2, r2) = transition(s1, Event::StepFinished(first));
            let (s3, r3) = transition(s2, Event::StepFinished(second));
            &&& plan.len() == 2
            &&& plan[0] == StepView::Run(shell_line(register_script(band)))
            &&& register_script(band) == "echo 0 1 0 15 0 "@ + digits(
                register_offset(band),
                true,
                false,
            ) + " 0 2 0  1 0 0 0 > /sys/kernel/debug/ieee80211/"@ + phy_name(band)
                + "/siwifi/iq_engine"@
            &&& plan[1] matches StepView::Pipe { producer, consumer, output_path } && {
                &&& producer.program == "memdump"@
                &&& producer.args == seq![
                    hex_arg_of(dump_base(band)),
                    hex_arg_of(dump_length(band)),
                ]
                &&& consumer.program == "hexdump"@
                &&& output_path == tmp_path(c->file_name@)
            }
            &&& r1 == Reaction { header: None, then: Action::Execute(0) }
            &&& r2 == Reaction { header: None, then: Action::Execute(1) }
            &&& r3 == Reaction {
                header: Some(ResponseHeader { is_error: !(first && second), file_size: 0 }),
                then: Action::ReadRequest,
            }
            &&& s3 == SessionState::AwaitingRequest
        }),
{
}

/// Removing the scratch files is answered with an error exactly when the
/// removal failed.
pub proof fn lemma_delete_files(removed: bool)
    ensures
        ({
            let (s1, r1) = transition(SessionState::AwaitingRequest, Event::Request(Kind::DelFiles));
            let (s2, r2) = transition(s1, Event::StepFinished(removed));
            &&& plan_of(DumpCommand::DelFiles) == seq![
                StepView::Run(shell_line("rm -rf /tmp/*.txt"@)),
            ]
            &&& r1 == Reaction { header: None, then: Action::Execute(0) }
            &&& r2 == Reaction {
                header: Some(ResponseHeader { is_error: !removed, file_size: 0 }),
                then: Action::ReadRequest,
            }
            &&& s2 == SessionState::AwaitingRequest
        }),
{
}

/// Losing the connection ends the session from every state without a
/// header, and an ended session stays ended and writes nothing, whatever
/// happens next.
pub proof fn lemma_disconnect_ends_session(s: SessionState, e: Event)
    ensures
        transition(s, Event::Disconnected) == (
            SessionState::Closed,
            Reaction { header: None, then: Action::Close },
        ),
        transition(SessionState::Closed, e) == (
            SessionState::Closed,
            Reaction { header: None, then: Action::Close },
        ),
{
}

} // verus!
