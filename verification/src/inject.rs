//! The injection trigger: one session per request, stepping through
//! `Idle -> FocusRestoring -> Waiting -> Typing -> {Done, Failed}`.
//!
//! The session only decides; the host shell performs each returned action
//! (re-activate the remembered application, initialize the input backend,
//! wait out the settle delay, synthesize the keystrokes) and reports the
//! outcome as the next event. An empty payload is rejected before any
//! OS-facing action is issued, and a failed re-activation is deliberately
//! harmless: typing is attempted into whatever then has focus.

use vstd::prelude::*;

use crate::errors::PickerError;
use crate::focus::FocusMemory;
use crate::focus::opt_bytes;

verus! {

/// What the user asked to inject: the payload and, when a canned prompt was
/// picked, which slot it came from.
pub struct InjectionRequest {
    /// The text to type.
    pub text: Vec<u8>,
    /// The 0-based slot of the picked prompt, if one was picked.
    pub target_index: Option<usize>,
}

/// Where an injection session stands.
#[derive(Clone, Copy, PartialEq, Eq, Structural, Debug)]
pub enum InjectPhase {
    /// The request was received; nothing has been decided or performed yet.
    Idle,
    /// The remembered application is being brought back to the foreground
    /// and the input backend readied.
    FocusRestoring,
    /// The settle delay is running, so the focus switch can complete.
    Waiting,
    /// The keystrokes are being synthesized.
    Typing,
    /// The payload was typed.
    Done,
    /// The session failed and says why.
    Failed(PickerError),
}

/// What the host shell reports back after performing an action.
#[derive(Clone, Copy, PartialEq, Eq, Structural, Debug)]
pub enum InjectEvent {
    /// The re-activation request finished, successfully or not.
    Activated(bool),
    /// The input backend finished initializing, successfully or not.
    InputReady(bool),
    /// The settle delay elapsed.
    Paused,
    /// Keystroke synthesis finished, successfully or not.
    Typed(bool),
}

/// What the session asks the host shell to do next.
#[derive(Clone, Copy, PartialEq, Eq, Structural, Debug)]
pub enum InjectAction {
    /// Ask the OS to bring the session's target application forward.
    Activate,
    /// Initialize the keystroke-synthesis backend.
    InitInput,
    /// Wait the fixed settle delay.
    Pause,
    /// Synthesize the keystrokes of the session's payload.
    TypeText,
    /// Nothing: the session is finished or the event did not apply.
    Halt,
}

/// The abstract state of a session: its phase, its payload, and the
/// application it restores focus to (the focus memory at start time).
#[verifier::ext_equal]
pub struct SessionView {
    /// Where the session stands.
    pub phase: InjectPhase,
    /// The payload to type.
    pub text: Seq<u8>,
    /// The remembered application, if any.
    pub target: Option<Seq<u8>>,
}

/// How a session begins. An empty payload fails at once with `EmptyInput`
/// and asks for nothing; otherwise focus restoration starts: activation
/// when a target is remembered, else straight to initializing the backend.
pub open spec fn start_spec(text: Seq<u8>, target: Option<Seq<u8>>) -> (SessionView, InjectAction) {
    if text.len() == 0 {
        (
            SessionView {
                phase: InjectPhase::Failed(PickerError::EmptyInput),
                text,
                target,
            },
            InjectAction::Halt,
        )
    } else {
        (
            SessionView { phase: InjectPhase::FocusRestoring, text, target },
            if target is Some {
                InjectAction::Activate
            } else {
                InjectAction::InitInput
            },
        )
    }
}

/// One step of the session. The activation outcome is ignored on purpose:
/// focus restoration is best effort. Any event that does not apply to the
/// current phase changes nothing and asks for nothing.
pub open spec fn step_spec(s: SessionView, ev: InjectEvent) -> (SessionView, InjectAction) {
    match (s.phase, ev) {
        (InjectPhase::FocusRestoring, InjectEvent::Activated(_)) => (s, InjectAction::InitInput),
        (InjectPhase::FocusRestoring, InjectEvent::InputReady(true)) => (
            SessionView { phase: InjectPhase::Waiting, ..s },
            InjectAction::Pause,
        ),
        (InjectPhase::FocusRestoring, InjectEvent::InputReady(false)) => (
            SessionView { phase: InjectPhase::Failed(PickerError::InputSystemUnavailable), ..s },
            InjectAction::Halt,
        ),
        (InjectPhase::Waiting, InjectEvent::Paused) => (
            SessionView { phase: InjectPhase::Typing, ..s },
            InjectAction::TypeText,
        ),
        (InjectPhase::Typing, InjectEvent::Typed(true)) => (
            SessionView { phase: InjectPhase::Done, ..s },
            InjectAction::Halt,
        ),
        (InjectPhase::Typing, InjectEvent::Typed(false)) => (
            SessionView { phase: InjectPhase::Failed(PickerError::InjectionFailed), ..s },
            InjectAction::Halt,
        ),
        _ => (s, InjectAction::Halt),
    }
}

/// The final answer a session reports, once it has one.
pub open spec fn outcome_spec(s: SessionView) -> Option<Result<(), PickerError>> {
    match s.phase {
        InjectPhase::Done => Option::Some(Result::Ok(())),
        InjectPhase::Failed(e) => Option::Some(Result::Err(e)),
        _ => Option::None,
    }
}

/// One injection in flight.
pub struct InjectSession {
    phase: InjectPhase,
    text: Vec<u8>,
    target: Option<Vec<u8>>,
}

impl View for InjectSession {
    type V = SessionView;

    closed spec fn view(&self) -> SessionView {
        SessionView { phase: self.phase, text: self.text@, target: opt_bytes(self.target) }
    }
}

/// Accepts an injection command and opens its session: the payload is
/// validated before anything else, and the focus memory is read once, fixing
/// the session's activation target.
pub fn inject_text(req: InjectionRequest, mem: &FocusMemory) -> (r: (InjectSession, InjectAction))
    ensures
        (r.0@, r.1) == start_spec(req.text@, mem@),
{
    let mut session = InjectSession::idle(req, mem);
    let action = session.begin();
    (session, action)
}

impl InjectSession {
    /// A freshly received request: nothing decided, nothing performed. The
    /// focus memory is read here, fixing the session's activation target.
    pub fn idle(req: InjectionRequest, mem: &FocusMemory) -> (r: InjectSession)
        ensures
            r@.phase == InjectPhase::Idle,
            r@.text == req.text@,
            r@.target == mem@,
    {
        InjectSession { phase: InjectPhase::Idle, text: req.text, target: mem.recall() }
    }

    /// Leaves `Idle`: an empty payload fails with `EmptyInput` before any
    /// OS-facing action is asked for; otherwise focus restoration starts.
    pub fn begin(&mut self) -> (a: InjectAction)
        requires
            old(self)@.phase == InjectPhase::Idle,
        ensures
            (final(self)@, a) == start_spec(old(self)@.text, old(self)@.target),
    {
        let action: InjectAction;
        if self.text.len() == 0 {
            self.phase = InjectPhase::Failed(PickerError::EmptyInput);
            action = InjectAction::Halt;
        } else {
            self.phase = InjectPhase::FocusRestoring;
            action = if self.target.is_some() {
                InjectAction::Activate
            } else {
                InjectAction::InitInput
            };
        }
        proof {
            assert((self@, action) =~= start_spec(old(self)@.text, old(self)@.target));
        }
        action
    }
    /// Where the session stands.
    pub fn phase(&self) -> (r: InjectPhase)
        ensures
            r == self@.phase,
    {
        self.phase
    }

    /// The payload the session types.
    pub fn text(&self) -> (r: &Vec<u8>)
        ensures
            r@ == self@.text,
    {
        &self.text
    }

    /// The application the session restores focus to, if one was remembered.
    pub fn target(&self) -> (r: Option<&Vec<u8>>)
        ensures
            match r {
                Option::Some(v) => self@.target == Option::Some(v@),
                Option::None => self@.target is None,
            },
    {
        self.target.as_ref()
    }

    /// Feeds the outcome of the last action back in and learns what to do
    /// next.
    pub fn step(&mut self, ev: InjectEvent) -> (a: InjectAction)
        ensures
            (final(self)@, a) == step_spec(old(self)@, ev),
    {
        let (next, action): (InjectPhase, InjectAction) = match (self.phase, ev) {
            (InjectPhase::FocusRestoring, InjectEvent::Activated(_)) => (
                InjectPhase::FocusRestoring,
                InjectAction::InitInput,
            ),
            (InjectPhase::FocusRestoring, InjectEvent::InputReady(true)) => (
                InjectPhase::Waiting,
                InjectAction::Pause,
            ),
            (InjectPhase::FocusRestoring, InjectEvent::InputReady(false)) => (
                InjectPhase::Failed(PickerError::InputSystemUnavailable),
                InjectAction::Halt,
            ),
            (InjectPhase::Waiting, InjectEvent::Paused) => (
                InjectPhase::Typing,
                InjectAction::TypeText,
            ),
            (InjectPhase::Typing, InjectEvent::Typed(true)) => (InjectPhase::Done, InjectAction::Halt),
            (InjectPhase::Typing, InjectEvent::Typed(false)) => (
                InjectPhase::Failed(PickerError::InjectionFailed),
                InjectAction::Halt,
            ),
            (p, _) => (p, InjectAction::Halt),
        };
        self.phase = next;
        proof {
            assert((self@, action) =~= step_spec(old(self)@, ev));
        }
        action
    }

    /// The session's answer: `None` while still in flight, otherwise the
    /// verdict the command surfaces.
    pub fn outcome(&self) -> (r: Option<Result<(), PickerError>>)
        ensures
            r == outcome_spec(self@),
    {
        match self.phase {
            InjectPhase::Done => Option::Some(Result::Ok(())),
            InjectPhase::Failed(e) => Option::Some(Result::Err(e)),
            _ => Option::None,
        }
    }
}

/// Decides the accessibility probe: where the platform offers no probe
/// there is nothing to deny, otherwise the input backend's own
/// initialization outcome is the answer. Never an error in itself.
pub fn check_accessibility_permissions(probe: Option<bool>) -> (r: Result<bool, PickerError>)
    ensures
        r == Result::<bool, PickerError>::Ok(
            match probe {
                Option::Some(granted) => granted,
                Option::None => true,
            },
        ),
{
    match probe {
        Option::Some(granted) => Result::Ok(granted),
        Option::None => Result::Ok(true),
    }
}

/// The actions a session issues from `s` on, one per event, when the host
/// feeds it `evs`.
pub open spec fn run_actions(s: SessionView, evs: Seq<InjectEvent>) -> Seq<InjectAction>
    decreases evs.len(),
{
    if evs.len() == 0 {
        Seq::<InjectAction>::empty()
    } else {
        let next = step_spec(s, evs[0]);
        seq![next.1] + run_actions(next.0, evs.drop_first())
    }
}

/// An action that reaches out of the process: everything but `Halt`.
pub open spec fn is_os_action(a: InjectAction) -> bool {
    a != InjectAction::Halt
}

/// Law: a failed session is a sink; no later event makes it issue an
/// OS-facing action.
pub proof fn lemma_failed_is_sink(s: SessionView, evs: Seq<InjectEvent>)
    requires
        s.phase is Failed,
    ensures
        forall|i: int|
            0 <= i < run_actions(s, evs).len() ==> !is_os_action(#[trigger] run_actions(s, evs)[i]),
    decreases evs.len(),
{
    if evs.len() > 0 {
        assert(step_spec(s, evs[0]) == (s, InjectAction::Halt));
        lemma_failed_is_sink(s, evs.drop_first());
        let tail = run_actions(s, evs.drop_first());
        assert(run_actions(s, evs) == seq![InjectAction::Halt] + tail);
        assert forall|i: int| 0 <= i < run_actions(s, evs).len() implies !is_os_action(
            #[trigger] run_actions(s, evs)[i],
        ) by {
            if i > 0 {
                assert(run_actions(s, evs)[i] == tail[i - 1]);
            }
        }
    }
}

/// Law: an injection with an empty payload fails with `EmptyInput` at once,
/// and no sequence of later events can make it issue an OS-facing action.
pub proof fn lemma_empty_input_stays_inert(
    text: Seq<u8>,
    target: Option<Seq<u8>>,
    evs: Seq<InjectEvent>,
)
    requires
        text.len() == 0,
    ensures
        start_spec(text, target).0.phase == InjectPhase::Failed(PickerError::EmptyInput),
        !is_os_action(start_spec(text, target).1),
        forall|i: int|
            0 <= i < run_actions(start_spec(text, target).0, evs).len() ==> !is_os_action(
                #[trigger] run_actions(start_spec(text, target).0, evs)[i],
            ),
{
    lemma_failed_is_sink(start_spec(text, target).0, evs);
}

/// Law: a failed re-activation is treated exactly like a successful one;
/// the session moves on toward typing either way.
pub proof fn lemma_activation_failure_is_harmless(s: SessionView)
    ensures
        step_spec(s, InjectEvent::Activated(false)) == step_spec(s, InjectEvent::Activated(true)),
{
}

} // verus!
