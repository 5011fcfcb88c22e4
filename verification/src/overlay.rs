//! Planning of the window transitions: the overlay bar's visibility toggle,
//! the first-launch show, and the per-prompt popup.
//!
//! The host shell looks the windows up and reports what it sees; this module
//! answers with the exact ordered steps to perform. The one rule that
//! matters is baked into every plan that shows the bar: the frontmost
//! application is remembered *before* the bar steals focus, and a plan that
//! hides the bar never touches the focus memory.

use vstd::prelude::*;

use crate::errors::PickerError;

verus! {

/// One OS-facing step of a window plan, in the order the host performs them.
#[derive(Clone, Copy, PartialEq, Eq, Structural, Debug)]
pub enum UiStep {
    /// Query the frontmost application and store it in the focus memory.
    RememberFocus,
    /// Show the overlay bar.
    ShowMain,
    /// Give the overlay bar keyboard focus.
    FocusMain,
    /// Hide the overlay bar.
    HideMain,
    /// Move the existing popup to the requested position.
    PositionPopup,
    /// Create the popup window, positioned and still hidden.
    CreatePopup,
    /// Show the popup window.
    ShowPopup,
    /// Give the popup keyboard focus.
    FocusPopup,
    /// Deliver the prompt payload to the popup.
    EmitPrompt,
    /// Deliver the prompt payload once the freshly created popup exists.
    EmitPromptWhenCreated,
    /// Hide the popup window.
    HidePopup,
}

/// The answer of a visibility toggle, mirrored to the user as a status line.
#[derive(Clone, Copy, PartialEq, Eq, Structural, Debug)]
pub enum ToggleStatus {
    /// The bar was visible and the plan hides it.
    Hidden,
    /// The bar was hidden and the plan shows it.
    Shown,
    /// The bar's visibility could not be read; the plan shows it anyway.
    ShownFallback,
}

/// The plan of a visibility toggle, from what the host saw: whether the bar
/// window was found and what its visibility query returned (`None` when the
/// query itself failed).
pub open spec fn toggle_plan_spec(window_found: bool, visible: Option<bool>) -> Result<
    (Seq<UiStep>, ToggleStatus),
    PickerError,
> {
    if !window_found {
        Result::Err(PickerError::WindowNotFound)
    } else if visible == Option::Some(true) {
        Result::Ok((seq![UiStep::HideMain], ToggleStatus::Hidden))
    } else if visible == Option::Some(false) {
        Result::Ok(
            (
                seq![UiStep::RememberFocus, UiStep::ShowMain, UiStep::FocusMain],
                ToggleStatus::Shown,
            ),
        )
    } else {
        Result::Ok(
            (
                seq![UiStep::RememberFocus, UiStep::ShowMain, UiStep::FocusMain],
                ToggleStatus::ShownFallback,
            ),
        )
    }
}

/// Plans the overlay toggle. A visible bar is hidden; a hidden bar — or one
/// whose visibility could not be read — is shown, always remembering the
/// frontmost application first; a missing window is an error.
pub fn toggle_window_visibility(window_found: bool, visible: Option<bool>) -> (r: Result<
    (Vec<UiStep>, ToggleStatus),
    PickerError,
>)
    ensures
        match r {
            Result::Ok(plan) => toggle_plan_spec(window_found, visible) == Result::<
                _,
                PickerError,
            >::Ok((plan.0@, plan.1)),
            Result::Err(e) => toggle_plan_spec(window_found, visible) == Result::<
                (Seq<UiStep>, ToggleStatus),
                _,
            >::Err(e),
        },
{
    if !window_found {
        return Result::Err(PickerError::WindowNotFound);
    }
    match visible {
        Option::Some(true) => {
            let mut steps: Vec<UiStep> = Vec::new();
            steps.push(UiStep::HideMain);
            proof {
                assert(steps@ =~= seq![UiStep::HideMain]);
            }
            Result::Ok((steps, ToggleStatus::Hidden))
        },
        Option::Some(false) => {
            let steps = show_main_steps();
            Result::Ok((steps, ToggleStatus::Shown))
        },
        Option::None => {
            let steps = show_main_steps();
            Result::Ok((steps, ToggleStatus::ShownFallback))
        },
    }
}

fn show_main_steps() -> (r: Vec<UiStep>)
    ensures
        r@ == seq![UiStep::RememberFocus, UiStep::ShowMain, UiStep::FocusMain],
{
    let mut steps: Vec<UiStep> = Vec::new();
    steps.push(UiStep::RememberFocus);
    steps.push(UiStep::ShowMain);
    steps.push(UiStep::FocusMain);
    proof {
        assert(steps@ =~= seq![UiStep::RememberFocus, UiStep::ShowMain, UiStep::FocusMain]);
    }
    steps
}

/// The plan of the first-launch show: the bar is brought forward for the
/// user, but only after the frontmost application has been remembered.
pub open spec fn startup_plan_spec(window_found: bool) -> Seq<UiStep> {
    if window_found {
        seq![UiStep::RememberFocus, UiStep::ShowMain]
    } else {
        Seq::<UiStep>::empty()
    }
}

/// Plans the first-launch show of the overlay bar.
pub fn startup_plan(window_found: bool) -> (r: Vec<UiStep>)
    ensures
        r@ == startup_plan_spec(window_found),
{
    let mut steps: Vec<UiStep> = Vec::new();
    if window_found {
        steps.push(UiStep::RememberFocus);
        steps.push(UiStep::ShowMain);
        proof {
            assert(steps@ =~= seq![UiStep::RememberFocus, UiStep::ShowMain]);
        }
    } else {
        proof {
            assert(steps@ =~= Seq::<UiStep>::empty());
        }
    }
    steps
}

/// What the popup is told to display: the picked prompt and its slot.
pub struct PromptPayload {
    /// The prompt's text.
    pub prompt: Vec<u8>,
    /// The 0-based slot the prompt was picked from.
    pub index: usize,
}

/// The plan for showing the popup: an existing popup is moved, shown,
/// focused and told the payload; a missing one is created in place, told the
/// payload as soon as it exists, then shown and focused.
pub open spec fn show_popup_plan_spec(popup_exists: bool) -> Seq<UiStep> {
    if popup_exists {
        seq![UiStep::PositionPopup, UiStep::ShowPopup, UiStep::FocusPopup, UiStep::EmitPrompt]
    } else {
        seq![
            UiStep::CreatePopup,
            UiStep::EmitPromptWhenCreated,
            UiStep::ShowPopup,
            UiStep::FocusPopup,
        ]
    }
}

/// Plans the per-prompt popup and packages its payload. The popup follows
/// its own show/position/focus sequence and never touches the focus memory.
pub fn show_popup(popup_exists: bool, prompt: Vec<u8>, index: usize) -> (r: (
    Vec<UiStep>,
    PromptPayload,
))
    ensures
        r.0@ == show_popup_plan_spec(popup_exists),
        r.1.prompt@ == prompt@,
        r.1.index == index,
{
    let mut steps: Vec<UiStep> = Vec::new();
    if popup_exists {
        steps.push(UiStep::PositionPopup);
        steps.push(UiStep::ShowPopup);
        steps.push(UiStep::FocusPopup);
        steps.push(UiStep::EmitPrompt);
    } else {
        steps.push(UiStep::CreatePopup);
        steps.push(UiStep::EmitPromptWhenCreated);
        steps.push(UiStep::ShowPopup);
        steps.push(UiStep::FocusPopup);
    }
    proof {
        assert(steps@ =~= show_popup_plan_spec(popup_exists));
    }
    (steps, PromptPayload { prompt, index })
}

/// Plans hiding the popup: nothing to do when it does not exist.
pub fn hide_popup(popup_exists: bool) -> (r: Vec<UiStep>)
    ensures
        r@ == if popup_exists {
            seq![UiStep::HidePopup]
        } else {
            Seq::<UiStep>::empty()
        },
{
    let mut steps: Vec<UiStep> = Vec::new();
    if popup_exists {
        steps.push(UiStep::HidePopup);
        proof {
            assert(steps@ =~= seq![UiStep::HidePopup]);
        }
    } else {
        proof {
            assert(steps@ =~= Seq::<UiStep>::empty());
        }
    }
    steps
}

/// Law: in every toggle plan that shows the bar, the focus-remember step
/// stands before the show step.
pub proof fn lemma_toggle_remembers_before_show(
    window_found: bool,
    visible: Option<bool>,
    plan: Seq<UiStep>,
    status: ToggleStatus,
    i: int,
)
    requires
        toggle_plan_spec(window_found, visible) == Result::<_, PickerError>::Ok((plan, status)),
        0 <= i < plan.len(),
        plan[i] == UiStep::ShowMain,
    ensures
        exists|j: int| 0 <= j < i && plan[j] == UiStep::RememberFocus,
{
    assert(plan[0] == UiStep::RememberFocus);
}

/// Law: in the first-launch plan too, the focus-remember step stands before
/// the show step.
pub proof fn lemma_startup_remembers_before_show(window_found: bool, plan: Seq<UiStep>, i: int)
    requires
        plan == startup_plan_spec(window_found),
        0 <= i < plan.len(),
        plan[i] == UiStep::ShowMain,
    ensures
        exists|j: int| 0 <= j < i && plan[j] == UiStep::RememberFocus,
{
    assert(plan[0] == UiStep::RememberFocus);
}

/// Law: the toggle plan for a visible bar hides it and never touches the
/// focus memory: no step of it remembers.
pub proof fn lemma_hiding_never_remembers(window_found: bool, plan: Seq<UiStep>, status: ToggleStatus)
    requires
        toggle_plan_spec(window_found, Option::Some(true)) == Result::<_, PickerError>::Ok(
            (plan, status),
        ),
    ensures
        forall|j: int| 0 <= j < plan.len() ==> plan[j] != UiStep::RememberFocus,
{
}

/// Law: the popup's plans never touch the focus memory either.
pub proof fn lemma_popup_never_remembers(popup_exists: bool)
    ensures
        forall|j: int|
            0 <= j < show_popup_plan_spec(popup_exists).len() ==> show_popup_plan_spec(
                popup_exists,
            )[j] != UiStep::RememberFocus,
{
}

} // verus!
