//! The hotkey surface: one toggle combination for the overlay bar and nine
//! prompt combinations, plus the tally of how many of them the OS accepted.
//!
//! Binding a combination is an OS call performed by the host shell; this
//! module produces the labels to bind and counts the outcomes, so that one
//! colliding binding never turns the whole registration into a failure.

use vstd::prelude::*;

use crate::errors::PickerError;

verus! {

/// The label of the overlay toggle hotkey.
pub open spec fn toggle_label_spec() -> Seq<u8> {
    seq![97u8, 108u8, 116u8, 43u8, 115u8, 112u8, 97u8, 99u8, 101u8]
}

/// The label of the prompt hotkey for slot `i` (1-based).
pub open spec fn prompt_label_spec(i: int) -> Seq<u8> {
    seq![99u8, 109u8, 100u8, 43u8, 97u8, 108u8, 116u8, 43u8, (48u8 + i) as u8]
}

/// The label of the overlay toggle hotkey, as the OS parser takes it.
pub fn toggle_shortcut_label() -> (r: Vec<u8>)
    ensures
        r@ == toggle_label_spec(),
{
    let mut v: Vec<u8> = Vec::new();
    v.push(97u8);
    v.push(108u8);
    v.push(116u8);
    v.push(43u8);
    v.push(115u8);
    v.push(112u8);
    v.push(97u8);
    v.push(99u8);
    v.push(101u8);
    proof {
        assert(v@ =~= toggle_label_spec());
    }
    v
}

/// The label of the prompt hotkey for slot `i` (1-based).
pub fn prompt_shortcut_label(i: usize) -> (r: Vec<u8>)
    requires
        1 <= i <= 9,
    ensures
        r@ == prompt_label_spec(i as int),
{
    let mut v: Vec<u8> = Vec::new();
    v.push(99u8);
    v.push(109u8);
    v.push(100u8);
    v.push(43u8);
    v.push(97u8);
    v.push(108u8);
    v.push(116u8);
    v.push(43u8);
    v.push(48u8 + (i as u8));
    proof {
        assert(v@ =~= prompt_label_spec(i as int));
    }
    v
}

/// The prompt slot a hotkey stands for: slot `i` (1-based) injects the
/// prompt at index `i - 1` (0-based).
pub fn prompt_index(i: usize) -> (r: usize)
    requires
        1 <= i <= 9,
    ensures
        r == i - 1,
{
    i - 1
}

/// All nine prompt hotkeys with the prompt index each one injects.
pub fn prompt_shortcuts() -> (r: Vec<(Vec<u8>, usize)>)
    ensures
        r@.len() == 9,
        forall|k: int|
            0 <= k < 9 ==> #[trigger] r@[k].0@ == prompt_label_spec(k + 1) && r@[k].1 == k,
{
    let mut r: Vec<(Vec<u8>, usize)> = Vec::new();
    let mut i: usize = 1;
    while i <= 9
        invariant
            1 <= i <= 10,
            r@.len() == i - 1,
            forall|k: int|
                0 <= k < i - 1 ==> #[trigger] r@[k].0@ == prompt_label_spec(k + 1) && r@[k].1
                    == k,
        decreases 10 - i,
    {
        let label = prompt_shortcut_label(i);
        let index = prompt_index(i);
        r.push((label, index));
        i = i + 1;
    }
    r
}

/// Concludes one registration attempt: a binding the OS declined is
/// reported as `ShortcutRegistrationFailed`, and only that binding; the
/// caller goes on with the rest of the batch.
pub fn registration_result(accepted: bool) -> (r: Result<(), PickerError>)
    ensures
        r == if accepted {
            Result::<(), PickerError>::Ok(())
        } else {
            Result::<(), PickerError>::Err(PickerError::ShortcutRegistrationFailed)
        },
{
    if accepted {
        Result::Ok(())
    } else {
        Result::Err(PickerError::ShortcutRegistrationFailed)
    }
}

/// How many of a sequence of registration outcomes succeeded.
pub open spec fn count_true(s: Seq<bool>) -> int
    decreases s.len(),
{
    if s.len() == 0 {
        0
    } else {
        count_true(s.drop_last()) + if s.last() {
            1int
        } else {
            0int
        }
    }
}

/// The result of registering a batch of hotkeys: how many bindings the OS
/// accepted out of how many were attempted.
#[derive(Clone, Copy, PartialEq, Eq, Structural, Debug)]
pub struct RegistrationReport {
    /// Bindings the OS accepted.
    pub registered: usize,
    /// Bindings that were attempted.
    pub attempted: usize,
}

/// Tallies per-hotkey registration outcomes. The report is a count of
/// successes, never all-or-nothing: a collision on one binding leaves every
/// other accepted binding counted.
pub fn register_report(outcomes: &Vec<bool>) -> (r: RegistrationReport)
    ensures
        r.attempted == outcomes@.len(),
        r.registered == count_true(outcomes@),
{
    let mut registered: usize = 0;
    let mut i: usize = 0;
    proof {
        assert(outcomes@.take(0) =~= Seq::<bool>::empty());
    }
    while i < outcomes.len()
        invariant
            i <= outcomes@.len(),
            registered == count_true(outcomes@.take(i as int)),
            registered <= i,
        decreases outcomes@.len() - i,
    {
        proof {
            assert(outcomes@.take(i as int + 1).drop_last() =~= outcomes@.take(i as int));
            assert(outcomes@.take(i as int + 1).last() == outcomes@[i as int]);
        }
        if outcomes[i] {
            registered = registered + 1;
        }
        i = i + 1;
    }
    proof {
        assert(outcomes@.take(outcomes@.len() as int) =~= outcomes@);
    }
    RegistrationReport { registered, attempted: outcomes.len() }
}

/// Law: when every outcome in a batch succeeded, the count says so.
pub proof fn lemma_all_registered(outcomes: Seq<bool>)
    requires
        forall|j: int| 0 <= j < outcomes.len() ==> outcomes[j],
    ensures
        count_true(outcomes) == outcomes.len(),
    decreases outcomes.len(),
{
    if outcomes.len() > 0 {
        lemma_all_registered(outcomes.drop_last());
    }
}

/// Law: one colliding binding among an otherwise successful batch costs
/// exactly that one binding; every other one stays counted.
pub proof fn lemma_one_collision_keeps_the_rest(outcomes: Seq<bool>, i: int)
    requires
        0 <= i < outcomes.len(),
        !outcomes[i],
        forall|j: int| 0 <= j < outcomes.len() && j != i ==> outcomes[j],
    ensures
        count_true(outcomes) == outcomes.len() - 1,
    decreases outcomes.len(),
{
    let rest = outcomes.drop_last();
    if i == outcomes.len() - 1 {
        lemma_all_registered(rest);
    } else {
        lemma_one_collision_keeps_the_rest(rest, i);
    }
}

} // verus!
