//! Focus memory: the single slot that records which application was frontmost
//! before the overlay stole focus, together with the decisions around the OS
//! queries that fill and use it.
//!
//! The OS calls themselves (a shell query for the frontmost process, an
//! activation request) are performed by the host shell; this module decides
//! what their raw outcomes mean and how the slot changes.

use vstd::prelude::*;

use crate::errors::PickerError;

verus! {

/// The raw outcome of an OS query command that ran to completion: its exit
/// status and what it wrote to its standard output.
pub struct QueryOutput {
    /// Whether the command reported success.
    pub status_ok: bool,
    /// The bytes the command wrote.
    pub stdout: Vec<u8>,
}

/// ASCII whitespace, the padding an OS query leaves around a name.
pub open spec fn is_blank(b: u8) -> bool {
    b == 9 || b == 10 || b == 13 || b == 32
}

/// `s` without its leading blanks.
pub open spec fn trim_front(s: Seq<u8>) -> Seq<u8>
    decreases s.len(),
{
    if s.len() > 0 && is_blank(s[0]) {
        trim_front(s.drop_first())
    } else {
        s
    }
}

/// `s` without its trailing blanks.
pub open spec fn trim_back(s: Seq<u8>) -> Seq<u8>
    decreases s.len(),
{
    if s.len() > 0 && is_blank(s.last()) {
        trim_back(s.drop_last())
    } else {
        s
    }
}

/// `s` without leading and trailing blanks.
pub open spec fn trimmed(s: Seq<u8>) -> Seq<u8> {
    trim_back(trim_front(s))
}

/// What a frontmost-application query means: a name only when the command
/// succeeded and printed something besides padding.
pub open spec fn frontmost_app_of(output: Option<QueryOutput>) -> Option<Seq<u8>> {
    match output {
        Option::None => Option::None,
        Option::Some(o) => if o.status_ok && trimmed(o.stdout@).len() > 0 {
            Option::Some(trimmed(o.stdout@))
        } else {
            Option::None
        },
    }
}

/// The abstract content of an optional byte-string value.
pub open spec fn opt_bytes(o: Option<Vec<u8>>) -> Option<Seq<u8>> {
    match o {
        Option::Some(v) => Option::Some(v@),
        Option::None => Option::None,
    }
}

fn blank(b: u8) -> (r: bool)
    ensures
        r == is_blank(b),
{
    b == 9 || b == 10 || b == 13 || b == 32
}

/// A copy of `s` with leading and trailing ASCII whitespace removed.
pub fn trim_bytes(s: &Vec<u8>) -> (r: Vec<u8>)
    ensures
        r@ == trimmed(s@),
{
    proof {
        assert(s@.skip(0) =~= s@);
    }
    let mut start: usize = 0;
    while start < s.len() && blank(s[start])
        invariant
            start <= s.len(),
            trim_front(s@) == trim_front(s@.skip(start as int)),
        decreases s.len() - start,
    {
        proof {
            assert(s@.skip(start as int)[0] == s@[start as int]);
            assert(s@.skip(start as int).drop_first() =~= s@.skip(start as int + 1));
        }
        start = start + 1;
    }
    proof {
        if start == s.len() {
            assert(s@.skip(start as int) =~= Seq::<u8>::empty());
        }
        assert(trim_front(s@) == s@.skip(start as int));
    }
    proof {
        assert(s@.subrange(start as int, s@.len() as int) =~= s@.skip(start as int));
    }
    let mut end: usize = s.len();
    while end > start && blank(s[end - 1])
        invariant
            start <= end <= s.len(),
            trim_front(s@) == s@.skip(start as int),
            trim_back(s@.skip(start as int)) == trim_back(s@.subrange(start as int, end as int)),
        decreases end,
    {
        proof {
            let cur = s@.subrange(start as int, end as int);
            assert(cur.last() == s@[end - 1]);
            assert(cur.drop_last() =~= s@.subrange(start as int, end as int - 1));
        }
        end = end - 1;
    }
    proof {
        if end == start {
            assert(s@.subrange(start as int, end as int) =~= Seq::<u8>::empty());
        } else {
            assert(s@.subrange(start as int, end as int).last() == s@[end - 1]);
        }
        assert(trim_back(s@.subrange(start as int, end as int)) == s@.subrange(
            start as int,
            end as int,
        ));
    }
    let mut r: Vec<u8> = Vec::new();
    proof {
        assert(r@ =~= s@.subrange(start as int, start as int));
    }
    let mut i: usize = start;
    while i < end
        invariant
            start <= i <= end <= s.len(),
            r@ == s@.subrange(start as int, i as int),
        decreases end - i,
    {
        r.push(s[i]);
        proof {
            assert(s@.subrange(start as int, i as int + 1) =~= s@.subrange(
                start as int,
                i as int,
            ).push(s@[i as int]));
        }
        i = i + 1;
    }
    proof {
        assert(r@ == trimmed(s@));
    }
    r
}

/// Decides a frontmost-application query from the raw outcome of the OS
/// command: `None` when the command could not be run or reported failure or
/// printed only padding; otherwise the trimmed name.
pub fn get_frontmost_app(output: Option<QueryOutput>) -> (r: Option<Vec<u8>>)
    ensures
        opt_bytes(r) == frontmost_app_of(output),
{
    match output {
        Option::None => Option::None,
        Option::Some(o) => {
            if o.status_ok {
                let name = trim_bytes(&o.stdout);
                if name.len() > 0 {
                    Option::Some(name)
                } else {
                    Option::None
                }
            } else {
                Option::None
            }
        },
    }
}

/// Decides an activation request from the raw outcome of the OS command:
/// the request succeeded exactly when the command ran and reported success.
pub fn activate_app(outcome: Option<bool>) -> (r: bool)
    ensures
        r == (outcome matches Option::Some(true)),
{
    match outcome {
        Option::Some(ok) => ok,
        Option::None => false,
    }
}

/// The slot that remembers the last known frontmost application.
///
/// Its content always reflects the most recent successful query, or is empty
/// when none has succeeded yet: a failed query never overwrites it.
pub struct FocusMemory {
    last: Option<Vec<u8>>,
}

impl View for FocusMemory {
    type V = Option<Seq<u8>>;

    closed spec fn view(&self) -> Option<Seq<u8>> {
        opt_bytes(self.last)
    }
}

/// The slot after one query outcome is applied: a successful query
/// overwrites it, a failed one leaves it untouched.
pub open spec fn remembered(before: Option<Seq<u8>>, query: Option<Seq<u8>>) -> Option<Seq<u8>> {
    match query {
        Option::Some(name) => Option::Some(name),
        Option::None => before,
    }
}

/// The slot after a whole history of query outcomes, oldest first.
pub open spec fn remembered_all(before: Option<Seq<u8>>, queries: Seq<Option<Seq<u8>>>) -> Option<
    Seq<u8>,
>
    decreases queries.len(),
{
    if queries.len() == 0 {
        before
    } else {
        remembered_all(remembered(before, queries[0]), queries.drop_first())
    }
}

impl FocusMemory {
    /// An empty slot: the state at process start.
    pub fn new() -> (r: FocusMemory)
        ensures
            r@ is None,
    {
        FocusMemory { last: Option::None }
    }

    /// Applies the result of a frontmost-application query: a name overwrites
    /// the slot, a failed query (no name) leaves the prior value untouched.
    pub fn remember(&mut self, query: Option<Vec<u8>>)
        ensures
            final(self)@ == remembered(old(self)@, opt_bytes(query)),
    {
        match query {
            Option::Some(name) => {
                self.last = Option::Some(name);
            },
            Option::None => {},
        }
    }

    /// The current content of the slot.
    pub fn recall(&self) -> (r: Option<Vec<u8>>)
        ensures
            opt_bytes(r) == self@,
    {
        match &self.last {
            Option::Some(v) => Option::Some(copy_bytes(v)),
            Option::None => Option::None,
        }
    }
}

fn copy_bytes(v: &Vec<u8>) -> (r: Vec<u8>)
    ensures
        r@ == v@,
{
    let mut r: Vec<u8> = Vec::new();
    let mut i: usize = 0;
    while i < v.len()
        invariant
            i <= v.len(),
            r@ == v@.subrange(0, i as int),
        decreases v.len() - i,
    {
        r.push(v[i]);
        proof {
            assert(v@.subrange(0, i as int + 1) =~= v@.subrange(0, i as int).push(v@[i as int]));
        }
        i = i + 1;
    }
    proof {
        assert(r@ =~= v@);
    }
    r
}

/// One full capture command: decide the query's outcome and remember it.
/// Never fails; a failed query simply leaves the slot as it was.
pub fn capture_frontmost_app(mem: &mut FocusMemory, output: Option<QueryOutput>) -> (r: Result<
    (),
    PickerError,
>)
    ensures
        r is Ok,
        final(mem)@ == remembered(old(mem)@, frontmost_app_of(output)),
{
    let name = get_frontmost_app(output);
    mem.remember(name);
    Result::Ok(())
}

/// Concludes an explicit re-activation command. With no remembered target
/// there is nothing to activate and the command succeeds; with one, the OS
/// outcome decides, and a declined activation is reported.
pub fn activate_last_app(mem: &FocusMemory, outcome: Option<bool>) -> (r: Result<(), PickerError>)
    ensures
        mem@ is None ==> r is Ok,
        mem@ is Some ==> r == if outcome matches Option::Some(true) {
            Result::<(), PickerError>::Ok(())
        } else {
            Result::<(), PickerError>::Err(PickerError::ActivationFailed)
        },
{
    match mem.recall() {
        Option::None => Result::Ok(()),
        Option::Some(_) => {
            if activate_app(outcome) {
                Result::Ok(())
            } else {
                Result::Err(PickerError::ActivationFailed)
            }
        },
    }
}

/// Law: after a successful query the slot holds that name, and it keeps it
/// through any run of failed queries that follows.
pub proof fn lemma_memory_keeps_last_success(
    before: Option<Seq<u8>>,
    queries: Seq<Option<Seq<u8>>>,
    i: int,
)
    requires
        0 <= i < queries.len(),
        queries[i] is Some,
        forall|j: int| i < j < queries.len() ==> queries[j] is None,
    ensures
        remembered_all(before, queries) == queries[i],
    decreases queries.len(),
{
    if i == 0 {
        lemma_memory_ignores_failures(remembered(before, queries[0]), queries.drop_first());
    } else {
        lemma_memory_keeps_last_success(remembered(before, queries[0]), queries.drop_first(), i - 1);
    }
}

/// Law: a history made only of failed queries leaves the slot untouched.
pub proof fn lemma_memory_ignores_failures(before: Option<Seq<u8>>, queries: Seq<Option<Seq<u8>>>)
    requires
        forall|j: int| 0 <= j < queries.len() ==> queries[j] is None,
    ensures
        remembered_all(before, queries) == before,
    decreases queries.len(),
{
    if queries.len() > 0 {
        lemma_memory_ignores_failures(remembered(before, queries[0]), queries.drop_first());
    }
}

} // verus!
