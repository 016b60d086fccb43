//! The batch helper: collect the outcomes of a list of handles in their
//! original order and apply one error policy per entry — re-raise the first
//! failure, skip failures, or keep a placeholder in the failure's position.

use vstd::prelude::*;
use vstd::string::StringExecFns;
use crate::values::TaskValue;
use crate::values::TaskOutcome;
use crate::errors::TaskError;
use crate::handle::TaskHandle;
use crate::text::str_eq;

verus! {

/// What to do with a failed entry.
#[derive(Clone, Copy, Debug, PartialEq, Eq, Structural)]
pub enum OnErrorPolicy {
    /// Return the first failure itself.
    Raise,
    /// Drop failures, keeping the successes in their original order.
    Skip,
    /// Keep a placeholder in each failure's position.
    NoneValue,
}

/// How a gather fails: the policy string was invalid, or the policy re-raises
/// a task's failure.
#[derive(Clone, Debug, PartialEq, Eq)]
pub enum GatherError {
    InvalidPolicy { message: String },
    TaskFailed { error: TaskError },
}

/// Reads a policy from its name: `raise`, `skip` or `none`; everything else
/// is a validation error.
pub fn parse_on_error(on_error: &str) -> (r: Result<OnErrorPolicy, GatherError>)
    ensures
        on_error@ == "raise"@ ==> r == Ok::<OnErrorPolicy, GatherError>(OnErrorPolicy::Raise),
        on_error@ == "skip"@ ==> r == Ok::<OnErrorPolicy, GatherError>(OnErrorPolicy::Skip),
        on_error@ == "none"@ ==> r == Ok::<OnErrorPolicy, GatherError>(OnErrorPolicy::NoneValue),
        on_error@ != "raise"@ && on_error@ != "skip"@ && on_error@ != "none"@ ==> (r matches Err(
            GatherError::InvalidPolicy { message },
        ) && message@ == "on_error must be 'raise', 'skip', or 'none'"@),
{
    proof {
        reveal_strlit("raise");
        reveal_strlit("skip");
        reveal_strlit("none");
        assert("skip"@[0] != "none"@[0]);
    }
    if str_eq(on_error, "raise") {
        Ok(OnErrorPolicy::Raise)
    } else if str_eq(on_error, "skip") {
        Ok(OnErrorPolicy::Skip)
    } else if str_eq(on_error, "none") {
        Ok(OnErrorPolicy::NoneValue)
    } else {
        Err(
            GatherError::InvalidPolicy {
                message: String::from_str("on_error must be 'raise', 'skip', or 'none'"),
            },
        )
    }
}

/// The values of the successful outcomes, in their original order.
pub open spec fn ok_values(outcomes: Seq<TaskOutcome>) -> Seq<TaskValue>
    decreases outcomes.len(),
{
    if outcomes.len() == 0 {
        Seq::empty()
    } else {
        (match outcomes.first() {
            Ok(v) => seq![v],
            Err(_) => Seq::empty(),
        }) + ok_values(outcomes.drop_first())
    }
}

/// Each outcome's value, a placeholder where it failed.
pub open spec fn placeheld_values(outcomes: Seq<TaskOutcome>) -> Seq<Option<TaskValue>> {
    outcomes.map_values(
        |o: TaskOutcome|
            match o {
                Ok(v) => Some(v),
                Err(_) => None,
            },
    )
}

/// Appending an outcome appends its value when it succeeded and nothing
/// otherwise.
pub proof fn lemma_ok_values_push(s: Seq<TaskOutcome>, o: TaskOutcome)
    ensures
        ok_values(s.push(o)) == (match o {
            Ok(v) => ok_values(s).push(v),
            Err(_) => ok_values(s),
        }),
    decreases s.len(),
{
    if s.len() == 0 {
        assert(s.push(o).first() == o);
        assert(s.push(o).drop_first() =~= Seq::<TaskOutcome>::empty());
        assert(ok_values(Seq::<TaskOutcome>::empty()) == Seq::<TaskValue>::empty());
        match o {
            Ok(v) => {
                assert(ok_values(s.push(o)) =~= ok_values(s).push(v));
            },
            Err(_) => {
                assert(ok_values(s.push(o)) =~= ok_values(s));
            },
        }
    } else {
        assert(s.push(o).first() == s.first());
        assert(s.push(o).drop_first() =~= s.drop_first().push(o));
        lemma_ok_values_push(s.drop_first(), o);
        match o {
            Ok(v) => {
                assert(ok_values(s.push(o)) =~= ok_values(s).push(v));
            },
            Err(_) => {
                assert(ok_values(s.push(o)) =~= ok_values(s));
            },
        }
    }
}

/// Applies the skip policy: only the successful values, in original order.
pub fn gather_skip(outcomes: &Vec<TaskOutcome>) -> (r: Vec<TaskValue>)
    ensures
        r@ == ok_values(outcomes@),
{
    let n = outcomes.len();
    let mut out: Vec<TaskValue> = Vec::new();
    proof {
        assert(out@ =~= ok_values(outcomes@.take(0)));
    }
    let mut i: usize = 0;
    while i < n
        invariant
            i <= n,
            n == outcomes@.len(),
            out@ == ok_values(outcomes@.take(i as int)),
        decreases n - i,
    {
        proof {
            assert(outcomes@.take(i + 1) =~= outcomes@.take(i as int).push(outcomes@[i as int]));
            lemma_ok_values_push(outcomes@.take(i as int), outcomes@[i as int]);
        }
        match &outcomes[i] {
            Ok(v) => {
                out.push(v.clone());
            },
            Err(_) => {},
        }
        i = i + 1;
    }
    proof {
        assert(outcomes@.take(n as int) =~= outcomes@);
    }
    out
}

/// Applies the placeholder policy: every entry in place, failures as
/// placeholders.
pub fn gather_none(outcomes: &Vec<TaskOutcome>) -> (r: Vec<Option<TaskValue>>)
    ensures
        r@ == placeheld_values(outcomes@),
{
    let n = outcomes.len();
    let mut out: Vec<Option<TaskValue>> = Vec::new();
    let mut i: usize = 0;
    while i < n
        invariant
            i <= n,
            n == outcomes@.len(),
            out@.len() == i,
            forall|k: int| 0 <= k < i ==> #[trigger] out@[k] == placeheld_values(outcomes@)[k],
        decreases n - i,
    {
        match &outcomes[i] {
            Ok(v) => {
                out.push(Some(v.clone()));
            },
            Err(_) => {
                out.push(None);
            },
        }
        i = i + 1;
    }
    proof {
        assert(out@ =~= placeheld_values(outcomes@));
    }
    out
}

/// Applies the raise policy: all the values when every outcome succeeded, and
/// otherwise the first failure, in submission order.
pub fn gather_raise(outcomes: &Vec<TaskOutcome>) -> (r: Result<Vec<TaskValue>, TaskError>)
    ensures
        r is Ok <==> (forall|i: int| 0 <= i < outcomes@.len() ==> (#[trigger] outcomes@[i]) is Ok),
        r matches Ok(vs) ==> vs@.len() == outcomes@.len() && (forall|i: int|
            0 <= i < outcomes@.len() ==> ((#[trigger] outcomes@[i]) matches Ok(v) && vs@[i] == v)),
        r matches Err(e) ==> exists|i: int|
            {
                &&& 0 <= i < outcomes@.len()
                &&& (#[trigger] outcomes@[i]) matches Err(e2) && e2 == e
                &&& forall|j: int| 0 <= j < i ==> (#[trigger] outcomes@[j]) is Ok
            },
{
    let n = outcomes.len();
    let mut out: Vec<TaskValue> = Vec::new();
    let mut i: usize = 0;
    while i < n
        invariant
            i <= n,
            n == outcomes@.len(),
            out@.len() == i,
            forall|k: int|
                0 <= k < i ==> ((#[trigger] outcomes@[k]) matches Ok(v) && out@[k] == v),
        decreases n - i,
    {
        match &outcomes[i] {
            Ok(v) => {
                out.push(v.clone());
            },
            Err(e) => {
                return Err(e.clone());
            },
        }
        i = i + 1;
    }
    Ok(out)
}

/// Collects every handle's outcome with a blocking read, in the handles'
/// original order, consuming the handles.
pub fn collect_outcomes(handles: Vec<TaskHandle>) -> (r: Vec<TaskOutcome>)
    requires
        forall|i: int| 0 <= i < handles@.len() ==> (#[trigger] handles@[i]).wf(),
    ensures
        r@.len() == handles@.len(),
{
    let mut hs = handles;
    let mut outcomes: Vec<TaskOutcome> = Vec::new();
    let n = hs.len();
    let mut i: usize = 0;
    while i < n
        invariant
            i <= n,
            n == i + hs@.len(),
            outcomes@.len() == i,
            forall|k: int| 0 <= k < hs@.len() ==> (#[trigger] hs@[k]).wf(),
        decreases n - i,
    {
        let mut h = hs.remove(0);
        let outcome = h.get();
        outcomes.push(outcome);
        i = i + 1;
    }
    outcomes
}

/// Gathers results from handles under a policy. An unknown policy name is a
/// validation error; `raise` re-raises the first failure; `skip` keeps only
/// the successes, in original order; `none` keeps a placeholder per failure,
/// so the list keeps its length.
pub fn gather(handles: Vec<TaskHandle>, on_error: &str) -> (r: Result<
    Vec<Option<TaskValue>>,
    GatherError,
>)
    requires
        forall|i: int| 0 <= i < handles@.len() ==> (#[trigger] handles@[i]).wf(),
    ensures
        (on_error@ != "raise"@ && on_error@ != "skip"@ && on_error@ != "none"@) <==> (r matches Err(
            GatherError::InvalidPolicy { message },
        ) && message@ == "on_error must be 'raise', 'skip', or 'none'"@),
        on_error@ == "skip"@ ==> r is Ok,
        on_error@ == "none"@ ==> (r matches Ok(vs) && vs@.len() == handles@.len()),
        r matches Err(GatherError::TaskFailed { error }) ==> on_error@ == "raise"@,
{
    let policy = match parse_on_error(on_error) {
        Ok(p) => p,
        Err(e) => {
            return Err(e);
        },
    };
    let outcomes = collect_outcomes(handles);
    match policy {
        OnErrorPolicy::Raise => {
            match gather_raise(&outcomes) {
                Ok(values) => {
                    let mut out: Vec<Option<TaskValue>> = Vec::new();
                    let n = values.len();
                    let mut vs = values;
                    let mut i: usize = 0;
                    while i < n
                        invariant
                            i <= n,
                            n == i + vs@.len(),
                            out@.len() == i,
                        decreases n - i,
                    {
                        let v = vs.remove(0);
                        out.push(Some(v));
                        i = i + 1;
                    }
                    Ok(out)
                },
                Err(e) => Err(GatherError::TaskFailed { error: e }),
            }
        },
        OnErrorPolicy::Skip => {
            let values = gather_skip(&outcomes);
            let mut out: Vec<Option<TaskValue>> = Vec::new();
            let n = values.len();
            let mut vs = values;
            let mut i: usize = 0;
            while i < n
                invariant
                    i <= n,
                    n == i + vs@.len(),
                    out@.len() == i,
                decreases n - i,
            {
                let v = vs.remove(0);
                out.push(Some(v));
                i = i + 1;
            }
            Ok(out)
        },
        OnErrorPolicy::NoneValue => {
            let out = gather_none(&outcomes);
            proof {
                assert(out@.len() == outcomes@.len());
            }
            Ok(out)
        },
    }
}

/// The scope-style grouping helper: collects the handles of a group of
/// submissions and blocks on all of them when the scope is finished. One
/// timeout, when given, is meant to be applied uniformly to each submission
/// in the scope by whoever submits into it.
pub struct TaskScope {
    pub handles: Vec<TaskHandle>,
    pub timeout_ms: Option<u64>,
}

impl TaskScope {
    /// An empty scope, with the timeout its submissions share.
    pub fn new(timeout_ms: Option<u64>) -> (r: TaskScope)
        ensures
            r.handles@ == Seq::<TaskHandle>::empty(),
            r.timeout_ms == timeout_ms,
    {
        TaskScope { handles: Vec::new(), timeout_ms }
    }

    /// Collects one submission into the scope.
    pub fn add(&mut self, handle: TaskHandle)
        ensures
            final(self).handles@ == old(self).handles@.push(handle),
            final(self).timeout_ms == old(self).timeout_ms,
    {
        self.handles.push(handle);
    }

    /// The timeout each submission in this scope is given.
    pub fn get_timeout(&self) -> (r: Option<u64>)
        ensures
            r == self.timeout_ms,
    {
        self.timeout_ms
    }

    /// How many submissions the scope holds.
    pub fn len(&self) -> (r: usize)
        ensures
            r == self.handles@.len(),
    {
        self.handles.len()
    }

    /// Scope exit: blocks on every collected handle, in submission order,
    /// and hands back one outcome per submission.
    pub fn finish(self) -> (r: Vec<TaskOutcome>)
        requires
            forall|i: int| 0 <= i < self.handles@.len() ==> (#[trigger] self.handles@[i]).wf(),
        ensures
            r@.len() == self.handles@.len(),
    {
        collect_outcomes(self.handles)
    }
}

} // verus!
