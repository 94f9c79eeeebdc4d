//! Replay of an error's trace: the walk from the value that was evaluated
//! to the value inside it at which the error arose.
use vstd::prelude::*;
use vstd::string::StringExecFns;
use crate::data_types::{
    FunctionCallOrType, ImplementationByKind, WfData, WfFunctionCall, WfTestCase, WfTypedList,
};
use crate::data_types::describe::description;
use crate::data_types::substitution::substitute_data;
use crate::data_types::wf_data_type::WfDataType;
use crate::eval_error::{EvalError, TraceEntry};
use crate::execution_context::ExecutionContext;
use crate::key_index::KeyIndex;
use crate::model::{ErrV, ImplKindV, TraceV, Val};
use crate::semantics::{
    CallOrTypeV, Env, parse_call, parse_test_case, parse_typed_list, patched_validation_call,
    pick_implementation, substitute,
};
use crate::text::{decimal_text, push_decimal_usize};
use crate::zid::{text_about, Zid};

verus! {

/// A step of the walk, with the value that the step arrived at.
#[derive(Debug)]
pub enum FullTraceEntry {
    InsideKey(KeyIndex, WfData),
    InsideList(usize, WfData),
    FollowReference(Zid, WfData),
    AfterCompositionSubstitution(Zid, WfData),
    /// A marker: the walk stays where it is.
    ProcessingNonCompositionFunction(Zid),
    /// The result that went into the validation, and the call that the
    /// validation became.
    CheckingTestCaseResult(WfData, WfData),
}

/// The model of a step of the walk.
pub enum StepV {
    InsideKey(KeyIndex, Val),
    InsideList(usize, Val),
    FollowReference(Zid, Val),
    AfterCompositionSubstitution(Zid, Val),
    ProcessingNonCompositionFunction(Zid),
    CheckingTestCaseResult(Val, Val),
}

impl View for FullTraceEntry {
    type V = StepV;

    open spec fn view(&self) -> StepV {
        match self {
            FullTraceEntry::InsideKey(k, d) => StepV::InsideKey(*k, d@),
            FullTraceEntry::InsideList(p, d) => StepV::InsideList(*p, d@),
            FullTraceEntry::FollowReference(z, d) => StepV::FollowReference(*z, d@),
            FullTraceEntry::AfterCompositionSubstitution(z, d) => {
                StepV::AfterCompositionSubstitution(*z, d@)
            },
            FullTraceEntry::ProcessingNonCompositionFunction(z) => {
                StepV::ProcessingNonCompositionFunction(*z)
            },
            FullTraceEntry::CheckingTestCaseResult(r, d) => StepV::CheckingTestCaseResult(r@, d@),
        }
    }
}

impl StepV {
    /// The value that the step arrived at; a marker arrives nowhere.
    pub open spec fn result(self) -> Option<Val> {
        match self {
            StepV::InsideKey(_, d) => Some(d),
            StepV::InsideList(_, d) => Some(d),
            StepV::FollowReference(_, d) => Some(d),
            StepV::AfterCompositionSubstitution(_, d) => Some(d),
            StepV::ProcessingNonCompositionFunction(_) => None,
            StepV::CheckingTestCaseResult(_, d) => Some(d),
        }
    }
}

/// What a trace entry does to the walk.
pub enum Move {
    /// The walk takes the step and arrives at the value.
    Applied(StepV, Val),
    /// The entry is a note: the walk goes on from where it is.
    Skipped,
    /// The entry does not fit the value: the walk ends.
    Stuck,
}

/// The move that the evaluator made where it added `entry` to a trace.
pub open spec fn replay_step(current: Val, entry: TraceV, env: Env) -> Move {
    match entry {
        TraceV::InsideKey(k) => match current.get(k) {
            Some(c) => Move::Applied(StepV::InsideKey(k, c), c),
            None => Move::Stuck,
        },
        TraceV::InsideList(pos) => match parse_typed_list(current) {
            Ok(l) => if pos < l.entries.len() {
                Move::Applied(StepV::InsideList(pos, l.entries[pos as int]), l.entries[pos as int])
            } else {
                Move::Stuck
            },
            Err(_) => Move::Stuck,
        },
        TraceV::InsideReference(z) => if current == Val::Reference(z) && env.store.contains_key(z) {
            Move::Applied(StepV::FollowReference(z, env.store[z]), env.store[z])
        } else {
            Move::Stuck
        },
        TraceV::ProcessingNonCompositionFunction(f) => Move::Applied(
            StepV::ProcessingNonCompositionFunction(f),
            current,
        ),
        TraceV::Substituted(f) => match parse_call(current, env, None) {
            Ok(CallOrTypeV::Call(c)) => if c.function.identity != f {
                Move::Stuck
            } else {
                match pick_implementation(c.function, env) {
                    Ok(imp) => match imp.kind {
                        ImplKindV::Composition(body) => match substitute(body, c.args) {
                            Ok(s) => Move::Applied(StepV::AfterCompositionSubstitution(f, s), s),
                            Err(_) => Move::Stuck,
                        },
                        _ => Move::Stuck,
                    },
                    Err(_) => Move::Stuck,
                }
            },
            _ => Move::Stuck,
        },
        TraceV::CheckingTestCaseResult(result) => match parse_test_case(current, env) {
            Ok(t) => match patched_validation_call(t, result, env) {
                Ok(c) => Move::Applied(
                    StepV::CheckingTestCaseResult(result, Val::FunctionCall(Box::new(c))),
                    Val::FunctionCall(Box::new(c)),
                ),
                Err(_) => Move::Stuck,
            },
            Err(_) => Move::Stuck,
        },
        TraceV::Text(_) => Move::Skipped,
    }
}

/// The model of a replay.
pub struct ReplayV {
    pub full_trace: Seq<StepV>,
    pub root: Val,
    /// Every entry of the trace fitted the value that the walk had reached.
    pub complete: bool,
}

/// The walk along the first `n` entries of a trace, the outermost first,
/// from `current` on; `acc` holds the steps taken before.
pub open spec fn replay_from(current: Val, trace: Seq<TraceV>, n: int, env: Env, acc: Seq<StepV>) -> ReplayV
    decreases n,
{
    if n <= 0 || n > trace.len() {
        ReplayV { full_trace: acc, root: current, complete: true }
    } else {
        match replay_step(current, trace[n - 1], env) {
            Move::Stuck => ReplayV { full_trace: acc, root: current, complete: false },
            Move::Skipped => replay_from(current, trace, n - 1, env, acc),
            Move::Applied(step, next) => replay_from(next, trace, n - 1, env, acc.push(step)),
        }
    }
}

/// The walk along the whole trace of an error.
pub open spec fn replay(input: Val, error: ErrV, env: Env) -> ReplayV {
    replay_from(input, error.trace, error.trace.len() as int, env, Seq::empty())
}

pub open spec fn steps(v: Seq<FullTraceEntry>) -> Seq<StepV> {
    Seq::new(v.len(), |i: int| v[i]@)
}

/// What a replay found: the steps of the walk and the value at its end.
/// A trace that was made for another value may hold an entry that does not
/// fit; the walk ends there, and `complete` says whether it did.
#[derive(Debug)]
pub struct ReplayResult {
    pub full_trace: Vec<FullTraceEntry>,
    pub root: WfData,
    /// Every entry of the trace fitted: `root` is where the trace leads.
    pub complete: bool,
}

impl View for ReplayResult {
    type V = ReplayV;

    open spec fn view(&self) -> ReplayV {
        ReplayV { full_trace: steps(self.full_trace@), root: self.root@, complete: self.complete }
    }
}

/// What a step did, in words.
pub open spec fn action_text(step: StepV) -> Seq<char> {
    match step {
        StepV::InsideKey(k, _) => "inside "@ + k.text(),
        StepV::InsideList(pos, _) => "inside list, at 0-indexed position "@ + decimal_text(
            pos as nat,
        ),
        StepV::FollowReference(z, _) => "follow reference to "@ + z.text(),
        StepV::AfterCompositionSubstitution(f, _) => "after substitution for function "@
            + f.text(),
        StepV::ProcessingNonCompositionFunction(f) =>
            "Inside non-composition implementation for function "@ + f.text(),
        StepV::CheckingTestCaseResult(result, _) =>
            "Checking result with validator (result is "@ + description(result) + ")"@,
    }
}

/// The line of a step: what it did, and the value it arrived at.
pub open spec fn step_line(step: StepV) -> Seq<char> {
    action_text(step) + " -> "@ + (match step.result() {
        Some(d) => description(d),
        None => "None"@,
    }) + "\n"@
}

/// The lines of the first `n` steps.
pub open spec fn step_lines(steps: Seq<StepV>, n: int) -> Seq<char>
    decreases n,
{
    if n <= 0 || n > steps.len() {
        Seq::empty()
    } else {
        step_lines(steps, n - 1) + step_line(steps[n - 1])
    }
}

/// A replay for people to read: a line for each step, then the value at
/// the end.
pub open spec fn pretty(r: ReplayV) -> Seq<char> {
    step_lines(r.full_trace, r.full_trace.len() as int) + "root error data structure:\n"@
        + description(r.root) + "\n"@
}

impl FullTraceEntry {
    /// What the step did, in words.
    pub fn get_action_text(&self) -> (r: String)
        ensures
            r@ == action_text(self@),
    {
        match self {
            FullTraceEntry::InsideKey(index, _) => String::from_str("inside ").concat(
                index.to_string().as_str(),
            ),
            FullTraceEntry::InsideList(pos, _) => {
                let mut s = String::from_str("inside list, at 0-indexed position ");
                push_decimal_usize(&mut s, *pos);
                s
            },
            FullTraceEntry::FollowReference(zid, _) => text_about("follow reference to ", zid),
            FullTraceEntry::AfterCompositionSubstitution(function_zid, _) => text_about(
                "after substitution for function ",
                function_zid,
            ),
            FullTraceEntry::ProcessingNonCompositionFunction(function_zid) => text_about(
                "Inside non-composition implementation for function ",
                function_zid,
            ),
            FullTraceEntry::CheckingTestCaseResult(result, _) => {
                let mut s = String::from_str("Checking result with validator (result is ");
                s.append(result.describe().as_str());
                s.append(")");
                s
            },
        }
    }

    /// The value that the step arrived at; a marker arrives nowhere.
    pub fn get_result(&self) -> (r: Option<&WfData>)
        ensures
            match r {
                Some(d) => self@.result() == Some(d@),
                None => self@.result() is None,
            },
    {
        match self {
            FullTraceEntry::InsideKey(_, d) => Some(d),
            FullTraceEntry::InsideList(_, d) => Some(d),
            FullTraceEntry::FollowReference(_, d) => Some(d),
            FullTraceEntry::AfterCompositionSubstitution(_, d) => Some(d),
            FullTraceEntry::ProcessingNonCompositionFunction(_) => None,
            FullTraceEntry::CheckingTestCaseResult(_, d) => Some(d),
        }
    }
}

impl ReplayResult {
    /// The walk for people to read: a line for each step, then the value at
    /// the end.
    pub fn pretty_trace(&self) -> (r: String)
        ensures
            r@ == pretty(self@),
    {
        let mut result = String::new();
        let n = self.full_trace.len();
        let ghost all = steps(self.full_trace@);
        let mut i: usize = 0;
        while i < n
            invariant
                i <= n,
                n == self.full_trace@.len(),
                all == steps(self.full_trace@),
                result@ == step_lines(all, i as int),
            decreases n - i,
        {
            let entry = &self.full_trace[i];
            let ghost before = result@;
            let action = entry.get_action_text();
            result.append(action.as_str());
            result.append(" -> ");
            match entry.get_result() {
                Some(d) => {
                    let shown = d.describe();
                    result.append(shown.as_str());
                },
                None => {
                    result.append("None");
                },
            }
            result.append("\n");
            proof {
                assert(all[i as int] == entry@);
                assert(result@ =~= before + step_line(entry@));
            }
            i += 1;
        }
        result.append("root error data structure:\n");
        let shown = self.root.describe();
        result.append(shown.as_str());
        result.append("\n");
        proof {
            assert(result@ =~= pretty(self@));
        }
        result
    }
}

/// One step of the walk from `current`.
fn take_step(current: &WfData, step: &TraceEntry, context: &ExecutionContext) -> (r: Option<
    (Option<FullTraceEntry>, WfData),
>)
    ensures
        match replay_step(current@, step@, context@) {
            Move::Stuck => r is None,
            Move::Skipped => r matches Some((None, next)) && next@ == current@,
            Move::Applied(s, v) => r matches Some((Some(entry), next)) && entry@ == s && next@ == v,
        },
{
    match step {
        TraceEntry::InsideKey(key) => match current.get_key(*key) {
            Some(c) => Some((Some(FullTraceEntry::InsideKey(*key, c.clone())), c)),
            None => None,
        },
        TraceEntry::InsideList(pos) => match WfTypedList::parse(current.clone(), context) {
            Ok(list) => match list.get(*pos) {
                Some(c) => Some((Some(FullTraceEntry::InsideList(*pos, c.clone())), c)),
                None => None,
            },
            Err(_) => None,
        },
        TraceEntry::InsideReference(target) => {
            if let WfData::WfReference(reference) = current {
                if reference.to == *target {
                    return match context.get_global().get_object_value(target) {
                        Ok(c) => Some((Some(FullTraceEntry::FollowReference(*target, c.clone())), c)),
                        Err(_) => None,
                    };
                }
            }
            None
        },
        TraceEntry::ProcessingNonCompositionFunction(function_zid) => Some(
            (
                Some(FullTraceEntry::ProcessingNonCompositionFunction(*function_zid)),
                current.clone(),
            ),
        ),
        TraceEntry::Substituted(function_zid) => {
            let function_call = match WfFunctionCall::parse(current.clone(), context) {
                Ok(FunctionCallOrType::FunctionCall(f)) => f,
                _ => {
                    return None;
                },
            };
            if *function_zid != function_call.0.function.0.identity {
                return None;
            }
            let implementation = match function_call.pick_implementation(context) {
                Ok(i) => i,
                Err(_) => {
                    return None;
                },
            };
            match &implementation.0.kind {
                ImplementationByKind::Composition(composition) => match substitute_data(
                    composition,
                    &function_call,
                ) {
                    Ok(c) => Some(
                        (
                            Some(
                                FullTraceEntry::AfterCompositionSubstitution(
                                    *function_zid,
                                    c.clone(),
                                ),
                            ),
                            c,
                        ),
                    ),
                    Err(_) => None,
                },
                _ => None,
            }
        },
        TraceEntry::CheckingTestCaseResult(result) => {
            let test_case = match WfTestCase::parse(current.clone(), context) {
                Ok(t) => t,
                Err(_) => {
                    return None;
                },
            };
            match test_case.get_validation_function_call_with_patched_first_input(
                result.clone(),
                context,
            ) {
                Ok(call) => {
                    let c = call.into_wf_data();
                    Some(
                        (Some(FullTraceEntry::CheckingTestCaseResult(result.clone(), c.clone())), c),
                    )
                },
                Err(_) => None,
            }
        },
        TraceEntry::Text(_) => Some((None, current.clone())),
    }
}

/// Walks from `input` along the trace of `error`, the outermost step
/// first, making at each step the move that the evaluator made there.  The
/// walk ends where the trace ends, or at the first step that does not fit
/// the value; the result says which.
pub fn generate_replay(input: WfData, context: &ExecutionContext, error: &EvalError) -> (r:
    ReplayResult)
    ensures
        r@ == replay(input@, error@, context@),
{
    let mut current = input;
    let mut full_trace: Vec<FullTraceEntry> = Vec::new();
    let trace = error.get_trace();
    let ghost model = error@.trace;
    let mut n: usize = trace.len();
    proof {
        assert(steps(full_trace@) =~= Seq::<StepV>::empty());
    }
    while n > 0
        invariant
            n <= trace@.len(),
            model == error@.trace,
            model.len() == trace@.len(),
            forall|i: int| 0 <= i < trace@.len() ==> model[i] == trace@[i]@,
            replay(input@, error@, context@) == replay_from(
                current@,
                model,
                n as int,
                context@,
                steps(full_trace@),
            ),
        decreases n,
    {
        match take_step(&current, &trace[n - 1], context) {
            None => {
                return ReplayResult { full_trace, root: current, complete: false };
            },
            Some((entry, next)) => {
                match entry {
                    Some(e) => {
                        proof {
                            assert(steps(full_trace@.push(e)) =~= steps(full_trace@).push(e@));
                        }
                        full_trace.push(e);
                    },
                    None => {},
                }
                current = next;
            },
        }
        n -= 1;
    }
    ReplayResult { full_trace, root: current, complete: true }
}

} // verus!
