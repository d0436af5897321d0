use vstd::prelude::*;

use crate::evaluator::{spec_eval_all, Evaluator, EvaluatorError};
use crate::pipeline::{Action, Pipeline, PipelineStep, Status};
use crate::prices::PriceBook;

verus! {

/// What one frontier step asks for on this pass: nothing yet, its action, or
/// the failure its condition list produced.
#[derive(Debug)]
pub enum StepDecision {
    NotReady,
    Ready(Action),
    EvalFailed(EvaluatorError),
}

/// The decision for one frontier step, by step identifier.
#[derive(Debug)]
pub struct StepPlan {
    pub step_id: u64,
    pub decision: StepDecision,
}

/// A plan entry is right for frontier position `q`: it names that step, and
/// its decision is the meaning of the step's condition list.
pub open spec fn spec_plan_ok(
    p: Pipeline,
    prices: Map<Seq<char>, u64>,
    now: i64,
    q: int,
    plan: StepPlan,
) -> bool {
    let id = p.current_steps@[q];
    let step = p.spec_step(id);
    plan.step_id == id && match plan.decision {
        StepDecision::Ready(a) => a == step.action && spec_eval_all(step.conditions@, prices, now)
            == Ok::<bool, Seq<char>>(true),
        StepDecision::NotReady => spec_eval_all(step.conditions@, prices, now) == Ok::<
            bool,
            Seq<char>,
        >(false),
        StepDecision::EvalFailed(e) => match e {
            EvaluatorError::MissingPriceData(a) => spec_eval_all(step.conditions@, prices, now)
                == Err::<bool, Seq<char>>(a@),
            _ => false,
        },
    }
}

/// Evaluates every step currently in the frontier against the price snapshot
/// at one instant, and returns a decision per frontier position, in order.
/// The caller then runs ready actions and applies `complete_step` or
/// `fail_step` per outcome.
pub fn frontier_plans(p: &Pipeline, prices: &PriceBook, now: i64) -> (r: Vec<StepPlan>)
    requires
        p.wf(),
    ensures
        r@.len() == p.current_steps@.len(),
        forall|q: int| 0 <= q < r@.len() ==> spec_plan_ok(*p, prices@, now, q, #[trigger] r@[q]),
{
    let n = p.current_steps.len();
    let mut out: Vec<StepPlan> = Vec::new();
    let mut i: usize = 0;
    while i < n
        invariant
            i <= n,
            n == p.current_steps@.len(),
            p.wf(),
            out@.len() == i,
            forall|q: int| 0 <= q < i ==> spec_plan_ok(*p, prices@, now, q, #[trigger] out@[q]),
        decreases n - i,
    {
        let id = p.current_steps[i];
        let step: &PipelineStep = match p.find_step(id) {
            Some(s) => s,
            None => {
                proof {
                    assert(p.spec_has_step(id));
                }
                vstd::pervasive::unreached()
            },
        };
        let decision = match Evaluator::evaluate_conditions_at(&step.conditions, prices, now) {
            Ok(b) => if b {
                StepDecision::Ready(step.action.duplicate())
            } else {
                StepDecision::NotReady
            },
            Err(e) => StepDecision::EvalFailed(e),
        };
        out.push(StepPlan { step_id: id, decision });
        i += 1;
    }
    out
}

/// Marks a frontier step completed: its status becomes `Completed`, the
/// returned transaction hash is recorded, its first frontier occurrence is
/// replaced by its successors at the frontier's end, and a pipeline whose
/// frontier empties while still `Pending` becomes `Completed`.
pub fn complete_step(p: &mut Pipeline, step_id: u64, transaction_hash: Option<String>)
    requires
        old(p).wf(),
        old(p).current_steps@.contains(step_id),
    ensures
        final(p).wf(),
        final(p).steps@ == old(p).steps@.update(
            old(p).spec_step_index(step_id),
            (PipelineStep {
                status: Status::Completed,
                transaction_hash: transaction_hash,
                ..old(p).spec_step(step_id)
            }),
        ),
        exists|k: int|
            0 <= k < old(p).current_steps@.len() && old(p).current_steps@[k] == step_id && (forall|
                j: int,
            |
                0 <= j < k ==> old(p).current_steps@[j] != step_id) && final(p).current_steps@
                == old(p).current_steps@.subrange(0, k) + old(p).current_steps@.subrange(
                k + 1,
                old(p).current_steps@.len() as int,
            ) + old(p).spec_step(step_id).next_steps@,
        final(p).status == (if final(p).current_steps@.len() == 0 && old(p).status
            == Status::Pending {
            Status::Completed
        } else {
            old(p).status
        }),
        final(p).id == old(p).id,
        final(p).user_id == old(p).user_id,
        final(p).wallet_address == old(p).wallet_address,
        final(p).pubkey == old(p).pubkey,
        final(p).created_at == old(p).created_at,
{
    let ghost prior = *p;
    let sidx = step_index_of(p, step_id);
    let next = copy_ids(&p.steps[sidx].next_steps);
    p.steps[sidx].status = Status::Completed;
    p.steps[sidx].transaction_hash = transaction_hash;
    proof {
        assert(p.steps@ =~= prior.steps@.update(
            sidx as int,
            (PipelineStep {
                status: Status::Completed,
                transaction_hash: p.steps@[sidx as int].transaction_hash,
                ..prior.spec_step(step_id)
            }),
        ));
    }
    let fidx = frontier_index_of(p, step_id);
    let ghost mid = *p;
    p.current_steps.remove(fidx);
    let m = next.len();
    let mut k: usize = 0;
    while k < m
        invariant
            k <= m,
            m == next@.len(),
            p.steps@ == mid.steps@,
            p.status == mid.status,
            p.id == mid.id,
            p.user_id == mid.user_id,
            p.wallet_address == mid.wallet_address,
            p.pubkey == mid.pubkey,
            p.created_at == mid.created_at,
            p.current_steps@ == mid.current_steps@.remove(fidx as int) + next@.subrange(
                0,
                k as int,
            ),
        decreases m - k,
    {
        p.current_steps.push(next[k]);
        proof {
            assert(p.current_steps@ =~= mid.current_steps@.remove(fidx as int) + next@.subrange(
                0,
                k + 1,
            ));
        }
        k += 1;
    }
    proof {
        assert(next@.subrange(0, m as int) =~= next@);
    }
    if p.current_steps.len() == 0 && matches!(p.status, Status::Pending) {
        p.status = Status::Completed;
    }
    proof {
        lemma_same_graph_wf(prior, *p);
        assert(mid.current_steps@.remove(fidx as int) =~= prior.current_steps@.subrange(
            0,
            fidx as int,
        ) + prior.current_steps@.subrange(fidx + 1, prior.current_steps@.len() as int));
        assert(p.current_steps@ == prior.current_steps@.subrange(0, fidx as int)
            + prior.current_steps@.subrange(fidx + 1, prior.current_steps@.len() as int)
            + prior.spec_step(step_id).next_steps@);
    }
}

/// Marks a frontier step failed with the captured error text, removes it from
/// the frontier, and fails the whole pipeline: a failed pipeline is terminal
/// and never revisited.
pub fn fail_step(p: &mut Pipeline, step_id: u64, error: String)
    requires
        old(p).wf(),
        old(p).current_steps@.contains(step_id),
    ensures
        final(p).wf(),
        final(p).steps@ == old(p).steps@.update(
            old(p).spec_step_index(step_id),
            (PipelineStep {
                status: Status::Failed,
                error: Some(error),
                ..old(p).spec_step(step_id)
            }),
        ),
        exists|k: int|
            0 <= k < old(p).current_steps@.len() && old(p).current_steps@[k] == step_id && (forall|
                j: int,
            |
                0 <= j < k ==> old(p).current_steps@[j] != step_id) && final(p).current_steps@
                == old(p).current_steps@.subrange(0, k) + old(p).current_steps@.subrange(
                k + 1,
                old(p).current_steps@.len() as int,
            ),
        final(p).status == Status::Failed,
        final(p).id == old(p).id,
        final(p).user_id == old(p).user_id,
        final(p).wallet_address == old(p).wallet_address,
        final(p).pubkey == old(p).pubkey,
        final(p).created_at == old(p).created_at,
{
    let ghost prior = *p;
    let sidx = step_index_of(p, step_id);
    p.steps[sidx].status = Status::Failed;
    p.steps[sidx].error = Some(error);
    proof {
        assert(p.steps@ =~= prior.steps@.update(
            sidx as int,
            (PipelineStep {
                status: Status::Failed,
                error: p.steps@[sidx as int].error,
                ..prior.spec_step(step_id)
            }),
        ));
    }
    let fidx = frontier_index_of(p, step_id);
    let ghost mid = *p;
    p.current_steps.remove(fidx);
    p.status = Status::Failed;
    proof {
        lemma_same_graph_wf(prior, *p);
        assert(mid.current_steps@.remove(fidx as int) =~= prior.current_steps@.subrange(
            0,
            fidx as int,
        ) + prior.current_steps@.subrange(fidx + 1, prior.current_steps@.len() as int));
    }
}

/// Finds the position of a step in the graph vector.
fn step_index_of(p: &Pipeline, step_id: u64) -> (r: usize)
    requires
        p.wf(),
        p.spec_has_step(step_id),
    ensures
        r == p.spec_step_index(step_id),
        0 <= r < p.steps@.len(),
        p.steps@[r as int].id == step_id,
{
    let n = p.steps.len();
    let mut i: usize = 0;
    while i < n
        invariant
            i <= n,
            n == p.steps@.len(),
            p.wf(),
            p.spec_has_step(step_id),
            forall|j: int| 0 <= j < i ==> p.steps@[j].id != step_id,
        decreases n - i,
    {
        if p.steps[i].id == step_id {
            proof {
                let w = p.spec_step_index(step_id);
                assert(0 <= w < p.steps@.len() && p.steps@[w].id == step_id);
                assert(w == i as int);
            }
            return i;
        }
        i += 1;
    }
    proof {
        assert(false);
    }
    vstd::pervasive::unreached()
}

/// Finds the first frontier occurrence of a step identifier.
fn frontier_index_of(p: &Pipeline, step_id: u64) -> (r: usize)
    requires
        p.current_steps@.contains(step_id),
    ensures
        0 <= r < p.current_steps@.len(),
        p.current_steps@[r as int] == step_id,
        forall|j: int| 0 <= j < r ==> p.current_steps@[j] != step_id,
{
    let n = p.current_steps.len();
    let mut i: usize = 0;
    while i < n
        invariant
            i <= n,
            n == p.current_steps@.len(),
            p.current_steps@.contains(step_id),
            forall|j: int| 0 <= j < i ==> p.current_steps@[j] != step_id,
        decreases n - i,
    {
        if p.current_steps[i] == step_id {
            return i;
        }
        i += 1;
    }
    proof {
        let w = choose|w: int| 0 <= w < p.current_steps@.len() && p.current_steps@[w] == step_id;
        assert(false);
    }
    vstd::pervasive::unreached()
}

/// A copy of a step-identifier list.
fn copy_ids(v: &Vec<u64>) -> (r: Vec<u64>)
    ensures
        r@ == v@,
{
    let n = v.len();
    let mut out: Vec<u64> = Vec::new();
    let mut i: usize = 0;
    while i < n
        invariant
            i <= n,
            n == v@.len(),
            out@ == v@.subrange(0, i as int),
        decreases n - i,
    {
        out.push(v[i]);
        proof {
            assert(out@ =~= v@.subrange(0, i + 1));
        }
        i += 1;
    }
    proof {
        assert(v@.subrange(0, n as int) =~= v@);
    }
    out
}

/// Well-formedness survives any mutation that keeps every step identifier and
/// every successor list, and draws the new frontier from old frontier entries
/// and successor lists.
proof fn lemma_same_graph_wf(a: Pipeline, b: Pipeline)
    requires
        a.wf(),
        b.steps@.len() == a.steps@.len(),
        forall|i: int|
            0 <= i < a.steps@.len() ==> #[trigger] b.steps@[i].id == a.steps@[i].id
                && b.steps@[i].next_steps@ == a.steps@[i].next_steps@,
        forall|i: int|
            0 <= i < b.current_steps@.len() ==> a.current_steps@.contains(
                #[trigger] b.current_steps@[i],
            ) || (exists|s: int, j: int|
                0 <= s < a.steps@.len() && 0 <= j < a.steps@[s].next_steps@.len()
                    && a.steps@[s].next_steps@[j] == b.current_steps@[i]),
    ensures
        b.wf(),
{
    assert forall|i: int, j: int| 0 <= i < j < b.steps@.len() implies b.steps@[i].id
        != b.steps@[j].id by {
        assert(a.steps@[i].id != a.steps@[j].id);
    }
    assert forall|i: int| 0 <= i < b.current_steps@.len() implies b.spec_has_step(
        #[trigger] b.current_steps@[i],
    ) by {
        let id = b.current_steps@[i];
        if a.current_steps@.contains(id) {
            let w = choose|w: int| 0 <= w < a.current_steps@.len() && a.current_steps@[w] == id;
            assert(a.spec_has_step(a.current_steps@[w]));
            let s = choose|s: int| 0 <= s < a.steps@.len() && a.steps@[s].id == id;
            assert(b.steps@[s].id == id);
        } else {
            let (s, j): (int, int) = choose|s: int, j: int|
                0 <= s < a.steps@.len() && 0 <= j < a.steps@[s].next_steps@.len()
                    && a.steps@[s].next_steps@[j] == id;
            assert(a.spec_has_step(a.steps@[s].next_steps@[j]));
            let s2 = choose|s2: int| 0 <= s2 < a.steps@.len() && a.steps@[s2].id == id;
            assert(b.steps@[s2].id == id);
        }
    }
    assert forall|i: int, j: int|
        0 <= i < b.steps@.len() && 0 <= j < b.steps@[i].next_steps@.len() implies b.spec_has_step(
        #[trigger] b.steps@[i].next_steps@[j],
    ) by {
        assert(b.steps@[i].id == a.steps@[i].id);
        assert(b.steps@[i].next_steps@ == a.steps@[i].next_steps@);
        assert(a.spec_has_step(a.steps@[i].next_steps@[j]));
        let id = a.steps@[i].next_steps@[j];
        let s = choose|s: int| 0 <= s < a.steps@.len() && a.steps@[s].id == id;
        assert(b.steps@[s].id == id);
    }
}

} // verus!
