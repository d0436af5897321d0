use vstd::prelude::*;

use vstd::string::{StrSliceExecFns, StringExecFns};

use crate::engine::{key_set, lemma_key_set_push, spec_sentinel_asset};
use crate::order::SwapOrder;
use crate::payment::PaymentOrder;

verus! {

/// Lifecycle state shared by pipelines and their steps: `Pending` is the only
/// active state; the other three are terminal.
#[derive(Debug, Clone, PartialEq, Eq, Structural)]
pub enum Status {
    Pending,
    Completed,
    Failed,
    Cancelled,
}

impl Status {
    /// A pipeline or step in any state but `Pending` is never evaluated again.
    pub open spec fn spec_is_terminal(self) -> bool {
        self !== Status::Pending
    }

    pub fn is_terminal(&self) -> (r: bool)
        ensures
            r == self.spec_is_terminal(),
    {
        !matches!(self, Status::Pending)
    }
}

/// What a step asks of the world: a swap, a payment, or a message to the
/// owning user.
#[derive(Debug, Clone)]
pub enum Action {
    Order(SwapOrder),
    Payment(PaymentOrder),
    Notification(Notification),
}

#[derive(Debug, Clone)]
pub struct Notification {
    pub message: String,
}

impl Notification {
    /// An equal copy.
    pub fn duplicate(&self) -> (r: Notification)
        ensures
            r == *self,
    {
        Notification { message: self.message.clone() }
    }
}

impl Action {
    /// An equal copy, variant by variant.
    pub fn duplicate(&self) -> (r: Action)
        ensures
            r == *self,
    {
        match self {
            Action::Order(o) => Action::Order(o.duplicate()),
            Action::Payment(o) => Action::Payment(o.duplicate()),
            Action::Notification(n) => Action::Notification(n.duplicate()),
        }
    }
}

/// One gate of a step's condition list. Timer instants are Unix milliseconds.
#[derive(Debug)]
pub enum ConditionType {
    PriceAbove { asset: String, value: u64 },
    PriceBelow { asset: String, value: u64 },
    Now { asset: String },
    And(Vec<Condition>),
    Or(Vec<Condition>),
    GTTimer(i64),
    LTTimer(i64),
}

/// A condition with its bookkeeping fields. `triggered` and `last_evaluated`
/// are carried in the record but never read when evaluating.
#[derive(Debug)]
pub struct Condition {
    pub condition_type: ConditionType,
    pub triggered: bool,
    pub last_evaluated: Option<i64>,
}

/// One node of a pipeline's step graph: an action guarded by a condition list
/// (an implicit logical AND; the empty list is vacuously satisfied), and the
/// identifiers of the steps to activate when this one completes.
#[derive(Debug)]
pub struct PipelineStep {
    pub id: u64,
    pub action: Action,
    pub conditions: Vec<Condition>,
    pub next_steps: Vec<u64>,
    pub status: Status,
    pub transaction_hash: Option<String>,
    pub error: Option<String>,
}

/// A user's registered automation: a directed graph of steps and the frontier
/// of step identifiers currently eligible for evaluation. `created_at` is Unix
/// milliseconds.
#[derive(Debug)]
pub struct Pipeline {
    pub id: String,
    pub user_id: String,
    pub wallet_address: String,
    pub pubkey: String,
    pub current_steps: Vec<u64>,
    pub steps: Vec<PipelineStep>,
    pub status: Status,
    pub created_at: i64,
}

/// The unit of mutual exclusion for a pipeline.
pub open spec fn spec_dedup_key(user_id: Seq<char>, id: Seq<char>) -> Seq<char> {
    user_id + ":"@ + id
}

/// The record store's key for a pipeline, derived from its dedup key.
pub open spec fn spec_store_key(dedup_key: Seq<char>) -> Seq<char> {
    "pipeline:"@ + dedup_key
}

/// Builds the store key `pipeline:<dedup key>` for one batched read.
pub fn store_key(dedup_key: &str) -> (r: String)
    ensures
        r@ == spec_store_key(dedup_key@),
{
    let mut s = "pipeline:".to_owned();
    s.append(dedup_key);
    s
}

/// The assets one condition mentions: price conditions name their asset, a
/// `Now` condition projects the sentinel bucket, timers mention none.
pub open spec fn spec_condition_assets(c: Condition) -> Set<Seq<char>>
    decreases c,
{
    match c.condition_type {
        ConditionType::PriceAbove { asset, value } => set![asset@],
        ConditionType::PriceBelow { asset, value } => set![asset@],
        ConditionType::Now { asset } => set![spec_sentinel_asset()],
        ConditionType::And(children) => spec_conditions_assets(children@),
        ConditionType::Or(children) => spec_conditions_assets(children@),
        ConditionType::GTTimer(t) => Set::empty(),
        ConditionType::LTTimer(t) => Set::empty(),
    }
}

/// The assets a condition list mentions.
pub open spec fn spec_conditions_assets(cs: Seq<Condition>) -> Set<Seq<char>>
    decreases cs,
{
    if cs.len() == 0 {
        Set::empty()
    } else {
        spec_conditions_assets(cs.drop_last()).union(spec_condition_assets(cs.last()))
    }
}

/// Pushes every asset one condition mentions onto `out`.
fn collect_condition_assets(c: &Condition, out: &mut Vec<String>)
    ensures
        key_set(final(out)@) == key_set(old(out)@).union(spec_condition_assets(*c)),
    decreases c,
{
    match &c.condition_type {
        ConditionType::PriceAbove { asset, value } => {
            out.push(asset.clone());
            proof {
                lemma_key_set_push(old(out)@, out@.last());
                assert(key_set(out@) =~= key_set(old(out)@).union(spec_condition_assets(*c)));
            }
        },
        ConditionType::PriceBelow { asset, value } => {
            out.push(asset.clone());
            proof {
                lemma_key_set_push(old(out)@, out@.last());
                assert(key_set(out@) =~= key_set(old(out)@).union(spec_condition_assets(*c)));
            }
        },
        ConditionType::Now { asset } => {
            out.push("NOW".to_owned());
            proof {
                lemma_key_set_push(old(out)@, out@.last());
                assert(key_set(out@) =~= key_set(old(out)@).union(spec_condition_assets(*c)));
            }
        },
        ConditionType::And(children) => {
            collect_conditions_assets(children, out);
        },
        ConditionType::Or(children) => {
            collect_conditions_assets(children, out);
        },
        ConditionType::GTTimer(t) => {
            proof {
                assert(key_set(out@) =~= key_set(old(out)@).union(spec_condition_assets(*c)));
            }
        },
        ConditionType::LTTimer(t) => {
            proof {
                assert(key_set(out@) =~= key_set(old(out)@).union(spec_condition_assets(*c)));
            }
        },
    }
}

/// Pushes every asset a condition list mentions onto `out`.
fn collect_conditions_assets(cs: &Vec<Condition>, out: &mut Vec<String>)
    ensures
        key_set(final(out)@) == key_set(old(out)@).union(spec_conditions_assets(cs@)),
    decreases cs,
{
    let ghost base = out@;
    let n = cs.len();
    let mut i: usize = 0;
    while i < n
        invariant
            i <= n,
            n == cs@.len(),
            key_set(out@) == key_set(base).union(spec_conditions_assets(cs@.subrange(0, i as int))),
        decreases n - i,
    {
        let ghost prefix2 = cs@.subrange(0, i + 1);
        proof {
            assert(prefix2.drop_last() =~= cs@.subrange(0, i as int));
            assert(prefix2.last() == cs@[i as int]);
        }
        collect_condition_assets(&cs[i], out);
        proof {
            assert(key_set(out@) =~= key_set(base).union(spec_conditions_assets(prefix2)));
        }
        i += 1;
    }
    proof {
        assert(cs@.subrange(0, n as int) =~= cs@);
        if n == 0 {
            assert(key_set(out@) =~= key_set(base).union(spec_conditions_assets(cs@)));
        }
    }
}

impl Pipeline {
    /// Whether a step with this identifier exists in the graph.
    pub open spec fn spec_has_step(self, id: u64) -> bool {
        exists|i: int| 0 <= i < self.steps@.len() && self.steps@[i].id == id
    }

    /// The position of the step with this identifier.
    pub open spec fn spec_step_index(self, id: u64) -> int {
        choose|i: int| 0 <= i < self.steps@.len() && self.steps@[i].id == id
    }

    /// The step with this identifier.
    pub open spec fn spec_step(self, id: u64) -> PipelineStep {
        self.steps@[self.spec_step_index(id)]
    }

    /// Well-formedness: step identifiers are unique, and both the frontier and
    /// every step's successor list refer to steps that exist in the graph.
    pub open spec fn wf(self) -> bool {
        &&& forall|i: int, j: int|
            0 <= i < j < self.steps@.len() ==> self.steps@[i].id != self.steps@[j].id
        &&& forall|i: int|
            0 <= i < self.current_steps@.len() ==> self.spec_has_step(
                #[trigger] self.current_steps@[i],
            )
        &&& forall|i: int, j: int|
            0 <= i < self.steps@.len() && 0 <= j < self.steps@[i].next_steps@.len()
                ==> self.spec_has_step(#[trigger] self.steps@[i].next_steps@[j])
    }

    /// The dedup key `user_id:pipeline_id`.
    pub fn dedup_key(&self) -> (r: String)
        ensures
            r@ == spec_dedup_key(self.user_id@, self.id@),
    {
        let mut s = self.user_id.clone();
        s.append(":");
        s.append(self.id.as_str());
        s
    }

    /// Looks a step up by identifier.
    pub fn find_step(&self, id: u64) -> (r: Option<&PipelineStep>)
        requires
            self.wf(),
        ensures
            match r {
                Some(step) => self.spec_has_step(id) && *step == self.spec_step(id),
                None => !self.spec_has_step(id),
            },
    {
        let n = self.steps.len();
        let mut i: usize = 0;
        while i < n
            invariant
                i <= n,
                n == self.steps@.len(),
                self.wf(),
                forall|j: int| 0 <= j < i ==> self.steps@[j].id != id,
            decreases n - i,
        {
            if self.steps[i].id == id {
                proof {
                    assert(self.steps@[i as int].id == id);
                    let w = self.spec_step_index(id);
                    assert(0 <= w < self.steps@.len() && self.steps@[w].id == id);
                    assert(w == i as int);
                }
                return Some(&self.steps[i]);
            }
            i += 1;
        }
        None
    }

    /// Every asset referenced anywhere in any step's condition tree.
    pub open spec fn spec_assets(self) -> Set<Seq<char>> {
        Set::new(
            |a: Seq<char>|
                exists|i: int|
                    0 <= i < self.steps@.len() && spec_conditions_assets(
                        #[trigger] self.steps@[i].conditions@,
                    ).contains(a),
        )
    }

    /// Lists every asset this pipeline's condition trees reference, including
    /// the sentinel for `Now` conditions, for projection into the asset index.
    pub fn extract_assets(&self) -> (r: Vec<String>)
        ensures
            key_set(r@) == self.spec_assets(),
    {
        let mut out: Vec<String> = Vec::new();
        let n = self.steps.len();
        let mut i: usize = 0;
        while i < n
            invariant
                i <= n,
                n == self.steps@.len(),
                key_set(out@) == (Set::new(
                    |a: Seq<char>|
                        exists|q: int|
                            0 <= q < i && spec_conditions_assets(
                                #[trigger] self.steps@[q].conditions@,
                            ).contains(a),
                )),
            decreases n - i,
        {
            collect_conditions_assets(&self.steps[i].conditions, &mut out);
            proof {
                assert(key_set(out@) =~= (Set::new(
                    |a: Seq<char>|
                        exists|q: int|
                            0 <= q < i + 1 && spec_conditions_assets(
                                #[trigger] self.steps@[q].conditions@,
                            ).contains(a),
                ))) by {
                    assert forall|a: Seq<char>|
                        #[trigger] key_set(out@).contains(a) implies exists|q: int|
                        0 <= q < i + 1 && spec_conditions_assets(
                            #[trigger] self.steps@[q].conditions@,
                        ).contains(a) by {
                        if !spec_conditions_assets(self.steps@[i as int].conditions@).contains(a) {
                            let w = choose|q: int|
                                0 <= q < i && spec_conditions_assets(
                                    #[trigger] self.steps@[q].conditions@,
                                ).contains(a);
                            assert(spec_conditions_assets(self.steps@[w].conditions@).contains(a));
                        }
                    }
                }
            }
            i += 1;
        }
        proof {
            assert(key_set(out@) =~= self.spec_assets());
        }
        out
    }

    /// The pipeline is finished when its frontier is empty or its status has
    /// left `Pending`.
    pub fn is_terminal(&self) -> (r: bool)
        ensures
            r == (self.current_steps@.len() == 0 || self.status.spec_is_terminal()),
    {
        self.current_steps.len() == 0 || self.status.is_terminal()
    }
}

} // verus!
