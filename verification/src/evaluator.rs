use vstd::prelude::*;

use crate::clock::now_millis;
use crate::pipeline::{Condition, ConditionType};
use crate::prices::PriceBook;

verus! {

pub struct Evaluator;

/// Failure modes of condition evaluation. Only a missing price is reachable
/// from the current condition kinds; the others are kept for future variants.
#[derive(Debug, PartialEq, Eq)]
pub enum EvaluatorError {
    EvaluateConditionsError(String),
    PriceEvaluationError(String),
    MissingPriceData(String),
    InvalidConditionType(String),
}

/// The meaning of one condition against a price snapshot at instant `now`
/// (Unix milliseconds): `Ok` with its truth value, or `Err` naming the asset
/// whose price is missing.
pub open spec fn spec_eval_condition(
    c: Condition,
    prices: Map<Seq<char>, u64>,
    now: i64,
) -> Result<bool, Seq<char>>
    decreases c,
{
    match c.condition_type {
        ConditionType::PriceAbove { asset, value } => if prices.contains_key(asset@) {
            Ok(prices[asset@] >= value)
        } else {
            Err(asset@)
        },
        ConditionType::PriceBelow { asset, value } => if prices.contains_key(asset@) {
            Ok(prices[asset@] <= value)
        } else {
            Err(asset@)
        },
        ConditionType::Now { asset } => Ok(true),
        ConditionType::And(children) => spec_eval_all(children@, prices, now),
        ConditionType::Or(children) => spec_eval_any(children@, prices, now),
        ConditionType::GTTimer(t) => Ok(now > t),
        ConditionType::LTTimer(t) => Ok(now < t),
    }
}

/// Conjunction over a condition list. Every element is evaluated: a failing
/// element fails the list even when an earlier element already settled the
/// logical result, and the reported asset is the leftmost failure.
pub open spec fn spec_eval_all(
    cs: Seq<Condition>,
    prices: Map<Seq<char>, u64>,
    now: i64,
) -> Result<bool, Seq<char>>
    decreases cs,
{
    if cs.len() == 0 {
        Ok(true)
    } else {
        match spec_eval_all(cs.drop_last(), prices, now) {
            Err(a) => Err(a),
            Ok(r) => match spec_eval_condition(cs.last(), prices, now) {
                Err(a) => Err(a),
                Ok(b) => Ok(r && b),
            },
        }
    }
}

/// Disjunction over a condition list, with the same non-short-circuit failure
/// rule as the conjunction.
pub open spec fn spec_eval_any(
    cs: Seq<Condition>,
    prices: Map<Seq<char>, u64>,
    now: i64,
) -> Result<bool, Seq<char>>
    decreases cs,
{
    if cs.len() == 0 {
        Ok(false)
    } else {
        match spec_eval_any(cs.drop_last(), prices, now) {
            Err(a) => Err(a),
            Ok(r) => match spec_eval_condition(cs.last(), prices, now) {
                Err(a) => Err(a),
                Ok(b) => Ok(r || b),
            },
        }
    }
}

/// A condition list holds exactly when every element holds individually; the
/// empty list holds vacuously.
pub proof fn lemma_conditions_true_iff_each(cs: Seq<Condition>, prices: Map<Seq<char>, u64>, now: i64)
    ensures
        (spec_eval_all(cs, prices, now) == Ok::<bool, Seq<char>>(true)) <==> (forall|i: int|
            0 <= i < cs.len() ==> spec_eval_condition(#[trigger] cs[i], prices, now)
                == Ok::<bool, Seq<char>>(true)),
        cs.len() == 0 ==> spec_eval_all(cs, prices, now) == Ok::<bool, Seq<char>>(true),
    decreases cs,
{
    if cs.len() > 0 {
        lemma_conditions_true_iff_each(cs.drop_last(), prices, now);
        assert(cs.last() == cs[cs.len() - 1]);
        assert(forall|i: int| 0 <= i < cs.len() - 1 ==> cs.drop_last()[i] == #[trigger] cs[i]);
    }
}

/// An evaluation that fails on a prefix fails the whole list with the same
/// missing asset, whatever follows.
proof fn lemma_eval_all_err_extends(
    cs: Seq<Condition>,
    n: int,
    prices: Map<Seq<char>, u64>,
    now: i64,
)
    requires
        0 <= n <= cs.len(),
        spec_eval_all(cs.subrange(0, n), prices, now) is Err,
    ensures
        spec_eval_all(cs, prices, now) == spec_eval_all(cs.subrange(0, n), prices, now),
    decreases cs.len() - n,
{
    if n == cs.len() {
        assert(cs.subrange(0, n) =~= cs);
    } else {
        assert(cs.drop_last().subrange(0, n) =~= cs.subrange(0, n));
        lemma_eval_all_err_extends(cs.drop_last(), n, prices, now);
    }
}

proof fn lemma_eval_any_err_extends(
    cs: Seq<Condition>,
    n: int,
    prices: Map<Seq<char>, u64>,
    now: i64,
)
    requires
        0 <= n <= cs.len(),
        spec_eval_any(cs.subrange(0, n), prices, now) is Err,
    ensures
        spec_eval_any(cs, prices, now) == spec_eval_any(cs.subrange(0, n), prices, now),
    decreases cs.len() - n,
{
    if n == cs.len() {
        assert(cs.subrange(0, n) =~= cs);
    } else {
        assert(cs.drop_last().subrange(0, n) =~= cs.subrange(0, n));
        lemma_eval_any_err_extends(cs.drop_last(), n, prices, now);
    }
}

/// How an executable evaluation relates to its meaning: truth values agree,
/// and a failure is exactly a missing price for the asset the meaning names.
pub open spec fn spec_matches_eval(
    r: Result<bool, EvaluatorError>,
    s: Result<bool, Seq<char>>,
) -> bool {
    match r {
        Ok(b) => s == Ok::<bool, Seq<char>>(b),
        Err(e) => match e {
            EvaluatorError::MissingPriceData(a) => s == Err::<bool, Seq<char>>(a@),
            _ => false,
        },
    }
}

impl Evaluator {
    /// Evaluates a condition list against the price cache at the current
    /// instant, read once from the machine clock.
    pub fn evaluate_conditions(conditions: &Vec<Condition>, prices: &PriceBook) -> (r: Result<
        bool,
        EvaluatorError,
    >)
        ensures
            exists|now: i64| spec_matches_eval(r, spec_eval_all(conditions@, prices@, now)),
    {
        let now = now_millis();
        let r = Self::evaluate_conditions_at(conditions, prices, now);
        proof {
            assert(spec_matches_eval(r, spec_eval_all(conditions@, prices@, now)));
        }
        r
    }

    /// Evaluates a condition list at a given instant: true exactly when every
    /// element is true; a missing price anywhere fails the list.
    pub fn evaluate_conditions_at(conditions: &Vec<Condition>, prices: &PriceBook, now: i64) -> (r:
        Result<bool, EvaluatorError>)
        ensures
            spec_matches_eval(r, spec_eval_all(conditions@, prices@, now)),
        decreases conditions,
    {
        let n = conditions.len();
        let mut acc = true;
        let mut i: usize = 0;
        while i < n
            invariant
                i <= n,
                n == conditions@.len(),
                spec_eval_all(conditions@.subrange(0, i as int), prices@, now) == Ok::<
                    bool,
                    Seq<char>,
                >(acc),
            decreases n - i,
        {
            let ghost prefix2 = conditions@.subrange(0, i + 1);
            proof {
                assert(prefix2.drop_last() =~= conditions@.subrange(0, i as int));
                assert(prefix2.last() == conditions@[i as int]);
            }
            match Self::evaluate_condition_at(&conditions[i], prices, now) {
                Ok(b) => {
                    acc = acc && b;
                },
                Err(e) => {
                    proof {
                        lemma_eval_all_err_extends(conditions@, i + 1, prices@, now);
                    }
                    return Err(e);
                },
            }
            i += 1;
        }
        proof {
            assert(conditions@.subrange(0, n as int) =~= conditions@);
        }
        Ok(acc)
    }

    /// Evaluates one condition at a given instant.
    pub fn evaluate_condition_at(condition: &Condition, prices: &PriceBook, now: i64) -> (r: Result<
        bool,
        EvaluatorError,
    >)
        ensures
            spec_matches_eval(r, spec_eval_condition(*condition, prices@, now)),
        decreases condition,
    {
        match &condition.condition_type {
            ConditionType::PriceAbove { asset, value } => match prices.get(asset.as_str()) {
                Some(price) => Ok(price >= *value),
                None => Err(EvaluatorError::MissingPriceData(asset.clone())),
            },
            ConditionType::PriceBelow { asset, value } => match prices.get(asset.as_str()) {
                Some(price) => Ok(price <= *value),
                None => Err(EvaluatorError::MissingPriceData(asset.clone())),
            },
            ConditionType::Now { asset } => Ok(true),
            ConditionType::And(children) => Self::evaluate_conditions_at(children, prices, now),
            ConditionType::Or(children) => Self::evaluate_any_at(children, prices, now),
            ConditionType::GTTimer(t) => Ok(now > *t),
            ConditionType::LTTimer(t) => Ok(now < *t),
        }
    }

    /// Evaluates a disjunction at a given instant: true when any element is
    /// true, with the same non-short-circuit failure rule.
    fn evaluate_any_at(conditions: &Vec<Condition>, prices: &PriceBook, now: i64) -> (r: Result<
        bool,
        EvaluatorError,
    >)
        ensures
            spec_matches_eval(r, spec_eval_any(conditions@, prices@, now)),
        decreases conditions,
    {
        let n = conditions.len();
        let mut acc = false;
        let mut i: usize = 0;
        while i < n
            invariant
                i <= n,
                n == conditions@.len(),
                spec_eval_any(conditions@.subrange(0, i as int), prices@, now) == Ok::<
                    bool,
                    Seq<char>,
                >(acc),
            decreases n - i,
        {
            let ghost prefix2 = conditions@.subrange(0, i + 1);
            proof {
                assert(prefix2.drop_last() =~= conditions@.subrange(0, i as int));
                assert(prefix2.last() == conditions@[i as int]);
            }
            match Self::evaluate_condition_at(&conditions[i], prices, now) {
                Ok(b) => {
                    acc = acc || b;
                },
                Err(e) => {
                    proof {
                        lemma_eval_any_err_extends(conditions@, i + 1, prices@, now);
                    }
                    return Err(e);
                },
            }
            i += 1;
        }
        proof {
            assert(conditions@.subrange(0, n as int) =~= conditions@);
        }
        Ok(acc)
    }
}

} // verus!
