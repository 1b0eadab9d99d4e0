//! Proven laws of the resolution engine: monotonicity, the cap bound,
//! deadline finality and deadline bounding.

use vstd::prelude::*;

use crate::aggregation::spec_boolean_and_from;
use crate::aggregation::spec_boolean_or_from;
use crate::aggregation::spec_calculate_boolean_and;
use crate::aggregation::spec_calculate_boolean_or;
use crate::aggregation::spec_calculate_numeric_logic;
use crate::aggregation::spec_is_numeric_logic;
use crate::aggregation::spec_numeric_from;
use crate::interfaces::BooleanOracle;
use crate::interfaces::Hasher;
use crate::interfaces::NumericOracle;
use crate::pay_resolver::spec_evaluate;
use crate::pay_resolver::spec_resolve;
use crate::types::Condition;
use crate::types::ConditionType;
use crate::types::ConditionalPay;
use crate::types::Digest;
use crate::types::PayResolutionRecord;
use crate::types::ResolveError;
use crate::types::TransferFunctionType;

verus! {

/// Law (monotonicity): against an existing record — one with its on-chain
/// deadline set — the state machine accepts only a strictly larger amount,
/// and the record it stores carries exactly the accepted amount.  Over
/// successive successful resolutions the recorded amount is therefore
/// strictly increasing.
pub proof fn lemma_amount_monotone(
    max: u64,
    resolve_deadline: u64,
    resolve_timeout: u64,
    record: PayResolutionRecord,
    amount: u64,
    now: u64,
)
    requires
        record.deadline > 0,
        spec_resolve(max, resolve_deadline, resolve_timeout, record, amount, now) is Ok,
    ensures
        amount > record.amount,
        spec_resolve(max, resolve_deadline, resolve_timeout, record, amount, now).unwrap().amount
            == amount,
{
}

/// Law (monotonicity, completeness): within both deadlines and at a
/// positive height, an attempt against an existing record succeeds
/// exactly when the candidate amount strictly grows.
pub proof fn lemma_monotone_success_iff(
    max: u64,
    resolve_deadline: u64,
    resolve_timeout: u64,
    record: PayResolutionRecord,
    amount: u64,
    now: u64,
)
    requires
        record.deadline > 0,
        1 <= now <= record.deadline,
        now <= resolve_deadline,
    ensures
        spec_resolve(max, resolve_deadline, resolve_timeout, record, amount, now) is Ok <==> amount
            > record.amount,
{
}

/// Law (cap bound): the state machine never stores more than it accepted,
/// so a cap-bounded candidate amount yields a cap-bounded record.
pub proof fn lemma_resolve_cap_bound(
    max: u64,
    resolve_deadline: u64,
    resolve_timeout: u64,
    record: PayResolutionRecord,
    amount: u64,
    now: u64,
)
    requires
        amount <= max,
        spec_resolve(max, resolve_deadline, resolve_timeout, record, amount, now) is Ok,
    ensures
        spec_resolve(max, resolve_deadline, resolve_timeout, record, amount, now).unwrap().amount
            <= max,
{
}

/// Law (sentinel freedom): the state machine never stores the reserved
/// zero deadline.  Together with [`lemma_amount_monotone`] this makes a
/// record at the cap terminal: every stored record satisfies the
/// `deadline > 0` premise of [`lemma_deadline_finality`].
pub proof fn lemma_stored_deadline_positive(
    max: u64,
    resolve_deadline: u64,
    resolve_timeout: u64,
    record: PayResolutionRecord,
    amount: u64,
    now: u64,
)
    requires
        spec_resolve(max, resolve_deadline, resolve_timeout, record, amount, now) is Ok,
    ensures
        spec_resolve(max, resolve_deadline, resolve_timeout, record, amount, now).unwrap().deadline
            > 0,
{
}

/// Law (deadline finality): once the recorded amount equals the cap, no
/// attempt with a cap-bounded candidate ever succeeds again.  Past the
/// record's deadline the attempt fails the on-chain deadline check (unless
/// the payment's own resolve deadline expired first); within it, the
/// attempt fails the increasing-amount check whatever the height.  The
/// `deadline > 0` premise holds of every record the machine stores, by
/// [`lemma_stored_deadline_positive`].
pub proof fn lemma_deadline_finality(
    max: u64,
    resolve_deadline: u64,
    resolve_timeout: u64,
    record: PayResolutionRecord,
    amount: u64,
    now: u64,
)
    requires
        record.deadline > 0,
        record.amount == max,
        amount <= max,
    ensures
        spec_resolve(max, resolve_deadline, resolve_timeout, record, amount, now) is Err,
        now <= resolve_deadline && now > record.deadline ==> spec_resolve(
            max,
            resolve_deadline,
            resolve_timeout,
            record,
            amount,
            now,
        ) == Err::<PayResolutionRecord, ResolveError>(ResolveError::ExpiredOnchainDeadline),
        now <= resolve_deadline && now <= record.deadline ==> spec_resolve(
            max,
            resolve_deadline,
            resolve_timeout,
            record,
            amount,
            now,
        ) == Err::<PayResolutionRecord, ResolveError>(ResolveError::AmountNotIncreasing),
{
}

/// Law (deadline bounding): a first resolution that does not reach the cap
/// opens a deadline no later than the payment's resolve deadline and no
/// later than `now + resolve_timeout`.
pub proof fn lemma_first_deadline_bounded(
    max: u64,
    resolve_deadline: u64,
    resolve_timeout: u64,
    record: PayResolutionRecord,
    amount: u64,
    now: u64,
)
    requires
        record.deadline == 0,
        amount != max,
        spec_resolve(max, resolve_deadline, resolve_timeout, record, amount, now) is Ok,
    ensures
        spec_resolve(max, resolve_deadline, resolve_timeout, record, amount, now).unwrap().deadline
            <= resolve_deadline,
        spec_resolve(max, resolve_deadline, resolve_timeout, record, amount, now).unwrap().deadline
            <= now + resolve_timeout,
{
}

/// A boolean AND evaluation, from any intermediate state on, pays either
/// nothing or the cap.
pub proof fn lemma_boolean_and_from_bounded<H: Hasher, B: BooleanOracle>(
    h: H,
    b: B,
    conds: Seq<Condition>,
    preimages: Seq<Digest>,
    max: u64,
    i: int,
    j: int,
    has_false: bool,
)
    ensures
        spec_boolean_and_from(h, b, conds, preimages, max, i, j, has_false) is Ok
            ==> spec_boolean_and_from(h, b, conds, preimages, max, i, j, has_false).unwrap() == 0
            || spec_boolean_and_from(h, b, conds, preimages, max, i, j, has_false).unwrap() == max,
    decreases conds.len() - i,
{
    if i < 0 || i >= conds.len() {
    } else {
        let c = conds[i];
        match c.condition_type {
            ConditionType::HashLock => {
                lemma_boolean_and_from_bounded(h, b, conds, preimages, max, i + 1, j + 1, has_false);
            },
            ConditionType::BooleanRuntimeModule => {
                lemma_boolean_and_from_bounded(h, b, conds, preimages, max, i + 1, j, true);
                lemma_boolean_and_from_bounded(h, b, conds, preimages, max, i + 1, j, has_false);
            },
            ConditionType::NumericRuntimeModule => {},
        }
    }
}

/// A boolean OR evaluation, from any intermediate state on, pays either
/// nothing or the cap.
pub proof fn lemma_boolean_or_from_bounded<H: Hasher, B: BooleanOracle>(
    h: H,
    b: B,
    conds: Seq<Condition>,
    preimages: Seq<Digest>,
    max: u64,
    i: int,
    j: int,
    has_contract: bool,
    has_true: bool,
)
    ensures
        spec_boolean_or_from(h, b, conds, preimages, max, i, j, has_contract, has_true) is Ok
            ==> spec_boolean_or_from(h, b, conds, preimages, max, i, j, has_contract, has_true).unwrap()
            == 0 || spec_boolean_or_from(
            h,
            b,
            conds,
            preimages,
            max,
            i,
            j,
            has_contract,
            has_true,
        ).unwrap() == max,
    decreases conds.len() - i,
{
    if i < 0 || i >= conds.len() {
    } else {
        let c = conds[i];
        match c.condition_type {
            ConditionType::HashLock => {
                lemma_boolean_or_from_bounded(
                    h,
                    b,
                    conds,
                    preimages,
                    max,
                    i + 1,
                    j + 1,
                    has_contract,
                    has_true,
                );
            },
            ConditionType::BooleanRuntimeModule => {
                lemma_boolean_or_from_bounded(h, b, conds, preimages, max, i + 1, j, true, true);
                lemma_boolean_or_from_bounded(
                    h,
                    b,
                    conds,
                    preimages,
                    max,
                    i + 1,
                    j,
                    true,
                    has_true,
                );
            },
            ConditionType::NumericRuntimeModule => {},
        }
    }
}

/// A numeric evaluation, from any intermediate state on, never pays more
/// than the cap.
pub proof fn lemma_numeric_from_bounded<H: Hasher, N: NumericOracle>(
    h: H,
    no: N,
    conds: Seq<Condition>,
    preimages: Seq<Digest>,
    logic: TransferFunctionType,
    max: u64,
    i: int,
    j: int,
    amount: u64,
    has_numeric: bool,
)
    ensures
        spec_numeric_from(h, no, conds, preimages, logic, max, i, j, amount, has_numeric) is Ok
            ==> spec_numeric_from(
            h,
            no,
            conds,
            preimages,
            logic,
            max,
            i,
            j,
            amount,
            has_numeric,
        ).unwrap() <= max,
    decreases conds.len() - i,
{
    if i < 0 || i >= conds.len() {
    } else {
        let c = conds[i];
        match c.condition_type {
            ConditionType::HashLock => {
                lemma_numeric_from_bounded(
                    h,
                    no,
                    conds,
                    preimages,
                    logic,
                    max,
                    i + 1,
                    j + 1,
                    amount,
                    has_numeric,
                );
            },
            ConditionType::BooleanRuntimeModule => {},
            ConditionType::NumericRuntimeModule => {
                if c.numeric_app_num is Some && c.numeric_session_id is Some {
                    let app = c.numeric_app_num.unwrap();
                    let session = c.numeric_session_id.unwrap()@;
                    match no.outcome_spec(app, session, c.args_query_outcome.deep_view()) {
                        Option::None => {},
                        Option::Some(outcome) => {
                            if logic == TransferFunctionType::NumericAdd {
                                if amount + outcome <= u64::MAX {
                                    lemma_numeric_from_bounded(
                                        h,
                                        no,
                                        conds,
                                        preimages,
                                        logic,
                                        max,
                                        i + 1,
                                        j,
                                        (amount + outcome) as u64,
                                        true,
                                    );
                                }
                            } else if logic == TransferFunctionType::NumericMax {
                                let next = if outcome > amount {
                                    outcome
                                } else {
                                    amount
                                };
                                lemma_numeric_from_bounded(
                                    h,
                                    no,
                                    conds,
                                    preimages,
                                    logic,
                                    max,
                                    i + 1,
                                    j,
                                    next,
                                    true,
                                );
                            } else {
                                let next = if !has_numeric {
                                    outcome
                                } else if outcome < amount {
                                    outcome
                                } else {
                                    amount
                                };
                                lemma_numeric_from_bounded(
                                    h,
                                    no,
                                    conds,
                                    preimages,
                                    logic,
                                    max,
                                    i + 1,
                                    j,
                                    next,
                                    true,
                                );
                            }
                        },
                    }
                }
            },
        }
    }
}

/// Law (cap bound): whatever the logic kind and whatever the collaborators
/// answered, a successful evaluation never pays more than the cap.
pub proof fn lemma_evaluate_cap_bound<H: Hasher, B: BooleanOracle, N: NumericOracle>(
    h: H,
    b: B,
    no: N,
    pay: ConditionalPay,
    preimages: Seq<Digest>,
)
    ensures
        spec_evaluate(h, b, no, pay, preimages) is Ok ==> spec_evaluate(
            h,
            b,
            no,
            pay,
            preimages,
        ).unwrap() <= pay.spec_max_amount(),
{
    let logic = pay.transfer_func.logic_type;
    let max = pay.spec_max_amount();
    if logic == TransferFunctionType::BooleanAnd {
        lemma_boolean_and_from_bounded(h, b, pay.conditions@, preimages, max, 0, 0, false);
        assert(spec_calculate_boolean_and(h, b, pay.conditions@, preimages, max)
            == spec_boolean_and_from(h, b, pay.conditions@, preimages, max, 0, 0, false));
    } else if logic == TransferFunctionType::BooleanOr {
        lemma_boolean_or_from_bounded(h, b, pay.conditions@, preimages, max, 0, 0, false, false);
        assert(spec_calculate_boolean_or(h, b, pay.conditions@, preimages, max)
            == spec_boolean_or_from(h, b, pay.conditions@, preimages, max, 0, 0, false, false));
    } else if spec_is_numeric_logic(logic) {
        lemma_numeric_from_bounded(h, no, pay.conditions@, preimages, logic, max, 0, 0, 0u64, false);
        assert(spec_calculate_numeric_logic(h, no, pay.conditions@, preimages, logic, max)
            == spec_numeric_from(h, no, pay.conditions@, preimages, logic, max, 0, 0, 0u64, false));
    }
}

} // verus!
