//! The aggregation engine: turns a payment's condition list into a
//! candidate settlement amount.
//!
//! Three logic families exist.  Boolean AND pays the cap unless some
//! boolean condition answered false; boolean OR pays the cap if no
//! boolean-module condition exists at all or some one answered true, and
//! nothing otherwise; the numeric kinds fold oracle outcomes with sum,
//! maximum or minimum.  Hash-lock conditions are legal everywhere and
//! consume caller-supplied preimages in list order.  Every failure is a
//! distinct error and aborts the attempt; only a false boolean outcome
//! under AND is recorded and iterated past.

use vstd::prelude::*;

use crate::interfaces::BooleanOracle;
use crate::interfaces::BooleanOutcome;
use crate::interfaces::Hasher;
use crate::interfaces::NumericOracle;
use crate::types::Condition;
use crate::types::ConditionType;
use crate::types::ConditionalPay;
use crate::types::Digest;
use crate::types::ResolveError;
use crate::types::TransferFunctionType;

verus! {

/// Boolean AND evaluation of the conditions from index `i` on, with `j`
/// preimages already consumed and `has_false` boolean conditions so far
/// answered false.
pub open spec fn spec_boolean_and_from<H: Hasher, B: BooleanOracle>(
    h: H,
    b: B,
    conds: Seq<Condition>,
    preimages: Seq<Digest>,
    max: u64,
    i: int,
    j: int,
    has_false: bool,
) -> Result<u64, ResolveError>
    decreases conds.len() - i,
{
    if i < 0 || i >= conds.len() {
        if has_false {
            Ok(0u64)
        } else {
            Ok(max)
        }
    } else {
        let c = conds[i];
        match c.condition_type {
            ConditionType::HashLock => {
                if c.hash_lock is None {
                    Err(ResolveError::HashLockNotExist)
                } else if j < 0 || j >= preimages.len() {
                    Err(ResolveError::PreimageListExhausted)
                } else if h.hash_spec(preimages[j]@) != c.hash_lock.unwrap()@ {
                    Err(ResolveError::WrongPreimage)
                } else {
                    spec_boolean_and_from(h, b, conds, preimages, max, i + 1, j + 1, has_false)
                }
            },
            ConditionType::BooleanRuntimeModule => {
                if c.call_is_finalized is None {
                    Err(ResolveError::CallIsFinalizedNotExist)
                } else if !b.finalized_spec(c.call_is_finalized.unwrap()@) {
                    Err(ResolveError::ConditionNotFinalized)
                } else if c.call_get_outcome is None {
                    Err(ResolveError::CallGetOutcomeNotExist)
                } else {
                    match b.outcome_spec(c.call_get_outcome.unwrap()@) {
                        BooleanOutcome::Failure => Err(ResolveError::BooleanOutcomeFailure),
                        BooleanOutcome::False => spec_boolean_and_from(
                            h,
                            b,
                            conds,
                            preimages,
                            max,
                            i + 1,
                            j,
                            true,
                        ),
                        BooleanOutcome::True => spec_boolean_and_from(
                            h,
                            b,
                            conds,
                            preimages,
                            max,
                            i + 1,
                            j,
                            has_false,
                        ),
                    }
                }
            },
            ConditionType::NumericRuntimeModule => Err(ResolveError::UnexpectedConditionType),
        }
    }
}

/// Boolean AND evaluation of a whole payment: the cap if every condition
/// held, zero if some boolean condition answered false.
pub open spec fn spec_calculate_boolean_and<H: Hasher, B: BooleanOracle>(
    h: H,
    b: B,
    conds: Seq<Condition>,
    preimages: Seq<Digest>,
    max: u64,
) -> Result<u64, ResolveError> {
    spec_boolean_and_from(h, b, conds, preimages, max, 0, 0, false)
}

/// Boolean OR evaluation of the conditions from index `i` on.
/// `has_contract` records whether a boolean-module condition was seen,
/// `has_true` whether one answered true.
pub open spec fn spec_boolean_or_from<H: Hasher, B: BooleanOracle>(
    h: H,
    b: B,
    conds: Seq<Condition>,
    preimages: Seq<Digest>,
    max: u64,
    i: int,
    j: int,
    has_contract: bool,
    has_true: bool,
) -> Result<u64, ResolveError>
    decreases conds.len() - i,
{
    if i < 0 || i >= conds.len() {
        if !has_contract || has_true {
            Ok(max)
        } else {
            Ok(0u64)
        }
    } else {
        let c = conds[i];
        match c.condition_type {
            ConditionType::HashLock => {
                if c.hash_lock is None {
                    Err(ResolveError::HashLockNotExist)
                } else if j < 0 || j >= preimages.len() {
                    Err(ResolveError::PreimageListExhausted)
                } else if h.hash_spec(preimages[j]@) != c.hash_lock.unwrap()@ {
                    Err(ResolveError::WrongPreimage)
                } else {
                    spec_boolean_or_from(
                        h,
                        b,
                        conds,
                        preimages,
                        max,
                        i + 1,
                        j + 1,
                        has_contract,
                        has_true,
                    )
                }
            },
            ConditionType::BooleanRuntimeModule => {
                if c.call_is_finalized is None {
                    Err(ResolveError::CallIsFinalizedNotExist)
                } else if !b.finalized_spec(c.call_is_finalized.unwrap()@) {
                    Err(ResolveError::ConditionNotFinalized)
                } else if c.call_get_outcome is None {
                    Err(ResolveError::CallGetOutcomeNotExist)
                } else {
                    let answered_true = b.outcome_spec(c.call_get_outcome.unwrap()@)
                        == BooleanOutcome::True;
                    spec_boolean_or_from(
                        h,
                        b,
                        conds,
                        preimages,
                        max,
                        i + 1,
                        j,
                        true,
                        has_true || answered_true,
                    )
                }
            },
            ConditionType::NumericRuntimeModule => Err(ResolveError::UnexpectedConditionType),
        }
    }
}

/// Boolean OR evaluation of a whole payment: the cap if no boolean-module
/// condition exists or some one answered true, zero otherwise.
pub open spec fn spec_calculate_boolean_or<H: Hasher, B: BooleanOracle>(
    h: H,
    b: B,
    conds: Seq<Condition>,
    preimages: Seq<Digest>,
    max: u64,
) -> Result<u64, ResolveError> {
    spec_boolean_or_from(h, b, conds, preimages, max, 0, 0, false, false)
}

/// Numeric evaluation of the conditions from index `i` on.  `amount` is
/// the accumulator; `has_numeric` records whether a numeric condition was
/// seen yet, since the minimum rule takes the first outcome
/// unconditionally.
pub open spec fn spec_numeric_from<H: Hasher, N: NumericOracle>(
    h: H,
    no: N,
    conds: Seq<Condition>,
    preimages: Seq<Digest>,
    logic: TransferFunctionType,
    max: u64,
    i: int,
    j: int,
    amount: u64,
    has_numeric: bool,
) -> Result<u64, ResolveError>
    decreases conds.len() - i,
{
    if i < 0 || i >= conds.len() {
        if has_numeric {
            if amount <= max {
                Ok(amount)
            } else {
                Err(ResolveError::ExceedsMaxTransfer)
            }
        } else {
            Ok(max)
        }
    } else {
        let c = conds[i];
        match c.condition_type {
            ConditionType::HashLock => {
                if c.hash_lock is None {
                    Err(ResolveError::HashLockNotExist)
                } else if j < 0 || j >= preimages.len() {
                    Err(ResolveError::PreimageListExhausted)
                } else if h.hash_spec(preimages[j]@) != c.hash_lock.unwrap()@ {
                    Err(ResolveError::WrongPreimage)
                } else {
                    spec_numeric_from(
                        h,
                        no,
                        conds,
                        preimages,
                        logic,
                        max,
                        i + 1,
                        j + 1,
                        amount,
                        has_numeric,
                    )
                }
            },
            ConditionType::BooleanRuntimeModule => Err(ResolveError::UnexpectedConditionType),
            ConditionType::NumericRuntimeModule => {
                if c.numeric_app_num is None {
                    Err(ResolveError::NumericAppNotExist)
                } else if c.numeric_session_id is None {
                    Err(ResolveError::NumericSessionIdNotExist)
                } else {
                    let app = c.numeric_app_num.unwrap();
                    let session = c.numeric_session_id.unwrap()@;
                    match no.finalized_spec(app, session, c.args_query_finalization.deep_view()) {
                        Option::None => Err(ResolveError::NumericOracleFailure),
                        Option::Some(finalized) => if !finalized {
                            Err(ResolveError::ConditionNotFinalized)
                        } else {
                            match no.outcome_spec(app, session, c.args_query_outcome.deep_view()) {
                                Option::None => Err(ResolveError::NumericOracleFailure),
                                Option::Some(outcome) => if logic
                                    == TransferFunctionType::NumericAdd {
                                    if amount + outcome > u64::MAX {
                                        Err(ResolveError::Overflow)
                                    } else {
                                        spec_numeric_from(
                                            h,
                                            no,
                                            conds,
                                            preimages,
                                            logic,
                                            max,
                                            i + 1,
                                            j,
                                            (amount + outcome) as u64,
                                            true,
                                        )
                                    }
                                } else if logic == TransferFunctionType::NumericMax {
                                    let next = if outcome > amount {
                                        outcome
                                    } else {
                                        amount
                                    };
                                    spec_numeric_from(
                                        h,
                                        no,
                                        conds,
                                        preimages,
                                        logic,
                                        max,
                                        i + 1,
                                        j,
                                        next,
                                        true,
                                    )
                                } else {
                                    let next = if !has_numeric {
                                        outcome
                                    } else if outcome < amount {
                                        outcome
                                    } else {
                                        amount
                                    };
                                    spec_numeric_from(
                                        h,
                                        no,
                                        conds,
                                        preimages,
                                        logic,
                                        max,
                                        i + 1,
                                        j,
                                        next,
                                        true,
                                    )
                                },
                            }
                        },
                    }
                }
            },
        }
    }
}

/// Numeric evaluation of a whole payment: the folded outcomes, bounded by
/// the cap, or the cap itself when no numeric condition was present.
pub open spec fn spec_calculate_numeric_logic<H: Hasher, N: NumericOracle>(
    h: H,
    no: N,
    conds: Seq<Condition>,
    preimages: Seq<Digest>,
    logic: TransferFunctionType,
    max: u64,
) -> Result<u64, ResolveError> {
    spec_numeric_from(h, no, conds, preimages, logic, max, 0, 0, 0u64, false)
}

/// Whether a logic kind belongs to the numeric family.
pub open spec fn spec_is_numeric_logic(func_type: TransferFunctionType) -> bool {
    ||| func_type == TransferFunctionType::NumericAdd
    ||| func_type == TransferFunctionType::NumericMax
    ||| func_type == TransferFunctionType::NumericMin
}

/// Executable twin of [`spec_is_numeric_logic`].
pub fn is_numeric_logic(func_type: TransferFunctionType) -> (r: bool)
    ensures
        r == spec_is_numeric_logic(func_type),
{
    func_type == TransferFunctionType::NumericAdd || func_type == TransferFunctionType::NumericMax
        || func_type == TransferFunctionType::NumericMin
}

/// Computes the boolean AND amount of `pay`: the cap if every condition
/// held, zero if some boolean condition answered false, an error exactly
/// where [`spec_calculate_boolean_and`] gives one.
pub fn calculate_boolean_and_payment<H: Hasher, B: BooleanOracle>(
    hasher: &H,
    oracle: &B,
    pay: &ConditionalPay,
    preimages: &Vec<Digest>,
) -> (r: Result<u64, ResolveError>)
    ensures
        r == spec_calculate_boolean_and(
            *hasher,
            *oracle,
            pay.conditions@,
            preimages@,
            pay.spec_max_amount(),
        ),
{
    let max = pay.max_amount();
    let ghost total = spec_calculate_boolean_and(
        *hasher,
        *oracle,
        pay.conditions@,
        preimages@,
        max,
    );
    let n = pay.conditions.len();
    let mut i: usize = 0;
    let mut j: usize = 0;
    let mut has_false = false;
    while i < n
        invariant
            n == pay.conditions@.len(),
            0 <= i <= n,
            0 <= j <= preimages@.len(),
            max == pay.spec_max_amount(),
            total == spec_calculate_boolean_and(
                *hasher,
                *oracle,
                pay.conditions@,
                preimages@,
                max,
            ),
            spec_boolean_and_from(
                *hasher,
                *oracle,
                pay.conditions@,
                preimages@,
                max,
                i as int,
                j as int,
                has_false,
            ) == total,
        decreases n - i,
    {
        let c = &pay.conditions[i];
        match c.condition_type {
            ConditionType::HashLock => {
                match &c.hash_lock {
                    Option::None => {
                        return Err(ResolveError::HashLockNotExist);
                    },
                    Option::Some(lock) => {
                        if j >= preimages.len() {
                            return Err(ResolveError::PreimageListExhausted);
                        }
                        let hashed = hasher.hash(preimages[j].0.as_slice());
                        if !crate::types::digest_eq(&hashed, lock) {
                            return Err(ResolveError::WrongPreimage);
                        }
                        j += 1;
                    },
                }
            },
            ConditionType::BooleanRuntimeModule => {
                match &c.call_is_finalized {
                    Option::None => {
                        return Err(ResolveError::CallIsFinalizedNotExist);
                    },
                    Option::Some(call) => {
                        if !oracle.is_finalized(call) {
                            return Err(ResolveError::ConditionNotFinalized);
                        }
                    },
                }
                match &c.call_get_outcome {
                    Option::None => {
                        return Err(ResolveError::CallGetOutcomeNotExist);
                    },
                    Option::Some(call) => {
                        match oracle.get_outcome(call) {
                            BooleanOutcome::Failure => {
                                return Err(ResolveError::BooleanOutcomeFailure);
                            },
                            BooleanOutcome::False => {
                                has_false = true;
                            },
                            BooleanOutcome::True => {},
                        }
                    },
                }
            },
            ConditionType::NumericRuntimeModule => {
                return Err(ResolveError::UnexpectedConditionType);
            },
        }
        i += 1;
    }
    if has_false {
        Ok(0)
    } else {
        Ok(max)
    }
}

/// Computes the boolean OR amount of `pay`: the cap if no boolean-module
/// condition exists or some one answered true, zero otherwise, an error
/// exactly where [`spec_calculate_boolean_or`] gives one.
pub fn calculate_boolean_or_payment<H: Hasher, B: BooleanOracle>(
    hasher: &H,
    oracle: &B,
    pay: &ConditionalPay,
    preimages: &Vec<Digest>,
) -> (r: Result<u64, ResolveError>)
    ensures
        r == spec_calculate_boolean_or(
            *hasher,
            *oracle,
            pay.conditions@,
            preimages@,
            pay.spec_max_amount(),
        ),
{
    let max = pay.max_amount();
    let ghost total = spec_calculate_boolean_or(
        *hasher,
        *oracle,
        pay.conditions@,
        preimages@,
        max,
    );
    let n = pay.conditions.len();
    let mut i: usize = 0;
    let mut j: usize = 0;
    let mut has_contract = false;
    let mut has_true = false;
    while i < n
        invariant
            n == pay.conditions@.len(),
            0 <= i <= n,
            0 <= j <= preimages@.len(),
            max == pay.spec_max_amount(),
            total == spec_calculate_boolean_or(*hasher, *oracle, pay.conditions@, preimages@, max),
            spec_boolean_or_from(
                *hasher,
                *oracle,
                pay.conditions@,
                preimages@,
                max,
                i as int,
                j as int,
                has_contract,
                has_true,
            ) == total,
        decreases n - i,
    {
        let c = &pay.conditions[i];
        match c.condition_type {
            ConditionType::HashLock => {
                match &c.hash_lock {
                    Option::None => {
                        return Err(ResolveError::HashLockNotExist);
                    },
                    Option::Some(lock) => {
                        if j >= preimages.len() {
                            return Err(ResolveError::PreimageListExhausted);
                        }
                        let hashed = hasher.hash(preimages[j].0.as_slice());
                        if !crate::types::digest_eq(&hashed, lock) {
                            return Err(ResolveError::WrongPreimage);
                        }
                        j += 1;
                    },
                }
            },
            ConditionType::BooleanRuntimeModule => {
                match &c.call_is_finalized {
                    Option::None => {
                        return Err(ResolveError::CallIsFinalizedNotExist);
                    },
                    Option::Some(call) => {
                        if !oracle.is_finalized(call) {
                            return Err(ResolveError::ConditionNotFinalized);
                        }
                    },
                }
                match &c.call_get_outcome {
                    Option::None => {
                        return Err(ResolveError::CallGetOutcomeNotExist);
                    },
                    Option::Some(call) => {
                        let outcome = oracle.get_outcome(call);
                        has_contract = true;
                        if outcome == BooleanOutcome::True {
                            has_true = true;
                        }
                    },
                }
            },
            ConditionType::NumericRuntimeModule => {
                return Err(ResolveError::UnexpectedConditionType);
            },
        }
        i += 1;
    }
    if has_contract && !has_true {
        Ok(0)
    } else {
        Ok(max)
    }
}

/// Computes the numeric amount of `pay` under `logic` (sum, maximum or
/// minimum of the oracle outcomes), bounded by the cap, defaulting to the
/// cap when no numeric condition is present; an error exactly where
/// [`spec_calculate_numeric_logic`] gives one.
pub fn calculate_numeric_logic_payment<H: Hasher, N: NumericOracle>(
    hasher: &H,
    oracle: &N,
    pay: &ConditionalPay,
    preimages: &Vec<Digest>,
    func_type: TransferFunctionType,
) -> (r: Result<u64, ResolveError>)
    requires
        spec_is_numeric_logic(func_type),
    ensures
        r == spec_calculate_numeric_logic(
            *hasher,
            *oracle,
            pay.conditions@,
            preimages@,
            func_type,
            pay.spec_max_amount(),
        ),
{
    let max = pay.max_amount();
    let ghost total = spec_calculate_numeric_logic(
        *hasher,
        *oracle,
        pay.conditions@,
        preimages@,
        func_type,
        max,
    );
    let n = pay.conditions.len();
    let mut i: usize = 0;
    let mut j: usize = 0;
    let mut amount: u64 = 0;
    let mut has_numeric = false;
    while i < n
        invariant
            n == pay.conditions@.len(),
            0 <= i <= n,
            0 <= j <= preimages@.len(),
            max == pay.spec_max_amount(),
            spec_is_numeric_logic(func_type),
            total == spec_calculate_numeric_logic(
                *hasher,
                *oracle,
                pay.conditions@,
                preimages@,
                func_type,
                max,
            ),
            spec_numeric_from(
                *hasher,
                *oracle,
                pay.conditions@,
                preimages@,
                func_type,
                max,
                i as int,
                j as int,
                amount,
                has_numeric,
            ) == total,
        decreases n - i,
    {
        let c = &pay.conditions[i];
        match c.condition_type {
            ConditionType::HashLock => {
                match &c.hash_lock {
                    Option::None => {
                        return Err(ResolveError::HashLockNotExist);
                    },
                    Option::Some(lock) => {
                        if j >= preimages.len() {
                            return Err(ResolveError::PreimageListExhausted);
                        }
                        let hashed = hasher.hash(preimages[j].0.as_slice());
                        if !crate::types::digest_eq(&hashed, lock) {
                            return Err(ResolveError::WrongPreimage);
                        }
                        j += 1;
                    },
                }
            },
            ConditionType::BooleanRuntimeModule => {
                return Err(ResolveError::UnexpectedConditionType);
            },
            ConditionType::NumericRuntimeModule => {
                let app = match &c.numeric_app_num {
                    Option::None => {
                        return Err(ResolveError::NumericAppNotExist);
                    },
                    Option::Some(app) => *app,
                };
                let session = match &c.numeric_session_id {
                    Option::None => {
                        return Err(ResolveError::NumericSessionIdNotExist);
                    },
                    Option::Some(session) => session,
                };
                let finalized = match oracle.is_finalized(
                    app,
                    session,
                    &c.args_query_finalization,
                ) {
                    Option::None => {
                        return Err(ResolveError::NumericOracleFailure);
                    },
                    Option::Some(f) => f,
                };
                if !finalized {
                    return Err(ResolveError::ConditionNotFinalized);
                }
                let outcome = match oracle.get_outcome(app, session, &c.args_query_outcome) {
                    Option::None => {
                        return Err(ResolveError::NumericOracleFailure);
                    },
                    Option::Some(v) => v,
                };
                if func_type == TransferFunctionType::NumericAdd {
                    if amount > u64::MAX - outcome {
                        return Err(ResolveError::Overflow);
                    }
                    amount = amount + outcome;
                } else if func_type == TransferFunctionType::NumericMax {
                    if outcome > amount {
                        amount = outcome;
                    }
                } else {
                    if !has_numeric {
                        amount = outcome;
                    } else if outcome < amount {
                        amount = outcome;
                    }
                }
                has_numeric = true;
            },
        }
        i += 1;
    }
    if has_numeric {
        if amount <= max {
            Ok(amount)
        } else {
            Err(ResolveError::ExceedsMaxTransfer)
        }
    } else {
        Ok(max)
    }
}

} // verus!
