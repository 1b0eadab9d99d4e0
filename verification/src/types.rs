//! Data model of a conditional payment and the errors a resolution attempt
//! can fail with.

use vstd::prelude::*;

verus! {

/// A 32-byte digest: the output of the host's hash primitive, also used for
/// hash-lock preimages, session identifiers and pay identities.
#[derive(Clone, Copy, Debug, PartialEq, Eq)]
pub struct Digest(pub [u8; 32]);

impl View for Digest {
    type V = Seq<u8>;

    open spec fn view(&self) -> Seq<u8> {
        self.0@
    }
}

/// A 32-byte account identifier.
#[derive(Clone, Copy, Debug, PartialEq, Eq)]
pub struct AccountId(pub [u8; 32]);

impl View for AccountId {
    type V = Seq<u8>;

    open spec fn view(&self) -> Seq<u8> {
        self.0@
    }
}

/// A 64-byte signature value; its meaning is delegated entirely to the
/// host's signature verifier.
#[derive(Clone, Copy, Debug)]
pub struct Signature(pub [u8; 64]);

impl View for Signature {
    type V = Seq<u8>;

    open spec fn view(&self) -> Seq<u8> {
        self.0@
    }
}

/// Compares two digests byte by byte.
pub fn digest_eq(a: &Digest, b: &Digest) -> (r: bool)
    ensures
        r <==> a@ == b@,
{
    let mut i: usize = 0;
    while i < 32
        invariant
            0 <= i <= 32,
            forall|k: int| 0 <= k < i ==> a.0@[k] == b.0@[k],
        decreases 32 - i,
    {
        if a.0[i] != b.0[i] {
            assert(a@[i as int] != b@[i as int]);
            return false;
        }
        i += 1;
    }
    proof {
        assert(a@ =~= b@);
    }
    true
}

/// How a single condition of a conditional payment is checked.
#[derive(Clone, Copy, Debug, PartialEq, Eq, Structural)]
pub enum ConditionType {
    /// Satisfied iff a caller-supplied preimage hashes to the stored digest.
    HashLock,
    /// Delegated to an external boolean oracle module through two opaque
    /// invocation descriptors.
    BooleanRuntimeModule,
    /// Delegated to an external numeric oracle module keyed by an
    /// application number and a session id.
    NumericRuntimeModule,
}

/// One condition of a conditional payment.  Which optional fields must be
/// present depends on `condition_type`; a missing required field is a
/// reported error, never a panic.
#[derive(Clone, Debug)]
pub struct Condition {
    pub condition_type: ConditionType,
    /// Digest a preimage must hash to (`HashLock`).
    pub hash_lock: Option<Digest>,
    /// Opaque "is finalized" invocation for the boolean oracle.
    pub call_is_finalized: Option<Vec<u8>>,
    /// Opaque "get outcome" invocation for the boolean oracle.
    pub call_get_outcome: Option<Vec<u8>>,
    /// Number of the registered numeric application.
    pub numeric_app_num: Option<u32>,
    /// Session id of the numeric condition.
    pub numeric_session_id: Option<Digest>,
    /// Encoded finalization query arguments for the numeric oracle.
    pub args_query_finalization: Option<Vec<u8>>,
    /// Encoded outcome query arguments for the numeric oracle.
    pub args_query_outcome: Option<Vec<u8>>,
}

/// The aggregation rule that turns a payment's condition list into a
/// settlement amount.
#[derive(Clone, Copy, Debug, PartialEq, Eq, Structural)]
pub enum TransferFunctionType {
    BooleanAnd,
    BooleanOr,
    /// Reserved: declared in the model but without an evaluation rule;
    /// resolution fails fast with [`ResolveError::UnsupportedLogicKind`].
    BooleanCircuit,
    NumericAdd,
    NumericMax,
    NumericMin,
}

/// Kind of token a payment is denominated in.  Currently only the native
/// token is supported.
#[derive(Clone, Copy, Debug, PartialEq, Eq, Structural)]
pub enum TokenType {
    Invalid,
    Celer,
}

#[derive(Clone, Copy, Debug, PartialEq, Eq, Structural)]
pub struct TokenInfo {
    pub token_type: TokenType,
}

/// A receiver together with the capped amount payable to it.
#[derive(Clone, Debug)]
pub struct AccountAmtPair {
    pub account: Option<AccountId>,
    pub amt: u64,
}

#[derive(Clone, Debug)]
pub struct TokenTransfer {
    pub token: TokenInfo,
    pub receiver: AccountAmtPair,
}

/// Aggregation rule plus the cap it is bounded by.
#[derive(Clone, Debug)]
pub struct TransferFunction {
    pub logic_type: TransferFunctionType,
    pub max_transfer: TokenTransfer,
}

/// A conditional payment.  Immutable once constructed; its identity is
/// derived from its canonical encoding, never assigned.
#[derive(Clone, Debug)]
pub struct ConditionalPay {
    pub pay_timestamp: u64,
    pub src: AccountId,
    pub dest: AccountId,
    pub conditions: Vec<Condition>,
    pub transfer_func: TransferFunction,
    /// Height after which the payment can no longer be resolved at all.
    pub resolve_deadline: u64,
    /// Dispute window granted by the first non-final resolution.
    pub resolve_timeout: u64,
}

impl ConditionalPay {
    /// The cap no resolved amount may exceed.
    pub open spec fn spec_max_amount(&self) -> u64 {
        self.transfer_func.max_transfer.receiver.amt
    }

    /// Executable twin of [`Self::spec_max_amount`].
    pub fn max_amount(&self) -> (r: u64)
        ensures
            r == self.spec_max_amount(),
    {
        self.transfer_func.max_transfer.receiver.amt
    }
}

/// Request to resolve a payment by evaluating its conditions on chain.
/// Preimages are consumed in the order `HashLock` conditions appear in
/// `cond_pay.conditions`.
#[derive(Clone, Debug)]
pub struct ResolvePaymentConditionsRequest {
    pub cond_pay: ConditionalPay,
    pub hash_preimages: Vec<Digest>,
}

/// An off-chain-agreed settlement amount for a payment.
#[derive(Clone, Debug)]
pub struct CondPayResult {
    pub cond_pay: ConditionalPay,
    pub amount: u64,
}

/// A [`CondPayResult`] dual-signed by the payment's source and destination,
/// submitted in lieu of on-chain condition evaluation.
#[derive(Clone, Debug)]
pub struct VouchedCondPayResult {
    pub cond_pay_result: CondPayResult,
    pub sig_of_src: Signature,
    pub sig_of_dest: Signature,
}

/// The persisted resolution record of one payment, looked up by pay id.
/// `deadline == 0` is the sentinel for "never resolved"; 0 is otherwise an
/// invalid deadline.
#[derive(Clone, Copy, Debug, PartialEq, Eq, Structural)]
pub struct PayResolutionRecord {
    pub amount: u64,
    pub deadline: u64,
}

/// Every way a resolution attempt can fail.  All failures are fatal to the
/// attempt and leave the registry untouched.
#[derive(Clone, Copy, Debug, PartialEq, Eq, Structural)]
pub enum ResolveError {
    /// A `HashLock` condition misses its `hash_lock` field.
    HashLockNotExist,
    /// A boolean-module condition misses its `call_is_finalized` field.
    CallIsFinalizedNotExist,
    /// A boolean-module condition misses its `call_get_outcome` field.
    CallGetOutcomeNotExist,
    /// A numeric-module condition misses its `numeric_app_num` field.
    NumericAppNotExist,
    /// A numeric-module condition misses its `numeric_session_id` field.
    NumericSessionIdNotExist,
    /// The preimage list ran out before the `HashLock` conditions did.
    PreimageListExhausted,
    /// A supplied preimage does not hash to the stored digest.
    WrongPreimage,
    /// An oracle module reports the condition as not finalized yet.
    ConditionNotFinalized,
    /// A boolean oracle call failed for a reason other than a false outcome.
    BooleanOutcomeFailure,
    /// A numeric oracle call failed.
    NumericOracleFailure,
    /// A condition of a type the declared logic does not accept.
    UnexpectedConditionType,
    /// The declared logic kind has no evaluation rule.
    UnsupportedLogicKind,
    /// The candidate or vouched amount exceeds the payment's cap.
    ExceedsMaxTransfer,
    /// The new amount is not strictly larger than the recorded one.
    AmountNotIncreasing,
    /// The current height is past the payment's resolve deadline.
    ExpiredDeadline,
    /// The current height is past the record's on-chain deadline.
    ExpiredOnchainDeadline,
    /// The computed deadline would be the reserved zero sentinel.
    ZeroDeadlineComputed,
    /// A height or amount addition overflowed.
    Overflow,
    /// A vouched result carries a signature that does not verify.
    InvalidSignature,
}

} // verus!
