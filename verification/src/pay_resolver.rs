//! The resolution state machine and the two public entry paths.
//!
//! A candidate amount — computed on chain by the aggregation engine, or
//! agreed off chain and dual-signed — is applied to the payment's persisted
//! record under strict rules: the amount may only grow, a dispute window
//! bounds how long updates stay possible, and reaching the cap finalizes
//! the record at the current height.

use vstd::prelude::*;

use crate::aggregation::calculate_boolean_and_payment;
use crate::aggregation::calculate_boolean_or_payment;
use crate::aggregation::calculate_numeric_logic_payment;
use crate::aggregation::is_numeric_logic;
use crate::aggregation::spec_calculate_boolean_and;
use crate::aggregation::spec_calculate_boolean_or;
use crate::aggregation::spec_calculate_numeric_logic;
use crate::aggregation::spec_is_numeric_logic;
use crate::encoder::encode_conditional_pay;
use crate::encoder::pay_encodable;
use crate::encoder::spec_encode_conditional_pay;
use crate::interfaces::BooleanOracle;
use crate::interfaces::Hasher;
use crate::interfaces::NotificationSink;
use crate::interfaces::NumericOracle;
use crate::interfaces::SignatureVerifier;
use crate::registry::PayRegistry;
use crate::types::AccountId;
use crate::types::ConditionalPay;
use crate::types::Digest;
use crate::types::PayResolutionRecord;
use crate::types::ResolveError;
use crate::types::ResolvePaymentConditionsRequest;
use crate::types::TransferFunctionType;
use crate::types::VouchedCondPayResult;

verus! {

/// The candidate amount a payment's conditions evaluate to, dispatched by
/// the declared logic kind.
pub open spec fn spec_evaluate<H: Hasher, B: BooleanOracle, N: NumericOracle>(
    h: H,
    b: B,
    no: N,
    pay: ConditionalPay,
    preimages: Seq<Digest>,
) -> Result<u64, ResolveError> {
    let logic = pay.transfer_func.logic_type;
    if logic == TransferFunctionType::BooleanAnd {
        spec_calculate_boolean_and(h, b, pay.conditions@, preimages, pay.spec_max_amount())
    } else if logic == TransferFunctionType::BooleanOr {
        spec_calculate_boolean_or(h, b, pay.conditions@, preimages, pay.spec_max_amount())
    } else if spec_is_numeric_logic(logic) {
        spec_calculate_numeric_logic(
            h,
            no,
            pay.conditions@,
            preimages,
            logic,
            pay.spec_max_amount(),
        )
    } else {
        Err(ResolveError::UnsupportedLogicKind)
    }
}

/// The record the registry answers for a pay id: the stored one, or the
/// default with the zero-deadline sentinel.
pub open spec fn spec_get_record(
    registry: Map<Seq<u8>, PayResolutionRecord>,
    pay_id: Seq<u8>,
) -> PayResolutionRecord {
    if registry.contains_key(pay_id) {
        registry[pay_id]
    } else {
        PayResolutionRecord { amount: 0, deadline: 0 }
    }
}

/// A payment's ledger key: the hash of its pay hash concatenated with the
/// resolver's own identity, isolating identifiers across resolver
/// deployments that share a ledger.
pub open spec fn spec_pay_id<H: Hasher>(h: H, pay_hash: Seq<u8>, resolver_id: Seq<u8>) -> Seq<u8> {
    h.hash_spec(pay_hash + resolver_id)
}

/// The resolution state machine: what record a successful attempt stores,
/// or which error it fails with.
///
/// An attempt past the payment's resolve deadline, or past a set on-chain
/// deadline, is rejected for good.  Against an existing record the amount
/// must strictly grow; reaching the cap finalizes the record at the
/// current height.  A first resolution at the cap finalizes immediately;
/// otherwise it opens a dispute window of `resolve_timeout` heights,
/// clipped to the resolve deadline.  A stored deadline is never the
/// reserved zero sentinel: an attempt that would record deadline 0 —
/// a finalization at height 0, or a computed window of 0 — is rejected,
/// so a record at the cap stays terminal.
pub open spec fn spec_resolve(
    max: u64,
    resolve_deadline: u64,
    resolve_timeout: u64,
    record: PayResolutionRecord,
    amount: u64,
    now: u64,
) -> Result<PayResolutionRecord, ResolveError> {
    if now > resolve_deadline {
        Err(ResolveError::ExpiredDeadline)
    } else if record.deadline > 0 && now > record.deadline {
        Err(ResolveError::ExpiredOnchainDeadline)
    } else if record.deadline > 0 {
        if amount <= record.amount {
            Err(ResolveError::AmountNotIncreasing)
        } else if amount == max {
            if now == 0 {
                Err(ResolveError::ZeroDeadlineComputed)
            } else {
                Ok(PayResolutionRecord { amount, deadline: now })
            }
        } else {
            Ok(PayResolutionRecord { amount, deadline: record.deadline })
        }
    } else {
        if amount == max {
            if now == 0 {
                Err(ResolveError::ZeroDeadlineComputed)
            } else {
                Ok(PayResolutionRecord { amount, deadline: now })
            }
        } else if now + resolve_timeout > u64::MAX {
            Err(ResolveError::Overflow)
        } else {
            let computed = if now + resolve_timeout < resolve_deadline {
                (now + resolve_timeout) as u64
            } else {
                resolve_deadline
            };
            if computed == 0 {
                Err(ResolveError::ZeroDeadlineComputed)
            } else {
                Ok(PayResolutionRecord { amount, deadline: computed })
            }
        }
    }
}

/// Pay id, new record and new registry content of a whole resolution
/// attempt on `pay` with candidate `amount` at height `now`.
pub open spec fn spec_resolution_outcome<H: Hasher>(
    h: H,
    resolver_id: Seq<u8>,
    registry: Map<Seq<u8>, PayResolutionRecord>,
    pay: ConditionalPay,
    amount: u64,
    now: u64,
) -> Result<(Seq<u8>, PayResolutionRecord), ResolveError> {
    let pay_hash = h.hash_spec(spec_encode_conditional_pay(pay));
    let pay_id = spec_pay_id(h, pay_hash, resolver_id);
    match spec_resolve(
        pay.spec_max_amount(),
        pay.resolve_deadline,
        pay.resolve_timeout,
        spec_get_record(registry, pay_id),
        amount,
        now,
    ) {
        Result::Err(e) => Err(e),
        Result::Ok(rec) => Ok((pay_id, rec)),
    }
}

/// Derives a payment's ledger key from its pay hash and the resolver's
/// identity.
pub fn calculate_pay_id<H: Hasher>(hasher: &H, pay_hash: &Digest, resolver_id: &AccountId) -> (r:
    Digest)
    ensures
        r@ == spec_pay_id(*hasher, pay_hash@, resolver_id@),
{
    let mut encoded: Vec<u8> = Vec::new();
    encoded.extend_from_slice(pay_hash.0.as_slice());
    encoded.extend_from_slice(resolver_id.0.as_slice());
    proof {
        assert(encoded@ =~= pay_hash@ + resolver_id@);
    }
    hasher.hash(encoded.as_slice())
}

/// The resolution engine, holding its injected collaborators, its own
/// identity and the ledger of resolution records.
pub struct PayResolver<
    H: Hasher,
    V: SignatureVerifier,
    B: BooleanOracle,
    N: NumericOracle,
    S: NotificationSink,
> {
    pub hasher: H,
    pub verifier: V,
    pub boolean_oracle: B,
    pub numeric_oracle: N,
    pub sink: S,
    /// Fixed identity of this resolver instance, mixed into every pay id.
    pub resolver_id: AccountId,
    pub registry: PayRegistry,
}

impl<
    H: Hasher,
    V: SignatureVerifier,
    B: BooleanOracle,
    N: NumericOracle,
    S: NotificationSink,
> PayResolver<H, V, B, N, S> {
    /// The engine is well formed when its ledger is.
    pub open spec fn wf(&self) -> bool {
        self.registry.wf()
    }

    /// The collaborators and identity a call leaves untouched.  The sink
    /// is not among them: its notification history is tracked separately
    /// by each call's `ensures`, through [`NotificationSink::events`].
    pub open spec fn same_collaborators(self, other: Self) -> bool {
        &&& self.hasher == other.hasher
        &&& self.verifier == other.verifier
        &&& self.boolean_oracle == other.boolean_oracle
        &&& self.numeric_oracle == other.numeric_oracle
        &&& self.resolver_id == other.resolver_id
    }

    /// A fresh engine over an empty ledger.
    pub fn new(
        hasher: H,
        verifier: V,
        boolean_oracle: B,
        numeric_oracle: N,
        sink: S,
        resolver_id: AccountId,
    ) -> (r: Self)
        ensures
            r.wf(),
            r.hasher == hasher,
            r.verifier == verifier,
            r.boolean_oracle == boolean_oracle,
            r.numeric_oracle == numeric_oracle,
            r.sink == sink,
            r.resolver_id == resolver_id,
            r.registry@ == Map::<Seq<u8>, PayResolutionRecord>::empty(),
    {
        PayResolver {
            hasher,
            verifier,
            boolean_oracle,
            numeric_oracle,
            sink,
            resolver_id,
            registry: PayRegistry::new(),
        }
    }

    /// Applies the state machine to `pay` with candidate `amount` at
    /// height `now`: checks the deadlines and monotonicity against the
    /// stored record, persists the new record and notifies the sink of
    /// exactly the stored triple.  The persisted record and the returned
    /// tuple agree exactly; on failure nothing is stored and nothing is
    /// notified.  This is the step both entry paths share; callers derive
    /// `pay_hash` from the payment's canonical encoding.
    pub fn resolve_payment(
        &mut self,
        pay: &ConditionalPay,
        pay_hash: &Digest,
        amount: u64,
        now: u64,
    ) -> (r: Result<(Digest, u64, u64), ResolveError>)
        requires
            old(self).wf(),
        ensures
            final(self).wf(),
            old(self).same_collaborators(*final(self)),
            ({
                let pay_id = spec_pay_id(old(self).hasher, pay_hash@, old(self).resolver_id@);
                match spec_resolve(
                    pay.spec_max_amount(),
                    pay.resolve_deadline,
                    pay.resolve_timeout,
                    spec_get_record(old(self).registry@, pay_id),
                    amount,
                    now,
                ) {
                    Result::Err(e) => r == Err::<(Digest, u64, u64), ResolveError>(e) && final(self).registry@ == old(self).registry@ && final(self).sink.events() == old(self).sink.events(),
                    Result::Ok(rec) => r is Ok && r.unwrap().0@ == pay_id && r.unwrap().1
                        == rec.amount && r.unwrap().2 == rec.deadline && final(self).registry@
                        == old(self).registry@.insert(pay_id, rec) && final(self).sink.events()
                        == old(self).sink.events().push((pay_id, rec.amount, rec.deadline)),
                }
            }),
    {
        if now > pay.resolve_deadline {
            return Err(ResolveError::ExpiredDeadline);
        }
        let pay_id = calculate_pay_id(&self.hasher, pay_hash, &self.resolver_id);
        let pay_info = self.registry.get_pay_info(&pay_id);
        let current_amt = pay_info.amount;
        let current_deadline = pay_info.deadline;

        // A pay must never be resolved past a set on-chain deadline.
        if current_deadline > 0 && now > current_deadline {
            return Err(ResolveError::ExpiredOnchainDeadline);
        }

        let max = pay.max_amount();
        if current_deadline > 0 {
            // The record exists: the amount must strictly grow.
            if amount <= current_amt {
                return Err(ResolveError::AmountNotIncreasing);
            }
            if amount == max {
                // Reaching the cap finalizes the record at this height,
                // which must not be the reserved zero sentinel.
                if now == 0 {
                    return Err(ResolveError::ZeroDeadlineComputed);
                }
                self.registry.set_pay_info(&pay_id, amount, now);
                self.sink.notify(&pay_id, amount, now);
                Ok((pay_id, amount, now))
            } else {
                // Not at the cap: the on-chain deadline stays as it is.
                self.registry.set_pay_amount(&pay_id, amount);
                self.sink.notify(&pay_id, amount, current_deadline);
                Ok((pay_id, amount, current_deadline))
            }
        } else {
            let new_deadline: u64;
            if amount == max {
                // Immediate finality, unless the height is the reserved
                // zero sentinel.
                if now == 0 {
                    return Err(ResolveError::ZeroDeadlineComputed);
                }
                new_deadline = now;
            } else {
                if now > u64::MAX - pay.resolve_timeout {
                    return Err(ResolveError::Overflow);
                }
                let timeout = now + pay.resolve_timeout;
                if timeout < pay.resolve_deadline {
                    new_deadline = timeout;
                } else {
                    new_deadline = pay.resolve_deadline;
                }
                // 0 is reserved for the unresolved status of a payment.
                if new_deadline == 0 {
                    return Err(ResolveError::ZeroDeadlineComputed);
                }
            }
            self.registry.set_pay_info(&pay_id, amount, new_deadline);
            self.sink.notify(&pay_id, amount, new_deadline);
            Ok((pay_id, amount, new_deadline))
        }
    }

    /// Resolves a payment by evaluating its condition outcomes on chain,
    /// then applying the state machine to the candidate amount.  On
    /// success exactly one notification with the stored triple is
    /// emitted; on failure the ledger and the notification history are
    /// untouched.
    pub fn resolve_payment_by_conditions(
        &mut self,
        resolve_pay_request: &ResolvePaymentConditionsRequest,
        now: u64,
    ) -> (r: Result<(Digest, u64, u64), ResolveError>)
        requires
            old(self).wf(),
            pay_encodable(resolve_pay_request.cond_pay),
        ensures
            final(self).wf(),
            old(self).same_collaborators(*final(self)),
            ({
                let pay = resolve_pay_request.cond_pay;
                match spec_evaluate(
                    old(self).hasher,
                    old(self).boolean_oracle,
                    old(self).numeric_oracle,
                    pay,
                    resolve_pay_request.hash_preimages@,
                ) {
                    Result::Err(e) => r == Err::<(Digest, u64, u64), ResolveError>(e) && final(self).registry@ == old(self).registry@ && final(self).sink.events() == old(self).sink.events(),
                    Result::Ok(amount) => match spec_resolution_outcome(
                        old(self).hasher,
                        old(self).resolver_id@,
                        old(self).registry@,
                        pay,
                        amount,
                        now,
                    ) {
                        Result::Err(e) => r == Err::<(Digest, u64, u64), ResolveError>(e) && final(self).registry@ == old(self).registry@ && final(self).sink.events() == old(self).sink.events(),
                        Result::Ok(outcome) => r is Ok && r.unwrap().0@ == outcome.0
                            && r.unwrap().1 == outcome.1.amount && r.unwrap().2
                            == outcome.1.deadline && final(self).registry@ == old(self).registry@.insert(outcome.0, outcome.1) && final(self).sink.events() == old(self).sink.events().push((outcome.0, outcome.1.amount, outcome.1.deadline)),
                    },
                }
            }),
    {
        let pay = &resolve_pay_request.cond_pay;
        let func_type = pay.transfer_func.logic_type;
        let evaluated: Result<u64, ResolveError> = if func_type
            == TransferFunctionType::BooleanAnd {
            calculate_boolean_and_payment(
                &self.hasher,
                &self.boolean_oracle,
                pay,
                &resolve_pay_request.hash_preimages,
            )
        } else if func_type == TransferFunctionType::BooleanOr {
            calculate_boolean_or_payment(
                &self.hasher,
                &self.boolean_oracle,
                pay,
                &resolve_pay_request.hash_preimages,
            )
        } else if is_numeric_logic(func_type) {
            calculate_numeric_logic_payment(
                &self.hasher,
                &self.numeric_oracle,
                pay,
                &resolve_pay_request.hash_preimages,
                func_type,
            )
        } else {
            Err(ResolveError::UnsupportedLogicKind)
        };
        let amount = match evaluated {
            Result::Ok(amount) => amount,
            Result::Err(e) => {
                return Err(e);
            },
        };

        let encoded = encode_conditional_pay(pay);
        let pay_hash = self.hasher.hash(encoded.as_slice());
        self.resolve_payment(pay, &pay_hash, amount, now)
    }

    /// Resolves a payment from an off-chain vouched result: checks the
    /// vouched amount against the cap and both parties' signatures over
    /// the canonical encoding, then applies the state machine.  On
    /// success exactly one notification with the stored triple is
    /// emitted; on any failure nothing is persisted and nothing is
    /// notified.
    pub fn resolve_payment_vouched_result(
        &mut self,
        vouched_pay_result: &VouchedCondPayResult,
        now: u64,
    ) -> (r: Result<(Digest, u64, u64), ResolveError>)
        requires
            old(self).wf(),
            pay_encodable(vouched_pay_result.cond_pay_result.cond_pay),
        ensures
            final(self).wf(),
            old(self).same_collaborators(*final(self)),
            ({
                let pay = vouched_pay_result.cond_pay_result.cond_pay;
                let amount = vouched_pay_result.cond_pay_result.amount;
                let encoded = spec_encode_conditional_pay(pay);
                if amount > pay.spec_max_amount() {
                    r == Err::<(Digest, u64, u64), ResolveError>(ResolveError::ExceedsMaxTransfer)
                        && final(self).registry@ == old(self).registry@ && final(self).sink.events() == old(self).sink.events()
                } else if !old(self).verifier.verify_spec(
                    vouched_pay_result.sig_of_src@,
                    encoded,
                    pay.src@,
                ) || !old(self).verifier.verify_spec(
                    vouched_pay_result.sig_of_dest@,
                    encoded,
                    pay.dest@,
                ) {
                    r == Err::<(Digest, u64, u64), ResolveError>(ResolveError::InvalidSignature)
                        && final(self).registry@ == old(self).registry@ && final(self).sink.events() == old(self).sink.events()
                } else {
                    match spec_resolution_outcome(
                        old(self).hasher,
                        old(self).resolver_id@,
                        old(self).registry@,
                        pay,
                        amount,
                        now,
                    ) {
                        Result::Err(e) => r == Err::<(Digest, u64, u64), ResolveError>(e) && final(self).registry@ == old(self).registry@ && final(self).sink.events() == old(self).sink.events(),
                        Result::Ok(outcome) => r is Ok && r.unwrap().0@ == outcome.0
                            && r.unwrap().1 == outcome.1.amount && r.unwrap().2
                            == outcome.1.deadline && final(self).registry@ == old(self).registry@.insert(outcome.0, outcome.1) && final(self).sink.events() == old(self).sink.events().push((outcome.0, outcome.1.amount, outcome.1.deadline)),
                    }
                }
            }),
    {
        let pay_result = &vouched_pay_result.cond_pay_result;
        let pay = &pay_result.cond_pay;

        if pay_result.amount > pay.max_amount() {
            return Err(ResolveError::ExceedsMaxTransfer);
        }

        let encoded = encode_conditional_pay(pay);
        if !self.verifier.verify(&vouched_pay_result.sig_of_src, encoded.as_slice(), &pay.src) {
            return Err(ResolveError::InvalidSignature);
        }
        if !self.verifier.verify(&vouched_pay_result.sig_of_dest, encoded.as_slice(), &pay.dest) {
            return Err(ResolveError::InvalidSignature);
        }

        let pay_hash = self.hasher.hash(encoded.as_slice());
        self.resolve_payment(pay, &pay_hash, pay_result.amount, now)
    }
}

} // verus!
