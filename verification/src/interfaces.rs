//! Collaborator interfaces the resolution engine is injected with.
//!
//! The engine never knows the concrete hash, signature or oracle
//! implementations of its host: it calls them through these narrow traits,
//! exactly as the original runtime routed them through host-implemented
//! configuration.  Each trait carries a spec-function model of its answers,
//! so the engine's contracts can name what a collaborator returned; an
//! implementation is free to choose the model, but its executable methods
//! must agree with it.

use vstd::prelude::*;

use crate::types::AccountId;
use crate::types::Digest;
use crate::types::Signature;

verus! {

/// The host's collision-resistant hash primitive, used for identity
/// derivation and preimage checks.
pub trait Hasher {
    /// Mathematical model of the hash function.  An implementation kept
    /// outside the verifier may leave the default, which fixes no
    /// particular answers.
    open spec fn hash_spec(&self, data: Seq<u8>) -> Seq<u8> {
        vstd::pervasive::arbitrary()
    }

    fn hash(&self, data: &[u8]) -> (r: Digest)
        ensures
            r@ == self.hash_spec(data@),
    ;
}

/// The host's signature primitive: `verify(sig, msg, signer)` decides
/// whether `sig` is `signer`'s signature over `msg`.
pub trait SignatureVerifier {
    /// Mathematical model of the verdict.  An implementation kept outside
    /// the verifier may leave the default, which fixes no particular
    /// answers.
    open spec fn verify_spec(&self, sig: Seq<u8>, msg: Seq<u8>, signer: Seq<u8>) -> bool {
        vstd::pervasive::arbitrary()
    }

    fn verify(&self, sig: &Signature, msg: &[u8], signer: &AccountId) -> (r: bool)
        ensures
            r == self.verify_spec(sig@, msg@, signer@),
    ;
}

/// What a boolean oracle module answers when asked for a condition's
/// outcome.  A failed call whose cause is specifically a false outcome is
/// distinguished from any other failure.
#[derive(Clone, Copy, Debug, PartialEq, Eq, Structural)]
pub enum BooleanOutcome {
    True,
    False,
    /// The call failed for a reason other than a false outcome.
    Failure,
}

/// A boolean oracle module.  Both methods take the opaque invocation
/// descriptor stored in the condition.
pub trait BooleanOracle {
    /// Model of the "is finalized" answer.  An implementation kept outside
    /// the verifier may leave the default, which fixes no particular
    /// answers.
    open spec fn finalized_spec(&self, call: Seq<u8>) -> bool {
        vstd::pervasive::arbitrary()
    }

    /// Model of the "get outcome" answer.  An implementation kept outside
    /// the verifier may leave the default, which fixes no particular
    /// answers.
    open spec fn outcome_spec(&self, call: Seq<u8>) -> BooleanOutcome {
        vstd::pervasive::arbitrary()
    }

    fn is_finalized(&self, call: &Vec<u8>) -> (r: bool)
        ensures
            r == self.finalized_spec(call@),
    ;

    fn get_outcome(&self, call: &Vec<u8>) -> (r: BooleanOutcome)
        ensures
            r == self.outcome_spec(call@),
    ;
}

/// A numeric oracle module, keyed by application number and session id.
/// `None` models a failed oracle call.
pub trait NumericOracle {
    /// Model of the "is finalized" answer; `None` is a failed call.  An
    /// implementation kept outside the verifier may leave the default,
    /// which fixes no particular answers.
    open spec fn finalized_spec(&self, app_num: u32, session_id: Seq<u8>, args: Option<Seq<u8>>) -> Option<
        bool,
    > {
        vstd::pervasive::arbitrary()
    }

    /// Model of the "get outcome" answer; `None` is a failed call.  An
    /// implementation kept outside the verifier may leave the default,
    /// which fixes no particular answers.
    open spec fn outcome_spec(&self, app_num: u32, session_id: Seq<u8>, args: Option<Seq<u8>>) -> Option<
        u64,
    > {
        vstd::pervasive::arbitrary()
    }

    fn is_finalized(&self, app_num: u32, session_id: &Digest, args: &Option<Vec<u8>>) -> (r: Option<
        bool,
    >)
        ensures
            r == self.finalized_spec(app_num, session_id@, args.deep_view()),
    ;

    fn get_outcome(&self, app_num: u32, session_id: &Digest, args: &Option<Vec<u8>>) -> (r: Option<
        u64,
    >)
        ensures
            r == self.outcome_spec(app_num, session_id@, args.deep_view()),
    ;
}

/// Best-effort notification sink: told about every successful resolution,
/// never read back.
pub trait NotificationSink {
    /// Model of the notification history, oldest first.  An implementation
    /// kept outside the verifier may leave the default, which fixes no
    /// particular history.
    open spec fn events(&self) -> Seq<(Seq<u8>, u64, u64)> {
        vstd::pervasive::arbitrary()
    }

    fn notify(&mut self, pay_id: &Digest, amount: u64, deadline: u64)
        ensures
            final(self).events() == old(self).events().push((pay_id@, amount, deadline)),
    ;
}

} // verus!
