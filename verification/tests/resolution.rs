//! End-to-end tests of the resolution engine with simple deterministic
//! collaborator implementations.

use celer_pay::interfaces::BooleanOracle;
use celer_pay::interfaces::BooleanOutcome;
use celer_pay::interfaces::Hasher;
use celer_pay::interfaces::NotificationSink;
use celer_pay::interfaces::NumericOracle;
use celer_pay::interfaces::SignatureVerifier;
use celer_pay::pay_resolver::calculate_pay_id;
use celer_pay::pay_resolver::PayResolver;
use celer_pay::types::AccountAmtPair;
use celer_pay::types::AccountId;
use celer_pay::types::Condition;
use celer_pay::types::ConditionType;
use celer_pay::types::ConditionalPay;
use celer_pay::types::Digest;
use celer_pay::types::PayResolutionRecord;
use celer_pay::types::ResolveError;
use celer_pay::types::ResolvePaymentConditionsRequest;
use celer_pay::types::CondPayResult;
use celer_pay::types::Signature;
use celer_pay::types::TokenInfo;
use celer_pay::types::TokenTransfer;
use celer_pay::types::TokenType;
use celer_pay::types::TransferFunction;
use celer_pay::types::TransferFunctionType;
use celer_pay::types::VouchedCondPayResult;
use celer_pay::encoder::encode_conditional_pay;
use celer_pay::registry::PayRegistry;

#[derive(Clone, Copy)]
struct TestHasher;

fn toy_digest(data: &[u8]) -> Digest {
    let mut h: u64 = 0xcbf2_9ce4_8422_2325;
    for b in data {
        h = (h ^ (*b as u64)).wrapping_mul(0x0000_0100_0000_01b3);
    }
    let mut out = [0u8; 32];
    for i in 0..4 {
        let mixed = h
            .wrapping_add(i as u64)
            .wrapping_mul(0x9e37_79b9_7f4a_7c15);
        out[i * 8..(i + 1) * 8].copy_from_slice(&mixed.to_le_bytes());
    }
    Digest(out)
}

impl Hasher for TestHasher {
    fn hash(&self, data: &[u8]) -> Digest {
        toy_digest(data)
    }
}

/// A signature is valid iff its first half is the signer and its second
/// half the digest of the message.
#[derive(Clone, Copy)]
struct TestVerifier;

fn toy_sign(msg: &[u8], signer: &AccountId) -> Signature {
    let mut out = [0u8; 64];
    out[..32].copy_from_slice(&signer.0);
    out[32..].copy_from_slice(&toy_digest(msg).0);
    Signature(out)
}

impl SignatureVerifier for TestVerifier {
    fn verify(&self, sig: &Signature, msg: &[u8], signer: &AccountId) -> bool {
        sig.0[..32] == signer.0 && sig.0[32..] == toy_digest(msg).0
    }
}

#[derive(Clone, Copy)]
struct TestBooleanOracle {
    finalized: bool,
    outcome: BooleanOutcome,
}

impl BooleanOracle for TestBooleanOracle {
    fn is_finalized(&self, _call: &Vec<u8>) -> bool {
        self.finalized
    }

    fn get_outcome(&self, _call: &Vec<u8>) -> BooleanOutcome {
        self.outcome
    }
}

/// Answers per application number; an application absent from the table
/// has failing calls.
#[derive(Clone)]
struct TestNumericOracle {
    finalized: bool,
    outcomes: Vec<(u32, u64)>,
}

impl NumericOracle for TestNumericOracle {
    fn is_finalized(
        &self,
        app_num: u32,
        _session_id: &Digest,
        _args: &Option<Vec<u8>>,
    ) -> Option<bool> {
        if self.outcomes.iter().any(|x| x.0 == app_num) {
            Some(self.finalized)
        } else {
            None
        }
    }

    fn get_outcome(
        &self,
        app_num: u32,
        _session_id: &Digest,
        _args: &Option<Vec<u8>>,
    ) -> Option<u64> {
        self.outcomes.iter().find(|x| x.0 == app_num).map(|x| x.1)
    }
}

struct TestSink {
    events: Vec<(Digest, u64, u64)>,
}

impl NotificationSink for TestSink {
    fn notify(&mut self, pay_id: &Digest, amount: u64, deadline: u64) {
        self.events.push((*pay_id, amount, deadline));
    }
}

type TestResolver = PayResolver<TestHasher, TestVerifier, TestBooleanOracle, TestNumericOracle, TestSink>;

fn new_resolver(boolean: TestBooleanOracle, numeric: TestNumericOracle) -> TestResolver {
    PayResolver::new(
        TestHasher,
        TestVerifier,
        boolean,
        numeric,
        TestSink { events: Vec::new() },
        AccountId([9u8; 32]),
    )
}

fn default_resolver() -> TestResolver {
    new_resolver(
        TestBooleanOracle { finalized: true, outcome: BooleanOutcome::True },
        TestNumericOracle { finalized: true, outcomes: Vec::new() },
    )
}

fn empty_condition(condition_type: ConditionType) -> Condition {
    Condition {
        condition_type,
        hash_lock: None,
        call_is_finalized: None,
        call_get_outcome: None,
        numeric_app_num: None,
        numeric_session_id: None,
        args_query_finalization: None,
        args_query_outcome: None,
    }
}

fn hash_lock_condition(lock: Digest) -> Condition {
    let mut c = empty_condition(ConditionType::HashLock);
    c.hash_lock = Some(lock);
    c
}

fn boolean_condition() -> Condition {
    let mut c = empty_condition(ConditionType::BooleanRuntimeModule);
    c.call_is_finalized = Some(vec![1u8]);
    c.call_get_outcome = Some(vec![2u8]);
    c
}

fn numeric_condition(app_num: u32) -> Condition {
    let mut c = empty_condition(ConditionType::NumericRuntimeModule);
    c.numeric_app_num = Some(app_num);
    c.numeric_session_id = Some(Digest([7u8; 32]));
    c
}

fn make_pay(
    logic: TransferFunctionType,
    conditions: Vec<Condition>,
    max_amount: u64,
) -> ConditionalPay {
    ConditionalPay {
        pay_timestamp: 1_000,
        src: AccountId([1u8; 32]),
        dest: AccountId([2u8; 32]),
        conditions,
        transfer_func: TransferFunction {
            logic_type: logic,
            max_transfer: TokenTransfer {
                token: TokenInfo { token_type: TokenType::Celer },
                receiver: AccountAmtPair { account: Some(AccountId([2u8; 32])), amt: max_amount },
            },
        },
        resolve_deadline: 1_000,
        resolve_timeout: 10,
    }
}

fn by_conditions(
    resolver: &mut TestResolver,
    pay: &ConditionalPay,
    preimages: Vec<Digest>,
    now: u64,
) -> Result<(Digest, u64, u64), ResolveError> {
    let request = ResolvePaymentConditionsRequest {
        cond_pay: pay.clone(),
        hash_preimages: preimages,
    };
    resolver.resolve_payment_by_conditions(&request, now)
}

fn vouch(pay: &ConditionalPay, amount: u64) -> VouchedCondPayResult {
    let encoded = encode_conditional_pay(pay);
    VouchedCondPayResult {
        cond_pay_result: CondPayResult { cond_pay: pay.clone(), amount },
        sig_of_src: toy_sign(&encoded, &pay.src),
        sig_of_dest: toy_sign(&encoded, &pay.dest),
    }
}

fn pay_id_of(resolver: &TestResolver, pay: &ConditionalPay) -> Digest {
    let encoded = encode_conditional_pay(pay);
    let pay_hash = toy_digest(&encoded);
    calculate_pay_id(&TestHasher, &pay_hash, &resolver.resolver_id)
}

// ---------------------------------------------------------------- encoding

#[test]
fn encoding_is_deterministic() {
    let pay = make_pay(
        TransferFunctionType::BooleanAnd,
        vec![hash_lock_condition(Digest([3u8; 32])), boolean_condition()],
        50,
    );
    assert_eq!(encode_conditional_pay(&pay), encode_conditional_pay(&pay));
}

#[test]
fn reordering_conditions_changes_encoding_and_identity() {
    let c1 = hash_lock_condition(Digest([3u8; 32]));
    let c2 = boolean_condition();
    let pay_a = make_pay(TransferFunctionType::BooleanAnd, vec![c1.clone(), c2.clone()], 50);
    let pay_b = make_pay(TransferFunctionType::BooleanAnd, vec![c2, c1], 50);
    let enc_a = encode_conditional_pay(&pay_a);
    let enc_b = encode_conditional_pay(&pay_b);
    assert_ne!(enc_a, enc_b);
    let resolver = default_resolver();
    assert_ne!(pay_id_of(&resolver, &pay_a).0, pay_id_of(&resolver, &pay_b).0);
}

#[test]
fn encoding_layout_no_conditions() {
    let pay = make_pay(TransferFunctionType::BooleanOr, Vec::new(), 0x0102_0304_0506_0708);
    let encoded = encode_conditional_pay(&pay);
    let mut expected: Vec<u8> = Vec::new();
    expected.extend_from_slice(&1_000u64.to_le_bytes());
    expected.extend_from_slice(&[1u8; 32]);
    expected.extend_from_slice(&[2u8; 32]);
    expected.push(1); // logic tag: boolean OR
    expected.push(1); // token tag: native
    expected.push(1); // receiver account present
    expected.extend_from_slice(&[2u8; 32]);
    expected.extend_from_slice(&0x0102_0304_0506_0708u64.to_le_bytes());
    expected.extend_from_slice(&1_000u64.to_le_bytes());
    expected.extend_from_slice(&10u64.to_le_bytes());
    assert_eq!(encoded, expected);
}

#[test]
fn encoding_layout_one_condition_with_args() {
    let mut cond = numeric_condition(5);
    cond.call_is_finalized = Some(vec![0xbbu8; 3]);
    cond.args_query_finalization = Some(vec![0xaau8; 100]);
    cond.args_query_outcome = Some(Vec::new());
    let pay = make_pay(TransferFunctionType::NumericAdd, vec![cond], 9);
    let encoded = encode_conditional_pay(&pay);
    let mut expected: Vec<u8> = Vec::new();
    expected.extend_from_slice(&1_000u64.to_le_bytes());
    expected.extend_from_slice(&[1u8; 32]);
    expected.extend_from_slice(&[2u8; 32]);
    expected.push(2); // condition tag: numeric module
    expected.push(0); // no hash lock
    expected.push(1); // is-finalized call present
    expected.push(12); // compact length of 3
    expected.extend_from_slice(&[0xbbu8; 3]);
    expected.push(0); // no get-outcome call
    expected.push(1); // application number present
    expected.extend_from_slice(&5u32.to_le_bytes());
    expected.push(1); // session id present
    expected.extend_from_slice(&[7u8; 32]);
    expected.push(1); // finalization args present
    expected.extend_from_slice(&[0x91, 0x01]); // compact length of 100
    expected.extend_from_slice(&[0xaau8; 100]);
    expected.push(1); // outcome args present
    expected.push(0); // compact length of 0
    expected.push(3); // logic tag: numeric add
    expected.push(1); // token tag: native
    expected.push(1); // receiver account present
    expected.extend_from_slice(&[2u8; 32]);
    expected.extend_from_slice(&9u64.to_le_bytes());
    expected.extend_from_slice(&1_000u64.to_le_bytes());
    expected.extend_from_slice(&10u64.to_le_bytes());
    assert_eq!(encoded, expected);
}

#[test]
fn call_descriptors_cannot_blur_condition_boundaries() {
    // Two distinct boolean-module conditions whose descriptors are powers
    // of one byte block: with raw (unprefixed) descriptor bytes the two
    // orders would encode identically; the compact length prefix keeps
    // them apart.
    let mut c1 = empty_condition(ConditionType::BooleanRuntimeModule);
    c1.call_is_finalized = Some(vec![1, 0, 0, 0, 0, 1, 0, 1]);
    c1.call_get_outcome = Some(Vec::new());
    let mut c2 = empty_condition(ConditionType::BooleanRuntimeModule);
    c2.call_is_finalized = Some(Vec::new());
    c2.call_get_outcome = Some(Vec::new());
    let pay_a = make_pay(TransferFunctionType::BooleanAnd, vec![c1.clone(), c2.clone()], 50);
    let pay_b = make_pay(TransferFunctionType::BooleanAnd, vec![c2, c1], 50);
    assert_ne!(encode_conditional_pay(&pay_a), encode_conditional_pay(&pay_b));
}

// ------------------------------------------------------------ boolean AND

#[test]
fn boolean_and_two_hash_locks_pays_cap() {
    let p1 = Digest([11u8; 32]);
    let p2 = Digest([22u8; 32]);
    let pay = make_pay(
        TransferFunctionType::BooleanAnd,
        vec![
            hash_lock_condition(toy_digest(&p1.0)),
            hash_lock_condition(toy_digest(&p2.0)),
        ],
        50,
    );
    let mut resolver = default_resolver();
    let (pay_id, amount, deadline) =
        by_conditions(&mut resolver, &pay, vec![p1, p2], 100).unwrap();
    assert_eq!(amount, 50);
    assert_eq!(deadline, 100);
    assert_eq!(
        resolver.registry.get_pay_info(&pay_id),
        PayResolutionRecord { amount: 50, deadline: 100 }
    );
    assert_eq!(resolver.sink.events, vec![(pay_id, 50, 100)]);
}

#[test]
fn boolean_and_wrong_preimage_fails() {
    let p1 = Digest([11u8; 32]);
    let p2 = Digest([22u8; 32]);
    let pay = make_pay(
        TransferFunctionType::BooleanAnd,
        vec![
            hash_lock_condition(toy_digest(&p1.0)),
            hash_lock_condition(toy_digest(&p2.0)),
        ],
        50,
    );
    let mut resolver = default_resolver();
    let wrong = Digest([33u8; 32]);
    assert_eq!(
        by_conditions(&mut resolver, &pay, vec![p1, wrong], 100),
        Err(ResolveError::WrongPreimage)
    );
    assert_eq!(
        by_conditions(&mut resolver, &pay, vec![wrong, p2], 100),
        Err(ResolveError::WrongPreimage)
    );
    assert!(resolver.sink.events.is_empty());
}

#[test]
fn boolean_and_false_outcome_pays_zero() {
    let pay = make_pay(TransferFunctionType::BooleanAnd, vec![boolean_condition()], 50);
    let mut resolver = new_resolver(
        TestBooleanOracle { finalized: true, outcome: BooleanOutcome::False },
        TestNumericOracle { finalized: true, outcomes: Vec::new() },
    );
    let (_, amount, deadline) = by_conditions(&mut resolver, &pay, Vec::new(), 100).unwrap();
    assert_eq!(amount, 0);
    assert_eq!(deadline, 110);
}

#[test]
fn boolean_and_oracle_failure_is_fatal() {
    let pay = make_pay(TransferFunctionType::BooleanAnd, vec![boolean_condition()], 50);
    let mut resolver = new_resolver(
        TestBooleanOracle { finalized: true, outcome: BooleanOutcome::Failure },
        TestNumericOracle { finalized: true, outcomes: Vec::new() },
    );
    assert_eq!(
        by_conditions(&mut resolver, &pay, Vec::new(), 100),
        Err(ResolveError::BooleanOutcomeFailure)
    );
}

#[test]
fn boolean_and_not_finalized_fails() {
    let pay = make_pay(TransferFunctionType::BooleanAnd, vec![boolean_condition()], 50);
    let mut resolver = new_resolver(
        TestBooleanOracle { finalized: false, outcome: BooleanOutcome::True },
        TestNumericOracle { finalized: true, outcomes: Vec::new() },
    );
    assert_eq!(
        by_conditions(&mut resolver, &pay, Vec::new(), 100),
        Err(ResolveError::ConditionNotFinalized)
    );
}

#[test]
fn boolean_and_rejects_numeric_condition() {
    let pay = make_pay(TransferFunctionType::BooleanAnd, vec![numeric_condition(1)], 50);
    let mut resolver = default_resolver();
    assert_eq!(
        by_conditions(&mut resolver, &pay, Vec::new(), 100),
        Err(ResolveError::UnexpectedConditionType)
    );
}

#[test]
fn preimage_list_exhaustion_is_reported() {
    let p1 = Digest([11u8; 32]);
    let pay = make_pay(
        TransferFunctionType::BooleanAnd,
        vec![
            hash_lock_condition(toy_digest(&p1.0)),
            hash_lock_condition(toy_digest(&[0u8; 32])),
        ],
        50,
    );
    let mut resolver = default_resolver();
    assert_eq!(
        by_conditions(&mut resolver, &pay, vec![p1], 100),
        Err(ResolveError::PreimageListExhausted)
    );
}

// ------------------------------------------------------------- boolean OR

#[test]
fn boolean_or_false_outcome_pays_zero() {
    let pay = make_pay(TransferFunctionType::BooleanOr, vec![boolean_condition()], 50);
    let mut resolver = new_resolver(
        TestBooleanOracle { finalized: true, outcome: BooleanOutcome::False },
        TestNumericOracle { finalized: true, outcomes: Vec::new() },
    );
    let (_, amount, _) = by_conditions(&mut resolver, &pay, Vec::new(), 100).unwrap();
    assert_eq!(amount, 0);
}

#[test]
fn boolean_or_no_conditions_pays_cap() {
    let pay = make_pay(TransferFunctionType::BooleanOr, Vec::new(), 50);
    let mut resolver = default_resolver();
    let (_, amount, deadline) = by_conditions(&mut resolver, &pay, Vec::new(), 100).unwrap();
    assert_eq!(amount, 50);
    assert_eq!(deadline, 100);
}

#[test]
fn boolean_or_one_true_outcome_pays_cap() {
    let pay = make_pay(
        TransferFunctionType::BooleanOr,
        vec![boolean_condition(), boolean_condition()],
        50,
    );
    let mut resolver = new_resolver(
        TestBooleanOracle { finalized: true, outcome: BooleanOutcome::True },
        TestNumericOracle { finalized: true, outcomes: Vec::new() },
    );
    let (_, amount, _) = by_conditions(&mut resolver, &pay, Vec::new(), 100).unwrap();
    assert_eq!(amount, 50);
}

// ---------------------------------------------------------------- numeric

#[test]
fn numeric_min_takes_smallest_outcome() {
    let pay = make_pay(
        TransferFunctionType::NumericMin,
        vec![numeric_condition(1), numeric_condition(2)],
        50,
    );
    let mut resolver = new_resolver(
        TestBooleanOracle { finalized: true, outcome: BooleanOutcome::True },
        TestNumericOracle { finalized: true, outcomes: vec![(1, 5), (2, 3)] },
    );
    let (_, amount, _) = by_conditions(&mut resolver, &pay, Vec::new(), 100).unwrap();
    assert_eq!(amount, 3);
}

#[test]
fn numeric_min_single_outcome_is_taken_unconditionally() {
    // The running minimum starts from the first outcome, not from zero.
    let pay = make_pay(TransferFunctionType::NumericMin, vec![numeric_condition(1)], 50);
    let mut resolver = new_resolver(
        TestBooleanOracle { finalized: true, outcome: BooleanOutcome::True },
        TestNumericOracle { finalized: true, outcomes: vec![(1, 7)] },
    );
    let (_, amount, _) = by_conditions(&mut resolver, &pay, Vec::new(), 100).unwrap();
    assert_eq!(amount, 7);
}

#[test]
fn numeric_add_sums_outcomes() {
    let pay = make_pay(
        TransferFunctionType::NumericAdd,
        vec![numeric_condition(1), numeric_condition(2)],
        50,
    );
    let mut resolver = new_resolver(
        TestBooleanOracle { finalized: true, outcome: BooleanOutcome::True },
        TestNumericOracle { finalized: true, outcomes: vec![(1, 5), (2, 3)] },
    );
    let (_, amount, _) = by_conditions(&mut resolver, &pay, Vec::new(), 100).unwrap();
    assert_eq!(amount, 8);
}

#[test]
fn numeric_max_keeps_largest_outcome() {
    let pay = make_pay(
        TransferFunctionType::NumericMax,
        vec![numeric_condition(1), numeric_condition(2)],
        50,
    );
    let mut resolver = new_resolver(
        TestBooleanOracle { finalized: true, outcome: BooleanOutcome::True },
        TestNumericOracle { finalized: true, outcomes: vec![(1, 5), (2, 3)] },
    );
    let (_, amount, _) = by_conditions(&mut resolver, &pay, Vec::new(), 100).unwrap();
    assert_eq!(amount, 5);
}

#[test]
fn numeric_no_conditions_pays_cap() {
    let pay = make_pay(TransferFunctionType::NumericAdd, Vec::new(), 50);
    let mut resolver = default_resolver();
    let (_, amount, _) = by_conditions(&mut resolver, &pay, Vec::new(), 100).unwrap();
    assert_eq!(amount, 50);
}

#[test]
fn numeric_sum_over_cap_fails() {
    let pay = make_pay(
        TransferFunctionType::NumericAdd,
        vec![numeric_condition(1), numeric_condition(2)],
        7,
    );
    let mut resolver = new_resolver(
        TestBooleanOracle { finalized: true, outcome: BooleanOutcome::True },
        TestNumericOracle { finalized: true, outcomes: vec![(1, 5), (2, 3)] },
    );
    assert_eq!(
        by_conditions(&mut resolver, &pay, Vec::new(), 100),
        Err(ResolveError::ExceedsMaxTransfer)
    );
}

#[test]
fn numeric_sum_overflow_fails() {
    let pay = make_pay(
        TransferFunctionType::NumericAdd,
        vec![numeric_condition(1), numeric_condition(2)],
        u64::MAX,
    );
    let mut resolver = new_resolver(
        TestBooleanOracle { finalized: true, outcome: BooleanOutcome::True },
        TestNumericOracle { finalized: true, outcomes: vec![(1, u64::MAX), (2, 1)] },
    );
    assert_eq!(
        by_conditions(&mut resolver, &pay, Vec::new(), 100),
        Err(ResolveError::Overflow)
    );
}

#[test]
fn numeric_not_finalized_fails() {
    let pay = make_pay(TransferFunctionType::NumericAdd, vec![numeric_condition(1)], 50);
    let mut resolver = new_resolver(
        TestBooleanOracle { finalized: true, outcome: BooleanOutcome::True },
        TestNumericOracle { finalized: false, outcomes: vec![(1, 5)] },
    );
    assert_eq!(
        by_conditions(&mut resolver, &pay, Vec::new(), 100),
        Err(ResolveError::ConditionNotFinalized)
    );
}

#[test]
fn numeric_oracle_failure_is_fatal() {
    // Application 9 is unknown to the oracle: both calls fail.
    let pay = make_pay(TransferFunctionType::NumericAdd, vec![numeric_condition(9)], 50);
    let mut resolver = default_resolver();
    assert_eq!(
        by_conditions(&mut resolver, &pay, Vec::new(), 100),
        Err(ResolveError::NumericOracleFailure)
    );
}

#[test]
fn numeric_rejects_boolean_condition() {
    let pay = make_pay(TransferFunctionType::NumericAdd, vec![boolean_condition()], 50);
    let mut resolver = default_resolver();
    assert_eq!(
        by_conditions(&mut resolver, &pay, Vec::new(), 100),
        Err(ResolveError::UnexpectedConditionType)
    );
}

// --------------------------------------------------------- malformed input

#[test]
fn missing_hash_lock_is_reported() {
    let pay = make_pay(
        TransferFunctionType::BooleanAnd,
        vec![empty_condition(ConditionType::HashLock)],
        50,
    );
    let mut resolver = default_resolver();
    assert_eq!(
        by_conditions(&mut resolver, &pay, Vec::new(), 100),
        Err(ResolveError::HashLockNotExist)
    );
}

#[test]
fn missing_calls_are_reported() {
    let mut only_outcome = empty_condition(ConditionType::BooleanRuntimeModule);
    only_outcome.call_get_outcome = Some(vec![2u8]);
    let pay = make_pay(TransferFunctionType::BooleanAnd, vec![only_outcome], 50);
    let mut resolver = default_resolver();
    assert_eq!(
        by_conditions(&mut resolver, &pay, Vec::new(), 100),
        Err(ResolveError::CallIsFinalizedNotExist)
    );

    let mut only_finalized = empty_condition(ConditionType::BooleanRuntimeModule);
    only_finalized.call_is_finalized = Some(vec![1u8]);
    let pay = make_pay(TransferFunctionType::BooleanOr, vec![only_finalized], 50);
    assert_eq!(
        by_conditions(&mut resolver, &pay, Vec::new(), 100),
        Err(ResolveError::CallGetOutcomeNotExist)
    );
}

#[test]
fn missing_numeric_fields_are_reported() {
    let mut no_app = numeric_condition(1);
    no_app.numeric_app_num = None;
    let pay = make_pay(TransferFunctionType::NumericAdd, vec![no_app], 50);
    let mut resolver = new_resolver(
        TestBooleanOracle { finalized: true, outcome: BooleanOutcome::True },
        TestNumericOracle { finalized: true, outcomes: vec![(1, 5)] },
    );
    assert_eq!(
        by_conditions(&mut resolver, &pay, Vec::new(), 100),
        Err(ResolveError::NumericAppNotExist)
    );

    let mut no_session = numeric_condition(1);
    no_session.numeric_session_id = None;
    let pay = make_pay(TransferFunctionType::NumericAdd, vec![no_session], 50);
    assert_eq!(
        by_conditions(&mut resolver, &pay, Vec::new(), 100),
        Err(ResolveError::NumericSessionIdNotExist)
    );
}

#[test]
fn boolean_circuit_is_unsupported() {
    let pay = make_pay(TransferFunctionType::BooleanCircuit, Vec::new(), 50);
    let mut resolver = default_resolver();
    assert_eq!(
        by_conditions(&mut resolver, &pay, Vec::new(), 100),
        Err(ResolveError::UnsupportedLogicKind)
    );
}

// ---------------------------------------------------------- state machine

#[test]
fn amounts_grow_strictly_until_cap_then_nothing() {
    let pay = make_pay(TransferFunctionType::NumericAdd, vec![numeric_condition(1)], 50);
    let mut resolver = new_resolver(
        TestBooleanOracle { finalized: true, outcome: BooleanOutcome::True },
        TestNumericOracle { finalized: true, outcomes: vec![(1, 4)] },
    );
    let pay_id = pay_id_of(&resolver, &pay);

    let (_, amount, deadline) = by_conditions(&mut resolver, &pay, Vec::new(), 100).unwrap();
    assert_eq!((amount, deadline), (4, 110));

    // The same amount again is rejected, not silently accepted.
    assert_eq!(
        by_conditions(&mut resolver, &pay, Vec::new(), 105),
        Err(ResolveError::AmountNotIncreasing)
    );

    // A larger amount is accepted; the deadline stays.
    resolver.numeric_oracle.outcomes = vec![(1, 7)];
    let (_, amount, deadline) = by_conditions(&mut resolver, &pay, Vec::new(), 105).unwrap();
    assert_eq!((amount, deadline), (7, 110));

    // A smaller amount is rejected.
    resolver.numeric_oracle.outcomes = vec![(1, 5)];
    assert_eq!(
        by_conditions(&mut resolver, &pay, Vec::new(), 106),
        Err(ResolveError::AmountNotIncreasing)
    );

    // Reaching the cap finalizes at the current height.
    resolver.numeric_oracle.outcomes = vec![(1, 50)];
    let (_, amount, deadline) = by_conditions(&mut resolver, &pay, Vec::new(), 108).unwrap();
    assert_eq!((amount, deadline), (50, 108));
    assert_eq!(
        resolver.registry.get_pay_info(&pay_id),
        PayResolutionRecord { amount: 50, deadline: 108 }
    );

    // Terminal: within the recorded deadline the amount check fails ...
    assert_eq!(
        by_conditions(&mut resolver, &pay, Vec::new(), 108),
        Err(ResolveError::AmountNotIncreasing)
    );
    // ... and past it the on-chain deadline check fails.
    assert_eq!(
        by_conditions(&mut resolver, &pay, Vec::new(), 109),
        Err(ResolveError::ExpiredOnchainDeadline)
    );
    assert_eq!(
        resolver.registry.get_pay_info(&pay_id),
        PayResolutionRecord { amount: 50, deadline: 108 }
    );
}

#[test]
fn first_deadline_is_clipped_to_resolve_deadline() {
    let mut pay = make_pay(TransferFunctionType::NumericAdd, vec![numeric_condition(1)], 50);
    pay.resolve_deadline = 105;
    let mut resolver = new_resolver(
        TestBooleanOracle { finalized: true, outcome: BooleanOutcome::True },
        TestNumericOracle { finalized: true, outcomes: vec![(1, 4)] },
    );
    // now + resolve_timeout = 110 exceeds the resolve deadline of 105.
    let (_, _, deadline) = by_conditions(&mut resolver, &pay, Vec::new(), 100).unwrap();
    assert_eq!(deadline, 105);
    assert!(deadline <= pay.resolve_deadline);
    assert!(deadline <= 100 + pay.resolve_timeout);
}

#[test]
fn expired_resolve_deadline_fails() {
    let pay = make_pay(TransferFunctionType::BooleanOr, Vec::new(), 50);
    let mut resolver = default_resolver();
    assert_eq!(
        by_conditions(&mut resolver, &pay, Vec::new(), 1_001),
        Err(ResolveError::ExpiredDeadline)
    );
}

#[test]
fn zero_computed_deadline_fails() {
    let mut pay = make_pay(TransferFunctionType::BooleanOr, vec![boolean_condition()], 50);
    pay.resolve_deadline = 0;
    pay.resolve_timeout = 0;
    let mut resolver = new_resolver(
        TestBooleanOracle { finalized: true, outcome: BooleanOutcome::False },
        TestNumericOracle { finalized: true, outcomes: Vec::new() },
    );
    // Amount 0 at height 0 with timeout 0 would compute the reserved
    // zero sentinel.
    assert_eq!(
        by_conditions(&mut resolver, &pay, Vec::new(), 0),
        Err(ResolveError::ZeroDeadlineComputed)
    );
}

#[test]
fn finalizing_at_height_zero_is_rejected() {
    // Storing deadline 0 would record the never-resolved sentinel and
    // re-open a terminal record, so finality at height 0 is refused.
    let pay = make_pay(TransferFunctionType::BooleanAnd, Vec::new(), 50);
    let mut resolver = default_resolver();
    let pay_id = pay_id_of(&resolver, &pay);
    let vouched = vouch(&pay, 50);
    assert_eq!(
        resolver.resolve_payment_vouched_result(&vouched, 0),
        Err(ResolveError::ZeroDeadlineComputed)
    );
    assert_eq!(
        resolver.registry.get_pay_info(&pay_id),
        PayResolutionRecord { amount: 0, deadline: 0 }
    );

    // The same guard holds when an existing record reaches the cap at
    // height 0.
    let vouched_partial = vouch(&pay, 20);
    let (_, amount, deadline) =
        resolver.resolve_payment_vouched_result(&vouched_partial, 0).unwrap();
    assert_eq!((amount, deadline), (20, 10));
    let vouched_full = vouch(&pay, 50);
    assert_eq!(
        resolver.resolve_payment_vouched_result(&vouched_full, 0),
        Err(ResolveError::ZeroDeadlineComputed)
    );
    let (_, amount, deadline) =
        resolver.resolve_payment_vouched_result(&vouched_full, 1).unwrap();
    assert_eq!((amount, deadline), (50, 1));
}

#[test]
fn height_overflow_fails() {
    let mut pay = make_pay(TransferFunctionType::BooleanOr, vec![boolean_condition()], 50);
    pay.resolve_deadline = u64::MAX;
    pay.resolve_timeout = 1;
    let mut resolver = new_resolver(
        TestBooleanOracle { finalized: true, outcome: BooleanOutcome::False },
        TestNumericOracle { finalized: true, outcomes: Vec::new() },
    );
    assert_eq!(
        by_conditions(&mut resolver, &pay, Vec::new(), u64::MAX),
        Err(ResolveError::Overflow)
    );
}

// ------------------------------------------------------------ vouched path

#[test]
fn vouched_at_cap_finalizes_immediately() {
    let pay = make_pay(TransferFunctionType::BooleanAnd, Vec::new(), 50);
    let mut resolver = default_resolver();
    let expected_id = pay_id_of(&resolver, &pay);
    let vouched = vouch(&pay, 50);
    let (pay_id, amount, deadline) =
        resolver.resolve_payment_vouched_result(&vouched, 100).unwrap();
    assert_eq!(pay_id.0, expected_id.0);
    assert_eq!((amount, deadline), (50, 100));
    assert_eq!(
        resolver.registry.get_pay_info(&pay_id),
        PayResolutionRecord { amount: 50, deadline: 100 }
    );
}

#[test]
fn vouched_with_bad_destination_signature_writes_nothing() {
    let pay = make_pay(TransferFunctionType::BooleanAnd, Vec::new(), 50);
    let mut resolver = default_resolver();
    let pay_id = pay_id_of(&resolver, &pay);
    let mut vouched = vouch(&pay, 50);
    vouched.sig_of_dest = toy_sign(b"something else", &pay.dest);
    assert_eq!(
        resolver.resolve_payment_vouched_result(&vouched, 100),
        Err(ResolveError::InvalidSignature)
    );
    assert_eq!(
        resolver.registry.get_pay_info(&pay_id),
        PayResolutionRecord { amount: 0, deadline: 0 }
    );
    assert!(resolver.sink.events.is_empty());
}

#[test]
fn vouched_with_bad_source_signature_fails() {
    let pay = make_pay(TransferFunctionType::BooleanAnd, Vec::new(), 50);
    let mut resolver = default_resolver();
    let mut vouched = vouch(&pay, 50);
    vouched.sig_of_src = toy_sign(&encode_conditional_pay(&pay), &pay.dest);
    assert_eq!(
        resolver.resolve_payment_vouched_result(&vouched, 100),
        Err(ResolveError::InvalidSignature)
    );
}

#[test]
fn vouched_over_cap_fails() {
    let pay = make_pay(TransferFunctionType::BooleanAnd, Vec::new(), 50);
    let mut resolver = default_resolver();
    let vouched = vouch(&pay, 51);
    assert_eq!(
        resolver.resolve_payment_vouched_result(&vouched, 100),
        Err(ResolveError::ExceedsMaxTransfer)
    );
}

#[test]
fn vouched_below_cap_opens_dispute_window() {
    let pay = make_pay(TransferFunctionType::BooleanAnd, Vec::new(), 50);
    let mut resolver = default_resolver();
    let vouched = vouch(&pay, 20);
    let (pay_id, amount, deadline) =
        resolver.resolve_payment_vouched_result(&vouched, 100).unwrap();
    assert_eq!((amount, deadline), (20, 110));
    // Both paths share the same record: a later on-chain resolution must
    // still strictly increase the amount.
    let vouched_again = vouch(&pay, 20);
    assert_eq!(
        resolver.resolve_payment_vouched_result(&vouched_again, 105),
        Err(ResolveError::AmountNotIncreasing)
    );
    let vouched_more = vouch(&pay, 35);
    let (_, amount, deadline) =
        resolver.resolve_payment_vouched_result(&vouched_more, 105).unwrap();
    assert_eq!((amount, deadline), (35, 110));
    assert_eq!(
        resolver.registry.get_pay_info(&pay_id),
        PayResolutionRecord { amount: 35, deadline: 110 }
    );
}

// --------------------------------------------------------------- registry

#[test]
fn registry_defaults_and_overwrites() {
    let mut registry = PayRegistry::new();
    let id_a = Digest([1u8; 32]);
    let id_b = Digest([2u8; 32]);
    assert_eq!(
        registry.get_pay_info(&id_a),
        PayResolutionRecord { amount: 0, deadline: 0 }
    );
    registry.set_pay_info(&id_a, 5, 20);
    registry.set_pay_info(&id_b, 9, 30);
    assert_eq!(registry.get_pay_info(&id_a), PayResolutionRecord { amount: 5, deadline: 20 });
    assert_eq!(registry.get_pay_info(&id_b), PayResolutionRecord { amount: 9, deadline: 30 });
    registry.set_pay_amount(&id_a, 6);
    assert_eq!(registry.get_pay_info(&id_a), PayResolutionRecord { amount: 6, deadline: 20 });
}
