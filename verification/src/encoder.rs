//! Canonical, order-preserving encoding of a conditional payment.
//!
//! The encoding is the exclusive source of a payment's identity and of the
//! message its vouched results are signed over, so it must be deterministic
//! and order-sensitive.  Fields are laid out in a fixed order: timestamp,
//! source, destination, each condition in list order (type tag, then every
//! optional field behind a one-byte presence discriminant), the transfer
//! function's logic and cap fields, the resolve deadline and the resolve
//! timeout.  Integers are little endian; length-prefixed byte vectors carry
//! a compact length.

use vstd::prelude::*;

use crate::types::AccountId;
use crate::types::Condition;
use crate::types::ConditionType;
use crate::types::ConditionalPay;
use crate::types::Digest;
use crate::types::TokenType;
use crate::types::TransferFunctionType;

verus! {

/// Little-endian encoding of a 32-bit integer.
pub open spec fn enc_u32_le(x: u32) -> Seq<u8> {
    let n = x as nat;
    seq![
        (n % 256) as u8,
        ((n / 256) % 256) as u8,
        ((n / 0x10000) % 256) as u8,
        ((n / 0x1000000) % 256) as u8,
    ]
}

/// Little-endian encoding of a 64-bit integer.
pub open spec fn enc_u64_le(x: u64) -> Seq<u8> {
    let n = x as nat;
    seq![
        (n % 256) as u8,
        ((n / 256) % 256) as u8,
        ((n / 0x10000) % 256) as u8,
        ((n / 0x1000000) % 256) as u8,
        ((n / 0x100000000) % 256) as u8,
        ((n / 0x10000000000) % 256) as u8,
        ((n / 0x1000000000000) % 256) as u8,
        ((n / 0x100000000000000) % 256) as u8,
    ]
}

/// Compact length prefix of a byte vector: the length shifted left by two,
/// with the low two bits selecting how many bytes the prefix itself takes.
pub open spec fn enc_compact_len(n: nat) -> Seq<u8> {
    if n < 64 {
        seq![(n * 4) as u8]
    } else if n < 16384 {
        let v = n * 4 + 1;
        seq![(v % 256) as u8, (v / 256) as u8]
    } else if n < 0x40000000 {
        let v = n * 4 + 2;
        seq![
            (v % 256) as u8,
            ((v / 256) % 256) as u8,
            ((v / 0x10000) % 256) as u8,
            ((v / 0x1000000) % 256) as u8,
        ]
    } else {
        seq![3u8] + enc_u32_le(n as u32)
    }
}

/// One-byte presence discriminant, then the digest's raw bytes.
pub open spec fn enc_opt_digest(o: Option<Digest>) -> Seq<u8> {
    match o {
        Option::None => seq![0u8],
        Option::Some(d) => seq![1u8] + d@,
    }
}

/// One-byte presence discriminant, then the account's raw bytes.
pub open spec fn enc_opt_account(o: Option<AccountId>) -> Seq<u8> {
    match o {
        Option::None => seq![0u8],
        Option::Some(a) => seq![1u8] + a@,
    }
}

/// One-byte presence discriminant, then a 32-bit integer.
pub open spec fn enc_opt_u32(o: Option<u32>) -> Seq<u8> {
    match o {
        Option::None => seq![0u8],
        Option::Some(x) => seq![1u8] + enc_u32_le(x),
    }
}

/// One-byte presence discriminant, then a compact length, then the bytes.
pub open spec fn enc_opt_bytes(o: Option<Seq<u8>>) -> Seq<u8> {
    match o {
        Option::None => seq![0u8],
        Option::Some(b) => seq![1u8] + enc_compact_len(b.len()) + b,
    }
}

/// Type tag of a condition.
pub open spec fn condition_type_tag(t: ConditionType) -> u8 {
    match t {
        ConditionType::HashLock => 0u8,
        ConditionType::BooleanRuntimeModule => 1u8,
        ConditionType::NumericRuntimeModule => 2u8,
    }
}

/// Type tag of a transfer function's logic kind.
pub open spec fn transfer_function_type_tag(t: TransferFunctionType) -> u8 {
    match t {
        TransferFunctionType::BooleanAnd => 0u8,
        TransferFunctionType::BooleanOr => 1u8,
        TransferFunctionType::BooleanCircuit => 2u8,
        TransferFunctionType::NumericAdd => 3u8,
        TransferFunctionType::NumericMax => 4u8,
        TransferFunctionType::NumericMin => 5u8,
    }
}

/// Type tag of a token kind.
pub open spec fn token_type_tag(t: TokenType) -> u8 {
    match t {
        TokenType::Invalid => 0u8,
        TokenType::Celer => 1u8,
    }
}

/// Encoding of one condition: type tag, then every optional field in a
/// fixed order.  Every field is fixed-size or length-prefixed, so a
/// condition's encoding is self-delimiting: no condition encodes as a
/// prefix of another's encoding.
pub open spec fn enc_condition(c: Condition) -> Seq<u8> {
    seq![condition_type_tag(c.condition_type)] + enc_opt_digest(c.hash_lock) + enc_opt_bytes(
        c.call_is_finalized.deep_view(),
    ) + enc_opt_bytes(c.call_get_outcome.deep_view()) + enc_opt_u32(c.numeric_app_num)
        + enc_opt_digest(c.numeric_session_id) + enc_opt_bytes(
        c.args_query_finalization.deep_view(),
    ) + enc_opt_bytes(c.args_query_outcome.deep_view())
}

/// Encoding of the conditions from index `i` on, in list order.
pub open spec fn enc_conditions_from(conds: Seq<Condition>, i: int) -> Seq<u8>
    decreases conds.len() - i,
{
    if i < 0 || i >= conds.len() {
        Seq::empty()
    } else {
        enc_condition(conds[i]) + enc_conditions_from(conds, i + 1)
    }
}

/// The canonical encoding of a conditional payment.
pub open spec fn spec_encode_conditional_pay(pay: ConditionalPay) -> Seq<u8> {
    enc_u64_le(pay.pay_timestamp) + pay.src@ + pay.dest@ + enc_conditions_from(pay.conditions@, 0)
        + seq![transfer_function_type_tag(pay.transfer_func.logic_type)] + seq![
        token_type_tag(pay.transfer_func.max_transfer.token.token_type),
    ] + enc_opt_account(pay.transfer_func.max_transfer.receiver.account) + enc_u64_le(
        pay.transfer_func.max_transfer.receiver.amt,
    ) + enc_u64_le(pay.resolve_deadline) + enc_u64_le(pay.resolve_timeout)
}

/// A condition is encodable when its length-prefixed byte fields fit the
/// compact length format.
pub open spec fn condition_encodable(c: Condition) -> bool {
    &&& (c.call_is_finalized is Some ==> c.call_is_finalized.unwrap()@.len() < 0x100000000)
    &&& (c.call_get_outcome is Some ==> c.call_get_outcome.unwrap()@.len() < 0x100000000)
    &&& (c.args_query_finalization is Some ==> c.args_query_finalization.unwrap()@.len()
        < 0x100000000)
    &&& (c.args_query_outcome is Some ==> c.args_query_outcome.unwrap()@.len() < 0x100000000)
}

/// A payment is encodable when each of its conditions is.
pub open spec fn pay_encodable(pay: ConditionalPay) -> bool {
    forall|i: int| 0 <= i < pay.conditions@.len() ==> condition_encodable(#[trigger] pay.conditions@[i])
}

fn push_u32_le(out: &mut Vec<u8>, x: u32)
    ensures
        final(out)@ == old(out)@ + enc_u32_le(x),
{
    out.push((x % 256) as u8);
    out.push(((x / 256) % 256) as u8);
    out.push(((x / 0x10000) % 256) as u8);
    out.push(((x / 0x1000000) % 256) as u8);
    assert(out@ =~= old(out)@ + enc_u32_le(x));
}

fn push_u64_le(out: &mut Vec<u8>, x: u64)
    ensures
        final(out)@ == old(out)@ + enc_u64_le(x),
{
    out.push((x % 256) as u8);
    out.push(((x / 256) % 256) as u8);
    out.push(((x / 0x10000) % 256) as u8);
    out.push(((x / 0x1000000) % 256) as u8);
    out.push(((x / 0x100000000) % 256) as u8);
    out.push(((x / 0x10000000000) % 256) as u8);
    out.push(((x / 0x1000000000000) % 256) as u8);
    out.push(((x / 0x100000000000000) % 256) as u8);
    assert(out@ =~= old(out)@ + enc_u64_le(x));
}

fn push_compact_len(out: &mut Vec<u8>, n: usize)
    requires
        n < 0x100000000,
    ensures
        final(out)@ == old(out)@ + enc_compact_len(n as nat),
{
    if n < 64 {
        out.push((n * 4) as u8);
        assert(out@ =~= old(out)@ + enc_compact_len(n as nat));
    } else if n < 16384 {
        let v: usize = n * 4 + 1;
        out.push((v % 256) as u8);
        out.push((v / 256) as u8);
        assert(out@ =~= old(out)@ + enc_compact_len(n as nat));
    } else if n < 0x40000000 {
        let v: usize = n * 4 + 2;
        out.push((v % 256) as u8);
        out.push(((v / 256) % 256) as u8);
        out.push(((v / 0x10000) % 256) as u8);
        out.push(((v / 0x1000000) % 256) as u8);
        assert(out@ =~= old(out)@ + enc_compact_len(n as nat));
    } else {
        out.push(3u8);
        push_u32_le(out, n as u32);
        assert(out@ =~= old(out)@ + enc_compact_len(n as nat));
    }
}

fn push_opt_digest(out: &mut Vec<u8>, o: &Option<Digest>)
    ensures
        final(out)@ == old(out)@ + enc_opt_digest(*o),
{
    match o {
        Option::None => {
            out.push(0u8);
            assert(out@ =~= old(out)@ + enc_opt_digest(*o));
        },
        Option::Some(d) => {
            out.push(1u8);
            out.extend_from_slice(d.0.as_slice());
            assert(out@ =~= old(out)@ + enc_opt_digest(*o));
        },
    }
}

fn push_opt_account(out: &mut Vec<u8>, o: &Option<AccountId>)
    ensures
        final(out)@ == old(out)@ + enc_opt_account(*o),
{
    match o {
        Option::None => {
            out.push(0u8);
            assert(out@ =~= old(out)@ + enc_opt_account(*o));
        },
        Option::Some(a) => {
            out.push(1u8);
            out.extend_from_slice(a.0.as_slice());
            assert(out@ =~= old(out)@ + enc_opt_account(*o));
        },
    }
}

fn push_opt_u32(out: &mut Vec<u8>, o: &Option<u32>)
    ensures
        final(out)@ == old(out)@ + enc_opt_u32(*o),
{
    match o {
        Option::None => {
            out.push(0u8);
            assert(out@ =~= old(out)@ + enc_opt_u32(*o));
        },
        Option::Some(x) => {
            out.push(1u8);
            push_u32_le(out, *x);
            assert(out@ =~= old(out)@ + enc_opt_u32(*o));
        },
    }
}

fn push_opt_bytes(out: &mut Vec<u8>, o: &Option<Vec<u8>>)
    requires
        o is Some ==> o.unwrap()@.len() < 0x100000000,
    ensures
        final(out)@ == old(out)@ + enc_opt_bytes(o.deep_view()),
{
    match o {
        Option::None => {
            out.push(0u8);
            assert(out@ =~= old(out)@ + enc_opt_bytes(o.deep_view()));
        },
        Option::Some(b) => {
            out.push(1u8);
            push_compact_len(out, b.len());
            out.extend_from_slice(b.as_slice());
            proof {
                assert(b.deep_view() =~= b@);
            }
            assert(out@ =~= old(out)@ + enc_opt_bytes(o.deep_view()));
        },
    }
}

/// Executable twin of [`condition_type_tag`].
fn condition_type_byte(t: &ConditionType) -> (r: u8)
    ensures
        r == condition_type_tag(*t),
{
    match t {
        ConditionType::HashLock => 0u8,
        ConditionType::BooleanRuntimeModule => 1u8,
        ConditionType::NumericRuntimeModule => 2u8,
    }
}

/// Executable twin of [`transfer_function_type_tag`].
fn transfer_function_type_byte(t: &TransferFunctionType) -> (r: u8)
    ensures
        r == transfer_function_type_tag(*t),
{
    match t {
        TransferFunctionType::BooleanAnd => 0u8,
        TransferFunctionType::BooleanOr => 1u8,
        TransferFunctionType::BooleanCircuit => 2u8,
        TransferFunctionType::NumericAdd => 3u8,
        TransferFunctionType::NumericMax => 4u8,
        TransferFunctionType::NumericMin => 5u8,
    }
}

/// Executable twin of [`token_type_tag`].
fn token_type_byte(t: &TokenType) -> (r: u8)
    ensures
        r == token_type_tag(*t),
{
    match t {
        TokenType::Invalid => 0u8,
        TokenType::Celer => 1u8,
    }
}

#[verifier::rlimit(50)]
fn push_condition(out: &mut Vec<u8>, c: &Condition)
    requires
        condition_encodable(*c),
    ensures
        final(out)@ == old(out)@ + enc_condition(*c),
{
    let tag = condition_type_byte(&c.condition_type);
    out.push(tag);
    push_opt_digest(out, &c.hash_lock);
    push_opt_bytes(out, &c.call_is_finalized);
    push_opt_bytes(out, &c.call_get_outcome);
    push_opt_u32(out, &c.numeric_app_num);
    push_opt_digest(out, &c.numeric_session_id);
    push_opt_bytes(out, &c.args_query_finalization);
    push_opt_bytes(out, &c.args_query_outcome);
    assert(out@ =~= old(out)@ + enc_condition(*c));
}

/// Produces the canonical encoding of `pay`.  Repeated calls on equal
/// payments yield equal bytes.  The bytes follow the condition list's
/// order and each condition's encoding is self-delimiting, so condition
/// order is part of a payment's identity.
pub fn encode_conditional_pay(pay: &ConditionalPay) -> (r: Vec<u8>)
    requires
        pay_encodable(*pay),
    ensures
        r@ == spec_encode_conditional_pay(*pay),
{
    let mut out: Vec<u8> = Vec::new();
    push_u64_le(&mut out, pay.pay_timestamp);
    out.extend_from_slice(pay.src.0.as_slice());
    out.extend_from_slice(pay.dest.0.as_slice());
    let ghost head = out@;
    assert(head =~= enc_u64_le(pay.pay_timestamp) + pay.src@ + pay.dest@);

    let n = pay.conditions.len();
    let mut i: usize = 0;
    while i < n
        invariant
            n == pay.conditions@.len(),
            0 <= i <= n,
            pay_encodable(*pay),
            out@ + enc_conditions_from(pay.conditions@, i as int) == head + enc_conditions_from(
                pay.conditions@,
                0,
            ),
        decreases n - i,
    {
        let ghost prev = out@;
        push_condition(&mut out, &pay.conditions[i]);
        proof {
            assert(enc_conditions_from(pay.conditions@, i as int) == enc_condition(
                pay.conditions@[i as int],
            ) + enc_conditions_from(pay.conditions@, i as int + 1));
            assert(out@ + enc_conditions_from(pay.conditions@, i as int + 1) =~= prev
                + enc_conditions_from(pay.conditions@, i as int));
        }
        i += 1;
    }
    proof {
        assert(out@ + enc_conditions_from(pay.conditions@, n as int) =~= out@);
        assert(out@ =~= head + enc_conditions_from(pay.conditions@, 0));
    }
    let ghost mid = out@;

    let logic = transfer_function_type_byte(&pay.transfer_func.logic_type);
    out.push(logic);
    let token = token_type_byte(&pay.transfer_func.max_transfer.token.token_type);
    out.push(token);
    push_opt_account(&mut out, &pay.transfer_func.max_transfer.receiver.account);
    push_u64_le(&mut out, pay.transfer_func.max_transfer.receiver.amt);
    push_u64_le(&mut out, pay.resolve_deadline);
    push_u64_le(&mut out, pay.resolve_timeout);
    assert(out@ =~= spec_encode_conditional_pay(*pay));
    out
}

} // verus!
