//! Integers as they stand in plugin channel payloads.
use vstd::prelude::*;

verus! {

/// The longest variable-length integer, in bytes.
pub const MAX_VAR_INT_BYTES: usize = 5;

/// The two's complement of `value` as an unsigned 32 bit number.
pub open spec fn unsigned(value: i32) -> nat {
    if value >= 0 {
        value as nat
    } else {
        (value + 0x1_0000_0000) as nat
    }
}

/// The 32 bit number whose two's complement is `bits`, of which the low 32 bits count.
pub open spec fn signed(bits: nat) -> i32 {
    let low = bits as int % 0x1_0000_0000;
    if low < 0x8000_0000 {
        low as i32
    } else {
        (low - 0x1_0000_0000) as i32
    }
}

/// A number in groups of seven bits, the lowest first; all bytes but the last have the high bit
/// set.
pub open spec fn groups(bits: nat) -> Seq<u8>
    decreases bits,
{
    if bits < 128 {
        seq![bits as u8]
    } else {
        seq![(bits % 128 + 128) as u8] + groups(bits / 128)
    }
}

/// `value` as a variable-length integer.
pub open spec fn var_int(value: i32) -> Seq<u8> {
    groups(unsigned(value))
}

/// The number whose groups of seven bits, the lowest first, are the low bits of `bytes`.
pub open spec fn ungroup(bytes: Seq<u8>) -> nat
    decreases bytes.len(),
{
    if bytes.len() == 0 {
        0
    } else {
        (bytes[0] as nat) % 128 + 128 * ungroup(bytes.drop_first())
    }
}

/// The length of the variable-length integer at the start of `data`, of which the first `checked`
/// bytes have the high bit set: it ends with the first byte that has not.
pub open spec fn var_int_len(data: Seq<u8>, checked: nat) -> Option<nat>
    decreases MAX_VAR_INT_BYTES - checked,
{
    if checked >= MAX_VAR_INT_BYTES || checked >= data.len() {
        None
    } else if data[checked as int] < 128 {
        Some(checked + 1)
    } else {
        var_int_len(data, checked + 1)
    }
}

/// The variable-length integer at the start of `data`: its value and its length. Of the value the
/// low 32 bits count.
pub open spec fn leading_var_int(data: Seq<u8>) -> Option<(i32, nat)> {
    match var_int_len(data, 0) {
        None => None,
        Some(len) => Some((signed(ungroup(data.take(len as int))), len)),
    }
}

/// `bits` as four bytes, the highest first.
pub open spec fn big_endian(bits: nat) -> Seq<u8> {
    seq![
        (bits / 0x100_0000 % 256) as u8,
        (bits / 0x1_0000 % 256) as u8,
        (bits / 0x100 % 256) as u8,
        (bits % 256) as u8,
    ]
}

/// The number that `value` is as unsigned 32 bit number.
fn to_unsigned(value: i32) -> (bits: u32)
    ensures
        bits == unsigned(value),
{
    if value >= 0 {
        value as u32
    } else {
        (value as i64 + 0x1_0000_0000) as u32
    }
}

/// Appends `value` as a variable-length integer.
pub fn write_var_int(out: &mut Vec<u8>, value: i32)
    ensures
        final(out)@ == old(out)@ + var_int(value),
{
    let mut rest: u32 = to_unsigned(value);
    let ghost before = out@;
    while rest >= 128
        invariant
            out@ + groups(rest as nat) == before + var_int(value),
        decreases rest,
    {
        let ghost step = out@;
        out.push((rest % 128 + 128) as u8);
        assert(out@ + groups((rest / 128) as nat) =~= step + groups(rest as nat));
        rest = rest / 128;
    }
    out.push(rest as u8);
    assert(out@ =~= before + var_int(value));
}

/// Reads the variable-length integer at the start of `data`: its value and its length.
pub fn read_var_int(data: &[u8]) -> (read: Option<(i32, usize)>)
    ensures
        match read {
            Some((value, len)) => leading_var_int(data@) == Some((value, len as nat)),
            None => leading_var_int(data@) is None,
        },
        read matches Some((value, len)) ==> 1 <= len <= MAX_VAR_INT_BYTES && len <= data@.len(),
{
    let mut bits: u64 = 0;
    let mut scale: u64 = 1;
    let mut i: usize = 0;
    while i < MAX_VAR_INT_BYTES
        invariant
            i <= MAX_VAR_INT_BYTES,
            i <= data@.len(),
            var_int_len(data@, 0) == var_int_len(data@, i as nat),
            bits == ungroup(data@.take(i as int)),
            scale == power(i as nat),
            bits < scale,
        decreases MAX_VAR_INT_BYTES - i,
    {
        if i >= data.len() {
            return None;
        }
        let byte: u8 = data[i];
        proof {
            lemma_power(i as nat);
            lemma_ungroup_push(data@.take(i as int), byte);
            assert(data@.take(i as int).push(byte) =~= data@.take(i + 1));
            assert((byte % 128) * scale <= 127 * scale) by (nonlinear_arith);
        }
        bits = bits + (byte % 128) as u64 * scale;
        scale = scale * 128;
        if byte < 128 {
            return Some((from_unsigned(bits), i + 1));
        }
        i += 1;
    }
    None
}

/// The number whose two's complement is the low 32 bits of `bits`.
fn from_unsigned(bits: u64) -> (value: i32)
    ensures
        value == signed(bits as nat),
{
    let low: u64 = bits % 0x1_0000_0000;
    if low < 0x8000_0000 {
        low as i32
    } else {
        (low as i64 - 0x1_0000_0000) as i32
    }
}

/// Appends `value` as four bytes, the highest first.
pub fn write_i32_be(out: &mut Vec<u8>, value: i32)
    ensures
        final(out)@ == old(out)@ + big_endian(unsigned(value)),
{
    let bits: u32 = to_unsigned(value);
    let ghost before = out@;
    out.push((bits / 0x100_0000 % 256) as u8);
    out.push((bits / 0x1_0000 % 256) as u8);
    out.push((bits / 0x100 % 256) as u8);
    out.push((bits % 256) as u8);
    assert(out@ =~= before + big_endian(bits as nat));
}

/// The value of one unit in the seven bit group `index`.
spec fn power(index: nat) -> nat
    decreases index,
{
    if index == 0 {
        1
    } else {
        128 * power((index - 1) as nat)
    }
}

proof fn lemma_power(index: nat)
    requires
        index < MAX_VAR_INT_BYTES,
    ensures
        power(index) <= 0x1000_0000,
        power(index + 1) == 128 * power(index),
{
    reveal_with_fuel(power, 6);
}

proof fn lemma_ungroup_push(bytes: Seq<u8>, last: u8)
    ensures
        ungroup(bytes.push(last)) == ungroup(bytes) + (last % 128) * power(bytes.len()),
    decreases bytes.len(),
{
    let more = bytes.push(last);
    let low = (last % 128) as int;
    if bytes.len() == 0 {
        assert(more.drop_first() =~= Seq::<u8>::empty());
        reveal_with_fuel(ungroup, 2);
        assert(low * 1 == low);
    } else {
        assert(more.drop_first() =~= bytes.drop_first().push(last));
        lemma_ungroup_push(bytes.drop_first(), last);
        let p = power((bytes.len() - 1) as nat);
        assert(bytes.drop_first().len() == bytes.len() - 1);
        assert(power(bytes.len()) == 128 * p);
        let u = ungroup(bytes.drop_first());
        assert(128 * (u + low * p) == 128 * u + low * (128 * p)) by (nonlinear_arith);
        assert(more[0] == bytes[0]);
    }
}

/// Reading undoes writing: a payload that starts with a number starts with that number when it is
/// read, and what follows is left over.
pub proof fn law_var_int_round_trips(value: i32, rest: Seq<u8>)
    ensures
        leading_var_int(var_int(value) + rest) == Some((value, var_int(value).len())),
        (var_int(value) + rest).skip(var_int(value).len() as int) == rest,
        1 <= var_int(value).len() <= MAX_VAR_INT_BYTES,
{
    let bits = unsigned(value);
    let data = var_int(value) + rest;
    assert(power(5) == 0x8_0000_0000) by {
        reveal_with_fuel(power, 6);
    }
    law_sign_round_trips(value);
    lemma_groups(bits, MAX_VAR_INT_BYTES as nat);
    lemma_groups_end(bits, rest, Seq::empty());
    assert(Seq::<u8>::empty() + groups(bits) + rest =~= data);
    assert(data.take(var_int(value).len() as int) =~= var_int(value));
    assert(data.skip(var_int(value).len() as int) =~= rest);
}

/// The groups of a number make up that number, and are as many as it has seven bit groups.
proof fn lemma_groups(bits: nat, count: nat)
    requires
        bits < power(count),
        1 <= count <= MAX_VAR_INT_BYTES,
    ensures
        ungroup(groups(bits)) == bits,
        1 <= groups(bits).len() <= count,
    decreases count,
{
    reveal_with_fuel(power, 2);
    reveal_with_fuel(ungroup, 2);
    if bits < 128 {
        assert(groups(bits).drop_first() =~= Seq::<u8>::empty());
    } else {
        if count == 1 {
            assert(power(1) == 128);
        }
        assert(power(count) == 128 * power((count - 1) as nat));
        lemma_groups(bits / 128, (count - 1) as nat);
        assert(groups(bits).drop_first() =~= groups(bits / 128));
        assert((groups(bits)[0] as nat) % 128 == bits % 128);
    }
}

/// A number ends with the first byte of its groups that has the high bit clear, which is their
/// last.
proof fn lemma_groups_end(bits: nat, rest: Seq<u8>, before: Seq<u8>)
    requires
        before.len() + groups(bits).len() <= MAX_VAR_INT_BYTES,
    ensures
        var_int_len(before + groups(bits) + rest, before.len()) == Some(
            before.len() + groups(bits).len(),
        ),
    decreases bits,
{
    let data = before + groups(bits) + rest;
    if bits < 128 {
        assert(data[before.len() as int] == bits);
    } else {
        let first = (bits % 128 + 128) as u8;
        assert(data[before.len() as int] == first);
        assert(groups(bits).len() == 1 + groups(bits / 128).len());
        lemma_groups_end(bits / 128, rest, before.push(first));
        assert(before.push(first) + groups(bits / 128) + rest =~= data);
    }
}

/// The number that four bytes are, the highest first.
pub open spec fn from_big_endian(bytes: Seq<u8>) -> nat {
    (bytes[0] * 0x100_0000 + bytes[1] * 0x1_0000 + bytes[2] * 0x100 + bytes[3]) as nat
}

/// Four bytes, the highest first, make up the number that was written as such.
pub proof fn law_big_endian_round_trips(bits: nat)
    requires
        bits < 0x1_0000_0000,
    ensures
        big_endian(bits).len() == 4,
        from_big_endian(big_endian(bits)) == bits,
{
}

/// A 32 bit number is the same before and after it is taken as unsigned.
pub proof fn law_sign_round_trips(value: i32)
    ensures
        signed(unsigned(value)) == value,
        unsigned(value) < 0x1_0000_0000,
{
}

} // verus!
