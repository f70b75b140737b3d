//! Fixed-width integers on the wire, in either byte order.

use vstd::prelude::*;

verus! {

/// The order in which the bytes of a multi-byte integer travel.
#[derive(Clone, Copy, Debug, PartialEq, Eq, Structural)]
pub enum ByteOrder {
    /// Most significant byte first (network order).
    BigEndian,
    /// Least significant byte first.
    LittleEndian,
}

/// The `len` bytes of `x`, most significant first.
pub open spec fn be_bytes(x: nat, len: nat) -> Seq<u8>
    decreases len,
{
    if len == 0 {
        Seq::empty()
    } else {
        be_bytes(x / 256, (len - 1) as nat).push((x % 256) as u8)
    }
}

/// The number that the bytes `b` spell, most significant first.
pub open spec fn be_value(b: Seq<u8>) -> nat
    decreases b.len(),
{
    if b.len() == 0 {
        0
    } else {
        be_value(b.drop_last()) * 256 + b.last() as nat
    }
}

/// `256` to the power `len`: one more than the largest number `len` bytes hold.
pub open spec fn byte_limit(len: nat) -> nat
    decreases len,
{
    if len == 0 {
        1
    } else {
        256 * byte_limit((len - 1) as nat)
    }
}

/// The `len` bytes of `x` in the given order.
pub open spec fn int_bytes(order: ByteOrder, x: nat, len: nat) -> Seq<u8> {
    match order {
        ByteOrder::BigEndian => be_bytes(x, len),
        ByteOrder::LittleEndian => be_bytes(x, len).reverse(),
    }
}

/// The number that the bytes `b` spell in the given order.
pub open spec fn int_value(order: ByteOrder, b: Seq<u8>) -> nat {
    match order {
        ByteOrder::BigEndian => be_value(b),
        ByteOrder::LittleEndian => be_value(b.reverse()),
    }
}

/// `be_bytes` yields exactly `len` bytes.
pub proof fn lemma_be_bytes_len(x: nat, len: nat)
    ensures
        be_bytes(x, len).len() == len,
    decreases len,
{
    if len > 0 {
        lemma_be_bytes_len(x / 256, (len - 1) as nat);
    }
}

/// A number below `byte_limit(len)` is read back from its `len` bytes.
pub proof fn lemma_be_round_trip(x: nat, len: nat)
    requires
        x < byte_limit(len),
    ensures
        be_value(be_bytes(x, len)) == x,
    decreases len,
{
    if len > 0 {
        let rest = be_bytes(x / 256, (len - 1) as nat);
        lemma_be_round_trip(x / 256, (len - 1) as nat);
        assert(be_bytes(x, len).drop_last() =~= rest);
        assert(be_bytes(x, len).last() == (x % 256) as u8);
    }
}

/// Bytes are read back from the number they spell.
pub proof fn lemma_be_bytes_of_value(b: Seq<u8>)
    ensures
        be_value(b) < byte_limit(b.len()),
        be_bytes(be_value(b), b.len()) == b,
    decreases b.len(),
{
    if b.len() > 0 {
        lemma_be_bytes_of_value(b.drop_last());
        let v = be_value(b);
        assert(v / 256 == be_value(b.drop_last()));
        assert(v % 256 == b.last() as nat);
        assert(be_bytes(v, b.len()) =~= b);
    } else {
        assert(be_bytes(0, 0) =~= b);
    }
}

/// In either order, a number below `byte_limit(len)` is read back from its bytes.
pub proof fn lemma_int_round_trip(order: ByteOrder, x: nat, len: nat)
    requires
        x < byte_limit(len),
    ensures
        int_bytes(order, x, len).len() == len,
        int_value(order, int_bytes(order, x, len)) == x,
{
    lemma_be_bytes_len(x, len);
    lemma_be_round_trip(x, len);
    assert(be_bytes(x, len).reverse().reverse() =~= be_bytes(x, len));
}

/// The byte of weight `byte_limit(len)` stands in front of the `len` lower ones.
pub proof fn lemma_be_bytes_front(x: nat, len: nat)
    ensures
        byte_limit(len) > 0,
        be_bytes(x, len + 1) == seq![((x / byte_limit(len)) % 256) as u8] + be_bytes(x, len),
        (x / byte_limit(len)) / 256 == x / byte_limit(len + 1),
    decreases len,
{
    if len == 0 {
        assert(be_bytes(x, 1) =~= seq![(x % 256) as u8] + be_bytes(x, 0)) by {
            reveal_with_fuel(be_bytes, 2);
        }
        assert(byte_limit(1) == 256) by {
            reveal_with_fuel(byte_limit, 2);
        }
    } else {
        let below = (len - 1) as nat;
        lemma_be_bytes_front(x / 256, below);
        let l = byte_limit(below);
        assert(byte_limit(len) == 256 * l);
        assert(byte_limit(len + 1) == 256 * byte_limit(len));
        assert((x / 256) / l == x / (256 * l)) by {
            vstd::arithmetic::div_mod::lemma_div_denominator(x as int, 256, l as int);
        }
        assert((x / byte_limit(len)) / 256 == x / byte_limit(len + 1)) by {
            vstd::arithmetic::div_mod::lemma_div_denominator(x as int, byte_limit(len) as int, 256);
            assert(byte_limit(len) * 256 == byte_limit(len + 1));
        }
        assert(be_bytes(x, len + 1) =~= seq![((x / byte_limit(len)) % 256) as u8] + be_bytes(
            x,
            len,
        ));
    }
}

/// `byte_limit` on the widths that the wire formats use.
pub proof fn lemma_byte_limits()
    ensures
        byte_limit(0) == 1,
        byte_limit(1) == 0x100,
        byte_limit(2) == 0x1_0000,
        byte_limit(3) == 0x100_0000,
        byte_limit(4) == 0x1_0000_0000,
        byte_limit(5) == 0x100_0000_0000,
        byte_limit(6) == 0x1_0000_0000_0000,
        byte_limit(7) == 0x100_0000_0000_0000,
        byte_limit(8) == 0x1_0000_0000_0000_0000,
{
    reveal_with_fuel(byte_limit, 10);
}

/// Appends the `len` low bytes of `x` to `out` in the given order.
pub fn put_uint(order: ByteOrder, x: u64, len: usize, out: &mut Vec<u8>)
    requires
        len <= 8,
    ensures
        final(out)@ == old(out)@ + int_bytes(order, x as nat, len as nat),
{
    let mut digits: Vec<u8> = Vec::new();
    let mut rest: u64 = x;
    let mut i: usize = 0;
    proof {
        assert(be_bytes(x as nat, 0).reverse() =~= Seq::<u8>::empty());
        assert(byte_limit(0) == 1);
        assert(x as nat / 1 == x as nat);
    }
    while i < len
        invariant
            i <= len,
            digits@ == be_bytes(x as nat, i as nat).reverse(),
            rest as nat == x as nat / byte_limit(i as nat),
        decreases len - i,
    {
        proof {
            lemma_be_bytes_front(x as nat, i as nat);
            lemma_be_bytes_len(x as nat, i as nat);
            let low = be_bytes(x as nat, i as nat);
            let d = ((x as nat / byte_limit(i as nat)) % 256) as u8;
            assert((seq![d] + low).reverse() =~= low.reverse().push(d));
        }
        digits.push((rest % 256) as u8);
        rest = rest / 256;
        i += 1;
    }
    proof {
        lemma_be_bytes_len(x as nat, len as nat);
    }
    match order {
        ByteOrder::LittleEndian => {
            let mut k: usize = 0;
            while k < len
                invariant
                    k <= len,
                    digits@.len() == len,
                    out@ == old(out)@ + digits@.take(k as int),
                decreases len - k,
            {
                out.push(digits[k]);
                proof {
                    assert(digits@.take(k + 1) =~= digits@.take(k as int).push(digits@[k as int]));
                }
                k += 1;
            }
            proof {
                assert(digits@.take(len as int) =~= digits@);
            }
        },
        ByteOrder::BigEndian => {
            let mut k: usize = 0;
            while k < len
                invariant
                    k <= len,
                    digits@.len() == len,
                    out@ == old(out)@ + digits@.reverse().take(k as int),
                decreases len - k,
            {
                out.push(digits[len - 1 - k]);
                proof {
                    let r = digits@.reverse();
                    assert(r.take(k + 1) =~= r.take(k as int).push(r[k as int]));
                }
                k += 1;
            }
            proof {
                let r = digits@.reverse();
                assert(r.take(len as int) =~= r);
                assert(be_bytes(x as nat, len as nat).reverse().reverse() =~= be_bytes(
                    x as nat,
                    len as nat,
                ));
            }
        },
    }
}

/// Reads the `len` bytes of `data` that start at `at` as one number.
pub fn get_uint(order: ByteOrder, data: &[u8], at: usize, len: usize) -> (r: u64)
    requires
        len <= 8,
        at + len <= data@.len(),
    ensures
        r as nat == int_value(order, data@.subrange(at as int, at + len)),
{
    let ghost field = data@.subrange(at as int, at + len);
    let ghost digits = match order {
        ByteOrder::BigEndian => field,
        ByteOrder::LittleEndian => field.reverse(),
    };
    let mut acc: u64 = 0;
    let mut i: usize = 0;
    let total: usize = data.len();
    while i < len
        invariant
            i <= len,
            len <= 8,
            at + len <= total,
            total == data@.len(),
            field == data@.subrange(at as int, at + len),
            digits == match order {
                ByteOrder::BigEndian => field,
                ByteOrder::LittleEndian => field.reverse(),
            },
            acc as nat == be_value(digits.take(i as int)),
        decreases len - i,
    {
        let b: u8 = match order {
            ByteOrder::BigEndian => data[at + i],
            ByteOrder::LittleEndian => data[at + (len - 1 - i)],
        };
        proof {
            let next = digits.take(i + 1);
            assert(next.drop_last() =~= digits.take(i as int));
            assert(next.last() == b);
            lemma_be_bytes_of_value(digits.take(i as int));
            lemma_be_bytes_of_value(next);
            lemma_byte_limits();
            lemma_byte_limit_grows(next.len(), 8);
        }
        acc = acc * 256 + b as u64;
        i += 1;
    }
    proof {
        assert(digits.take(len as int) =~= digits);
    }
    acc
}

/// `byte_limit` grows with the width.
pub proof fn lemma_byte_limit_grows(a: nat, b: nat)
    requires
        a <= b,
    ensures
        byte_limit(a) <= byte_limit(b),
        byte_limit(a) > 0,
    decreases b,
{
    if a < b {
        lemma_byte_limit_grows(a, (b - 1) as nat);
    } else if a > 0 {
        lemma_byte_limit_grows((a - 1) as nat, (a - 1) as nat);
    }
}

/// The unsigned number that stands for `x` in two's complement on `len` bytes.
pub open spec fn twos_nat(x: int, len: nat) -> nat {
    if x < 0 {
        (x + byte_limit(len)) as nat
    } else {
        x as nat
    }
}

/// The signed number that `v` stands for in two's complement on `len` bytes.
pub open spec fn twos_int(v: nat, len: nat) -> int {
    if 2 * v >= byte_limit(len) {
        v - byte_limit(len)
    } else {
        v as int
    }
}

/// The two bytes of `x`.
pub open spec fn u16_bytes(order: ByteOrder, x: u16) -> Seq<u8> {
    int_bytes(order, x as nat, 2)
}

/// The `u16` that two bytes spell.
pub open spec fn u16_value(order: ByteOrder, b: Seq<u8>) -> u16 {
    int_value(order, b) as u16
}

/// The four bytes of `x`.
pub open spec fn u32_bytes(order: ByteOrder, x: u32) -> Seq<u8> {
    int_bytes(order, x as nat, 4)
}

/// The `u32` that four bytes spell.
pub open spec fn u32_value(order: ByteOrder, b: Seq<u8>) -> u32 {
    int_value(order, b) as u32
}

/// The four bytes of `x` in two's complement.
pub open spec fn i32_bytes(order: ByteOrder, x: i32) -> Seq<u8> {
    int_bytes(order, twos_nat(x as int, 4), 4)
}

/// The `i32` that four bytes spell in two's complement.
pub open spec fn i32_value(order: ByteOrder, b: Seq<u8>) -> i32 {
    twos_int(int_value(order, b), 4) as i32
}

/// The eight bytes of `x` in two's complement.
pub open spec fn i64_bytes(order: ByteOrder, x: i64) -> Seq<u8> {
    int_bytes(order, twos_nat(x as int, 8), 8)
}

/// The `i64` that eight bytes spell in two's complement.
pub open spec fn i64_value(order: ByteOrder, b: Seq<u8>) -> i64 {
    twos_int(int_value(order, b), 8) as i64
}

/// What `len` bytes spell is below `byte_limit(len)`, in either order.
pub proof fn lemma_int_value_bound(order: ByteOrder, b: Seq<u8>)
    ensures
        int_value(order, b) < byte_limit(b.len()),
{
    lemma_be_bytes_of_value(b);
    lemma_be_bytes_of_value(b.reverse());
}

/// A `u16` is read back from its two bytes.
pub proof fn lemma_u16_round_trip(order: ByteOrder, x: u16)
    ensures
        u16_bytes(order, x).len() == 2,
        u16_value(order, u16_bytes(order, x)) == x,
{
    lemma_byte_limits();
    lemma_int_round_trip(order, x as nat, 2);
}

/// A `u32` is read back from its four bytes.
pub proof fn lemma_u32_round_trip(order: ByteOrder, x: u32)
    ensures
        u32_bytes(order, x).len() == 4,
        u32_value(order, u32_bytes(order, x)) == x,
{
    lemma_byte_limits();
    lemma_int_round_trip(order, x as nat, 4);
}

/// An `i32` is read back from its four bytes.
pub proof fn lemma_i32_round_trip(order: ByteOrder, x: i32)
    ensures
        i32_bytes(order, x).len() == 4,
        i32_value(order, i32_bytes(order, x)) == x,
{
    lemma_byte_limits();
    lemma_int_round_trip(order, twos_nat(x as int, 4), 4);
}

/// An `i64` is read back from its eight bytes.
pub proof fn lemma_i64_round_trip(order: ByteOrder, x: i64)
    ensures
        i64_bytes(order, x).len() == 8,
        i64_value(order, i64_bytes(order, x)) == x,
{
    lemma_byte_limits();
    lemma_int_round_trip(order, twos_nat(x as int, 8), 8);
}

/// Appends the two bytes of `x` to `out`.
pub fn write_u16(order: ByteOrder, x: u16, out: &mut Vec<u8>)
    ensures
        final(out)@ == old(out)@ + u16_bytes(order, x),
{
    put_uint(order, x as u64, 2, out);
}

/// Appends the four bytes of `x` to `out`.
pub fn write_u32(order: ByteOrder, x: u32, out: &mut Vec<u8>)
    ensures
        final(out)@ == old(out)@ + u32_bytes(order, x),
{
    put_uint(order, x as u64, 4, out);
}

/// Appends the four bytes of `x` to `out`.
pub fn write_i32(order: ByteOrder, x: i32, out: &mut Vec<u8>)
    ensures
        final(out)@ == old(out)@ + i32_bytes(order, x),
{
    proof {
        lemma_byte_limits();
    }
    let wide: i64 = x as i64;
    let v: u64 = if x < 0 {
        (wide + 0x1_0000_0000) as u64
    } else {
        wide as u64
    };
    put_uint(order, v, 4, out);
}

/// Appends the eight bytes of `x` to `out`.
pub fn write_i64(order: ByteOrder, x: i64, out: &mut Vec<u8>)
    ensures
        final(out)@ == old(out)@ + i64_bytes(order, x),
{
    proof {
        lemma_byte_limits();
    }
    let wide: i128 = x as i128;
    let v: u64 = if x < 0 {
        (wide + 0x1_0000_0000_0000_0000) as u64
    } else {
        wide as u64
    };
    put_uint(order, v, 8, out);
}

/// Reads the two bytes of `data` at `at` as a `u16`.
pub fn read_u16(order: ByteOrder, data: &[u8], at: usize) -> (r: u16)
    requires
        at + 2 <= data@.len(),
    ensures
        r == u16_value(order, data@.subrange(at as int, at + 2)),
{
    proof {
        lemma_byte_limits();
        lemma_int_value_bound(order, data@.subrange(at as int, at + 2));
    }
    let v: u64 = get_uint(order, data, at, 2);
    v as u16
}

/// Reads the four bytes of `data` at `at` as a `u32`.
pub fn read_u32(order: ByteOrder, data: &[u8], at: usize) -> (r: u32)
    requires
        at + 4 <= data@.len(),
    ensures
        r == u32_value(order, data@.subrange(at as int, at + 4)),
{
    proof {
        lemma_byte_limits();
        lemma_int_value_bound(order, data@.subrange(at as int, at + 4));
    }
    let v: u64 = get_uint(order, data, at, 4);
    v as u32
}

/// Reads the four bytes of `data` at `at` as an `i32`.
pub fn read_i32(order: ByteOrder, data: &[u8], at: usize) -> (r: i32)
    requires
        at + 4 <= data@.len(),
    ensures
        r == i32_value(order, data@.subrange(at as int, at + 4)),
{
    proof {
        lemma_byte_limits();
        lemma_int_value_bound(order, data@.subrange(at as int, at + 4));
    }
    let v: u64 = get_uint(order, data, at, 4);
    if v >= 0x8000_0000 {
        let wide: i64 = v as i64;
        (wide - 0x1_0000_0000) as i32
    } else {
        v as i32
    }
}

/// Reads the eight bytes of `data` at `at` as an `i64`.
pub fn read_i64(order: ByteOrder, data: &[u8], at: usize) -> (r: i64)
    requires
        at + 8 <= data@.len(),
    ensures
        r == i64_value(order, data@.subrange(at as int, at + 8)),
{
    proof {
        lemma_byte_limits();
        lemma_int_value_bound(order, data@.subrange(at as int, at + 8));
    }
    let v: u64 = get_uint(order, data, at, 8);
    if v >= 0x8000_0000_0000_0000 {
        let wide: i128 = v as i128;
        (wide - 0x1_0000_0000_0000_0000) as i64
    } else {
        v as i64
    }
}

/// Appends the bytes of `src` to `out`.
pub fn put_bytes(out: &mut Vec<u8>, src: &[u8])
    ensures
        final(out)@ == old(out)@ + src@,
{
    let n: usize = src.len();
    let mut i: usize = 0;
    while i < n
        invariant
            i <= n,
            n == src@.len(),
            out@ == old(out)@ + src@.take(i as int),
        decreases n - i,
    {
        out.push(src[i]);
        proof {
            assert(src@.take(i + 1) =~= src@.take(i as int).push(src@[i as int]));
        }
        i += 1;
    }
    proof {
        assert(src@.take(n as int) =~= src@);
    }
}

/// The bytes of `data` from `from` up to, not including, `to`.
pub fn copy_range(data: &[u8], from: usize, to: usize) -> (r: Vec<u8>)
    requires
        from <= to <= data@.len(),
    ensures
        r@ == data@.subrange(from as int, to as int),
{
    let mut r: Vec<u8> = Vec::new();
    let mut i: usize = from;
    while i < to
        invariant
            from <= i <= to,
            to <= data@.len(),
            r@ == data@.subrange(from as int, i as int),
        decreases to - i,
    {
        r.push(data[i]);
        proof {
            assert(data@.subrange(from as int, i + 1) =~= data@.subrange(
                from as int,
                i as int,
            ).push(data@[i as int]));
        }
        i += 1;
    }
    r
}

} // verus!
