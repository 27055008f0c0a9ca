use vstd::prelude::*;
use vstd::arithmetic::div_mod::{
    lemma_breakdown, lemma_div_denominator, lemma_fundamental_div_mod,
    lemma_fundamental_div_mod_converse_div, lemma_mod_breakdown, lemma_mod_mod, lemma_small_mod,
};
use crate::constants::{BP, REGISTER_COUNT, SP};

verus! {

/// Condition flags set by comparisons of the virtual machine.
#[derive(Debug, Clone, Copy)]
pub struct Flags {
    pub zero: bool,
    pub positive: bool,
}

/// Byte addressed memory, register file and flags of the virtual machine.
pub struct Memory {
    pub(crate) data: Vec<u8>,
    pub(crate) registers: [u64; 16],
    pub(crate) flags: Flags,
}

/// Access widths (in bytes) that the memory supports.
pub open spec fn valid_data_size(n: u8) -> bool {
    n == 1 || n == 2 || n == 4 || n == 8
}

/// `256` to the power `n`: the number of values that `n` bytes can hold.
pub open spec fn radix_pow(n: nat) -> nat
    decreases n,
{
    if n == 0 {
        1
    } else {
        256 * radix_pow((n - 1) as nat)
    }
}

/// The unsigned number that a little-endian byte sequence denotes.
pub open spec fn le_value(bytes: Seq<u8>) -> nat
    decreases bytes.len(),
{
    if bytes.len() == 0 {
        0
    } else {
        bytes[0] as nat + 256 * le_value(bytes.drop_first())
    }
}

/// The `n` least significant bytes of `value`, least significant first.
pub open spec fn le_encode(value: nat, n: nat) -> Seq<u8> {
    Seq::new(n, |j: int| ((value / radix_pow(j as nat)) % 256) as u8)
}

/// Two's complement reading of the `n`-byte unsigned number `u`.
pub open spec fn signed_of(u: nat, n: nat) -> int {
    if 2 * u >= radix_pow(n) {
        u - radix_pow(n)
    } else {
        u as int
    }
}

/// The `n`-byte two's complement representation of `value`.
pub open spec fn twos_complement(value: int, n: nat) -> nat {
    (value % (radix_pow(n) as int)) as nat
}

/// `bytes` with the bytes from `at` on replaced by `part`.
pub open spec fn replace_range(bytes: Seq<u8>, at: int, part: Seq<u8>) -> Seq<u8> {
    bytes.subrange(0, at) + part + bytes.subrange(at + part.len(), bytes.len() as int)
}

/// The unsigned value stored little-endian at `address` over `n` bytes.
pub open spec fn read_unsigned(bytes: Seq<u8>, address: int, n: nat) -> nat {
    le_value(bytes.subrange(address, address + n))
}

/// The signed value stored little-endian at `address` over `n` bytes.
pub open spec fn read_signed(bytes: Seq<u8>, address: int, n: nat) -> int {
    signed_of(read_unsigned(bytes, address, n), n)
}

/// The register file of a fresh memory of `size` bytes.
pub open spec fn initial_registers(size: usize) -> Seq<u64> {
    Seq::new(16, |i: int| if i == SP || i == BP { size as u64 } else { 0u64 })
}

pub proof fn lemma_radix_pow_values()
    ensures
        radix_pow(0) == 1,
        radix_pow(1) == 256,
        radix_pow(2) == 65536,
        radix_pow(3) == 16777216,
        radix_pow(4) == 4294967296,
        radix_pow(5) == 1099511627776,
        radix_pow(6) == 281474976710656,
        radix_pow(7) == 72057594037927936,
        radix_pow(8) == 18446744073709551616,
{
    assert(radix_pow(0) == 1);
    assert(radix_pow(1) == 256);
    assert(radix_pow(2) == 65536);
    assert(radix_pow(3) == 16777216);
    assert(radix_pow(4) == 4294967296);
    assert(radix_pow(5) == 1099511627776);
    assert(radix_pow(6) == 281474976710656);
    assert(radix_pow(7) == 72057594037927936);
    assert(radix_pow(8) == 18446744073709551616);
}

pub proof fn lemma_radix_pow_positive(n: nat)
    ensures
        radix_pow(n) > 0,
    decreases n,
{
    if n > 0 {
        lemma_radix_pow_positive((n - 1) as nat);
    }
}

pub proof fn lemma_radix_pow_adds(a: nat, b: nat)
    ensures
        radix_pow(a + b) == radix_pow(a) * radix_pow(b),
    decreases a,
{
    if a > 0 {
        lemma_radix_pow_adds((a - 1) as nat, b);
        let ra = radix_pow((a - 1) as nat);
        let rb = radix_pow(b);
        assert(radix_pow(a + b) == 256 * radix_pow((a - 1 + b) as nat));
        assert(radix_pow(a) == 256 * ra);
        assert(256 * (ra * rb) == (256 * ra) * rb) by (nonlinear_arith);
    } else {
        assert(radix_pow(0) == 1);
    }
}

pub proof fn lemma_radix_pow_monotonic(a: nat, b: nat)
    requires
        a <= b,
    ensures
        radix_pow(a) <= radix_pow(b),
    decreases b,
{
    if a < b {
        lemma_radix_pow_monotonic(a, (b - 1) as nat);
        lemma_radix_pow_positive((b - 1) as nat);
    }
}

/// A little-endian number fits in the number of bytes that hold it.
pub proof fn lemma_le_value_bound(bytes: Seq<u8>)
    ensures
        le_value(bytes) < radix_pow(bytes.len()),
    decreases bytes.len(),
{
    if bytes.len() > 0 {
        lemma_le_value_bound(bytes.drop_first());
    }
}

/// Peeling the first byte off a range of bytes.
pub proof fn lemma_le_value_step(bytes: Seq<u8>, lo: int, hi: int)
    requires
        0 <= lo < hi <= bytes.len(),
    ensures
        le_value(bytes.subrange(lo, hi)) == bytes[lo] as nat + 256 * le_value(
            bytes.subrange(lo + 1, hi),
        ),
{
    assert(bytes.subrange(lo, hi).drop_first() =~= bytes.subrange(lo + 1, hi));
}

/// Encoding `n + 1` bytes is the lowest byte followed by `n` bytes of the quotient.
pub proof fn lemma_le_encode_step(value: nat, n: nat)
    ensures
        le_encode(value, n + 1) =~= seq![(value % 256) as u8] + le_encode(value / 256, n),
{
    assert(radix_pow(0) == 1);
    assert(value / 1 == value);
    assert forall|j: int| 0 < j < n + 1 implies #[trigger] le_encode(value, n + 1)[j] == le_encode(
        value / 256,
        n,
    )[j - 1] by {
        lemma_radix_pow_positive((j - 1) as nat);
        assert(radix_pow(j as nat) == 256 * radix_pow((j - 1) as nat));
        lemma_div_denominator(value as int, 256, radix_pow((j - 1) as nat) as int);
    }
}

/// Reading back an encoding yields the value modulo the range of the width.
pub proof fn lemma_le_value_of_encode(value: nat, n: nat)
    ensures
        le_value(le_encode(value, n)) == value % radix_pow(n),
    decreases n,
{
    if n == 0 {
        assert(le_encode(value, 0) =~= Seq::<u8>::empty());
    } else {
        let m = (n - 1) as nat;
        lemma_le_encode_step(value, m);
        assert((seq![(value % 256) as u8] + le_encode(value / 256, m)).drop_first() =~= le_encode(
            value / 256,
            m,
        ));
        lemma_le_value_of_encode(value / 256, m);
        lemma_radix_pow_positive(m);
        lemma_mod_breakdown(value as int, 256, radix_pow(m) as int);
    }
}

/// An encoding of `n` bytes only depends on the value modulo `256^m`, for `n <= m`.
pub proof fn lemma_le_encode_mod(value: nat, n: nat, m: nat)
    requires
        n <= m,
    ensures
        le_encode(value % radix_pow(m), n) =~= le_encode(value, n),
{
    assert forall|j: int| 0 <= j < n implies #[trigger] le_encode(value % radix_pow(m), n)[j]
        == le_encode(value, n)[j] by {
        let rj: int = radix_pow(j as nat) as int;
        let k = (m - j - 1) as nat;
        let rk: int = radix_pow(k) as int;
        lemma_radix_pow_positive(j as nat);
        lemma_radix_pow_positive(k);
        lemma_radix_pow_adds(j as nat, (k + 1) as nat);
        assert(radix_pow(m) == rj * (256 * rk));
        lemma_breakdown(value as int, rj, 256 * rk);
        let x = value as int;
        let q = (x / rj) % (256 * rk);
        let r = x % rj;
        assert(x % (rj * (256 * rk)) == rj * q + r);
        assert(0 <= r < rj);
        lemma_fundamental_div_mod_converse_div(x % (rj * (256 * rk)), rj, q, r);
        lemma_mod_mod(x / rj, 256, rk);
    }
}

/// Two's complement reading undoes two's complement representation for values in range.
pub proof fn lemma_signed_of_twos_complement(value: int, n: nat)
    requires
        -(radix_pow(n) as int) <= 2 * value < radix_pow(n),
    ensures
        signed_of(twos_complement(value, n), n) == value,
{
    let r = radix_pow(n) as int;
    lemma_radix_pow_positive(n);
    if value >= 0 {
        lemma_small_mod(value as nat, r as nat);
    } else {
        lemma_fundamental_div_mod_converse_mod(value, r, -1, value + r);
    }
}

pub proof fn lemma_fundamental_div_mod_converse_mod(x: int, d: int, q: int, r: int)
    requires
        d != 0,
        0 <= r < d,
        x == q * d + r,
    ensures
        r == x % d,
{
    vstd::arithmetic::div_mod::lemma_fundamental_div_mod_converse(x, d, q, r);
}

/// Law: an unsigned write followed by an unsigned read at the same place and width
/// gives back the value, truncated to the width.
pub proof fn law_read_after_write_unsigned(bytes: Seq<u8>, address: nat, value: u64, n: u8)
    requires
        valid_data_size(n),
        address + n <= bytes.len(),
    ensures
        read_unsigned(replace_range(bytes, address as int, le_encode(value as nat, n as nat)), address as int, n as nat)
            == (value as nat) % radix_pow(n as nat),
        n == 8 ==> read_unsigned(replace_range(bytes, address as int, le_encode(value as nat, n as nat)), address as int, n as nat)
            == value,
{
    let part = le_encode(value as nat, n as nat);
    assert(replace_range(bytes, address as int, part).subrange(address as int, address + n) =~= part);
    lemma_le_value_of_encode(value as nat, n as nat);
    lemma_radix_pow_values();
    if n == 8 {
        lemma_small_mod(value as nat, radix_pow(8));
    }
}

/// Law: a signed write followed by a signed read at the same place and width gives back
/// the value whenever it fits the width.
pub proof fn law_read_after_write_signed(bytes: Seq<u8>, address: nat, value: i64, n: u8)
    requires
        valid_data_size(n),
        address + n <= bytes.len(),
        -(radix_pow(n as nat) as int) <= 2 * value < radix_pow(n as nat),
    ensures
        read_signed(replace_range(bytes, address as int, le_encode(twos_complement(value as int, n as nat), n as nat)), address as int, n as nat)
            == value,
{
    let u = twos_complement(value as int, n as nat);
    let part = le_encode(u, n as nat);
    assert(replace_range(bytes, address as int, part).subrange(address as int, address + n) =~= part);
    lemma_le_value_of_encode(u, n as nat);
    lemma_radix_pow_positive(n as nat);
    assert(u < radix_pow(n as nat));
    lemma_small_mod(u, radix_pow(n as nat));
    lemma_signed_of_twos_complement(value as int, n as nat);
}

/// Law: a signed write stores the same bytes as an unsigned write of the 64-bit value with
/// the same bits (`value as u64`).
pub proof fn law_signed_write_is_unsigned_write(bytes: Seq<u8>, address: nat, value: i64, n: u8)
    requires
        valid_data_size(n),
    ensures
        replace_range(bytes, address as int, le_encode(twos_complement(value as int, n as nat), n as nat))
            == replace_range(bytes, address as int, le_encode((value as u64) as nat, n as nat)),
{
    let u = value as u64;
    assert(value >= 0 ==> u as int == value as int) by (bit_vector)
        requires
            u == value as u64,
    ;
    assert(value < 0 ==> u as int == value as int + 18446744073709551616) by (bit_vector)
        requires
            u == value as u64,
    ;
    lemma_radix_pow_values();
    let r8 = radix_pow(8) as int;
    if value >= 0 {
        lemma_small_mod(value as nat, r8 as nat);
    } else {
        lemma_fundamental_div_mod_converse_mod(value as int, r8, -1, value + r8);
    }
    assert(u as int == (value as int) % r8);
    lemma_radix_pow_adds(n as nat, (8 - n) as nat);
    lemma_radix_pow_positive(n as nat);
    lemma_radix_pow_positive((8 - n) as nat);
    lemma_mod_mod(value as int, radix_pow(n as nat) as int, radix_pow((8 - n) as nat) as int);
    assert((u as nat) % radix_pow(n as nat) == twos_complement(value as int, n as nat));
    lemma_le_encode_mod(u as nat, n as nat, n as nat);
}

/// Law: a write leaves every byte outside the written range as it was, and the length too.
pub proof fn law_write_preserves_other_bytes(bytes: Seq<u8>, address: nat, part: Seq<u8>, j: int)
    requires
        address + part.len() <= bytes.len(),
        0 <= j < bytes.len(),
        j < address || j >= address + part.len(),
    ensures
        replace_range(bytes, address as int, part).len() == bytes.len(),
        replace_range(bytes, address as int, part)[j] == bytes[j],
{
}

/// Law: reading a range of bytes right after writing it gives back what was written.
pub proof fn law_read_bytes_after_write_bytes(bytes: Seq<u8>, address: nat, part: Seq<u8>)
    requires
        address + part.len() <= bytes.len(),
    ensures
        replace_range(bytes, address as int, part).subrange(address as int, (address + part.len()) as int)
            == part,
{
    assert(replace_range(bytes, address as int, part).subrange(address as int, (address + part.len()) as int) =~= part);
}

impl Memory {
    /// The bytes of memory.
    pub closed spec fn bytes(&self) -> Seq<u8> {
        self.data@
    }

    /// The register file.
    pub closed spec fn register_values(&self) -> Seq<u64> {
        self.registers@
    }

    /// The condition flags.
    pub closed spec fn flag_values(&self) -> Flags {
        self.flags
    }

    /// A memory of `size` bytes holding `program` at address 0 and zeros after it,
    /// with the stack and base pointers at the end of memory and all flags clear.
    pub fn new(size: usize, program: Vec<u8>) -> (memory: Memory)
        requires
            program.len() <= size,
        ensures
            memory.bytes() == program@ + Seq::new((size - program.len()) as nat, |i: int| 0u8),
            memory.register_values() == initial_registers(size),
            !memory.flag_values().zero,
            !memory.flag_values().positive,
    {
        let mut data: Vec<u8> = Vec::new();
        let mut i: usize = 0;
        while i < program.len()
            invariant
                i <= program.len(),
                data@ == program@.subrange(0, i as int),
            decreases program.len() - i,
        {
            data.push(program[i]);
            i += 1;
        }
        let mut j: usize = program.len();
        while j < size
            invariant
                program.len() <= j <= size,
                data@ == program@ + Seq::new((j - program.len()) as nat, |k: int| 0u8),
            decreases size - j,
        {
            data.push(0u8);
            j += 1;
            assert(data@ =~= program@ + Seq::new((j - program.len()) as nat, |k: int| 0u8));
        }
        let mut registers: [u64; 16] = [0u64; 16];
        registers[SP] = size as u64;
        registers[BP] = size as u64;
        assert(registers@ =~= initial_registers(size));
        Memory { data, registers, flags: Flags { zero: false, positive: false } }
    }

    /// Little-endian unsigned number of `n` bytes at `address`.
    fn read_le(&self, address: usize, n: usize) -> (value: u64)
        requires
            n <= 8,
            address + n <= self.data@.len(),
        ensures
            value == read_unsigned(self.data@, address as int, n as nat),
    {
        let len = self.data.len();
        let mut value: u64 = 0;
        let mut i: usize = n;
        proof {
            lemma_radix_pow_values();
            assert(self.data@.subrange(address + n, address + n) =~= Seq::<u8>::empty());
        }
        while i > 0
            invariant
                i <= n <= 8,
                address + n <= self.data@.len(),
                len == self.data@.len(),
                value == le_value(self.data@.subrange(address + i, address + n)),
                value < radix_pow((n - i) as nat),
            decreases i,
        {
            i -= 1;
            proof {
                lemma_le_value_step(self.data@, address + i, address + n);
                lemma_radix_pow_monotonic((n - i) as nat, 8);
                lemma_radix_pow_values();
                assert(radix_pow((n - i) as nat) == 256 * radix_pow((n - i - 1) as nat));
            }
            value = value * 256 + self.data[address + i] as u64;
        }
        value
    }

    /// Unsigned number of `data_size` bytes stored little-endian at `address`.
    pub fn read_u64_le(&self, address: usize, data_size: u8) -> (value: u64)
        requires
            valid_data_size(data_size),
            address + data_size <= self.bytes().len(),
        ensures
            value == read_unsigned(self.bytes(), address as int, data_size as nat),
    {
        self.read_le(address, data_size as usize)
    }

    /// Signed (two's complement) number of `data_size` bytes stored little-endian at
    /// `address`, sign-extended.
    pub fn read_i64_le(&self, address: usize, data_size: u8) -> (value: i64)
        requires
            valid_data_size(data_size),
            address + data_size <= self.bytes().len(),
        ensures
            value == read_signed(self.bytes(), address as int, data_size as nat),
    {
        let u = self.read_le(address, data_size as usize);
        proof {
            lemma_radix_pow_values();
            lemma_le_value_bound(self.data@.subrange(address as int, address + data_size));
        }
        let full: u128 = if data_size == 1 {
            256
        } else if data_size == 2 {
            65536
        } else if data_size == 4 {
            4294967296
        } else {
            18446744073709551616
        };
        if 2 * (u as u128) >= full {
            ((u as i128) - (full as i128)) as i64
        } else {
            u as i64
        }
    }

    /// Stores the `n` low bytes of `value` little-endian at `address`.
    fn write_le(&mut self, address: usize, value: u64, n: usize)
        requires
            n <= 8,
            address + n <= old(self).data@.len(),
        ensures
            final(self).data@ == replace_range(old(self).data@, address as int, le_encode(value as nat, n as nat)),
            final(self).registers == old(self).registers,
            final(self).flags == old(self).flags,
    {
        let len = self.data.len();
        let mut v: u64 = value;
        let mut i: usize = 0;
        proof {
            assert(radix_pow(0) == 1);
            assert(value as nat / 1 == value as nat);
            assert(old(self).data@ =~= replace_range(old(self).data@, address as int, le_encode(value as nat, 0)));
        }
        while i < n
            invariant
                i <= n <= 8,
                address + n <= old(self).data@.len(),
                len == old(self).data@.len(),
                self.data@ == replace_range(old(self).data@, address as int, le_encode(value as nat, i as nat)),
                v as nat == value as nat / radix_pow(i as nat),
                self.registers == old(self).registers,
                self.flags == old(self).flags,
            decreases n - i,
        {
            let ghost before = self.data@;
            self.data.set(address + i, (v % 256) as u8);
            proof {
                lemma_radix_pow_positive(i as nat);
                lemma_div_denominator(value as int, radix_pow(i as nat) as int, 256);
                assert(radix_pow((i + 1) as nat) == radix_pow(i as nat) * 256);
                assert(self.data@ =~= replace_range(old(self).data@, address as int, le_encode(value as nat, (i + 1) as nat)));
            }
            v = v / 256;
            i += 1;
        }
    }

    /// Stores the `data_size` low bytes of `value` little-endian at `address`.
    pub fn write_u64_le(&mut self, address: usize, value: u64, data_size: u8)
        requires
            valid_data_size(data_size),
            address + data_size <= old(self).bytes().len(),
        ensures
            final(self).bytes() == replace_range(old(self).bytes(), address as int, le_encode(value as nat, data_size as nat)),
            final(self).register_values() == old(self).register_values(),
            final(self).flag_values() == old(self).flag_values(),
    {
        self.write_le(address, value, data_size as usize);
    }

    /// Stores the `data_size`-byte two's complement representation of `value`
    /// little-endian at `address`.
    pub fn write_i64_le(&mut self, address: usize, value: i64, data_size: u8)
        requires
            valid_data_size(data_size),
            address + data_size <= old(self).bytes().len(),
        ensures
            final(self).bytes() == replace_range(
                old(self).bytes(),
                address as int,
                le_encode(twos_complement(value as int, data_size as nat), data_size as nat),
            ),
            final(self).bytes() == replace_range(
                old(self).bytes(),
                address as int,
                le_encode((value as u64) as nat, data_size as nat),
            ),
            final(self).register_values() == old(self).register_values(),
            final(self).flag_values() == old(self).flag_values(),
    {
        let u: u64 = if value >= 0 {
            value as u64
        } else {
            ((value as i128) + 18446744073709551616i128) as u64
        };
        proof {
            lemma_radix_pow_values();
            let r8 = radix_pow(8) as int;
            if value >= 0 {
                lemma_small_mod(value as nat, r8 as nat);
            } else {
                lemma_fundamental_div_mod_converse_mod(value as int, r8, -1, value + r8);
            }
            assert(u as int == (value as int) % r8);
            lemma_le_encode_mod(u as nat, data_size as nat, data_size as nat);
            lemma_radix_pow_adds(data_size as nat, (8 - data_size) as nat);
            lemma_radix_pow_positive(data_size as nat);
            lemma_radix_pow_positive((8 - data_size) as nat);
            lemma_mod_mod(value as int, radix_pow(data_size as nat) as int, radix_pow((8 - data_size) as nat) as int);
            assert((u as nat) % radix_pow(data_size as nat) == twos_complement(value as int, data_size as nat));
            lemma_le_encode_mod(u as nat, data_size as nat, data_size as nat);
        }
        self.write_le(address, u, data_size as usize);
        proof {
            law_signed_write_is_unsigned_write(old(self).data@, address as nat, value, data_size);
        }
    }

    /// Copy of the `bytes` bytes at `address`.
    pub fn read_bytes(&self, address: usize, bytes: usize) -> (result: Vec<u8>)
        requires
            address + bytes <= self.bytes().len(),
        ensures
            result@ == self.bytes().subrange(address as int, address + bytes),
    {
        let len = self.data.len();
        let mut result: Vec<u8> = Vec::new();
        let mut i: usize = 0;
        while i < bytes
            invariant
                len == self.data@.len(),
                i <= bytes,
                address + bytes <= self.data@.len(),
                result@ == self.data@.subrange(address as int, address + i),
            decreases bytes - i,
        {
            result.push(self.data[address + i]);
            i += 1;
            assert(result@ =~= self.data@.subrange(address as int, address + i));
        }
        result
    }

    /// Copies `bytes` into memory at `address`.
    pub fn write_bytes(&mut self, address: usize, bytes: &[u8])
        requires
            address + bytes@.len() <= old(self).bytes().len(),
        ensures
            final(self).bytes() == replace_range(old(self).bytes(), address as int, bytes@),
            final(self).register_values() == old(self).register_values(),
            final(self).flag_values() == old(self).flag_values(),
    {
        let len = self.data.len();
        let mut i: usize = 0;
        proof {
            assert(old(self).data@ =~= replace_range(old(self).data@, address as int, bytes@.subrange(0, 0)));
        }
        while i < bytes.len()
            invariant
                len == old(self).data@.len(),
                i <= bytes@.len(),
                address + bytes@.len() <= old(self).data@.len(),
                self.data@ == replace_range(old(self).data@, address as int, bytes@.subrange(0, i as int)),
                self.registers == old(self).registers,
                self.flags == old(self).flags,
            decreases bytes@.len() - i,
        {
            self.data.set(address + i, bytes[i]);
            i += 1;
            assert(self.data@ =~= replace_range(old(self).data@, address as int, bytes@.subrange(0, i as int)));
        }
        assert(bytes@.subrange(0, bytes@.len() as int) =~= bytes@);
    }

    /// The number of bytes of memory.
    pub fn size(&self) -> (size: usize)
        ensures
            size == self.bytes().len(),
    {
        self.data.len()
    }

    /// The value held by register `index`.
    pub fn register(&self, index: usize) -> (value: u64)
        requires
            index < REGISTER_COUNT,
        ensures
            value == self.register_values()[index as int],
    {
        self.registers[index]
    }

    /// The registers read as signed numbers.
    pub fn signed_registers(&self) -> (result: Vec<i64>)
        ensures
            result@.len() == REGISTER_COUNT,
            forall|i: int| 0 <= i < REGISTER_COUNT ==> #[trigger] result@[i] == self.register_values()[i] as i64,
    {
        let mut result: Vec<i64> = Vec::new();
        let mut i: usize = 0;
        while i < REGISTER_COUNT
            invariant
                i <= REGISTER_COUNT,
                result@.len() == i,
                forall|k: int| 0 <= k < i ==> #[trigger] result@[k] == self.registers@[k] as i64,
            decreases REGISTER_COUNT - i,
        {
            result.push(self.registers[i] as i64);
            i += 1;
        }
        result
    }

    /// The bytes from the stack pointer to the end of memory, last byte first.
    pub fn stack_bytes(&self) -> (result: Vec<u8>)
        requires
            self.register_values()[SP as int] <= self.bytes().len(),
        ensures
            result@ == self.bytes().subrange(self.register_values()[SP as int] as int, self.bytes().len() as int).reverse(),
    {
        let sp = self.registers[SP] as usize;
        self.reversed_range(sp, self.data.len())
    }

    /// The bytes from the stack pointer to the base pointer, last byte first.
    pub fn stack_frame_bytes(&self) -> (result: Vec<u8>)
        requires
            self.register_values()[SP as int] <= self.register_values()[BP as int],
            self.register_values()[BP as int] <= self.bytes().len(),
        ensures
            result@ == self.bytes().subrange(
                self.register_values()[SP as int] as int,
                self.register_values()[BP as int] as int,
            ).reverse(),
    {
        let _len = self.data.len();
        let sp = self.registers[SP] as usize;
        let bp = self.registers[BP] as usize;
        self.reversed_range(sp, bp)
    }

    fn reversed_range(&self, lo: usize, hi: usize) -> (result: Vec<u8>)
        requires
            lo <= hi <= self.data@.len(),
        ensures
            result@ == self.data@.subrange(lo as int, hi as int).reverse(),
    {
        let mut result: Vec<u8> = Vec::new();
        let mut i: usize = hi;
        while i > lo
            invariant
                lo <= i <= hi <= self.data@.len(),
                result@ == self.data@.subrange(i as int, hi as int).reverse(),
            decreases i,
        {
            i -= 1;
            result.push(self.data[i]);
            assert(result@ =~= self.data@.subrange(i as int, hi as int).reverse());
        }
        result
    }
}

} // verus!
