//! Fixed-width fields of untrusted byte strings.

use vstd::prelude::*;

verus! {

/// The number that `bytes` spell in base 256, least significant byte first.
pub open spec fn le_value(bytes: Seq<u8>) -> nat
    decreases bytes.len(),
{
    if bytes.len() == 0 {
        0
    } else {
        bytes[0] as nat + 256 * le_value(bytes.skip(1))
    }
}

/// 256 to the power of `n`.
pub open spec fn pow256(n: nat) -> nat
    decreases n,
{
    if n == 0 {
        1
    } else {
        256 * pow256((n - 1) as nat)
    }
}

/// A little-endian number of `n` bytes is below 256 to the `n`.
pub proof fn le_value_bound(bytes: Seq<u8>)
    ensures
        le_value(bytes) < pow256(bytes.len()),
    decreases bytes.len(),
{
    if bytes.len() > 0 {
        le_value_bound(bytes.skip(1));
    }
}

/// 256 to the power of 8 is 2 to the power of 64, and no smaller power of
/// 256, taken 256 times, is more.
pub proof fn pow256_values()
    ensures
        pow256(8) == 0x1_0000_0000_0000_0000,
        forall|n: nat| n < 8 ==> 256 * #[trigger] pow256(n) <= 0x1_0000_0000_0000_0000,
{
    reveal_with_fuel(pow256, 9);
}

/// The signed number that eight bytes spell in two's complement, least
/// significant byte first.
pub open spec fn le_signed(bytes: Seq<u8>) -> int {
    if le_value(bytes) < 0x8000_0000_0000_0000 {
        le_value(bytes) as int
    } else {
        le_value(bytes) - 0x1_0000_0000_0000_0000
    }
}

/// Reads an unsigned little-endian number of at most eight bytes.
pub fn read_le_u64(bytes: &[u8]) -> (value: u64)
    requires
        bytes@.len() <= 8,
    ensures
        value == le_value(bytes@),
{
    let mut value: u64 = 0;
    let mut i: usize = bytes.len();
    while i > 0
        invariant
            i <= bytes@.len() <= 8,
            value == le_value(bytes@.skip(i as int)),
        decreases i,
    {
        i -= 1;
        proof {
            let rest = bytes@.skip(i + 1);
            le_value_bound(rest);
            pow256_values();
            assert(bytes@.skip(i as int).skip(1) == rest);
            assert(256 * le_value(rest) + 255 < 256 * pow256(rest.len())) by (nonlinear_arith)
                requires
                    le_value(rest) < pow256(rest.len()),
            ;
        }
        value = value * 256 + bytes[i] as u64;
    }
    proof {
        assert(bytes@.skip(0) == bytes@);
    }
    value
}

/// Reads a signed little-endian number of eight bytes.
pub fn read_le_i64(bytes: &[u8]) -> (value: i64)
    requires
        bytes@.len() == 8,
    ensures
        value == le_signed(bytes@),
{
    let unsigned: u64 = read_le_u64(bytes);
    if unsigned <= 0x7fff_ffff_ffff_ffff {
        unsigned as i64
    } else {
        let below: u64 = u64::MAX - unsigned;
        -(below as i64) - 1
    }
}

/// Copies the `N` bytes of `data` that start at `at`.
pub fn take<const N: usize>(data: &[u8], at: usize) -> (field: [u8; N])
    requires
        at + N <= data@.len(),
    ensures
        field@ == data@.subrange(at as int, at + N),
{
    let mut field: [u8; N] = [0u8; N];
    let mut i: usize = 0;
    while i < N
        invariant
            at + N <= data.len(),
            i <= N,
            field@.len() == N,
            forall|j: int| 0 <= j < i ==> field@[j] == data@[at + j],
        decreases N - i,
    {
        field[i] = data[at + i];
        i += 1;
    }
    field
}

/// Whether two byte strings are the same.
pub fn bytes_eq(a: &[u8], b: &[u8]) -> (same: bool)
    ensures
        same == (a@ == b@),
{
    if a.len() != b.len() {
        return false;
    }
    let mut i: usize = 0;
    while i < a.len()
        invariant
            a@.len() == b@.len(),
            i <= a@.len(),
            forall|j: int| 0 <= j < i ==> a@[j] == b@[j],
        decreases a@.len() - i,
    {
        if a[i] != b[i] {
            return false;
        }
        i += 1;
    }
    proof {
        assert(a@ =~= b@);
    }
    true
}

/// Copies `bytes` into a vector of their own.
pub fn to_vec(bytes: &[u8]) -> (copy: Vec<u8>)
    ensures
        copy@ == bytes@,
{
    let mut copy: Vec<u8> = Vec::new();
    let mut i: usize = 0;
    while i < bytes.len()
        invariant
            i <= bytes@.len(),
            copy@.len() == i,
            forall|j: int| 0 <= j < i ==> copy@[j] == bytes@[j],
        decreases bytes@.len() - i,
    {
        copy.push(bytes[i]);
        i += 1;
    }
    copy
}

} // verus!
