//! Byte strings: little-endian numbers, copies, comparison; numbers as text.
use vstd::arithmetic::div_mod::lemma_div_denominator;
use vstd::prelude::*;

verus! {

/// The lowest `width` bytes of `n`, the lowest byte first.
pub open spec fn le_bytes(n: nat, width: nat) -> Seq<u8>
    decreases width,
{
    if width == 0 {
        Seq::empty()
    } else {
        seq![(n % 256) as u8] + le_bytes(n / 256, (width - 1) as nat)
    }
}

/// The number that a byte string stands for, its first byte being the lowest.
pub open spec fn le_value(s: Seq<u8>) -> nat
    decreases s.len(),
{
    if s.len() == 0 {
        0
    } else {
        s[0] as nat + 256 * le_value(s.drop_first())
    }
}

/// How many numbers `width` bytes can tell apart.
pub open spec fn le_capacity(width: nat) -> nat
    decreases width,
{
    if width == 0 {
        1
    } else {
        256 * le_capacity((width - 1) as nat)
    }
}

/// A number in decimal digits, the highest first.
pub open spec fn decimal(n: nat) -> Seq<char>
    decreases n,
{
    let digit = (0x30 + n % 10) as char;
    if n < 10 {
        seq![digit]
    } else {
        decimal(n / 10).push(digit)
    }
}

pub proof fn lemma_le_bytes_len(n: nat, width: nat)
    ensures
        le_bytes(n, width).len() == width,
    decreases width,
{
    if width > 0 {
        lemma_le_bytes_len(n / 256, (width - 1) as nat);
    }
}

/// Each byte of a number stands for its own power of 256, the lowest first.
pub proof fn law_le_bytes_digits(n: nat, width: nat, i: int)
    requires
        0 <= i < width,
    ensures
        le_bytes(n, width).len() == width,
        le_bytes(n, width)[i] == (n / le_capacity(i as nat)) % 256,
    decreases width,
{
    lemma_le_bytes_len(n, width);
    lemma_le_bytes_len(n / 256, (width - 1) as nat);
    if i > 0 {
        let rest = le_bytes(n / 256, (width - 1) as nat);
        law_le_bytes_digits(n / 256, (width - 1) as nat, i - 1);
        assert(le_bytes(n, width)[i] == rest[i - 1]);
        lemma_le_capacity_positive((i - 1) as nat);
        lemma_div_denominator(n as int, 256, le_capacity((i - 1) as nat) as int);
        assert(le_capacity(i as nat) == 256 * le_capacity((i - 1) as nat));
    } else {
        assert(le_capacity(0) == 1);
        assert(n / 1 == n);
    }
}

proof fn lemma_le_capacity_positive(width: nat)
    ensures
        le_capacity(width) > 0,
    decreases width,
{
    if width > 0 {
        lemma_le_capacity_positive((width - 1) as nat);
    }
}

/// A number written in enough bytes is read back unchanged.
pub proof fn law_le_bytes_read_back(n: nat, width: nat)
    requires
        n < le_capacity(width),
    ensures
        le_value(le_bytes(n, width)) == n,
    decreases width,
{
    if width > 0 {
        law_le_bytes_read_back(n / 256, (width - 1) as nat);
        let s = le_bytes(n, width);
        assert(s.drop_first() =~= le_bytes(n / 256, (width - 1) as nat));
    }
}

pub proof fn lemma_le_value_fits(s: Seq<u8>)
    ensures
        le_value(s) < le_capacity(s.len()),
    decreases s.len(),
{
    if s.len() > 0 {
        lemma_le_value_fits(s.drop_first());
    }
}

/// A number that was read is written back as the bytes it was read from.
pub proof fn law_le_value_written_back(s: Seq<u8>)
    ensures
        le_bytes(le_value(s), s.len()) == s,
    decreases s.len(),
{
    if s.len() > 0 {
        let rest = s.drop_first();
        law_le_value_written_back(rest);
        assert(le_value(s) % 256 == s[0]);
        assert(le_value(s) / 256 == le_value(rest));
        assert(seq![s[0]] + rest =~= s);
    }
}

pub proof fn lemma_le_capacity_4()
    ensures
        le_capacity(4) == 0x1_0000_0000,
{
    reveal_with_fuel(le_capacity, 5);
}

pub proof fn lemma_le_capacity_16()
    ensures
        le_capacity(16) == 0x1_0000_0000_0000_0000_0000_0000_0000_0000,
{
    reveal_with_fuel(le_capacity, 17);
}

/// The 16 bytes in which a token amount is stored in a cell.
pub fn amount_bytes(amount: u128) -> (r: Vec<u8>)
    ensures
        r@ == le_bytes(amount as nat, 16),
{
    let mut r: Vec<u8> = Vec::new();
    let mut rest: u128 = amount;
    let mut i: usize = 0;
    while i < 16
        invariant
            i <= 16,
            r@ + le_bytes(rest as nat, (16 - i) as nat) == le_bytes(amount as nat, 16),
        decreases 16 - i,
    {
        let ghost before = r@;
        let ghost old_rest = rest;
        let low: u8 = (rest % 256) as u8;
        r.push(low);
        rest = rest / 256;
        i = i + 1;
        assert(r@ + le_bytes(rest as nat, (16 - i) as nat) =~= before + le_bytes(
            old_rest as nat,
            (16 - i + 1) as nat,
        ));
    }
    assert(r@ + Seq::<u8>::empty() =~= r@);
    r
}

/// A copy of a byte string.
pub fn copy_bytes(s: &[u8]) -> (r: Vec<u8>)
    ensures
        r@ == s@,
{
    let mut r: Vec<u8> = Vec::new();
    r.extend_from_slice(s);
    assert(r@ =~= s@);
    r
}

/// Whether two byte strings are the same.
pub fn same_bytes(a: &[u8], b: &[u8]) -> (r: bool)
    ensures
        r == (a@ == b@),
{
    if a.len() != b.len() {
        return false;
    }
    let mut i: usize = 0;
    while i < a.len()
        invariant
            i <= a.len(),
            a@.len() == b@.len(),
            forall|j: int| 0 <= j < i ==> a@[j] == b@[j],
        decreases a.len() - i,
    {
        if a[i] != b[i] {
            return false;
        }
        i = i + 1;
    }
    assert(a@ =~= b@);
    true
}

} // verus!
