//! A Fletcher-style content digest over a prime modulus, computed in a
//! streaming fashion so that large files can be fed chunk by chunk.
use vstd::arithmetic::div_mod::{lemma_add_mod_noop_right, lemma_fundamental_div_mod};
use vstd::prelude::*;

use crate::text::push_char;

verus! {

/// The modulus of both running sums: the largest prime below 2^32.
pub const MODULUS: u64 = 4294967291;

/// The running sums `(a, b)` after consuming `bytes`: `a` starts at 1 and
/// adds each byte, `b` adds each successive value of `a`, both modulo
/// `MODULUS`.
pub open spec fn sums_of(bytes: Seq<u8>) -> (int, int)
    decreases bytes.len(),
{
    if bytes.len() == 0 {
        (1, 0)
    } else {
        let (a, b) = sums_of(bytes.drop_last());
        let a2 = (a + bytes.last()) % (MODULUS as int);
        (a2, (b + a2) % (MODULUS as int))
    }
}

/// The plain sum of all bytes.
pub open spec fn byte_sum(bytes: Seq<u8>) -> int
    decreases bytes.len(),
{
    if bytes.len() == 0 {
        0
    } else {
        byte_sum(bytes.drop_last()) + bytes.last()
    }
}

/// `16^n`.
pub open spec fn pow16(n: nat) -> nat
    decreases n,
{
    if n == 0 {
        1
    } else {
        16 * pow16((n - 1) as nat)
    }
}

/// The lower-case hexadecimal digit for `d`, for `d` below 16.
pub open spec fn hex_char(d: int) -> char {
    if d < 10 {
        ((d + 48) as u8) as char
    } else {
        ((d + 87) as u8) as char
    }
}

/// The `n` least significant hexadecimal digits of `x`, most significant first.
pub open spec fn hex_digits(x: nat, n: nat) -> Seq<char>
    decreases n,
{
    if n == 0 {
        Seq::empty()
    } else {
        hex_digits(x / 16, (n - 1) as nat).push(hex_char((x % 16) as int))
    }
}

/// The digest of `bytes` as text: eight hex digits of `b`, then eight of `a`.
pub open spec fn checksum_text(bytes: Seq<u8>) -> Seq<char> {
    let (a, b) = sums_of(bytes);
    hex_digits(b as nat, 8) + hex_digits(a as nat, 8)
}

proof fn lemma_first_sum(bytes: Seq<u8>)
    ensures
        sums_of(bytes).0 == (1 + byte_sum(bytes)) % (MODULUS as int),
    decreases bytes.len(),
{
    if bytes.len() > 0 {
        let rest = bytes.drop_last();
        lemma_first_sum(rest);
        lemma_add_mod_noop_right(bytes.last() as int, 1 + byte_sum(rest), MODULUS as int);
    }
}

proof fn lemma_sum_differs_by_one_byte(s1: Seq<u8>, s2: Seq<u8>, i: int)
    requires
        s1.len() == s2.len(),
        0 <= i < s1.len(),
        forall|j: int| 0 <= j < s1.len() && j != i ==> s1[j] == s2[j],
    ensures
        byte_sum(s2) - byte_sum(s1) == s2[i] - s1[i],
    decreases s1.len(),
{
    let n = s1.len() - 1;
    if i == n {
        assert(s1.drop_last() =~= s2.drop_last());
    } else {
        lemma_sum_differs_by_one_byte(s1.drop_last(), s2.drop_last(), i);
    }
}

proof fn lemma_hex_len(x: nat, n: nat)
    ensures
        hex_digits(x, n).len() == n,
    decreases n,
{
    if n > 0 {
        lemma_hex_len(x / 16, (n - 1) as nat);
    }
}

proof fn lemma_hex_injective(x: nat, y: nat, n: nat)
    requires
        x < pow16(n),
        y < pow16(n),
        hex_digits(x, n) == hex_digits(y, n),
    ensures
        x == y,
    decreases n,
{
    if n > 0 {
        let p = pow16((n - 1) as nat);
        let hx = hex_digits(x, n);
        let hy = hex_digits(y, n);
        assert(hx.drop_last() == hy.drop_last());
        assert(hx.last() == hy.last());
        assert(hx.drop_last() =~= hex_digits(x / 16, (n - 1) as nat));
        assert(hy.drop_last() =~= hex_digits(y / 16, (n - 1) as nat));
        assert(x / 16 < p) by (nonlinear_arith)
            requires
                x < 16 * p,
        ;
        assert(y / 16 < p) by (nonlinear_arith)
            requires
                y < 16 * p,
        ;
        lemma_hex_injective(x / 16, y / 16, (n - 1) as nat);
        assert(x % 16 == y % 16);
        lemma_fundamental_div_mod(x as int, 16);
        lemma_fundamental_div_mod(y as int, 16);
    } else {
        assert(pow16(0) == 1);
    }
}

/// Byte-identical inputs have equal digests.
pub proof fn lemma_checksum_deterministic(s1: Seq<u8>, s2: Seq<u8>)
    requires
        s1 == s2,
    ensures
        checksum_text(s1) == checksum_text(s2),
{
}

/// Two inputs of equal length that differ in exactly one byte have
/// different digests.
pub proof fn lemma_checksum_detects_one_byte(s1: Seq<u8>, s2: Seq<u8>, i: int)
    requires
        s1.len() == s2.len(),
        0 <= i < s1.len(),
        s1[i] != s2[i],
        forall|j: int| 0 <= j < s1.len() && j != i ==> s1[j] == s2[j],
    ensures
        checksum_text(s1) != checksum_text(s2),
{
    let m = MODULUS as int;
    let x = 1 + byte_sum(s1);
    let y = 1 + byte_sum(s2);
    lemma_first_sum(s1);
    lemma_first_sum(s2);
    lemma_sum_differs_by_one_byte(s1, s2, i);
    let a1 = sums_of(s1).0;
    let a2 = sums_of(s2).0;
    let b1 = sums_of(s1).1;
    let b2 = sums_of(s2).1;
    assert(x % m != y % m) by {
        lemma_fundamental_div_mod(x, m);
        lemma_fundamental_div_mod(y, m);
        let d = y - x;
        assert(d != 0 && -256 < d < 256);
        if x % m == y % m {
            assert(d == m * (y / m) - m * (x / m));
            assert(d == m * (y / m - x / m)) by (nonlinear_arith)
                requires
                    d == m * (y / m) - m * (x / m),
            ;
            assert(false) by (nonlinear_arith)
                requires
                    d == m * (y / m - x / m),
                    d != 0,
                    -256 < d < 256,
                    m == 4294967291,
            ;
        }
    }
    if checksum_text(s1) == checksum_text(s2) {
        lemma_hex_len(a1 as nat, 8);
        lemma_hex_len(a2 as nat, 8);
        lemma_hex_len(b1 as nat, 8);
        lemma_hex_len(b2 as nat, 8);
        let t1 = checksum_text(s1);
        let t2 = checksum_text(s2);
        assert(t1.subrange(8, 16) =~= hex_digits(a1 as nat, 8));
        assert(t2.subrange(8, 16) =~= hex_digits(a2 as nat, 8));
        reveal_with_fuel(pow16, 9);
        assert(pow16(8) == 4294967296);
        lemma_hex_injective(a1 as nat, a2 as nat, 8);
    }
}

fn hex_digit(d: u64) -> (c: char)
    requires
        d < 16,
    ensures
        c == hex_char(d as int),
{
    if d < 10 {
        ((d + 48) as u8) as char
    } else {
        ((d + 87) as u8) as char
    }
}

fn push_hex(s: &mut String, x: u64, n: u64)
    ensures
        final(s)@ == old(s)@ + hex_digits(x as nat, n as nat),
    decreases n,
{
    if n > 0 {
        push_hex(s, x / 16, n - 1);
        push_char(s, hex_digit(x % 16));
        assert(hex_digits(x as nat, n as nat) == hex_digits((x / 16) as nat, (n - 1) as nat).push(
            hex_char((x % 16) as int),
        ));
    } else {
        assert(hex_digits(x as nat, 0) =~= Seq::<char>::empty());
    }
}

/// A digest being computed over bytes fed to it in chunks.
pub struct Checksum {
    a: u64,
    b: u64,
    fed: Ghost<Seq<u8>>,
}

impl Checksum {
    /// The bytes consumed so far.
    pub closed spec fn consumed(&self) -> Seq<u8> {
        self.fed@
    }

    #[verifier::type_invariant]
    spec fn sums_match(&self) -> bool {
        &&& self.a as int == sums_of(self.fed@).0
        &&& self.b as int == sums_of(self.fed@).1
    }

    /// A digest that has consumed nothing.
    pub fn new() -> (r: Checksum)
        ensures
            r.consumed() == Seq::<u8>::empty(),
    {
        Checksum { a: 1, b: 0, fed: Ghost(Seq::empty()) }
    }

    /// Consumes `chunk` after the bytes consumed so far.
    pub fn update(&mut self, chunk: &[u8])
        ensures
            final(self).consumed() == old(self).consumed() + chunk@,
    {
        proof {
            use_type_invariant(&*self);
        }
        let mut a = self.a;
        let mut b = self.b;
        let ghost start = self.fed@;
        let n = chunk.len();
        let mut i: usize = 0;
        while i < n
            invariant
                n == chunk@.len(),
                i <= n,
                a as int == sums_of(start + chunk@.subrange(0, i as int)).0,
                b as int == sums_of(start + chunk@.subrange(0, i as int)).1,
            decreases n - i,
        {
            proof {
                let prev = start + chunk@.subrange(0, i as int);
                let next = start + chunk@.subrange(0, i as int + 1);
                assert(next.drop_last() =~= prev);
                assert(next.last() == chunk@[i as int]);
            }
            a = (a + chunk[i] as u64) % MODULUS;
            b = (b + a) % MODULUS;
            i = i + 1;
        }
        proof {
            assert(chunk@.subrange(0, n as int) =~= chunk@);
        }
        *self = Checksum { a, b, fed: Ghost(start + chunk@) };
    }

    /// The digest of everything consumed so far, as text.
    pub fn finish(&self) -> (r: String)
        ensures
            r@ == checksum_text(self.consumed()),
    {
        proof {
            use_type_invariant(self);
        }
        let mut s = String::new();
        push_hex(&mut s, self.b, 8);
        push_hex(&mut s, self.a, 8);
        s
    }
}

/// The digest of `bytes`, as text.
pub fn checksum(bytes: &[u8]) -> (r: String)
    ensures
        r@ == checksum_text(bytes@),
{
    let mut c = Checksum::new();
    c.update(bytes);
    proof {
        assert(Seq::<u8>::empty() + bytes@ =~= bytes@);
    }
    c.finish()
}

} // verus!
