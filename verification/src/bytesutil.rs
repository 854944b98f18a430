use vstd::prelude::*;

verus! {

// ---------------------------------------------------------------------------
// Decimal rendering and parsing over ASCII bytes.
// ---------------------------------------------------------------------------

/// ASCII decimal digits of `n`, most significant first.
pub open spec fn spec_decimal(n: nat) -> Seq<u8>
    decreases n,
{
    if n < 10 {
        seq![(48 + n) as u8]
    } else {
        spec_decimal(n / 10).push((48 + n % 10) as u8)
    }
}

/// Every byte of `s` is an ASCII digit and `s` is non-empty.
pub open spec fn spec_is_digits(s: Seq<u8>) -> bool {
    s.len() > 0 && forall|i: int| 0 <= i < s.len() ==> 48 <= #[trigger] s[i] <= 57
}

/// Numeric value of a digit string, read most significant first.
pub open spec fn spec_digits_val(s: Seq<u8>) -> nat
    decreases s.len(),
{
    if s.len() == 0 {
        0
    } else {
        spec_digits_val(s.drop_last()) * 10 + (s.last() - 48) as nat
    }
}

/// Rendering yields digits whose value is the rendered number.
pub proof fn lemma_decimal_digits(n: nat)
    ensures
        spec_is_digits(spec_decimal(n)),
        spec_digits_val(spec_decimal(n)) == n,
    decreases n,
{
    if n < 10 {
        let s = spec_decimal(n);
        assert(s =~= seq![(48 + n) as u8]);
        assert(s.drop_last() =~= Seq::<u8>::empty());
        assert(s.last() == (48 + n) as u8);
        assert((48 + n) as u8 == 48 + n);
        assert(spec_digits_val(s) == spec_digits_val(s.drop_last()) * 10 + (s.last() - 48) as nat);
        assert(spec_digits_val(s.drop_last()) == 0);
    } else {
        lemma_decimal_digits(n / 10);
        let d = spec_decimal(n / 10);
        assert(spec_decimal(n) =~= d.push((48 + n % 10) as u8));
        assert(spec_decimal(n).drop_last() =~= d);
        assert(spec_digits_val(spec_decimal(n)) == spec_digits_val(d) * 10 + n % 10);
        assert(spec_digits_val(d) * 10 + n % 10 == (n / 10) * 10 + n % 10);
        assert((n / 10) * 10 + n % 10 == n) by (nonlinear_arith);
    }
}

/// Appends the decimal digits of `n` to `out`.
pub fn push_decimal(n: u32, out: &mut Vec<u8>)
    ensures
        final(out)@ == old(out)@ + spec_decimal(n as nat),
    decreases n,
{
    if n < 10 {
        out.push((48 + n) as u8);
        assert(out@ =~= old(out)@ + spec_decimal(n as nat));
    } else {
        push_decimal(n / 10, out);
        out.push((48 + n % 10) as u8);
        assert(out@ =~= old(out)@ + spec_decimal(n as nat));
    }
}

/// The decimal digits of `n` as a fresh byte vector.
pub fn u32_decimal(n: u32) -> (r: Vec<u8>)
    ensures
        r@ == spec_decimal(n as nat),
{
    let mut out: Vec<u8> = Vec::new();
    push_decimal(n, &mut out);
    assert(out@ =~= spec_decimal(n as nat));
    out
}

/// A longer digit prefix never has a smaller value.
proof fn lemma_digits_val_prefix_le(s: Seq<u8>, i: int)
    requires
        0 <= i <= s.len(),
        spec_is_digits(s),
    ensures
        spec_digits_val(s.subrange(0, i)) <= spec_digits_val(s),
    decreases s.len() - i,
{
    if i < s.len() {
        let t = s.subrange(0, i + 1);
        assert(t.drop_last() =~= s.subrange(0, i));
        assert(spec_digits_val(t) == spec_digits_val(s.subrange(0, i)) * 10 + (s[i] - 48) as nat);
        assert(spec_digits_val(s.subrange(0, i)) <= spec_digits_val(s.subrange(0, i)) * 10) by (nonlinear_arith);
        lemma_digits_val_prefix_le(s, i + 1);
        assert(s.subrange(0, s.len() as int) =~= s);
    } else {
        assert(s.subrange(0, i) =~= s);
    }
}

/// Parses a decimal `u32`. Returns the value exactly when the whole input
/// is a digit string whose value fits in 32 bits.
pub fn parse_u32(s: &Vec<u8>) -> (r: Option<u32>)
    ensures
        match r {
            Some(v) => spec_is_digits(s@) && spec_digits_val(s@) == v as nat,
            None => !spec_is_digits(s@) || spec_digits_val(s@) > u32::MAX as nat,
        },
{
    if s.len() == 0 {
        return None;
    }
    let mut val: u32 = 0;
    let mut i: usize = 0;
    while i < s.len()
        invariant
            0 <= i <= s@.len(),
            forall|j: int| 0 <= j < i ==> 48 <= #[trigger] s@[j] <= 57,
            val as nat == spec_digits_val(s@.subrange(0, i as int)),
        decreases s@.len() - i,
    {
        let b = s[i];
        if b < 48 || b > 57 {
            return None;
        }
        let d: u32 = (b - 48) as u32;
        if val > (u32::MAX - d) / 10 {
            proof {
                let t = s@.subrange(0, i as int + 1);
                assert(t.drop_last() =~= s@.subrange(0, i as int));
                assert(spec_digits_val(t) == val * 10 + d);
                assert(val * 10 + d > u32::MAX) by (nonlinear_arith)
                    requires
                        val > (u32::MAX - d) / 10,
                        d <= 9,
                ;
                if spec_is_digits(s@) {
                    lemma_digits_val_prefix_le(s@, i as int + 1);
                }
            }
            return None;
        }
        proof {
            let t = s@.subrange(0, i as int + 1);
            assert(t.drop_last() =~= s@.subrange(0, i as int));
            assert(val * 10 + d <= u32::MAX) by (nonlinear_arith)
                requires
                    val <= (u32::MAX - d) / 10,
                    d <= 9,
            ;
        }
        val = val * 10 + d;
        i = i + 1;
    }
    proof {
        assert(s@.subrange(0, s@.len() as int) =~= s@);
    }
    Some(val)
}

// ---------------------------------------------------------------------------
// Small byte-vector helpers.
// ---------------------------------------------------------------------------

/// Appends all of `src` to `dst`.
pub fn append_bytes(dst: &mut Vec<u8>, src: &Vec<u8>)
    ensures
        final(dst)@ == old(dst)@ + src@,
{
    let mut i: usize = 0;
    while i < src.len()
        invariant
            0 <= i <= src@.len(),
            dst@ == old(dst)@ + src@.subrange(0, i as int),
        decreases src@.len() - i,
    {
        dst.push(src[i]);
        assert(dst@ =~= old(dst)@ + src@.subrange(0, i as int + 1));
        i = i + 1;
    }
    assert(dst@ =~= old(dst)@ + src@);
}

/// Byte-for-byte equality of two vectors.
pub fn bytes_eq(a: &Vec<u8>, b: &Vec<u8>) -> (r: bool)
    ensures
        r == (a@ == b@),
{
    if a.len() != b.len() {
        assert(a@ != b@) by {
            assert(a@.len() != b@.len());
        }
        return false;
    }
    let mut i: usize = 0;
    while i < a.len()
        invariant
            0 <= i <= a@.len(),
            a@.len() == b@.len(),
            forall|j: int| 0 <= j < i ==> a@[j] == b@[j],
        decreases a@.len() - i,
    {
        if a[i] != b[i] {
            return false;
        }
        i = i + 1;
    }
    proof {
        assert(a@ =~= b@);
    }
    true
}

/// True when `p` is a prefix of `s`.
pub open spec fn spec_has_prefix(s: Seq<u8>, p: Seq<u8>) -> bool {
    s.len() >= p.len() && s.subrange(0, p.len() as int) == p
}

/// Prefix test over byte vectors.
pub fn has_prefix(s: &Vec<u8>, p: &Vec<u8>) -> (r: bool)
    ensures
        r == spec_has_prefix(s@, p@),
{
    if s.len() < p.len() {
        return false;
    }
    let mut i: usize = 0;
    while i < p.len()
        invariant
            0 <= i <= p@.len(),
            s@.len() >= p@.len(),
            forall|j: int| 0 <= j < i ==> s@[j] == p@[j],
        decreases p@.len() - i,
    {
        if s[i] != p[i] {
            assert(s@.subrange(0, p@.len() as int)[i as int] != p@[i as int]);
            return false;
        }
        i = i + 1;
    }
    proof {
        assert(s@.subrange(0, p@.len() as int) =~= p@);
    }
    true
}

/// The bytes of `s` after removing the prefix of length `n`.
pub fn suffix_from(s: &Vec<u8>, n: usize) -> (r: Vec<u8>)
    requires
        n <= s@.len(),
    ensures
        r@ == s@.subrange(n as int, s@.len() as int),
{
    let mut out: Vec<u8> = Vec::new();
    let mut i: usize = n;
    while i < s.len()
        invariant
            n <= i <= s@.len(),
            out@ == s@.subrange(n as int, i as int),
        decreases s@.len() - i,
    {
        out.push(s[i]);
        assert(out@ =~= s@.subrange(n as int, i as int + 1));
        i = i + 1;
    }
    out
}

/// True when `b` occurs anywhere in `s`.
pub open spec fn spec_contains_byte(s: Seq<u8>, b: u8) -> bool {
    exists|i: int| 0 <= i < s.len() && s[i] == b
}

/// Membership test for a single byte.
pub fn contains_byte(s: &Vec<u8>, b: u8) -> (r: bool)
    ensures
        r == spec_contains_byte(s@, b),
{
    let mut i: usize = 0;
    while i < s.len()
        invariant
            0 <= i <= s@.len(),
            forall|j: int| 0 <= j < i ==> s@[j] != b,
        decreases s@.len() - i,
    {
        if s[i] == b {
            return true;
        }
        i = i + 1;
    }
    false
}

/// Path concatenation: `a`, a slash, then `b`.
pub open spec fn spec_path_join(a: Seq<u8>, b: Seq<u8>) -> Seq<u8> {
    a + seq![47u8] + b
}

/// Joins two path fragments with a slash.
pub fn path_join(a: &Vec<u8>, b: &Vec<u8>) -> (r: Vec<u8>)
    ensures
        r@ == spec_path_join(a@, b@),
{
    let mut out: Vec<u8> = Vec::new();
    append_bytes(&mut out, a);
    out.push(47);
    append_bytes(&mut out, b);
    assert(out@ =~= spec_path_join(a@, b@));
    out
}

/// Copies a byte vector.
pub fn clone_bytes(a: &Vec<u8>) -> (r: Vec<u8>)
    ensures
        r@ == a@,
{
    let mut out: Vec<u8> = Vec::new();
    append_bytes(&mut out, a);
    assert(out@ =~= a@);
    out
}

} // verus!
