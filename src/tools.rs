//! Text encodings of unsigned integers: the base-56 short code and plain
//! decimal digits.
use vstd::prelude::*;
use vstd::string::*;

verus! {

/// The 56 symbols of a short code, without the look-alikes `0 1 I l O o`.
pub const ALPHABET: &'static str = "23456789abcdefghijkmnpqrstuvwxyzABCDEFGHJKLMNPQRSTUVWXYZ";

/// Number of symbols in [`ALPHABET`].
pub const BASE: u64 = 56;

/// The ten decimal digit symbols.
pub const DIGITS: &'static str = "0123456789";

/// Short code of `n`: most significant base-56 symbol first, one symbol for zero.
pub open spec fn base56_spec(n: nat) -> Seq<char>
    decreases n,
{
    if n < 56 {
        seq![ALPHABET@[n as int]]
    } else {
        base56_spec(n / 56).push(ALPHABET@[(n % 56) as int])
    }
}

/// Decimal digits of `n`, without leading zeros, `"0"` for zero.
pub open spec fn decimal_spec(n: nat) -> Seq<char>
    decreases n,
{
    if n < 10 {
        seq![DIGITS@[n as int]]
    } else {
        decimal_spec(n / 10).push(DIGITS@[(n % 10) as int])
    }
}

/// True when every character of `s` is a decimal digit.
pub open spec fn all_digits(s: Seq<char>) -> bool {
    forall|i: int| 0 <= i < s.len() ==> '0' <= #[trigger] s[i] <= '9'
}

/// Value of a string of decimal digits.
pub open spec fn digits_value(s: Seq<char>) -> nat
    decreases s.len(),
{
    if s.len() == 0 {
        0
    } else {
        digits_value(s.drop_last()) * 10 + ((s.last() as u32 - '0' as u32) as nat)
    }
}

/// The one-symbol string at position `i` of an ASCII alphabet.
fn symbol(alphabet: &str, i: usize) -> (r: &str)
    requires
        alphabet.is_ascii(),
        i < alphabet@.len() < usize::MAX,
    ensures
        r@ == seq![alphabet@[i as int]],
{
    let r = alphabet.substring_ascii(i, i + 1);
    assert(r@ =~= seq![alphabet@[i as int]]);
    r
}

/// Encodes `n` as a short code over [`ALPHABET`].
pub fn encode_base56(n: u64) -> (r: String)
    ensures
        r@ == base56_spec(n as nat),
    decreases n,
{
    proof {
        reveal_strlit("23456789abcdefghijkmnpqrstuvwxyzABCDEFGHJKLMNPQRSTUVWXYZ");
    }
    if n < BASE {
        String::from_str(symbol(ALPHABET, n as usize))
    } else {
        let mut s = encode_base56(n / BASE);
        s.append(symbol(ALPHABET, (n % BASE) as usize));
        s
    }
}

/// Writes `n` in decimal.
pub fn decimal(n: u64) -> (r: String)
    ensures
        r@ == decimal_spec(n as nat),
    decreases n,
{
    proof {
        reveal_strlit("0123456789");
    }
    if n < 10 {
        String::from_str(symbol(DIGITS, n as usize))
    } else {
        let mut s = decimal(n / 10);
        s.append(symbol(DIGITS, (n % 10) as usize));
        s
    }
}

/// The short code of zero is the first symbol of the alphabet alone.
pub proof fn lemma_encode_zero()
    ensures
        base56_spec(0) == seq!['2'],
        base56_spec(0) == seq![ALPHABET@[0]],
{
    reveal_strlit("23456789abcdefghijkmnpqrstuvwxyzABCDEFGHJKLMNPQRSTUVWXYZ");
}

/// Distinct values below the base have distinct short codes.
pub proof fn lemma_encode_small_injective(n1: nat, n2: nat)
    requires
        n1 < 56,
        n2 < 56,
        n1 != n2,
    ensures
        base56_spec(n1) != base56_spec(n2),
{
    reveal_strlit("23456789abcdefghijkmnpqrstuvwxyzABCDEFGHJKLMNPQRSTUVWXYZ");
    assert(base56_spec(n1)[0] != base56_spec(n2)[0]);
}

/// True when `s` begins with `p`.
pub open spec fn starts_with(s: Seq<char>, p: Seq<char>) -> bool {
    p.len() <= s.len() && s.subrange(0, p.len() as int) == p
}

/// The number that a key suffix stands for: a non-empty run of decimal
/// digits whose value fits in 64 bits, else nothing.
pub open spec fn decimal_value(s: Seq<char>) -> Option<u64> {
    if s.len() > 0 && all_digits(s) && digits_value(s) <= u64::MAX {
        Some(digits_value(s) as u64)
    } else {
        None
    }
}

/// Compares two strings character by character.
pub fn text_eq(a: &str, b: &str) -> (r: bool)
    ensures
        r == (a@ == b@),
{
    let n = a.unicode_len();
    if n != b.unicode_len() {
        return false;
    }
    let mut i: usize = 0;
    while i < n
        invariant
            n == a@.len() == b@.len(),
            i <= n,
            a@.subrange(0, i as int) == b@.subrange(0, i as int),
        decreases n - i,
    {
        if a.get_char(i) != b.get_char(i) {
            assert(a@[i as int] != b@[i as int]);
            return false;
        }
        assert(a@.subrange(0, i + 1) =~= a@.subrange(0, i as int).push(a@[i as int]));
        assert(b@.subrange(0, i + 1) =~= b@.subrange(0, i as int).push(b@[i as int]));
        i = i + 1;
    }
    assert(a@ =~= a@.subrange(0, n as int));
    assert(b@ =~= b@.subrange(0, n as int));
    true
}

/// What follows `prefix` in `s`, when `s` begins with it.
pub fn strip_prefix<'a>(s: &'a str, prefix: &str) -> (r: Option<&'a str>)
    ensures
        match r {
            Some(rest) => starts_with(s@, prefix@) && rest@ == s@.skip(prefix@.len() as int),
            None => !starts_with(s@, prefix@),
        },
{
    let n = s.unicode_len();
    let m = prefix.unicode_len();
    if m > n {
        return None;
    }
    let head = s.substring_char(0, m);
    if !text_eq(head, prefix) {
        return None;
    }
    let rest = s.substring_char(m, n);
    assert(rest@ =~= s@.skip(m as int));
    Some(rest)
}

/// A longer run of digits is worth at least as much as its prefix.
proof fn lemma_digits_value_prefix(s: Seq<char>, k: int)
    requires
        0 <= k <= s.len(),
        all_digits(s),
    ensures
        digits_value(s.subrange(0, k)) <= digits_value(s),
    decreases s.len(),
{
    if k < s.len() {
        let d = s.drop_last();
        assert(d.subrange(0, k) =~= s.subrange(0, k));
        assert(all_digits(d));
        lemma_digits_value_prefix(d, k);
    } else {
        assert(s.subrange(0, k) =~= s);
    }
}

/// Reads a non-empty run of decimal digits that fits in a `u64`.
pub fn parse_decimal(s: &str) -> (r: Option<u64>)
    ensures
        r == decimal_value(s@),
{
    let n = s.unicode_len();
    if n == 0 {
        return None;
    }
    let mut acc: u64 = 0;
    let mut i: usize = 0;
    while i < n
        invariant
            n == s@.len(),
            i <= n,
            all_digits(s@.subrange(0, i as int)),
            acc as nat == digits_value(s@.subrange(0, i as int)),
        decreases n - i,
    {
        let c = s.get_char(i);
        let prefix = Ghost(s@.subrange(0, i + 1));
        assert(prefix@.drop_last() =~= s@.subrange(0, i as int));
        if c < '0' || c > '9' {
            assert(!all_digits(s@));
            return None;
        }
        let d = (c as u32 - '0' as u32) as u64;
        if acc > (u64::MAX - d) / 10 {
            proof {
                assert(digits_value(prefix@) > u64::MAX) by (nonlinear_arith)
                    requires
                        digits_value(prefix@) == acc * 10 + d,
                        acc > (u64::MAX - d) / 10,
                        d <= 9,
                ;
                if all_digits(s@) {
                    lemma_digits_value_prefix(s@, i + 1);
                }
            }
            return None;
        }
        assert(acc * 10 + d <= u64::MAX) by (nonlinear_arith)
            requires
                acc <= (u64::MAX - d) / 10,
                d <= 9,
        ;
        acc = acc * 10 + d;
        i = i + 1;
    }
    assert(s@.subrange(0, n as int) =~= s@);
    Some(acc)
}

} // verus!
