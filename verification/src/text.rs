//! Small string helpers: decimal rendering of integers and concatenation.
use vstd::prelude::*;
use vstd::utf8::encode_utf8;

verus! {

/// The character of a decimal digit.
pub open spec fn digit_char(d: nat) -> char
    recommends
        d < 10,
{
    (48 + d) as char
}

/// Decimal digits of `n`, most significant first, without leading zeros
/// (and `"0"` for zero).
pub open spec fn decimal(n: nat) -> Seq<char>
    decreases n,
{
    if n < 10 {
        seq![digit_char(n)]
    } else {
        decimal(n / 10).push(digit_char(n % 10))
    }
}

/// Appends one character to a string.
///
/// Calls `String::push`, whose documentation says it appends the given
/// `char` to the end of the string.
#[verifier::external_body]
fn push_char(s: &mut String, c: char)
    ensures
        final(s)@ == old(s)@.push(c),
{
    s.push(c);
}

/// Digits of `n` in reverse order (least significant first).
spec fn reversed_decimal(n: nat) -> Seq<char>
    decreases n,
{
    if n < 10 {
        seq![digit_char(n)]
    } else {
        seq![digit_char(n % 10)] + reversed_decimal(n / 10)
    }
}

proof fn lemma_reversed_decimal(n: nat)
    ensures
        reversed_decimal(n).reverse() =~= decimal(n),
        reversed_decimal(n).len() >= 1,
    decreases n,
{
    if n >= 10 {
        lemma_reversed_decimal(n / 10);
        let tail = reversed_decimal(n / 10);
        let whole = seq![digit_char(n % 10)] + tail;
        assert(whole.reverse() =~= tail.reverse().push(digit_char(n % 10)));
    }
}

/// The decimal rendering of `n`, as `to_string` prints it.
pub fn u64_to_decimal(n: u64) -> (r: String)
    ensures
        r@ == decimal(n as nat),
{
    let mut digits: Vec<char> = Vec::new();
    let mut m: u64 = n;
    loop
        invariant_except_break
            reversed_decimal(n as nat) =~= digits@ + reversed_decimal(m as nat),
        ensures
            digits@ =~= reversed_decimal(n as nat),
        decreases m,
    {
        let d = (m % 10) as u32;
        let c = (48 + d) as u8 as char;
        assert(c == digit_char((m % 10) as nat));
        digits.push(c);
        if m < 10 {
            assert(reversed_decimal(m as nat) =~= seq![c]);
            assert(digits@ =~= reversed_decimal(n as nat));
            break;
        }
        assert(reversed_decimal(m as nat) =~= seq![c] + reversed_decimal((m / 10) as nat));
        m = m / 10;
    }
    proof {
        lemma_reversed_decimal(n as nat);
    }
    let mut out = String::new();
    let mut k: usize = digits.len();
    while k > 0
        invariant
            k <= digits@.len(),
            out@ =~= digits@.subrange(k as int, digits@.len() as int).reverse(),
            digits@ =~= reversed_decimal(n as nat),
        decreases k,
    {
        k = k - 1;
        let c = digits[k];
        push_char(&mut out, c);
        assert(digits@.subrange(k as int, digits@.len() as int) =~= seq![c] + digits@.subrange(
            k + 1,
            digits@.len() as int,
        ));
    }
    assert(digits@.subrange(0, digits@.len() as int) =~= digits@);
    out
}

/// `prefix` followed by `rest`.
pub fn concat_str(prefix: &str, rest: &str) -> (r: String)
    ensures
        r@ == prefix@ + rest@,
{
    let mut s = String::from_str(prefix);
    s.append(rest);
    s
}

/// Whether two strings hold the same characters.
pub fn str_eq(a: &str, b: &str) -> (r: bool)
    ensures
        r == (a@ == b@),
{
    let x = a.as_bytes();
    let y = b.as_bytes();
    proof {
        vstd::utf8::encode_utf8_decode_utf8(a@);
        vstd::utf8::encode_utf8_decode_utf8(b@);
    }
    if x.len() != y.len() {
        return false;
    }
    let mut i: usize = 0;
    while i < x.len()
        invariant
            x@ == encode_utf8(a@),
            y@ == encode_utf8(b@),
            x@.len() == y@.len(),
            i <= x@.len(),
            forall|j: int| 0 <= j < i ==> x@[j] == y@[j],
        decreases x@.len() - i,
    {
        if x[i] != y[i] {
            return false;
        }
        i = i + 1;
    }
    assert(x@ =~= y@);
    true
}

/// The text of an optional borrowed string.
pub open spec fn opt_text(o: Option<&str>) -> Option<Seq<char>> {
    match o {
        Some(s) => Some(s@),
        None => None,
    }
}

/// The text of an optional owned string.
pub open spec fn opt_string_text(o: Option<String>) -> Option<Seq<char>> {
    match o {
        Some(s) => Some(s@),
        None => None,
    }
}

} // verus!
