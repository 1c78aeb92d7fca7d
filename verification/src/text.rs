//! Text helpers the boundary decisions are stated over: ASCII case-insensitive
//! comparison and decimal rendering.

use vstd::prelude::*;

verus! {

broadcast use vstd::string::group_string_axioms;

/// The characters of `s`, in order.
pub fn chars_of(s: &str) -> (v: Vec<char>)
    ensures
        v@ == s@,
{
    let mut v: Vec<char> = Vec::new();
    for c in it: s.chars()
        invariant
            it.seq() == s@,
            v@ == it.seq().take(it.index()),
    {
        v.push(c);
    }
    v
}

/// The code of `c` after ASCII lowercasing: `A`..`Z` become `a`..`z`, every
/// other character stays.
pub open spec fn ascii_lower(c: char) -> int {
    if 65 <= c as int <= 90 {
        c as int + 32
    } else {
        c as int
    }
}

/// `a` and `b` are equal up to ASCII case (what `str::eq_ignore_ascii_case`
/// decides).
pub open spec fn eq_ascii_case_insensitive(a: Seq<char>, b: Seq<char>) -> bool {
    &&& a.len() == b.len()
    &&& forall|i: int| 0 <= i < a.len() ==> #[trigger] ascii_lower(a[i]) == ascii_lower(b[i])
}

/// `c` is an ASCII letter.
pub open spec fn is_ascii_letter(c: char) -> bool {
    (65 <= c as int <= 90) || (97 <= c as int <= 122)
}

/// `a` and `b` are the same character, or the upper and lower case of one
/// ASCII letter.
pub open spec fn same_up_to_ascii_case(a: char, b: char) -> bool {
    a == b || (is_ascii_letter(a) && is_ascii_letter(b) && (a as int - b as int == 32 || b as int - a as int == 32))
}

/// Two strings match up to ASCII case exactly when they have the same length
/// and each pair of characters is equal or is the two cases of one ASCII
/// letter; so distinct digits, punctuation or non-ASCII characters never match.
pub proof fn eq_ascii_case_insensitive_law(a: Seq<char>, b: Seq<char>)
    ensures
        eq_ascii_case_insensitive(a, b) <==> (a.len() == b.len() && forall|i: int|
            0 <= i < a.len() ==> #[trigger] same_up_to_ascii_case(a[i], b[i])),
{
    if eq_ascii_case_insensitive(a, b) {
        assert forall|i: int| 0 <= i < a.len() implies #[trigger] same_up_to_ascii_case(a[i], b[i]) by {
            assert(ascii_lower(a[i]) == ascii_lower(b[i]));
            char_case_law(a[i], b[i]);
        }
    }
    if a.len() == b.len() && forall|i: int| 0 <= i < a.len() ==> #[trigger] same_up_to_ascii_case(a[i], b[i]) {
        assert forall|i: int| 0 <= i < a.len() implies #[trigger] ascii_lower(a[i]) == ascii_lower(b[i]) by {
            assert(same_up_to_ascii_case(a[i], b[i]));
            char_case_law(a[i], b[i]);
        }
    }
}

/// Two characters have the same ASCII lowercase exactly when they are equal or
/// are the two cases of one ASCII letter.
proof fn char_case_law(x: char, y: char)
    ensures
        (ascii_lower(x) == ascii_lower(y)) <==> same_up_to_ascii_case(x, y),
{
    if ascii_lower(x) == ascii_lower(y) && x != y {
        assert(x as int != y as int);
    }
    if same_up_to_ascii_case(x, y) && x == y {
        assert(x as int == y as int);
    }
}

fn lower_code(c: char) -> (code: u32)
    ensures
        code == ascii_lower(c),
{
    let u = c as u32;
    if 65 <= u && u <= 90 {
        u + 32
    } else {
        u
    }
}

/// Compare `a[lo..hi]` with `b` up to ASCII case.
pub fn range_eq_ignore_ascii_case(a: &Vec<char>, lo: usize, hi: usize, b: &Vec<char>) -> (eq: bool)
    requires
        lo <= hi <= a@.len(),
    ensures
        eq == eq_ascii_case_insensitive(a@.subrange(lo as int, hi as int), b@),
{
    if hi - lo != b.len() {
        return false;
    }
    let mut i: usize = 0;
    while i < b.len()
        invariant
            lo <= hi <= a@.len(),
            hi - lo == b@.len(),
            i <= b@.len(),
            forall|j: int| 0 <= j < i ==> ascii_lower(a@[lo + j]) == ascii_lower(b@[j]),
        decreases b@.len() - i,
    {
        if lower_code(a[lo + i]) != lower_code(b[i]) {
            assert(ascii_lower(a@.subrange(lo as int, hi as int)[i as int]) != ascii_lower(b@[i as int]));
            return false;
        }
        i = i + 1;
    }
    assert forall|j: int| 0 <= j < b@.len() implies #[trigger] ascii_lower(a@.subrange(lo as int, hi as int)[j])
        == ascii_lower(b@[j]) by {
        assert(a@.subrange(lo as int, hi as int)[j] == a@[lo + j]);
    }
    true
}

/// `str::eq_ignore_ascii_case`.
pub fn eq_ignore_ascii_case(a: &str, b: &str) -> (eq: bool)
    ensures
        eq == eq_ascii_case_insensitive(a@, b@),
        eq == (a@.len() == b@.len() && forall|i: int|
            0 <= i < a@.len() ==> #[trigger] same_up_to_ascii_case(a@[i], b@[i])),
{
    proof {
        eq_ascii_case_insensitive_law(a@, b@);
    }
    let av = chars_of(a);
    let bv = chars_of(b);
    let eq = range_eq_ignore_ascii_case(&av, 0, av.len(), &bv);
    assert(av@.subrange(0, av@.len() as int) =~= av@);
    eq
}

/// The decimal digits of `n`, most significant first (`"0"` for zero).
pub open spec fn decimal(n: nat) -> Seq<char>
    decreases n,
{
    if n < 10 {
        seq![digit_char(n)]
    } else {
        decimal(n / 10).push(digit_char(n % 10))
    }
}

/// The character of the digit `d`.
pub open spec fn digit_char(d: nat) -> char {
    (48 + d) as char
}

/// The number a string of decimal digits stands for.
pub open spec fn digits_value(s: Seq<char>) -> int
    decreases s.len(),
{
    if s.len() == 0 {
        0
    } else {
        digits_value(s.drop_last()) * 10 + (s.last() as int - 48)
    }
}

/// Every character of a decimal rendering is a digit, and the rendering
/// stands for the number it renders; so two different numbers never render
/// alike.
pub proof fn decimal_digits_and_value(n: nat)
    ensures
        forall|i: int| 0 <= i < decimal(n).len() ==> 48 <= #[trigger] decimal(n)[i] as int <= 57,
        digits_value(decimal(n)) == n,
        decimal(n).len() > 0,
    decreases n,
{
    if n < 10 {
        assert(digit_char(n) as int == 48 + n);
        assert(decimal(n).drop_last() =~= Seq::<char>::empty());
        assert(digits_value(decimal(n)) == digits_value(decimal(n).drop_last()) * 10 + (decimal(n).last() as int - 48));
    } else {
        decimal_digits_and_value(n / 10);
        let d = decimal(n);
        assert(digit_char(n % 10) as int == 48 + n % 10);
        assert(d.drop_last() =~= decimal(n / 10));
        assert(d.last() == digit_char(n % 10));
        assert(d.len() == decimal(n / 10).len() + 1);
        assert(digits_value(d) == digits_value(d.drop_last()) * 10 + (d.last() as int - 48));
        assert(digits_value(d) == (n / 10) * 10 + n % 10);
        assert forall|i: int| 0 <= i < d.len() implies 48 <= #[trigger] d[i] as int <= 57 by {
            if i < d.len() - 1 {
                assert(d[i] == decimal(n / 10)[i]);
            }
        }
    }
}

/// Different numbers have different decimal renderings.
pub proof fn decimal_injective(a: nat, b: nat)
    requires
        decimal(a) == decimal(b),
    ensures
        a == b,
{
    decimal_digits_and_value(a);
    decimal_digits_and_value(b);
}

/// `n` in decimal.
pub fn to_decimal(n: u64) -> (s: String)
    ensures
        s@ == decimal(n as nat),
{
    let mut digits: Vec<char> = Vec::new();
    let mut m: u64 = n;
    // digits holds the low digits of n, least significant first
    while m >= 10
        invariant
            decimal(n as nat) == decimal(m as nat) + digits@.reverse(),
        decreases m,
    {
        let c = (48u8 + (m % 10) as u8) as char;
        proof {
            assert(decimal(m as nat) == decimal((m / 10) as nat).push(digit_char((m % 10) as nat)));
        }
        let ghost before = digits@;
        digits.push(c);
        assert(digits@.reverse() =~= seq![c] + before.reverse());
        assert(decimal(n as nat) =~= decimal((m / 10) as nat) + digits@.reverse());
        m = m / 10;
    }
    let c = (48u8 + m as u8) as char;
    let ghost before = digits@;
    digits.push(c);
    assert(digits@.reverse() =~= seq![c] + before.reverse());
    assert(decimal(n as nat) =~= digits@.reverse());
    let mut s = String::new();
    let mut i: usize = digits.len();
    while i > 0
        invariant
            i <= digits@.len(),
            s@ == digits@.reverse().take(digits@.len() - i),
            decimal(n as nat) =~= digits@.reverse(),
        decreases i,
    {
        i = i - 1;
        let ghost before = s@;
        s = push_char(s, digits[i]);
        assert(digits@.reverse().take(digits@.len() - i) =~= before.push(digits@[i as int]));
    }
    s
}

/// `String::push`: `s` with `c` appended at its end, as its documentation
/// says; nothing more is claimed.
#[verifier::external_body]
fn push_char(mut s: String, c: char) -> (t: String)
    ensures
        t@ == s@.push(c),
{
    s.push(c);
    s
}

} // verus!
