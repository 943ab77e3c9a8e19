//! Text helpers: lowercasing, substring search and decimal rendering of
//! fixed-point numbers.
use vstd::prelude::*;

verus! {

/// What `str::to_lowercase` returns for a text: its lowercase equivalent
/// under the Unicode `Lowercase` property, independent of any locale.
pub uninterp spec fn lowercase(s: Seq<char>) -> Seq<char>;

/// Every character of the text is ASCII.
pub open spec fn is_ascii_text(s: Seq<char>) -> bool {
    forall|k: int| 0 <= k < s.len() ==> (#[trigger] s[k]) as u32 <= 0x7f
}

/// An ASCII letter `A` to `Z` made lowercase; any other character unchanged.
pub open spec fn ascii_lower(c: char) -> char {
    if 'A' <= c && c <= 'Z' { ((c as u32) + 32) as char } else { c }
}

/// Calls `str::to_lowercase`. The result is a function of the input text
/// alone, named [`lowercase`]; on an ASCII text, Unicode lowercasing turns
/// `A`-`Z` into `a`-`z` and keeps every other character.
#[verifier::external_body]
pub(crate) fn to_lowercase(s: &str) -> (r: String)
    ensures
        r@ == lowercase(s@),
        is_ascii_text(s@) ==> r@ == s@.map_values(|c: char| ascii_lower(c)),
{
    s.to_lowercase()
}

/// `needle` occurs in `hay` starting at position `i`.
pub open spec fn occurs_at(hay: Seq<char>, needle: Seq<char>, i: int) -> bool {
    &&& 0 <= i
    &&& i + needle.len() <= hay.len()
    &&& forall|j: int| 0 <= j < needle.len() ==> hay[i + j] == needle[j]
}

/// `needle` occurs somewhere in `hay` (as `str::contains` decides).
pub open spec fn contains_text(hay: Seq<char>, needle: Seq<char>) -> bool {
    exists|i: int| occurs_at(hay, needle, i)
}

/// The characters of a text, one by one.
fn chars_of(s: &str) -> (v: Vec<char>)
    ensures
        v@ == s@,
{
    let n = s.unicode_len();
    let mut v: Vec<char> = Vec::new();
    let mut i: usize = 0;
    while i < n
        invariant
            n == s@.len(),
            i <= n,
            v@ == s@.subrange(0, i as int),
        decreases n - i,
    {
        let c = s.get_char(i);
        v.push(c);
        i = i + 1;
        assert(v@ =~= s@.subrange(0, i as int));
    }
    assert(v@ =~= s@);
    v
}

/// Whether `needle` occurs in `hay`.
pub fn str_contains(hay: &str, needle: &str) -> (r: bool)
    ensures
        r == contains_text(hay@, needle@),
{
    let h = chars_of(hay);
    let w = chars_of(needle);
    let hn = h.len();
    let wn = w.len();
    if wn > hn {
        assert forall|i: int| !occurs_at(hay@, needle@, i) by {}
        return false;
    }
    let mut i: usize = 0;
    while i <= hn - wn
        invariant
            h@ == hay@,
            w@ == needle@,
            hn == h@.len(),
            wn == w@.len(),
            wn <= hn,
            i <= hn - wn + 1,
            forall|k: int| 0 <= k < i ==> !occurs_at(hay@, needle@, k),
        decreases hn - wn + 1 - i,
    {
        let mut j: usize = 0;
        let mut same = true;
        while j < wn
            invariant
                h@ == hay@,
                w@ == needle@,
                hn == h@.len(),
                wn == w@.len(),
                i + wn <= hn,
                j <= wn,
                same ==> forall|m: int| 0 <= m < j ==> hay@[i + m] == needle@[m],
                !same ==> !occurs_at(hay@, needle@, i as int),
            decreases wn - j,
        {
            if h[i + j] != w[j] {
                same = false;
            }
            j = j + 1;
        }
        if same {
            assert(occurs_at(hay@, needle@, i as int));
            return true;
        }
        i = i + 1;
    }
    assert forall|k: int| !occurs_at(hay@, needle@, k) by {
        if 0 <= k < i {
        }
    }
    false
}

/// The decimal digit `d` (0 to 9) as a character.
pub open spec fn digit(d: int) -> char {
    if d == 0 { '0' }
    else if d == 1 { '1' }
    else if d == 2 { '2' }
    else if d == 3 { '3' }
    else if d == 4 { '4' }
    else if d == 5 { '5' }
    else if d == 6 { '6' }
    else if d == 7 { '7' }
    else if d == 8 { '8' }
    else { '9' }
}

/// The decimal notation of `n`, without leading zeros.
pub open spec fn decimal(n: nat) -> Seq<char>
    decreases n,
{
    if n < 10 {
        seq![digit(n as int)]
    } else {
        decimal(n / 10).push(digit((n % 10) as int))
    }
}

/// The last `width` decimal digits of `n`, with leading zeros.
pub open spec fn zero_padded(n: nat, width: nat) -> Seq<char>
    decreases width,
{
    if width == 0 {
        seq![]
    } else {
        zero_padded(n / 10, (width - 1) as nat).push(digit((n % 10) as int))
    }
}

/// The first `width` digits of the `width`-digit fraction `f`, with the
/// trailing zeros dropped.
pub open spec fn fraction_digits(f: nat, width: nat) -> Seq<char>
    decreases width,
{
    if width > 0 && f % 10 == 0 {
        fraction_digits(f / 10, (width - 1) as nat)
    } else {
        zero_padded(f, width)
    }
}

/// `-` for a negative number, nothing otherwise.
pub open spec fn sign_text(negative: bool) -> Seq<char> {
    if negative { seq!['-'] } else { seq![] }
}

/// The shortest decimal notation of the fixed-point number `x` (millionths):
/// its integer part, then, if the fraction is not nil, a point and the
/// fraction's digits without trailing zeros. This is how `{}` prints the
/// number the fixed-point value stands for (5.0 prints as `5`, 3.25 as `3.25`).
pub open spec fn fixed_text(x: int) -> Seq<char> {
    let a = if x < 0 { -x } else { x };
    sign_text(x < 0) + decimal((a / 1_000_000) as nat) + if a % 1_000_000 == 0 {
        seq![]
    } else {
        seq!['.'] + fraction_digits((a % 1_000_000) as nat, 6)
    }
}

/// The magnitude `a` (millionths) rounded to hundredths, ties to even.
pub open spec fn hundredths(a: nat) -> nat {
    let q = a / 10_000;
    let r = a % 10_000;
    if r > 5_000 || (r == 5_000 && q % 2 == 1) {
        q + 1
    } else {
        q
    }
}

/// The fixed-point number `x` (millionths) with exactly two decimals,
/// rounded half to even, as `{:.2}` prints it.
pub open spec fn fixed2_text(x: int) -> Seq<char> {
    let a = if x < 0 { -x } else { x };
    let h = hundredths(a as nat);
    sign_text(x < 0) + decimal(h / 100) + seq!['.'] + zero_padded(h % 100, 2)
}

/// Appends the digit `d`.
fn push_digit(s: &mut String, d: u128)
    requires
        d < 10,
    ensures
        final(s)@ == old(s)@.push(digit(d as int)),
{
    let t: &str = if d == 0 {
        "0"
    } else if d == 1 {
        "1"
    } else if d == 2 {
        "2"
    } else if d == 3 {
        "3"
    } else if d == 4 {
        "4"
    } else if d == 5 {
        "5"
    } else if d == 6 {
        "6"
    } else if d == 7 {
        "7"
    } else if d == 8 {
        "8"
    } else {
        "9"
    };
    proof {
        reveal_strlit("0");
        reveal_strlit("1");
        reveal_strlit("2");
        reveal_strlit("3");
        reveal_strlit("4");
        reveal_strlit("5");
        reveal_strlit("6");
        reveal_strlit("7");
        reveal_strlit("8");
        reveal_strlit("9");
    }
    assert(t@ =~= seq![digit(d as int)]);
    s.append(t);
}

/// Appends the decimal notation of `n`.
pub fn append_decimal(s: &mut String, n: u128)
    ensures
        final(s)@ == old(s)@ + decimal(n as nat),
    decreases n,
{
    if n >= 10 {
        append_decimal(s, n / 10);
    }
    push_digit(s, n % 10);
    assert(final(s)@ =~= old(s)@ + decimal(n as nat)) by {
        if n < 10 {
            assert(n % 10 == n);
        }
    }
}

/// Appends the last `width` digits of `n`, with leading zeros.
pub fn append_zero_padded(s: &mut String, n: u128, width: u128)
    ensures
        final(s)@ == old(s)@ + zero_padded(n as nat, width as nat),
    decreases width,
{
    if width > 0 {
        append_zero_padded(s, n / 10, width - 1);
        push_digit(s, n % 10);
        assert(final(s)@ =~= old(s)@ + zero_padded(n as nat, width as nat));
    } else {
        assert(final(s)@ =~= old(s)@ + zero_padded(n as nat, width as nat));
    }
}

/// Appends the fraction `f` of `width` digits without its trailing zeros.
fn append_fraction(s: &mut String, f: u128, width: u128)
    ensures
        final(s)@ == old(s)@ + fraction_digits(f as nat, width as nat),
    decreases width,
{
    if width > 0 && f % 10 == 0 {
        append_fraction(s, f / 10, width - 1);
    } else {
        append_zero_padded(s, f, width);
    }
}

/// Appends `-` when `negative`.
fn append_sign(s: &mut String, negative: bool)
    ensures
        final(s)@ == old(s)@ + sign_text(negative),
{
    if negative {
        s.append("-");
        proof {
            reveal_strlit("-");
        }
        assert(final(s)@ =~= old(s)@ + sign_text(negative));
    } else {
        assert(final(s)@ =~= old(s)@ + sign_text(negative));
    }
}

/// The magnitude of `x`.
fn magnitude(x: i64) -> (a: u128)
    ensures
        a == (if x < 0 { -x } else { x as int }),
{
    if x < 0 {
        (0i128 - x as i128) as u128
    } else {
        x as u128
    }
}

/// Appends the shortest decimal notation of the fixed-point number `x`.
pub fn append_fixed(s: &mut String, x: i64)
    ensures
        final(s)@ == old(s)@ + fixed_text(x as int),
{
    let a = magnitude(x);
    let ghost s0 = s@;
    append_sign(s, x < 0);
    append_decimal(s, a / 1_000_000);
    if a % 1_000_000 != 0 {
        s.append(".");
        proof {
            reveal_strlit(".");
        }
        append_fraction(s, a % 1_000_000, 6);
    }
    assert(s@ =~= s0 + fixed_text(x as int));
}

/// Appends the number `x` (millionths) with exactly two decimals, rounded
/// half to even.
pub fn append_fixed2(s: &mut String, x: i128)
    requires
        -0x7fff_ffff_ffff_ffff_ffff_ffff_ffff_ffff <= x,
    ensures
        final(s)@ == old(s)@ + fixed2_text(x as int),
{
    let a: u128 = if x < 0 { (0 - x) as u128 } else { x as u128 };
    let q = a / 10_000;
    let r = a % 10_000;
    let h = if r > 5_000 || (r == 5_000 && q % 2 == 1) { q + 1 } else { q };
    assert(h == hundredths(a as nat));
    let ghost s0 = s@;
    append_sign(s, x < 0);
    append_decimal(s, h / 100);
    s.append(".");
    proof {
        reveal_strlit(".");
    }
    append_zero_padded(s, h % 100, 2);
    assert(s@ =~= s0 + fixed2_text(x as int));
}

} // verus!
