use vstd::prelude::*;
use vstd::string::StrSliceExecFns;

verus! {

/// The name of what `str::to_lowercase` returns for a text.
pub uninterp spec fn str_to_lowercase(s: Seq<char>) -> Seq<char>;

/// ASCII lowercasing of one character.
pub open spec fn ascii_lower(c: char) -> char {
    if 'A' <= c && c <= 'Z' {
        ((c as int) + 32) as char
    } else {
        c
    }
}

/// The text with `A`..`Z` lowercased; this is what `str::to_lowercase`
/// gives for an ASCII text.
pub open spec fn ascii_lowercase(s: Seq<char>) -> Seq<char> {
    s.map_values(|c: char| ascii_lower(c))
}

/// What `s.to_lowercase()` is known to give: ASCII lowercasing on an ASCII
/// text, the named Unicode lowercasing otherwise.
pub open spec fn lowercase_spec(s: Seq<char>) -> Seq<char> {
    if vstd::utf8::is_ascii_chars(s) {
        ascii_lowercase(s)
    } else {
        str_to_lowercase(s)
    }
}

/// Lowercases a text with `str::to_lowercase`.
/// Claims: the result is the named lowercasing of the text.
#[verifier::external_body]
fn unicode_lowercase(s: &str) -> (r: String)
    ensures
        r@ == str_to_lowercase(s@),
{
    s.to_lowercase()
}

/// Whether two texts are equal.
pub fn str_eq(a: &str, b: &str) -> (r: bool)
    ensures
        r == (a@ == b@),
{
    let x = a.to_owned();
    let y = b.to_owned();
    x == y
}

/// Whether an optional text is present and equal to `s`
/// (`opt.as_deref() == Some(s)`).
pub fn opt_str_eq(opt: &Option<String>, s: &str) -> (r: bool)
    ensures
        r == (opt matches Some(x) && x@ == s@),
{
    match opt {
        Some(x) => str_eq(x.as_str(), s),
        None => false,
    }
}

/// Whether the ASCII lowercasing of the ASCII text `s` equals `t`.
fn ascii_lower_eq(s: &str, t: &str) -> (r: bool)
    requires
        vstd::utf8::is_ascii_chars(s@),
    ensures
        r == (ascii_lowercase(s@) == t@),
{
    let n = s.unicode_len();
    let m = t.unicode_len();
    if n != m {
        assert(ascii_lowercase(s@).len() != t@.len());
        return false;
    }
    let mut i: usize = 0;
    while i < n
        invariant
            n == s@.len(),
            m == t@.len(),
            n == m,
            i <= n,
            vstd::utf8::is_ascii_chars(s@),
            forall|j: int| 0 <= j < i ==> ascii_lower(#[trigger] s@[j]) == t@[j],
        decreases n - i,
    {
        let c = s.get_char(i);
        let d = t.get_char(i);
        let lowered: u32 = if 'A' <= c && c <= 'Z' {
            (c as u32) + 32
        } else {
            c as u32
        };
        if lowered != d as u32 {
            assert(ascii_lowercase(s@)[i as int] != t@[i as int]);
            return false;
        }
        assert(ascii_lower(c) == d);
        i = i + 1;
    }
    assert(ascii_lowercase(s@) =~= t@);
    true
}

/// Whether `s.to_lowercase() == t`.
pub fn lowercase_eq(s: &str, t: &str) -> (r: bool)
    ensures
        r == (lowercase_spec(s@) == t@),
{
    if s.is_ascii() {
        ascii_lower_eq(s, t)
    } else {
        let l = unicode_lowercase(s);
        str_eq(l.as_str(), t)
    }
}

} // verus!

verus! {

/// The character of a decimal digit.
pub open spec fn digit_char(d: nat) -> char {
    (d + 48) as char
}

/// The decimal digits of `n`, most significant first; none for zero.
pub open spec fn digits(n: nat) -> Seq<char>
    decreases n,
{
    if n == 0 {
        seq![]
    } else {
        digits(n / 10).push(digit_char(n % 10))
    }
}

/// Appends a character with `String::push`.
/// Claims: the text afterwards is the text before followed by the character.
#[verifier::external_body]
pub(crate) fn push_char(s: &mut String, c: char)
    ensures
        final(s)@ == old(s)@.push(c),
{
    s.push(c);
}

/// The decimal digits of `n`.
pub fn digit_chars(n: u128) -> (r: Vec<char>)
    ensures
        r@ == digits(n as nat),
{
    let mut acc: Vec<char> = Vec::new();
    let mut m: u128 = n;
    assert(acc@ =~= Seq::<char>::empty());
    assert(digits(n as nat) =~= digits(m as nat) + acc@);
    while m > 0
        invariant
            digits(n as nat) == digits(m as nat) + acc@,
        decreases m,
    {
        let d: u8 = (m % 10) as u8;
        let c: char = (d + 48) as char;
        let ghost old_acc = acc@;
        assert(digits(m as nat) == digits((m / 10) as nat).push(digit_char((m % 10) as nat)));
        acc.insert(0, c);
        assert(acc@ =~= seq![c] + old_acc);
        assert(digits((m / 10) as nat).push(c) + old_acc =~= digits((m / 10) as nat) + acc@);
        m = m / 10;
    }
    assert(digits(m as nat) =~= Seq::<char>::empty());
    assert(digits(n as nat) =~= acc@);
    acc
}

} // verus!
