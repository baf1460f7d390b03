//! Text helpers shared by the request surface and the session protocol.

use vstd::prelude::*;

verus! {

/// What `str::to_uppercase` makes of a text.
pub uninterp spec fn upper_of(s: Seq<char>) -> Seq<char>;

/// What `str::trim` leaves of a text.
pub uninterp spec fn trimmed_of(s: Seq<char>) -> Seq<char>;

/// Relies on `str::to_uppercase`: the result depends on the characters alone,
/// and an empty text stays empty.
#[verifier::external_body]
pub(crate) fn uppercase(s: &str) -> (r: String)
    ensures
        r@ == upper_of(s@),
        s@.len() == 0 ==> r@.len() == 0,
{
    s.to_uppercase()
}

/// Relies on `str::trim`: the text without its leading and trailing white space.
#[verifier::external_body]
pub(crate) fn trim(s: &str) -> (r: &str)
    ensures
        r@ == trimmed_of(s@),
{
    s.trim()
}

/// Whether an answer, already trimmed and upper-cased, is a "yes".
pub fn approves_normalized(answer: &str) -> (r: bool)
    ensures
        r == (answer@ == seq!['Y']),
{
    proof {
        reveal_strlit("Y");
    }
    let n = answer.unicode_len();
    if n != 1 {
        return false;
    }
    let c = answer.get_char(0);
    proof {
        if c == 'Y' {
            assert(answer@ =~= seq!['Y']);
        }
    }
    c == 'Y'
}

/// Whether a raw answer typed by the local user grants a request: once trimmed
/// and upper-cased it must read `Y`.
pub fn approves(raw_answer: &str) -> (r: bool)
    ensures
        r == (upper_of(trimmed_of(raw_answer@)) == seq!['Y']),
{
    let t = trim(raw_answer);
    let u = uppercase(t);
    approves_normalized(u.as_str())
}

/// Whether two texts hold the same characters.
pub fn same_text(a: &str, b: &str) -> (r: bool)
    ensures
        r == (a@ == b@),
{
    let n = a.unicode_len();
    if n != b.unicode_len() {
        return false;
    }
    let mut i: usize = 0;
    while i < n
        invariant
            n == a@.len(),
            n == b@.len(),
            0 <= i <= n,
            forall|j: int| 0 <= j < i ==> a@[j] == b@[j],
        decreases n - i,
    {
        if a.get_char(i) != b.get_char(i) {
            return false;
        }
        i = i + 1;
    }
    proof {
        assert(a@ =~= b@);
    }
    true
}

/// Where the last `/`-separated segment of a path begins: just after its last
/// `/`, or at its start when it has none.
pub open spec fn segment_start(s: Seq<char>) -> int
    decreases s.len(),
{
    if s.len() == 0 {
        0
    } else if s.last() == '/' {
        s.len() as int
    } else {
        segment_start(s.drop_last())
    }
}

/// The last `/`-separated segment of a path.
pub open spec fn last_segment_of(s: Seq<char>) -> Seq<char> {
    s.subrange(segment_start(s), s.len() as int)
}

/// The last `/`-separated segment of a path (all of it when it holds no `/`).
pub fn last_segment(path: &str) -> (r: &str)
    ensures
        r@ == last_segment_of(path@),
{
    let n = path.unicode_len();
    let mut i: usize = n;
    proof {
        assert(path@.subrange(0, n as int) =~= path@);
    }
    loop
        invariant
            n == path@.len(),
            0 <= i <= n,
            segment_start(path@) == segment_start(path@.subrange(0, i as int)),
        ensures
            0 <= i <= n,
            segment_start(path@) == i,
        decreases i,
    {
        if i == 0 {
            proof {
                assert(path@.subrange(0, 0).len() == 0);
            }
            break;
        }
        if path.get_char(i - 1) == '/' {
            proof {
                assert(path@.subrange(0, i as int).last() == '/');
            }
            break;
        }
        proof {
            assert(path@.subrange(0, i as int).drop_last() =~= path@.subrange(0, i - 1));
        }
        i = i - 1;
    }
    path.substring_char(i, n)
}

/// What `str::split_whitespace` cuts a text into.
pub uninterp spec fn words_of(s: Seq<char>) -> Seq<Seq<char>>;

/// Relies on `str::split_whitespace`: the white-space separated words of a text, in order.
#[verifier::external_body]
pub(crate) fn split_words(s: &str) -> (r: Vec<String>)
    ensures
        r@.len() == words_of(s@).len(),
        forall|i: int| 0 <= i < r@.len() ==> #[trigger] r@[i]@ == words_of(s@)[i],
{
    s.split_whitespace().map(String::from).collect()
}

/// Whether a character is an ASCII decimal digit.
pub open spec fn is_digit(c: char) -> bool {
    '0' <= c <= '9'
}

/// The number that a sequence of decimal digits spells.
pub open spec fn digits_value(s: Seq<char>) -> nat
    decreases s.len(),
{
    if s.len() == 0 {
        0
    } else {
        digits_value(s.drop_last()) * 10 + (s.last() as nat - '0' as nat) as nat
    }
}

/// The digits of an unsigned decimal text, without its optional leading `+`.
pub open spec fn unsigned_digits(s: Seq<char>) -> Seq<char> {
    if s.len() > 0 && s[0] == '+' {
        s.drop_first()
    } else {
        s
    }
}

/// The `usize` that a text spells in decimal: an optional `+`, then at least
/// one digit, and a value that fits.
pub open spec fn usize_value(s: Seq<char>) -> Option<usize> {
    let d = unsigned_digits(s);
    if d.len() > 0 && (forall|i: int| 0 <= i < d.len() ==> is_digit(#[trigger] d[i]))
        && digits_value(d) <= usize::MAX {
        Some(digits_value(d) as usize)
    } else {
        None
    }
}

/// Relies on `<usize as FromStr>::from_str`: decimal digits after an optional `+`,
/// refused when empty, when any other character occurs, or on overflow.
#[verifier::external_body]
pub(crate) fn parse_usize(s: &str) -> (r: Option<usize>)
    ensures
        r == usize_value(s@),
{
    s.parse::<usize>().ok()
}

} // verus!
