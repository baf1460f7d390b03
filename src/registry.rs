//! The values under which the custom URL scheme is registered with the
//! desktop, and how the registered program is read back from them.

use vstd::prelude::*;

verus! {

/// Where `c` first occurs in `s`, or the length of `s` when it does not.
pub open spec fn find_char(s: Seq<char>, c: char) -> int
    decreases s.len(),
{
    if s.len() == 0 {
        0
    } else if s[0] == c {
        0
    } else {
        1 + find_char(s.drop_first(), c)
    }
}

/// The text between the first and the second `"` of a command line (up to its
/// end when there is no second), or nothing when it holds no `"`.
pub open spec fn quoted_path(s: Seq<char>) -> Option<Seq<char>> {
    let i = find_char(s, '"');
    if i >= s.len() {
        None
    } else {
        let rest = s.subrange(i + 1, s.len() as int);
        Some(rest.subrange(0, find_char(rest, '"')))
    }
}

proof fn lemma_find_char(s: Seq<char>, c: char, k: int)
    requires
        0 <= k <= s.len(),
        forall|j: int| 0 <= j < k ==> s[j] != c,
        k == s.len() || s[k] == c,
    ensures
        find_char(s, c) == k,
    decreases k,
{
    if k > 0 {
        lemma_find_char(s.drop_first(), c, k - 1);
    }
}

/// The first position at or after `from` that holds `c`, or the length.
fn find_from(s: &str, from: usize, c: char) -> (k: usize)
    requires
        from <= s@.len(),
    ensures
        from <= k <= s@.len(),
        forall|j: int| from <= j < k ==> s@[j] != c,
        k == s@.len() || s@[k as int] == c,
{
    let n = s.unicode_len();
    let mut k = from;
    while k < n
        invariant
            n == s@.len(),
            from <= k <= n,
            forall|j: int| from <= j < k ==> s@[j] != c,
        decreases n - k,
    {
        if s.get_char(k) == c {
            return k;
        }
        k = k + 1;
    }
    k
}

/// The program path in a registered command line: the text between its
/// first two `"`.
pub fn registered_path(command: &str) -> (r: Option<String>)
    ensures
        match quoted_path(command@) {
            Some(p) => r matches Some(x) && x@ == p,
            None => r is None,
        },
{
    let n = command.unicode_len();
    let i = find_from(command, 0, '"');
    proof {
        lemma_find_char(command@, '"', i as int);
    }
    if i == n {
        return None;
    }
    let j = find_from(command, i + 1, '"');
    proof {
        let rest = command@.subrange(i + 1, n as int);
        lemma_find_char(rest, '"', j - (i + 1));
    }
    let p = command.substring_char(i + 1, j);
    proof {
        assert(p@ =~= command@.subrange(i + 1, n as int).subrange(0, j - (i + 1)));
    }
    Some(p.to_owned())
}

/// The values that register a URL scheme: the scheme's label, its icon, and
/// the command that opens its links with the program.
#[derive(Debug, Clone)]
pub struct SchemeRegistration {
    pub protocol_label: String,
    pub icon: String,
    pub command: String,
}

/// The values that register `scheme` as opened by the program at `path`.
pub fn scheme_registration(scheme: &str, path: &str) -> (r: SchemeRegistration)
    ensures
        r.protocol_label@ == "URL:"@ + scheme@ + " Protocol"@,
        r.icon@ == path@ + ",1"@,
        r.command@ == "\""@ + path@ + "\" \"%1\""@,
{
    let protocol_label = "URL:".to_owned().concat(scheme).concat(" Protocol");
    let icon = path.to_owned().concat(",1");
    let command = "\"".to_owned().concat(path).concat("\" \"%1\"");
    SchemeRegistration { protocol_label, icon, command }
}

/// Whether the scheme must be registered again: it is not registered, or it
/// is registered for another program.
pub fn needs_registration(registered: Option<String>, exe_path: &str) -> (r: bool)
    ensures
        r == match registered {
            Some(p) => p@ != exe_path@,
            None => true,
        },
{
    match registered {
        Some(p) => !crate::text::same_text(p.as_str(), exe_path),
        None => true,
    }
}

} // verus!
