use vstd::prelude::*;

use crate::text::has_prefix;

verus! {

/// The first position at or after `i` where `s` holds `c`, or the length of
/// `s` where there is none.
pub open spec fn index_from(s: Seq<char>, c: char, i: int) -> int
    decreases s.len() - i,
{
    if i >= s.len() {
        s.len() as int
    } else if s[i] == c {
        i
    } else {
        index_from(s, c, i + 1)
    }
}

/// The search for `c` from `i` ends within `s`, at or after `i`.
pub proof fn lemma_index_from_bounds(s: Seq<char>, c: char, i: int)
    requires
        0 <= i <= s.len(),
    ensures
        i <= index_from(s, c, i) <= s.len(),
    decreases s.len() - i,
{
    if i < s.len() && s[i] != c {
        lemma_index_from_bounds(s, c, i + 1);
    }
}

/// The first line of `s`: up to the first line feed, without a carriage
/// return that stands before that line feed.
pub open spec fn first_line(s: Seq<char>) -> Seq<char> {
    let e = index_from(s, '\n', 0);
    let raw = s.subrange(0, e);
    if e < s.len() && raw.len() > 0 && raw.last() == '\r' {
        raw.drop_last()
    } else {
        raw
    }
}

/// What follows the first line of `s` and its line feed.
pub open spec fn after_first_line(s: Seq<char>) -> Seq<char> {
    let e = index_from(s, '\n', 0);
    if e < s.len() {
        s.subrange(e + 1, s.len() as int)
    } else {
        Seq::empty()
    }
}

/// The key of the line that names the release.
pub open spec fn codename_key() -> Seq<char> {
    "VERSION_CODENAME="@
}

/// The first line of `s` that starts with the release key.
pub open spec fn codename_line(s: Seq<char>) -> Option<Seq<char>>
    decreases s.len(),
{
    if s.len() == 0 {
        None
    } else if has_prefix(first_line(s), codename_key()) {
        Some(first_line(s))
    } else {
        proof {
            lemma_index_from_bounds(s, '\n', 0);
        }
        codename_line(after_first_line(s))
    }
}

/// `s` without the double quotes at its start.
pub open spec fn trim_quotes_start(s: Seq<char>) -> Seq<char>
    decreases s.len(),
{
    if s.len() > 0 && s[0] == '"' {
        trim_quotes_start(s.drop_first())
    } else {
        s
    }
}

/// `s` without the double quotes at its end.
pub open spec fn trim_quotes_end(s: Seq<char>) -> Seq<char>
    decreases s.len(),
{
    if s.len() > 0 && s.last() == '"' {
        trim_quotes_end(s.drop_last())
    } else {
        s
    }
}

/// The value of a release line: what follows the key up to the next `=`,
/// without the quotes around it.
pub open spec fn line_value(line: Seq<char>) -> Seq<char> {
    let v = line.subrange(codename_key().len() as int, line.len() as int);
    trim_quotes_end(trim_quotes_start(v.subrange(0, index_from(v, '=', 0))))
}

/// The release code name that the OS identification text `s` gives, as written.
pub open spec fn codename(s: Seq<char>) -> Option<Seq<char>> {
    match codename_line(s) {
        Some(line) => Some(line_value(line)),
        None => None,
    }
}

fn find_from(s: &str, c: char, i: usize) -> (r: usize)
    requires
        i <= s@.len(),
    ensures
        r == index_from(s@, c, i as int),
{
    let n = s.unicode_len();
    let mut j = i;
    while j < n
        invariant
            n == s@.len(),
            i <= j <= n,
            index_from(s@, c, i as int) == index_from(s@, c, j as int),
        decreases n - j,
    {
        if s.get_char(j) == c {
            return j;
        }
        j += 1;
    }
    j
}

fn find_codename_line(s: &str) -> (r: Option<&str>)
    ensures
        match r {
            Some(l) => codename_line(s@) == Some(l@) && has_prefix(l@, codename_key()),
            None => codename_line(s@) is None,
        },
    decreases s@.len(),
{
    let n = s.unicode_len();
    if n == 0 {
        return None;
    }
    let e = find_from(s, '\n', 0);
    proof {
        lemma_index_from_bounds(s@, '\n', 0);
    }
    let mut line = s.substring_char(0, e);
    if e < n && e > 0 && line.get_char(e - 1) == '\r' {
        line = line.substring_char(0, e - 1);
    }
    assert(line@ =~= first_line(s@));
    if crate::text::starts_with(line, "VERSION_CODENAME=") {
        return Some(line);
    }
    let rest = if e < n {
        s.substring_char(e + 1, n)
    } else {
        s.substring_char(n, n)
    };
    assert(rest@ =~= after_first_line(s@));
    find_codename_line(rest)
}

fn trim_quotes(s: &str) -> (r: &str)
    ensures
        r@ == trim_quotes_end(trim_quotes_start(s@)),
{
    let n = s.unicode_len();
    let mut a: usize = 0;
    assert(s@.subrange(0, n as int) =~= s@);
    while a < n && s.get_char(a) == '"'
        invariant
            n == s@.len(),
            a <= n,
            trim_quotes_start(s@) == trim_quotes_start(s@.subrange(a as int, n as int)),
        decreases n - a,
    {
        assert(s@.subrange(a as int, n as int).drop_first() =~= s@.subrange(a + 1, n as int));
        a += 1;
    }
    assert(trim_quotes_start(s@.subrange(a as int, n as int)) == s@.subrange(a as int, n as int));
    let mut b: usize = n;
    while b > a && s.get_char(b - 1) == '"'
        invariant
            n == s@.len(),
            a <= b <= n,
            trim_quotes_end(s@.subrange(a as int, n as int)) == trim_quotes_end(
                s@.subrange(a as int, b as int),
            ),
        decreases b - a,
    {
        assert(s@.subrange(a as int, b as int).drop_last() =~= s@.subrange(a as int, b - 1));
        b -= 1;
    }
    s.substring_char(a, b)
}

/// The release code name in the OS identification text `text`, as written: the
/// value of the first line that starts with `VERSION_CODENAME=`, up to a
/// further `=`, without quotes; `None` where no line starts so.
pub fn parse_codename(text: &str) -> (r: Option<String>)
    ensures
        match r {
            Some(v) => codename(text@) == Some(v@),
            None => codename(text@) is None,
        },
{
    match find_codename_line(text) {
        None => None,
        Some(line) => {
            proof {
                reveal_strlit("VERSION_CODENAME=");
            }
            let n = line.unicode_len();
            let v = line.substring_char(17, n);
            let e = find_from(v, '=', 0);
            proof {
                lemma_index_from_bounds(v@, '=', 0);
            }
            let field = v.substring_char(0, e);
            Some(String::from_str(trim_quotes(field)))
        },
    }
}

/// What `str::to_lowercase` returns on `s`.
pub uninterp spec fn lowercase_of(s: Seq<char>) -> Seq<char>;

/// Relies on `str::to_lowercase`: the lower-case form of the text, which depends
/// on its characters alone.
#[verifier::external_body]
fn lowercase(s: &str) -> (r: String)
    ensures
        r@ == lowercase_of(s@),
{
    s.to_lowercase()
}

/// The release code name of the guest, in lower case, from the text of its OS
/// identification file; `None` where the text names none.
pub fn get_release(os_release: &str) -> (r: Option<String>)
    ensures
        match r {
            Some(v) => exists|c: Seq<char>| codename(os_release@) == Some(c) && v@ == lowercase_of(c),
            None => codename(os_release@) is None,
        },
{
    match parse_codename(os_release) {
        Some(c) => Some(lowercase(c.as_str())),
        None => None,
    }
}

} // verus!
