//! Pure helpers over path strings: the final component of a path, its
//! stem and its extension, and ASCII case folding. The engine receives
//! paths as plain strings and never touches the file system itself, so
//! these definitions are the single place where a path is taken apart.

use vstd::prelude::*;
use vstd::string::*;

verus! {

/// Index of the last occurrence of `c` in `s`, if any.
pub open spec fn rfind_char(s: Seq<char>, c: char) -> Option<int>
    decreases s.len(),
{
    if s.len() == 0 {
        None
    } else if s[s.len() - 1] == c {
        Some(s.len() - 1)
    } else {
        rfind_char(s.drop_last(), c)
    }
}

/// The path with its trailing separators removed: a directory path
/// still names its last component.
pub open spec fn strip_trailing_separators(p: Seq<char>) -> Seq<char>
    decreases p.len(),
{
    if p.len() > 0 && p.last() == '/' {
        strip_trailing_separators(p.drop_last())
    } else {
        p
    }
}

/// The component of a path after its last separator, ignoring trailing
/// separators; the whole path when it has no separator.
pub open spec fn spec_file_name(p: Seq<char>) -> Seq<char> {
    let q = strip_trailing_separators(p);
    match rfind_char(q, '/') {
        Some(i) => q.subrange(i + 1, q.len() as int),
        None => q,
    }
}

/// The file name without its extension. A name whose only dot is the
/// leading character (a hidden file) is its own stem.
pub open spec fn spec_file_stem(p: Seq<char>) -> Seq<char> {
    let name = spec_file_name(p);
    match rfind_char(name, '.') {
        Some(i) => if i == 0 {
            name
        } else {
            name.subrange(0, i)
        },
        None => name,
    }
}

/// The extension of a path: the text after the last dot of its file
/// name, absent when the name has no dot beyond a leading one.
pub open spec fn spec_extension(p: Seq<char>) -> Option<Seq<char>> {
    let name = spec_file_name(p);
    match rfind_char(name, '.') {
        Some(i) => if i == 0 {
            None
        } else {
            Some(name.subrange(i + 1, name.len() as int))
        },
        None => None,
    }
}

/// ASCII case folding of one character; every other character is kept.
pub open spec fn lower_char(c: char) -> char {
    if 'A' <= c && c <= 'Z' {
        ((c as u32) + 32) as char
    } else {
        c
    }
}

/// ASCII case folding of a sequence of characters.
pub open spec fn lower_chars(s: Seq<char>) -> Seq<char> {
    s.map_values(|c: char| lower_char(c))
}

proof fn lemma_take_drop_last(s: Seq<char>, i: int)
    requires
        0 < i <= s.len(),
    ensures
        s.take(i).drop_last() == s.take(i - 1),
        s.take(i).last() == s[i - 1],
{
    assert(s.take(i).drop_last() =~= s.take(i - 1));
}

/// Index of the last occurrence of `c` in `s`, scanning from the end.
pub fn rfind(s: &str, c: char) -> (r: Option<usize>)
    ensures
        match r {
            Some(i) => i < s@.len() && rfind_char(s@, c) == Some(i as int),
            None => rfind_char(s@, c) is None,
        },
{
    let n = s.unicode_len();
    let mut i: usize = n;
    proof {
        assert(s@.take(n as int) =~= s@);
    }
    while i > 0
        invariant
            i <= n,
            n == s@.len(),
            rfind_char(s@, c) == rfind_char(s@.take(i as int), c),
        decreases i,
    {
        let ch = s.get_char(i - 1);
        proof {
            lemma_take_drop_last(s@, i as int);
        }
        if ch == c {
            return Some(i - 1);
        }
        i = i - 1;
    }
    None
}

/// The final component of a path string.
pub fn file_name(p: &str) -> (r: &str)
    ensures
        r@ == spec_file_name(p@),
{
    let n = p.unicode_len();
    let mut end: usize = n;
    proof {
        assert(p@.take(n as int) =~= p@);
    }
    while end > 0 && p.get_char(end - 1) == '/'
        invariant
            end <= n,
            n == p@.len(),
            strip_trailing_separators(p@) == strip_trailing_separators(p@.take(end as int)),
        decreases end,
    {
        proof {
            lemma_take_drop_last(p@, end as int);
        }
        end = end - 1;
    }
    let q = p.substring_char(0, end);
    proof {
        if end > 0 {
            lemma_take_drop_last(p@, end as int);
        }
        assert(q@ == strip_trailing_separators(p@));
    }
    match rfind(q, '/') {
        Some(i) => q.substring_char(i + 1, end),
        None => q,
    }
}

/// The stem of a path's file name.
pub fn file_stem(p: &str) -> (r: &str)
    ensures
        r@ == spec_file_stem(p@),
{
    let name = file_name(p);
    let n = name.unicode_len();
    match rfind(name, '.') {
        Some(i) => if i == 0 {
            name
        } else {
            name.substring_char(0, i)
        },
        None => name,
    }
}

/// The extension of a path's file name, if it has one.
pub fn extension(p: &str) -> (r: Option<&str>)
    ensures
        match r {
            Some(e) => spec_extension(p@) == Some(e@),
            None => spec_extension(p@) is None,
        },
{
    let name = file_name(p);
    let n = name.unicode_len();
    match rfind(name, '.') {
        Some(i) => if i == 0 {
            None
        } else {
            Some(name.substring_char(i + 1, n))
        },
        None => None,
    }
}

/// ASCII case folding of one character.
pub fn to_lower(c: char) -> (r: char)
    ensures
        r == lower_char(c),
{
    if 'A' <= c && c <= 'Z' {
        (((c as u8) + 32) as char)
    } else {
        c
    }
}

/// ASCII-lowercased copy of a string.
pub fn to_lowercase(s: &str) -> (r: String)
    ensures
        r@ == lower_chars(s@),
{
    let n = s.unicode_len();
    let mut out = String::new();
    let mut i: usize = 0;
    while i < n
        invariant
            i <= n,
            n == s@.len(),
            out@ == lower_chars(s@.take(i as int)),
        decreases n - i,
    {
        let c = to_lower(s.get_char(i));
        push_char(&mut out, c);
        proof {
            assert(lower_chars(s@.take(i + 1)) =~= lower_chars(s@.take(i as int)).push(
                lower_char(s@[i as int]),
            ));
        }
        i = i + 1;
    }
    proof {
        assert(s@.take(n as int) =~= s@);
    }
    out
}

/// Append one character to a string.
#[verifier::external_body]
fn push_char(s: &mut String, c: char)
    ensures
        final(s)@ == old(s)@.push(c),
{
    s.push(c);
}

/// Whether two strings hold the same characters.
pub fn str_eq(a: &str, b: &str) -> (r: bool)
    ensures
        r == (a@ == b@),
{
    let na = a.unicode_len();
    let nb = b.unicode_len();
    if na != nb {
        proof {
            assert(a@ != b@);
        }
        return false;
    }
    let mut i: usize = 0;
    while i < na
        invariant
            i <= na,
            na == a@.len(),
            na == b@.len(),
            a@.take(i as int) == b@.take(i as int),
        decreases na - i,
    {
        let ca = a.get_char(i);
        let cb = b.get_char(i);
        if ca != cb {
            proof {
                assert(a@[i as int] != b@[i as int]);
            }
            return false;
        }
        proof {
            assert(a@.take(i + 1) =~= a@.take(i as int).push(a@[i as int]));
            assert(b@.take(i + 1) =~= b@.take(i as int).push(b@[i as int]));
        }
        i = i + 1;
    }
    proof {
        assert(a@.take(na as int) =~= a@);
        assert(b@.take(na as int) =~= b@);
    }
    true
}

} // verus!
