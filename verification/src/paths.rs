//! Paths as texts: directories joined by one separator character, and lists of
//! directories joined by another.

use crate::schema::views_of;
use crate::text::{chars_of, find_from, seek};
use vstd::prelude::*;

verus! {

/// The path of `name` in the directory `dir`: `name` alone in the empty
/// directory, and otherwise `dir`, one separator and `name`.
pub open spec fn child(dir: Seq<char>, name: Seq<char>, sep: char) -> Seq<char> {
    if dir.len() == 0 {
        name
    } else if dir.last() == sep {
        dir + name
    } else {
        dir + seq![sep] + name
    }
}

/// The length of `s` without the separators at its end.
pub open spec fn trimmed_len(s: Seq<char>, sep: char) -> int
    decreases s.len(),
{
    if s.len() > 0 && s.last() == sep {
        trimmed_len(s.drop_last(), sep)
    } else {
        s.len() as int
    }
}

/// The position of the last separator in `s`; -1 where it has none.
pub open spec fn last_separator(s: Seq<char>, sep: char) -> int
    decreases s.len(),
{
    if s.len() == 0 {
        -1
    } else if s.last() == sep {
        s.len() - 1
    } else {
        last_separator(s.drop_last(), sep)
    }
}

/// The directory that holds `dir`, if any.
///
/// Separators at the end of `dir` do not count. A path without a separator has
/// no parent, nor has one made of separators alone. Otherwise the parent ends
/// before the last separator and the separators in front of it; where nothing
/// is left, it is the root, one separator.
pub open spec fn parent(dir: Seq<char>, sep: char) -> Option<Seq<char>> {
    let core = dir.take(trimmed_len(dir, sep));
    let cut = last_separator(core, sep);
    if cut < 0 {
        None
    } else {
        let head = trimmed_len(core.take(cut), sep);
        if head == 0 {
            Some(seq![sep])
        } else {
            Some(dir.take(head))
        }
    }
}

/// The pieces of `s` between the occurrences of `c`, from position `from` on.
pub open spec fn split_from(s: Seq<char>, c: char, from: int) -> Seq<Seq<char>>
    decreases s.len() - from,
{
    let at = seek(s, c, from);
    if 0 <= from <= at < s.len() {
        seq![s.subrange(from, at)] + split_from(s, c, at + 1)
    } else {
        seq![s.subrange(from, s.len() as int)]
    }
}

/// The pieces of `s` between the occurrences of `c`: one more than there are
/// occurrences, empty pieces included.
pub open spec fn split(s: Seq<char>, c: char) -> Seq<Seq<char>> {
    split_from(s, c, 0)
}

/// The trimmed length is within the text, and no separator ends what it keeps.
pub proof fn lemma_trimmed_len(s: Seq<char>, sep: char)
    ensures
        0 <= trimmed_len(s, sep) <= s.len(),
        trimmed_len(s, sep) > 0 ==> s[trimmed_len(s, sep) - 1] != sep,
    decreases s.len(),
{
    if s.len() > 0 && s.last() == sep {
        lemma_trimmed_len(s.drop_last(), sep);
    }
}

/// The last separator is within the text, and it is a separator.
pub proof fn lemma_last_separator(s: Seq<char>, sep: char)
    ensures
        -1 <= last_separator(s, sep) < s.len(),
        last_separator(s, sep) >= 0 ==> s[last_separator(s, sep)] == sep,
    decreases s.len(),
{
    if s.len() > 0 && s.last() != sep {
        lemma_last_separator(s.drop_last(), sep);
    }
}

/// A parent is shorter than its child: a walk from parent to parent ends.
pub proof fn lemma_parent_is_shorter(dir: Seq<char>, sep: char)
    ensures
        parent(dir, sep) matches Some(p) ==> p.len() < dir.len(),
{
    let n = trimmed_len(dir, sep);
    lemma_trimmed_len(dir, sep);
    let core = dir.take(n);
    let cut = last_separator(core, sep);
    lemma_last_separator(core, sep);
    if cut >= 0 {
        lemma_trimmed_len(core.take(cut), sep);
    }
}

/// Puts `name` into the directory `dir`.
pub fn join(dir: &str, name: &str, sep: char) -> (r: String)
    ensures
        r@ == child(dir@, name@, sep),
{
    let chars = chars_of(dir);
    let mut out = dir.to_owned();
    if chars.len() > 0 && chars[chars.len() - 1] != sep {
        out.push(sep);
    }
    out.append(name);
    out
}

/// Measures `chars` up to `upto` without the separators at the end.
fn trimmed_length(chars: &Vec<char>, upto: usize, sep: char) -> (r: usize)
    requires
        upto <= chars.len(),
    ensures
        r == trimmed_len(chars@.take(upto as int), sep),
        r <= upto,
{
    let mut n: usize = upto;
    while n > 0 && chars[n - 1] == sep
        invariant
            n <= upto <= chars.len(),
            trimmed_len(chars@.take(upto as int), sep) == trimmed_len(chars@.take(n as int), sep),
        decreases n,
    {
        proof {
            assert(chars@.take(n as int).drop_last() =~= chars@.take(n - 1));
        }
        n = n - 1;
    }
    n
}

/// Finds the last separator in `chars` before `upto`.
fn find_last_separator(chars: &Vec<char>, upto: usize, sep: char) -> (r: Option<usize>)
    requires
        upto <= chars.len(),
    ensures
        match r {
            Some(k) => k == last_separator(chars@.take(upto as int), sep) && k < upto,
            None => last_separator(chars@.take(upto as int), sep) == -1,
        },
{
    let mut n: usize = upto;
    while n > 0
        invariant
            n <= upto <= chars.len(),
            last_separator(chars@.take(upto as int), sep) == last_separator(
                chars@.take(n as int),
                sep,
            ),
        decreases n,
    {
        if chars[n - 1] == sep {
            return Some(n - 1);
        }
        proof {
            assert(chars@.take(n as int).drop_last() =~= chars@.take(n - 1));
        }
        n = n - 1;
    }
    None
}

/// The directory that holds `dir`, if any.
pub fn parent_of(dir: &str, sep: char) -> (r: Option<String>)
    ensures
        match r {
            Some(p) => parent(dir@, sep) == Some(p@),
            None => parent(dir@, sep) is None,
        },
{
    let chars = chars_of(dir);
    let n = trimmed_length(&chars, chars.len(), sep);
    proof {
        assert(chars@.take(chars.len() as int) =~= dir@);
    }
    match find_last_separator(&chars, n, sep) {
        None => None,
        Some(cut) => {
            let head = trimmed_length(&chars, cut, sep);
            proof {
                assert(dir@.take(n as int).take(cut as int) =~= chars@.take(cut as int));
            }
            if head == 0 {
                let mut root = String::new();
                root.push(sep);
                Some(root)
            } else {
                Some(dir.substring_char(0, head).to_owned())
            }
        },
    }
}

/// Splits `s` at every `c`.
pub fn split_at_each(s: &str, c: char) -> (r: Vec<String>)
    ensures
        views_of(r@) == split(s@, c),
{
    let chars = chars_of(s);
    let mut out: Vec<String> = Vec::new();
    let mut from: usize = 0;
    loop
        invariant_except_break
            views_of(out@) + split_from(s@, c, from as int) == split(s@, c),
        invariant
            chars@ == s@,
            from <= chars.len(),
        ensures
            views_of(out@) == split(s@, c),
        decreases chars.len() - from,
    {
        let at = find_from(&chars, c, from);
        let piece = s.substring_char(from, at).to_owned();
        out.push(piece);
        if at >= chars.len() {
            break ;
        }
        from = at + 1;
    }
    out
}

} // verus!
