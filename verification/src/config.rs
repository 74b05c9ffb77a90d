//! The settings-text reader: turns the text of a key/value settings
//! file into its entries.  A line holds one `key = value` pair; blank
//! lines, comment lines opened by `';'` or `'#'`, section headers
//! opened by `'['`, and lines without a `'='` carry no entry.  Keys
//! and values are trimmed; entries keep file order.

use vstd::prelude::*;
use vstd::string::StringExecFns;
use crate::text::{trim_spec, trimmed};

verus! {

/// The lines of `s`, split at newline characters; a text always
/// holds one more line than it has newlines.
pub open spec fn split_lines(s: Seq<char>) -> Seq<Seq<char>>
    decreases s.len(),
{
    if s.len() == 0 {
        seq![Seq::<char>::empty()]
    } else if s[0] == '\n' {
        seq![Seq::<char>::empty()] + split_lines(s.drop_first())
    } else {
        let rest = split_lines(s.drop_first());
        seq![seq![s[0]] + rest[0]] + rest.drop_first()
    }
}

proof fn lemma_split_lines_nonempty(s: Seq<char>)
    ensures
        split_lines(s).len() >= 1,
    decreases s.len(),
{
    if s.len() == 0 {
    } else {
        lemma_split_lines_nonempty(s.drop_first());
    }
}

/// Whether `s` holds a `'='`.
pub open spec fn contains_eq(s: Seq<char>) -> bool
    decreases s.len(),
{
    if s.len() == 0 {
        false
    } else {
        s[0] == '=' || contains_eq(s.drop_first())
    }
}

/// What stands before the first `'='` of `s` (all of `s` when it has
/// none).
pub open spec fn key_part(s: Seq<char>) -> Seq<char>
    decreases s.len(),
{
    if s.len() > 0 && s[0] != '=' {
        seq![s[0]] + key_part(s.drop_first())
    } else {
        Seq::empty()
    }
}

/// What stands after the first `'='` of `s` (empty when it has
/// none).
pub open spec fn value_part(s: Seq<char>) -> Seq<char>
    decreases s.len(),
{
    if s.len() == 0 {
        Seq::empty()
    } else if s[0] == '=' {
        s.drop_first()
    } else {
        value_part(s.drop_first())
    }
}

/// The entry one line carries, if any: the trimmed line must be
/// non-blank, must not open a comment or a section header, and must
/// hold a `'='`; the key and value around the first `'='` are
/// trimmed.
pub open spec fn entry_of_line(line: Seq<char>) -> Option<(Seq<char>, Seq<char>)> {
    let t = trim_spec(line);
    if t.len() == 0 || t[0] == ';' || t[0] == '#' || t[0] == '[' {
        None
    } else if !contains_eq(t) {
        None
    } else {
        Some((trim_spec(key_part(t)), trim_spec(value_part(t))))
    }
}

/// The entries of a line list, in order, lines without entries
/// skipped.
pub open spec fn entries_of_lines(lines: Seq<Seq<char>>) -> Seq<(Seq<char>, Seq<char>)>
    decreases lines.len(),
{
    if lines.len() == 0 {
        Seq::empty()
    } else {
        match entry_of_line(lines[0]) {
            Some(kv) => seq![kv] + entries_of_lines(lines.drop_first()),
            None => entries_of_lines(lines.drop_first()),
        }
    }
}

/// The entries of a whole settings text.
pub open spec fn config_spec(s: Seq<char>) -> Seq<(Seq<char>, Seq<char>)> {
    entries_of_lines(split_lines(s))
}

fn split_text_lines(s: &str) -> (r: Vec<String>)
    ensures
        r.deep_view() == split_lines(s@),
    decreases s@.len(),
{
    let n = s.unicode_len();
    if n == 0 {
        let mut r: Vec<String> = Vec::new();
        r.push(String::new());
        proof {
            assert(r.deep_view() =~= split_lines(s@));
        }
        r
    } else {
        let c = s.get_char(0);
        let rest_str = s.substring_char(1, n);
        proof {
            assert(rest_str@ =~= s@.drop_first());
        }
        let mut rest = split_text_lines(rest_str);
        proof {
            lemma_split_lines_nonempty(s@.drop_first());
        }
        if c == '\n' {
            rest.insert(0, String::new());
            proof {
                assert(rest.deep_view() =~= split_lines(s@));
            }
            rest
        } else {
            let first = rest.remove(0);
            let mut new_first = String::new();
            new_first.push(c);
            new_first.append(first.as_str());
            rest.insert(0, new_first);
            proof {
                assert(rest.deep_view() =~= split_lines(s@));
            }
            rest
        }
    }
}

fn contains_eq_char(s: &str) -> (r: bool)
    ensures
        r == contains_eq(s@),
    decreases s@.len(),
{
    let n = s.unicode_len();
    if n == 0 {
        false
    } else if s.get_char(0) == '=' {
        true
    } else {
        let rest = s.substring_char(1, n);
        proof {
            assert(rest@ =~= s@.drop_first());
        }
        contains_eq_char(rest)
    }
}

fn key_part_of(s: &str) -> (r: String)
    ensures
        r@ == key_part(s@),
    decreases s@.len(),
{
    let n = s.unicode_len();
    if n > 0 {
        let c = s.get_char(0);
        if c != '=' {
            let tail = s.substring_char(1, n);
            proof {
                assert(tail@ =~= s@.drop_first());
            }
            let rest = key_part_of(tail);
            let mut r = String::new();
            r.push(c);
            r.append(rest.as_str());
            proof {
                assert(r@ =~= seq![c] + key_part(s@.drop_first()));
            }
            r
        } else {
            let r = String::new();
            proof {
                assert(r@ =~= key_part(s@));
            }
            r
        }
    } else {
        let r = String::new();
        proof {
            assert(r@ =~= key_part(s@));
        }
        r
    }
}

fn value_part_of<'a>(s: &'a str) -> (r: &'a str)
    ensures
        r@ == value_part(s@),
    decreases s@.len(),
{
    let n = s.unicode_len();
    if n == 0 {
        s
    } else {
        let rest = s.substring_char(1, n);
        proof {
            assert(rest@ =~= s@.drop_first());
        }
        if s.get_char(0) == '=' {
            rest
        } else {
            value_part_of(rest)
        }
    }
}

fn entry_of(line: &str) -> (r: Option<(String, String)>)
    ensures
        match entry_of_line(line@) {
            Some(kv) => r matches Some(p) && p.0@ == kv.0 && p.1@ == kv.1,
            None => r is None,
        },
{
    let t = trimmed(line);
    if t.is_empty() {
        return None;
    }
    let c0 = t.get_char(0);
    if c0 == ';' || c0 == '#' || c0 == '[' {
        return None;
    }
    if !contains_eq_char(t) {
        return None;
    }
    let key = key_part_of(t);
    let value = value_part_of(t);
    Some((trimmed(key.as_str()).to_owned(), trimmed(value).to_owned()))
}

fn entries_from(lines: &Vec<String>, i: usize) -> (r: Vec<(String, String)>)
    requires
        i <= lines.len(),
    ensures
        r.deep_view() == entries_of_lines(
            lines.deep_view().subrange(i as int, lines@.len() as int),
        ),
    decreases lines.len() - i,
{
    if i == lines.len() {
        let r: Vec<(String, String)> = Vec::new();
        proof {
            assert(r.deep_view() =~= entries_of_lines(
                lines.deep_view().subrange(i as int, lines@.len() as int),
            ));
        }
        r
    } else {
        let rest = entries_from(lines, i + 1);
        proof {
            assert(lines.deep_view().subrange(i as int, lines@.len() as int).drop_first()
                =~= lines.deep_view().subrange(i as int + 1, lines@.len() as int));
            assert(lines.deep_view().subrange(i as int, lines@.len() as int)[0] == lines@[
                i as int
            ]@);
        }
        match entry_of(&lines[i]) {
            Some(kv) => {
                let mut r = rest;
                r.insert(0, kv);
                proof {
                    assert(r.deep_view() =~= entries_of_lines(
                        lines.deep_view().subrange(i as int, lines@.len() as int),
                    ));
                }
                r
            },
            None => rest,
        }
    }
}

/// Reads a settings text into its key/value entries, in file order,
/// per [`config_spec`].
pub fn config(text: &str) -> (r: Vec<(String, String)>)
    ensures
        r.deep_view() == config_spec(text@),
{
    let lines = split_text_lines(text);
    let r = entries_from(&lines, 0);
    proof {
        assert(lines.deep_view().subrange(0, lines@.len() as int) =~= lines.deep_view());
    }
    r
}

} // verus!
