//! Text building blocks for the presenter and the input readers:
//! decimal rendering of whole numbers, column padding, and a small
//! tokenizer for timestamp strings and configuration lines.

use vstd::prelude::*;
use vstd::string::StringExecFns;

verus! {

/// Relies on `String::push`: appends the given character to the end
/// of the string.
pub assume_specification[ String::push ](s: &mut String, ch: char)
    ensures
        final(s)@ == old(s)@.push(ch),
;

/// The separator characters recognized between tokens: the blank,
/// tab, and line-break characters that appear in upstream timestamp
/// text and in configuration files.
pub open spec fn is_space_char(c: char) -> bool {
    c == ' ' || c == '\t' || c == '\n' || c == '\r'
}

/// Decides [`is_space_char`].
pub fn is_space(c: char) -> (r: bool)
    ensures
        r == is_space_char(c),
{
    c == ' ' || c == '\t' || c == '\n' || c == '\r'
}

/// The decimal digit character for `d` (meaningful for `0 <= d <= 9`).
pub open spec fn digit_char(d: int) -> char {
    if d == 0 {
        '0'
    } else if d == 1 {
        '1'
    } else if d == 2 {
        '2'
    } else if d == 3 {
        '3'
    } else if d == 4 {
        '4'
    } else if d == 5 {
        '5'
    } else if d == 6 {
        '6'
    } else if d == 7 {
        '7'
    } else if d == 8 {
        '8'
    } else {
        '9'
    }
}

/// The decimal digit string of `n`, most significant digit first,
/// with no leading zeros (a single `'0'` for zero).
pub open spec fn dec_digits(n: nat) -> Seq<char>
    decreases n,
{
    if n < 10 {
        seq![digit_char(n as int)]
    } else {
        dec_digits(n / 10).push(digit_char((n % 10) as int))
    }
}

/// The decimal string of an integer: a leading `'-'` for values below
/// zero, then the digits of the magnitude.
pub open spec fn int_str(v: int) -> Seq<char> {
    if v < 0 {
        seq!['-'] + dec_digits((-v) as nat)
    } else {
        dec_digits(v as nat)
    }
}

/// The one-character string for the decimal digit `d`.
fn digit_str(d: u64) -> (r: &'static str)
    requires
        d < 10,
    ensures
        r@ =~= seq![digit_char(d as int)],
{
    proof {
        reveal_strlit("0");
        reveal_strlit("1");
        reveal_strlit("2");
        reveal_strlit("3");
        reveal_strlit("4");
        reveal_strlit("5");
        reveal_strlit("6");
        reveal_strlit("7");
        reveal_strlit("8");
        reveal_strlit("9");
    }
    if d == 0 {
        "0"
    } else if d == 1 {
        "1"
    } else if d == 2 {
        "2"
    } else if d == 3 {
        "3"
    } else if d == 4 {
        "4"
    } else if d == 5 {
        "5"
    } else if d == 6 {
        "6"
    } else if d == 7 {
        "7"
    } else if d == 8 {
        "8"
    } else {
        "9"
    }
}

/// Renders `n` in decimal.
pub fn u64_to_string(n: u64) -> (r: String)
    ensures
        r@ == dec_digits(n as nat),
    decreases n,
{
    if n < 10 {
        let r = digit_str(n).to_owned();
        proof {
            assert(r@ =~= dec_digits(n as nat));
        }
        r
    } else {
        let mut r = u64_to_string(n / 10);
        r.append(digit_str(n % 10));
        proof {
            assert(r@ =~= dec_digits(n as nat));
        }
        r
    }
}

/// Renders a signed whole number given as a sign and a magnitude;
/// a negative sign on a zero magnitude renders as plain `"0"`.
pub fn signed_to_string(neg: bool, mag: u64) -> (r: String)
    ensures
        r@ == int_str(if neg { -(mag as int) } else { mag as int }),
{
    if neg && mag > 0 {
        let mut r = "-".to_owned();
        r.append(u64_to_string(mag).as_str());
        proof {
            reveal_strlit("-");
            assert(r@ =~= seq!['-'] + dec_digits(mag as nat));
        }
        r
    } else {
        u64_to_string(mag)
    }
}

/// `s` with every blank replaced by `pad`.
pub open spec fn replace_spaces(s: Seq<char>, pad: char) -> Seq<char> {
    Seq::new(s.len(), |i: int| if s[i] == ' ' { pad } else { s[i] })
}

/// The result of padding `s` on the right to at least `width`
/// characters: the value is left-justified, the fill and every blank
/// of the value itself become `pad`, and a value already at or over
/// the width is kept whole rather than cut.
pub open spec fn pad_spec(s: Seq<char>, width: int, pad: char) -> Seq<char> {
    replace_spaces(s, pad) + Seq::new(
        if s.len() >= width {
            0
        } else {
            (width - s.len()) as nat
        },
        |i: int| pad,
    )
}

/// A padded value is exactly `width` characters when the value fits,
/// and keeps its own length when it does not: the width is a minimum,
/// never a cap.
pub proof fn lemma_pad_len(s: Seq<char>, width: int, pad: char)
    ensures
        pad_spec(s, width, pad).len() == if s.len() >= width {
            s.len() as int
        } else {
            width
        },
{
}

/// Left-justifies `input` in a field of `width` characters, filling
/// with blanks, then replaces every blank by `pad_char`.
pub fn pad_string_with_char(input: &str, width: usize, pad_char: char) -> (r: String)
    ensures
        r@ == pad_spec(input@, width as int, pad_char),
{
    let n = input.unicode_len();
    let mut r = String::new();
    let mut i: usize = 0;
    while i < n
        invariant
            i <= n,
            n == input@.len(),
            r@ == replace_spaces(input@, pad_char).subrange(0, i as int),
        decreases n - i,
    {
        let c = input.get_char(i);
        if c == ' ' {
            r.push(pad_char);
        } else {
            r.push(c);
        }
        i = i + 1;
        proof {
            assert(r@ =~= replace_spaces(input@, pad_char).subrange(0, i as int));
        }
    }
    proof {
        assert(r@ =~= replace_spaces(input@, pad_char));
    }
    let mut j = n;
    while j < width
        invariant
            n <= j,
            j == n || j <= width,
            n == input@.len(),
            r@ == replace_spaces(input@, pad_char) + Seq::new((j - n) as nat, |k: int| pad_char),
        decreases width - j,
    {
        r.push(pad_char);
        j = j + 1;
        proof {
            assert(r@ =~= replace_spaces(input@, pad_char) + Seq::new(
                (j - n) as nat,
                |k: int| pad_char,
            ));
        }
    }
    proof {
        assert(r@ =~= pad_spec(input@, width as int, pad_char));
    }
    r
}

/// `s` without its leading separator characters.
pub open spec fn skip_ws(s: Seq<char>) -> Seq<char>
    decreases s.len(),
{
    if s.len() > 0 && is_space_char(s[0]) {
        skip_ws(s.drop_first())
    } else {
        s
    }
}

/// The longest separator-free prefix of `s`.
pub open spec fn take_tok(s: Seq<char>) -> Seq<char>
    decreases s.len(),
{
    if s.len() > 0 && !is_space_char(s[0]) {
        seq![s[0]] + take_tok(s.drop_first())
    } else {
        Seq::empty()
    }
}

/// `s` without its longest separator-free prefix.
pub open spec fn drop_tok(s: Seq<char>) -> Seq<char>
    decreases s.len(),
{
    if s.len() > 0 && !is_space_char(s[0]) {
        drop_tok(s.drop_first())
    } else {
        s
    }
}

/// The first separator-delimited token of `s` (empty when `s` holds
/// no token).
pub open spec fn first_token(s: Seq<char>) -> Seq<char> {
    take_tok(skip_ws(s))
}

/// The second separator-delimited token of `s` (empty when `s` holds
/// fewer than two tokens).
pub open spec fn second_token(s: Seq<char>) -> Seq<char> {
    take_tok(skip_ws(drop_tok(skip_ws(s))))
}

/// `s` without leading and trailing separator characters.
pub open spec fn trim_trailing(s: Seq<char>) -> Seq<char>
    decreases s.len(),
{
    if s.len() > 0 && is_space_char(s[s.len() - 1]) {
        trim_trailing(s.drop_last())
    } else {
        s
    }
}

/// See [`trim_trailing`] and [`skip_ws`]: both ends stripped.
pub open spec fn trim_spec(s: Seq<char>) -> Seq<char> {
    trim_trailing(skip_ws(s))
}

/// Strips leading separator characters.
pub fn skip_leading_spaces<'a>(s: &'a str) -> (r: &'a str)
    ensures
        r@ == skip_ws(s@),
    decreases s@.len(),
{
    let n = s.unicode_len();
    if n > 0 {
        let c = s.get_char(0);
        if is_space(c) {
            let rest = s.substring_char(1, n);
            proof {
                assert(rest@ =~= s@.drop_first());
            }
            skip_leading_spaces(rest)
        } else {
            s
        }
    } else {
        s
    }
}

/// Copies the longest separator-free prefix of `s`.
pub fn leading_token(s: &str) -> (r: String)
    ensures
        r@ == take_tok(s@),
    decreases s@.len(),
{
    let n = s.unicode_len();
    if n > 0 {
        let c = s.get_char(0);
        if !is_space(c) {
            let tail = s.substring_char(1, n);
            proof {
                assert(tail@ =~= s@.drop_first());
            }
            let rest = leading_token(tail);
            let mut r = String::new();
            r.push(c);
            r.append(rest.as_str());
            proof {
                assert(r@ =~= seq![c] + take_tok(s@.drop_first()));
            }
            r
        } else {
            let r = String::new();
            proof {
                assert(r@ =~= take_tok(s@));
            }
            r
        }
    } else {
        let r = String::new();
        proof {
            assert(r@ =~= take_tok(s@));
        }
        r
    }
}

/// Strips the longest separator-free prefix of `s`.
pub fn drop_leading_token<'a>(s: &'a str) -> (r: &'a str)
    ensures
        r@ == drop_tok(s@),
    decreases s@.len(),
{
    let n = s.unicode_len();
    if n > 0 {
        let c = s.get_char(0);
        if !is_space(c) {
            let rest = s.substring_char(1, n);
            proof {
                assert(rest@ =~= s@.drop_first());
            }
            drop_leading_token(rest)
        } else {
            s
        }
    } else {
        s
    }
}

/// The first separator-delimited token of `s`, as a fresh string.
pub fn first_token_of(s: &str) -> (r: String)
    ensures
        r@ == first_token(s@),
{
    leading_token(skip_leading_spaces(s))
}

/// The second separator-delimited token of `s`, as a fresh string.
pub fn second_token_of(s: &str) -> (r: String)
    ensures
        r@ == second_token(s@),
{
    leading_token(skip_leading_spaces(drop_leading_token(skip_leading_spaces(s))))
}

/// Strips trailing separator characters.
fn strip_trailing_spaces<'a>(s: &'a str) -> (r: &'a str)
    ensures
        r@ == trim_trailing(s@),
    decreases s@.len(),
{
    let n = s.unicode_len();
    if n > 0 {
        let c = s.get_char(n - 1);
        if is_space(c) {
            let rest = s.substring_char(0, n - 1);
            proof {
                assert(rest@ =~= s@.drop_last());
            }
            strip_trailing_spaces(rest)
        } else {
            s
        }
    } else {
        s
    }
}

/// Strips separator characters from both ends.
pub fn trimmed<'a>(s: &'a str) -> (r: &'a str)
    ensures
        r@ == trim_spec(s@),
{
    strip_trailing_spaces(skip_leading_spaces(s))
}

} // verus!
