//! Text: the decimal form of integers, trimming, and splitting at spaces.

use vstd::prelude::*;
use vstd::string::{StrSliceExecFns, StringExecFns};

verus! {

/// The character of a decimal digit.
pub open spec fn digit_char(d: int) -> char {
    if d == 0 {
        '0'
    } else if d == 1 {
        '1'
    } else if d == 2 {
        '2'
    } else if d == 3 {
        '3'
    } else if d == 4 {
        '4'
    } else if d == 5 {
        '5'
    } else if d == 6 {
        '6'
    } else if d == 7 {
        '7'
    } else if d == 8 {
        '8'
    } else {
        '9'
    }
}

/// The decimal digits of a natural number, most significant first, without
/// leading zeros.
pub open spec fn digits(n: nat) -> Seq<char>
    decreases n,
{
    if n < 10 {
        seq![digit_char(n as int)]
    } else {
        digits(n / 10).push(digit_char((n % 10) as int))
    }
}

/// The decimal form of an integer: a minus sign before the digits of a
/// negative one.
pub open spec fn decimal(n: int) -> Seq<char> {
    if n < 0 {
        seq!['-'] + digits((-n) as nat)
    } else {
        digits(n as nat)
    }
}

/// The text of one decimal digit.
fn digit_text(d: u64) -> (r: &'static str)
    requires
        d < 10,
    ensures
        r@ == seq![digit_char(d as int)],
{
    proof {
        reveal_strlit("0");
        reveal_strlit("1");
        reveal_strlit("2");
        reveal_strlit("3");
        reveal_strlit("4");
        reveal_strlit("5");
        reveal_strlit("6");
        reveal_strlit("7");
        reveal_strlit("8");
        reveal_strlit("9");
    }
    let r = if d == 0 {
        "0"
    } else if d == 1 {
        "1"
    } else if d == 2 {
        "2"
    } else if d == 3 {
        "3"
    } else if d == 4 {
        "4"
    } else if d == 5 {
        "5"
    } else if d == 6 {
        "6"
    } else if d == 7 {
        "7"
    } else if d == 8 {
        "8"
    } else {
        "9"
    };
    assert(r@ =~= seq![digit_char(d as int)]);
    r
}

/// The decimal form of `n`.
pub fn decimal_u64(n: u64) -> (r: String)
    ensures
        r@ == decimal(n as int),
{
    let mut rest: u64 = n / 10;
    let mut out: String = digit_text(n % 10).to_owned();
    while rest > 0
        invariant
            digits(n as nat) == if rest == 0 {
                out@
            } else {
                digits(rest as nat) + out@
            },
        decreases rest,
    {
        let d = digit_text(rest % 10);
        let ghost before = out@;
        out = d.to_owned().concat(out.as_str());
        proof {
            if rest < 10 {
                assert(digits(rest as nat) + before =~= out@);
            } else {
                assert(digits(rest as nat) + before =~= digits((rest / 10) as nat) + out@);
            }
        }
        rest = rest / 10;
    }
    out
}

/// The decimal form of `n`.
pub fn decimal_i64(n: i64) -> (r: String)
    ensures
        r@ == decimal(n as int),
{
    if n >= 0 {
        decimal_u64(n as u64)
    } else {
        let magnitude: u64 = ((-(n + 1)) as u64) + 1;
        proof {
            reveal_strlit("-");
            assert("-"@ =~= seq!['-']);
        }
        "-".to_owned().concat(decimal_u64(magnitude).as_str())
    }
}

/// Whether a character is white space: the characters that `str::trim` takes
/// away, those with the Unicode property `White_Space`.
pub open spec fn is_space(c: char) -> bool {
    let u = c as u32;
    ||| 0x09 <= u <= 0x0d
    ||| u == 0x20
    ||| u == 0x85
    ||| u == 0xa0
    ||| u == 0x1680
    ||| 0x2000 <= u <= 0x200a
    ||| u == 0x2028
    ||| u == 0x2029
    ||| u == 0x202f
    ||| u == 0x205f
    ||| u == 0x3000
}

/// Whether a character is white space.
pub fn space(c: char) -> (r: bool)
    ensures
        r == is_space(c),
{
    let u: u32 = c as u32;
    (0x09 <= u && u <= 0x0d) || u == 0x20 || u == 0x85 || u == 0xa0 || u == 0x1680 || (0x2000 <= u
        && u <= 0x200a) || u == 0x2028 || u == 0x2029 || u == 0x202f || u == 0x205f || u == 0x3000
}

/// `from` and `to` bound what is left of `s` once the white space at both of
/// its ends is taken away.
pub open spec fn trims_to(s: Seq<char>, from: int, to: int) -> bool {
    &&& 0 <= from <= to <= s.len()
    &&& forall|i: int| 0 <= i < from ==> is_space(#[trigger] s[i])
    &&& forall|i: int| to <= i < s.len() ==> is_space(#[trigger] s[i])
    &&& from < to ==> !is_space(s[from]) && !is_space(s[to - 1])
}

/// `t` is `s` without the white space at both of its ends.
pub open spec fn is_trimmed(s: Seq<char>, t: Seq<char>) -> bool {
    exists|from: int, to: int| trims_to(s, from, to) && t == s.subrange(from, to)
}

/// What is left of a text once the white space at its ends is taken away is
/// one text only.
pub proof fn lemma_trimmed_is_unique(s: Seq<char>, t1: Seq<char>, t2: Seq<char>)
    requires
        is_trimmed(s, t1),
        is_trimmed(s, t2),
    ensures
        t1 == t2,
{
    let (a1, b1) = choose|from: int, to: int| trims_to(s, from, to) && t1 == s.subrange(from, to);
    let (a2, b2) = choose|from: int, to: int| trims_to(s, from, to) && t2 == s.subrange(from, to);
    if a1 < b1 && a2 < b2 {
        if a1 < a2 {
            assert(is_space(s[a1]));
        }
        if a2 < a1 {
            assert(is_space(s[a2]));
        }
        if b1 < b2 {
            assert(is_space(s[b2 - 1]));
        }
        if b2 < b1 {
            assert(is_space(s[b1 - 1]));
        }
    } else if a1 < b1 {
        if a1 < a2 {
            assert(is_space(s[a1]));
        } else {
            assert(is_space(s[a1]));
        }
    } else if a2 < b2 {
        if a2 < a1 {
            assert(is_space(s[a2]));
        } else {
            assert(is_space(s[a2]));
        }
    } else {
        assert(t1 =~= t2);
    }
}

/// The text `s` without the white space at both of its ends.
pub open spec fn trimmed(s: Seq<char>) -> Seq<char> {
    choose|t: Seq<char>| is_trimmed(s, t)
}

/// The text without the white space at both of its ends.
pub fn trim(s: &str) -> (r: String)
    ensures
        is_trimmed(s@, r@),
        r@ == trimmed(s@),
{
    let n = s.unicode_len();
    let mut from: usize = 0;
    while from < n && space(s.get_char(from))
        invariant
            from <= n,
            n == s@.len(),
            forall|i: int| 0 <= i < from ==> is_space(#[trigger] s@[i]),
        decreases n - from,
    {
        from = from + 1;
    }
    let mut to: usize = n;
    while to > from && space(s.get_char(to - 1))
        invariant
            from <= to <= n,
            n == s@.len(),
            forall|i: int| to <= i < n ==> is_space(#[trigger] s@[i]),
        decreases to,
    {
        to = to - 1;
    }
    let r = s.substring_char(from, to).to_owned();
    proof {
        assert(trims_to(s@, from as int, to as int));
        assert(is_trimmed(s@, r@));
        lemma_trimmed_is_unique(s@, r@, trimmed(s@));
    }
    r
}

/// Whether the text begins with the character `c`.
pub fn starts_with(s: &str, c: char) -> (r: bool)
    ensures
        r == (s@.len() > 0 && s@[0] == c),
{
    s.unicode_len() > 0 && s.get_char(0) == c
}

/// The text without its first character; the empty text stays empty.
pub fn skip_first(s: &str) -> (r: String)
    ensures
        r@ == tail(s@),
{
    let n = s.unicode_len();
    if n == 0 {
        s.to_owned()
    } else {
        s.substring_char(1, n).to_owned()
    }
}

/// The pieces of a text between its spaces, in order. A text without a space
/// is one piece; two spaces in a row have an empty piece between them.
pub open spec fn pieces(s: Seq<char>) -> Seq<Seq<char>>
    decreases s.len(),
{
    if s.len() == 0 {
        seq![Seq::<char>::empty()]
    } else if s.last() == ' ' {
        pieces(s.drop_last()).push(Seq::empty())
    } else {
        let before = pieces(s.drop_last());
        before.drop_last().push(before.last().push(s.last()))
    }
}

/// What is left of a list of words once the first one is taken out by
/// putting the last one in its place.
pub open spec fn rest_swapped(words: Seq<Seq<char>>) -> Seq<Seq<char>> {
    words.update(0, words.last()).drop_last()
}

/// The text without its first character; the empty text stays empty.
pub open spec fn tail(s: Seq<char>) -> Seq<char> {
    if s.len() > 0 {
        s.subrange(1, s.len() as int)
    } else {
        s
    }
}

/// The texts of a list of strings.
pub open spec fn texts(list: Seq<String>) -> Seq<Seq<char>> {
    Seq::new(list.len(), |i: int| list[i]@)
}

/// A text has at least one piece.
pub proof fn lemma_pieces_nonempty(s: Seq<char>)
    ensures
        pieces(s).len() >= 1,
    decreases s.len(),
{
    if s.len() > 0 {
        lemma_pieces_nonempty(s.drop_last());
    }
}

/// The pieces of the text between its spaces.
pub fn split_spaces(s: &str) -> (r: Vec<String>)
    ensures
        texts(r@) == pieces(s@),
        r@.len() >= 1,
{
    let n = s.unicode_len();
    let mut out: Vec<String> = Vec::new();
    let mut start: usize = 0;
    let mut i: usize = 0;
    proof {
        assert(s@.take(0) =~= Seq::<char>::empty());
        assert(texts(out@).push(s@.subrange(0, 0)) =~= pieces(s@.take(0)));
    }
    while i < n
        invariant
            start <= i <= n,
            n == s@.len(),
            pieces(s@.take(i as int)) == texts(out@).push(s@.subrange(start as int, i as int)),
        decreases n - i,
    {
        let ghost done = texts(out@);
        let ghost begin = start;
        proof {
            assert(s@.take(i as int + 1).drop_last() =~= s@.take(i as int));
            assert(s@.take(i as int + 1).last() == s@[i as int]);
        }
        if s.get_char(i) == ' ' {
            out.push(s.substring_char(start, i).to_owned());
            start = i + 1;
            proof {
                assert(texts(out@) =~= done.push(s@.subrange(begin as int, i as int)));
                assert(s@.subrange(start as int, i as int + 1) =~= Seq::<char>::empty());
            }
        } else {
            proof {
                let before = pieces(s@.take(i as int));
                assert(before.drop_last() =~= done);
                assert(s@.subrange(start as int, i as int + 1) =~= s@.subrange(
                    start as int,
                    i as int,
                ).push(s@[i as int]));
            }
        }
        i = i + 1;
    }
    out.push(s.substring_char(start, n).to_owned());
    proof {
        assert(s@.take(n as int) =~= s@);
        assert(texts(out@) =~= pieces(s@));
    }
    out
}

} // verus!
