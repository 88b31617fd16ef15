//! Verified string helpers: joining with a separator, decimal rendering of
//! integers, and the character classes used by query strings and URL path
//! segments.

use vstd::prelude::*;

verus! {

/// The view of every string in a sequence.
pub open spec fn seq_views(parts: Seq<String>) -> Seq<Seq<char>> {
    parts.map_values(|s: String| s@)
}

/// `parts` joined by `sep`: no separator before the first part or after the
/// last, one between each neighbouring pair.
pub open spec fn join_spec(parts: Seq<Seq<char>>, sep: Seq<char>) -> Seq<char>
    decreases parts.len(),
{
    if parts.len() == 0 {
        Seq::empty()
    } else if parts.len() == 1 {
        parts[0]
    } else {
        parts[0] + sep + join_spec(parts.drop_first(), sep)
    }
}

proof fn lemma_join_push(parts: Seq<Seq<char>>, x: Seq<char>, sep: Seq<char>)
    ensures
        join_spec(parts.push(x), sep) == if parts.len() == 0 {
            x
        } else {
            join_spec(parts, sep) + sep + x
        },
    decreases parts.len(),
{
    if parts.len() == 0 {
        assert(parts.push(x).len() == 1);
        assert(parts.push(x)[0] == x);
    } else if parts.len() == 1 {
        assert(parts.push(x).drop_first() =~= seq![x]);
        assert(seq![x].len() == 1 && seq![x][0] == x);
        assert(join_spec(seq![x], sep) == x);
        assert(parts.push(x)[0] == parts[0]);
        assert(join_spec(parts.push(x), sep) == parts[0] + sep + x);
    } else {
        assert(parts.push(x).drop_first() =~= parts.drop_first().push(x));
        lemma_join_push(parts.drop_first(), x, sep);
        assert(join_spec(parts.push(x), sep) == parts[0] + sep + (join_spec(
            parts.drop_first(),
            sep,
        ) + sep + x));
        assert(parts[0] + sep + (join_spec(parts.drop_first(), sep) + sep + x) =~= (parts[0] + sep
            + join_spec(parts.drop_first(), sep)) + sep + x);
    }
}

/// `parts` joined by `sep`, as [`join_spec`] says.
pub fn join(parts: &Vec<String>, sep: &str) -> (r: String)
    ensures
        r@ == join_spec(seq_views(parts@), sep@),
{
    let mut r = String::new();
    let mut i: usize = 0;
    while i < parts.len()
        invariant
            i <= parts.len(),
            r@ == join_spec(seq_views(parts@).take(i as int), sep@),
        decreases parts.len() - i,
    {
        if i > 0 {
            r.append(sep);
        }
        r.append(parts[i].as_str());
        proof {
            let views = seq_views(parts@);
            assert(views.take(i as int).push(views[i as int]) =~= views.take(i + 1));
            lemma_join_push(views.take(i as int), views[i as int], sep@);
        }
        i = i + 1;
    }
    proof {
        assert(seq_views(parts@).take(parts@.len() as int) =~= seq_views(parts@));
    }
    r
}

/// The character for one decimal digit.
pub open spec fn dec_digit(d: int) -> char {
    if d == 0 {
        '0'
    } else if d == 1 {
        '1'
    } else if d == 2 {
        '2'
    } else if d == 3 {
        '3'
    } else if d == 4 {
        '4'
    } else if d == 5 {
        '5'
    } else if d == 6 {
        '6'
    } else if d == 7 {
        '7'
    } else if d == 8 {
        '8'
    } else {
        '9'
    }
}

/// The decimal text of a non-negative integer, most significant digit first,
/// no leading zeros (a single `'0'` for zero).
pub open spec fn dec_nat_spec(n: int) -> Seq<char>
    recommends
        n >= 0,
    decreases n,
{
    if n < 10 {
        seq![dec_digit(n)]
    } else {
        dec_nat_spec(n / 10) + seq![dec_digit(n % 10)]
    }
}

/// The decimal text of a signed integer: a leading `'-'` for negatives.
pub open spec fn dec_int_spec(n: int) -> Seq<char> {
    if n >= 0 {
        dec_nat_spec(n)
    } else {
        seq!['-'] + dec_nat_spec(-n)
    }
}

fn digit_str(d: u64) -> (r: &'static str)
    requires
        d < 10,
    ensures
        r@ == seq![dec_digit(d as int)],
{
    proof {
        reveal_strlit("0");
        reveal_strlit("1");
        reveal_strlit("2");
        reveal_strlit("3");
        reveal_strlit("4");
        reveal_strlit("5");
        reveal_strlit("6");
        reveal_strlit("7");
        reveal_strlit("8");
        reveal_strlit("9");
    }
    match d {
        0 => "0",
        1 => "1",
        2 => "2",
        3 => "3",
        4 => "4",
        5 => "5",
        6 => "6",
        7 => "7",
        8 => "8",
        _ => "9",
    }
}

/// The decimal text of `n`, as [`dec_nat_spec`] says.
pub fn dec_of_u64(n: u64) -> (r: String)
    ensures
        r@ == dec_nat_spec(n as int),
{
    if n == 0 {
        return String::from_str(digit_str(0));
    }
    let mut r = String::new();
    let mut m: u64 = n;
    while m > 0
        invariant
            dec_nat_spec(n as int) == if m > 0 {
                dec_nat_spec(m as int) + r@
            } else {
                r@
            },
            m == 0 ==> r@.len() > 0,
        decreases m,
    {
        let d: u64 = m % 10;
        let rest = String::from_str(digit_str(d));
        proof {
            if m >= 10 {
                assert(dec_nat_spec(m as int) == dec_nat_spec(m as int / 10) + seq![
                    dec_digit(m as int % 10),
                ]);
                assert(dec_nat_spec(m as int / 10) + (seq![dec_digit(m as int % 10)] + r@)
                    =~= dec_nat_spec(m as int) + r@);
            }
            assert(m as int % 10 == d as int);
            assert(m < 10 ==> m as int == d as int);
        }
        r = rest.concat(r.as_str());
        m = m / 10;
    }
    r
}

/// The decimal text of `n`, as [`dec_int_spec`] says.
pub fn dec_of_i64(n: i64) -> (r: String)
    ensures
        r@ == dec_int_spec(n as int),
{
    if n >= 0 {
        dec_of_u64(n as u64)
    } else {
        proof {
            reveal_strlit("-");
        }
        let wide: i128 = n as i128;
        let mag: u64 = (-wide) as u64;
        let mut r = String::from_str("-");
        let digits = dec_of_u64(mag);
        r.append(digits.as_str());
        r
    }
}

/// Characters the form-urlencoded byte serializer passes through unchanged:
/// ASCII letters and digits, `*`, `-`, `.` and `_`.
pub open spec fn url_plain_char(c: char) -> bool {
    ('a' <= c && c <= 'z') || ('A' <= c && c <= 'Z') || ('0' <= c && c <= '9') || c == '*' || c
        == '-' || c == '.' || c == '_'
}

pub open spec fn url_plain(s: Seq<char>) -> bool {
    forall|i: int| 0 <= i < s.len() ==> url_plain_char(s[i])
}

/// Characters accepted in an owner or repository path segment.
pub open spec fn segment_char(c: char) -> bool {
    ('a' <= c && c <= 'z') || ('A' <= c && c <= 'Z') || ('0' <= c && c <= '9') || c == '-' || c
        == '.' || c == '_'
}

/// A well-formed owner or repository name: non-empty, and every character a
/// letter, digit, `-`, `.` or `_`, so that it cannot break out of its place
/// in a resource path.
pub open spec fn valid_segment(s: Seq<char>) -> bool {
    s.len() > 0 && forall|i: int| 0 <= i < s.len() ==> segment_char(s[i])
}

fn segment_char_ok(c: char) -> (r: bool)
    ensures
        r == segment_char(c),
{
    ('a' <= c && c <= 'z') || ('A' <= c && c <= 'Z') || ('0' <= c && c <= '9') || c == '-' || c
        == '.' || c == '_'
}

/// Whether `s` is a well-formed path segment, as [`valid_segment`] says.
pub fn is_valid_segment(s: &str) -> (r: bool)
    ensures
        r == valid_segment(s@),
{
    let n = s.unicode_len();
    if n == 0 {
        return false;
    }
    let mut i: usize = 0;
    while i < n
        invariant
            n == s@.len(),
            i <= n,
            forall|j: int| 0 <= j < i ==> segment_char(s@[j]),
        decreases n - i,
    {
        let c = s.get_char(i);
        if !segment_char_ok(c) {
            return false;
        }
        i = i + 1;
    }
    true
}

} // verus!
