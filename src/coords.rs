use vstd::prelude::*;

use crate::text::{chars_of, seqs_of, split_chars, split_on};

verus! {

/// Why a capture region could not be read as `"x,y wxh"`.
#[derive(Clone, Copy, Debug, PartialEq, Eq, Structural)]
pub enum CoordError {
    /// The text is not two whitespace-separated words.
    WordCount,
    /// The first word is not two values separated by a comma.
    OffsetCount,
    /// The second word is not two values separated by `x`.
    SizeCount,
    /// One of the four values is not a decimal `i32`.
    BadNumber,
}

impl CoordError {
    /// The line shown to the user for this error.
    pub open spec fn text(&self) -> Seq<char> {
        match self {
            CoordError::WordCount => "Input should have two parts separated by space"@,
            CoordError::OffsetCount => "First part should contain two numbers separated by comma"@,
            CoordError::SizeCount => "Second part should contain two numbers separated by 'x'"@,
            CoordError::BadNumber => "Each value should be a whole number that fits in 32 bits"@,
        }
    }

    pub fn message(&self) -> (r: String)
        ensures
            r@ == self.text(),
    {
        match self {
            CoordError::WordCount => String::from_str("Input should have two parts separated by space"),
            CoordError::OffsetCount => String::from_str(
                "First part should contain two numbers separated by comma",
            ),
            CoordError::SizeCount => String::from_str(
                "Second part should contain two numbers separated by 'x'",
            ),
            CoordError::BadNumber => String::from_str(
                "Each value should be a whole number that fits in 32 bits",
            ),
        }
    }
}

/// Unicode `White_Space`, the characters that `char::is_whitespace` accepts.
pub open spec fn is_space_spec(c: char) -> bool {
    let u = c as u32;
    ||| 0x09 <= u <= 0x0D
    ||| u == 0x20
    ||| u == 0x85
    ||| u == 0xA0
    ||| u == 0x1680
    ||| 0x2000 <= u <= 0x200A
    ||| u == 0x2028
    ||| u == 0x2029
    ||| u == 0x202F
    ||| u == 0x205F
    ||| u == 0x3000
}

/// The maximal runs of non-space characters of `s`, in order, as
/// `str::split_whitespace` yields them.
pub open spec fn words(s: Seq<char>) -> Seq<Seq<char>>
    decreases s.len(),
{
    if s.len() == 0 {
        seq![]
    } else {
        let prev = words(s.drop_last());
        if is_space_spec(s.last()) {
            prev
        } else if s.len() >= 2 && !is_space_spec(s[s.len() - 2]) {
            prev.update(prev.len() - 1, prev.last().push(s.last()))
        } else {
            prev.push(seq![s.last()])
        }
    }
}

pub open spec fn is_digit_spec(c: char) -> bool {
    ('0' as u32) <= (c as u32) <= ('9' as u32)
}

pub open spec fn digit_value(c: char) -> int {
    (c as u32) as int - ('0' as u32) as int
}

/// The value of a run of decimal digits, most significant first.
pub open spec fn digits_value(s: Seq<char>) -> int
    decreases s.len(),
{
    if s.len() == 0 {
        0
    } else {
        digits_value(s.drop_last()) * 10 + digit_value(s.last())
    }
}

pub open spec fn all_digits(s: Seq<char>) -> bool {
    s.len() > 0 && forall|i: int| 0 <= i < s.len() ==> is_digit_spec(#[trigger] s[i])
}

/// The integer that `s` writes: an optional `+` or `-`, then one or more
/// decimal digits, and nothing else.
pub open spec fn integer_of(s: Seq<char>) -> Option<int> {
    if s.len() > 0 && s[0] == '-' && all_digits(s.drop_first()) {
        Some(-digits_value(s.drop_first()))
    } else if s.len() > 0 && s[0] == '+' && all_digits(s.drop_first()) {
        Some(digits_value(s.drop_first()))
    } else if all_digits(s) {
        Some(digits_value(s))
    } else {
        None
    }
}

/// What `str::parse::<i32>` gives for `s`: the integer it writes, where that
/// fits in an `i32`.
pub open spec fn i32_of(s: Seq<char>) -> Option<i32> {
    match integer_of(s) {
        Some(v) => if i32::MIN <= v <= i32::MAX {
            Some(v as i32)
        } else {
            None
        },
        None => None,
    }
}

/// The four values of a region written `"x,y wxh"`, or the first defect found.
pub open spec fn coordinates_of(s: Seq<char>) -> Result<(i32, i32, i32, i32), CoordError> {
    let w = words(s);
    if w.len() != 2 {
        Err(CoordError::WordCount)
    } else {
        let offset = split_on(w[0], ',');
        let size = split_on(w[1], 'x');
        if offset.len() != 2 {
            Err(CoordError::OffsetCount)
        } else if size.len() != 2 {
            Err(CoordError::SizeCount)
        } else {
            match (i32_of(offset[0]), i32_of(offset[1]), i32_of(size[0]), i32_of(size[1])) {
                (Some(a), Some(b), Some(c), Some(d)) => Ok((a, b, c, d)),
                _ => Err(CoordError::BadNumber),
            }
        }
    }
}

proof fn lemma_words_end_in_word(s: Seq<char>)
    requires
        s.len() > 0,
        !is_space_spec(s.last()),
    ensures
        words(s).len() >= 1,
    decreases s.len(),
{
    if s.len() >= 2 && !is_space_spec(s[s.len() - 2]) {
        lemma_words_end_in_word(s.drop_last());
    }
}

proof fn lemma_digits_value_nonneg(s: Seq<char>)
    requires
        forall|i: int| 0 <= i < s.len() ==> is_digit_spec(#[trigger] s[i]),
    ensures
        digits_value(s) >= 0,
    decreases s.len(),
{
    if s.len() > 0 {
        lemma_digits_value_nonneg(s.drop_last());
    }
}

/// Adding digits never makes the value smaller.
proof fn lemma_digits_value_grows(s: Seq<char>, k: int)
    requires
        0 <= k <= s.len(),
        forall|i: int| 0 <= i < s.len() ==> is_digit_spec(#[trigger] s[i]),
    ensures
        digits_value(s.take(k)) <= digits_value(s),
    decreases s.len(),
{
    if k < s.len() {
        let p = s.drop_last();
        lemma_digits_value_grows(p, k);
        lemma_digits_value_nonneg(p);
        assert(p.take(k) == s.take(k));
    } else {
        assert(s.take(k) == s);
    }
}

/// Whether `c` is a Unicode space, as `char::is_whitespace` tells.
pub fn is_space(c: char) -> (r: bool)
    ensures
        r == is_space_spec(c),
{
    let u = c as u32;
    (0x09 <= u && u <= 0x0D) || u == 0x20 || u == 0x85 || u == 0xA0 || u == 0x1680 || (0x2000
        <= u && u <= 0x200A) || u == 0x2028 || u == 0x2029 || u == 0x202F || u == 0x205F || u
        == 0x3000
}

/// The whitespace-separated words of `s`.
pub fn split_words(s: &Vec<char>) -> (r: Vec<Vec<char>>)
    ensures
        seqs_of(r@) == words(s@),
{
    let mut out: Vec<Vec<char>> = Vec::new();
    let mut i: usize = 0;
    assert(s@.take(0) =~= Seq::<char>::empty());
    assert(seqs_of(out@) =~= words(s@.take(0)));
    while i < s.len()
        invariant
            i <= s.len(),
            seqs_of(out@) == words(s@.take(i as int)),
        decreases s.len() - i,
    {
        let c = s[i];
        let ghost pre = s@.take(i as int);
        let ghost cur = s@.take(i + 1);
        assert(cur.drop_last() == pre);
        assert(cur.last() == c);
        if is_space(c) {
        } else if i >= 1 && !is_space(s[i - 1]) {
            assert(cur[cur.len() - 2] == s@[i - 1]);
            proof {
                lemma_words_end_in_word(pre);
            }
            let mut w = out.pop().unwrap();
            w.push(c);
            out.push(w);
            assert(seqs_of(out@) =~= words(cur));
        } else {
            if i >= 1 {
                assert(cur[cur.len() - 2] == s@[i - 1]);
            }
            let mut w: Vec<char> = Vec::new();
            w.push(c);
            out.push(w);
            assert(seqs_of(out@) =~= words(cur));
        }
        i += 1;
    }
    assert(s@.take(s.len() as int) == s@);
    out
}

/// Reads a decimal `i32` as `str::parse::<i32>` does.
pub fn parse_i32(s: &Vec<char>) -> (r: Option<i32>)
    ensures
        r == i32_of(s@),
{
    let n = s.len();
    if n == 0 {
        return None;
    }
    let neg = s[0] == '-';
    let start: usize = if s[0] == '-' || s[0] == '+' {
        1
    } else {
        0
    };
    if start == n {
        assert(!is_digit_spec(s@[0]));
        return None;
    }
    let ghost body = s@.subrange(start as int, n as int);
    proof {
        if start == 1 {
            assert(body == s@.drop_first());
            assert(!is_digit_spec(s@[0]));
        } else {
            assert(body == s@);
        }
    }
    let mut acc: i64 = 0;
    let mut i: usize = start;
    while i < n
        invariant
            start <= 1,
            start <= i <= n,
            n == s.len(),
            neg == (s@[0] == '-'),
            start == 1 ==> body == s@.drop_first() && !is_digit_spec(s@[0]) && (s@[0] == '-'
                || s@[0] == '+'),
            start == 0 ==> body == s@ && s@[0] != '-' && s@[0] != '+',
            body == s@.subrange(start as int, n as int),
            acc == digits_value(body.take(i - start)),
            0 <= acc <= 2147483648,
            forall|k: int| 0 <= k < i - start ==> is_digit_spec(#[trigger] body[k]),
        decreases n - i,
    {
        let u = s[i] as u32;
        if u < 48 || u > 57 {
            assert(!is_digit_spec(body[i - start]));
            assert(!all_digits(body));
            assert(!all_digits(s@));
            assert(integer_of(s@) is None);
            return None;
        }
        let ghost prefix = body.take(i + 1 - start);
        assert(prefix.drop_last() == body.take(i - start));
        assert(prefix.last() == s@[i as int]);
        assert(digits_value(prefix) == acc * 10 + (u - 48));
        acc = acc * 10 + (u - 48) as i64;
        i += 1;
        if acc > 2147483648 {
            proof {
                if all_digits(body) {
                    lemma_digits_value_grows(body, i - start);
                }
            }
            assert(i32_of(s@) is None);
            return None;
        }
    }
    assert(body.take(n - start) == body);
    if neg {
        Some((-acc) as i32)
    } else if acc <= 2147483647 {
        Some(acc as i32)
    } else {
        None
    }
}

/// Reads a capture region written `"x,y wxh"` into its four values.
pub fn parse_coordinates(input: &str) -> (r: Result<(i32, i32, i32, i32), CoordError>)
    ensures
        r == coordinates_of(input@),
{
    let chars = chars_of(input);
    let parts = split_words(&chars);
    if parts.len() != 2 {
        return Err(CoordError::WordCount);
    }
    let offset = split_chars(&parts[0], ',');
    if offset.len() != 2 {
        return Err(CoordError::OffsetCount);
    }
    let size = split_chars(&parts[1], 'x');
    if size.len() != 2 {
        return Err(CoordError::SizeCount);
    }
    let a = parse_i32(&offset[0]);
    let b = parse_i32(&offset[1]);
    let c = parse_i32(&size[0]);
    let d = parse_i32(&size[1]);
    match (a, b, c, d) {
        (Some(a), Some(b), Some(c), Some(d)) => Ok((a, b, c, d)),
        _ => Err(CoordError::BadNumber),
    }
}

} // verus!
