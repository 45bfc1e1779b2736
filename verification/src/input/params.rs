//! The parameters of an escape sequence: pieces of the byte buffer between
//! separators, and the decimal numbers written in them.

use vstd::prelude::*;

verus! {

/// Whether `b` is an ASCII decimal digit.
pub open spec fn is_digit(b: u8) -> bool {
    0x30 <= b <= 0x39
}

/// The first position at or after `from` and before `to` at which `s` holds
/// `b`; `to` where it holds none there.
pub open spec fn piece_end(s: Seq<u8>, from: int, to: int, b: u8) -> int
    decreases to - from,
{
    if from >= to {
        to
    } else if s[from] == b {
        from
    } else {
        piece_end(s, from + 1, to, b)
    }
}

/// Whether `s` holds only decimal digits from `from` up to `to`.
pub open spec fn all_digits(s: Seq<u8>, from: int, to: int) -> bool {
    forall|i: int| from <= i < to ==> is_digit(#[trigger] s[i])
}

/// The number whose decimal digits `s` holds from `from` up to `to`.
pub open spec fn digits_value(s: Seq<u8>, from: int, to: int) -> int
    decreases to - from,
{
    if from >= to {
        0
    } else {
        digits_value(s, from, to - 1) * 10 + (s[to - 1] - 0x30)
    }
}

/// The number written in `s` from `from` up to `to`: an optional `+`, then
/// one decimal digit or more, with a value of at most `max`. `None` where
/// the piece is not of that form.
pub open spec fn number(s: Seq<u8>, from: int, to: int, max: int) -> Option<int> {
    let start = if from < to && s[from] == 0x2b {
        from + 1
    } else {
        from
    };
    if start < to && all_digits(s, start, to) && digits_value(s, start, to) <= max {
        Some(digits_value(s, start, to))
    } else {
        None
    }
}

/// The numbers written in the pieces of `s` between `from` and `to` that the
/// byte `sep` parts, in order. `None` where one of the pieces is no number
/// that fits `usize`.
pub open spec fn numbers(s: Seq<u8>, from: int, to: int, sep: u8) -> Option<Seq<usize>>
    decreases to - from + 1,
{
    let end = piece_end(s, from, to, sep);
    match number(s, from, end, usize::MAX as int) {
        None => None,
        Some(first) => if end >= to {
            Some(seq![first as usize])
        } else {
            prepend(first as usize, numbers(s, end + 1, to, sep))
        },
    }
}

/// `rest` with `first` put before it.
pub open spec fn prepend(first: usize, rest: Option<Seq<usize>>) -> Option<Seq<usize>> {
    match rest {
        None => None,
        Some(rest) => Some(seq![first] + rest),
    }
}

/// `rest` with all of `before` put before it.
pub open spec fn prepend_all(before: Seq<usize>, rest: Option<Seq<usize>>) -> Option<Seq<usize>> {
    match rest {
        None => None,
        Some(rest) => Some(before + rest),
    }
}

/// What `piece_end` returns: a position between `from` and `to` before
/// which, from `from` on, `s` does not hold `b`, and at which it holds `b`
/// unless the position is `to`.
pub proof fn lemma_piece_end_bounds(s: Seq<u8>, from: int, to: int, b: u8)
    requires
        from <= to,
    ensures
        from <= piece_end(s, from, to, b) <= to,
        piece_end(s, from, to, b) < to ==> s[piece_end(s, from, to, b)] == b,
        forall|i: int| from <= i < piece_end(s, from, to, b) ==> s[i] != b,
    decreases to - from,
{
    if from < to && s[from] != b {
        lemma_piece_end_bounds(s, from + 1, to, b);
    }
}

proof fn lemma_digits_nonnegative(s: Seq<u8>, from: int, to: int)
    requires
        all_digits(s, from, to),
    ensures
        0 <= digits_value(s, from, to),
    decreases to - from,
{
    if from < to {
        lemma_digits_nonnegative(s, from, to - 1);
        assert(is_digit(s[to - 1]));
    }
}

proof fn lemma_digits_grow(s: Seq<u8>, from: int, mid: int, to: int)
    requires
        from <= mid <= to,
        all_digits(s, from, to),
    ensures
        0 <= digits_value(s, from, mid) <= digits_value(s, from, to),
    decreases to - mid,
{
    lemma_digits_nonnegative(s, from, mid);
    if mid < to {
        lemma_digits_grow(s, from, mid, to - 1);
        assert(is_digit(s[to - 1]));
    }
}

/// The first position of `b` in `buf` at or after `from` and before `to`.
pub fn find_byte(buf: &[u8], from: usize, to: usize, b: u8) -> (end: usize)
    requires
        from <= to <= buf@.len(),
    ensures
        end == piece_end(buf@, from as int, to as int, b),
        from <= end <= to,
{
    let mut i: usize = from;
    while i < to && buf[i] != b
        invariant
            from <= i <= to <= buf@.len(),
            piece_end(buf@, from as int, to as int, b) == piece_end(buf@, i as int, to as int, b),
        decreases to - i,
    {
        i += 1;
    }
    i
}

/// The number written in `buf` from `from` up to `to`.
pub fn parse_number(buf: &[u8], from: usize, to: usize, max: usize) -> (value: Option<usize>)
    requires
        from <= to <= buf@.len(),
    ensures
        match value {
            Some(v) => number(buf@, from as int, to as int, max as int) == Some(v as int),
            None => number(buf@, from as int, to as int, max as int) is None,
        },
{
    let start: usize = if from < to && buf[from] == 0x2b {
        from + 1
    } else {
        from
    };
    if start >= to {
        return None;
    }
    let mut value: usize = 0;
    let mut i: usize = start;
    while i < to
        invariant
            start <= i <= to <= buf@.len(),
            start == if from < to && buf@[from as int] == 0x2b {
                from + 1
            } else {
                from as int
            },
            all_digits(buf@, start as int, i as int),
            value == digits_value(buf@, start as int, i as int),
            value <= max,
        decreases to - i,
    {
        let b = buf[i];
        if b < 0x30 || b > 0x39 {
            assert(!is_digit(buf@[i as int]));
            return None;
        }
        let d: usize = (b - 0x30) as usize;
        if d > max || value > (max - d) / 10 {
            proof {
                if all_digits(buf@, start as int, to as int) {
                    lemma_digits_grow(buf@, start as int, i + 1, to as int);
                    assert(digits_value(buf@, start as int, i + 1) == value * 10 + d);
                }
            }
            return None;
        }
        value = value * 10 + d;
        i += 1;
    }
    Some(value)
}

/// The numbers written in the pieces of `buf` between `from` and `to` that
/// the byte `sep` parts.
pub fn parse_numbers(buf: &[u8], from: usize, to: usize, sep: u8) -> (values: Option<Vec<usize>>)
    requires
        from <= to <= buf@.len(),
    ensures
        match values {
            Some(v) => numbers(buf@, from as int, to as int, sep) == Some(v@),
            None => numbers(buf@, from as int, to as int, sep) is None,
        },
{
    let mut values: Vec<usize> = Vec::new();
    let mut cur: usize = from;
    assert(Seq::<usize>::empty() + numbers(buf@, from as int, to as int, sep).unwrap() =~= numbers(
        buf@,
        from as int,
        to as int,
        sep,
    ).unwrap());
    loop
        invariant
            from <= cur <= to <= buf@.len(),
            numbers(buf@, from as int, to as int, sep) == prepend_all(
                values@,
                numbers(buf@, cur as int, to as int, sep),
            ),
        decreases to - cur,
    {
        let end = find_byte(buf, cur, to, sep);
        match parse_number(buf, cur, end, usize::MAX) {
            None => {
                return None;
            },
            Some(first) => {
                let ghost before = values@;
                values.push(first);
                if end >= to {
                    assert(before + seq![first] =~= values@);
                    return Some(values);
                }
                proof {
                    let rest = numbers(buf@, end + 1, to as int, sep);
                    if rest is Some {
                        assert(before + (seq![first] + rest.unwrap()) =~= values@ + rest.unwrap());
                    }
                }
                cur = end + 1;
            },
        }
    }
}

} // verus!
