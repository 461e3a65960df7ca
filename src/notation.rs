use vstd::prelude::*;
use vstd::string::*;

verus! {

/// `s` with every space removed, order kept.
pub open spec fn strip_spaces(s: Seq<char>) -> Seq<char>
    decreases s.len(),
{
    if s.len() == 0 {
        s
    } else if s.last() == ' ' {
        strip_spaces(s.drop_last())
    } else {
        strip_spaces(s.drop_last()).push(s.last())
    }
}

pub open spec fn is_hex_digit(c: char) -> bool {
    ('0' <= c && c <= '9') || ('a' <= c && c <= 'f') || ('A' <= c && c <= 'F')
}

/// The value of a hexadecimal digit, in either case.
pub open spec fn hex_value(c: char) -> int {
    if '0' <= c && c <= '9' {
        c as int - '0' as int
    } else if 'a' <= c && c <= 'f' {
        c as int - 'a' as int + 10
    } else {
        c as int - 'A' as int + 10
    }
}

pub open spec fn is_decimal_digit(c: char) -> bool {
    '0' <= c && c <= '9'
}

/// The value of a string of decimal digits, most significant first.
pub open spec fn decimal_value(s: Seq<char>) -> nat
    decreases s.len(),
{
    if s.len() == 0 {
        0
    } else {
        decimal_value(s.drop_last()) * 10 + (s.last() as int - '0' as int) as nat
    }
}

/// A channel written in decimal: one or more digits, of value at most 255.
pub open spec fn decimal_channel(s: Seq<char>) -> Option<u8> {
    if s.len() > 0 && (forall|i: int| 0 <= i < s.len() ==> is_decimal_digit(#[trigger] s[i]))
        && decimal_value(s) <= 255 {
        Some(decimal_value(s) as u8)
    } else {
        None
    }
}

/// The index of the first comma in `s`, or `s.len()` where there is none.
pub open spec fn comma_index(s: Seq<char>) -> int
    decreases s.len(),
{
    if s.len() == 0 {
        0
    } else if s[0] == ',' {
        0
    } else {
        1 + comma_index(s.subrange(1, s.len() as int))
    }
}

/// The channels of `inner`, the text between the parentheses of `rgb(r,g,b)`.
pub open spec fn rgb_channels(inner: Seq<char>) -> Option<(u8, u8, u8)> {
    let i = comma_index(inner);
    let rest = inner.subrange(i + 1, inner.len() as int);
    let j = comma_index(rest);
    if i < inner.len() && j < rest.len() {
        match (
            decimal_channel(inner.subrange(0, i)),
            decimal_channel(rest.subrange(0, j)),
            decimal_channel(rest.subrange(j + 1, rest.len() as int)),
        ) {
            (Some(r), Some(g), Some(b)) => Some((r, g, b)),
            _ => None,
        }
    } else {
        None
    }
}

/// The channels that a color notation without spaces denotes: `#rgb` (each digit doubled),
/// `#rrggbb`, or `rgb(r,g,b)` with decimal channels; `None` for anything else.
pub open spec fn notation_channels(s: Seq<char>) -> Option<(u8, u8, u8)> {
    if s.len() == 4 && s[0] == '#' && is_hex_digit(s[1]) && is_hex_digit(s[2]) && is_hex_digit(
        s[3],
    ) {
        Some(
            (
                (17 * hex_value(s[1])) as u8,
                (17 * hex_value(s[2])) as u8,
                (17 * hex_value(s[3])) as u8,
            ),
        )
    } else if s.len() == 7 && s[0] == '#' && (forall|i: int|
        1 <= i < 7 ==> is_hex_digit(#[trigger] s[i])) {
        Some(
            (
                (16 * hex_value(s[1]) + hex_value(s[2])) as u8,
                (16 * hex_value(s[3]) + hex_value(s[4])) as u8,
                (16 * hex_value(s[5]) + hex_value(s[6])) as u8,
            ),
        )
    } else if s.len() >= 5 && s[0] == 'r' && s[1] == 'g' && s[2] == 'b' && s[3] == '(' && s.last()
        == ')' {
        rgb_channels(s.subrange(4, s.len() - 1))
    } else {
        None
    }
}

/// What `Color::parse` yields for `text`: spaces are ignored.
pub open spec fn parsed_channels(text: Seq<char>) -> Option<(u8, u8, u8)> {
    notation_channels(strip_spaces(text))
}

fn hex_digit(c: char) -> (r: Option<u8>)
    ensures
        is_hex_digit(c) ==> 0 <= hex_value(c) < 16 && r == Some(hex_value(c) as u8),
        !is_hex_digit(c) ==> r is None,
{
    if '0' <= c && c <= '9' {
        Some((c as u32 - '0' as u32) as u8)
    } else if 'a' <= c && c <= 'f' {
        Some((c as u32 - 'a' as u32 + 10) as u8)
    } else if 'A' <= c && c <= 'F' {
        Some((c as u32 - 'A' as u32 + 10) as u8)
    } else {
        None
    }
}

/// The characters of `text` without its spaces.
pub(crate) fn without_spaces(text: &str) -> (s: Vec<char>)
    ensures
        s@ == strip_spaces(text@),
{
    let n = text.unicode_len();
    let mut s: Vec<char> = Vec::new();
    let mut i: usize = 0;
    while i < n
        invariant
            n == text@.len(),
            i <= n,
            s@ == strip_spaces(text@.subrange(0, i as int)),
        decreases n - i,
    {
        let c = text.get_char(i);
        proof {
            let t = text@.subrange(0, i + 1);
            assert(t.drop_last() =~= text@.subrange(0, i as int));
            assert(t.last() == c);
        }
        if c != ' ' {
            s.push(c);
        }
        i += 1;
    }
    assert(text@.subrange(0, n as int) =~= text@);
    s
}

/// The channel written in decimal in `s[lo..hi]`.
fn decimal_channel_at(s: &Vec<char>, lo: usize, hi: usize) -> (r: Option<u8>)
    requires
        lo <= hi <= s@.len(),
    ensures
        r == decimal_channel(s@.subrange(lo as int, hi as int)),
{
    let ghost t = s@.subrange(lo as int, hi as int);
    if lo == hi {
        return None;
    }
    let mut v: u32 = 0;
    let mut i: usize = lo;
    while i < hi
        invariant
            lo <= i <= hi <= s@.len(),
            t == s@.subrange(lo as int, hi as int),
            forall|k: int| lo <= k < i ==> is_decimal_digit(#[trigger] s@[k]),
            v == (if decimal_value(s@.subrange(lo as int, i as int)) < 256 {
                decimal_value(s@.subrange(lo as int, i as int))
            } else {
                256
            }),
        decreases hi - i,
    {
        let c = s[i];
        if !('0' <= c && c <= '9') {
            assert(!is_decimal_digit(t[i - lo]));
            return None;
        }
        let d: u32 = c as u32 - '0' as u32;
        proof {
            let u = s@.subrange(lo as int, i + 1);
            assert(u.drop_last() =~= s@.subrange(lo as int, i as int));
            assert(u.last() == c);
        }
        let w: u32 = v * 10 + d;
        v = if w < 256 {
            w
        } else {
            256
        };
        i += 1;
    }
    assert(s@.subrange(lo as int, i as int) =~= t);
    assert(forall|k: int| 0 <= k < t.len() ==> is_decimal_digit(#[trigger] t[k])) by {
        assert(forall|k: int| 0 <= k < t.len() ==> t[k] == s@[lo + k]);
    }
    if v <= 255 {
        Some(v as u8)
    } else {
        None
    }
}

/// The index of the first comma in `s[lo..hi]`, or `hi` where there is none.
fn find_comma(s: &Vec<char>, lo: usize, hi: usize) -> (r: usize)
    requires
        lo <= hi <= s@.len(),
    ensures
        lo <= r <= hi,
        r - lo == comma_index(s@.subrange(lo as int, hi as int)),
{
    let mut i: usize = lo;
    while i < hi && s[i] != ','
        invariant
            lo <= i <= hi <= s@.len(),
            comma_index(s@.subrange(lo as int, hi as int)) == (i - lo) + comma_index(
                s@.subrange(i as int, hi as int),
            ),
        decreases hi - i,
    {
        proof {
            let t = s@.subrange(i as int, hi as int);
            assert(t.subrange(1, t.len() as int) =~= s@.subrange(i + 1, hi as int));
        }
        i += 1;
    }
    i
}

/// The channels of `rgb(r,g,b)` read from `s`, which is taken to open with `rgb(` and
/// close with `)`.
fn rgb_channels_at(s: &Vec<char>) -> (r: Option<(u8, u8, u8)>)
    requires
        s@.len() >= 5,
    ensures
        r == rgb_channels(s@.subrange(4, s@.len() - 1)),
{
    let end = s.len() - 1;
    let ghost inner = s@.subrange(4, end as int);
    let i = find_comma(s, 4, end);
    if i == end {
        return None;
    }
    let ghost rest = inner.subrange(i - 4 + 1, inner.len() as int);
    assert(rest =~= s@.subrange(i + 1, end as int));
    let j = find_comma(s, i + 1, end);
    if j == end {
        return None;
    }
    assert(inner.subrange(0, i - 4) =~= s@.subrange(4, i as int));
    assert(rest.subrange(0, j - (i + 1)) =~= s@.subrange(i + 1, j as int));
    assert(rest.subrange(j - (i + 1) + 1, rest.len() as int) =~= s@.subrange(
        j + 1,
        end as int,
    ));
    match (
        decimal_channel_at(s, 4, i),
        decimal_channel_at(s, i + 1, j),
        decimal_channel_at(s, j + 1, end),
    ) {
        (Some(r), Some(g), Some(b)) => Some((r, g, b)),
        _ => None,
    }
}

/// The channels that the space-free notation `s` denotes.
pub(crate) fn notation_of(s: &Vec<char>) -> (r: Option<(u8, u8, u8)>)
    ensures
        r == notation_channels(s@),
{
    let n = s.len();
    if n == 4 && s[0] == '#' {
        match (hex_digit(s[1]), hex_digit(s[2]), hex_digit(s[3])) {
            (Some(r), Some(g), Some(b)) => Some((17 * r, 17 * g, 17 * b)),
            _ => None,
        }
    } else if n == 7 && s[0] == '#' {
        match (
            hex_digit(s[1]),
            hex_digit(s[2]),
            hex_digit(s[3]),
            hex_digit(s[4]),
            hex_digit(s[5]),
            hex_digit(s[6]),
        ) {
            (Some(r1), Some(r2), Some(g1), Some(g2), Some(b1), Some(b2)) => {
                assert(forall|i: int| 1 <= i < 7 ==> is_hex_digit(#[trigger] s@[i]));
                Some((16 * r1 + r2, 16 * g1 + g2, 16 * b1 + b2))
            },
            _ => None,
        }
    } else if n >= 5 && s[0] == 'r' && s[1] == 'g' && s[2] == 'b' && s[3] == '(' && s[n - 1]
        == ')' {
        rgb_channels_at(s)
    } else {
        None
    }
}

} // verus!
