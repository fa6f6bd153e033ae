//! Text helpers: the std string operations the library uses, decimal
//! formatting and parsing of integers, whitespace trimming, padding and
//! list formatting, with the specifications that describe them.
use vstd::prelude::*;

verus! {

/// `String::push` appends one character.
pub assume_specification[ String::push ](s: &mut String, ch: char)
    ensures
        final(s)@ == old(s)@.push(ch),
;

/// `String::pop` removes the last character and returns it, or returns
/// `None` and leaves the string alone when it is empty.
pub assume_specification[ String::pop ](s: &mut String) -> (r: Option<char>)
    ensures
        old(s)@.len() == 0 ==> r is None && final(s)@ == old(s)@,
        old(s)@.len() > 0 ==> r == Some(old(s)@.last()) && final(s)@ == old(s)@.drop_last(),
;

/// `String::clear` leaves the string empty.
pub assume_specification[ String::clear ](s: &mut String)
    ensures
        final(s)@ == Seq::<char>::empty(),
;

/// `String::truncate` keeps the first `new_len` bytes. On an ASCII string
/// each character is one byte, so it keeps the first `new_len` characters
/// (all of them when the string is shorter). Strings with other characters
/// are left out: there the length counts bytes and a cut inside a character
/// panics.
pub assume_specification[ String::truncate ](s: &mut String, new_len: usize)
    requires
        vstd::utf8::is_ascii_chars(old(s)@),
    ensures
        new_len < old(s)@.len() ==> final(s)@ == old(s)@.take(new_len as int),
        new_len >= old(s)@.len() ==> final(s)@ == old(s)@,
;

/// A line of output: the text followed by a newline.
pub open spec fn line(s: Seq<char>) -> Seq<char> {
    s.push('\n')
}

/// `n` spaces.
pub open spec fn spaces(n: int) -> Seq<char> {
    Seq::new(n as nat, |i: int| ' ')
}

// ---------------------------------------------------------------------
// Decimal formatting
// ---------------------------------------------------------------------

/// The ASCII digit for `d` (0 to 9).
pub open spec fn digit_char(d: int) -> char {
    if d == 0 {
        '0'
    } else if d == 1 {
        '1'
    } else if d == 2 {
        '2'
    } else if d == 3 {
        '3'
    } else if d == 4 {
        '4'
    } else if d == 5 {
        '5'
    } else if d == 6 {
        '6'
    } else if d == 7 {
        '7'
    } else if d == 8 {
        '8'
    } else {
        '9'
    }
}

/// The decimal digits of a natural number, without leading zeros.
pub open spec fn nat_dec(n: nat) -> Seq<char>
    decreases n,
{
    if n < 10 {
        seq![digit_char(n as int)]
    } else {
        nat_dec((n / 10) as nat).push(digit_char((n % 10) as int))
    }
}

/// The decimal text of an integer, as `Display` writes it: a minus sign
/// before negative numbers.
pub open spec fn dec(n: int) -> Seq<char> {
    if n < 0 {
        seq!['-'] + nat_dec((-n) as nat)
    } else {
        nat_dec(n as nat)
    }
}

fn digit(d: u64) -> (c: char)
    requires
        d < 10,
    ensures
        c == digit_char(d as int),
{
    if d == 0 {
        '0'
    } else if d == 1 {
        '1'
    } else if d == 2 {
        '2'
    } else if d == 3 {
        '3'
    } else if d == 4 {
        '4'
    } else if d == 5 {
        '5'
    } else if d == 6 {
        '6'
    } else if d == 7 {
        '7'
    } else if d == 8 {
        '8'
    } else {
        '9'
    }
}

fn push_nat_dec(out: &mut String, n: u64)
    ensures
        final(out)@ == old(out)@ + nat_dec(n as nat),
    decreases n,
{
    if n >= 10 {
        push_nat_dec(out, n / 10);
    }
    out.push(digit(n % 10));
    assert(out@ =~= old(out)@ + nat_dec(n as nat));
}

/// Appends the decimal text of `n`.
pub fn push_dec(out: &mut String, n: i64)
    ensures
        final(out)@ == old(out)@ + dec(n as int),
{
    if n < 0 {
        out.push('-');
        let m: u64 = (0i128 - (n as i128)) as u64;
        push_nat_dec(out, m);
        assert(out@ =~= old(out)@ + dec(n as int));
    } else {
        push_nat_dec(out, n as u64);
    }
}

/// The decimal text of `n`.
pub fn decimal(n: i64) -> (r: String)
    ensures
        r@ == dec(n as int),
{
    let mut s = String::new();
    push_dec(&mut s, n);
    assert(s@ =~= dec(n as int));
    s
}

// ---------------------------------------------------------------------
// Decimal parsing
// ---------------------------------------------------------------------

/// An ASCII digit.
pub open spec fn is_digit(c: char) -> bool {
    '0' <= c && c <= '9'
}

/// The value of an ASCII digit.
pub open spec fn digit_value(c: char) -> int {
    (c as int) - ('0' as int)
}

/// All characters are ASCII digits.
pub open spec fn all_digits(s: Seq<char>) -> bool {
    forall|i: int| 0 <= i < s.len() ==> is_digit(#[trigger] s[i])
}

/// The number that a string of digits writes in decimal.
pub open spec fn digits_value(s: Seq<char>) -> int
    decreases s.len(),
{
    if s.len() == 0 {
        0
    } else {
        digits_value(s.drop_last()) * 10 + digit_value(s.last())
    }
}

/// The sign of a number text and the digits after it: a leading `-` makes
/// it negative, a leading `+` is dropped.
pub open spec fn sign_split(s: Seq<char>) -> (bool, Seq<char>) {
    if s.len() > 0 && s[0] == '-' {
        (true, s.drop_first())
    } else if s.len() > 0 && s[0] == '+' {
        (false, s.drop_first())
    } else {
        (false, s)
    }
}

/// What `str::parse::<i32>` gives: an optional sign, then one or more ASCII
/// digits, whose value must fit in `i32`; anything else is refused.
pub open spec fn parse_i32(s: Seq<char>) -> Option<i32> {
    let body = sign_split(s).1;
    let v = if sign_split(s).0 {
        -digits_value(body)
    } else {
        digits_value(body)
    };
    if body.len() > 0 && all_digits(body) && i32::MIN <= v <= i32::MAX {
        Some(v as i32)
    } else {
        None
    }
}

/// The characters of a string slice, in order.
pub fn chars_of(s: &str) -> (r: Vec<char>)
    ensures
        r@ == s@,
{
    let n = s.unicode_len();
    let mut r: Vec<char> = Vec::new();
    let mut i: usize = 0;
    while i < n
        invariant
            n == s@.len(),
            i <= n,
            r@ == s@.take(i as int),
        decreases n - i,
    {
        r.push(s.get_char(i));
        i = i + 1;
        assert(r@ =~= s@.take(i as int));
    }
    assert(s@.take(n as int) =~= s@);
    r
}

/// Parses a decimal `i32` the way `str::parse::<i32>` does.
pub fn parse_i32_chars(s: &Vec<char>) -> (r: Option<i32>)
    ensures
        r == parse_i32(s@),
{
    let n = s.len();
    let mut start: usize = 0;
    let mut neg = false;
    if n > 0 && s[0] == '-' {
        start = 1;
        neg = true;
    } else if n > 0 && s[0] == '+' {
        start = 1;
    }
    let ghost body = sign_split(s@).1;
    assert(body =~= s@.skip(start as int));
    if start >= n {
        return None;
    }
    // The value so far, held at 2^31 + 1 once it is larger than that.
    let cap: i64 = 2147483649;
    let mut acc: i64 = 0;
    let mut i: usize = start;
    while i < n
        invariant
            start <= i <= n,
            n == s@.len(),
            body == s@.skip(start as int),
            body == sign_split(s@).1,
            neg == sign_split(s@).0,
            cap == 2147483649,
            all_digits(body.take(i - start)),
            acc == (if digits_value(body.take(i - start)) < cap {
                digits_value(body.take(i - start))
            } else {
                cap as int
            }),
            0 <= acc <= cap,
        decreases n - i,
    {
        let c = s[i];
        if !('0' <= c && c <= '9') {
            assert(body[i - start] == c);
            assert(!is_digit(body[i - start]));
            assert(!all_digits(body));
            return None;
        }
        let d = (c as u32 - '0' as u32) as i64;
        let ghost prev = body.take(i - start);
        let ghost next = body.take(i - start + 1);
        assert(next.drop_last() =~= prev);
        assert(next.last() == c);
        assert(digits_value(next) == digits_value(prev) * 10 + digit_value(c));
        let t = acc * 10 + d;
        acc = if t < cap {
            t
        } else {
            cap
        };
        i = i + 1;
        assert(all_digits(body.take(i - start))) by {
            assert forall|k: int| 0 <= k < next.len() implies is_digit(#[trigger] next[k]) by {
                if k < prev.len() {
                    assert(next[k] == prev[k]);
                }
            }
        }
    }
    assert(body.take(n - start) =~= body);
    if neg {
        if acc <= 2147483648 {
            Some((0 - acc) as i32)
        } else {
            None
        }
    } else {
        if acc <= 2147483647 {
            Some(acc as i32)
        } else {
            None
        }
    }
}

// ---------------------------------------------------------------------
// Whitespace
// ---------------------------------------------------------------------

/// A character with the Unicode `White_Space` property, the set that
/// `char::is_whitespace` accepts.
pub open spec fn is_ws(c: char) -> bool {
    let u = c as int;
    ||| 0x9 <= u <= 0xd
    ||| u == 0x20
    ||| u == 0x85
    ||| u == 0xa0
    ||| u == 0x1680
    ||| 0x2000 <= u <= 0x200a
    ||| u == 0x2028
    ||| u == 0x2029
    ||| u == 0x202f
    ||| u == 0x205f
    ||| u == 0x3000
}

fn whitespace(c: char) -> (r: bool)
    ensures
        r == is_ws(c),
{
    let u = c as u32;
    (0x9 <= u && u <= 0xd) || u == 0x20 || u == 0x85 || u == 0xa0 || u == 0x1680 || (0x2000 <= u
        && u <= 0x200a) || u == 0x2028 || u == 0x2029 || u == 0x202f || u == 0x205f || u == 0x3000
}

/// The text without its leading whitespace.
pub open spec fn trim_start(s: Seq<char>) -> Seq<char>
    decreases s.len(),
{
    if s.len() > 0 && is_ws(s[0]) {
        trim_start(s.drop_first())
    } else {
        s
    }
}

/// The text without its trailing whitespace.
pub open spec fn trim_end(s: Seq<char>) -> Seq<char>
    decreases s.len(),
{
    if s.len() > 0 && is_ws(s.last()) {
        trim_end(s.drop_last())
    } else {
        s
    }
}

/// What `str::trim` gives: the text without leading and trailing whitespace.
pub open spec fn trim(s: Seq<char>) -> Seq<char> {
    trim_end(trim_start(s))
}

proof fn lemma_trim_start_skip(s: Seq<char>, i: int)
    requires
        0 <= i <= s.len(),
        forall|k: int| 0 <= k < i ==> is_ws(#[trigger] s[k]),
    ensures
        trim_start(s) == trim_start(s.skip(i)),
    decreases i,
{
    if i > 0 {
        assert(is_ws(s[0]));
        let t = s.drop_first();
        assert forall|k: int| 0 <= k < i - 1 implies is_ws(#[trigger] t[k]) by {
            assert(t[k] == s[k + 1]);
        }
        lemma_trim_start_skip(t, i - 1);
        assert(t.skip(i - 1) =~= s.skip(i));
    } else {
        assert(s.skip(0) =~= s);
    }
}

proof fn lemma_trim_end_take(s: Seq<char>, j: int)
    requires
        0 <= j <= s.len(),
        forall|k: int| j <= k < s.len() ==> is_ws(#[trigger] s[k]),
    ensures
        trim_end(s) == trim_end(s.take(j)),
    decreases s.len() - j,
{
    if j < s.len() {
        assert(is_ws(s.last()));
        let t = s.drop_last();
        assert forall|k: int| j <= k < t.len() implies is_ws(#[trigger] t[k]) by {
            assert(t[k] == s[k]);
        }
        lemma_trim_end_take(t, j);
        assert(t.take(j) =~= s.take(j));
    } else {
        assert(s.take(j) =~= s);
    }
}

/// The characters of `s` without leading and trailing whitespace, as
/// `str::trim` leaves them.
pub fn trim_chars(s: &Vec<char>) -> (r: Vec<char>)
    ensures
        r@ == trim(s@),
{
    let n = s.len();
    let mut a: usize = 0;
    while a < n && whitespace(s[a])
        invariant
            a <= n,
            n == s@.len(),
            forall|k: int| 0 <= k < a ==> is_ws(#[trigger] s@[k]),
        decreases n - a,
    {
        a = a + 1;
    }
    proof {
        lemma_trim_start_skip(s@, a as int);
    }
    let ghost rest = s@.skip(a as int);
    assert(a < n ==> !is_ws(rest[0]));
    assert(a < n ==> trim_start(rest) == rest);
    assert(a == n ==> rest.len() == 0);
    let mut b: usize = n;
    while b > a && whitespace(s[b - 1])
        invariant
            a <= b <= n,
            n == s@.len(),
            forall|k: int| b <= k < n ==> is_ws(#[trigger] s@[k]),
        decreases b,
    {
        b = b - 1;
    }
    let mut r: Vec<char> = Vec::new();
    let mut i: usize = a;
    while i < b
        invariant
            a <= i <= b,
            b <= n,
            n == s@.len(),
            r@ == s@.subrange(a as int, i as int),
        decreases b - i,
    {
        r.push(s[i]);
        i = i + 1;
        assert(r@ =~= s@.subrange(a as int, i as int));
    }
    proof {
        let t = trim_start(s@);
        assert(t == rest);
        assert forall|k: int| (b - a) <= k < t.len() implies is_ws(#[trigger] t[k]) by {
            assert(t[k] == s@[k + a]);
        }
        lemma_trim_end_take(t, b - a);
        assert(t.take(b - a) =~= s@.subrange(a as int, b as int));
        let u = t.take(b - a);
        if b > a {
            assert(!is_ws(s@[b - 1]));
            assert(u.last() == s@[b - 1]);
        }
        assert(trim_end(u) == u);
    }
    r
}

/// The id a user typed: the text trimmed, then read as an `i32`, as
/// `input.trim().parse::<i32>()` reads it.
pub open spec fn parse_id(s: Seq<char>) -> Option<i32> {
    parse_i32(trim(s))
}

/// Reads an id from user input, as `input.trim().parse::<i32>()` does.
pub fn parse_id_str(s: &str) -> (r: Option<i32>)
    ensures
        r == parse_id(s@),
{
    let cs = chars_of(s);
    let t = trim_chars(&cs);
    parse_i32_chars(&t)
}

/// Whether the text is empty once trimmed, as `s.trim().is_empty()`.
pub fn is_blank(s: &str) -> (r: bool)
    ensures
        r == (trim(s@).len() == 0),
{
    let cs = chars_of(s);
    let t = trim_chars(&cs);
    t.len() == 0
}

/// The two strings hold the same characters.
pub fn str_equal(a: &str, b: &str) -> (r: bool)
    ensures
        r == (a@ == b@),
{
    let x = a.to_owned();
    let y = b.to_owned();
    x == y
}

// ---------------------------------------------------------------------
// Padding, as the `{:>w}`, `{:<w}` and `{:^w}` format specifiers pad
// ---------------------------------------------------------------------

/// Right-aligned in a field of `w` characters.
pub open spec fn align_right(s: Seq<char>, w: int) -> Seq<char> {
    if s.len() >= w {
        s
    } else {
        spaces(w - s.len()) + s
    }
}

/// Left-aligned in a field of `w` characters.
pub open spec fn align_left(s: Seq<char>, w: int) -> Seq<char> {
    if s.len() >= w {
        s
    } else {
        s + spaces(w - s.len())
    }
}

/// Centred in a field of `w` characters; an odd space goes to the right.
pub open spec fn align_center(s: Seq<char>, w: int) -> Seq<char> {
    if s.len() >= w {
        s
    } else {
        spaces((w - s.len()) / 2) + s + spaces((w - s.len()) - (w - s.len()) / 2)
    }
}

/// Appends `n` spaces.
pub fn push_spaces(out: &mut String, n: usize)
    ensures
        final(out)@ == old(out)@ + spaces(n as int),
{
    let mut i: usize = 0;
    while i < n
        invariant
            i <= n,
            out@ == old(out)@ + spaces(i as int),
        decreases n - i,
    {
        out.push(' ');
        i = i + 1;
        assert(out@ =~= old(out)@ + spaces(i as int));
    }
}

/// Where a text goes in a wider field.
#[derive(Clone, Copy, Debug, PartialEq, Eq, Structural)]
pub enum Align {
    /// `{:>w}`
    Right,
    /// `{:<w}`
    Left,
    /// `{:^w}`
    Center,
}

/// `s` in a field of `w` characters with the given alignment.
pub open spec fn aligned(s: Seq<char>, w: int, how: Align) -> Seq<char> {
    match how {
        Align::Right => align_right(s, w),
        Align::Left => align_left(s, w),
        Align::Center => align_center(s, w),
    }
}

/// Appends `s` in a field of `w` characters with the given alignment.
pub fn push_aligned(out: &mut String, s: &str, w: usize, how: Align)
    ensures
        final(out)@ == old(out)@ + aligned(s@, w as int, how),
{
    let len = s.unicode_len();
    if len >= w {
        out.append(s);
    } else {
        let pad = w - len;
        match how {
            Align::Right => {
                push_spaces(out, pad);
                out.append(s);
            },
            Align::Left => {
                out.append(s);
                push_spaces(out, pad);
            },
            Align::Center => {
                push_spaces(out, pad / 2);
                out.append(s);
                push_spaces(out, pad - pad / 2);
            },
        }
        assert(out@ =~= old(out)@ + aligned(s@, w as int, how));
    }
}

// ---------------------------------------------------------------------
// Lists
// ---------------------------------------------------------------------

/// The parts joined with `sep` between neighbours.
pub open spec fn join(parts: Seq<Seq<char>>, sep: Seq<char>) -> Seq<char>
    decreases parts.len(),
{
    if parts.len() == 0 {
        Seq::empty()
    } else if parts.len() == 1 {
        parts[0]
    } else {
        join(parts.drop_last(), sep) + sep + parts.last()
    }
}

/// The decimal texts of the numbers.
pub open spec fn dec_all(s: Seq<int>) -> Seq<Seq<char>> {
    Seq::new(s.len(), |i: int| dec(s[i]))
}

/// A list of numbers as `{:?}` writes it: `[1, 2, 3]`.
pub open spec fn debug_list(s: Seq<int>) -> Seq<char> {
    seq!['['] + join(dec_all(s), seq![',', ' ']) + seq![']']
}

/// The numbers of a `Vec<i32>`.
pub open spec fn ints_i32(v: Seq<i32>) -> Seq<int> {
    Seq::new(v.len(), |i: int| v[i] as int)
}

/// The numbers of a `Vec<u8>`.
pub open spec fn ints_u8(v: Seq<u8>) -> Seq<int> {
    Seq::new(v.len(), |i: int| v[i] as int)
}

/// Appends the numbers joined by `sep`.
fn push_joined(out: &mut String, v: &Vec<i64>, sep: &str)
    ensures
        final(out)@ == old(out)@ + join(dec_all(Seq::new(v@.len(), |i: int| v@[i] as int)), sep@),
{
    let ghost nums = Seq::new(v@.len(), |i: int| v@[i] as int);
    let ghost parts = dec_all(nums);
    let n = v.len();
    let mut i: usize = 0;
    while i < n
        invariant
            i <= n,
            n == v@.len(),
            nums == Seq::new(v@.len(), |i: int| v@[i] as int),
            parts == dec_all(nums),
            out@ == old(out)@ + join(parts.take(i as int), sep@),
        decreases n - i,
    {
        let ghost before = out@;
        if i > 0 {
            out.append(sep);
        }
        push_dec(out, v[i]);
        proof {
            let p = parts.take(i + 1);
            assert(p.drop_last() =~= parts.take(i as int));
            assert(p.last() == dec(v@[i as int] as int));
            if i == 0 {
                assert(join(p, sep@) == p[0]);
            }
        }
        i = i + 1;
        assert(out@ =~= old(out)@ + join(parts.take(i as int), sep@));
    }
    assert(parts.take(n as int) =~= parts);
}

/// The numbers of a `Vec<i32>`, widened to `i64`.
pub fn widen_i32(v: &Vec<i32>) -> (r: Vec<i64>)
    ensures
        r@.len() == v@.len(),
        forall|k: int| 0 <= k < v@.len() ==> r@[k] as int == v@[k] as int,
{
    let mut w: Vec<i64> = Vec::new();
    let mut i: usize = 0;
    while i < v.len()
        invariant
            i <= v@.len(),
            w@.len() == i,
            forall|k: int| 0 <= k < i ==> w@[k] as int == v@[k] as int,
        decreases v@.len() - i,
    {
        w.push(v[i] as i64);
        i = i + 1;
    }
    w
}

/// The numbers of a `Vec<u8>`, widened to `i64`.
pub fn widen_u8(v: &Vec<u8>) -> (r: Vec<i64>)
    ensures
        r@.len() == v@.len(),
        forall|k: int| 0 <= k < v@.len() ==> r@[k] as int == v@[k] as int,
{
    let mut w: Vec<i64> = Vec::new();
    let mut i: usize = 0;
    while i < v.len()
        invariant
            i <= v@.len(),
            w@.len() == i,
            forall|k: int| 0 <= k < i ==> w@[k] as int == v@[k] as int,
        decreases v@.len() - i,
    {
        w.push(v[i] as i64);
        i = i + 1;
    }
    w
}

/// Numbers as `{:?}` writes a list of them.
fn debug_i64s(w: &Vec<i64>) -> (r: String)
    ensures
        r@ == debug_list(Seq::new(w@.len(), |i: int| w@[i] as int)),
{
    let mut r = String::new();
    r.push('[');
    push_joined(&mut r, w, ", ");
    r.push(']');
    proof {
        reveal_strlit(", ");
        assert(", "@ =~= seq![',', ' ']);
    }
    assert(r@ =~= debug_list(Seq::new(w@.len(), |i: int| w@[i] as int)));
    r
}

/// A `Vec<i32>` as `{:?}` writes it.
pub fn debug_i32s(v: &Vec<i32>) -> (r: String)
    ensures
        r@ == debug_list(ints_i32(v@)),
{
    let w = widen_i32(v);
    let r = debug_i64s(&w);
    assert(Seq::new(w@.len(), |i: int| w@[i] as int) =~= ints_i32(v@));
    r
}

/// A `Vec<u8>` as `{:?}` writes it.
pub fn debug_u8s(v: &Vec<u8>) -> (r: String)
    ensures
        r@ == debug_list(ints_u8(v@)),
{
    let w = widen_u8(v);
    let r = debug_i64s(&w);
    assert(Seq::new(w@.len(), |i: int| w@[i] as int) =~= ints_u8(v@));
    r
}

/// Numbers joined by single spaces, as `join(" ")` joins their texts.
pub fn join_spaced(v: &Vec<i64>) -> (r: String)
    ensures
        r@ == join(dec_all(Seq::new(v@.len(), |i: int| v@[i] as int)), seq![' ']),
{
    let mut r = String::new();
    push_joined(&mut r, v, " ");
    proof {
        reveal_strlit(" ");
        assert(" "@ =~= seq![' ']);
    }
    assert(r@ =~= join(dec_all(Seq::new(v@.len(), |i: int| v@[i] as int)), seq![' ']));
    r
}

// ---------------------------------------------------------------------
// Reading back what was written
// ---------------------------------------------------------------------

proof fn lemma_digit_char(d: int)
    requires
        0 <= d < 10,
    ensures
        is_digit(digit_char(d)),
        digit_value(digit_char(d)) == d,
        !is_ws(digit_char(d)),
{
}

proof fn lemma_nat_dec(m: nat)
    ensures
        nat_dec(m).len() > 0,
        all_digits(nat_dec(m)),
        digits_value(nat_dec(m)) == m,
    decreases m,
{
    if m < 10 {
        lemma_digit_char(m as int);
        assert(nat_dec(m).drop_last() =~= Seq::<char>::empty());
        assert(digits_value(Seq::<char>::empty()) == 0);
        assert(digits_value(nat_dec(m)) == digits_value(nat_dec(m).drop_last()) * 10 + digit_value(
            nat_dec(m).last(),
        ));
    } else {
        let q = (m / 10) as nat;
        let d = (m % 10) as int;
        lemma_nat_dec(q);
        lemma_digit_char(d);
        let s = nat_dec(m);
        assert(s.drop_last() =~= nat_dec(q));
        assert forall|i: int| 0 <= i < s.len() implies is_digit(#[trigger] s[i]) by {
            if i < s.len() - 1 {
                assert(s[i] == nat_dec(q)[i]);
            }
        }
        assert(q * 10 + d == m);
        assert(s.last() == digit_char(d));
        assert(digits_value(s) == digits_value(s.drop_last()) * 10 + digit_value(s.last()));
    }
}

/// Reading a number back: the decimal text of any `i32` parses to that
/// same `i32`.
pub proof fn law_parse_reads_dec(n: i32)
    ensures
        parse_i32(dec(n as int)) == Some(n),
{
    let s = dec(n as int);
    if n < 0 {
        let m = (-n) as nat;
        lemma_nat_dec(m);
        assert(nat_dec(m)[0] != '-' && nat_dec(m)[0] != '+') by {
            assert(is_digit(nat_dec(m)[0]));
        }
        assert(s[0] == '-');
        assert(s.drop_first() =~= nat_dec(m));
    } else {
        let m = n as nat;
        lemma_nat_dec(m);
        assert(is_digit(nat_dec(m)[0]));
        assert(s[0] != '-' && s[0] != '+');
    }
}

proof fn lemma_no_ws_trim(s: Seq<char>)
    requires
        s.len() > 0,
        !is_ws(s[0]),
        !is_ws(s.last()),
    ensures
        trim(s) == s,
{
}

/// An id shown by the library reads back: for every `i32`, the id that
/// `parse_id` takes from its decimal text is that number.
pub proof fn law_id_round_trip(n: i32)
    ensures
        parse_id(dec(n as int)) == Some(n),
{
    let s = dec(n as int);
    let m: nat = if n < 0 {
        (-n) as nat
    } else {
        n as nat
    };
    lemma_nat_dec(m);
    let t = nat_dec(m);
    assert(is_digit(t[0]));
    assert(is_digit(t[t.len() - 1]));
    assert(!is_ws(t[0]));
    assert(!is_ws(t.last()));
    if n < 0 {
        assert(s[0] == '-');
        assert(s.last() == t.last());
    } else {
        assert(s == t);
    }
    lemma_no_ws_trim(s);
    law_parse_reads_dec(n);
}

/// Trimming drops exactly the whitespace around a text: a text that neither
/// starts nor ends with whitespace, with any whitespace before and after
/// it, trims to itself.
pub proof fn law_trim_drops_outer_ws(lead: Seq<char>, t: Seq<char>, trail: Seq<char>)
    requires
        t.len() > 0,
        !is_ws(t[0]),
        !is_ws(t.last()),
        forall|k: int| 0 <= k < lead.len() ==> is_ws(#[trigger] lead[k]),
        forall|k: int| 0 <= k < trail.len() ==> is_ws(#[trigger] trail[k]),
    ensures
        trim(lead + t + trail) == t,
{
    let s = lead + t + trail;
    assert forall|k: int| 0 <= k < lead.len() implies is_ws(#[trigger] s[k]) by {
        assert(s[k] == lead[k]);
    }
    lemma_trim_start_skip(s, lead.len() as int);
    let u = s.skip(lead.len() as int);
    assert(u =~= t + trail);
    assert(trim_start(u) == u) by {
        assert(u[0] == t[0]);
    }
    assert forall|k: int| t.len() <= k < u.len() implies is_ws(#[trigger] u[k]) by {
        assert(u[k] == trail[k - t.len()]);
    }
    lemma_trim_end_take(u, t.len() as int);
    assert(u.take(t.len() as int) =~= t);
    assert(trim_end(t) == t) by {
        assert(t.last() == t[t.len() - 1]);
    }
}

/// An id typed with whitespace around it reads as that id: for every
/// `i32` `n`, its decimal text with any whitespace before and after it
/// parses to `n`, as `input.trim().parse::<i32>()` reads it.
pub proof fn law_id_with_spaces(lead: Seq<char>, n: i32, trail: Seq<char>)
    requires
        forall|k: int| 0 <= k < lead.len() ==> is_ws(#[trigger] lead[k]),
        forall|k: int| 0 <= k < trail.len() ==> is_ws(#[trigger] trail[k]),
    ensures
        parse_id(lead + dec(n as int) + trail) == Some(n),
{
    let s = dec(n as int);
    let m: nat = if n < 0 {
        (-n) as nat
    } else {
        n as nat
    };
    lemma_nat_dec(m);
    let t = nat_dec(m);
    assert(is_digit(t[0]));
    assert(is_digit(t[t.len() - 1]));
    if n < 0 {
        assert(s[0] == '-');
        assert(s.last() == t.last());
    } else {
        assert(s == t);
    }
    law_trim_drops_outer_ws(lead, s, trail);
    law_parse_reads_dec(n);
}

} // verus!
