//! Building and reading the short texts that the protocol and the user
//! interface exchange: decimal and hexadecimal numbers, versions, literals.

use vstd::prelude::*;

verus! {

/// The character of a decimal or hexadecimal digit `d` (`d < 16`).
pub open spec fn digit_char(d: nat, upper: bool) -> char {
    if d == 0 { '0' } else if d == 1 { '1' } else if d == 2 { '2' } else if d == 3 { '3' }
    else if d == 4 { '4' } else if d == 5 { '5' } else if d == 6 { '6' } else if d == 7 { '7' }
    else if d == 8 { '8' } else if d == 9 { '9' }
    else if d == 10 { if upper { 'A' } else { 'a' } }
    else if d == 11 { if upper { 'B' } else { 'b' } }
    else if d == 12 { if upper { 'C' } else { 'c' } }
    else if d == 13 { if upper { 'D' } else { 'd' } }
    else if d == 14 { if upper { 'E' } else { 'e' } }
    else { if upper { 'F' } else { 'f' } }
}

/// The decimal representation of `n`, without leading zeros.
pub open spec fn decimal(n: nat) -> Seq<char>
    decreases n,
{
    if n < 10 {
        seq![digit_char(n, false)]
    } else {
        decimal(n / 10).push(digit_char(n % 10, false))
    }
}

/// The last `width` hexadecimal digits of `n`, zero-padded.
pub open spec fn hex_digits(n: nat, width: nat, upper: bool) -> Seq<char>
    decreases width,
{
    if width == 0 {
        Seq::empty()
    } else {
        hex_digits(n / 16, (width - 1) as nat, upper).push(digit_char(n % 16, upper))
    }
}

/// Appends `c` to `s`.
///
/// Calls `String::push`, which appends the character to the end of the string.
#[verifier::external_body]
pub(crate) fn push_char(s: &mut String, c: char)
    ensures
        final(s)@ == old(s)@.push(c),
{
    s.push(c);
}

/// The character of digit `d`.
pub fn digit_to_char(d: u8, upper: bool) -> (c: char)
    requires
        d < 16,
    ensures
        c == digit_char(d as nat, upper),
{
    match d {
        0 => '0', 1 => '1', 2 => '2', 3 => '3', 4 => '4', 5 => '5', 6 => '6', 7 => '7',
        8 => '8', 9 => '9',
        10 => if upper { 'A' } else { 'a' },
        11 => if upper { 'B' } else { 'b' },
        12 => if upper { 'C' } else { 'c' },
        13 => if upper { 'D' } else { 'd' },
        14 => if upper { 'E' } else { 'e' },
        _ => if upper { 'F' } else { 'f' },
    }
}

/// Appends the decimal representation of `n` to `s`.
pub fn push_decimal(s: &mut String, n: u64)
    ensures
        final(s)@ == old(s)@ + decimal(n as nat),
    decreases n,
{
    if n >= 10 {
        push_decimal(s, n / 10);
    }
    push_char(s, digit_to_char((n % 10) as u8, false));
    assert(s@ =~= old(s)@ + decimal(n as nat));
}

/// The decimal representation of a signed number: a minus sign before the
/// magnitude when it is negative.
pub open spec fn signed_decimal(n: int) -> Seq<char> {
    if n < 0 {
        seq!['-'] + decimal((-n) as nat)
    } else {
        decimal(n as nat)
    }
}

/// Appends the decimal representation of the signed `n` to `s`.
pub fn push_signed_decimal(s: &mut String, n: i64)
    ensures
        final(s)@ == old(s)@ + signed_decimal(n as int),
{
    if n < 0 {
        push_char(s, '-');
        let m: u64 = if n == i64::MIN { 9223372036854775808u64 } else { (-n) as u64 };
        push_decimal(s, m);
        assert(s@ =~= old(s)@ + signed_decimal(n as int));
    } else {
        push_decimal(s, n as u64);
    }
}

/// Appends the last `width` hexadecimal digits of `n` to `s`, zero-padded.
pub fn push_hex(s: &mut String, n: u64, width: u8, upper: bool)
    ensures
        final(s)@ == old(s)@ + hex_digits(n as nat, width as nat, upper),
    decreases width,
{
    if width > 0 {
        push_hex(s, n / 16, width - 1, upper);
        push_char(s, digit_to_char((n % 16) as u8, upper));
        assert(s@ =~= old(s)@ + hex_digits(n as nat, width as nat, upper));
    } else {
        assert(s@ =~= old(s)@ + hex_digits(n as nat, width as nat, upper));
    }
}

/// Appends the literal `t` to `s`.
pub fn push_str(s: &mut String, t: &str)
    ensures
        final(s)@ == old(s)@ + t@,
{
    s.append(t);
}

/// A new string holding the literal `t`.
pub fn string_of(t: &str) -> (r: String)
    ensures
        r@ == t@,
{
    String::from_str(t)
}

/// The text `a.b.c` of a three-part version.
pub open spec fn version_text(a: u8, b: u8, c: u8) -> Seq<char> {
    decimal(a as nat) + seq!['.'] + decimal(b as nat) + seq!['.'] + decimal(c as nat)
}

/// Formats a three-part version as `a.b.c`.
pub fn format_version(a: u8, b: u8, c: u8) -> (r: String)
    ensures
        r@ == version_text(a, b, c),
{
    let mut r = String::new();
    push_decimal(&mut r, a as u64);
    push_char(&mut r, '.');
    push_decimal(&mut r, b as u64);
    push_char(&mut r, '.');
    push_decimal(&mut r, c as u64);
    assert(r@ =~= version_text(a, b, c));
    r
}

/// Whether two strings hold the same characters.
pub fn same_text(a: &String, b: &str) -> (r: bool)
    ensures
        r == (a@ == b@),
{
    let b_owned = String::from_str(b);
    *a == b_owned
}

/// The value of a decimal digit character, if `c` is one.
pub open spec fn digit_of(c: char) -> Option<nat> {
    if c == '0' { Some(0) } else if c == '1' { Some(1) } else if c == '2' { Some(2) }
    else if c == '3' { Some(3) } else if c == '4' { Some(4) } else if c == '5' { Some(5) }
    else if c == '6' { Some(6) } else if c == '7' { Some(7) } else if c == '8' { Some(8) }
    else if c == '9' { Some(9) } else { None }
}

/// Every character of `s` is a decimal digit.
pub open spec fn all_digits(s: Seq<char>) -> bool {
    forall|i: int| 0 <= i < s.len() ==> (#[trigger] digit_of(s[i])) is Some
}

/// The number that the decimal digits `s` spell.
pub open spec fn digits_value(s: Seq<char>) -> nat
    decreases s.len(),
{
    if s.len() == 0 {
        0
    } else {
        digits_value(s.drop_last()) * 10 + match digit_of(s.last()) { Some(d) => d, None => 0 }
    }
}

/// The magnitude and sign that a decimal integer text spells: an optional
/// sign (`-` only where `signed`), then one or more decimal digits.
pub open spec fn integer_text(s: Seq<char>, signed: bool) -> Option<(bool, nat)> {
    let negative = signed && s.len() > 0 && s[0] == '-';
    let t = if s.len() > 0 && (s[0] == '+' || negative) { s.drop_first() } else { s };
    if t.len() > 0 && all_digits(t) {
        Some((negative, digits_value(t)))
    } else {
        None
    }
}

/// The `u32` that `s` spells, as `str::parse::<u32>` reads it.
pub open spec fn parsed_u32(s: Seq<char>) -> Option<u32> {
    match integer_text(s, false) {
        Some((_, v)) => if v <= u32::MAX { Some(v as u32) } else { None },
        None => None,
    }
}

/// The `i32` that `s` spells, as `str::parse::<i32>` reads it.
pub open spec fn parsed_i32(s: Seq<char>) -> Option<i32> {
    match integer_text(s, true) {
        Some((neg, v)) => if neg {
            if v <= 2147483648 { Some((-v) as i32) } else { None }
        } else {
            if v <= 2147483647 { Some(v as i32) } else { None }
        },
        None => None,
    }
}

proof fn lemma_digits_value_prefix(t: Seq<char>, k: int)
    requires
        0 <= k <= t.len(),
        all_digits(t),
    ensures
        digits_value(t.take(k)) <= digits_value(t),
    decreases t.len() - k,
{
    if k < t.len() {
        lemma_digits_value_prefix(t, k + 1);
        assert(t.take(k + 1).drop_last() =~= t.take(k));
    } else {
        assert(t.take(k) =~= t);
    }
}

/// The value of the decimal digit `c`, if it is one.
pub fn char_digit(c: char) -> (r: Option<u8>)
    ensures
        match r {
            Some(d) => digit_of(c) == Some(d as nat),
            None => digit_of(c) is None,
        },
{
    match c {
        '0' => Some(0), '1' => Some(1), '2' => Some(2), '3' => Some(3), '4' => Some(4),
        '5' => Some(5), '6' => Some(6), '7' => Some(7), '8' => Some(8), '9' => Some(9),
        _ => None,
    }
}

/// Reads a decimal integer text: the sign and the magnitude, where the
/// magnitude is at most `limit`; `None` where the text is no integer or its
/// magnitude exceeds `limit`.
fn parse_magnitude(s: &str, signed: bool, limit: u64) -> (r: Option<(bool, u64)>)
    requires
        limit <= u32::MAX + 1,
    ensures
        match r {
            Some((neg, v)) => integer_text(s@, signed) == Some((neg, v as nat)) && v <= limit,
            None => match integer_text(s@, signed) {
                Some((_, v)) => v > limit,
                None => true,
            },
        },
{
    let n = s.unicode_len();
    let mut i: usize = 0;
    let mut negative = false;
    if n > 0 {
        let c0 = s.get_char(0);
        if c0 == '+' {
            i = 1;
        } else if signed && c0 == '-' {
            i = 1;
            negative = true;
        }
    }
    let ghost t = if i == 1 { s@.drop_first() } else { s@ };
    assert(negative == (signed && s@.len() > 0 && s@[0] == '-'));
    if i == n {
        assert(t.len() == 0);
        return None;
    }
    let start = i;
    let mut acc: u64 = 0;
    assert(integer_text(s@, signed) == (if t.len() > 0 && all_digits(t) {
        Some((negative, digits_value(t)))
    } else {
        None
    }));
    while i < n
        invariant
            start <= i <= n,
            n == s@.len(),
            start == 0 || start == 1,
            t.len() == n - start,
            t =~= s@.subrange(start as int, n as int),
            acc <= limit,
            limit <= u32::MAX + 1,
            all_digits(t.take(i - start)),
            acc == digits_value(t.take(i - start)),
            integer_text(s@, signed) == (if t.len() > 0 && all_digits(t) {
                Some((negative, digits_value(t)))
            } else {
                None
            }),
        decreases n - i,
    {
        let c = s.get_char(i);
        assert(t[i - start] == c);
        match char_digit(c) {
            None => {
                assert(digit_of(t[i - start]) is None);
                assert(!all_digits(t));
                return None;
            },
            Some(d) => {
                let next = acc * 10 + d as u64;
                assert(t.take(i + 1 - start).drop_last() =~= t.take(i - start));
                assert(all_digits(t.take(i + 1 - start)));
                if next > limit {
                    proof {
                        if all_digits(t) {
                            lemma_digits_value_prefix(t, i + 1 - start);
                        }
                    }
                    return None;
                }
                acc = next;
                i = i + 1;
            },
        }
    }
    assert(t.take(n - start) =~= t);
    Some((negative, acc))
}

/// Reads a `u32` from decimal text, as `str::parse::<u32>` does.
pub fn parse_u32(s: &str) -> (r: Option<u32>)
    ensures
        r == parsed_u32(s@),
{
    match parse_magnitude(s, false, 4294967295) {
        Some((_, v)) => Some(v as u32),
        None => None,
    }
}

/// Reads an `i32` from decimal text, as `str::parse::<i32>` does.
pub fn parse_i32(s: &str) -> (r: Option<i32>)
    ensures
        r == parsed_i32(s@),
{
    match parse_magnitude(s, true, 2147483648) {
        Some((neg, v)) => {
            if neg {
                Some((0i64 - v as i64) as i32)
            } else if v <= 2147483647 {
                Some(v as i32)
            } else {
                None
            }
        },
        None => None,
    }
}

/// `items[k]` is the first item that reads `target`.
pub open spec fn first_text_at(items: Seq<Seq<char>>, target: Seq<char>, k: int) -> bool {
    0 <= k < items.len() && items[k] == target && forall|j: int| 0 <= j < k ==> items[j] != target
}

/// Where `target` first occurs among `items`, if it does.
pub fn position_of_text(items: &Vec<String>, target: &str) -> (r: Option<usize>)
    ensures
        match r {
            Some(k) => first_text_at(items@.map_values(|s: String| s@), target@, k as int),
            None => forall|j: int| 0 <= j < items@.len() ==> (#[trigger] items@[j])@ != target@,
        },
{
    let mut i: usize = 0;
    while i < items.len()
        invariant
            i <= items@.len(),
            forall|j: int| 0 <= j < i ==> (#[trigger] items@[j])@ != target@,
        decreases items@.len() - i,
    {
        if same_text(&items[i], target) {
            assert(first_text_at(items@.map_values(|s: String| s@), target@, i as int));
            return Some(i);
        }
        i = i + 1;
    }
    None
}

proof fn lemma_digit_roundtrip(d: nat)
    requires
        d < 10,
    ensures
        digit_of(digit_char(d, false)) == Some(d),
{
}

proof fn lemma_decimal_digits(n: nat)
    ensures
        decimal(n).len() > 0,
        all_digits(decimal(n)),
        digits_value(decimal(n)) == n,
        decimal(n)[0] != '+' && decimal(n)[0] != '-',
    decreases n,
{
    if n < 10 {
        lemma_digit_roundtrip(n);
        let d = decimal(n);
        assert(d.drop_last() =~= Seq::<char>::empty());
        assert(digits_value(d.drop_last()) == 0);
        assert(d.last() == digit_char(n, false));
        assert(digits_value(d) == n);
    } else {
        lemma_digit_roundtrip(n % 10);
        lemma_decimal_digits(n / 10);
        let d = decimal(n);
        assert(d.drop_last() =~= decimal(n / 10));
        assert(d.last() == digit_char(n % 10, false));
        assert(digits_value(d) == digits_value(decimal(n / 10)) * 10 + (n % 10));
        assert((n / 10) * 10 + n % 10 == n);
        assert forall|i: int| 0 <= i < d.len() implies (#[trigger] digit_of(d[i])) is Some by {
            if i < d.len() - 1 {
                assert(d[i] == decimal(n / 10)[i]);
            }
        }
    }
}

/// Number text law: what `push_decimal` writes for `n`, `parse_u32` reads
/// back as `n`.
pub proof fn lemma_decimal_parses_back(n: u32)
    ensures
        parsed_u32(decimal(n as nat)) == Some(n),
{
    lemma_decimal_digits(n as nat);
}

/// Lines of text, in the order they are printed.
pub struct TextLines {
    pub lines: Vec<String>,
}

impl View for TextLines {
    type V = Seq<Seq<char>>;

    open spec fn view(&self) -> Seq<Seq<char>> {
        self.lines@.map_values(|s: String| s@)
    }
}

impl TextLines {
    /// No lines.
    pub fn new() -> (r: TextLines)
        ensures
            r@ == Seq::<Seq<char>>::empty(),
    {
        let r = TextLines { lines: Vec::new() };
        assert(r@ =~= Seq::<Seq<char>>::empty());
        r
    }

    /// Adds the line `s`.
    pub fn push(&mut self, s: String)
        ensures
            final(self)@ == old(self)@.push(s@),
    {
        self.lines.push(s);
        assert(self@ =~= old(self)@.push(s@));
    }

    /// Adds the line `s`.
    pub fn push_text(&mut self, s: &str)
        ensures
            final(self)@ == old(self)@.push(s@),
    {
        self.push(string_of(s));
    }

    /// Adds an empty line.
    pub fn push_blank(&mut self)
        ensures
            final(self)@ == old(self)@.push(""@),
    {
        proof {
            reveal_strlit("");
            assert(""@ =~= Seq::<char>::empty());
        }
        self.push(String::new());
    }

    /// Adds the lines of `other`.
    pub fn append(&mut self, other: &TextLines)
        ensures
            final(self)@ == old(self)@ + other@,
    {
        let ghost start = self@;
        let mut i: usize = 0;
        while i < other.lines.len()
            invariant
                i <= other@.len(),
                other@.len() == other.lines@.len(),
                self@ == start + other@.take(i as int),
            decreases other.lines@.len() - i,
        {
            self.push(other.lines[i].clone());
            i = i + 1;
            assert(self@ =~= start + other@.take(i as int));
        }
        assert(other@.take(other@.len() as int) =~= other@);
    }
}

/// Output of a report: lines for standard output and for standard error.
pub struct Report {
    pub out: TextLines,
    pub err: TextLines,
}

} // verus!
