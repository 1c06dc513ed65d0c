//! Characters, numbers and the small amount of string handling the rest of the
//! library is built from.
use vstd::prelude::*;
use vstd::string::*;

verus! {

/// `String::push` appends one character to the end of the string.
pub assume_specification[ String::push ](text: &mut String, c: char)
    ensures
        final(text)@ == old(text)@.push(c),
;

/// Text made of bytes, with what is not UTF-8 replaced.
pub uninterp spec fn utf8_lossy(bytes: Seq<u8>) -> Seq<char>;

/// `String::from_utf8_lossy` gives the text of the bytes, the same for the same
/// bytes.
#[verifier::external_body]
pub(crate) fn lossy_text(bytes: &[u8]) -> (text: String)
    ensures
        text@ == utf8_lossy(bytes@),
{
    String::from_utf8_lossy(bytes).into_owned()
}

/// The sets of characters that text is cut and trimmed by.
#[derive(Clone, Copy, Debug, PartialEq, Eq, Structural)]
pub enum CharClass {
    /// The characters with the Unicode `White_Space` property.
    WhiteSpace,
    /// A full stop.
    Dot,
    /// A number sign.
    Hash,
    /// A forward slash or a backslash.
    Separator,
}

/// The characters with the Unicode `White_Space` property.
pub open spec fn is_white_space(c: char) -> bool {
    ||| '\u{9}' <= c <= '\u{d}'
    ||| c == '\u{20}'
    ||| c == '\u{85}'
    ||| c == '\u{a0}'
    ||| c == '\u{1680}'
    ||| '\u{2000}' <= c <= '\u{200a}'
    ||| c == '\u{2028}'
    ||| c == '\u{2029}'
    ||| c == '\u{202f}'
    ||| c == '\u{205f}'
    ||| c == '\u{3000}'
}

impl CharClass {
    /// Whether `c` belongs to the class.
    pub open spec fn has(self, c: char) -> bool {
        match self {
            CharClass::WhiteSpace => is_white_space(c),
            CharClass::Dot => c == '.',
            CharClass::Hash => c == '#',
            CharClass::Separator => c == '/' || c == '\\',
        }
    }

    /// Whether `c` belongs to the class.
    pub fn contains(self, c: char) -> (found: bool)
        ensures
            found == self.has(c),
    {
        match self {
            CharClass::WhiteSpace => {
                ('\u{9}' <= c && c <= '\u{d}') || c == '\u{20}' || c == '\u{85}' || c == '\u{a0}'
                    || c == '\u{1680}' || ('\u{2000}' <= c && c <= '\u{200a}') || c == '\u{2028}'
                    || c == '\u{2029}' || c == '\u{202f}' || c == '\u{205f}' || c == '\u{3000}'
            },
            CharClass::Dot => c == '.',
            CharClass::Hash => c == '#',
            CharClass::Separator => c == '/' || c == '\\',
        }
    }
}

/// `s` without the leading characters of `class`.
pub open spec fn trim_start(s: Seq<char>, class: CharClass) -> Seq<char>
    decreases s.len(),
{
    if s.len() > 0 && class.has(s.first()) {
        trim_start(s.drop_first(), class)
    } else {
        s
    }
}

/// `s` without the trailing characters of `class`.
pub open spec fn trim_end(s: Seq<char>, class: CharClass) -> Seq<char>
    decreases s.len(),
{
    if s.len() > 0 && class.has(s.last()) {
        trim_end(s.drop_last(), class)
    } else {
        s
    }
}

/// `s` without the characters of `class` at either end.
pub open spec fn trim(s: Seq<char>, class: CharClass) -> Seq<char> {
    trim_end(trim_start(s, class), class)
}

/// What follows the last character of `class` in `s`: all of `s` where it holds none.
pub open spec fn after_last(s: Seq<char>, class: CharClass) -> Seq<char>
    decreases s.len(),
{
    if s.len() == 0 || class.has(s.last()) {
        Seq::empty()
    } else {
        after_last(s.drop_last(), class).push(s.last())
    }
}

/// Where `c` first occurs in `s`, or the length of `s`.
pub open spec fn find(s: Seq<char>, c: char) -> nat
    decreases s.len(),
{
    if s.len() == 0 || s.first() == c {
        0
    } else {
        1 + find(s.drop_first(), c)
    }
}

/// The two sides of the first `c` in `s`.
pub open spec fn split_once(s: Seq<char>, c: char) -> Option<(Seq<char>, Seq<char>)> {
    if find(s, c) < s.len() {
        Some((s.take(find(s, c) as int), s.skip(find(s, c) as int + 1)))
    } else {
        None
    }
}

/// The pieces of `s` between the occurrences of `c`.
pub open spec fn split(s: Seq<char>, c: char) -> Seq<Seq<char>>
    decreases s.len(),
{
    match split_once(s, c) {
        Some((head, tail)) => if tail.len() < s.len() {
            seq![head] + split(tail, c)
        } else {
            arbitrary()
        },
        None => seq![s],
    }
}

/// The value of `c` as a digit of at most base sixteen.
pub open spec fn digit_value(c: char) -> int {
    if '0' <= c <= '9' {
        c as int - '0' as int
    } else if 'a' <= c <= 'f' {
        c as int - 'a' as int + 10
    } else if 'A' <= c <= 'F' {
        c as int - 'A' as int + 10
    } else {
        16
    }
}

/// The number that the digits of `s` write in base `radix`.
pub open spec fn digits_value(s: Seq<char>, radix: int) -> int
    decreases s.len(),
{
    if s.len() == 0 {
        0
    } else {
        digits_value(s.drop_last(), radix) * radix + digit_value(s.last())
    }
}

/// Whether `s` is one or more digits of base `radix`.
pub open spec fn is_number(s: Seq<char>, radix: int) -> bool {
    s.len() > 0 && forall|i: int| 0 <= i < s.len() ==> digit_value(#[trigger] s[i]) < radix
}

/// The unsigned number of at most `max` that `s` writes, with an optional plus sign.
pub open spec fn unsigned_value(s: Seq<char>, radix: int, max: int) -> Option<int> {
    let digits = if s.len() > 0 && s.first() == '+' {
        s.drop_first()
    } else {
        s
    };
    if is_number(digits, radix) && digits_value(digits, radix) <= max {
        Some(digits_value(digits, radix))
    } else {
        None
    }
}

/// The decimal `i32` that `s` writes, with an optional sign.
pub open spec fn i32_value(s: Seq<char>) -> Option<int> {
    if s.len() > 0 && s.first() == '-' {
        let digits = s.drop_first();
        if is_number(digits, 10) && digits_value(digits, 10) <= 0x8000_0000 {
            Some(-digits_value(digits, 10))
        } else {
            None
        }
    } else {
        unsigned_value(s, 10, i32::MAX as int)
    }
}

/// The character that stands for a digit below sixteen, in lower case.
pub open spec fn digit_char(d: int) -> char {
    "0123456789abcdef"@[d]
}

/// `n` in decimal.
pub open spec fn decimal(n: nat) -> Seq<char>
    decreases n,
{
    if n < 10 {
        seq![digit_char(n as int)]
    } else {
        decimal(n / 10).push(digit_char((n % 10) as int))
    }
}

/// `n` in decimal, with a minus sign where it is negative.
pub open spec fn signed_decimal(n: int) -> Seq<char> {
    if n < 0 {
        seq!['-'] + decimal((-n) as nat)
    } else {
        decimal(n as nat)
    }
}

/// The characters of `text`.
pub fn chars_of(text: &str) -> (chars: Vec<char>)
    ensures
        chars@ == text@,
{
    let mut chars: Vec<char> = Vec::new();
    for c in it: text.chars()
        invariant
            chars@ == text@.take(it.index@ as int),
            it.seq() == text@,
    {
        chars.push(c);
        assert(text@.take(it.index@ as int + 1) == text@.take(it.index@ as int).push(c));
    }
    assert(text@.take(text@.len() as int) == text@);
    chars
}

/// Whether two strings hold the same characters.
pub fn same_text(left: &str, right: &str) -> (same: bool)
    ensures
        same == (left@ == right@),
{
    let a: Vec<char> = chars_of(left);
    let b: Vec<char> = chars_of(right);
    if a.len() != b.len() {
        return false;
    }
    let mut i: usize = 0;
    while i < a.len()
        invariant
            i <= a.len(),
            a.len() == b.len(),
            a@ == left@,
            b@ == right@,
            a@.take(i as int) == b@.take(i as int),
        decreases a.len() - i,
    {
        if a[i] != b[i] {
            assert(left@[i as int] != right@[i as int]);
            return false;
        }
        assert(a@.take(i + 1) == a@.take(i as int).push(a@[i as int]));
        assert(b@.take(i + 1) == b@.take(i as int).push(b@[i as int]));
        i += 1;
    }
    assert(a@.take(i as int) == a@);
    assert(b@.take(i as int) == b@);
    true
}

/// The string made of `chars`.
pub fn string_of(chars: &Vec<char>) -> (text: String)
    ensures
        text@ == chars@,
{
    let mut text = String::new();
    let mut i: usize = 0;
    while i < chars.len()
        invariant
            i <= chars.len(),
            text@ == chars@.take(i as int),
        decreases chars.len() - i,
    {
        text.push(chars[i]);
        i += 1;
        assert(chars@.take(i as int) == chars@.take(i - 1).push(chars@[i - 1]));
    }
    assert(chars@.take(i as int) == chars@);
    text
}

/// The part of `chars` from `from` up to, but not at, `to`.
pub fn piece(chars: &Vec<char>, from: usize, to: usize) -> (part: Vec<char>)
    requires
        from <= to <= chars.len(),
    ensures
        part@ == chars@.subrange(from as int, to as int),
{
    let mut part: Vec<char> = Vec::new();
    let mut i: usize = from;
    while i < to
        invariant
            from <= i <= to <= chars.len(),
            part@ == chars@.subrange(from as int, i as int),
        decreases to - i,
    {
        part.push(chars[i]);
        i += 1;
        assert(chars@.subrange(from as int, i as int) == chars@.subrange(
            from as int,
            i - 1,
        ).push(chars@[i - 1]));
    }
    part
}

/// Trimming does not depend on what is added in front of the first kept character.
proof fn lemma_trim_start_skip(s: Seq<char>, class: CharClass, n: int)
    requires
        0 <= n <= s.len(),
        forall|i: int| 0 <= i < n ==> class.has(#[trigger] s[i]),
    ensures
        trim_start(s, class) == trim_start(s.skip(n), class),
    decreases n,
{
    if n > 0 {
        let rest = s.drop_first();
        assert forall|i: int| 0 <= i < n - 1 implies class.has(#[trigger] rest[i]) by {
            assert(rest[i] == s[i + 1]);
        }
        lemma_trim_start_skip(rest, class, n - 1);
        assert(rest.skip(n - 1) == s.skip(n));
    } else {
        assert(s.skip(0) == s);
    }
}

/// `chars` without the leading characters of `class`.
pub fn trimmed_start(chars: &Vec<char>, class: CharClass) -> (kept: Vec<char>)
    ensures
        kept@ == trim_start(chars@, class),
{
    let mut n: usize = 0;
    while n < chars.len() && class.contains(chars[n])
        invariant
            n <= chars.len(),
            forall|i: int| 0 <= i < n ==> class.has(#[trigger] chars@[i]),
        decreases chars.len() - n,
    {
        n += 1;
    }
    proof {
        lemma_trim_start_skip(chars@, class, n as int);
        assert(chars@.skip(n as int) == chars@.subrange(n as int, chars@.len() as int));
    }
    piece(chars, n, chars.len())
}

/// `chars` without the trailing characters of `class`.
pub fn trimmed_end(chars: &Vec<char>, class: CharClass) -> (kept: Vec<char>)
    ensures
        kept@ == trim_end(chars@, class),
{
    let mut n: usize = chars.len();
    assert(chars@.take(n as int) == chars@);
    while n > 0 && class.contains(chars[n - 1])
        invariant
            n <= chars.len(),
            trim_end(chars@, class) == trim_end(chars@.take(n as int), class),
        decreases n,
    {
        assert(chars@.take(n as int).drop_last() == chars@.take(n - 1));
        n -= 1;
    }
    assert(chars@.take(n as int) == chars@.subrange(0, n as int));
    piece(chars, 0, n)
}

/// `chars` without the characters of `class` at either end.
pub fn trimmed(chars: &Vec<char>, class: CharClass) -> (kept: Vec<char>)
    ensures
        kept@ == trim(chars@, class),
{
    trimmed_end(&trimmed_start(chars, class), class)
}

/// Every character of what follows the last `class` is outside it, and it is a tail of `s`.
pub proof fn lemma_after_last(s: Seq<char>, class: CharClass)
    ensures
        after_last(s, class).len() <= s.len(),
        after_last(s, class) == s.skip(s.len() - after_last(s, class).len()),
        forall|i: int| 0 <= i < after_last(s, class).len() ==> !class.has(
            #[trigger] after_last(s, class)[i],
        ),
    decreases s.len(),
{
    if s.len() == 0 || class.has(s.last()) {
        assert(s.skip(s.len() as int) == Seq::<char>::empty());
    } else {
        let shorter = s.drop_last();
        lemma_after_last(shorter, class);
        assert(after_last(s, class) =~= s.skip(s.len() - after_last(s, class).len()));
    }
}

/// What follows the last character of `class`.
pub fn tail_after(chars: &Vec<char>, class: CharClass) -> (tail: Vec<char>)
    ensures
        tail@ == after_last(chars@, class),
{
    let mut n: usize = chars.len();
    let ghost whole = after_last(chars@, class);
    assert(chars@.take(n as int) == chars@);
    assert(chars@.skip(n as int) == Seq::<char>::empty());
    while n > 0 && !class.contains(chars[n - 1])
        invariant
            n <= chars.len(),
            whole == after_last(chars@.take(n as int), class) + chars@.skip(n as int),
        decreases n,
    {
        assert(chars@.take(n as int).drop_last() == chars@.take(n - 1));
        assert(chars@.skip(n - 1) == seq![chars@[n - 1]] + chars@.skip(n as int));
        assert(whole =~= after_last(chars@.take(n - 1), class) + chars@.skip(n - 1));
        n -= 1;
    }
    assert(whole == chars@.skip(n as int));
    assert(chars@.skip(n as int) == chars@.subrange(n as int, chars@.len() as int));
    piece(chars, n, chars.len())
}

/// What `find` returns is the first place at which `c` stands.
pub proof fn lemma_find(s: Seq<char>, c: char)
    ensures
        find(s, c) <= s.len(),
        find(s, c) < s.len() ==> s[find(s, c) as int] == c,
        forall|i: int| 0 <= i < find(s, c) ==> #[trigger] s[i] != c,
    decreases s.len(),
{
    if s.len() > 0 && s.first() != c {
        let rest = s.drop_first();
        lemma_find(rest, c);
        assert forall|i: int| 0 <= i < find(s, c) implies #[trigger] s[i] != c by {
            if i > 0 {
                assert(rest[i - 1] == s[i]);
            }
        }
    }
}

/// `find` is determined by being the first place at which `c` stands.
proof fn lemma_find_at(s: Seq<char>, c: char, n: int)
    requires
        0 <= n <= s.len(),
        forall|i: int| 0 <= i < n ==> #[trigger] s[i] != c,
        n < s.len() ==> s[n] == c,
    ensures
        find(s, c) == n,
{
    lemma_find(s, c);
    let f = find(s, c) as int;
    if f < n {
        assert(s[f] != c);
    }
}

/// Where `c` first stands in `chars`, or the number of characters.
pub fn position_of(chars: &Vec<char>, c: char) -> (at: usize)
    ensures
        at == find(chars@, c),
        at <= chars.len(),
{
    let mut n: usize = 0;
    while n < chars.len() && chars[n] != c
        invariant
            n <= chars.len(),
            forall|i: int| 0 <= i < n ==> #[trigger] chars@[i] != c,
        decreases chars.len() - n,
    {
        n += 1;
    }
    proof {
        lemma_find_at(chars@, c, n as int);
    }
    n
}

/// The two sides of the first `c` in `chars`.
pub fn cut_once(chars: &Vec<char>, c: char) -> (cut: Option<(Vec<char>, Vec<char>)>)
    ensures
        match cut {
            Some((head, tail)) => split_once(chars@, c) == Some((head@, tail@)),
            None => split_once(chars@, c) is None,
        },
{
    let at: usize = position_of(chars, c);
    if at < chars.len() {
        let head: Vec<char> = piece(chars, 0, at);
        let tail: Vec<char> = piece(chars, at + 1, chars.len());
        assert(head@ =~= chars@.take(at as int));
        assert(tail@ =~= chars@.skip(at + 1));
        Some((head, tail))
    } else {
        None
    }
}

/// The views of a list of character lists.
pub open spec fn views(parts: Seq<Vec<char>>) -> Seq<Seq<char>> {
    parts.map_values(|part: Vec<char>| part@)
}

/// The pieces of `chars` between the occurrences of `c`.
pub fn cut_all(chars: &Vec<char>, c: char) -> (parts: Vec<Vec<char>>)
    ensures
        views(parts@) == split(chars@, c),
        parts@.len() > 0,
{
    let mut parts: Vec<Vec<char>> = Vec::new();
    let mut rest: Vec<char> = piece(chars, 0, chars.len());
    assert(rest@ =~= chars@);
    assert(views(parts@) + split(rest@, c) =~= split(chars@, c));
    loop
        invariant
            views(parts@) + split(rest@, c) == split(chars@, c),
        decreases rest.len(),
    {
        match cut_once(&rest, c) {
            Some((head, tail)) => {
                let ghost before = parts@;
                let ghost head_view = head@;
                parts.push(head);
                assert(views(parts@) =~= views(before).push(head_view));
                assert(views(parts@) + split(tail@, c) =~= views(before) + (seq![head_view]
                    + split(tail@, c)));
                rest = tail;
            },
            None => {
                let ghost before = parts@;
                let ghost rest_view = rest@;
                parts.push(rest);
                assert(views(parts@) =~= views(before).push(rest_view));
                assert(views(parts@) =~= views(before) + seq![rest_view]);
                return parts;
            },
        }
    }
}

/// The value of `c` as a digit of at most base sixteen, or sixteen.
pub fn digit_of(c: char) -> (value: u64)
    ensures
        value == digit_value(c),
        value <= 16,
{
    if '0' <= c && c <= '9' {
        (c as u32 - '0' as u32) as u64
    } else if 'a' <= c && c <= 'f' {
        (c as u32 - 'a' as u32) as u64 + 10
    } else if 'A' <= c && c <= 'F' {
        (c as u32 - 'A' as u32) as u64 + 10
    } else {
        16
    }
}

/// The number that the digits of `chars` from `from` on write, if it is at most `max`.
pub fn number_from(chars: &Vec<char>, from: usize, radix: u64, max: u64) -> (value: Option<u64>)
    requires
        from <= chars.len(),
        2 <= radix <= 16,
    ensures
        match value {
            Some(v) => is_number(chars@.skip(from as int), radix as int) && v == digits_value(
                chars@.skip(from as int),
                radix as int,
            ) && v <= max,
            None => !(is_number(chars@.skip(from as int), radix as int) && digits_value(
                chars@.skip(from as int),
                radix as int,
            ) <= max),
        },
{
    let ghost digits = chars@.skip(from as int);
    if from == chars.len() {
        return None;
    }
    let mut total: u128 = 0;
    let mut over = false;
    let mut i: usize = from;
    assert(digits.take(0) == Seq::<char>::empty());
    while i < chars.len()
        invariant
            from <= i <= chars.len(),
            2 <= radix <= 16,
            digits == chars@.skip(from as int),
            forall|k: int| 0 <= k < i - from ==> digit_value(#[trigger] digits[k]) < radix,
            !over ==> total == digits_value(digits.take(i - from), radix as int) && total <= max,
            over ==> digits_value(digits.take(i - from), radix as int) > max,
        decreases chars.len() - i,
    {
        let d: u64 = digit_of(chars[i]);
        assert(digits[i - from] == chars@[i as int]);
        if d >= radix {
            return None;
        }
        let ghost seen = digits.take(i - from);
        proof {
            let next = digits.take(i - from + 1);
            assert(next.drop_last() == seen);
            assert(next.last() == chars@[i as int]);
            assert(digits_value(next, radix as int) == digits_value(seen, radix as int) * radix + d);
        }
        if over {
            proof {
                let v = digits_value(seen, radix as int);
                assert(v * radix >= v) by (nonlinear_arith)
                    requires
                        v > 0,
                        radix >= 2,
                ;
            }
        } else {
            assert(total * radix <= 0xffff_ffff_ffff_ffff * 16) by (nonlinear_arith)
                requires
                    0 <= total <= 0xffff_ffff_ffff_ffff,
                    2 <= radix <= 16,
            ;
            total = total * radix as u128 + d as u128;
            if total > max as u128 {
                over = true;
            }
        }
        i += 1;
    }
    assert(digits.take(i - from) == digits);
    if over {
        None
    } else {
        Some(total as u64)
    }
}

/// The unsigned number of at most `max` that `chars` write, with an optional plus sign.
pub fn parse_unsigned(chars: &Vec<char>, radix: u64, max: u64) -> (value: Option<u64>)
    requires
        2 <= radix <= 16,
    ensures
        match value {
            Some(v) => unsigned_value(chars@, radix as int, max as int) == Some(v as int),
            None => unsigned_value(chars@, radix as int, max as int) is None,
        },
{
    assert(chars@.skip(0) == chars@);
    if chars.len() > 0 && chars[0] == '+' {
        assert(chars@.drop_first() == chars@.skip(1));
        number_from(chars, 1, radix, max)
    } else {
        number_from(chars, 0, radix, max)
    }
}

/// The decimal `i32` that `chars` write, with an optional sign.
pub fn parse_i32(chars: &Vec<char>) -> (value: Option<i32>)
    ensures
        match value {
            Some(v) => i32_value(chars@) == Some(v as int),
            None => i32_value(chars@) is None,
        },
{
    if chars.len() > 0 && chars[0] == '-' {
        assert(chars@.drop_first() == chars@.skip(1));
        match number_from(chars, 1, 10, 0x8000_0000) {
            Some(v) => Some((-(v as i64)) as i32),
            None => None,
        }
    } else {
        match parse_unsigned(chars, 10, 0x7fff_ffff) {
            Some(v) => Some(v as i32),
            None => None,
        }
    }
}

/// The character that stands for a digit below sixteen, in lower case.
pub fn char_of_digit(d: u32) -> (c: char)
    requires
        d < 16,
    ensures
        c == digit_char(d as int),
{
    proof {
        reveal_strlit("0123456789abcdef");
    }
    "0123456789abcdef".get_char(d as usize)
}

/// Appends `n` in decimal.
pub fn push_decimal(text: &mut String, n: u64)
    ensures
        final(text)@ == old(text)@ + decimal(n as nat),
    decreases n,
{
    if n >= 10 {
        push_decimal(text, n / 10);
    }
    text.push(char_of_digit((n % 10) as u32));
    assert(text@ =~= old(text)@ + decimal(n as nat));
}

/// Appends `n` in decimal, with a minus sign where it is negative.
pub fn push_signed(text: &mut String, n: i64)
    ensures
        final(text)@ == old(text)@ + signed_decimal(n as int),
{
    if n < 0 {
        text.push('-');
        let magnitude: u64 = (-(n as i128)) as u64;
        push_decimal(text, magnitude);
        assert(text@ =~= old(text)@ + signed_decimal(n as int));
    } else {
        push_decimal(text, n as u64);
    }
}

/// `head` followed by `tail`.
pub fn joined(head: &str, tail: &str) -> (text: String)
    ensures
        text@ == head@ + tail@,
{
    let mut text = head.to_owned();
    text.append(tail);
    text
}

/// `head`, `middle` and `tail`, one after the other.
pub fn joined3(head: &str, middle: &str, tail: &str) -> (text: String)
    ensures
        text@ == head@ + middle@ + tail@,
{
    let mut text = head.to_owned();
    text.append(middle);
    text.append(tail);
    text
}

/// What `trim_start` leaves is the end of the text from its first character that
/// is not of the class.
proof fn lemma_trim_start(s: Seq<char>, class: CharClass)
    ensures
        ({
            let kept = trim_start(s, class);
            let n = s.len() - kept.len();
            &&& 0 <= n
            &&& kept == s.skip(n)
            &&& forall|i: int| 0 <= i < n ==> class.has(#[trigger] s[i])
            &&& kept.len() > 0 ==> !class.has(kept.first())
        }),
    decreases s.len(),
{
    if s.len() > 0 && class.has(s.first()) {
        let rest = s.drop_first();
        lemma_trim_start(rest, class);
        let n = s.len() - trim_start(s, class).len();
        assert(rest.skip(n - 1) =~= s.skip(n));
        assert forall|i: int| 0 <= i < n implies class.has(#[trigger] s[i]) by {
            if i > 0 {
                assert(rest[i - 1] == s[i]);
            }
        }
    } else {
        assert(s.skip(0) =~= s);
    }
}

/// What `trim_end` leaves is the start of the text up to its last character that
/// is not of the class.
proof fn lemma_trim_end(s: Seq<char>, class: CharClass)
    ensures
        ({
            let kept = trim_end(s, class);
            &&& kept.len() <= s.len()
            &&& kept == s.take(kept.len() as int)
            &&& forall|i: int| kept.len() <= i < s.len() ==> class.has(#[trigger] s[i])
            &&& kept.len() > 0 ==> !class.has(kept.last())
        }),
    decreases s.len(),
{
    if s.len() > 0 && class.has(s.last()) {
        let rest = s.drop_last();
        lemma_trim_end(rest, class);
        let k = trim_end(s, class).len() as int;
        assert(rest.take(k) =~= s.take(k));
        assert forall|i: int| k <= i < s.len() implies class.has(#[trigger] s[i]) by {
            if i < rest.len() {
                assert(rest[i] == s[i]);
            }
        }
    } else {
        assert(s.take(s.len() as int) =~= s);
    }
}

/// Trimming takes the characters of a class away at both ends, and no other
/// character anywhere.
pub proof fn law_trimming_takes_only_the_class_away(
    chars: Vec<char>,
    class: CharClass,
    kept: Vec<char>,
    from_start: Vec<char>,
    from_end: Vec<char>,
)
    requires
        call_ensures(trimmed, (&chars, class), kept),
        call_ensures(trimmed_start, (&chars, class), from_start),
        call_ensures(trimmed_end, (&chars, class), from_end),
    ensures
        kept@.len() > 0 ==> !class.has(kept@.first()) && !class.has(kept@.last()),
        exists|from: int, to: int|
            0 <= from <= to <= chars@.len() && kept@ == #[trigger] chars@.subrange(from, to) && (
            forall|i: int|
                0 <= i < from || to <= i < chars@.len() ==> class.has(#[trigger] chars@[i])),
        from_start@.len() <= chars@.len(),
        from_start@ == chars@.skip(chars@.len() - from_start@.len()),
        forall|i: int|
            0 <= i < chars@.len() - from_start@.len() ==> class.has(#[trigger] chars@[i]),
        from_start@.len() > 0 ==> !class.has(from_start@.first()),
        from_end@.len() <= chars@.len(),
        from_end@ == chars@.take(from_end@.len() as int),
        forall|i: int| from_end@.len() <= i < chars@.len() ==> class.has(#[trigger] chars@[i]),
        from_end@.len() > 0 ==> !class.has(from_end@.last()),
{
    lemma_trim_start(chars@, class);
    lemma_trim_end(chars@, class);
    let rest = trim_start(chars@, class);
    lemma_trim_end(rest, class);
    let from = chars@.len() - rest.len();
    let to = from + kept@.len();
    assert(kept@ =~= chars@.subrange(from, to));
    assert forall|i: int| 0 <= i < from || to <= i < chars@.len() implies class.has(
        #[trigger] chars@[i],
    ) by {
        if to <= i {
            assert(rest[i - from] == chars@[i]);
        }
    }
}

/// Each class has its own characters.
pub proof fn law_classes_have_their_characters(class: CharClass, c: char, found: bool)
    requires
        call_ensures(CharClass::contains, (class, c), found),
    ensures
        class == CharClass::Dot ==> (found <==> c == '.'),
        class == CharClass::Hash ==> (found <==> c == '#'),
        class == CharClass::Separator ==> (found <==> c == '/' || c == '\\'),
        class == CharClass::WhiteSpace && (c as int) < 0x80 ==> (found <==> c == ' ' || 9
            <= c as int <= 13),
        class == CharClass::WhiteSpace && c as int >= 0x80 ==> (found <==> c as int == 0x85
            || c as int == 0xa0 || c as int == 0x1680 || 0x2000 <= c as int <= 0x200a || c as int
            == 0x2028 || c as int == 0x2029 || c as int == 0x202f || c as int == 0x205f || c as int
            == 0x3000),
{
}

/// A text is cut at the first place where the character occurs, and not at all
/// where it does not occur.
pub proof fn law_a_text_is_cut_at_the_first_place(
    chars: Vec<char>,
    c: char,
    cut: Option<(Vec<char>, Vec<char>)>,
)
    requires
        call_ensures(cut_once, (&chars, c), cut),
    ensures
        cut is Some <==> chars@.contains(c),
        cut matches Some((head, tail)) ==> chars@ == head@ + seq![c] + tail@ && !head@.contains(c),
{
    lemma_find(chars@, c);
    let n = find(chars@, c) as int;
    if n < chars@.len() {
        assert(chars@ =~= chars@.take(n) + seq![c] + chars@.skip(n + 1));
    }
}

/// Parts with a character between each two of them.
pub open spec fn rejoined(parts: Seq<Seq<char>>, c: char) -> Seq<char>
    decreases parts.len(),
{
    if parts.len() == 0 {
        Seq::empty()
    } else if parts.len() == 1 {
        parts[0]
    } else {
        parts[0] + seq![c] + rejoined(parts.skip(1), c)
    }
}

proof fn lemma_split(s: Seq<char>, c: char)
    ensures
        split(s, c).len() > 0,
        rejoined(split(s, c), c) == s,
        forall|i: int| 0 <= i < split(s, c).len() ==> !(#[trigger] split(s, c)[i]).contains(c),
    decreases s.len(),
{
    lemma_find(s, c);
    let parts = split(s, c);
    match split_once(s, c) {
        Some((head, tail)) => {
            lemma_split(tail, c);
            assert(parts =~= seq![head] + split(tail, c));
            assert(parts.skip(1) =~= split(tail, c));
            assert(s =~= head + seq![c] + tail);
            assert forall|i: int| 0 <= i < parts.len() implies !(#[trigger] parts[i]).contains(
                c,
            ) by {
                if i > 0 {
                    assert(parts[i] == split(tail, c)[i - 1]);
                }
            }
        },
        None => {
            assert(parts =~= seq![s]);
        },
    }
}

/// A text that is cut everywhere is what its parts make with the character between
/// them, and no part holds the character.
pub proof fn law_a_text_is_cut_everywhere(chars: Vec<char>, c: char, parts: Vec<Vec<char>>)
    requires
        call_ensures(cut_all, (&chars, c), parts),
    ensures
        parts@.len() > 0,
        rejoined(views(parts@), c) == chars@,
        forall|i: int| 0 <= i < parts@.len() ==> !(#[trigger] parts@[i])@.contains(c),
{
    lemma_split(chars@, c);
    assert forall|i: int| 0 <= i < parts@.len() implies !(#[trigger] parts@[i])@.contains(c) by {
        assert(views(parts@)[i] == parts@[i]@);
    }
}

/// What follows the last separator, or any other character of a class, is a tail
/// without one, and what comes before it ends in one.
pub proof fn law_the_tail_starts_behind_the_last(
    chars: Vec<char>,
    class: CharClass,
    tail: Vec<char>,
)
    requires
        call_ensures(tail_after, (&chars, class), tail),
    ensures
        tail@.len() <= chars@.len(),
        tail@ == chars@.skip(chars@.len() - tail@.len()),
        forall|i: int| 0 <= i < tail@.len() ==> !class.has(#[trigger] tail@[i]),
        tail@.len() < chars@.len() ==> class.has(chars@[chars@.len() - tail@.len() - 1]),
{
    lemma_after_last(chars@, class);
    lemma_before_after_last(chars@, class);
}

proof fn lemma_before_after_last(s: Seq<char>, class: CharClass)
    ensures
        after_last(s, class).len() < s.len() ==> class.has(
            s[s.len() - after_last(s, class).len() - 1],
        ),
    decreases s.len(),
{
    if s.len() > 0 && !class.has(s.last()) {
        lemma_before_after_last(s.drop_last(), class);
    }
}

/// A digit has its value, in either case, and nothing else is a digit.
pub proof fn law_digits_have_their_value(c: char, value: u64)
    requires
        call_ensures(digit_of, (c,), value),
    ensures
        48 <= c as int <= 57 ==> value == c as int - 48,
        97 <= c as int <= 102 ==> value == c as int - 87,
        65 <= c as int <= 70 ==> value == c as int - 55,
        value < 16 ==> 48 <= c as int <= 57 || 97 <= c as int <= 102 || 65 <= c as int <= 70,
{
}

/// A number is read digit by digit: one more digit is worth one more power of the
/// radix. A sign in front is read once, an empty text is no number, and neither is
/// one above the limit.
pub proof fn law_numbers_are_read_by_place(
    head: Seq<char>,
    last: char,
    radix: int,
    chars: Vec<char>,
    max: u64,
    value: Option<u64>,
)
    requires
        2 <= radix <= 16,
        chars@ == head.push(last),
        head.len() > 0,
        head[0] != '+',
        call_ensures(parse_unsigned, (&chars, radix as u64, max), value),
    ensures
        value is Some ==> digit_value(last) < radix && is_number(head, radix) && value->0
            == digits_value(head, radix) * radix + digit_value(last) && value->0 <= max,
        is_number(head, radix) && digit_value(last) < radix && digits_value(head, radix) * radix
            + digit_value(last) <= max ==> value is Some,
        digits_value(seq![last], radix) == digit_value(last),
{
    let s = head.push(last);
    assert(s.drop_last() =~= head);
    reveal_with_fuel(digits_value, 2);
    assert(seq![last].drop_last() =~= Seq::<char>::empty());
    if is_number(s, radix) {
        assert forall|i: int| 0 <= i < head.len() implies digit_value(#[trigger] head[i])
            < radix by {
            assert(s[i] == head[i]);
        }
        assert(s[head.len() as int] == last);
    }
    if is_number(head, radix) && digit_value(last) < radix {
        assert forall|i: int| 0 <= i < s.len() implies digit_value(#[trigger] s[i]) < radix by {
            if i < head.len() {
                assert(s[i] == head[i]);
            }
        }
    }
}

/// A minus sign makes a number negative, and the smallest number can be written.
pub proof fn law_a_minus_sign_negates(digits: Seq<char>, chars: Vec<char>, value: Option<i32>)
    requires
        call_ensures(parse_i32, (&chars,), value),
        chars@ == seq!['-'] + digits,
    ensures
        value is Some <==> is_number(digits, 10) && digits_value(digits, 10) <= 0x8000_0000,
        value matches Some(value) ==> value == -digits_value(digits, 10),
{
    assert(chars@.drop_first() =~= digits);
}

/// Characters of a class in front of a text that starts with none are trimmed.
pub proof fn lemma_trimmed_front(front: Seq<char>, kept: Seq<char>, class: CharClass)
    requires
        forall|i: int| 0 <= i < front.len() ==> class.has(#[trigger] front[i]),
        kept.len() > 0 ==> !class.has(kept.first()),
    ensures
        trim_start(front + kept, class) == kept,
    decreases front.len(),
{
    let whole = front + kept;
    if front.len() > 0 {
        let rest = front.drop_first();
        assert forall|i: int| 0 <= i < rest.len() implies class.has(#[trigger] rest[i]) by {
            assert(rest[i] == front[i + 1]);
        }
        lemma_trimmed_front(rest, kept, class);
        assert(whole.first() == front[0]);
        assert(whole.drop_first() =~= rest + kept);
    } else {
        assert(whole =~= kept);
    }
}

/// Characters of a class behind a text that ends in none are trimmed.
pub proof fn lemma_trimmed_back(kept: Seq<char>, back: Seq<char>, class: CharClass)
    requires
        forall|i: int| 0 <= i < back.len() ==> class.has(#[trigger] back[i]),
        kept.len() > 0 ==> !class.has(kept.last()),
    ensures
        trim_end(kept + back, class) == kept,
    decreases back.len(),
{
    let whole = kept + back;
    if back.len() > 0 {
        let rest = back.drop_last();
        assert forall|i: int| 0 <= i < rest.len() implies class.has(#[trigger] rest[i]) by {
            assert(rest[i] == back[i]);
        }
        lemma_trimmed_back(kept, rest, class);
        assert(whole.last() == back[back.len() - 1]);
        assert(whole.drop_last() =~= kept + rest);
    } else {
        assert(whole =~= kept);
    }
}

/// Digits are written as the characters that stand for them.
pub proof fn law_digits_are_written_as_they_are_read(d: u32, c: char)
    requires
        d < 16,
        call_ensures(char_of_digit, (d,), c),
    ensures
        d < 10 ==> c as int == 48 + d,
        d >= 10 ==> c as int == 87 + d,
{
    reveal_strlit("0123456789abcdef");
}

/// A number is written with as many digits as it needs, behind what was there, and a
/// minus sign exactly where it is negative. Read back, it is the same number.
pub proof fn law_numbers_are_written_in_decimal(n: i64, written: Seq<char>)
    requires
        exists|text: &mut String|
            text@ == Seq::<char>::empty() && final(text)@ == written && #[trigger] call_ensures(
                push_signed,
                (text, n),
                (),
            ),
    ensures
        written.len() > 0,
        n < 0 <==> written[0] == '-',
        n >= 0 ==> is_number(written, 10) && digits_value(written, 10) == n,
        n < 0 ==> is_number(written.skip(1), 10) && digits_value(written.skip(1), 10) == -n,
{
    let digits = decimal((if n < 0 { -n } else { n as int }) as nat);
    crate::events::lemma_decimal((if n < 0 { -n } else { n as int }) as nat);
    assert(Seq::<char>::empty() + signed_decimal(n as int) =~= signed_decimal(n as int));
    if n < 0 {
        assert(written.skip(1) =~= digits);
    } else {
        assert(digit_value(written[0]) < 10);
    }
}

/// A text is cut where the character stands behind a head that has none.
pub proof fn lemma_cut(head: Seq<char>, tail: Seq<char>, c: char)
    requires
        !head.contains(c),
    ensures
        split_once(head + seq![c] + tail, c) == Some((head, tail)),
{
    let s = head + seq![c] + tail;
    lemma_find(s, c);
    let n = find(s, c) as int;
    let k = head.len() as int;
    assert(s[k] == c);
    if n < k {
        assert(s[n] == head[n]);
        assert(head.contains(c));
    }
    assert(n == k);
    assert(s.take(k) =~= head);
    assert(s.skip(k + 1) =~= tail);
}

/// A plus sign in front of a number is read, once, and says nothing.
pub proof fn law_a_plus_sign_says_nothing(
    digits: Seq<char>,
    chars: Vec<char>,
    bare: Vec<char>,
    radix: u64,
    max: u64,
    value: Option<u64>,
    same: Option<u64>,
)
    requires
        2 <= radix <= 16,
        digits.len() > 0,
        chars@ == seq!['+'] + digits,
        bare@ == digits,
        call_ensures(parse_unsigned, (&chars, radix, max), value),
        call_ensures(parse_unsigned, (&bare, radix, max), same),
    ensures
        digits[0] != '+' ==> value == same,
        digits[0] == '+' ==> value is None,
{
    assert(chars@.drop_first() =~= digits);
    if digits[0] == '+' {
        assert(digit_value(digits[0]) == 16);
    }
}

} // verus!
