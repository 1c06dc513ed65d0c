//! Handing text to a page as JavaScript.
use vstd::prelude::*;
use vstd::string::*;
use crate::text::{char_of_digit, digit_char, digit_value, joined3};

verus! {

/// How one character stands inside a JSON string literal.
pub open spec fn escaped_char(c: char) -> Seq<char> {
    if c == '"' {
        seq!['\\', '"']
    } else if c == '\\' {
        seq!['\\', '\\']
    } else if c == '\n' {
        seq!['\\', 'n']
    } else if c == '\r' {
        seq!['\\', 'r']
    } else if c == '\t' {
        seq!['\\', 't']
    } else if (c as int) < 0x20 {
        seq!['\\', 'u', '0', '0', digit_char(c as int / 16), digit_char(c as int % 16)]
    } else {
        seq![c]
    }
}

/// How text stands inside a JSON string literal.
pub open spec fn escaped(text: Seq<char>) -> Seq<char>
    decreases text.len(),
{
    if text.len() == 0 {
        Seq::empty()
    } else {
        escaped(text.drop_last()) + escaped_char(text.last())
    }
}

/// The JSON string literal of `text`.
pub open spec fn string_literal(text: Seq<char>) -> Seq<char> {
    seq!['"'] + escaped(text) + seq!['"']
}

/// Appends a character as it stands inside a JSON string literal.
fn push_escaped(out: &mut String, c: char)
    ensures
        final(out)@ == old(out)@ + escaped_char(c),
{
    if c == '"' {
        out.push('\\');
        out.push('"');
    } else if c == '\\' {
        out.push('\\');
        out.push('\\');
    } else if c == '\n' {
        out.push('\\');
        out.push('n');
    } else if c == '\r' {
        out.push('\\');
        out.push('r');
    } else if c == '\t' {
        out.push('\\');
        out.push('t');
    } else if (c as u32) < 0x20 {
        out.push('\\');
        out.push('u');
        out.push('0');
        out.push('0');
        out.push(char_of_digit(c as u32 / 16));
        out.push(char_of_digit(c as u32 % 16));
    } else {
        out.push(c);
    }
    assert(out@ =~= old(out)@ + escaped_char(c));
}

/// Encode `s` as a JSON string literal: double-quoted, with backslash escapes.
pub fn escape_js_string(s: &str) -> (literal: String)
    ensures
        literal@ == string_literal(s@),
{
    let mut out = String::new();
    out.push('"');
    assert(out@ =~= seq!['"'] + escaped(s@.take(0)));
    for c in it: s.chars()
        invariant
            it.seq() == s@,
            out@ == seq!['"'] + escaped(s@.take(it.index@ as int)),
    {
        let ghost before = s@.take(it.index@ as int);
        let ghost after = s@.take(it.index@ as int + 1);
        push_escaped(&mut out, c);
        assert(after.drop_last() == before);
        assert(after.last() == c);
        assert(out@ =~= seq!['"'] + escaped(after));
    }
    assert(s@.take(s@.len() as int) == s@);
    out.push('"');
    assert(out@ =~= string_literal(s@));
    out
}

/// The script that dispatches a message on the page's window.
pub open spec fn message_script(message: Seq<char>) -> Seq<char> {
    "window.dispatchEvent(new MessageEvent('message',{data:"@ + string_literal(message)
        + ",origin:'weld'}));"@
}

/// The script that dispatches `message` on the page's window, so that
/// `window.addEventListener("message", ...)` sees it.
pub fn web_message_script(message: &str) -> (script: String)
    ensures
        script@ == message_script(message@),
{
    let literal: String = escape_js_string(message);
    joined3(
        "window.dispatchEvent(new MessageEvent('message',{data:",
        literal.as_str(),
        ",origin:'weld'}));",
    )
}

/// What the inside of a JSON string literal says, read from the front. `None`
/// where it is not the inside of a literal.
pub open spec fn unescaped(inside: Seq<char>) -> Option<Seq<char>>
    decreases inside.len(),
{
    if inside.len() == 0 {
        Some(Seq::empty())
    } else if inside[0] == '"' || (inside[0] as int) < 0x20 {
        None
    } else if inside[0] != '\\' {
        match unescaped(inside.skip(1)) {
            Some(rest) => Some(seq![inside[0]] + rest),
            None => None,
        }
    } else if inside.len() >= 2 && inside[1] != 'u' {
        let c = if inside[1] == 'n' {
            Some('\n')
        } else if inside[1] == 'r' {
            Some('\r')
        } else if inside[1] == 't' {
            Some('\t')
        } else if inside[1] == '"' || inside[1] == '\\' {
            Some(inside[1])
        } else {
            None
        };
        match (c, unescaped(inside.skip(2))) {
            (Some(c), Some(rest)) => Some(seq![c] + rest),
            _ => None,
        }
    } else if inside.len() >= 6 && forall|i: int|
        2 <= i < 6 ==> digit_value(#[trigger] inside[i]) < 16 {
        let code = ((digit_value(inside[2]) * 16 + digit_value(inside[3])) * 16 + digit_value(
            inside[4],
        )) * 16 + digit_value(inside[5]);
        match unescaped(inside.skip(6)) {
            Some(rest) => Some(seq![code as char] + rest),
            None => None,
        }
    } else {
        None
    }
}

/// One escaped character reads back as that character, whatever follows it.
proof fn lemma_unescape_char(c: char, tail: Seq<char>)
    ensures
        unescaped(escaped_char(c) + tail) == match unescaped(tail) {
            Some(rest) => Some(seq![c] + rest),
            None => None,
        },
{
    let inside = escaped_char(c) + tail;
    assert(inside.skip(escaped_char(c).len() as int) =~= tail);
    if (c as int) < 0x20 && c != '\n' && c != '\r' && c != '\t' {
        reveal_strlit("0123456789abcdef");
        let hi = c as int / 16;
        let lo = c as int % 16;
        assert forall|d: int| 0 <= d < 16 implies digit_value(#[trigger] digit_char(d)) == d by {
        }
        assert(inside[0] == '\\' && inside[1] == 'u' && inside[2] == '0' && inside[3] == '0'
            && inside[4] == digit_char(hi) && inside[5] == digit_char(lo));
        assert(digit_value('0') == 0);
        assert(hi * 16 + lo == c as int);
        assert((hi * 16 + lo) as char == c);
    } else if c == '"' || c == '\\' || c == '\n' || c == '\r' || c == '\t' {
        assert(inside[0] == '\\');
        assert(inside[1] == escaped_char(c)[1]);
    } else {
        assert(inside[0] == c);
    }
}

proof fn lemma_unescape(text: Seq<char>, tail: Seq<char>)
    ensures
        unescaped(escaped(text) + tail) == match unescaped(tail) {
            Some(rest) => Some(text + rest),
            None => None,
        },
    decreases text.len(),
{
    if text.len() == 0 {
        assert(escaped(text) + tail =~= tail);
        if unescaped(tail) is Some {
            assert(text + unescaped(tail)->0 =~= unescaped(tail)->0);
        }
    } else {
        let head = text.drop_last();
        let c = text.last();
        assert(escaped(text) + tail =~= escaped(head) + (escaped_char(c) + tail));
        lemma_unescape(head, escaped_char(c) + tail);
        lemma_unescape_char(c, tail);
        if unescaped(tail) is Some {
            let rest = unescaped(tail)->0;
            assert(head + (seq![c] + rest) =~= text + rest);
        }
    }
}

/// The literal of a text is one string literal, which says that text. Nothing in
/// the text can end the literal early.
pub proof fn law_a_literal_says_its_text(text: Seq<char>)
    ensures
        string_literal(text).first() == '"',
        string_literal(text).last() == '"',
        unescaped(string_literal(text).subrange(1, string_literal(text).len() - 1)) == Some(text),
{
    let literal = string_literal(text);
    assert(literal.subrange(1, literal.len() - 1) =~= escaped(text));
    lemma_unescape(text, Seq::empty());
    assert(escaped(text) + Seq::<char>::empty() =~= escaped(text));
    assert(text + Seq::<char>::empty() =~= text);
}

proof fn lemma_escaped_joins(left: Seq<char>, right: Seq<char>)
    ensures
        escaped(left + right) == escaped(left) + escaped(right),
    decreases right.len(),
{
    if right.len() == 0 {
        assert(left + right =~= left);
        assert(escaped(left) + escaped(right) =~= escaped(left));
    } else {
        lemma_escaped_joins(left, right.drop_last());
        assert((left + right).drop_last() =~= left + right.drop_last());
        assert(escaped(left) + escaped(right) =~= escaped(left) + escaped(right.drop_last())
            + escaped_char(right.last()));
    }
}

proof fn lemma_plain(text: Seq<char>)
    requires
        forall|i: int|
            0 <= i < text.len() ==> (#[trigger] text[i]) as int >= 0x20 && text[i] != '"' && text[i]
                != '\\',
    ensures
        escaped(text) == text,
    decreases text.len(),
{
    if text.len() > 0 {
        lemma_plain(text.drop_last());
        assert(text.drop_last() + seq![text.last()] =~= text);
    }
}

/// Text that holds nothing special stands in a literal as it is, between quotes.
pub proof fn law_plain_text_stands_as_it_is(s: &str, literal: String)
    requires
        call_ensures(escape_js_string, (s,), literal),
        forall|i: int|
            0 <= i < s@.len() ==> (#[trigger] s@[i]) as int >= 0x20 && s@[i] != '"' && s@[i]
                != '\\',
    ensures
        literal@ == seq!['"'] + s@ + seq!['"'],
{
    lemma_plain(s@);
}

/// A special character is written the way JavaScript writes it, wherever in a text
/// it stands and whatever is round it.
pub proof fn law_special_characters_are_written_out(
    before: Seq<char>,
    c: char,
    after: Seq<char>,
    s: &str,
    literal: String,
)
    requires
        call_ensures(escape_js_string, (s,), literal),
        s@ == before + seq![c] + after,
    ensures
        ({
            let written = if c == '"' {
                seq!['\\', '"']
            } else if c == '\\' {
                seq!['\\', '\\']
            } else if c as int == 10 {
                seq!['\\', 'n']
            } else if c as int == 13 {
                seq!['\\', 'r']
            } else if c as int == 9 {
                seq!['\\', 't']
            } else if (c as int) < 0x20 {
                seq!['\\', 'u', '0', '0', digit_char(c as int / 16), digit_char(c as int % 16)]
            } else {
                seq![c]
            };
            literal@ == seq!['"'] + escaped(before) + written + escaped(after) + seq!['"']
        }),
{
    lemma_escaped_joins(before + seq![c], after);
    lemma_escaped_joins(before, seq![c]);
    assert(seq![c].drop_last() =~= Seq::<char>::empty());
    reveal_with_fuel(escaped, 2);
    assert(escaped(seq![c]) =~= escaped_char(c));
    assert(string_literal(s@) =~= seq!['"'] + escaped(before) + escaped_char(c) + escaped(after)
        + seq!['"']);
}

/// A message is dispatched to the window as a literal of its text, from an origin
/// of its own.
pub proof fn law_a_message_is_dispatched_as_a_literal(
    message: &str,
    literal: String,
    script: String,
)
    requires
        call_ensures(escape_js_string, (message,), literal),
        call_ensures(web_message_script, (message,), script),
    ensures
        script@ == "window.dispatchEvent(new MessageEvent('message',{data:"@ + literal@
            + ",origin:'weld'}));"@,
{
}

} // verus!
