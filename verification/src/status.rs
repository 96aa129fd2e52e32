use vstd::prelude::*;
use vstd::string::StrSliceExecFns;
use vstd::string::StringExecFns;
use std::fmt::Write;
use crate::state::Messages;
use crate::state::StateSnapshot;

verus! {

/// Visual style of one run of status or panel text.
#[derive(Clone, Copy, PartialEq, Eq, Structural, Debug)]
pub enum TextStyle {
    Plain,
    Reversed,
    Bold,
}

/// A run of text together with the style it is drawn in; where it goes is
/// the caller's business.
#[derive(Debug)]
pub struct StyledText {
    pub text: String,
    pub style: TextStyle,
}

/// ASCII uppercase of a character; anything but a lowercase ASCII letter is
/// left alone.
pub open spec fn upper_char(c: char) -> char {
    if 'a' <= c && c <= 'z' {
        ((c as u8) - 32) as char
    } else {
        c
    }
}

/// Text with the first letter of each space-separated word capitalized.
pub open spec fn titleize_spec(s: Seq<char>) -> Seq<char> {
    Seq::new(
        s.len(),
        |i: int|
            if i == 0 || s[i - 1] == ' ' {
                upper_char(s[i])
            } else {
                s[i]
            },
    )
}

fn upper_ascii(c: char) -> (r: char)
    ensures
        r == upper_char(c),
{
    if 'a' <= c && c <= 'z' {
        ((c as u8) - 32) as char
    } else {
        c
    }
}

/// Relies on `String`'s `FromIterator` over characters: collecting a
/// character vector yields the string of exactly those characters.
#[verifier::external_body]
fn string_from_chars(v: &Vec<char>) -> (r: String)
    ensures
        r@ == v@,
{
    v.iter().collect()
}

/// Capitalize the first letter of each space-separated word.
pub fn titleize(s: &str) -> (r: String)
    ensures
        r@ == titleize_spec(s@),
{
    let n = s.unicode_len();
    let mut out: Vec<char> = Vec::new();
    let mut i: usize = 0;
    while i < n
        invariant
            i <= n,
            n == s@.len(),
            out@ == titleize_spec(s@).take(i as int),
        decreases n - i,
    {
        let c = s.get_char(i);
        let up = if i == 0 {
            upper_ascii(c)
        } else {
            let prev = s.get_char(i - 1);
            if prev == ' ' {
                upper_ascii(c)
            } else {
                c
            }
        };
        out.push(up);
        proof {
            assert(out@ =~= titleize_spec(s@).take(i as int + 1));
        }
        i += 1;
    }
    proof {
        assert(titleize_spec(s@).take(n as int) =~= titleize_spec(s@));
    }
    string_from_chars(&out)
}

/// Number of displayed characters of a text: the count every offset and
/// width computation of this layer uses, never the raw byte length, so
/// that localized labels keep label and cursor math in step.
pub fn displayed_width(s: &str) -> (r: usize)
    ensures
        r == s@.len(),
{
    s.unicode_len()
}

/// Width of each half of the status row: the surface width minus the
/// window padding on both sides, divided evenly between the two halves.
pub fn status_block_size(width: u16, pad: u16) -> (r: u16)
    requires
        2 * pad <= width,
    ensures
        r == (width - 2 * pad) / 2,
        2 * pad + 2 * r <= width,
{
    (width - 2 * pad) / 2
}

/// A key label of the status line, drawn in the reverse style.
pub fn status_label(text: &str) -> (r: StyledText)
    ensures
        r.style == TextStyle::Reversed,
        r.text@ == text@,
{
    StyledText { text: String::from_str(text), style: TextStyle::Reversed }
}

/// An action description or transient value of the status line, titleized
/// and drawn plain.
pub fn status_value(text: &str) -> (r: StyledText)
    ensures
        r.style == TextStyle::Plain,
        r.text@ == titleize_spec(text@),
{
    StyledText { text: titleize(text), style: TextStyle::Plain }
}

/// A field label of a panel: bold when present, empty plain text when
/// absent.
pub fn prompt_value(text: Option<&str>) -> (r: StyledText)
    ensures
        match text {
            Some(t) => r.style == TextStyle::Bold && r.text@ == t@,
            None => r.style == TextStyle::Plain && r.text@.len() == 0,
        },
{
    match text {
        Some(t) => StyledText { text: String::from_str(t), style: TextStyle::Bold },
        None => {
            let r = StyledText { text: String::from_str(""), style: TextStyle::Plain };
            proof {
                reveal_strlit("");
            }
            r
        },
    }
}

/// The transient command value shown in the status line: the command text
/// when one is set, a placeholder dash when none is.
pub open spec fn command_display(command: Option<Seq<char>>) -> Seq<char> {
    match command {
        Some(c) => c,
        None => seq!['-'],
    }
}

/// View of an optional string as an optional character sequence.
pub open spec fn opt_view(s: Option<String>) -> Option<Seq<char>> {
    match s {
        Some(t) => Some(t@),
        None => None,
    }
}

/// Style and character content of a styled run, the part its drawing
/// depends on.
pub open spec fn styled_view(t: StyledText) -> (TextStyle, Seq<char>) {
    (t.style, t.text@)
}

/// What the left status half holds: the fixed key-binding legend, then
/// the transient command value (or its placeholder), labels reversed and
/// descriptions titleized.
pub open spec fn status_left_view(m: Messages, command: Option<Seq<char>>) -> Seq<
    (TextStyle, Seq<char>),
> {
    seq![
        (TextStyle::Reversed, "ESC"@),
        (TextStyle::Plain, titleize_spec(m.action_reset@)),
        (TextStyle::Reversed, "F2"@),
        (TextStyle::Plain, titleize_spec(m.action_command@)),
        (TextStyle::Reversed, "F3"@),
        (TextStyle::Plain, titleize_spec(m.action_session@)),
        (TextStyle::Reversed, "F12"@),
        (TextStyle::Plain, titleize_spec(m.action_power@)),
        (TextStyle::Reversed, m.status_command@),
        (TextStyle::Plain, titleize_spec(command_display(command))),
    ]
}

/// The left half of the status line: the fixed key-binding legend, then
/// the transient command value (or its placeholder), labels reversed and
/// descriptions titleized.
pub fn status_left_spans(m: &Messages, command: &Option<String>) -> (r: Vec<StyledText>)
    ensures
        r@.map_values(|t: StyledText| styled_view(t)) == status_left_view(*m, opt_view(*command)),
        r@.len() == 10,
        r@[0].style == TextStyle::Reversed && r@[0].text@ == "ESC"@,
        r@[1].style == TextStyle::Plain && r@[1].text@ == titleize_spec(m.action_reset@),
        r@[2].style == TextStyle::Reversed && r@[2].text@ == "F2"@,
        r@[3].style == TextStyle::Plain && r@[3].text@ == titleize_spec(m.action_command@),
        r@[4].style == TextStyle::Reversed && r@[4].text@ == "F3"@,
        r@[5].style == TextStyle::Plain && r@[5].text@ == titleize_spec(m.action_session@),
        r@[6].style == TextStyle::Reversed && r@[6].text@ == "F12"@,
        r@[7].style == TextStyle::Plain && r@[7].text@ == titleize_spec(m.action_power@),
        r@[8].style == TextStyle::Reversed && r@[8].text@ == m.status_command@,
        r@[9].style == TextStyle::Plain && r@[9].text@ == titleize_spec(
            command_display(opt_view(*command)),
        ),
{
    let mut r: Vec<StyledText> = Vec::new();
    r.push(status_label("ESC"));
    r.push(status_value(m.action_reset.as_str()));
    r.push(status_label("F2"));
    r.push(status_value(m.action_command.as_str()));
    r.push(status_label("F3"));
    r.push(status_value(m.action_session.as_str()));
    r.push(status_label("F12"));
    r.push(status_value(m.action_power.as_str()));
    r.push(status_label(m.status_command.as_str()));
    let cmd = match command {
        Some(c) => status_value(c.as_str()),
        None => {
            let v = status_value("-");
            proof {
                reveal_strlit("-");
                assert("-"@ =~= seq!['-']);
            }
            v
        },
    };
    r.push(cmd);
    proof {
        assert(r@.map_values(|t: StyledText| styled_view(t)) =~= status_left_view(
            *m,
            opt_view(*command),
        ));
    }
    r
}

/// The right half of the status line: exactly one reverse-styled Caps Lock
/// label when the indicator is active, nothing otherwise.
pub fn status_right_span(m: &Messages, capslock: bool) -> (r: Option<StyledText>)
    ensures
        capslock <==> r is Some,
        r matches Some(t) ==> t.style == TextStyle::Reversed && t.text@ == m.status_caps@,
{
    if capslock {
        Some(status_label(m.status_caps.as_str()))
    } else {
        None
    }
}

/// The time pattern the title row uses: the configured one when set, else
/// the locale's fallback date pattern from the message catalog.
pub fn chosen_time_format(state: &StateSnapshot) -> (r: String)
    ensures
        r@ == match state.time_format {
            Some(f) => f@,
            None => state.messages.date_format@,
        },
{
    match &state.time_format {
        Some(f) => String::from_str(f.as_str()),
        None => String::from_str(state.messages.date_format.as_str()),
    }
}

/// Relies on chrono's `Local::now` and `DateTime::format_localized`:
/// renders the current local time with the given pattern and locale.
/// `None` when the pattern is not a valid format string.
#[verifier::external_body]
fn formatted_local_time(pattern: &str, locale: chrono::Locale) -> (r: Option<String>) {
    let now = chrono::Local::now();
    let mut out = String::new();
    match write!(&mut out, "{}", now.format_localized(pattern, locale)) {
        Ok(()) => Some(out),
        Err(_) => None,
    }
}

/// Text of the title row: the current local time, formatted with the
/// chosen pattern and the snapshot's locale. The text depends on the
/// clock; `None` only when the pattern is invalid.
pub fn get_time(state: &StateSnapshot) -> (r: Option<String>) {
    let pattern = chosen_time_format(state);
    formatted_local_time(pattern.as_str(), state.locale)
}

} // verus!
