//! The text of the headers under which requests and counted lists are shown:
//! which pieces a header is made of, and how each is emphasised. Laying the
//! pieces out with fonts and colours is left to whoever draws them.

use vstd::prelude::*;
use vstd::string::StringExecFns;

verus! {

/// The colour class of a piece of header text.
#[derive(Debug, Clone, Copy, PartialEq, Eq, Structural)]
pub enum Tone {
    /// The ordinary text colour.
    Text,
    /// The colour that draws attention.
    Warn,
}

/// One piece of a header: its text, its colour class and whether it is
/// shown in strong type.
#[derive(Debug, PartialEq, Eq)]
pub struct HeaderPart {
    pub text: String,
    pub tone: Tone,
    pub strong: bool,
}

/// A piece of a header as a mathematical value.
pub struct HeaderPartView {
    pub text: Seq<char>,
    pub tone: Tone,
    pub strong: bool,
}

impl View for HeaderPart {
    type V = HeaderPartView;

    open spec fn view(&self) -> HeaderPartView {
        HeaderPartView { text: self.text@, tone: self.tone, strong: self.strong }
    }
}

/// The pieces of a header, each as a mathematical value.
pub open spec fn part_views(parts: Seq<HeaderPart>) -> Seq<HeaderPartView> {
    parts.map_values(|part: HeaderPart| part@)
}

/// The character of a decimal digit.
pub open spec fn digit_char(d: nat) -> char
    recommends
        d < 10,
{
    if d == 0 {
        '0'
    } else if d == 1 {
        '1'
    } else if d == 2 {
        '2'
    } else if d == 3 {
        '3'
    } else if d == 4 {
        '4'
    } else if d == 5 {
        '5'
    } else if d == 6 {
        '6'
    } else if d == 7 {
        '7'
    } else if d == 8 {
        '8'
    } else {
        '9'
    }
}

/// A number written in decimal, without leading zeros.
pub open spec fn decimal_text(n: nat) -> Seq<char>
    decreases n,
{
    if n < 10 {
        seq![digit_char(n)]
    } else {
        decimal_text(n / 10).push(digit_char(n % 10))
    }
}

/// The header of a request. With an address it is the method and a space,
/// drawing attention in strong type, then the address in ordinary type;
/// without one it is `Untitled Request` in strong type.
pub open spec fn rest_header_parts(method: Seq<char>, base_url: Seq<char>) -> Seq<HeaderPartView> {
    if base_url.len() > 0 {
        seq![
            HeaderPartView { text: method + " "@, tone: Tone::Warn, strong: true },
            HeaderPartView { text: base_url, tone: Tone::Text, strong: false },
        ]
    } else {
        seq![HeaderPartView { text: "Untitled Request"@, tone: Tone::Text, strong: true }]
    }
}

/// The header of a counted list: the name and a space in strong type, then,
/// where the count is not zero, the count in brackets, drawing attention.
pub open spec fn count_header_parts(name: Seq<char>, count: nat) -> Seq<HeaderPartView> {
    let title = HeaderPartView { text: name + " "@, tone: Tone::Text, strong: true };
    if count > 0 {
        seq![
            title,
            HeaderPartView {
                text: "("@ + decimal_text(count) + ")"@,
                tone: Tone::Warn,
                strong: true,
            },
        ]
    } else {
        seq![title]
    }
}

/// The text of one decimal digit.
fn digit_text(d: usize) -> (text: &'static str)
    requires
        d < 10,
    ensures
        text@ == seq![digit_char(d as nat)],
{
    proof {
        reveal_strlit("0");
        reveal_strlit("1");
        reveal_strlit("2");
        reveal_strlit("3");
        reveal_strlit("4");
        reveal_strlit("5");
        reveal_strlit("6");
        reveal_strlit("7");
        reveal_strlit("8");
        reveal_strlit("9");
    }
    let text = if d == 0 {
        "0"
    } else if d == 1 {
        "1"
    } else if d == 2 {
        "2"
    } else if d == 3 {
        "3"
    } else if d == 4 {
        "4"
    } else if d == 5 {
        "5"
    } else if d == 6 {
        "6"
    } else if d == 7 {
        "7"
    } else if d == 8 {
        "8"
    } else {
        "9"
    };
    text
}

/// Writes `n` in decimal, without leading zeros.
pub fn decimal(n: usize) -> (text: String)
    ensures
        text@ == decimal_text(n as nat),
    decreases n,
{
    if n < 10 {
        String::from_str(digit_text(n))
    } else {
        let mut text = decimal(n / 10);
        text.append(digit_text(n % 10));
        text
    }
}

/// The pieces of the header of a request with this method and address.
pub fn rest_header(method: &str, base_url: &str) -> (parts: Vec<HeaderPart>)
    ensures
        part_views(parts@) == rest_header_parts(method@, base_url@),
{
    let mut parts: Vec<HeaderPart> = Vec::new();
    if !base_url.is_empty() {
        let verb = String::from_str(method).concat(" ");
        parts.push(HeaderPart { text: verb, tone: Tone::Warn, strong: true });
        parts.push(
            HeaderPart { text: String::from_str(base_url), tone: Tone::Text, strong: false },
        );
    } else {
        parts.push(
            HeaderPart {
                text: String::from_str("Untitled Request"),
                tone: Tone::Text,
                strong: true,
            },
        );
    }
    parts
}

/// The pieces of the header of a list with this name and this many entries.
pub fn count_header(name: String, count: usize) -> (parts: Vec<HeaderPart>)
    ensures
        part_views(parts@) == count_header_parts(name@, count as nat),
{
    let mut parts: Vec<HeaderPart> = Vec::new();
    parts.push(HeaderPart { text: name.concat(" "), tone: Tone::Text, strong: true });
    if count > 0 {
        let number = decimal(count);
        let bracketed = String::from_str("(").concat(number.as_str()).concat(")");
        parts.push(HeaderPart { text: bracketed, tone: Tone::Warn, strong: true });
    }
    parts
}

} // verus!
