//! Markup for a server's message: what the legacy style codes mean, and
//! what the state of a service looks like.

use crate::text::{chars_of, push_char, same_text};
use vstd::prelude::*;
use vstd::string::*;

verus! {

/// The character that introduces a style code.
pub const SECTION: char = '\u{a7}';

/// A run of text with the classes that style it.
#[derive(Clone, Debug, Default)]
pub struct Span<'a> {
    class: &'a [String],
    content: &'a str,
    color: Option<&'a str>,
}

/// What stands for `c` in markup: an entity for the five characters that
/// mean something there, the character itself otherwise.
pub open spec fn escaped_char(c: char) -> Seq<char> {
    if c == '<' {
        "&lt;"@
    } else if c == '>' {
        "&gt;"@
    } else if c == '&' {
        "&amp;"@
    } else if c == '"' {
        "&quot;"@
    } else if c == '\'' {
        "&#x27;"@
    } else {
        seq![c]
    }
}

/// `text` with every character as it stands in markup.
pub open spec fn html_escaped(text: Seq<char>) -> Seq<char>
    decreases text.len(),
{
    if text.len() == 0 {
        Seq::empty()
    } else {
        html_escaped(text.drop_last()) + escaped_char(text.last())
    }
}

/// The classes, each followed by a blank.
pub open spec fn class_list(class: Seq<Seq<char>>) -> Seq<char>
    decreases class.len(),
{
    if class.len() == 0 {
        Seq::empty()
    } else {
        class_list(class.drop_last()) + class.last() + " "@
    }
}

/// The color's class followed by a blank, where there is a color.
pub open spec fn color_item(color: Option<Seq<char>>) -> Seq<char> {
    match color {
        Some(name) => name + " "@,
        None => Seq::empty(),
    }
}

/// The markup of a span: nothing where there is no content, otherwise a
/// `span` element whose classes are the color, if any, and then the other
/// classes, around the content as it stands in markup.
pub open spec fn span_markup(
    class: Seq<Seq<char>>,
    color: Option<Seq<char>>,
    content: Seq<char>,
) -> Seq<char> {
    if content.len() == 0 {
        Seq::empty()
    } else {
        "<span class=\""@ + color_item(color) + class_list(class) + "\">"@ + html_escaped(content)
            + "</span>"@
    }
}

/// Writes `content` as it stands in markup.
///
/// Formats `content` through `askama::MarkupDisplay` with the escaper
/// `askama::Html`, which replaces `<`, `>`, `&`, `"` and `'` by `&lt;`,
/// `&gt;`, `&amp;`, `&quot;` and `&#x27;` and copies every other character.
#[verifier::external_body]
fn escape_html(content: &str) -> (markup: String)
    ensures
        markup@ == html_escaped(content@),
{
    askama::MarkupDisplay::new_unsafe(content, askama::Html).to_string()
}

impl<'a> Span<'a> {
    /// The classes other than the color.
    pub closed spec fn class(self) -> Seq<Seq<char>> {
        self.class.deep_view()
    }

    /// The class of the color.
    pub closed spec fn color(self) -> Option<Seq<char>> {
        match self.color {
            Some(name) => Some(name@),
            None => None,
        }
    }

    /// The text.
    pub closed spec fn content(self) -> Seq<char> {
        self.content@
    }

    /// A span of `content` styled by `color` and `class`.
    pub fn new(class: &'a [String], color: Option<&'a str>, content: &'a str) -> (span: Self)
        ensures
            span.class() == class.deep_view(),
            span.color() == match color {
                Some(name) => Some(name@),
                None => None,
            },
            span.content() == content@,
    {
        Span { class, content, color }
    }

    /// The markup of this span.
    pub fn to_string(&self) -> (markup: String)
        ensures
            markup@ == span_markup(self.class(), self.color(), self.content()),
    {
        let mut out = String::new();
        if self.content.is_empty() {
            return out;
        }
        out.append("<span class=\"");
        match self.color {
            Some(color) => {
                out.append(color);
                out.append(" ");
            },
            None => {},
        }
        let ghost head = out@;
        let ghost names = self.class.deep_view();
        let mut i: usize = 0;
        while i < self.class.len()
            invariant
                i <= self.class.len(),
                names == self.class.deep_view(),
                out@ == head + class_list(names.take(i as int)),
            decreases self.class.len() - i,
        {
            out.append(self.class[i].as_str());
            out.append(" ");
            i = i + 1;
            proof {
                assert(names.take(i as int).drop_last() =~= names.take(i - 1));
                assert(names.take(i as int).last() == self.class[i - 1]@);
                assert(out@ =~= head + class_list(names.take(i as int)));
            }
        }
        proof {
            assert(names.take(i as int) =~= names);
        }
        out.append("\">");
        let escaped = escape_html(self.content);
        out.append(escaped.as_str());
        out.append("</span>");
        proof {
            assert(out@ =~= span_markup(self.class(), self.color(), self.content()));
        }
        out
    }
}

/// The lower-case form of an upper-case letter of the alphabet, and every
/// other character as it is.
pub open spec fn ascii_lower(c: char) -> char {
    if 'A' <= c <= 'Z' {
        ((c as u8) + 32) as char
    } else {
        c
    }
}

/// Whether `c` is the code of a color: `0` to `9` or `a` to `f`.
pub open spec fn is_color_code(c: char) -> bool {
    ('a' <= c <= 'f') || ('0' <= c <= '9')
}

/// Whether `c` is the code of a format: `k` to `o`.
pub open spec fn is_format_code(c: char) -> bool {
    'k' <= c <= 'o'
}

/// The class that the style code `c` stands for.
pub open spec fn style_class(c: char) -> Seq<char> {
    "motd-style-"@.push(c)
}

/// Where the reading of a message stands.
pub struct Styling {
    /// The markup written so far.
    pub output: Seq<char>,
    /// The formats in force.
    pub class: Seq<Seq<char>>,
    /// The color in force.
    pub color: Option<Seq<char>>,
    /// Where the text begins that is not written yet.
    pub start: int,
    /// Whether the last character introduced a style code.
    pub after_section: bool,
}

/// The formats in force after the style code `c`: one more for a format's
/// code, none after `r`, the same otherwise.
pub open spec fn restyled_class(c: char, class: Seq<Seq<char>>) -> Seq<Seq<char>> {
    if is_format_code(c) {
        class.push(style_class(c))
    } else if c == 'r' {
        Seq::empty()
    } else {
        class
    }
}

/// The color in force after the style code `c`: the code's for a color's
/// code, none after `r`, the same otherwise.
pub open spec fn restyled_color(c: char, color: Option<Seq<char>>) -> Option<Seq<char>> {
    if is_color_code(c) {
        Some(style_class(c))
    } else if c == 'r' {
        None
    } else {
        color
    }
}

/// Where the reading stands after the character at `at`.
///
/// The section sign writes the text before it as a span and announces a
/// code. A line feed writes the text before it as a span and then a line
/// break. The character after a section sign is a code, in either case of the
/// letter: it changes the style and is not text. Text begins anew behind a
/// code, and at a line feed.
pub open spec fn styling_step(text: Seq<char>, before: Styling, at: int) -> Styling {
    let c = ascii_lower(text[at]);
    let pending = span_markup(before.class, before.color, text.subrange(before.start, at));
    if c == '\u{a7}' {
        Styling { output: before.output + pending, after_section: true, ..before }
    } else if c == '\n' {
        Styling {
            output: before.output + pending + "<br />"@,
            start: if before.after_section {
                at + 1
            } else {
                at
            },
            after_section: false,
            ..before
        }
    } else if before.after_section {
        Styling {
            class: restyled_class(c, before.class),
            color: restyled_color(c, before.color),
            start: at + 1,
            after_section: false,
            ..before
        }
    } else {
        before
    }
}

/// Where the reading stands after the first `n` characters of `text`.
pub open spec fn styling_after(text: Seq<char>, n: nat) -> Styling
    decreases n,
{
    if n == 0 {
        Styling {
            output: Seq::empty(),
            class: Seq::empty(),
            color: None,
            start: 0,
            after_section: false,
        }
    } else {
        styling_step(text, styling_after(text, (n - 1) as nat), n - 1)
    }
}

/// The markup of a message with legacy style codes: what was written while
/// reading it, and the rest of the text as a last span.
pub open spec fn colorized(text: Seq<char>) -> Seq<char> {
    let end = styling_after(text, text.len());
    end.output + span_markup(end.class, end.color, text.subrange(end.start, text.len() as int))
}

fn lower(c: char) -> (l: char)
    ensures
        l == ascii_lower(c),
{
    if c >= 'A' && c <= 'Z' {
        ((c as u8) + 32) as char
    } else {
        c
    }
}

fn class_for(c: char) -> (name: String)
    ensures
        name@ == style_class(c),
{
    let mut name = "motd-style-".to_owned();
    push_char(&mut name, c);
    name
}

fn color_name(color: &Option<String>) -> (name: Option<&str>)
    ensures
        match name {
            Some(text) => color matches Some(kept) && text@ == kept@,
            None => color is None,
        },
{
    match color {
        Some(kept) => Some(kept.as_str()),
        None => None,
    }
}

fn write_span(
    output: &mut String,
    class: &Vec<String>,
    color: &Option<String>,
    text: &str,
    from: usize,
    to: usize,
)
    requires
        from <= to <= text@.len(),
    ensures
        final(output)@ == old(output)@ + span_markup(
            class.deep_view(),
            color.deep_view(),
            text@.subrange(from as int, to as int),
        ),
{
    let names = class.as_slice();
    proof {
        assert(names.deep_view() =~= class.deep_view());
    }
    let span = Span::new(names, color_name(color), text.substring_char(from, to));
    let markup = span.to_string();
    output.append(markup.as_str());
}

/// Turns a message with legacy style codes into markup.
pub fn mojang_colorize(s: &str) -> (markup: String)
    ensures
        markup@ == colorized(s@),
{
    let chars = chars_of(s);
    let mut output = String::new();
    let mut last_was_section = false;
    let mut class: Vec<String> = Vec::new();
    let mut color: Option<String> = None;
    let mut start: usize = 0;
    let mut idx: usize = 0;
    proof {
        assert(class.deep_view() =~= Seq::<Seq<char>>::empty());
    }
    while idx < chars.len()
        invariant
            chars@ == s@,
            start <= idx <= chars.len(),
            styling_after(s@, idx as nat) == (Styling {
                output: output@,
                class: class.deep_view(),
                color: color.deep_view(),
                start: start as int,
                after_section: last_was_section,
            }),
        decreases chars.len() - idx,
    {
        let ghost before = styling_after(s@, idx as nat);
        let c = lower(chars[idx]);
        if c == SECTION {
            write_span(&mut output, &class, &color, s, start, idx);
            last_was_section = true;
        } else if c == '\n' {
            write_span(&mut output, &class, &color, s, start, idx);
            output.append("<br />");
            start = if last_was_section {
                idx + 1
            } else {
                idx
            };
            last_was_section = false;
        } else if last_was_section {
            if (c >= 'a' && c <= 'f') || (c >= '0' && c <= '9') {
                color = Some(class_for(c));
            } else if c >= 'k' && c <= 'o' {
                let ghost old_class = class.deep_view();
                class.push(class_for(c));
                proof {
                    assert(class.deep_view() =~= old_class.push(style_class(c)));
                }
            } else if c == 'r' {
                color = None;
                class = Vec::new();
                proof {
                    assert(class.deep_view() =~= Seq::<Seq<char>>::empty());
                }
            }
            start = idx + 1;
            last_was_section = false;
        }
        idx = idx + 1;
        proof {
            assert(styling_after(s@, idx as nat) == styling_step(s@, before, idx - 1));
        }
    }
    write_span(&mut output, &class, &color, s, start, idx);
    output
}

/// A message without a section sign and without a line feed is one span of
/// the message, with no class.
pub proof fn lemma_plain_message(text: Seq<char>)
    requires
        forall|i: int| 0 <= i < text.len() ==> text[i] != '\u{a7}' && text[i] != '\n',
    ensures
        colorized(text) == span_markup(Seq::empty(), None, text),
{
    lemma_plain_prefix(text, text.len());
    assert(text.subrange(0, text.len() as int) =~= text);
    assert(Seq::<char>::empty() + span_markup(Seq::empty(), None, text) =~= span_markup(
        Seq::empty(),
        None,
        text,
    ));
}

proof fn lemma_plain_prefix(text: Seq<char>, n: nat)
    requires
        n <= text.len(),
        forall|i: int| 0 <= i < text.len() ==> text[i] != '\u{a7}' && text[i] != '\n',
    ensures
        styling_after(text, n) == styling_after(text, 0),
    decreases n,
{
    if n > 0 {
        lemma_plain_prefix(text, (n - 1) as nat);
        let c = text[n - 1];
        assert(ascii_lower(c) != '\u{a7}' && ascii_lower(c) != '\n');
    }
}

/// The color that shows the state of a service.
pub open spec fn color_of(state: Seq<char>) -> Seq<char> {
    if state == "Operational"@ {
        "green"@
    } else if state == "PossibleProblems"@ {
        "yellow"@
    } else if state == "DefiniteProblems"@ {
        "red"@
    } else {
        "blue"@
    }
}

/// The word that tells the state of a service.
pub open spec fn word_of(state: Seq<char>) -> Seq<char> {
    if state == "Operational"@ {
        "OK"@
    } else if state == "PossibleProblems"@ {
        "Flaky"@
    } else if state == "DefiniteProblems"@ {
        "Down"@
    } else {
        "Unknown"@
    }
}

/// The color that shows the state `s` of a service: green, yellow or red
/// for the three states by their exact names, blue for anything else.
pub fn api_color(s: &str) -> (color: &'static str)
    ensures
        color@ == color_of(s@),
{
    if same_text(s, "Operational") {
        "green"
    } else if same_text(s, "PossibleProblems") {
        "yellow"
    } else if same_text(s, "DefiniteProblems") {
        "red"
    } else {
        "blue"
    }
}

/// The word that tells the state `s` of a service.
pub fn api_words(s: &str) -> (word: &'static str)
    ensures
        word@ == word_of(s@),
{
    if same_text(s, "Operational") {
        "OK"
    } else if same_text(s, "PossibleProblems") {
        "Flaky"
    } else if same_text(s, "DefiniteProblems") {
        "Down"
    } else {
        "Unknown"
    }
}

} // verus!
