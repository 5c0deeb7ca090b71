use mcping::filters::{api_color, api_words, mojang_colorize, Span};

#[test]
fn test_api_words() {
    assert_eq!(api_words("Operational"), "OK");
    assert_eq!(api_words("PossibleProblems"), "Flaky");
    assert_eq!(api_words("DefiniteProblems"), "Down");
    assert_eq!(api_words("operational"), "Unknown");
}

#[test]
fn test_api_colors() {
    assert_eq!(api_color("Operational"), "green");
    assert_eq!(api_color("PossibleProblems"), "yellow");
    assert_eq!(api_color("DefiniteProblems"), "red");
    assert_eq!(api_color("operational"), "blue");
}

#[test]
fn test_span_no_color() {
    let class = ["test".to_string()];
    let span = Span::new(&class, None, "test content");
    assert_eq!(
        span.to_string(),
        "<span class=\"test \">test content</span>"
    );
}

#[test]
fn test_span_color_5() {
    let class = ["test".to_string(), "test2".to_string()];
    let span = Span::new(&class, Some("motd-style-5"), "test content");
    assert_eq!(
        span.to_string(),
        "<span class=\"motd-style-5 test test2 \">test content</span>"
    );
}

#[test]
fn test_span_empty_class() {
    let class = [];
    let span = Span::new(&class, Some("motd-style-5"), "test content");
    assert_eq!(
        span.to_string(),
        "<span class=\"motd-style-5 \">test content</span>"
    );
}

#[test]
fn test_span_empty_both() {
    let class = [];
    let span = Span::new(&class, None, "test content");
    assert_eq!(span.to_string(), "<span class=\"\">test content</span>");
}

#[test]
fn test_span_escaping() {
    let class = [];
    let span = Span::new(&class, None, "<script>alert(\"bad\");</script>");
    assert_eq!(
        span.to_string(),
        "<span class=\"\">&lt;script&gt;alert(&quot;bad&quot;);&lt;/script&gt;</span>"
    );
}

#[test]
fn test_colorize_none() {
    let input = "No color codes";
    assert_eq!(
        mojang_colorize(input),
        "<span class=\"\">No color codes</span>"
    );
}

#[test]
fn test_colorize_one_color() {
    let input = "§acolor a";
    assert_eq!(
        mojang_colorize(input),
        "<span class=\"motd-style-a \">color a</span>"
    );
}

#[test]
fn test_colorize_color_immediate_change() {
    let input = "§a§bcolor b";
    assert_eq!(
        mojang_colorize(input),
        "<span class=\"motd-style-b \">color b</span>"
    );
}

#[test]
fn test_colorize_color_reset() {
    let input = "§acolor a§rblank§bcolor b";
    assert_eq!(
        mojang_colorize(input),
        r#"<span class="motd-style-a ">color a</span><span class="">blank</span><span class="motd-style-b ">color b</span>"#
    );
}

#[test]
fn test_colorize_additive() {
    let input = "§a§nunderlined";
    assert_eq!(
        mojang_colorize(input),
        r#"<span class="motd-style-a motd-style-n ">underlined</span>"#
    );
}

#[test]
fn span_without_content_is_empty() {
    let class = ["test".to_string()];
    let span = Span::new(&class, Some("motd-style-5"), "");
    assert_eq!(span.to_string(), "");
}

#[test]
fn span_escapes_ampersand_and_apostrophe() {
    let class = [];
    let span = Span::new(&class, None, "a & 'b' é");
    assert_eq!(
        span.to_string(),
        "<span class=\"\">a &amp; &#x27;b&#x27; é</span>"
    );
}

#[test]
fn colorize_upper_case_code_gives_lower_case_class() {
    assert_eq!(
        mojang_colorize("§Ared"),
        "<span class=\"motd-style-a \">red</span>"
    );
}

#[test]
fn colorize_line_feed_breaks_line() {
    assert_eq!(
        mojang_colorize("one\ntwo"),
        "<span class=\"\">one</span><br /><span class=\"\">\ntwo</span>"
    );
}

#[test]
fn colorize_unknown_code_is_dropped() {
    assert_eq!(
        mojang_colorize("a§zb"),
        "<span class=\"\">a</span><span class=\"\">b</span>"
    );
}

#[test]
fn colorize_empty_message_is_empty() {
    assert_eq!(mojang_colorize(""), "");
}
