use crosspub::gemtext::{parse_gemtext, GemtextToken, TokenKind};

fn lines(v: &[&str]) -> Vec<String> {
    v.iter().map(|s| s.to_string()).collect()
}

#[test]
fn single_plain_line_is_one_text_token() {
    let toks = parse_gemtext(&lines(&["hello"]));
    assert_eq!(toks.len(), 1);
    assert_eq!(toks[0].kind, TokenKind::Text);
    assert_eq!(toks[0].data, "hello");
    assert_eq!(toks[0].extra, "");
}

#[test]
fn plain_line_with_two_spaces_is_kept_verbatim() {
    let toks = parse_gemtext(&lines(&["hello brave world"]));
    assert_eq!(toks.len(), 1);
    assert_eq!(toks[0].kind, TokenKind::Text);
    assert_eq!(toks[0].data, "hello brave world");
}

#[test]
fn plain_line_with_one_space_keeps_second_segment() {
    // The two-segment rule applies to text lines too: the first segment is
    // dropped even though it is not a marker.
    let toks = parse_gemtext(&lines(&["hello world"]));
    assert_eq!(toks.len(), 1);
    assert_eq!(toks[0].kind, TokenKind::Text);
    assert_eq!(toks[0].data, "world");
}

#[test]
fn empty_line_is_an_empty_text_token() {
    let toks = parse_gemtext(&lines(&[""]));
    assert_eq!(toks.len(), 1);
    assert_eq!(toks[0].kind, TokenKind::Text);
    assert_eq!(toks[0].data, "");
}

#[test]
fn bare_link_uses_target_and_empty_label() {
    let toks = parse_gemtext(&lines(&["=> www.example.com"]));
    assert_eq!(toks.len(), 1);
    assert_eq!(toks[0].kind, TokenKind::Link);
    assert_eq!(toks[0].data, "www.example.com");
    assert_eq!(toks[0].extra, "");
}

#[test]
fn labelled_link_keeps_label_with_spaces() {
    let toks = parse_gemtext(&lines(&["=> www.example.com Example Link"]));
    assert_eq!(toks.len(), 1);
    assert_eq!(toks[0].kind, TokenKind::Link);
    assert_eq!(toks[0].data, "www.example.com");
    assert_eq!(toks[0].extra, "Example Link");
}

#[test]
fn list_item_line() {
    let toks = parse_gemtext(&lines(&["* Item"]));
    assert_eq!(toks.len(), 1);
    assert_eq!(toks[0].kind, TokenKind::UnorderedList);
    assert_eq!(toks[0].data, "Item");
}

#[test]
fn blockquote_line() {
    let toks = parse_gemtext(&lines(&["> block quote"]));
    assert_eq!(toks.len(), 1);
    assert_eq!(toks[0].kind, TokenKind::Blockquote);
    assert_eq!(toks[0].data, "block quote");
}

#[test]
fn heading_levels_in_order_with_terminators() {
    let toks = parse_gemtext(&lines(&["# Heading\n", "## SubHeading\n", "### SubSubHeading"]));
    assert_eq!(toks.len(), 3);
    assert_eq!(toks[0].kind, TokenKind::Heading);
    assert_eq!(toks[0].data, "Heading\n");
    assert_eq!(toks[1].kind, TokenKind::SubHeading);
    assert_eq!(toks[1].data, "SubHeading\n");
    assert_eq!(toks[2].kind, TokenKind::SubSubHeading);
    assert_eq!(toks[2].data, "SubSubHeading");
}

#[test]
fn marker_with_two_payload_segments_rejoins_them() {
    let toks = parse_gemtext(&lines(&["# Two words"]));
    assert_eq!(toks.len(), 1);
    assert_eq!(toks[0].kind, TokenKind::Heading);
    assert_eq!(toks[0].data, "Two words");
}

#[test]
fn preformatted_block_gathers_interior_verbatim() {
    let toks = parse_gemtext(&lines(&["```", "line1\n", "line2\n", "```"]));
    assert_eq!(toks.len(), 1);
    assert_eq!(toks[0].kind, TokenKind::PreFormattedText);
    assert_eq!(toks[0].data, "line1\nline2\n");
    assert_eq!(toks[0].extra, "");
}

#[test]
fn preformatted_block_without_terminators_concatenates() {
    let toks = parse_gemtext(&lines(&["```", "line1", "line2", "```"]));
    assert_eq!(toks.len(), 1);
    assert_eq!(toks[0].kind, TokenKind::PreFormattedText);
    assert_eq!(toks[0].data, "line1line2");
}

#[test]
fn fence_with_alt_text_still_opens_block() {
    let toks = parse_gemtext(&lines(&["``` alt", "inside", "```"]));
    assert_eq!(toks.len(), 1);
    assert_eq!(toks[0].kind, TokenKind::PreFormattedText);
    assert_eq!(toks[0].data, "inside");
}

#[test]
fn fence_with_three_segments_is_an_ordinary_token() {
    // A fence line that splits into three segments does not open a block:
    // it is emitted directly, the marker segment dropped.
    let toks = parse_gemtext(&lines(&["```rust some alt"]));
    assert_eq!(toks.len(), 1);
    assert_eq!(toks[0].kind, TokenKind::PreFormattedText);
    assert_eq!(toks[0].data, "some alt");
}

#[test]
fn unterminated_block_is_dropped() {
    let toks = parse_gemtext(&lines(&["```", "line1", "line2"]));
    assert_eq!(toks.len(), 0);
}

#[test]
fn unterminated_block_keeps_earlier_tokens() {
    let toks = parse_gemtext(&lines(&["# Title", "```", "lost"]));
    assert_eq!(toks.len(), 1);
    assert_eq!(toks[0].kind, TokenKind::Heading);
    assert_eq!(toks[0].data, "Title");
}

#[test]
fn marker_lines_inside_block_are_absorbed() {
    let toks = parse_gemtext(&lines(&["```", "# not a heading", "```"]));
    assert_eq!(toks.len(), 1);
    assert_eq!(toks[0].kind, TokenKind::PreFormattedText);
    assert_eq!(toks[0].data, "# not a heading");
}

#[test]
fn closing_fence_with_trailing_text_still_closes() {
    let toks = parse_gemtext(&lines(&["```", "x", "``` done", "after"]));
    assert_eq!(toks.len(), 2);
    assert_eq!(toks[0].kind, TokenKind::PreFormattedText);
    assert_eq!(toks[0].data, "x");
    assert_eq!(toks[1].kind, TokenKind::Text);
    assert_eq!(toks[1].data, "after");
}

#[test]
fn two_blocks_emit_two_tokens() {
    let toks = parse_gemtext(&lines(&["```", "a", "```", "```", "b", "```"]));
    assert_eq!(toks.len(), 2);
    assert_eq!(toks[0].kind, TokenKind::PreFormattedText);
    assert_eq!(toks[0].data, "a");
    assert_eq!(toks[1].kind, TokenKind::PreFormattedText);
    assert_eq!(toks[1].data, "b");
}

#[test]
fn kinds_follow_line_order() {
    let toks = parse_gemtext(&lines(&[
        "# Title",
        "plain",
        "=> gemini://example.org home",
        "* one",
        "> quoted",
        "```",
        "code",
        "```",
        "### deep",
    ]));
    let kinds: Vec<TokenKind> = toks.iter().map(|t| t.kind).collect();
    assert_eq!(
        kinds,
        vec![
            TokenKind::Heading,
            TokenKind::Text,
            TokenKind::Link,
            TokenKind::UnorderedList,
            TokenKind::Blockquote,
            TokenKind::PreFormattedText,
            TokenKind::SubSubHeading,
        ]
    );
}

#[test]
fn tokenizing_never_fails_on_odd_lines() {
    // Every line maps to some token or is absorbed by a pending block.
    let toks = parse_gemtext(&lines(&["####", "**", "=>", " leading space", "=>x y z"]));
    assert_eq!(toks.len(), 5);
    assert_eq!(toks[0].kind, TokenKind::Text);
    assert_eq!(toks[0].data, "####");
    assert_eq!(toks[1].kind, TokenKind::Text);
    assert_eq!(toks[1].data, "**");
    // A lone "=>" is still the link marker; the whole line becomes the data.
    assert_eq!(toks[2].kind, TokenKind::Link);
    assert_eq!(toks[2].data, "=>");
    // " leading space" splits into an empty first segment and two more.
    assert_eq!(toks[3].kind, TokenKind::Text);
    assert_eq!(toks[3].data, " leading space");
    // "=>x" is not the link marker.
    assert_eq!(toks[4].kind, TokenKind::Text);
    assert_eq!(toks[4].data, "=>x y z");
}

#[test]
fn as_html_wraps_each_kind() {
    let t = |kind, data: &str, extra: &str| GemtextToken {
        kind,
        data: data.to_string(),
        extra: extra.to_string(),
    };
    assert_eq!(t(TokenKind::Heading, "H", "").as_html(), "<h1>H</h1>\n");
    assert_eq!(t(TokenKind::SubHeading, "H", "").as_html(), "<h2>H</h2>\n");
    assert_eq!(t(TokenKind::SubSubHeading, "H", "").as_html(), "<h3>H</h3>\n");
    assert_eq!(
        t(TokenKind::Link, "url", "").as_html(),
        "<p><a href=\"url\">url</a></p>\n"
    );
    assert_eq!(
        t(TokenKind::Link, "url", "label").as_html(),
        "<p><a href=\"url\">label</a></p>\n"
    );
    assert_eq!(
        t(TokenKind::Blockquote, "q", "").as_html(),
        "<blockquote>q</blockquote>\n"
    );
    assert_eq!(t(TokenKind::PreFormattedText, "c", "").as_html(), "<pre>c</pre>\n");
    assert_eq!(t(TokenKind::UnorderedList, "i", "").as_html(), "<li>i</li>\n");
    assert_eq!(t(TokenKind::Text, "p", "").as_html(), "<p>p</p>\n");
    assert_eq!(t(TokenKind::Text, "", "").as_html(), "");
}

#[test]
fn as_html_is_idempotent() {
    let tok = GemtextToken {
        kind: TokenKind::Link,
        data: "url".to_string(),
        extra: "label".to_string(),
    };
    assert_eq!(tok.as_html(), tok.as_html());
}
