//! The gemtext tokenizer: a line-oriented state machine that classifies each
//! input line into a typed token.
//!
//! A document is a sequence of lines. Outside a preformatted block, a line is
//! split on its first two space characters into at most three segments; the
//! first segment selects the token kind (`=>` for links, `*` for list items,
//! `>` for blockquotes, `#`/`##`/`###` for headings, a leading ``` ``` ``` for
//! preformatted fences, anything else for plain text). A fence line opens a
//! preformatted block; every following line is absorbed verbatim until a
//! closing fence emits a single `PreFormattedText` token holding the
//! accumulated content. A document that ends inside an open block drops the
//! accumulated content without emitting a token.

use vstd::prelude::*;

verus! {

/// The classification of a single gemtext line (or, for
/// `PreFormattedText`, of a whole fenced block).
#[derive(Copy, Clone, Debug, PartialEq, Eq, Structural)]
pub enum TokenKind {
    Text,
    Link,
    UnorderedList,
    Blockquote,
    Heading,
    SubHeading,
    SubSubHeading,
    PreFormattedText,
}

/// One parsed unit of a gemtext document.
///
/// `data` is the primary payload (link target, heading text, list item text,
/// preformatted block body). `extra` is non-empty only for `Link` tokens
/// whose source line supplied a human-readable label.
#[derive(Clone, Debug)]
pub struct GemtextToken {
    pub kind: TokenKind,
    pub data: String,
    pub extra: String,
}

/// The mathematical image of a [`GemtextToken`]: the kind together with the
/// two payloads as character sequences.
#[verifier::ext_equal]
pub struct TokenModel {
    pub kind: TokenKind,
    pub data: Seq<char>,
    pub extra: Seq<char>,
}

impl View for GemtextToken {
    type V = TokenModel;

    open spec fn view(&self) -> TokenModel {
        TokenModel { kind: self.kind, data: self.data@, extra: self.extra@ }
    }
}

/// The view of a token sequence, token by token.
pub open spec fn tokens_view(tokens: Seq<GemtextToken>) -> Seq<TokenModel> {
    tokens.map_values(|t: GemtextToken| t@)
}

/// The view of a line sequence, line by line.
pub open spec fn lines_view(lines: Seq<String>) -> Seq<Seq<char>> {
    lines.map_values(|l: String| l@)
}

/// The least index `i >= from` with `s[i] == ' '`, or `s.len()` when no
/// space occurs at or after `from`.
pub open spec fn first_space_at(s: Seq<char>, from: int) -> int
    decreases s.len() - from,
{
    if from < 0 || from >= s.len() {
        s.len() as int
    } else if s[from] == ' ' {
        from
    } else {
        first_space_at(s, from + 1)
    }
}

/// The first whitespace-delimited segment of a line: everything before the
/// first space, or the whole line when it has no space.
pub open spec fn seg0(line: Seq<char>) -> Seq<char> {
    line.take(first_space_at(line, 0))
}

/// Whether a segment opens or closes a preformatted block: it starts with
/// three backticks.
pub open spec fn is_fence(s: Seq<char>) -> bool {
    s.len() >= 3 && s[0] == '`' && s[1] == '`' && s[2] == '`'
}

/// The kind selected by a line's first segment. The exact-match marker table
/// is consulted first; the fence prefix check runs second and overrides it.
pub open spec fn marker_kind(s: Seq<char>) -> TokenKind {
    if is_fence(s) {
        TokenKind::PreFormattedText
    } else if s.len() == 2 && s[0] == '=' && s[1] == '>' {
        TokenKind::Link
    } else if s.len() == 1 && s[0] == '*' {
        TokenKind::UnorderedList
    } else if s.len() == 1 && s[0] == '>' {
        TokenKind::Blockquote
    } else if s.len() == 3 && s[0] == '#' && s[1] == '#' && s[2] == '#' {
        TokenKind::SubSubHeading
    } else if s.len() == 2 && s[0] == '#' && s[1] == '#' {
        TokenKind::SubHeading
    } else if s.len() == 1 && s[0] == '#' {
        TokenKind::Heading
    } else {
        TokenKind::Text
    }
}

/// The HTML fragment a single token renders to: the payload wrapped in the
/// markup its kind calls for, with a trailing newline. A link with an empty
/// label repeats its target as the anchor text, and a text token with an
/// empty payload renders to nothing. Payloads are interpolated verbatim;
/// source documents are trusted, so no HTML escaping is performed.
pub open spec fn html_of(t: TokenModel) -> Seq<char> {
    match t.kind {
        TokenKind::Heading => "<h1>"@ + t.data + "</h1>\n"@,
        TokenKind::SubHeading => "<h2>"@ + t.data + "</h2>\n"@,
        TokenKind::SubSubHeading => "<h3>"@ + t.data + "</h3>\n"@,
        TokenKind::Link => if t.extra.len() == 0 {
            "<p><a href=\""@ + t.data + "\">"@ + t.data + "</a></p>\n"@
        } else {
            "<p><a href=\""@ + t.data + "\">"@ + t.extra + "</a></p>\n"@
        },
        TokenKind::Blockquote => "<blockquote>"@ + t.data + "</blockquote>\n"@,
        TokenKind::PreFormattedText => "<pre>"@ + t.data + "</pre>\n"@,
        TokenKind::UnorderedList => "<li>"@ + t.data + "</li>\n"@,
        TokenKind::Text => if t.data.len() == 0 {
            Seq::empty()
        } else {
            "<p>"@ + t.data + "</p>\n"@
        },
    }
}

/// The concatenation of [`html_of`] over the tokens from index `i` on.
pub open spec fn html_of_all_from(toks: Seq<TokenModel>, i: int) -> Seq<char>
    decreases toks.len() - i,
{
    if i < 0 || i >= toks.len() {
        Seq::empty()
    } else {
        html_of(toks[i]) + html_of_all_from(toks, i + 1)
    }
}

/// The HTML fragment of a whole token sequence: each token's rendering, in
/// input order.
pub open spec fn html_of_all(toks: Seq<TokenModel>) -> Seq<char> {
    html_of_all_from(toks, 0)
}

/// Builds `pre + mid + post` as one string.
fn wrap(pre: &str, mid: &str, post: &str) -> (r: String)
    ensures
        r@ == pre@ + mid@ + post@,
{
    let mut s: String = pre.to_owned();
    s.append(mid);
    s.append(post);
    s
}

/// Builds `p1 + m1 + p2 + m2 + p3` as one string.
fn wrap2(p1: &str, m1: &str, p2: &str, m2: &str, p3: &str) -> (r: String)
    ensures
        r@ == p1@ + m1@ + p2@ + m2@ + p3@,
{
    let mut s: String = p1.to_owned();
    s.append(m1);
    s.append(p2);
    s.append(m2);
    s.append(p3);
    s
}

impl GemtextToken {
    /// Renders this token alone as an HTML fragment, exactly [`html_of`] of
    /// its model. List items come out as bare `<li>` elements here; the
    /// run-aware renderer that wraps them in `<ul>` is
    /// [`crate::html::generate_html_from_tokens`].
    pub fn as_html(&self) -> (r: String)
        ensures
            r@ == html_of(self@),
    {
        let r = match self.kind {
            TokenKind::Heading => wrap("<h1>", self.data.as_str(), "</h1>\n"),
            TokenKind::SubHeading => wrap("<h2>", self.data.as_str(), "</h2>\n"),
            TokenKind::SubSubHeading => wrap("<h3>", self.data.as_str(), "</h3>\n"),
            TokenKind::Link => if self.extra.as_str().is_empty() {
                wrap2("<p><a href=\"", self.data.as_str(), "\">", self.data.as_str(), "</a></p>\n")
            } else {
                wrap2("<p><a href=\"", self.data.as_str(), "\">", self.extra.as_str(), "</a></p>\n")
            },
            TokenKind::Blockquote => wrap("<blockquote>", self.data.as_str(), "</blockquote>\n"),
            TokenKind::PreFormattedText => wrap("<pre>", self.data.as_str(), "</pre>\n"),
            TokenKind::UnorderedList => wrap("<li>", self.data.as_str(), "</li>\n"),
            TokenKind::Text => if self.data.as_str().is_empty() {
                String::new()
            } else {
                wrap("<p>", self.data.as_str(), "</p>\n")
            },
        };
        proof {
            assert(r@ =~= html_of(self@));
        }
        r
    }
}

/// Renders a token sequence token by token with [`GemtextToken::as_html`]
/// and concatenates the fragments in input order.
pub fn html_from_tokens(tokens: &Vec<GemtextToken>) -> (r: String)
    ensures
        r@ == html_of_all(tokens_view(tokens@)),
{
    let ghost tv: Seq<TokenModel> = tokens_view(tokens@);
    let mut buf: String = String::new();
    let n: usize = tokens.len();
    let mut i: usize = 0;
    while i < n
        invariant
            n == tokens@.len(),
            tv == tokens_view(tokens@),
            i <= n,
            buf@ + html_of_all_from(tv, i as int) == html_of_all(tv),
        decreases n - i,
    {
        proof {
            assert(tv[i as int] == tokens@[i as int]@);
        }
        let piece = tokens[i].as_html();
        buf.append(piece.as_str());
        proof {
            assert(html_of_all_from(tv, i as int) == html_of(tv[i as int]) + html_of_all_from(
                tv,
                i as int + 1,
            ));
            assert(buf@ + html_of_all_from(tv, i as int + 1) =~= html_of_all(tv));
        }
        i = i + 1;
    }
    buf
}

/// The lines from index `i` on, joined with a newline between consecutive
/// lines and none at the end.
pub open spec fn joined_from(lines: Seq<Seq<char>>, i: int) -> Seq<char>
    decreases lines.len() - i,
{
    if i < 0 || i >= lines.len() {
        Seq::empty()
    } else if i == lines.len() - 1 {
        lines[i]
    } else {
        lines[i] + "\n"@ + joined_from(lines, i + 1)
    }
}

/// A document's lines joined with single newlines: the normalized gemtext
/// body kept alongside the HTML rendering.
pub open spec fn joined(lines: Seq<Seq<char>>) -> Seq<char> {
    joined_from(lines, 0)
}

/// Joins lines with a newline between consecutive lines and none at the
/// end.
pub fn join_lines(lines: &[String]) -> (r: String)
    ensures
        r@ == joined(lines_view(lines@)),
{
    let ghost gl: Seq<Seq<char>> = lines_view(lines@);
    let mut buf: String = String::new();
    let n: usize = lines.len();
    let mut i: usize = 0;
    while i < n
        invariant
            n == lines@.len(),
            gl == lines_view(lines@),
            i <= n,
            buf@ + joined_from(gl, i as int) == joined(gl),
        decreases n - i,
    {
        proof {
            assert(gl[i as int] == lines@[i as int]@);
        }
        buf.append(lines[i].as_str());
        if i + 1 < n {
            buf.append("\n");
        }
        proof {
            assert(buf@ + joined_from(gl, i as int + 1) =~= joined(gl));
        }
        i = i + 1;
    }
    buf
}

/// The tokenizer's state between lines: either outside any preformatted
/// block, or inside one, carrying the content accumulated so far. Keeping
/// the accumulator only in the `InBlock` variant makes "the accumulator is
/// meaningless outside a block" structural.
pub enum PState {
    Normal,
    InBlock(Seq<char>),
}

/// Whether a line, met in the `Normal` state, opens a preformatted block:
/// its first segment selects `PreFormattedText` and the line has fewer than
/// three segments. (A fence line with three segments is emitted as an
/// ordinary token instead.)
pub open spec fn enters_block(line: Seq<char>) -> bool {
    &&& marker_kind(seg0(line)) == TokenKind::PreFormattedText
    &&& first_space_at(line, first_space_at(line, 0) + 1) >= line.len()
}

/// The token a line yields in the `Normal` state, when it yields one.
///
/// With three segments, a link takes its target from the second and its
/// label from the third; a text line keeps the whole line (the would-be
/// marker is ordinary prose); any other kind drops the marker and keeps
/// everything after the first space. With two segments the payload is the
/// second; with one, the whole line.
pub open spec fn normal_token(line: Seq<char>) -> TokenModel {
    let i1 = first_space_at(line, 0);
    let i2 = first_space_at(line, i1 + 1);
    let kind = marker_kind(seg0(line));
    if i2 < line.len() {
        if kind == TokenKind::Link {
            TokenModel {
                kind,
                data: line.subrange(i1 + 1, i2),
                extra: line.subrange(i2 + 1, line.len() as int),
            }
        } else if kind == TokenKind::Text {
            TokenModel { kind, data: line, extra: Seq::empty() }
        } else {
            TokenModel { kind, data: line.subrange(i1 + 1, line.len() as int), extra: Seq::empty() }
        }
    } else if i1 < line.len() {
        TokenModel { kind, data: line.subrange(i1 + 1, line.len() as int), extra: Seq::empty() }
    } else {
        TokenModel { kind, data: line, extra: Seq::empty() }
    }
}

/// One transition of the tokenizer: the tokens the line emits (none or one)
/// and the state left behind.
pub open spec fn line_step(line: Seq<char>, st: PState) -> (Seq<TokenModel>, PState) {
    match st {
        PState::Normal => {
            if enters_block(line) {
                (Seq::empty(), PState::InBlock(Seq::empty()))
            } else {
                (seq![normal_token(line)], PState::Normal)
            }
        },
        PState::InBlock(acc) => {
            if is_fence(seg0(line)) {
                (
                    seq![TokenModel { kind: TokenKind::PreFormattedText, data: acc, extra: Seq::empty() }],
                    PState::Normal,
                )
            } else {
                (Seq::empty(), PState::InBlock(acc + line))
            }
        },
    }
}

/// The tokens emitted from line `i` onward, starting in state `st`.
pub open spec fn tokenize_from(lines: Seq<Seq<char>>, i: int, st: PState) -> Seq<TokenModel>
    decreases lines.len() - i,
{
    if i < 0 || i >= lines.len() {
        Seq::empty()
    } else {
        line_step(lines[i], st).0 + tokenize_from(lines, i + 1, line_step(lines[i], st).1)
    }
}

/// The full tokenization of a document: every line processed in order,
/// starting outside any block. This is what [`parse_gemtext`] computes.
pub open spec fn tokenize_lines(lines: Seq<Seq<char>>) -> Seq<TokenModel> {
    tokenize_from(lines, 0, PState::Normal)
}

/// The concatenation of the lines with indices in `[i, c)`, verbatim, in
/// order, with nothing between them.
pub open spec fn block_content(lines: Seq<Seq<char>>, i: int, c: int) -> Seq<char>
    decreases c - i,
{
    if i >= c {
        Seq::empty()
    } else {
        lines[i] + block_content(lines, i + 1, c)
    }
}

/// A single marker-free line tokenizes to one text token holding the line
/// verbatim, provided the line has either no space or at least two spaces.
/// (A marker-free line with exactly one space falls under the two-segment
/// rule and keeps only the part after its space, so it is excluded here.)
pub proof fn lemma_single_text_line(line: Seq<char>)
    requires
        marker_kind(seg0(line)) == TokenKind::Text,
        first_space_at(line, 0) == line.len() || first_space_at(line, first_space_at(line, 0) + 1)
            < line.len(),
    ensures
        tokenize_lines(seq![line]) =~= seq![
            (TokenModel { kind: TokenKind::Text, data: line, extra: Seq::empty() }),
        ],
{
    let doc = seq![line];
    assert(doc[0] == line);
    assert(tokenize_from(doc, 1, line_step(line, PState::Normal).1) =~= Seq::<TokenModel>::empty());
}

/// A single marker-free line always tokenizes to exactly one text token,
/// whatever its spacing: the tokenizer never fails and never drops a line
/// outside a preformatted block.
pub proof fn lemma_single_text_line_count(line: Seq<char>)
    requires
        marker_kind(seg0(line)) == TokenKind::Text,
    ensures
        tokenize_lines(seq![line]).len() == 1,
        tokenize_lines(seq![line])[0].kind == TokenKind::Text,
{
    let doc = seq![line];
    assert(doc[0] == line);
    assert(tokenize_from(doc, 1, line_step(line, PState::Normal).1) =~= Seq::<TokenModel>::empty());
}

/// Once inside a preformatted block, a document whose remaining lines hold
/// no closing fence emits no further token: the accumulated block content
/// is dropped, not emitted partially.
pub proof fn lemma_unterminated_block_dropped(lines: Seq<Seq<char>>, i: int, acc: Seq<char>)
    requires
        0 <= i <= lines.len(),
        forall|j: int| i <= j < lines.len() ==> !is_fence(seg0(#[trigger] lines[j])),
    ensures
        tokenize_from(lines, i, PState::InBlock(acc)) =~= Seq::<TokenModel>::empty(),
    decreases lines.len() - i,
{
    if i < lines.len() {
        lemma_unterminated_block_dropped(lines, i + 1, acc + lines[i]);
    }
}

/// A line that opens a preformatted block which no later line closes
/// contributes nothing at all: tokenization of the rest of the document is
/// empty from that line on.
pub proof fn lemma_unterminated_block_document(lines: Seq<Seq<char>>, i: int)
    requires
        0 <= i < lines.len(),
        enters_block(lines[i]),
        forall|j: int| i < j < lines.len() ==> !is_fence(seg0(#[trigger] lines[j])),
    ensures
        tokenize_from(lines, i, PState::Normal) =~= Seq::<TokenModel>::empty(),
{
    lemma_unterminated_block_dropped(lines, i + 1, Seq::empty());
}

/// Inside a block opened earlier, the interior lines up to the first
/// closing fence are absorbed verbatim and in order: the closing fence at
/// index `c` emits one preformatted token holding the accumulator followed
/// by the concatenation of the interior lines, and the machine returns to
/// the normal state for the rest of the document.
pub proof fn lemma_block_gathers(lines: Seq<Seq<char>>, i: int, c: int, acc: Seq<char>)
    requires
        0 <= i <= c < lines.len(),
        forall|j: int| i <= j < c ==> !is_fence(seg0(#[trigger] lines[j])),
        is_fence(seg0(lines[c])),
    ensures
        tokenize_from(lines, i, PState::InBlock(acc)) =~= seq![
            (TokenModel {
                kind: TokenKind::PreFormattedText,
                data: acc + block_content(lines, i, c),
                extra: Seq::empty(),
            }),
        ] + tokenize_from(lines, c + 1, PState::Normal),
    decreases c - i,
{
    if i == c {
        assert(acc + block_content(lines, i, c) =~= acc);
    } else {
        lemma_block_gathers(lines, i + 1, c, acc + lines[i]);
        assert((acc + lines[i]) + block_content(lines, i + 1, c) =~= acc + block_content(
            lines,
            i,
            c,
        ));
    }
}

/// The indices of the lines at which the tokenizer, run from line `i` in
/// state `st`, emits its successive tokens.
pub open spec fn emit_indices(lines: Seq<Seq<char>>, i: int, st: PState) -> Seq<int>
    decreases lines.len() - i,
{
    if i < 0 || i >= lines.len() {
        Seq::empty()
    } else {
        (if line_step(lines[i], st).0.len() > 0 {
            seq![i]
        } else {
            Seq::empty()
        }) + emit_indices(lines, i + 1, line_step(lines[i], st).1)
    }
}

/// Order preservation: every emitted token is charged to the input line
/// that emitted it, those line indices increase strictly, there are no
/// more tokens than lines, and each token's kind is the classification of
/// its emitting line's first segment.
pub proof fn lemma_order_preserving(lines: Seq<Seq<char>>, i: int, st: PState)
    requires
        0 <= i <= lines.len(),
    ensures
        ({
            let toks = tokenize_from(lines, i, st);
            let idx = emit_indices(lines, i, st);
            &&& idx.len() == toks.len()
            &&& toks.len() <= lines.len() - i
            &&& forall|k: int| 0 <= k < idx.len() ==> i <= #[trigger] idx[k] < lines.len()
            &&& forall|k: int| 0 <= k < idx.len() - 1 ==> #[trigger] idx[k] < idx[k + 1]
            &&& forall|k: int|
                0 <= k < idx.len() ==> (#[trigger] toks[k]).kind == marker_kind(
                    seg0(lines[idx[k]]),
                )
        }),
    decreases lines.len() - i,
{
    if i < lines.len() {
        let step = line_step(lines[i], st);
        lemma_order_preserving(lines, i + 1, step.1);
        let toks = tokenize_from(lines, i, st);
        let idx = emit_indices(lines, i, st);
        let toks2 = tokenize_from(lines, i + 1, step.1);
        let idx2 = emit_indices(lines, i + 1, step.1);
        if step.0.len() > 0 {
            assert(step.0.len() == 1);
            assert(step.0[0].kind == marker_kind(seg0(lines[i])));
            assert(toks =~= seq![step.0[0]] + toks2);
            assert(idx =~= seq![i] + idx2);
            assert forall|k: int| 0 <= k < idx.len() implies (#[trigger] toks[k]).kind
                == marker_kind(seg0(lines[idx[k]])) by {
                if k > 0 {
                    assert(toks[k] == toks2[k - 1]);
                    assert(idx[k] == idx2[k - 1]);
                }
            }
        } else {
            assert(toks =~= toks2);
            assert(idx =~= idx2);
        }
    }
}

/// Order preservation for a whole document: the tokens of
/// [`tokenize_lines`] are charged to strictly increasing line indices, and
/// each token's kind is the classification of its emitting line.
pub proof fn lemma_tokens_ordered(lines: Seq<Seq<char>>)
    ensures
        ({
            let toks = tokenize_lines(lines);
            let idx = emit_indices(lines, 0, PState::Normal);
            &&& idx.len() == toks.len()
            &&& toks.len() <= lines.len()
            &&& forall|k: int| 0 <= k < idx.len() ==> 0 <= #[trigger] idx[k] < lines.len()
            &&& forall|k: int| 0 <= k < idx.len() - 1 ==> #[trigger] idx[k] < idx[k + 1]
            &&& forall|k: int|
                0 <= k < idx.len() ==> (#[trigger] toks[k]).kind == marker_kind(
                    seg0(lines[idx[k]]),
                )
        }),
{
    lemma_order_preserving(lines, 0, PState::Normal);
}

/// `first_space_at` names the first space at or after `from`: it stays in
/// bounds, lands on a space when one exists, and skips nothing.
pub proof fn lemma_first_space_at(s: Seq<char>, from: int)
    requires
        0 <= from <= s.len(),
    ensures
        from <= first_space_at(s, from) <= s.len(),
        first_space_at(s, from) < s.len() ==> s[first_space_at(s, from)] == ' ',
        forall|j: int| from <= j < first_space_at(s, from) ==> s[j] != ' ',
    decreases s.len() - from,
{
    if from < s.len() && s[from] != ' ' {
        lemma_first_space_at(s, from + 1);
    }
}

/// Scans for the first space at or after `from`, returning the line length
/// when there is none.
fn find_space(s: &str, len: usize, from: usize) -> (i: usize)
    requires
        len == s@.len(),
        from <= len,
    ensures
        i == first_space_at(s@, from as int),
{
    let mut i: usize = from;
    while i < len
        invariant
            from <= i <= len,
            len == s@.len(),
            first_space_at(s@, from as int) == first_space_at(s@, i as int),
        decreases len - i,
    {
        if s.get_char(i) == ' ' {
            return i;
        }
        i = i + 1;
    }
    i
}

/// Tests whether a line's first segment starts with three backticks. Since a
/// backtick is not a space, this is the same as the line itself starting
/// with three backticks.
fn line_is_fence(s: &str, len: usize) -> (b: bool)
    requires
        len == s@.len(),
    ensures
        b == is_fence(seg0(s@)),
{
    proof {
        lemma_first_space_at(s@, 0);
    }
    if len >= 3 && s.get_char(0) == '`' && s.get_char(1) == '`' && s.get_char(2) == '`' {
        proof {
            let si = first_space_at(s@, 0);
            assert(si >= 3) by {
                if si < 3 {
                    assert(s@[si] == ' ');
                }
            }
            assert(is_fence(seg0(s@)));
        }
        true
    } else {
        proof {
            let si = first_space_at(s@, 0);
            assert(seg0(s@).len() == si);
            if si >= 3 {
                assert(seg0(s@)[0] == s@[0]);
                assert(seg0(s@)[1] == s@[1]);
                assert(seg0(s@)[2] == s@[2]);
            }
        }
        false
    }
}

/// Classifies a line by its first segment, given the index `si1` of the
/// line's first space.
fn classify_line(s: &str, len: usize, si1: usize) -> (k: TokenKind)
    requires
        len == s@.len(),
        si1 == first_space_at(s@, 0),
    ensures
        k == marker_kind(seg0(s@)),
{
    proof {
        lemma_first_space_at(s@, 0);
        assert(seg0(s@).len() == si1);
        assert(forall|j: int| 0 <= j < si1 ==> seg0(s@)[j] == s@[j]);
    }
    if si1 >= 3 && s.get_char(0) == '`' && s.get_char(1) == '`' && s.get_char(2) == '`' {
        TokenKind::PreFormattedText
    } else if si1 == 2 && s.get_char(0) == '=' && s.get_char(1) == '>' {
        TokenKind::Link
    } else if si1 == 1 && s.get_char(0) == '*' {
        TokenKind::UnorderedList
    } else if si1 == 1 && s.get_char(0) == '>' {
        TokenKind::Blockquote
    } else if si1 == 3 && s.get_char(0) == '#' && s.get_char(1) == '#' && s.get_char(2) == '#' {
        TokenKind::SubSubHeading
    } else if si1 == 2 && s.get_char(0) == '#' && s.get_char(1) == '#' {
        TokenKind::SubHeading
    } else if si1 == 1 && s.get_char(0) == '#' {
        TokenKind::Heading
    } else {
        TokenKind::Text
    }
}

/// Handles one line met in the `Normal` state: `None` opens a preformatted
/// block, `Some` carries the emitted token.
fn normal_line_token(line: &String) -> (r: Option<GemtextToken>)
    ensures
        (r is None) == enters_block(line@),
        r matches Some(t) ==> t@ == normal_token(line@),
{
    let s: &str = line.as_str();
    let len: usize = s.unicode_len();
    let si1: usize = find_space(s, len, 0);
    proof {
        lemma_first_space_at(s@, 0);
    }
    let kind = classify_line(s, len, si1);
    if si1 < len {
        let si2: usize = find_space(s, len, si1 + 1);
        proof {
            lemma_first_space_at(s@, si1 as int + 1);
        }
        if si2 < len {
            let tok = if kind == TokenKind::Link {
                GemtextToken {
                    kind,
                    data: s.substring_char(si1 + 1, si2).to_owned(),
                    extra: s.substring_char(si2 + 1, len).to_owned(),
                }
            } else if kind == TokenKind::Text {
                GemtextToken { kind, data: line.clone(), extra: String::new() }
            } else {
                GemtextToken {
                    kind,
                    data: s.substring_char(si1 + 1, len).to_owned(),
                    extra: String::new(),
                }
            };
            proof {
                assert(tok@ =~= normal_token(line@));
            }
            Some(tok)
        } else if kind == TokenKind::PreFormattedText {
            None
        } else {
            let tok = GemtextToken {
                kind,
                data: s.substring_char(si1 + 1, len).to_owned(),
                extra: String::new(),
            };
            proof {
                assert(tok@ =~= normal_token(line@));
            }
            Some(tok)
        }
    } else if kind == TokenKind::PreFormattedText {
        None
    } else {
        let tok = GemtextToken { kind, data: line.clone(), extra: String::new() };
        proof {
            assert(tok@ =~= normal_token(line@));
        }
        Some(tok)
    }
}

/// Tokenizes a gemtext document, one token per classified line, with fenced
/// blocks gathered into single `PreFormattedText` tokens. The result is
/// exactly [`tokenize_lines`] of the input: every line is accounted for, in
/// order, and an unterminated block at the end of input emits nothing.
pub fn parse_gemtext(lines: &[String]) -> (tokens: Vec<GemtextToken>)
    ensures
        tokens_view(tokens@) == tokenize_lines(lines_view(lines@)),
{
    let ghost gl: Seq<Seq<char>> = lines_view(lines@);
    let mut tokens: Vec<GemtextToken> = Vec::new();
    let mut in_block: bool = false;
    let mut block: String = String::new();
    let n: usize = lines.len();
    let mut i: usize = 0;
    while i < n
        invariant
            n == lines@.len(),
            gl == lines_view(lines@),
            i <= n,
            !in_block ==> block@ == Seq::<char>::empty(),
            tokens_view(tokens@) + tokenize_from(
                gl,
                i as int,
                if in_block { PState::InBlock(block@) } else { PState::Normal },
            ) == tokenize_lines(gl),
        decreases n - i,
    {
        let ghost st: PState = if in_block { PState::InBlock(block@) } else { PState::Normal };
        let ghost pre_tokens: Seq<GemtextToken> = tokens@;
        proof {
            assert(gl[i as int] == lines@[i as int]@);
        }
        let line: &String = &lines[i];
        if in_block {
            let s: &str = line.as_str();
            let len: usize = s.unicode_len();
            if line_is_fence(s, len) {
                let body = block;
                block = String::new();
                in_block = false;
                let tok = GemtextToken {
                    kind: TokenKind::PreFormattedText,
                    data: body,
                    extra: String::new(),
                };
                proof {
                    assert(tok@ =~= line_step(gl[i as int], st).0[0]);
                }
                tokens.push(tok);
            } else {
                block.append(s);
                proof {
                    assert(PState::InBlock(block@) == line_step(gl[i as int], st).1);
                }
            }
        } else {
            match normal_line_token(line) {
                Some(tok) => {
                    proof {
                        assert(tok@ == line_step(gl[i as int], st).0[0]);
                    }
                    tokens.push(tok);
                },
                None => {
                    in_block = true;
                },
            }
        }
        proof {
            let st2: PState = if in_block { PState::InBlock(block@) } else { PState::Normal };
            assert(tokenize_from(gl, i as int, st) == line_step(gl[i as int], st).0 + tokenize_from(
                gl,
                i as int + 1,
                st2,
            ));
            assert(tokens_view(tokens@) =~= tokens_view(pre_tokens) + line_step(gl[i as int], st).0);
            assert(tokens_view(tokens@) + tokenize_from(gl, i as int + 1, st2) =~= tokens_view(
                pre_tokens,
            ) + tokenize_from(gl, i as int, st));
        }
        i = i + 1;
    }
    tokens
}

} // verus!
