//! HTML assembly over token sequences: a renderer that wraps runs of list
//! items in `<ul>` elements, and the `<head>` fragment for a generated post
//! page.

use vstd::prelude::*;
use crate::gemtext::{GemtextToken, TokenKind, TokenModel, html_of, tokens_view};
use crate::settings::{Config, FMConfig};

verus! {

/// One token's contribution to the list-aware rendering, given whether a
/// `<ul>` is currently open: the emitted fragment and whether one is open
/// afterwards. A list item opens a `<ul>` when none is open; any other
/// token first closes an open one, then renders as [`html_of`].
pub open spec fn list_step(t: TokenModel, in_list: bool) -> (Seq<char>, bool) {
    if t.kind == TokenKind::UnorderedList {
        ((if in_list { Seq::empty() } else { "<ul>\n"@ }) + "<li>"@ + t.data + "</li>\n"@, true)
    } else {
        ((if in_list { "</ul>\n"@ } else { Seq::empty() }) + html_of(t), false)
    }
}

/// The list-aware rendering of the tokens from index `i` on; a `<ul>` still
/// open at the end of the sequence is closed.
pub open spec fn render_from(toks: Seq<TokenModel>, i: int, in_list: bool) -> Seq<char>
    decreases toks.len() - i,
{
    if i < 0 || i >= toks.len() {
        if in_list {
            "</ul>\n"@
        } else {
            Seq::empty()
        }
    } else {
        list_step(toks[i], in_list).0 + render_from(toks, i + 1, list_step(toks[i], in_list).1)
    }
}

/// The list-aware HTML fragment of a whole token sequence.
pub open spec fn render_tokens(toks: Seq<TokenModel>) -> Seq<char> {
    render_from(toks, 0, false)
}

/// Renders a token sequence as an HTML fragment, wrapping each maximal run
/// of consecutive list items in a `<ul>` element: one opens at the first
/// item after a non-list token (or the start), and closes at the next
/// non-list token (or the end of the sequence), so the emitted markup is
/// well nested. Other tokens render exactly as
/// [`crate::gemtext::GemtextToken::as_html`] does.
pub fn generate_html_from_tokens(tokens: Vec<GemtextToken>) -> (r: String)
    ensures
        r@ == render_tokens(tokens_view(tokens@)),
{
    let ghost tv: Seq<TokenModel> = tokens_view(tokens@);
    let mut in_list: bool = false;
    let mut buf: String = String::new();
    let n: usize = tokens.len();
    let mut i: usize = 0;
    while i < n
        invariant
            n == tokens@.len(),
            tv == tokens_view(tokens@),
            i <= n,
            buf@ + render_from(tv, i as int, in_list) == render_tokens(tv),
        decreases n - i,
    {
        let ghost pre_in_list = in_list;
        proof {
            assert(tv[i as int] == tokens@[i as int]@);
        }
        let token: &GemtextToken = &tokens[i];
        if token.kind == TokenKind::UnorderedList {
            if !in_list {
                buf.append("<ul>\n");
                in_list = true;
            }
            buf.append("<li>");
            buf.append(token.data.as_str());
            buf.append("</li>\n");
        } else {
            if in_list {
                buf.append("</ul>\n");
                in_list = false;
            }
            let piece = token.as_html();
            buf.append(piece.as_str());
        }
        proof {
            assert(render_from(tv, i as int, pre_in_list) == list_step(tv[i as int], pre_in_list).0
                + render_from(tv, i as int + 1, list_step(tv[i as int], pre_in_list).1));
            assert(in_list == list_step(tv[i as int], pre_in_list).1);
            assert(buf@ + render_from(tv, i as int + 1, in_list) =~= render_tokens(tv));
        }
        i = i + 1;
    }
    if in_list {
        buf.append("</ul>\n");
    }
    proof {
        assert(buf@ =~= render_tokens(tv));
    }
    buf
}

/// Rendering is a pure function of the token sequence: two rendering
/// passes over equal token sequences produce byte-identical output, for
/// the list-aware renderer and for the token-by-token renderer alike. The
/// renderers' contracts pin their results to [`render_tokens`] and
/// [`crate::gemtext::html_of_all`] of their input, so repeated calls on
/// the same tokens cannot differ.
pub proof fn lemma_render_deterministic(toks1: Seq<TokenModel>, toks2: Seq<TokenModel>)
    requires
        toks1 == toks2,
    ensures
        render_tokens(toks1) == render_tokens(toks2),
        crate::gemtext::html_of_all(toks1) == crate::gemtext::html_of_all(toks2),
{
}

/// The `<head>` fragment for a post page: base URL, stylesheet link, and a
/// title of the form `{document name} | {site name}`.
pub open spec fn html_post_header(
    doc_name: Seq<char>,
    url: Seq<char>,
    css: Seq<char>,
    site_name: Seq<char>,
) -> Seq<char> {
    "<head>\n    <base href=\""@ + url + "\">\n    <link rel=\"stylesheet\" type=\"text/css\" href=\""@
        + css + "\">\n    <title>"@ + doc_name + " | "@ + site_name + "</title>\n    </head>"@
}

/// Builds the `<head>` fragment for a post page from the document's front
/// matter and the site settings.
pub fn create_html_post_header(fm: &FMConfig, config: &Config) -> (r: String)
    ensures
        r@ == html_post_header(fm.name@, config.url@, config.css@, config.name@),
{
    let mut s: String = "<head>\n    <base href=\"".to_owned();
    s.append(config.url.as_str());
    s.append("\">\n    <link rel=\"stylesheet\" type=\"text/css\" href=\"");
    s.append(config.css.as_str());
    s.append("\">\n    <title>");
    s.append(fm.name.as_str());
    s.append(" | ");
    s.append(config.name.as_str());
    s.append("</title>\n    </head>");
    proof {
        assert(s@ =~= html_post_header(fm.name@, config.url@, config.css@, config.name@));
    }
    s
}

} // verus!
