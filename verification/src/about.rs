//! The about page: its body rendered once as HTML and once as normalized
//! gemtext.

use vstd::prelude::*;
use crate::gemtext::{html_from_tokens, html_of_all, join_lines, joined, lines_view, parse_gemtext,
    tokenize_lines};

verus! {

/// An about page's two rendered bodies.
#[derive(Clone, Debug)]
pub struct About {
    pub html_content: String,
    pub gemini_content: String,
}

impl About {
    /// Builds the about page from its source lines: the HTML body is the
    /// tokenization rendered token by token, and the gemtext body is the
    /// lines joined with newlines.
    pub fn from_lines(lines: &[String]) -> (a: About)
        ensures
            a.html_content@ == html_of_all(tokenize_lines(lines_view(lines@))),
            a.gemini_content@ == joined(lines_view(lines@)),
    {
        let tokens = parse_gemtext(lines);
        About { html_content: html_from_tokens(&tokens), gemini_content: join_lines(lines) }
    }
}

impl Default for About {
    /// An about page with both bodies empty.
    fn default() -> (r: About)
        ensures
            r.html_content@ == Seq::<char>::empty(),
            r.gemini_content@ == Seq::<char>::empty(),
    {
        About { html_content: String::new(), gemini_content: String::new() }
    }
}

} // verus!
