//! A topic page: a titled wiki-style document with its body rendered once
//! as HTML and once as normalized gemtext.

use vstd::prelude::*;
use crate::gemtext::{html_from_tokens, html_of_all, join_lines, joined, lines_view, parse_gemtext,
    tokenize_lines};

verus! {

/// A topic page: title, output filename stem, and the two rendered bodies.
#[derive(Clone, Debug)]
pub struct Topic {
    pub title: String,
    pub filename: String,
    pub html_content: String,
    pub gemini_content: String,
}

impl Topic {
    /// Builds a topic from its parsed front matter and its body lines. The
    /// HTML body is the tokenization of `body` rendered token by token;
    /// the gemtext body is `gemini_body` joined with newlines. The two
    /// slices are passed separately because the loader hands the HTML pass
    /// and the gemtext pass slightly different suffixes of the source
    /// file.
    pub fn from_parts(
        title: String,
        filename: String,
        body: &[String],
        gemini_body: &[String],
    ) -> (t: Topic)
        ensures
            t.title@ == title@,
            t.filename@ == filename@,
            t.html_content@ == html_of_all(tokenize_lines(lines_view(body@))),
            t.gemini_content@ == joined(lines_view(gemini_body@)),
    {
        let tokens = parse_gemtext(body);
        Topic {
            title,
            filename,
            html_content: html_from_tokens(&tokens),
            gemini_content: join_lines(gemini_body),
        }
    }
}

impl Default for Topic {
    /// A topic with every field empty.
    fn default() -> (r: Topic)
        ensures
            r.title@ == Seq::<char>::empty(),
            r.filename@ == Seq::<char>::empty(),
            r.html_content@ == Seq::<char>::empty(),
            r.gemini_content@ == Seq::<char>::empty(),
    {
        Topic {
            title: String::new(),
            filename: String::new(),
            html_content: String::new(),
            gemini_content: String::new(),
        }
    }
}

} // verus!
