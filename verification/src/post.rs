//! A blog post: front matter resolved to a date, a filename stem derived
//! from date and slug, and the body rendered once as HTML and once as
//! normalized gemtext.

use vstd::prelude::*;
use crate::dates::{DateTime, compact_of};
use crate::gemtext::{html_from_tokens, html_of_all, join_lines, joined, lines_view, parse_gemtext,
    tokenize_lines};

verus! {

/// A post: its title, derived output filename stem, date, and the two
/// rendered bodies.
#[derive(Clone, Debug)]
pub struct Post {
    pub title: String,
    pub filename: String,
    pub date: DateTime,
    pub html_content: String,
    pub gemini_content: String,
}

impl Post {
    /// Builds a post from its parsed front matter and its body lines. The
    /// filename stem is the compact date followed by an underscore and the
    /// slug; the HTML body is the tokenization of `body` rendered token by
    /// token; the gemtext body is the same lines joined with newlines.
    pub fn from_parts(title: String, slug: &str, date: DateTime, body: &[String]) -> (p: Post)
        requires
            date.wf(),
        ensures
            p.title@ == title@,
            p.date == date,
            p.filename@ == compact_of(date) + "_"@ + slug@,
            p.html_content@ == html_of_all(tokenize_lines(lines_view(body@))),
            p.gemini_content@ == joined(lines_view(body@)),
    {
        let mut filename: String = date.compact_string();
        filename.append("_");
        filename.append(slug);
        let tokens = parse_gemtext(body);
        Post {
            title,
            filename,
            date,
            html_content: html_from_tokens(&tokens),
            gemini_content: join_lines(body),
        }
    }
}

impl Default for Post {
    /// A post with every text field empty and the placeholder date.
    fn default() -> (r: Post)
        ensures
            r.title@ == Seq::<char>::empty(),
            r.filename@ == Seq::<char>::empty(),
            r.date == (DateTime { year: 1980, month: 1, day: 1, hour: 0, minute: 0 }),
            r.html_content@ == Seq::<char>::empty(),
            r.gemini_content@ == Seq::<char>::empty(),
    {
        Post {
            title: String::new(),
            filename: String::new(),
            date: DateTime::default(),
            html_content: String::new(),
            gemini_content: String::new(),
        }
    }
}

} // verus!
