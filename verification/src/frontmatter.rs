//! The front-matter block at the top of a post source file: title, slug,
//! and the date string, still unparsed.

use vstd::prelude::*;

verus! {

/// A post's metadata as the source file states it. The date is kept as the
/// raw string; [`crate::dates`] parses it.
#[derive(Clone, Debug)]
pub struct Frontmatter {
    pub title: String,
    pub slug: String,
    pub date: String,
}

} // verus!
