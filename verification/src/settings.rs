//! Flat site settings, as a generator driver loads them from its
//! configuration file, together with the per-document front-matter values
//! the HTML page header is built from.

use vstd::prelude::*;

verus! {

/// Site-wide settings in flat form: identity, template and style locations,
/// and the roots of the two output trees.
#[derive(Clone, Debug)]
pub struct Config {
    pub name: String,
    pub url: String,
    pub username: String,
    pub default_index: bool,
    pub about: String,
    pub html_template: String,
    pub gemini_template: String,
    pub default_style: bool,
    pub css: String,
    pub html_root: String,
    pub gemini_root: String,
    pub post_dir: String,
}

/// The front-matter values a page header needs: the document's display
/// name.
#[derive(Clone, Debug)]
pub struct FMConfig {
    pub name: String,
}

} // verus!
