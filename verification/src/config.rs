//! Site configuration as a generator driver loads it: the site's identity
//! and output roots, and the homepage options.

use vstd::prelude::*;

verus! {

/// The whole configuration: the site section and the homepage section.
#[derive(Clone, Debug)]
pub struct Config {
    pub site: Site,
    pub homepage: Homepage,
}

/// The site's identity and the roots of the HTML and Gemini output trees.
#[derive(Clone, Debug)]
pub struct Site {
    pub name: String,
    pub url: String,
    pub username: String,
    pub html_root: String,
    pub gemini_root: String,
}

/// Homepage options: whether a custom homepage is used, and the optional
/// post-listing and about-page switches.
#[derive(Clone, Debug)]
pub struct Homepage {
    pub custom_homepage: bool,
    pub post_list: Option<bool>,
    pub use_about_page: Option<bool>,
}

impl Default for Site {
    /// A site with every field empty.
    fn default() -> (r: Site)
        ensures
            r.name@ == Seq::<char>::empty(),
            r.url@ == Seq::<char>::empty(),
            r.username@ == Seq::<char>::empty(),
            r.html_root@ == Seq::<char>::empty(),
            r.gemini_root@ == Seq::<char>::empty(),
    {
        Site {
            name: String::new(),
            url: String::new(),
            username: String::new(),
            html_root: String::new(),
            gemini_root: String::new(),
        }
    }
}

impl Default for Homepage {
    /// Homepage options with every switch off or unset.
    fn default() -> (r: Homepage)
        ensures
            !r.custom_homepage,
            r.post_list is None,
            r.use_about_page is None,
    {
        Homepage { custom_homepage: false, post_list: None, use_about_page: None }
    }
}

impl Default for Config {
    /// A configuration built from the default site and homepage sections.
    fn default() -> (r: Config)
        ensures
            !r.homepage.custom_homepage,
            r.homepage.post_list is None,
            r.homepage.use_about_page is None,
            r.site.name@ == Seq::<char>::empty(),
            r.site.url@ == Seq::<char>::empty(),
    {
        Config { site: Site::default(), homepage: Homepage::default() }
    }
}

} // verus!
