//! The context records handed to the page templates: each gathers the site
//! settings with the documents a particular page embeds.

use vstd::prelude::*;
use crate::about::About;
use crate::config::Site;
use crate::post::Post;
use crate::topic::Topic;

verus! {

/// The context for one rendered post page.
#[derive(Clone, Debug)]
pub struct PostContext {
    pub site: Site,
    pub post: Post,
    pub has_about: bool,
}

/// The context for one rendered topic page.
#[derive(Clone, Debug)]
pub struct TopicContext {
    pub site: Site,
    pub topic: Topic,
    pub has_about: bool,
}

/// The context for the index page: every post and topic, with the latest
/// post singled out.
#[derive(Clone, Debug)]
pub struct IndexContext {
    pub site: Site,
    pub posts: Vec<Post>,
    pub latest_post: Post,
    pub topics: Vec<Topic>,
    pub has_topics: bool,
    pub has_about: bool,
}

/// The context for the about page.
#[derive(Clone, Debug)]
pub struct AboutContext {
    pub site: Site,
    pub about: About,
    pub has_about: bool,
}

/// The context for an Atom feed document: the rendered entries and the
/// newest post.
#[derive(Clone, Debug)]
pub struct AtomFeedContext {
    pub site: Site,
    pub latest_post: Post,
    pub entries: Vec<String>,
}

/// The context for a single Atom feed entry.
#[derive(Clone, Debug)]
pub struct AtomEntryContext {
    pub site: Site,
    pub post: Post,
}

} // verus!
