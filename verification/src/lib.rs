//! A static-site publishing library for the gemtext markup format.
//!
//! The heart of the crate is a line-oriented tokenizer that classifies each
//! line of a gemtext document into a typed token, together with renderers
//! that turn a token sequence into an HTML fragment. Around that core sit
//! the plain data types a site generator needs: site configuration, front
//! matter, page contexts, and the post, topic and about-page documents that
//! are assembled from tokenized source lines.

pub mod about;
pub mod args;
pub mod config;
pub mod contexts;
pub mod dates;
pub mod frontmatter;
pub mod gemtext;
pub mod html;
pub mod post;
pub mod settings;
pub mod topic;
