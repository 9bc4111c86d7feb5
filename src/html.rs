//! Titles that a web page gives itself.
use crate::api::author::opt_view;
use vstd::prelude::*;

verus! {

/// The title a web page declares.
pub struct WebsiteTitle {
    /// Inner HTML of the page's first `<title>` element, if any.
    pub from_title_tag: Option<String>,
}

impl WebsiteTitle {
    /// The title from the inner HTML of a page's `<title>` elements, in
    /// document order: the first one counts.
    pub fn from_title_tags(tags: &Vec<String>) -> (r: WebsiteTitle)
        ensures
            opt_view(r.from_title_tag) == (if tags@.len() > 0 {
                Some(tags@[0]@)
            } else {
                None
            }),
    {
        if tags.len() > 0 {
            WebsiteTitle { from_title_tag: Some(tags[0].clone()) }
        } else {
            WebsiteTitle { from_title_tag: None }
        }
    }
}

} // verus!
