//! A bare post record: title, publication date, URL slug and content.

use vstd::prelude::*;

use crate::date::Date;

verus! {

/// A post with a title, a publication date, a URL slug and plain-text content.
#[derive(Debug)]
pub struct Post {
    pub title: String,
    pub date: Date,
    pub slug: String,
    pub content: String,
}

} // verus!
