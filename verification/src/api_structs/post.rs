//! Requests of the client API that concern featured posts.

use vstd::prelude::*;

verus! {

#[derive(Debug)]
pub struct GetFeaturedPosts {
    pub auth: Option<String>,
}

#[derive(Debug)]
pub struct FeaturePost {
    pub id: i32,
    pub featured: bool,
    pub auth: String,
}

} // verus!
