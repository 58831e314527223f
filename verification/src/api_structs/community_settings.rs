//! Requests of the client API that concern the settings of a community.

use vstd::prelude::*;

verus! {

#[derive(Debug)]
pub struct GetCommunitySettings {
    pub community_id: i32,
    pub auth: Option<String>,
}

#[derive(Debug)]
pub struct EditCommunitySettings {
    pub community_id: i32,
    pub read_only: bool,
    pub private: bool,
    pub post_links: bool,
    pub comment_images: i32,
    pub allow_as_default: bool,
    pub auth: String,
}

} // verus!
