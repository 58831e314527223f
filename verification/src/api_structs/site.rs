//! Requests of the client API that concern the site as a whole.

use vstd::prelude::*;

verus! {

#[derive(Debug)]
pub struct ListCategories {
}

#[derive(Debug)]
pub struct Search {
    pub q: String,
    pub type_: String,
    pub community_id: Option<i32>,
    pub sort: String,
    pub page: Option<i64>,
    pub limit: Option<i64>,
    pub auth: Option<String>,
}

#[derive(Debug)]
pub struct GetModlog {
    pub mod_user_id: Option<i32>,
    pub other_user_id: Option<i32>,
    pub community_id: Option<i32>,
    pub page: Option<i64>,
    pub limit: Option<i64>,
    pub action_filter: Option<u16>,
    pub auth: Option<String>,
}

#[derive(Debug)]
pub struct CreateSite {
    pub name: String,
    pub description: Option<String>,
    pub icon: Option<String>,
    pub banner: Option<String>,
    pub enable_downvotes: bool,
    pub open_registration: bool,
    pub enable_nsfw: bool,
    pub auth: String,
}

#[derive(Debug)]
pub struct EditSite {
    pub name: String,
    pub description: Option<String>,
    pub icon: Option<String>,
    pub banner: Option<String>,
    pub enable_downvotes: bool,
    pub open_registration: bool,
    pub enable_nsfw: bool,
    pub auth: String,
    pub enable_create_communities: Option<bool>,
    pub autosubscribe_comms: Vec<i32>,
}

#[derive(Debug)]
pub struct GetSite {
    pub auth: Option<String>,
}

#[derive(Debug)]
pub struct TransferSite {
    pub user_id: i32,
    pub auth: String,
}

#[derive(Debug)]
pub struct GetSiteConfig {
    pub auth: String,
}

#[derive(Debug)]
pub struct GetSiteConfigResponse {
    pub config_hjson: String,
}

#[derive(Debug)]
pub struct SaveSiteConfig {
    pub config_hjson: String,
    pub auth: String,
}

#[derive(Debug)]
pub struct GetSiteModerators {
    pub page: Option<i64>,
    pub limit: Option<i64>,
}

} // verus!
