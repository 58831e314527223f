//! Requests of the client API that concern communities.

use vstd::prelude::*;

verus! {

#[derive(Debug)]
pub struct GetCommunity {
    pub id: Option<i32>,
    pub name: Option<String>,
    pub auth: Option<String>,
}

#[derive(Debug)]
pub struct CreateCommunity {
    pub name: String,
    pub title: String,
    pub description: Option<String>,
    pub icon: Option<String>,
    pub banner: Option<String>,
    pub category_id: i32,
    pub nsfw: bool,
    pub auth: String,
}

#[derive(Debug)]
pub struct ListCommunities {
    pub sort: String,
    pub page: Option<i64>,
    pub limit: Option<i64>,
    pub auth: Option<String>,
}

#[derive(Debug)]
pub struct BanFromCommunity {
    pub community_id: i32,
    pub user_id: i32,
    pub ban: bool,
    pub remove_data: Option<bool>,
    pub reason: Option<String>,
    pub expires: Option<i64>,
    pub auth: String,
}

#[derive(Debug)]
pub struct AddModToCommunity {
    pub community_id: i32,
    pub user_id: i32,
    pub added: bool,
    pub auth: String,
}

#[derive(Debug)]
pub struct EditCommunity {
    pub edit_id: i32,
    pub title: String,
    pub description: Option<String>,
    pub icon: Option<String>,
    pub banner: Option<String>,
    pub category_id: i32,
    pub nsfw: bool,
    pub auth: String,
}

#[derive(Debug)]
pub struct DeleteCommunity {
    pub edit_id: i32,
    pub deleted: bool,
    pub auth: String,
}

#[derive(Debug)]
pub struct RemoveCommunity {
    pub edit_id: i32,
    pub removed: bool,
    pub reason: Option<String>,
    pub expires: Option<i64>,
    pub auth: String,
}

#[derive(Debug)]
pub struct FollowCommunity {
    pub community_id: i32,
    pub follow: bool,
    pub auth: String,
}

#[derive(Debug)]
pub struct GetFollowedCommunities {
    pub auth: String,
}

#[derive(Debug)]
pub struct TransferCommunity {
    pub community_id: i32,
    pub user_id: i32,
    pub auth: String,
}

#[derive(Debug)]
pub struct CommunityJoinRoom {
    pub community_id: i32,
}

#[derive(Debug)]
pub struct CommunityJoinRoomResponse {
    pub community_id: i32,
}

} // verus!
