//! Requests of the client API that concern comments.

use vstd::prelude::*;

verus! {

#[derive(Debug)]
pub struct GetComment {
    pub comment_id: i32,
    pub auth: Option<String>,
}

#[derive(Debug)]
pub struct CreateComment {
    pub content: String,
    pub parent_id: Option<i32>,
    pub post_id: i32,
    pub form_id: Option<String>,
    pub auth: String,
}

#[derive(Debug)]
pub struct EditComment {
    pub content: String,
    pub edit_id: i32,
    pub form_id: Option<String>,
    pub auth: String,
}

#[derive(Debug)]
pub struct DeleteComment {
    pub edit_id: i32,
    pub deleted: bool,
    pub auth: String,
}

#[derive(Debug)]
pub struct RemoveComment {
    pub edit_id: i32,
    pub removed: bool,
    pub reason: Option<String>,
    pub auth: String,
}

#[derive(Debug)]
pub struct MarkCommentAsRead {
    pub edit_id: i32,
    pub read: bool,
    pub auth: String,
}

#[derive(Debug)]
pub struct SaveComment {
    pub comment_id: i32,
    pub save: bool,
    pub auth: String,
}

#[derive(Debug)]
pub struct CreateCommentLike {
    pub comment_id: i32,
    pub score: i16,
    pub auth: String,
}

#[derive(Debug)]
pub struct GetComments {
    pub type_: String,
    pub sort: String,
    pub page: Option<i64>,
    pub limit: Option<i64>,
    pub community_id: Option<i32>,
    pub auth: Option<String>,
}

} // verus!
