//! Requests of the client API that concern reports to moderators.

use vstd::prelude::*;

verus! {

#[derive(Debug)]
pub struct CreateCommentReport {
    pub comment: i32,
    pub reason: Option<String>,
    pub auth: String,
}

#[derive(Debug)]
pub struct CommentReportResponse {
    pub success: bool,
}

#[derive(Debug)]
pub struct CreatePostReport {
    pub post: i32,
    pub reason: Option<String>,
    pub auth: String,
}

#[derive(Debug)]
pub struct PostReportResponse {
    pub success: bool,
}

#[derive(Debug)]
pub struct ListCommentReports {
    pub page: Option<i64>,
    pub limit: Option<i64>,
    pub community: i32,
    pub auth: String,
}

#[derive(Debug)]
pub struct ListPostReports {
    pub page: Option<i64>,
    pub limit: Option<i64>,
    pub community: i32,
    pub auth: String,
}

#[derive(Debug)]
pub struct GetReportCount {
    pub community: i32,
    pub auth: String,
}

#[derive(Debug)]
pub struct GetReportCountResponse {
    pub community: i32,
    pub comment_reports: usize,
    pub post_reports: usize,
}

} // verus!
