//! Requests of the client API that concern users and their messages.

use vstd::prelude::*;

verus! {

#[derive(Debug)]
pub struct Login {
    pub username_or_email: String,
    pub password: String,
    pub code_2fa: Option<String>,
}

#[derive(Debug)]
pub struct Logout {
    pub auth: String,
}

#[derive(Debug)]
pub struct Register {
    pub username: String,
    pub email: Option<String>,
    pub password: String,
    pub password_verify: String,
    pub admin: bool,
    pub show_nsfw: bool,
    pub captcha_uuid: Option<String>,
    pub captcha_answer: Option<String>,
    pub pronouns: Option<String>,
    pub hcaptcha_id: Option<String>,
}

#[derive(Debug)]
pub struct GetCaptcha {
}

#[derive(Debug)]
pub struct CaptchaResponse {
    pub png: String,
    pub wav: Option<String>,
    pub uuid: String,
}

#[derive(Debug)]
pub struct SaveUserSettings {
    pub show_nsfw: bool,
    pub theme: String,
    pub default_sort_type: i16,
    pub default_listing_type: i16,
    pub lang: String,
    pub avatar: Option<String>,
    pub banner: Option<String>,
    pub preferred_username: Option<String>,
    pub email: Option<String>,
    pub bio: Option<String>,
    pub matrix_user_id: Option<String>,
    pub new_password: Option<String>,
    pub new_password_verify: Option<String>,
    pub old_password: Option<String>,
    pub show_avatars: bool,
    pub send_notifications_to_email: bool,
    pub has_2fa: bool,
    pub auth: String,
    pub inbox_disabled: bool,
}

#[derive(Debug)]
pub struct LoginResponse {
    pub requires_2fa: bool,
    pub jwt: String,
}

#[derive(Debug)]
pub struct GetUserDetails {
    pub user_id: Option<i32>,
    pub username: Option<String>,
    pub sort: String,
    pub page: Option<i64>,
    pub limit: Option<i64>,
    pub community_id: Option<i32>,
    pub saved_only: bool,
    pub auth: Option<String>,
}

#[derive(Debug)]
pub struct MarkAllAsRead {
    pub auth: String,
}

#[derive(Debug)]
pub struct AddAdmin {
    pub user_id: i32,
    pub added: bool,
    pub auth: String,
}

#[derive(Debug)]
pub struct BanUser {
    pub user_id: i32,
    pub ban: bool,
    pub remove_data: Option<bool>,
    pub reason: Option<String>,
    pub expires: Option<i64>,
    pub auth: String,
}

#[derive(Debug)]
pub struct GetReplies {
    pub sort: String,
    pub page: Option<i64>,
    pub limit: Option<i64>,
    pub unread_only: bool,
    pub auth: String,
}

#[derive(Debug)]
pub struct GetUserMentions {
    pub sort: String,
    pub page: Option<i64>,
    pub limit: Option<i64>,
    pub unread_only: bool,
    pub auth: String,
}

#[derive(Debug)]
pub struct MarkUserMentionAsRead {
    pub user_mention_id: i32,
    pub read: bool,
    pub auth: String,
}

#[derive(Debug)]
pub struct DeleteAccount {
    pub password: String,
    pub auth: String,
}

#[derive(Debug)]
pub struct PasswordReset {
    pub email: String,
}

#[derive(Debug)]
pub struct PasswordResetResponse {
}

#[derive(Debug)]
pub struct PasswordChange {
    pub token: String,
    pub password: String,
    pub password_verify: String,
}

#[derive(Debug)]
pub struct CreatePrivateMessage {
    pub content: String,
    pub recipient_id: i32,
    pub auth: String,
}

#[derive(Debug)]
pub struct EditPrivateMessage {
    pub edit_id: i32,
    pub content: String,
    pub auth: String,
}

#[derive(Debug)]
pub struct DeletePrivateMessage {
    pub edit_id: i32,
    pub deleted: bool,
    pub auth: String,
}

#[derive(Debug)]
pub struct MarkPrivateMessageAsRead {
    pub edit_id: i32,
    pub read: bool,
    pub auth: String,
}

#[derive(Debug)]
pub struct GetPrivateMessages {
    pub unread_only: bool,
    pub page: Option<i64>,
    pub limit: Option<i64>,
    pub auth: String,
}

#[derive(Debug)]
pub struct UserJoin {
    pub auth: String,
}

#[derive(Debug)]
pub struct UserJoinResponse {
    pub user_id: i32,
}

#[derive(Debug)]
pub struct LeaveRooms {
}

#[derive(Debug)]
pub struct LeaveRoomsResponse {
    pub success: bool,
}

#[derive(Debug)]
pub struct AddSitemod {
    pub user_id: i32,
    pub added: bool,
    pub auth: String,
}

#[derive(Debug)]
pub struct GetUserTag {
    pub user: i32,
    pub community: Option<i32>,
}

#[derive(Debug)]
pub struct SetUserTag {
    pub tag: String,
    pub value: Option<String>,
    pub auth: String,
}

#[derive(Debug)]
pub struct UserTagsSchema {
    pub pronouns: Option<String>,
    pub tendency: Option<String>,
    pub favorite_food: Option<String>,
    pub flair: Option<String>,
}

#[derive(Debug)]
pub struct RemoveUserContent {
    pub user_id: i32,
    pub time: Option<i32>,
    pub community_id: Option<i32>,
    pub reason: Option<String>,
    pub auth: String,
}

#[derive(Debug)]
pub struct GetUnreadCount {
    pub auth: String,
}

#[derive(Debug)]
pub struct GetUnreadCountResponse {
    pub unreads: i32,
}

} // verus!
