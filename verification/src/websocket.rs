//! Operations of the client-facing API, as named on its realtime channel.

use vstd::prelude::*;

verus! {

/// An operation of the client API. Realtime notifications name the
/// operation whose result they carry.
#[derive(Clone, Copy, Debug, PartialEq, Eq, Structural)]
pub enum UserOperation {
    Login,
    Register,
    GetCaptcha,
    CreateCommunity,
    CreatePost,
    ListCommunities,
    ListCategories,
    GetPost,
    GetCommunity,
    GetCommunitySettings,
    CreateComment,
    EditComment,
    DeleteComment,
    RemoveComment,
    MarkCommentAsRead,
    SaveComment,
    CreateCommentLike,
    CreateCommentReport,
    ListCommentReports,
    ResolveCommentReport,
    GetPosts,
    CreatePostLike,
    CreatePostReport,
    ListPostReports,
    ResolvePostReport,
    EditPost,
    DeletePost,
    RemovePost,
    LockPost,
    StickyPost,
    SavePost,
    EditCommunity,
    EditCommunitySettings,
    DeleteCommunity,
    RemoveCommunity,
    FollowCommunity,
    GetFollowedCommunities,
    GetUserDetails,
    GetReplies,
    GetUserMentions,
    MarkUserMentionAsRead,
    GetModlog,
    BanFromCommunity,
    AddModToCommunity,
    CreateSite,
    EditSite,
    GetSite,
    AddAdmin,
    AddSitemod,
    BanUser,
    Search,
    MarkAllAsRead,
    SaveUserSettings,
    TransferCommunity,
    TransferSite,
    DeleteAccount,
    PasswordReset,
    PasswordChange,
    CreatePrivateMessage,
    EditPrivateMessage,
    DeletePrivateMessage,
    MarkPrivateMessageAsRead,
    GetPrivateMessages,
    UserJoin,
    GetComments,
    GetSiteConfig,
    SaveSiteConfig,
    GetReportCount,
    GetSiteModerators,
    GetUserTag,
    SetUserTag,
}

/// The operation a name stands for.
pub open spec fn spec_user_operation(name: Seq<char>) -> Option<UserOperation> {
    if name == "Login"@ {
        Some(UserOperation::Login)
    } else if name == "Register"@ {
        Some(UserOperation::Register)
    } else if name == "GetCaptcha"@ {
        Some(UserOperation::GetCaptcha)
    } else if name == "CreateCommunity"@ {
        Some(UserOperation::CreateCommunity)
    } else if name == "CreatePost"@ {
        Some(UserOperation::CreatePost)
    } else if name == "ListCommunities"@ {
        Some(UserOperation::ListCommunities)
    } else if name == "ListCategories"@ {
        Some(UserOperation::ListCategories)
    } else if name == "GetPost"@ {
        Some(UserOperation::GetPost)
    } else if name == "GetCommunity"@ {
        Some(UserOperation::GetCommunity)
    } else if name == "GetCommunitySettings"@ {
        Some(UserOperation::GetCommunitySettings)
    } else if name == "CreateComment"@ {
        Some(UserOperation::CreateComment)
    } else if name == "EditComment"@ {
        Some(UserOperation::EditComment)
    } else if name == "DeleteComment"@ {
        Some(UserOperation::DeleteComment)
    } else if name == "RemoveComment"@ {
        Some(UserOperation::RemoveComment)
    } else if name == "MarkCommentAsRead"@ {
        Some(UserOperation::MarkCommentAsRead)
    } else if name == "SaveComment"@ {
        Some(UserOperation::SaveComment)
    } else if name == "CreateCommentLike"@ {
        Some(UserOperation::CreateCommentLike)
    } else if name == "CreateCommentReport"@ {
        Some(UserOperation::CreateCommentReport)
    } else if name == "ListCommentReports"@ {
        Some(UserOperation::ListCommentReports)
    } else if name == "ResolveCommentReport"@ {
        Some(UserOperation::ResolveCommentReport)
    } else if name == "GetPosts"@ {
        Some(UserOperation::GetPosts)
    } else if name == "CreatePostLike"@ {
        Some(UserOperation::CreatePostLike)
    } else if name == "CreatePostReport"@ {
        Some(UserOperation::CreatePostReport)
    } else if name == "ListPostReports"@ {
        Some(UserOperation::ListPostReports)
    } else if name == "ResolvePostReport"@ {
        Some(UserOperation::ResolvePostReport)
    } else if name == "EditPost"@ {
        Some(UserOperation::EditPost)
    } else if name == "DeletePost"@ {
        Some(UserOperation::DeletePost)
    } else if name == "RemovePost"@ {
        Some(UserOperation::RemovePost)
    } else if name == "LockPost"@ {
        Some(UserOperation::LockPost)
    } else if name == "StickyPost"@ {
        Some(UserOperation::StickyPost)
    } else if name == "SavePost"@ {
        Some(UserOperation::SavePost)
    } else if name == "EditCommunity"@ {
        Some(UserOperation::EditCommunity)
    } else if name == "EditCommunitySettings"@ {
        Some(UserOperation::EditCommunitySettings)
    } else if name == "DeleteCommunity"@ {
        Some(UserOperation::DeleteCommunity)
    } else if name == "RemoveCommunity"@ {
        Some(UserOperation::RemoveCommunity)
    } else if name == "FollowCommunity"@ {
        Some(UserOperation::FollowCommunity)
    } else if name == "GetFollowedCommunities"@ {
        Some(UserOperation::GetFollowedCommunities)
    } else if name == "GetUserDetails"@ {
        Some(UserOperation::GetUserDetails)
    } else if name == "GetReplies"@ {
        Some(UserOperation::GetReplies)
    } else if name == "GetUserMentions"@ {
        Some(UserOperation::GetUserMentions)
    } else if name == "MarkUserMentionAsRead"@ {
        Some(UserOperation::MarkUserMentionAsRead)
    } else if name == "GetModlog"@ {
        Some(UserOperation::GetModlog)
    } else if name == "BanFromCommunity"@ {
        Some(UserOperation::BanFromCommunity)
    } else if name == "AddModToCommunity"@ {
        Some(UserOperation::AddModToCommunity)
    } else if name == "CreateSite"@ {
        Some(UserOperation::CreateSite)
    } else if name == "EditSite"@ {
        Some(UserOperation::EditSite)
    } else if name == "GetSite"@ {
        Some(UserOperation::GetSite)
    } else if name == "AddAdmin"@ {
        Some(UserOperation::AddAdmin)
    } else if name == "AddSitemod"@ {
        Some(UserOperation::AddSitemod)
    } else if name == "BanUser"@ {
        Some(UserOperation::BanUser)
    } else if name == "Search"@ {
        Some(UserOperation::Search)
    } else if name == "MarkAllAsRead"@ {
        Some(UserOperation::MarkAllAsRead)
    } else if name == "SaveUserSettings"@ {
        Some(UserOperation::SaveUserSettings)
    } else if name == "TransferCommunity"@ {
        Some(UserOperation::TransferCommunity)
    } else if name == "TransferSite"@ {
        Some(UserOperation::TransferSite)
    } else if name == "DeleteAccount"@ {
        Some(UserOperation::DeleteAccount)
    } else if name == "PasswordReset"@ {
        Some(UserOperation::PasswordReset)
    } else if name == "PasswordChange"@ {
        Some(UserOperation::PasswordChange)
    } else if name == "CreatePrivateMessage"@ {
        Some(UserOperation::CreatePrivateMessage)
    } else if name == "EditPrivateMessage"@ {
        Some(UserOperation::EditPrivateMessage)
    } else if name == "DeletePrivateMessage"@ {
        Some(UserOperation::DeletePrivateMessage)
    } else if name == "MarkPrivateMessageAsRead"@ {
        Some(UserOperation::MarkPrivateMessageAsRead)
    } else if name == "GetPrivateMessages"@ {
        Some(UserOperation::GetPrivateMessages)
    } else if name == "UserJoin"@ {
        Some(UserOperation::UserJoin)
    } else if name == "GetComments"@ {
        Some(UserOperation::GetComments)
    } else if name == "GetSiteConfig"@ {
        Some(UserOperation::GetSiteConfig)
    } else if name == "SaveSiteConfig"@ {
        Some(UserOperation::SaveSiteConfig)
    } else if name == "GetReportCount"@ {
        Some(UserOperation::GetReportCount)
    } else if name == "GetSiteModerators"@ {
        Some(UserOperation::GetSiteModerators)
    } else if name == "GetUserTag"@ {
        Some(UserOperation::GetUserTag)
    } else if name == "SetUserTag"@ {
        Some(UserOperation::SetUserTag)
    } else {
        None
    }
}

impl UserOperation {
    /// The name of the operation: that of its variant.
    pub open spec fn spec_name(self) -> Seq<char> {
        match self {
            UserOperation::Login => "Login"@,
            UserOperation::Register => "Register"@,
            UserOperation::GetCaptcha => "GetCaptcha"@,
            UserOperation::CreateCommunity => "CreateCommunity"@,
            UserOperation::CreatePost => "CreatePost"@,
            UserOperation::ListCommunities => "ListCommunities"@,
            UserOperation::ListCategories => "ListCategories"@,
            UserOperation::GetPost => "GetPost"@,
            UserOperation::GetCommunity => "GetCommunity"@,
            UserOperation::GetCommunitySettings => "GetCommunitySettings"@,
            UserOperation::CreateComment => "CreateComment"@,
            UserOperation::EditComment => "EditComment"@,
            UserOperation::DeleteComment => "DeleteComment"@,
            UserOperation::RemoveComment => "RemoveComment"@,
            UserOperation::MarkCommentAsRead => "MarkCommentAsRead"@,
            UserOperation::SaveComment => "SaveComment"@,
            UserOperation::CreateCommentLike => "CreateCommentLike"@,
            UserOperation::CreateCommentReport => "CreateCommentReport"@,
            UserOperation::ListCommentReports => "ListCommentReports"@,
            UserOperation::ResolveCommentReport => "ResolveCommentReport"@,
            UserOperation::GetPosts => "GetPosts"@,
            UserOperation::CreatePostLike => "CreatePostLike"@,
            UserOperation::CreatePostReport => "CreatePostReport"@,
            UserOperation::ListPostReports => "ListPostReports"@,
            UserOperation::ResolvePostReport => "ResolvePostReport"@,
            UserOperation::EditPost => "EditPost"@,
            UserOperation::DeletePost => "DeletePost"@,
            UserOperation::RemovePost => "RemovePost"@,
            UserOperation::LockPost => "LockPost"@,
            UserOperation::StickyPost => "StickyPost"@,
            UserOperation::SavePost => "SavePost"@,
            UserOperation::EditCommunity => "EditCommunity"@,
            UserOperation::EditCommunitySettings => "EditCommunitySettings"@,
            UserOperation::DeleteCommunity => "DeleteCommunity"@,
            UserOperation::RemoveCommunity => "RemoveCommunity"@,
            UserOperation::FollowCommunity => "FollowCommunity"@,
            UserOperation::GetFollowedCommunities => "GetFollowedCommunities"@,
            UserOperation::GetUserDetails => "GetUserDetails"@,
            UserOperation::GetReplies => "GetReplies"@,
            UserOperation::GetUserMentions => "GetUserMentions"@,
            UserOperation::MarkUserMentionAsRead => "MarkUserMentionAsRead"@,
            UserOperation::GetModlog => "GetModlog"@,
            UserOperation::BanFromCommunity => "BanFromCommunity"@,
            UserOperation::AddModToCommunity => "AddModToCommunity"@,
            UserOperation::CreateSite => "CreateSite"@,
            UserOperation::EditSite => "EditSite"@,
            UserOperation::GetSite => "GetSite"@,
            UserOperation::AddAdmin => "AddAdmin"@,
            UserOperation::AddSitemod => "AddSitemod"@,
            UserOperation::BanUser => "BanUser"@,
            UserOperation::Search => "Search"@,
            UserOperation::MarkAllAsRead => "MarkAllAsRead"@,
            UserOperation::SaveUserSettings => "SaveUserSettings"@,
            UserOperation::TransferCommunity => "TransferCommunity"@,
            UserOperation::TransferSite => "TransferSite"@,
            UserOperation::DeleteAccount => "DeleteAccount"@,
            UserOperation::PasswordReset => "PasswordReset"@,
            UserOperation::PasswordChange => "PasswordChange"@,
            UserOperation::CreatePrivateMessage => "CreatePrivateMessage"@,
            UserOperation::EditPrivateMessage => "EditPrivateMessage"@,
            UserOperation::DeletePrivateMessage => "DeletePrivateMessage"@,
            UserOperation::MarkPrivateMessageAsRead => "MarkPrivateMessageAsRead"@,
            UserOperation::GetPrivateMessages => "GetPrivateMessages"@,
            UserOperation::UserJoin => "UserJoin"@,
            UserOperation::GetComments => "GetComments"@,
            UserOperation::GetSiteConfig => "GetSiteConfig"@,
            UserOperation::SaveSiteConfig => "SaveSiteConfig"@,
            UserOperation::GetReportCount => "GetReportCount"@,
            UserOperation::GetSiteModerators => "GetSiteModerators"@,
            UserOperation::GetUserTag => "GetUserTag"@,
            UserOperation::SetUserTag => "SetUserTag"@,
        }
    }

    /// The name of the operation.
    pub fn name(self) -> (r: &'static str)
        ensures
            r@ == self.spec_name(),
    {
        match self {
            UserOperation::Login => "Login",
            UserOperation::Register => "Register",
            UserOperation::GetCaptcha => "GetCaptcha",
            UserOperation::CreateCommunity => "CreateCommunity",
            UserOperation::CreatePost => "CreatePost",
            UserOperation::ListCommunities => "ListCommunities",
            UserOperation::ListCategories => "ListCategories",
            UserOperation::GetPost => "GetPost",
            UserOperation::GetCommunity => "GetCommunity",
            UserOperation::GetCommunitySettings => "GetCommunitySettings",
            UserOperation::CreateComment => "CreateComment",
            UserOperation::EditComment => "EditComment",
            UserOperation::DeleteComment => "DeleteComment",
            UserOperation::RemoveComment => "RemoveComment",
            UserOperation::MarkCommentAsRead => "MarkCommentAsRead",
            UserOperation::SaveComment => "SaveComment",
            UserOperation::CreateCommentLike => "CreateCommentLike",
            UserOperation::CreateCommentReport => "CreateCommentReport",
            UserOperation::ListCommentReports => "ListCommentReports",
            UserOperation::ResolveCommentReport => "ResolveCommentReport",
            UserOperation::GetPosts => "GetPosts",
            UserOperation::CreatePostLike => "CreatePostLike",
            UserOperation::CreatePostReport => "CreatePostReport",
            UserOperation::ListPostReports => "ListPostReports",
            UserOperation::ResolvePostReport => "ResolvePostReport",
            UserOperation::EditPost => "EditPost",
            UserOperation::DeletePost => "DeletePost",
            UserOperation::RemovePost => "RemovePost",
            UserOperation::LockPost => "LockPost",
            UserOperation::StickyPost => "StickyPost",
            UserOperation::SavePost => "SavePost",
            UserOperation::EditCommunity => "EditCommunity",
            UserOperation::EditCommunitySettings => "EditCommunitySettings",
            UserOperation::DeleteCommunity => "DeleteCommunity",
            UserOperation::RemoveCommunity => "RemoveCommunity",
            UserOperation::FollowCommunity => "FollowCommunity",
            UserOperation::GetFollowedCommunities => "GetFollowedCommunities",
            UserOperation::GetUserDetails => "GetUserDetails",
            UserOperation::GetReplies => "GetReplies",
            UserOperation::GetUserMentions => "GetUserMentions",
            UserOperation::MarkUserMentionAsRead => "MarkUserMentionAsRead",
            UserOperation::GetModlog => "GetModlog",
            UserOperation::BanFromCommunity => "BanFromCommunity",
            UserOperation::AddModToCommunity => "AddModToCommunity",
            UserOperation::CreateSite => "CreateSite",
            UserOperation::EditSite => "EditSite",
            UserOperation::GetSite => "GetSite",
            UserOperation::AddAdmin => "AddAdmin",
            UserOperation::AddSitemod => "AddSitemod",
            UserOperation::BanUser => "BanUser",
            UserOperation::Search => "Search",
            UserOperation::MarkAllAsRead => "MarkAllAsRead",
            UserOperation::SaveUserSettings => "SaveUserSettings",
            UserOperation::TransferCommunity => "TransferCommunity",
            UserOperation::TransferSite => "TransferSite",
            UserOperation::DeleteAccount => "DeleteAccount",
            UserOperation::PasswordReset => "PasswordReset",
            UserOperation::PasswordChange => "PasswordChange",
            UserOperation::CreatePrivateMessage => "CreatePrivateMessage",
            UserOperation::EditPrivateMessage => "EditPrivateMessage",
            UserOperation::DeletePrivateMessage => "DeletePrivateMessage",
            UserOperation::MarkPrivateMessageAsRead => "MarkPrivateMessageAsRead",
            UserOperation::GetPrivateMessages => "GetPrivateMessages",
            UserOperation::UserJoin => "UserJoin",
            UserOperation::GetComments => "GetComments",
            UserOperation::GetSiteConfig => "GetSiteConfig",
            UserOperation::SaveSiteConfig => "SaveSiteConfig",
            UserOperation::GetReportCount => "GetReportCount",
            UserOperation::GetSiteModerators => "GetSiteModerators",
            UserOperation::GetUserTag => "GetUserTag",
            UserOperation::SetUserTag => "SetUserTag",
        }
    }

    /// The name as an owned string.
    pub fn to_string(self) -> (r: String)
        ensures
            r@ == self.spec_name(),
    {
        self.name().to_owned()
    }

    /// Reads the name of an operation. Names are matched as they stand.
    pub fn from_str(name: &str) -> (r: Option<UserOperation>)
        ensures
            r == spec_user_operation(name@),
    {
        let name = name.to_owned();
        if name == "Login".to_owned() {
            Some(UserOperation::Login)
        } else if name == "Register".to_owned() {
            Some(UserOperation::Register)
        } else if name == "GetCaptcha".to_owned() {
            Some(UserOperation::GetCaptcha)
        } else if name == "CreateCommunity".to_owned() {
            Some(UserOperation::CreateCommunity)
        } else if name == "CreatePost".to_owned() {
            Some(UserOperation::CreatePost)
        } else if name == "ListCommunities".to_owned() {
            Some(UserOperation::ListCommunities)
        } else if name == "ListCategories".to_owned() {
            Some(UserOperation::ListCategories)
        } else if name == "GetPost".to_owned() {
            Some(UserOperation::GetPost)
        } else if name == "GetCommunity".to_owned() {
            Some(UserOperation::GetCommunity)
        } else if name == "GetCommunitySettings".to_owned() {
            Some(UserOperation::GetCommunitySettings)
        } else if name == "CreateComment".to_owned() {
            Some(UserOperation::CreateComment)
        } else if name == "EditComment".to_owned() {
            Some(UserOperation::EditComment)
        } else if name == "DeleteComment".to_owned() {
            Some(UserOperation::DeleteComment)
        } else if name == "RemoveComment".to_owned() {
            Some(UserOperation::RemoveComment)
        } else if name == "MarkCommentAsRead".to_owned() {
            Some(UserOperation::MarkCommentAsRead)
        } else if name == "SaveComment".to_owned() {
            Some(UserOperation::SaveComment)
        } else if name == "CreateCommentLike".to_owned() {
            Some(UserOperation::CreateCommentLike)
        } else if name == "CreateCommentReport".to_owned() {
            Some(UserOperation::CreateCommentReport)
        } else if name == "ListCommentReports".to_owned() {
            Some(UserOperation::ListCommentReports)
        } else if name == "ResolveCommentReport".to_owned() {
            Some(UserOperation::ResolveCommentReport)
        } else if name == "GetPosts".to_owned() {
            Some(UserOperation::GetPosts)
        } else if name == "CreatePostLike".to_owned() {
            Some(UserOperation::CreatePostLike)
        } else if name == "CreatePostReport".to_owned() {
            Some(UserOperation::CreatePostReport)
        } else if name == "ListPostReports".to_owned() {
            Some(UserOperation::ListPostReports)
        } else if name == "ResolvePostReport".to_owned() {
            Some(UserOperation::ResolvePostReport)
        } else if name == "EditPost".to_owned() {
            Some(UserOperation::EditPost)
        } else if name == "DeletePost".to_owned() {
            Some(UserOperation::DeletePost)
        } else if name == "RemovePost".to_owned() {
            Some(UserOperation::RemovePost)
        } else if name == "LockPost".to_owned() {
            Some(UserOperation::LockPost)
        } else if name == "StickyPost".to_owned() {
            Some(UserOperation::StickyPost)
        } else if name == "SavePost".to_owned() {
            Some(UserOperation::SavePost)
        } else if name == "EditCommunity".to_owned() {
            Some(UserOperation::EditCommunity)
        } else if name == "EditCommunitySettings".to_owned() {
            Some(UserOperation::EditCommunitySettings)
        } else if name == "DeleteCommunity".to_owned() {
            Some(UserOperation::DeleteCommunity)
        } else if name == "RemoveCommunity".to_owned() {
            Some(UserOperation::RemoveCommunity)
        } else if name == "FollowCommunity".to_owned() {
            Some(UserOperation::FollowCommunity)
        } else if name == "GetFollowedCommunities".to_owned() {
            Some(UserOperation::GetFollowedCommunities)
        } else if name == "GetUserDetails".to_owned() {
            Some(UserOperation::GetUserDetails)
        } else if name == "GetReplies".to_owned() {
            Some(UserOperation::GetReplies)
        } else if name == "GetUserMentions".to_owned() {
            Some(UserOperation::GetUserMentions)
        } else if name == "MarkUserMentionAsRead".to_owned() {
            Some(UserOperation::MarkUserMentionAsRead)
        } else if name == "GetModlog".to_owned() {
            Some(UserOperation::GetModlog)
        } else if name == "BanFromCommunity".to_owned() {
            Some(UserOperation::BanFromCommunity)
        } else if name == "AddModToCommunity".to_owned() {
            Some(UserOperation::AddModToCommunity)
        } else if name == "CreateSite".to_owned() {
            Some(UserOperation::CreateSite)
        } else if name == "EditSite".to_owned() {
            Some(UserOperation::EditSite)
        } else if name == "GetSite".to_owned() {
            Some(UserOperation::GetSite)
        } else if name == "AddAdmin".to_owned() {
            Some(UserOperation::AddAdmin)
        } else if name == "AddSitemod".to_owned() {
            Some(UserOperation::AddSitemod)
        } else if name == "BanUser".to_owned() {
            Some(UserOperation::BanUser)
        } else if name == "Search".to_owned() {
            Some(UserOperation::Search)
        } else if name == "MarkAllAsRead".to_owned() {
            Some(UserOperation::MarkAllAsRead)
        } else if name == "SaveUserSettings".to_owned() {
            Some(UserOperation::SaveUserSettings)
        } else if name == "TransferCommunity".to_owned() {
            Some(UserOperation::TransferCommunity)
        } else if name == "TransferSite".to_owned() {
            Some(UserOperation::TransferSite)
        } else if name == "DeleteAccount".to_owned() {
            Some(UserOperation::DeleteAccount)
        } else if name == "PasswordReset".to_owned() {
            Some(UserOperation::PasswordReset)
        } else if name == "PasswordChange".to_owned() {
            Some(UserOperation::PasswordChange)
        } else if name == "CreatePrivateMessage".to_owned() {
            Some(UserOperation::CreatePrivateMessage)
        } else if name == "EditPrivateMessage".to_owned() {
            Some(UserOperation::EditPrivateMessage)
        } else if name == "DeletePrivateMessage".to_owned() {
            Some(UserOperation::DeletePrivateMessage)
        } else if name == "MarkPrivateMessageAsRead".to_owned() {
            Some(UserOperation::MarkPrivateMessageAsRead)
        } else if name == "GetPrivateMessages".to_owned() {
            Some(UserOperation::GetPrivateMessages)
        } else if name == "UserJoin".to_owned() {
            Some(UserOperation::UserJoin)
        } else if name == "GetComments".to_owned() {
            Some(UserOperation::GetComments)
        } else if name == "GetSiteConfig".to_owned() {
            Some(UserOperation::GetSiteConfig)
        } else if name == "SaveSiteConfig".to_owned() {
            Some(UserOperation::SaveSiteConfig)
        } else if name == "GetReportCount".to_owned() {
            Some(UserOperation::GetReportCount)
        } else if name == "GetSiteModerators".to_owned() {
            Some(UserOperation::GetSiteModerators)
        } else if name == "GetUserTag".to_owned() {
            Some(UserOperation::GetUserTag)
        } else if name == "SetUserTag".to_owned() {
            Some(UserOperation::SetUserTag)
        } else {
            None
        }
    }
}

} // verus!
