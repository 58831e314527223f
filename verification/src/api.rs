//! What the client API and the federation engine share: the error the API
//! answers with, and the checks on text that users submit.

use vstd::prelude::*;
use vstd::string::StringExecFns;
use crate::apub::activities::{vote_post, VoteType};
use crate::apub::state::StoreView;
use crate::apub::store::Store;
use crate::sorted::sorted_unique_of;
use crate::text::{joined, strs};
use crate::utils::{slur_check, slurs_vec_to_str, spec_found, SLUR_PATTERN};

verus! {

/// The error of an API call: a message the client can look up.
#[derive(Debug)]
pub struct APIError {
    pub message: String,
}

impl APIError {
    /// The error with the given message.
    pub fn err(msg: &str) -> (r: Self)
        ensures
            r.message@ == msg@,
    {
        APIError { message: msg.to_owned() }
    }

    /// The error as the API sends it: `{"error":"message"}`.
    pub fn to_string(&self) -> (r: String)
        ensures
            r@ == "{\"error\":\""@ + self.message@ + "\"}"@,
    {
        let mut out = "{\"error\":\"".to_owned();
        out.append(self.message.as_str());
        out.append("\"}");
        out
    }
}

/// Refuses a text that holds filtered words. The error names them, in
/// order, each once.
pub fn check_slurs(text: &str) -> (r: Result<(), APIError>)
    ensures
        match r {
            Ok(()) => spec_found(SLUR_PATTERN@, true, text@).len() == 0,
            Err(e) => spec_found(SLUR_PATTERN@, true, text@).len() > 0 && exists|list: Seq<
                Seq<char>,
            >|
                #![auto]
                sorted_unique_of(list, spec_found(SLUR_PATTERN@, true, text@)) && e.message@
                    == "No slurs - "@ + joined(list, ", "@),
        },
{
    match slur_check(text) {
        Err(slurs) => {
            let ghost list = strs(slurs@);
            let message = slurs_vec_to_str(slurs);
            let e = APIError { message };
            assert(sorted_unique_of(list, spec_found(SLUR_PATTERN@, true, text@)) && e.message@
                == "No slurs - "@ + joined(list, ", "@));
            Err(e)
        },
        Ok(()) => Ok(()),
    }
}

/// As `check_slurs`, for a text that may be absent.
pub fn check_slurs_opt(text: &Option<String>) -> (r: Result<(), APIError>)
    ensures
        match *text {
            None => r is Ok,
            Some(t) => match r {
                Ok(()) => spec_found(SLUR_PATTERN@, true, t@).len() == 0,
                Err(e) => spec_found(SLUR_PATTERN@, true, t@).len() > 0 && exists|list: Seq<
                    Seq<char>,
                >|
                    #![auto]
                    sorted_unique_of(list, spec_found(SLUR_PATTERN@, true, t@)) && e.message@
                        == "No slurs - "@ + joined(list, ", "@),
            },
        },
{
    match text {
        Some(t) => check_slurs(t.as_str()),
        None => Ok(()),
    }
}

// ----- votes of local users -----

/// What a vote of a local user comes to on the wire.
#[derive(Clone, Copy, Debug, PartialEq, Eq, Structural)]
pub enum LocalVote {
    /// The user likes the post: a `Like` goes out.
    Like,
    /// The user dislikes the post: a `Dislike` goes out.
    Dislike,
    /// The user takes the vote back: an `Undo` of the `Like` goes out.
    UndoLike,
}

/// Why a vote of a local user is refused, if it is: a downvote where
/// downvotes are disabled, or a vote in a private community by someone
/// who does not moderate it.
pub open spec fn spec_vote_refusal(
    score: i16,
    enable_downvotes: bool,
    community_private: bool,
    privileged: bool,
) -> Option<Seq<char>> {
    if score == -1 && !enable_downvotes {
        Some("downvotes_disabled"@)
    } else if community_private && !privileged {
        Some("community_is_private"@)
    } else {
        None
    }
}

/// What a vote of this score comes to: a score of `1` is a like, `-1` a
/// dislike, anything else takes the vote back.
pub open spec fn spec_local_vote(score: i16) -> LocalVote {
    if score == 1 {
        LocalVote::Like
    } else if score == -1 {
        LocalVote::Dislike
    } else {
        LocalVote::UndoLike
    }
}

/// The store after a local user's vote on a post: the user's earlier vote
/// is gone, and a like or dislike stands in its place.
pub open spec fn spec_after_vote(s: StoreView, score: i16, user: Seq<char>, post_id: u64)
    -> StoreView {
    match spec_local_vote(score) {
        LocalVote::Like => s.remove_reaction(post_id, user).upsert_reaction(post_id, user, 1),
        LocalVote::Dislike => s.remove_reaction(post_id, user).upsert_reaction(
            post_id,
            user,
            -1i8,
        ),
        LocalVote::UndoLike => s.remove_reaction(post_id, user),
    }
}

/// Takes the vote of a local user on a post. A vote that is refused
/// changes nothing. `Ok` names the activity that is to go out.
pub fn create_post_like(
    store: &mut Store,
    score: i16,
    user: &String,
    post_id: u64,
    enable_downvotes: bool,
    community_private: bool,
    privileged: bool,
) -> (r: Result<LocalVote, APIError>)
    requires
        old(store)@.wf(),
    ensures
        final(store)@.wf(),
        match spec_vote_refusal(score, enable_downvotes, community_private, privileged) {
            Some(message) => r is Err && r->Err_0.message@ == message && final(store)@ == old(
                store,
            )@,
            None => r is Ok && r->Ok_0 == spec_local_vote(score) && final(store)@
                == spec_after_vote(old(store)@, score, user@, post_id),
        },
{
    if score == -1 && !enable_downvotes {
        return Err(APIError::err("downvotes_disabled"));
    }
    if community_private && !privileged {
        return Err(APIError::err("community_is_private"));
    }
    store.remove_reaction(post_id, user);
    if score == 1 {
        vote_post(store, VoteType::Like, user, post_id);
        Ok(LocalVote::Like)
    } else if score == -1 {
        vote_post(store, VoteType::Dislike, user, post_id);
        Ok(LocalVote::Dislike)
    } else {
        Ok(LocalVote::UndoLike)
    }
}

// ----- search -----

/// What a search looks through.
#[derive(Clone, Copy, Debug, PartialEq, Eq, Structural)]
pub enum SearchType {
    All,
    Comments,
    Posts,
    Communities,
    Users,
    Url,
}

/// The lists a search fills.
#[derive(Clone, Copy, Debug, PartialEq, Eq, Structural)]
pub struct SearchPlan {
    /// Posts that match the search term.
    pub posts: bool,
    /// Posts whose link is the search term.
    pub posts_by_url: bool,
    pub comments: bool,
    pub communities: bool,
    pub users: bool,
}

/// Which lists a search of the given type fills. A search through
/// everything leaves communities and users out when it is narrowed to a
/// community or a creator.
pub open spec fn spec_search_plan(search_type: SearchType, community_or_creator_included: bool)
    -> SearchPlan {
    SearchPlan {
        posts: search_type == SearchType::Posts || search_type == SearchType::All,
        posts_by_url: search_type == SearchType::Url,
        comments: search_type == SearchType::Comments || search_type == SearchType::All,
        communities: search_type == SearchType::Communities || (search_type == SearchType::All
            && !community_or_creator_included),
        users: search_type == SearchType::Users || (search_type == SearchType::All
            && !community_or_creator_included),
    }
}

/// Decides which lists a search fills.
pub fn search_plan(search_type: SearchType, community_or_creator_included: bool) -> (r: SearchPlan)
    ensures
        r == spec_search_plan(search_type, community_or_creator_included),
{
    let nothing = SearchPlan {
        posts: false,
        posts_by_url: false,
        comments: false,
        communities: false,
        users: false,
    };
    match search_type {
        SearchType::Posts => SearchPlan { posts: true, ..nothing },
        SearchType::Comments => SearchPlan { comments: true, ..nothing },
        SearchType::Communities => SearchPlan { communities: true, ..nothing },
        SearchType::Users => SearchPlan { users: true, ..nothing },
        SearchType::All => SearchPlan {
            posts: true,
            comments: true,
            communities: !community_or_creator_included,
            users: !community_or_creator_included,
            ..nothing
        },
        SearchType::Url => SearchPlan { posts_by_url: true, ..nothing },
    }
}

// ----- the moderation log -----

/// The kinds of entry of the moderation log. A filter names each by one
/// bit.
#[derive(Clone, Copy, Debug, PartialEq, Eq, Structural)]
pub enum ModlogActionFlag {
    RemovePost,
    LockPost,
    StickyPost,
    RemoveComment,
    BanFromCommunity,
    AddModToCommunity,
    RemoveCommunity,
    BanFromSite,
    AddMod,
}

/// The filter that lets every kind of entry through.
pub const MODLOG_ALL: u16 = 0x1ff;

impl ModlogActionFlag {
    /// The bit that stands for this kind in a filter.
    pub open spec fn spec_bit(self) -> u16 {
        match self {
            ModlogActionFlag::RemovePost => 0x001,
            ModlogActionFlag::LockPost => 0x002,
            ModlogActionFlag::StickyPost => 0x004,
            ModlogActionFlag::RemoveComment => 0x008,
            ModlogActionFlag::BanFromCommunity => 0x010,
            ModlogActionFlag::AddModToCommunity => 0x020,
            ModlogActionFlag::RemoveCommunity => 0x040,
            ModlogActionFlag::BanFromSite => 0x080,
            ModlogActionFlag::AddMod => 0x100,
        }
    }

    /// The bit that stands for this kind in a filter.
    pub fn bit(self) -> (r: u16)
        ensures
            r == self.spec_bit(),
    {
        match self {
            ModlogActionFlag::RemovePost => 0x001,
            ModlogActionFlag::LockPost => 0x002,
            ModlogActionFlag::StickyPost => 0x004,
            ModlogActionFlag::RemoveComment => 0x008,
            ModlogActionFlag::BanFromCommunity => 0x010,
            ModlogActionFlag::AddModToCommunity => 0x020,
            ModlogActionFlag::RemoveCommunity => 0x040,
            ModlogActionFlag::BanFromSite => 0x080,
            ModlogActionFlag::AddMod => 0x100,
        }
    }
}

/// The filter that a request asks for; every kind when it names none.
pub open spec fn spec_filter(action_filter: Option<u16>) -> u16 {
    match action_filter {
        Some(f) => f,
        None => MODLOG_ALL,
    }
}

/// A filter is well formed when it sets no bit beyond the nine kinds.
pub open spec fn filter_well_formed(filter: u16) -> bool {
    filter & !MODLOG_ALL == 0
}

/// Whether the log of a kind is read for a request: the filter lets the
/// kind through, and the kind can concern what the request is narrowed
/// to. Removals of communities concern no community and no other user;
/// site bans and new moderators of the site concern no community.
pub open spec fn spec_listed(
    flag: ModlogActionFlag,
    filter: u16,
    community_id: Option<i32>,
    other_user_id: Option<i32>,
) -> bool {
    filter & flag.spec_bit() != 0 && match flag {
        ModlogActionFlag::RemoveCommunity => community_id.is_none() && other_user_id.is_none(),
        ModlogActionFlag::BanFromSite | ModlogActionFlag::AddMod => community_id.is_none(),
        _ => true,
    }
}

/// Decides whether the log of a kind is read for a request.
pub fn is_listed(
    flag: ModlogActionFlag,
    filter: u16,
    community_id: Option<i32>,
    other_user_id: Option<i32>,
) -> (r: bool)
    ensures
        r == spec_listed(flag, filter, community_id, other_user_id),
{
    filter & flag.bit() != 0 && match flag {
        ModlogActionFlag::RemoveCommunity => community_id.is_none() && other_user_id.is_none(),
        ModlogActionFlag::BanFromSite | ModlogActionFlag::AddMod => community_id.is_none(),
        _ => true,
    }
}

/// Reads the filter of a request for the moderation log. A filter with
/// bits beyond the nine kinds is refused as `malformed-flags`.
pub fn modlog_filter(action_filter: Option<u16>) -> (r: Result<u16, APIError>)
    ensures
        match r {
            Ok(filter) => filter_well_formed(spec_filter(action_filter)) && filter == spec_filter(
                action_filter,
            ),
            Err(e) => !filter_well_formed(spec_filter(action_filter)) && e.message@
                == "malformed-flags"@,
        },
{
    let filter = match action_filter {
        Some(f) => f,
        None => MODLOG_ALL,
    };
    if filter & !MODLOG_ALL == 0 {
        Ok(filter)
    } else {
        Err(APIError::err("malformed-flags"))
    }
}

// ----- sign-in -----

/// How a site takes new users.
#[derive(Clone, Copy, Debug, PartialEq, Eq, Structural)]
pub enum RegistrationMode {
    Closed,
    RequireApplication,
    Open,
}

/// Why a user may not sign in for want of an accepted application.
#[derive(Clone, Copy, Debug, PartialEq, Eq, Structural)]
pub enum RegistrationError {
    CouldntFindRegistrationApplication,
    RegistrationDenied,
    RegistrationApplicationIsPending,
}

/// Whether a user has to have an application on file before signing in:
/// the site takes users by application or not at all, and the user is
/// neither accepted nor an admin.
pub open spec fn application_required(
    mode: RegistrationMode,
    accepted_application: bool,
    admin: bool,
) -> bool {
    (mode == RegistrationMode::RequireApplication || mode == RegistrationMode::Closed)
        && !accepted_application && !admin
}

/// Decides whether a user has to have an application on file.
pub fn needs_application(mode: RegistrationMode, accepted_application: bool, admin: bool) -> (r:
    bool)
    ensures
        r == application_required(mode, accepted_application, admin),
{
    (match mode {
        RegistrationMode::RequireApplication | RegistrationMode::Closed => true,
        RegistrationMode::Open => false,
    }) && !accepted_application && !admin
}

/// Decides whether a user may sign in as far as applications go.
/// `application` says whether the user's application was found and, if
/// so, whether an admin has dealt with it. A user who needs an
/// application and is not yet accepted is refused: the application is
/// missing, was denied, or is still pending.
pub fn check_registration_application(
    mode: RegistrationMode,
    accepted_application: bool,
    admin: bool,
    application: Option<bool>,
) -> (r: Result<(), RegistrationError>)
    ensures
        r == if !application_required(mode, accepted_application, admin) {
            Ok::<(), RegistrationError>(())
        } else {
            match application {
                None => Err::<(), RegistrationError>(
                    RegistrationError::CouldntFindRegistrationApplication,
                ),
                Some(true) => Err::<(), RegistrationError>(RegistrationError::RegistrationDenied),
                Some(false) => Err::<(), RegistrationError>(
                    RegistrationError::RegistrationApplicationIsPending,
                ),
            }
        },
{
    if needs_application(mode, accepted_application, admin) {
        match application {
            None => Err(RegistrationError::CouldntFindRegistrationApplication),
            Some(true) => Err(RegistrationError::RegistrationDenied),
            Some(false) => Err(RegistrationError::RegistrationApplicationIsPending),
        }
    } else {
        Ok(())
    }
}

/// What is to be done about the device cookie of a user who signs in.
#[derive(Debug)]
pub enum CookieDecision {
    /// The user has no cookie on file: a new one is made.
    Create,
    /// The user keeps using this cookie, which is on file.
    Use(String),
    /// This cookie, found for the user, is put on file for the user and
    /// used.
    Associate(String),
}

/// The first of the cookies on file that equals the incoming one.
pub open spec fn on_file(known: Seq<String>, cookie: Seq<char>) -> bool {
    exists|i: int| 0 <= i < known.len() && (#[trigger] known[i])@ == cookie
}

/// Decides on the device cookie of a user who signs in. `known` are the
/// cookies on file for the user, `found_other` is the incoming cookie if
/// it is found for the user. With nothing on file and nothing found a new
/// cookie is made. An incoming cookie that is on file is used. Otherwise
/// the first cookie on file is used if nothing was found, and the found
/// cookie is put on file if one was.
pub fn process_cookie(cookie_val: &String, known: &Vec<String>, found_other: &Option<String>) -> (r:
    CookieDecision)
    ensures
        known@.len() == 0 && found_other.is_none() ==> r is Create,
        !(known@.len() == 0 && found_other.is_none()) && on_file(known@, cookie_val@) ==> r is Use
            && r->Use_0@ == cookie_val@,
        known@.len() > 0 && !on_file(known@, cookie_val@) && found_other.is_none() ==> r is Use
            && r->Use_0@ == known@[0]@,
        !on_file(known@, cookie_val@) && found_other.is_some() ==> r is Associate
            && r->Associate_0@ == found_other.unwrap()@,
{
    if known.len() == 0 && found_other.is_none() {
        return CookieDecision::Create;
    }
    let mut i: usize = 0;
    while i < known.len()
        invariant
            i <= known.len(),
            forall|j: int| 0 <= j < i ==> (#[trigger] known@[j])@ != cookie_val@,
        decreases known.len() - i,
    {
        if known[i] == *cookie_val {
            return CookieDecision::Use(cookie_val.clone());
        }
        i += 1;
    }
    match found_other {
        None => CookieDecision::Use(known[0].clone()),
        Some(found) => CookieDecision::Associate(found.clone()),
    }
}

/// What is to be done when a user shows up with a ban id.
#[derive(Clone, Copy, Debug, PartialEq, Eq, Structural)]
pub enum BanIdAction {
    /// The user keeps the ban id it has.
    Keep,
    /// The ban id the user has is written over with the incoming one.
    OverwritingAssociate,
    /// The user, who has none, gets this ban id.
    SimpleAssociate(u128),
}

/// Decides what to do when a user shows up with a ban id. `existing` is
/// the ban id on file for the user, `incoming_alias` the ban id that the
/// incoming one is an alias of. A user with another ban id on file gets
/// it written over, unless the incoming one is an alias of it. A user
/// with none on file gets the incoming one, or what it is an alias of.
pub fn associate(existing: Option<u128>, incoming: u128, incoming_alias: Option<u128>) -> (r:
    BanIdAction)
    ensures
        r == match existing {
            Some(old) => if old != incoming && incoming_alias != Some(old) {
                BanIdAction::OverwritingAssociate
            } else {
                BanIdAction::Keep
            },
            None => match incoming_alias {
                Some(alias) => BanIdAction::SimpleAssociate(alias),
                None => BanIdAction::SimpleAssociate(incoming),
            },
        },
{
    match existing {
        Some(old) => {
            if old != incoming {
                let aliased = match incoming_alias {
                    Some(alias) => alias == old,
                    None => false,
                };
                if !aliased {
                    return BanIdAction::OverwritingAssociate;
                }
            }
            BanIdAction::Keep
        },
        None => match incoming_alias {
            Some(alias) => BanIdAction::SimpleAssociate(alias),
            None => BanIdAction::SimpleAssociate(incoming),
        },
    }
}

/// What is to be done about the sign-in token of a request.
#[derive(Clone, Copy, Debug, PartialEq, Eq, Structural)]
pub enum TokenAction {
    /// The token stands as it is.
    Keep,
    /// The token is about to run out and is renewed.
    Renew,
}

/// A sign-in token as it is stored. Times are seconds since the epoch.
#[derive(Clone, Copy, Debug, PartialEq, Eq, Structural)]
pub struct TokenState {
    pub is_revoked: bool,
    pub expires_at: i64,
}

/// Decides on the token of a request: an unknown or revoked token means
/// `not_logged_in`; a token that runs out within the renewal window is
/// renewed.
pub fn validate_token(token: Option<TokenState>, now: i64, renew_window_minutes: i32) -> (r:
    Result<TokenAction, APIError>)
    ensures
        match r {
            Ok(action) => token.is_some() && !token.unwrap().is_revoked && action == (if token.unwrap().expires_at
                < now + renew_window_minutes * 60 {
                TokenAction::Renew
            } else {
                TokenAction::Keep
            }),
            Err(e) => (token.is_none() || token.unwrap().is_revoked) && e.message@
                == "not_logged_in"@,
        },
{
    let token = match token {
        Some(token) => token,
        None => {
            return Err(APIError::err("not_logged_in"));
        },
    };
    if token.is_revoked {
        return Err(APIError::err("not_logged_in"));
    }
    let time_to_refresh: i128 = (now as i128) + (renew_window_minutes as i128) * 60;
    if (token.expires_at as i128) < time_to_refresh {
        Ok(TokenAction::Renew)
    } else {
        Ok(TokenAction::Keep)
    }
}

} // verus!
