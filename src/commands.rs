//! The command layer: the shapes handed to the user interface, and the
//! decisions that compose the credential store and the API client.
use vstd::prelude::*;

use crate::error::{error_text, AppError};
use crate::vrc_api::{
    parse_visibility, parsed_visibility, plans, visibility_body, visibility_name,
    visibility_request, ApiRequest, HttpMethod, VRCGroup, VRCUser, BASE_URL,
};

verus! {

/// A user as the interface shows it.
#[derive(Debug, Clone)]
pub struct UserResponse {
    pub id: String,
    pub username: String,
    pub display_name: String,
    pub avatar_url: Option<String>,
}

/// A group as the interface shows it; the visibility is its lowercase name.
#[derive(Debug, Clone)]
pub struct GroupResponse {
    pub group_id: String,
    pub name: String,
    pub member_visibility: String,
    pub icon_url: Option<String>,
    pub member_count: Option<i32>,
    pub created_at: Option<String>,
}

/// What a successful login hands to the interface.
#[derive(Debug, Clone)]
pub struct LoginResponse {
    pub user: UserResponse,
}

/// The user name shown for `u`: empty where the API gave none.
pub open spec fn shown_username(u: VRCUser) -> Seq<char> {
    match u.username {
        Some(n) => n@,
        None => Seq::empty(),
    }
}

/// `r` shows the user `u`.
pub open spec fn shows_user(r: UserResponse, u: VRCUser) -> bool {
    &&& r.id == u.id
    &&& r.username@ == shown_username(u)
    &&& r.display_name == u.display_name
    &&& r.avatar_url == u.avatar_url
}

/// `r` shows the group `g`.
pub open spec fn shows_group(r: GroupResponse, g: VRCGroup) -> bool {
    &&& r.group_id == g.group_id
    &&& r.name == g.name
    &&& r.member_visibility@ == visibility_name(g.member_visibility)
    &&& r.icon_url == g.icon_url
    &&& r.member_count == g.member_count
    &&& r.created_at == g.created_at
}

/// The interface's view of a fetched user.
pub fn user_to_response(user: VRCUser) -> (r: UserResponse)
    ensures
        shows_user(r, user),
{
    let username = match user.username {
        Some(n) => n,
        None => String::new(),
    };
    UserResponse {
        id: user.id,
        username,
        display_name: user.display_name,
        avatar_url: user.avatar_url,
    }
}

/// The result of a login whose user fetch returned `user`.
pub fn login_response(user: VRCUser) -> (r: LoginResponse)
    ensures
        shows_user(r.user, user),
{
    LoginResponse { user: user_to_response(user) }
}

/// The interface's view of a fetched group.
pub fn group_to_response(group: VRCGroup) -> (r: GroupResponse)
    ensures
        shows_group(r, group),
{
    let member_visibility = group.member_visibility.to_string();
    GroupResponse {
        group_id: group.group_id,
        name: group.name,
        member_visibility,
        icon_url: group.icon_url,
        member_count: group.member_count,
        created_at: group.created_at,
    }
}

/// The interface's view of each fetched group, in the same order.
pub fn groups_to_responses(groups: Vec<VRCGroup>) -> (r: Vec<GroupResponse>)
    ensures
        r@.len() == groups@.len(),
        forall|i: int| 0 <= i < r@.len() ==> shows_group(#[trigger] r@[i], groups@[i]),
{
    let ghost all = groups@;
    let mut rest = groups;
    let mut out: Vec<GroupResponse> = Vec::new();
    while rest.len() > 0
        invariant
            out@.len() + rest@.len() == all.len(),
            rest@ == all.subrange(out@.len() as int, all.len() as int),
            forall|i: int| 0 <= i < out@.len() ==> shows_group(#[trigger] out@[i], all[i]),
        decreases rest@.len(),
    {
        let g = rest.remove(0);
        assert(g == all[out@.len() as int]);
        out.push(group_to_response(g));
        assert(rest@ =~= all.subrange(out@.len() as int, all.len() as int));
    }
    out
}

/// Why a command failed.
#[derive(Debug, Clone)]
pub enum CommandError {
    /// The command needs the stored token and none is stored.
    TokenNotFound,
    /// A failure of the store or of the API.
    App(AppError),
}

/// The text that the interface receives for a failed command.
pub open spec fn command_error_text(e: CommandError) -> Seq<char> {
    match e {
        CommandError::TokenNotFound => "Token not found"@,
        CommandError::App(a) => error_text(a@),
    }
}

impl CommandError {
    /// The text that the interface receives for this failure.
    pub fn message(&self) -> (r: String)
        ensures
            r@ == command_error_text(*self),
    {
        match self {
            CommandError::TokenNotFound => String::from_str("Token not found"),
            CommandError::App(a) => a.message(),
        }
    }
}

/// The token to go on with, from what loading the stored token gave: no
/// stored token is `TokenNotFound`, and the command stops there.
pub fn require_token(loaded: Result<Option<String>, AppError>) -> (r: Result<String, CommandError>)
    ensures
        match loaded {
            Ok(Some(t)) => r == Ok::<String, CommandError>(t),
            Ok(None) => r == Err::<String, CommandError>(CommandError::TokenNotFound),
            Err(e) => r == Err::<String, CommandError>(CommandError::App(e)),
        },
{
    match loaded {
        Ok(Some(t)) => Ok(t),
        Ok(None) => Err(CommandError::TokenNotFound),
        Err(e) => Err(CommandError::App(e)),
    }
}

/// The request that sets the visibility named `visibility` for the user
/// `user_id` in the group `group_id`; a name that is not one of the three is
/// refused with `Unknown` before any request is made.
pub fn visibility_update(token: &str, user_id: &str, group_id: &str, visibility: &str) -> (r: Result<
    ApiRequest,
    AppError,
>)
    ensures
        match parsed_visibility(visibility@) {
            Ok(v) => plans(
                r,
                token@,
                HttpMethod::Put,
                BASE_URL@ + "/groups/"@ + group_id@ + "/members/"@ + user_id@,
                Some(visibility_body(v)),
            ),
            Err(e) => r is Err && r->Err_0@ == e,
        },
{
    let v = parse_visibility(visibility)?;
    visibility_request(token, user_id, group_id, v)
}

} // verus!
