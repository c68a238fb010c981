//! The API client's logic: the wire names of a member's visibility, the
//! requests that each operation sends, and the translation of a response's
//! status and decoded body into a result.
use vstd::prelude::*;

use crate::error::{AppError, ErrorView};
use crate::text::{decimal, decimal_string, join, same_text};
use reqwest::header::HeaderValue;

verus! {

/// Whether a member of a group is shown to others.
#[derive(Debug, Clone, Copy, PartialEq, Eq, Structural)]
pub enum GroupMemberVisibility {
    Visible,
    Friends,
    Hidden,
}

/// The three visibilities, in the order in which names are looked up.
pub const ALL_VISIBILITIES: [GroupMemberVisibility; 3] = [
    GroupMemberVisibility::Visible,
    GroupMemberVisibility::Friends,
    GroupMemberVisibility::Hidden,
];

/// The one mapping between visibilities and their lowercase names.
pub open spec fn visibility_name(v: GroupMemberVisibility) -> Seq<char> {
    match v {
        GroupMemberVisibility::Visible => "visible"@,
        GroupMemberVisibility::Friends => "friends"@,
        GroupMemberVisibility::Hidden => "hidden"@,
    }
}

/// The visibility whose name is `s`, if any.
pub open spec fn visibility_of(s: Seq<char>) -> Option<GroupMemberVisibility> {
    if s == visibility_name(GroupMemberVisibility::Visible) {
        Some(GroupMemberVisibility::Visible)
    } else if s == visibility_name(GroupMemberVisibility::Friends) {
        Some(GroupMemberVisibility::Friends)
    } else if s == visibility_name(GroupMemberVisibility::Hidden) {
        Some(GroupMemberVisibility::Hidden)
    } else {
        None
    }
}

/// What `parse_visibility` returns for the name `s`.
pub open spec fn parsed_visibility(s: Seq<char>) -> Result<GroupMemberVisibility, ErrorView> {
    match visibility_of(s) {
        Some(v) => Ok(v),
        None => Err(ErrorView::Unknown("Invalid visibility: "@ + s)),
    }
}

impl GroupMemberVisibility {
    /// The lowercase name of this visibility.
    pub fn as_str(&self) -> (r: &'static str)
        ensures
            r@ == visibility_name(*self),
    {
        match self {
            GroupMemberVisibility::Visible => "visible",
            GroupMemberVisibility::Friends => "friends",
            GroupMemberVisibility::Hidden => "hidden",
        }
    }

    /// The lowercase name of this visibility, as a new string.
    pub fn to_string(&self) -> (r: String)
        ensures
            r@ == visibility_name(*self),
    {
        String::from_str(self.as_str())
    }
}

/// Names, one for one, the three visibilities: each name reads back as its
/// visibility.
pub proof fn lemma_visibility_round_trip(v: GroupMemberVisibility)
    ensures
        visibility_of(visibility_name(v)) == Some(v),
        parsed_visibility(visibility_name(v)) == Ok::<GroupMemberVisibility, ErrorView>(v),
{
    reveal_strlit("visible");
    reveal_strlit("friends");
    reveal_strlit("hidden");
    assert("visible"@[0] != "friends"@[0]);
    assert("visible"@[0] != "hidden"@[0]);
    assert("friends"@[0] != "hidden"@[0]);
}

/// Reads a visibility from its lowercase name; any other text is refused
/// with `Unknown`.
pub fn parse_visibility(visibility: &str) -> (r: Result<GroupMemberVisibility, AppError>)
    ensures
        match r {
            Ok(v) => parsed_visibility(visibility@) == Ok::<GroupMemberVisibility, ErrorView>(v),
            Err(e) => parsed_visibility(visibility@) == Err::<GroupMemberVisibility, ErrorView>(e@),
        },
{
    let mut i: usize = 0;
    while i < 3
        invariant
            i <= 3,
            forall|j: int| 0 <= j < i ==> visibility_name(#[trigger] ALL_VISIBILITIES[j]) != visibility@,
        decreases 3 - i,
    {
        let v = ALL_VISIBILITIES[i];
        if same_text(v.as_str(), visibility) {
            return Ok(v);
        }
        i = i + 1;
    }
    assert(visibility_name(ALL_VISIBILITIES[0]) != visibility@);
    assert(visibility_name(ALL_VISIBILITIES[1]) != visibility@);
    assert(visibility_name(ALL_VISIBILITIES[2]) != visibility@);
    Err(AppError::Unknown(join("Invalid visibility: ", visibility)))
}

/// A user as the API describes the current user.
#[derive(Debug, Clone)]
pub struct VRCUser {
    pub id: String,
    pub username: Option<String>,
    pub display_name: String,
    pub avatar_url: Option<String>,
}

/// A group that the current user belongs to.
#[derive(Debug, Clone)]
pub struct VRCGroup {
    pub name: String,
    pub description: String,
    pub icon_url: Option<String>,
    pub member_count: Option<i32>,
    pub group_id: String,
    pub member_visibility: GroupMemberVisibility,
    pub is_representing: Option<bool>,
    pub created_at: Option<String>,
}

/// The client-identifying header value sent with every request.
pub const USER_AGENT: &'static str = "VRC Group Manager/0.2.3 discord:takadayoo_1203";

/// Every request's URL starts with this.
pub const BASE_URL: &'static str = "https://api.vrchat.cloud/api/1";

/// How long a request may take, in seconds.
pub const TIMEOUT_SECS: u64 = 30;

/// Whether a header value may hold the character `c`: a tab, or anything
/// from the space on but the delete character. A character outside ASCII is
/// encoded in bytes of 128 and more, all of which are accepted.
pub open spec fn header_char_ok(c: char) -> bool {
    c == '\t' || (c as u32 >= 32 && c as u32 != 127)
}

/// Whether a header value may hold the text `t`.
pub open spec fn fits_header(t: Seq<char>) -> bool {
    forall|i: int| 0 <= i < t.len() ==> header_char_ok(#[trigger] t[i])
}

#[verifier::external_type_specification]
#[verifier::external_body]
pub struct ExHeaderValue(HeaderValue);

/// The text that the header value `h` holds.
pub uninterp spec fn header_text(h: HeaderValue) -> Seq<char>;

/// Relies on http's HeaderValue::from_str (re-exported by reqwest): it
/// accepts a text exactly when every byte is a tab, or at least 32 and not
/// 127, keeps a copy of the text's bytes, and its error reads "failed to
/// parse header value".
#[verifier::external_body]
fn header_value(s: &str) -> (r: Result<HeaderValue, String>)
    ensures
        r is Ok <==> fits_header(s@),
        r is Ok ==> header_text(r->Ok_0) == s@,
        r is Err ==> r->Err_0@ == "failed to parse header value"@,
{
    match HeaderValue::from_str(s) {
        Ok(v) => Ok(v),
        Err(e) => Err(e.to_string()),
    }
}

/// The error for a token that no cookie header can carry.
pub open spec fn invalid_token_error() -> ErrorView {
    ErrorView::Auth("Invalid token format: "@ + "failed to parse header value"@)
}

/// The cookie header that carries `token`: `auth=<token>`. It is refused with
/// `Auth` when the token holds a character that a header cannot.
pub fn auth_cookie(token: &str) -> (r: Result<HeaderValue, AppError>)
    ensures
        r is Ok <==> fits_header(token@),
        r is Ok ==> header_text(r->Ok_0) == "auth="@ + token@,
        r is Err ==> r->Err_0@ == invalid_token_error(),
{
    let text = join("auth=", token);
    proof {
        reveal_strlit("auth=");
        let p = "auth="@;
        assert(fits_header(p));
        if fits_header(token@) {
            assert forall|i: int| 0 <= i < text@.len() implies header_char_ok(#[trigger] text@[i]) by {
                if i >= p.len() {
                    assert(text@[i] == token@[i - p.len()]);
                }
            }
        } else {
            let j = choose|j: int| 0 <= j < token@.len() && !header_char_ok(#[trigger] token@[j]);
            assert(text@[j + p.len()] == token@[j]);
        }
    }
    match header_value(text.as_str()) {
        Ok(v) => Ok(v),
        Err(e) => Err(AppError::Auth(join("Invalid token format: ", e.as_str()))),
    }
}

/// The HTTP method of a request.
#[derive(Debug, Clone, Copy, PartialEq, Eq, Structural)]
pub enum HttpMethod {
    Get,
    Put,
}

/// A request as an operation sends it, with its `User-Agent` and `Cookie`
/// headers and the longest it may take. A body is JSON.
#[derive(Debug)]
pub struct ApiRequest {
    pub method: HttpMethod,
    pub url: String,
    pub user_agent: HeaderValue,
    pub cookie: HeaderValue,
    pub timeout_secs: u64,
    pub body: Option<String>,
}

/// The characters of an optional text.
pub open spec fn opt_view(o: Option<String>) -> Option<Seq<char>> {
    match o {
        Some(s) => Some(s@),
        None => None,
    }
}

/// `r` is the request with this method, URL and body, identified by
/// `USER_AGENT`, authenticated by the cookie `auth=<token>` and limited to
/// `TIMEOUT_SECS`; or, where no header can carry the token, the `Auth` error.
pub open spec fn plans(
    r: Result<ApiRequest, AppError>,
    token: Seq<char>,
    method: HttpMethod,
    url: Seq<char>,
    body: Option<Seq<char>>,
) -> bool {
    match r {
        Ok(q) => {
            &&& fits_header(token)
            &&& q.method == method
            &&& q.url@ == url
            &&& opt_view(q.body) == body
            &&& header_text(q.user_agent) == USER_AGENT@
            &&& header_text(q.cookie) == "auth="@ + token
            &&& q.timeout_secs == TIMEOUT_SECS
        },
        Err(e) => !fits_header(token) && e@ == invalid_token_error(),
    }
}

fn authenticated(token: &str, method: HttpMethod, url: String, body: Option<String>) -> (r: Result<
    ApiRequest,
    AppError,
>)
    ensures
        plans(r, token@, method, url@, opt_view(body)),
{
    let cookie = auth_cookie(token)?;
    proof {
        reveal_strlit("VRC Group Manager/0.2.3 discord:takadayoo_1203");
    }
    assert(fits_header(USER_AGENT@));
    let user_agent = match header_value(USER_AGENT) {
        Ok(v) => v,
        Err(_) => unreached(),
    };
    Ok(ApiRequest { method, url, user_agent, cookie, timeout_secs: TIMEOUT_SECS, body })
}

/// The request that fetches the current user: `GET /auth/user`.
pub fn user_request(token: &str) -> (r: Result<ApiRequest, AppError>)
    ensures
        plans(r, token@, HttpMethod::Get, BASE_URL@ + "/auth/user"@, None),
{
    authenticated(token, HttpMethod::Get, join(BASE_URL, "/auth/user"), None)
}

/// The request that lists a user's groups: `GET /users/{user_id}/groups`.
pub fn groups_request(token: &str, user_id: &str) -> (r: Result<ApiRequest, AppError>)
    ensures
        plans(r, token@, HttpMethod::Get, BASE_URL@ + "/users/"@ + user_id@ + "/groups"@, None),
{
    let mut url = join(BASE_URL, "/users/");
    url.append(user_id);
    url.append("/groups");
    authenticated(token, HttpMethod::Get, url, None)
}

/// The request that lists the groups a user represents:
/// `GET /users/{user_id}/groups/represented`.
pub fn represented_groups_request(token: &str, user_id: &str) -> (r: Result<ApiRequest, AppError>)
    ensures
        plans(
            r,
            token@,
            HttpMethod::Get,
            BASE_URL@ + "/users/"@ + user_id@ + "/groups/represented"@,
            None,
        ),
{
    let mut url = join(BASE_URL, "/users/");
    url.append(user_id);
    url.append("/groups/represented");
    authenticated(token, HttpMethod::Get, url, None)
}

/// The JSON body that sets a member's visibility.
pub open spec fn visibility_body(v: GroupMemberVisibility) -> Seq<char> {
    "{\"visibility\":\""@ + visibility_name(v) + "\"}"@
}

/// The request that sets the user's visibility in a group:
/// `PUT /groups/{group_id}/members/{user_id}`.
pub fn visibility_request(
    token: &str,
    user_id: &str,
    group_id: &str,
    visibility: GroupMemberVisibility,
) -> (r: Result<ApiRequest, AppError>)
    ensures
        plans(
            r,
            token@,
            HttpMethod::Put,
            BASE_URL@ + "/groups/"@ + group_id@ + "/members/"@ + user_id@,
            Some(visibility_body(visibility)),
        ),
{
    let mut url = join(BASE_URL, "/groups/");
    url.append(group_id);
    url.append("/members/");
    url.append(user_id);
    let mut body = join("{\"visibility\":\"", visibility.as_str());
    body.append("\"}");
    authenticated(token, HttpMethod::Put, url, Some(body))
}

/// The JSON body that sets whether a group is the one represented.
pub open spec fn representation_body(is_representing: bool) -> Seq<char> {
    "{\"isRepresenting\":"@ + (if is_representing {
        "true"@
    } else {
        "false"@
    }) + "}"@
}

/// The request that makes a group the represented one, or stops it being so:
/// `PUT /groups/{group_id}/representation`.
pub fn representation_request(token: &str, group_id: &str, is_representing: bool) -> (r: Result<
    ApiRequest,
    AppError,
>)
    ensures
        plans(
            r,
            token@,
            HttpMethod::Put,
            BASE_URL@ + "/groups/"@ + group_id@ + "/representation"@,
            Some(representation_body(is_representing)),
        ),
{
    let mut url = join(BASE_URL, "/groups/");
    url.append(group_id);
    url.append("/representation");
    let mut body = String::from_str("{\"isRepresenting\":");
    if is_representing {
        body.append("true");
    } else {
        body.append("false");
    }
    body.append("}");
    authenticated(token, HttpMethod::Put, url, Some(body))
}

/// Whether a status is a success (2xx).
pub open spec fn is_success(status: u16) -> bool {
    200 <= status <= 299
}

/// The error for a response with status `status`, where it is not a success.
pub open spec fn status_error(status: u16) -> ErrorView {
    if status == 401 {
        ErrorView::Auth("Invalid or expired token"@)
    } else if status == 403 {
        ErrorView::Auth("Forbidden: insufficient permissions"@)
    } else if status == 429 {
        ErrorView::RateLimit
    } else if status == 404 {
        ErrorView::Http { status, message: "Resource not found"@ }
    } else if 500 <= status <= 599 {
        ErrorView::Http { status, message: "Server error"@ }
    } else {
        ErrorView::Http { status, message: "HTTP error: "@ + decimal(status as nat) }
    }
}

/// The error that a response with this status is reported as.
pub fn create_http_error(status: u16) -> (r: AppError)
    ensures
        r@ == status_error(status),
{
    if status == 401 {
        AppError::Auth(String::from_str("Invalid or expired token"))
    } else if status == 403 {
        AppError::Auth(String::from_str("Forbidden: insufficient permissions"))
    } else if status == 429 {
        AppError::RateLimit
    } else if status == 404 {
        AppError::Http { status, message: String::from_str("Resource not found") }
    } else if 500 <= status && status <= 599 {
        AppError::Http { status, message: String::from_str("Server error") }
    } else {
        AppError::Http { status, message: join("HTTP error: ", decimal_string(status).as_str()) }
    }
}

/// `Ok` for a success, else the status's error.
pub fn check_status(status: u16) -> (r: Result<(), AppError>)
    ensures
        r is Ok <==> is_success(status),
        r is Err ==> r->Err_0@ == status_error(status),
{
    if 200 <= status && status <= 299 {
        Ok(())
    } else {
        Err(create_http_error(status))
    }
}

/// What an operation returns for a response with status `status` whose body
/// was decoded, or failed to decode with the error text in `decoded`: the
/// status's error unless it is a success, else the decoded value, else a
/// `Json` error that starts with `context` and keeps the decoder's text.
pub open spec fn response_outcome<T>(
    status: u16,
    decoded: Result<T, String>,
    context: Seq<char>,
    r: Result<T, AppError>,
) -> bool {
    if !is_success(status) {
        r is Err && r->Err_0@ == status_error(status)
    } else {
        match decoded {
            Ok(v) => r == Ok::<T, AppError>(v),
            Err(m) => r is Err && r->Err_0@ == ErrorView::Json(context + m@),
        }
    }
}

/// The result of fetching the current user, from the response's status and
/// its decoded body.
pub fn user_outcome(status: u16, decoded: Result<VRCUser, String>) -> (r: Result<VRCUser, AppError>)
    ensures
        response_outcome(status, decoded, "Failed to decode user data: "@, r),
{
    if let Err(e) = check_status(status) {
        return Err(e);
    }
    match decoded {
        Ok(user) => Ok(user),
        Err(m) => Err(AppError::Json(join("Failed to decode user data: ", m.as_str()))),
    }
}

/// The result of fetching a list of groups, from the response's status and
/// its decoded body.
pub fn groups_outcome(status: u16, decoded: Result<Vec<VRCGroup>, String>) -> (r: Result<
    Vec<VRCGroup>,
    AppError,
>)
    ensures
        response_outcome(status, decoded, "Failed to decode groups data: "@, r),
{
    if let Err(e) = check_status(status) {
        return Err(e);
    }
    match decoded {
        Ok(groups) => Ok(groups),
        Err(m) => Err(AppError::Json(join("Failed to decode groups data: ", m.as_str()))),
    }
}

/// A token that holds a control character (below the space, but the tab, or
/// the delete character) is refused with `Auth` by every request builder.
pub proof fn lemma_control_char_refused(
    token: Seq<char>,
    i: int,
    method: HttpMethod,
    url: Seq<char>,
    body: Option<Seq<char>>,
    r: Result<ApiRequest, AppError>,
)
    requires
        0 <= i < token.len(),
        (token[i] as u32) < 32 && token[i] != '\t' || token[i] as u32 == 127,
        plans(r, token, method, url, body),
    ensures
        r is Err,
        r->Err_0@ is Auth,
{
    assert(!header_char_ok(token[i]));
}

/// A body that fails to decode after a successful status gives a `Json`
/// error whose text ends with the decoder's own text.
pub proof fn lemma_decode_failure_keeps_text<T>(
    status: u16,
    decoder_text: String,
    context: Seq<char>,
    r: Result<T, AppError>,
)
    requires
        is_success(status),
        response_outcome(status, Err::<T, String>(decoder_text), context, r),
    ensures
        r is Err,
        r->Err_0@ is Json,
        r->Err_0@->Json_0.subrange(
            context.len() as int,
            r->Err_0@->Json_0.len() as int,
        ) == decoder_text@,
{
    let d = r->Err_0@->Json_0;
    assert(d =~= context + decoder_text@);
    assert(d.subrange(context.len() as int, d.len() as int) =~= decoder_text@);
}

} // verus!
