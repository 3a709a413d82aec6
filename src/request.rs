//! The requests made for one pull request, and how their answers are judged.

use vstd::prelude::*;
use vstd::string::*;
use crate::text::{decimal, decimal_of};

verus! {

/// Why fetching the data of a pull request failed. Each of them ends the run.
#[derive(Clone, Copy, Debug, PartialEq, Eq, Structural)]
pub enum FetchError {
    /// The token cannot stand in an `Authorization` header.
    InvalidToken,
    /// The request could not be sent or its answer not read.
    Transport,
    /// The service answered with a status outside 200..=299.
    Status(u16),
    /// The answer's body did not have the expected shape.
    Parse,
}

/// The two resources fetched for each pull request.
#[derive(Clone, Copy, Debug, PartialEq, Eq, Structural)]
pub enum Endpoint {
    /// The pull request itself, for its title.
    Title,
    /// The list of its commits.
    Commits,
}

/// A GET request, ready to be sent.
pub struct Request {
    pub url: String,
    pub authorization: String,
    pub user_agent: String,
}

/// The client name sent in the `User-Agent` header of every request.
pub const USER_AGENT: &'static str = "rust-client";

/// Whether a header value may hold `c`: a tab, or any character from the
/// space on but the delete character. Characters outside ASCII are encoded
/// in bytes from 128 on, which are all accepted.
pub open spec fn header_char_ok(c: char) -> bool {
    (c as u32 >= 32 && c as u32 != 127) || c == '\t'
}

/// Whether each character of `s` may stand in a header value.
pub open spec fn header_value_ok(s: Seq<char>) -> bool {
    forall|i: int| 0 <= i < s.len() ==> header_char_ok(#[trigger] s[i])
}

/// Relies on `reqwest::header::HeaderValue::from_str` (the `http` crate's
/// `HeaderValue`): it succeeds exactly when every byte of the text is a tab,
/// or is at least 32 and not 127.
#[verifier::external_body]
fn is_valid_header_value(s: &str) -> (r: bool)
    ensures
        r == header_value_ok(s@),
{
    reqwest::header::HeaderValue::from_str(s).is_ok()
}

/// The address of the pull request `pr_number` of `owner/repo`, or of its
/// list of commits.
pub open spec fn endpoint_url(owner: Seq<char>, repo: Seq<char>, pr_number: u32, endpoint: Endpoint) -> Seq<char> {
    let base = "https://api.github.com/repos/"@ + owner + "/"@ + repo + "/pulls/"@ + decimal(
        pr_number as nat,
    );
    match endpoint {
        Endpoint::Title => base,
        Endpoint::Commits => base + "/commits"@,
    }
}

/// The value of the `Authorization` header for `token`.
pub open spec fn authorization(token: Seq<char>) -> Seq<char> {
    "token "@ + token
}

/// The address of `endpoint` for the pull request `pr_number` of `owner/repo`.
pub fn url_of(owner: &str, repo: &str, pr_number: u32, endpoint: Endpoint) -> (r: String)
    ensures
        r@ == endpoint_url(owner@, repo@, pr_number, endpoint),
{
    let mut r = String::from_str("https://api.github.com/repos/");
    r.append(owner);
    r.append("/");
    r.append(repo);
    r.append("/pulls/");
    r.append(decimal_of(pr_number).as_str());
    match endpoint {
        Endpoint::Title => {},
        Endpoint::Commits => {
            r.append("/commits");
        },
    }
    r
}

/// The `Authorization` header value for `token`, or `InvalidToken` when the
/// token holds a character that a header value cannot.
pub fn authorization_of(token: &str) -> (r: Result<String, FetchError>)
    ensures
        header_value_ok(token@) ==> r is Ok && r->Ok_0@ == authorization(token@),
        !header_value_ok(token@) ==> r == Err::<String, FetchError>(FetchError::InvalidToken),
{
    let mut value = String::from_str("token ");
    value.append(token);
    let ok = is_valid_header_value(value.as_str());
    proof {
        reveal_strlit("token ");
        assert(value@ == "token "@ + token@);
        if header_value_ok(token@) {
            assert forall|i: int| 0 <= i < value@.len() implies header_char_ok(
                #[trigger] value@[i],
            ) by {
                if i >= 6 {
                    assert(value@[i] == token@[i - 6]);
                }
            }
        } else {
            let j = choose|j: int| 0 <= j < token@.len() && !header_char_ok(#[trigger] token@[j]);
            assert(value@[j + 6] == token@[j]);
        }
    }
    if ok {
        Ok(value)
    } else {
        Err(FetchError::InvalidToken)
    }
}

/// The request for `endpoint` of the pull request `pr_number` of
/// `owner/repo`, authenticated with `token`.
pub fn build_request(owner: &str, repo: &str, pr_number: u32, token: &str, endpoint: Endpoint) -> (r: Result<Request, FetchError>)
    ensures
        header_value_ok(token@) ==> r is Ok && r->Ok_0.url@ == endpoint_url(owner@, repo@, pr_number, endpoint)
            && r->Ok_0.authorization@ == authorization(token@) && r->Ok_0.user_agent@ == USER_AGENT@,
        !header_value_ok(token@) ==> r is Err && r->Err_0 == FetchError::InvalidToken,
{
    match authorization_of(token) {
        Ok(authorization) => Ok(Request {
            url: url_of(owner, repo, pr_number, endpoint),
            authorization,
            user_agent: String::from_str(USER_AGENT),
        }),
        Err(e) => Err(e),
    }
}

/// Whether an answer with HTTP status `status` may be read: only a status
/// from 200 to 299 may, any other is the error `Status(status)`.
pub fn check_status(status: u16) -> (r: Result<(), FetchError>)
    ensures
        200 <= status <= 299 <==> r is Ok,
        !(200 <= status <= 299) ==> r == Err::<(), FetchError>(FetchError::Status(status)),
{
    if 200 <= status && status <= 299 {
        Ok(())
    } else {
        Err(FetchError::Status(status))
    }
}

} // verus!
