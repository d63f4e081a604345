use vstd::prelude::*;

use crate::text::replace_all;
use crate::utilities::{interpolate_content_folder_path, is_year_text, year_placeholder};
use crate::website::Website;

verus! {

/// Why a request that must carry the website's ingest token is turned away.
#[derive(Clone, Copy, PartialEq, Eq, Structural, Debug)]
pub enum Rejection {
    /// The website names no token, or the token cannot be read.
    TokenUnavailable,
    /// The request has no `Authorization` header.
    MissingHeader,
    /// The `Authorization` header does not start with `Bearer `.
    MalformedHeader,
    /// The bearer token differs from the website's token.
    InvalidToken,
}

/// The start of an `Authorization` header that carries a bearer token.
pub open spec fn bearer_prefix() -> Seq<char> {
    "Bearer "@
}

/// The decision on a request: the website's token must be known, the request
/// must carry an `Authorization` header, the header must start with
/// `Bearer `, and the rest of it must be the token. The first of these that
/// fails gives the rejection.
pub open spec fn authorization(token: Option<Seq<char>>, header: Option<Seq<char>>) -> Result<(), Rejection> {
    match token {
        None => Err(Rejection::TokenUnavailable),
        Some(t) => match header {
            None => Err(Rejection::MissingHeader),
            Some(h) => if !(h.len() >= bearer_prefix().len() && h.take(bearer_prefix().len() as int)
                == bearer_prefix()) {
                Err(Rejection::MalformedHeader)
            } else if h.skip(bearer_prefix().len() as int) == t {
                Ok(())
            } else {
                Err(Rejection::InvalidToken)
            },
        },
    }
}

/// A text option taken as its characters.
pub open spec fn text_view(t: Option<&str>) -> Option<Seq<char>> {
    match t {
        Some(s) => Some(s@),
        None => None,
    }
}

/// Decides whether a request may go on, from the website's token (`None`
/// where it has none or it cannot be read) and the request's `Authorization`
/// header (`None` where there is none).
pub fn authorize(expected_token: Option<&str>, authorization_header: Option<&str>) -> (decision: Result<(), Rejection>)
    ensures
        decision == authorization(text_view(expected_token), text_view(authorization_header)),
{
    proof {
        reveal_strlit("Bearer ");
    }
    let token = match expected_token {
        None => return Err(Rejection::TokenUnavailable),
        Some(t) => t,
    };
    let header = match authorization_header {
        None => return Err(Rejection::MissingHeader),
        Some(h) => h,
    };
    let len = header.unicode_len();
    if len < 7 {
        return Err(Rejection::MalformedHeader);
    }
    let start = header.substring_char(0, 7).to_owned();
    if start != String::from_str("Bearer ") {
        return Err(Rejection::MalformedHeader);
    }
    let rest = header.substring_char(7, len).to_owned();
    assert(rest@ =~= header@.skip(7));
    if rest == token.to_owned() {
        Ok(())
    } else {
        Err(Rejection::InvalidToken)
    }
}

/// Law: a request is let through exactly when the website's token is known
/// and the `Authorization` header is `Bearer ` followed by that token.
pub proof fn lemma_authorized_iff_bearer_token(token: Option<Seq<char>>, header: Option<Seq<char>>)
    ensures
        authorization(token, header) is Ok <==> (token is Some && header is Some && header->0
            == bearer_prefix() + token->0),
{
    reveal_strlit("Bearer ");
    if let (Some(t), Some(h)) = (token, header) {
        let p = bearer_prefix();
        if h == p + t {
            assert(h.take(p.len() as int) =~= p);
            assert(h.skip(p.len() as int) =~= t);
        }
        if h.len() >= p.len() && h.take(p.len() as int) == p && h.skip(p.len() as int) == t {
            assert(h =~= p + t);
        }
    }
}

/// An answer to an HTTP request: its status code and its body.
pub struct Reply {
    pub status: u16,
    pub body: String,
}

/// The message that names why a request was rejected.
pub open spec fn rejection_message(rejection: Rejection) -> Seq<char> {
    match rejection {
        Rejection::TokenUnavailable => "Failed to retrieve ingest token"@,
        Rejection::MissingHeader => "Missing Authorization header"@,
        Rejection::MalformedHeader => "Invalid Authorization header"@,
        Rejection::InvalidToken => "Invalid ingest token"@,
    }
}

/// The body of the answer for a website the registry does not have.
pub open spec fn not_found_message(website_id: Seq<char>) -> Seq<char> {
    "Website "@ + website_id + " not found"@
}

/// The answer to a rejected request: `401 Unauthorized`, with a message that
/// names the reason.
pub fn rejection_reply(rejection: Rejection) -> (reply: Reply)
    ensures
        reply.status == 401,
        reply.body@ == rejection_message(rejection),
{
    let body = match rejection {
        Rejection::TokenUnavailable => String::from_str("Failed to retrieve ingest token"),
        Rejection::MissingHeader => String::from_str("Missing Authorization header"),
        Rejection::MalformedHeader => String::from_str("Invalid Authorization header"),
        Rejection::InvalidToken => String::from_str("Invalid ingest token"),
    };
    Reply { status: 401, body }
}

/// The answer to a request for a website the registry does not have:
/// `404 Not Found`, `Website <id> not found`.
pub fn not_found_reply(website_id: &str) -> (reply: Reply)
    ensures
        reply.status == 404,
        reply.body@ == not_found_message(website_id@),
{
    let mut body = String::from_str("Website ");
    body.append(website_id);
    body.append(" not found");
    Reply { status: 404, body }
}

/// The answer to a request that was carried out: `201 Created`, `OK`.
pub fn accepted_reply() -> (reply: Reply)
    ensures
        reply.status == 201,
        reply.body@ == "OK"@,
{
    Reply { status: 201, body: String::from_str("OK") }
}

/// A reply taken as its status and body text.
pub open spec fn reply_view(reply: Reply) -> (u16, Seq<char>) {
    (reply.status, reply.body@)
}

/// Whether a request for a website may go on, or the answer that turns it
/// away: `404` where the registry has no website with that id, else `401`
/// with the reason where `authorization` rejects it.
pub open spec fn admission(
    found: bool,
    website_id: Seq<char>,
    token: Option<Seq<char>>,
    header: Option<Seq<char>>,
) -> Result<(), (u16, Seq<char>)> {
    if !found {
        Err((404u16, not_found_message(website_id)))
    } else {
        match authorization(token, header) {
            Ok(()) => Ok(()),
            Err(rejection) => Err((401u16, rejection_message(rejection))),
        }
    }
}

/// Decides on a request that names a website and must carry its ingest
/// token, from the website the registry gave for the id (`None` where it has
/// none), the website's token (`None` where it names none or it cannot be
/// read) and the request's `Authorization` header. Both the update trigger
/// and the upload go through this decision.
pub fn admit_request(
    website: Option<&Website>,
    website_id: &str,
    expected_token: Option<&str>,
    authorization_header: Option<&str>,
) -> (decision: Result<(), Reply>)
    ensures
        match decision {
            Ok(()) => admission(
                website is Some,
                website_id@,
                text_view(expected_token),
                text_view(authorization_header),
            ) is Ok,
            Err(reply) => admission(
                website is Some,
                website_id@,
                text_view(expected_token),
                text_view(authorization_header),
            ) == Err::<(), (u16, Seq<char>)>(reply_view(reply)),
        },
{
    match website {
        None => Err(not_found_reply(website_id)),
        Some(_) => match authorize(expected_token, authorization_header) {
            Ok(()) => Ok(()),
            Err(rejection) => Err(rejection_reply(rejection)),
        },
    }
}

/// Law: a request is let through exactly when the website exists, its token
/// is known and the header is `Bearer ` followed by it; it is answered `404`
/// exactly when the website does not exist, and `401` in every other case.
pub proof fn lemma_admission(
    found: bool,
    website_id: Seq<char>,
    token: Option<Seq<char>>,
    header: Option<Seq<char>>,
)
    ensures
        admission(found, website_id, token, header) is Ok <==> (found && token is Some
            && header is Some && header->0 == bearer_prefix() + token->0),
        (admission(found, website_id, token, header) matches Err((status, _)) && status == 404)
            <==> !found,
        (admission(found, website_id, token, header) matches Err((status, _)) && status == 401)
            <==> (found && authorization(token, header) is Err),
{
    lemma_authorized_iff_bearer_token(token, header);
}

/// The answer to an update trigger that was let through: `201 Created`,
/// `OK`, whatever came of the update itself (its outcome is only logged).
pub fn trigger_update_reply(update: &Result<(), String>) -> (reply: Reply)
    ensures
        reply.status == 201,
        reply.body@ == "OK"@,
{
    accepted_reply()
}

/// The answer to an upload that was let through: `201 Created`, `OK` where
/// every step of storing and unpacking it went well, else the failure's
/// answer.
pub fn ingest_reply(stored: Result<(), IngestFailure>) -> (reply: Reply)
    ensures
        match stored {
            Ok(()) => reply.status == 201 && reply.body@ == "OK"@,
            Err(failure) => reply.status == 500 && reply.body@ == ingest_failure_message(failure),
        },
{
    match stored {
        Ok(()) => accepted_reply(),
        Err(failure) => ingest_failure_reply(failure),
    }
}

/// A step of storing and unpacking an uploaded archive that went wrong.
#[derive(Clone, Copy, PartialEq, Eq, Structural, Debug)]
pub enum IngestFailure {
    /// The upload file could not be made.
    CreateUploadFile,
    /// The upload could not be written to it.
    WriteUpload,
    /// The archive could not be unpacked.
    Unpack,
    /// The upload could not be copied into the upload file after unpacking.
    CopyUpload,
}

/// The body of the answer to an upload that went wrong.
pub open spec fn ingest_failure_message(failure: IngestFailure) -> Seq<char> {
    match failure {
        IngestFailure::CreateUploadFile => "Failed to process uploaded file"@,
        _ => "Failed to save uploaded zip file"@,
    }
}

/// The answer to an upload that went wrong: `500 Internal Server Error`.
pub fn ingest_failure_reply(failure: IngestFailure) -> (reply: Reply)
    ensures
        reply.status == 500,
        reply.body@ == ingest_failure_message(failure),
{
    let body = match failure {
        IngestFailure::CreateUploadFile => String::from_str("Failed to process uploaded file"),
        _ => String::from_str("Failed to save uploaded zip file"),
    };
    Reply { status: 500, body }
}

/// Where an uploaded archive is stored: `upload.zip` in the temporary folder.
pub fn upload_path(tmp_folder: &str) -> (path: String)
    ensures
        path@ == tmp_folder@ + "/upload.zip"@,
{
    let mut path = String::from_str(tmp_folder);
    path.append("/upload.zip");
    path
}

/// Where an uploaded archive is unpacked: the website's content root, with
/// `{YEAR}` replaced by the current year, inside its working folder.
pub fn ingest_target_folder(website: &Website) -> (path: String)
    ensures
        exists|year: Seq<char>|
            is_year_text(year) && path@ == website.git.working_dir@ + "/"@ + replace_all(
                website.content_root@,
                year_placeholder(),
                year,
            ),
{
    let content = interpolate_content_folder_path(website.content_root.clone());
    let mut path = website.git.working_dir.clone();
    path.append("/");
    path.append(content.as_str());
    path
}

} // verus!
