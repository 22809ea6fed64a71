//! What the fetcher asks the CI server for, and how it reads the answer.
use crate::decode::{decode_build, decodes_to, is_build};
use crate::json::Json;
use crate::teamcity::{Build, FetchError};
use vstd::prelude::*;

verus! {

/// The members requested for every build node.
pub const BUILD_FIELDS: &'static str = "number,status,state,statusText,webUrl,buildType(name),running-info(percentageComplete,elapsedSeconds,estimatedTotalSeconds,outdated,probablyHanging)";

/// One request for the latest build of a configuration on a branch.
pub struct FetchRequest {
    /// The build locator resource.
    pub url: String,
    /// The value of the `fields` query parameter.
    pub fields: String,
    /// The value of the `Authorization` header.
    pub authorization: String,
}

/// The build locator of the latest build of a configuration on a branch.
pub open spec fn request_url(api_root: Seq<char>, build_type: Seq<char>, branch: Seq<char>) -> Seq<
    char,
> {
    api_root + "/app/rest/builds/buildType:"@ + build_type + ",defaultFilter:false,branch:name:"@
        + branch
}

/// The node members, and the same members for each direct dependency.
pub open spec fn fields_param() -> Seq<char> {
    BUILD_FIELDS@ + ",snapshot-dependencies(build("@ + BUILD_FIELDS@ + "))"@
}

/// The `Authorization` header value for a token.
pub open spec fn bearer(api_token: Seq<char>) -> Seq<char> {
    "Bearer "@ + api_token
}

/// The request for the latest build of `build_type` on `branch`, with its
/// dependency builds, restricted to the members the model reads.
pub fn build_request(api_token: &str, api_root: &str, build_type: &str, branch: &str) -> (r:
    FetchRequest)
    ensures
        r.url@ == request_url(api_root@, build_type@, branch@),
        r.fields@ == fields_param(),
        r.authorization@ == bearer(api_token@),
{
    let mut url = String::from_str(api_root);
    url.append("/app/rest/builds/buildType:");
    url.append(build_type);
    url.append(",defaultFilter:false,branch:name:");
    url.append(branch);
    let mut fields = String::from_str(BUILD_FIELDS);
    fields.append(",snapshot-dependencies(build(");
    fields.append(BUILD_FIELDS);
    fields.append("))");
    let mut authorization = String::from_str("Bearer ");
    authorization.append(api_token);
    FetchRequest { url, fields, authorization }
}

/// The error an HTTP status code stands for: none for success, an
/// authorization failure for 401 and 403, a transport failure otherwise.
pub open spec fn status_error_spec(code: u16) -> Option<FetchError> {
    if 200 <= code <= 299 {
        None
    } else if code == 401 || code == 403 {
        Some(FetchError::AuthError)
    } else {
        Some(FetchError::TransportError)
    }
}

/// Classifies an HTTP status code.
pub fn status_error(code: u16) -> (r: Option<FetchError>)
    ensures
        r == status_error_spec(code),
{
    if 200 <= code && code <= 299 {
        None
    } else if code == 401 || code == 403 {
        Some(FetchError::AuthError)
    } else {
        Some(FetchError::TransportError)
    }
}

/// The server's way of saying that no such build exists.
pub open spec fn is_empty_object(j: Json) -> bool {
    j matches Json::Object(members) && members@.len() == 0
}

/// What a successful answer with document `j` reads as: an empty object is
/// `EmptyResult`, a build document is that build, anything else is
/// `DecodeError`.
pub open spec fn reads_as(j: Json, r: Result<Build, FetchError>) -> bool {
    if is_empty_object(j) {
        r == Err::<Build, FetchError>(FetchError::EmptyResult)
    } else if is_build(j) {
        r matches Ok(b) && decodes_to(j, b)
    } else {
        r == Err::<Build, FetchError>(FetchError::DecodeError)
    }
}

/// Reads the document of a successful answer.
pub fn interpret_response(j: &Json) -> (r: Result<Build, FetchError>)
    ensures
        reads_as(*j, r),
{
    if let Json::Object(members) = j {
        if members.len() == 0 {
            return Err(FetchError::EmptyResult);
        }
    }
    match decode_build(j) {
        Some(b) => Ok(b),
        None => Err(FetchError::DecodeError),
    }
}

/// Reads a whole answer: an error status decides first; a successful one
/// without a JSON body is `DecodeError`; otherwise the body is read.
pub fn read_response(status: u16, body: Option<&Json>) -> (r: Result<Build, FetchError>)
    ensures
        status_error_spec(status) matches Some(e) ==> r == Err::<Build, FetchError>(e),
        status_error_spec(status) is None && body is None ==> r == Err::<Build, FetchError>(
            FetchError::DecodeError,
        ),
        status_error_spec(status) is None ==> (body matches Some(j) ==> reads_as(*j, r)),
{
    if let Some(e) = status_error(status) {
        return Err(e);
    }
    match body {
        Some(j) => interpret_response(j),
        None => Err(FetchError::DecodeError),
    }
}

} // verus!
