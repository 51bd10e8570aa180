//! The client side of the request contract: request URLs and the reading of
//! response statuses.
use vstd::prelude::*;
use vstd::string::StringExecFns;

verus! {

/// A value read from the server, with its content type.
#[derive(Clone, Debug)]
pub struct KvGetResponse {
    pub data: Vec<u8>,
    pub mime_type: String,
}

/// Whether a PUT created the key or updated it.
#[derive(Clone, Copy, Debug, PartialEq, Eq, Structural)]
pub enum KvPutResponse {
    Created,
    Updated,
}

/// A response status that the client does not accept.
#[derive(Clone, Copy, Debug, PartialEq, Eq, Structural)]
pub enum StatusError {
    Unauthorized,
    InvalidStatus { code: u16 },
}

/// The error for a status outside the expected ones.
pub open spec fn status_error(code: u16) -> StatusError {
    if code == 401 {
        StatusError::Unauthorized
    } else {
        StatusError::InvalidStatus { code }
    }
}

fn unexpected(code: u16) -> (r: StatusError)
    ensures
        r == status_error(code),
{
    if code == 401 {
        StatusError::Unauthorized
    } else {
        StatusError::InvalidStatus { code }
    }
}

/// The URL of a key: `<scheme>://<authority>/api/kv/<key>`.
pub fn kv_url(scheme: &str, authority: &str, key: &str) -> (r: String)
    ensures
        r@ == scheme@ + "://"@ + authority@ + "/api/kv/"@ + key@,
{
    scheme.to_owned().concat("://").concat(authority).concat("/api/kv/").concat(key)
}

/// The content type of a response, `application/octet-stream` when absent.
pub fn mime_or_default(header: Option<String>) -> (r: String)
    ensures
        header matches Some(h) ==> r@ == h@,
        header is None ==> r@ == "application/octet-stream"@,
{
    match header {
        Some(h) => h,
        None => "application/octet-stream".to_owned(),
    }
}

/// Reads the response to a GET: the value on 200, nothing on 404.
pub fn get_response(status: u16, data: Vec<u8>, mime_type: String) -> (r: Result<
    Option<KvGetResponse>,
    StatusError,
>)
    ensures
        status == 200 ==> (r matches Ok(Some(v)) && v.data@ == data@ && v.mime_type@
            == mime_type@),
        status == 404 ==> r matches Ok(None),
        status != 200 && status != 404 ==> r == Err::<Option<KvGetResponse>, StatusError>(
            status_error(status),
        ),
{
    if status == 200 {
        Ok(Some(KvGetResponse { data, mime_type }))
    } else if status == 404 {
        Ok(None)
    } else {
        Err(unexpected(status))
    }
}

/// Reads the response to a PUT: 201 created, 200 updated.
pub fn put_response(status: u16) -> (r: Result<KvPutResponse, StatusError>)
    ensures
        status == 201 ==> r == Ok::<KvPutResponse, StatusError>(KvPutResponse::Created),
        status == 200 ==> r == Ok::<KvPutResponse, StatusError>(KvPutResponse::Updated),
        status != 200 && status != 201 ==> r == Err::<KvPutResponse, StatusError>(
            status_error(status),
        ),
{
    if status == 201 {
        Ok(KvPutResponse::Created)
    } else if status == 200 {
        Ok(KvPutResponse::Updated)
    } else {
        Err(unexpected(status))
    }
}

/// Reads the response to a DELETE: true when deleted (204, or 200), false
/// when the key was not there (404).
pub fn delete_response(status: u16) -> (r: Result<bool, StatusError>)
    ensures
        status == 204 || status == 200 ==> r == Ok::<bool, StatusError>(true),
        status == 404 ==> r == Ok::<bool, StatusError>(false),
        status != 200 && status != 204 && status != 404 ==> r == Err::<bool, StatusError>(
            status_error(status),
        ),
{
    if status == 204 || status == 200 {
        Ok(true)
    } else if status == 404 {
        Ok(false)
    } else {
        Err(unexpected(status))
    }
}

} // verus!
