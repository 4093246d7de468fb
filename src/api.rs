use vstd::prelude::*;
use vstd::string::*;

use crate::decimal::{decimal, i64_to_decimal};
use crate::files::File;
use crate::model::User;
use crate::text::owned;

verus! {

/// The body of a signup request.
#[derive(Debug, Clone)]
pub struct SignupRequest {
    pub email: String,
    pub password: String,
}

/// The body of a request to create a service account.
#[derive(Debug, Clone)]
pub struct CreateServiceAccountRequest {
    pub email: String,
    pub password: String,
}

/// The body of a login request.
#[derive(Debug, Clone)]
pub struct LoginRequest {
    pub email: String,
    pub password: String,
}

/// The public view of an account.
#[derive(Debug, Clone)]
pub struct UserResponse {
    pub id: Option<i64>,
    pub email: String,
}

/// The answer to a successful signup or login.
#[derive(Debug, Clone)]
pub struct AuthResponse {
    pub token: String,
    pub user: UserResponse,
}

/// The body of every failed request.
#[derive(Debug, Clone)]
pub struct ErrorResponse {
    pub error: String,
}

/// The public view of a stored file.
#[derive(Debug, Clone)]
pub struct FileResponse {
    pub id: String,
    pub original_name: String,
    pub stored_name: String,
    pub size: i64,
    pub mime_type: Option<String>,
    pub created_at: String,
}

/// The answer to a successful upload.
#[derive(Debug, Clone)]
pub struct UploadResponse {
    pub success: bool,
    pub file: FileResponse,
}

/// The answer to a successful delete.
#[derive(Debug, Clone)]
pub struct DeleteResponse {
    pub success: bool,
    pub message: String,
}

/// The RFC 3339 text that chrono renders for the instant `ts` seconds after the
/// Unix epoch, in UTC.
pub uninterp spec fn rfc3339_text(ts: int) -> Seq<char>;

/// Relies on chrono's `DateTime::from_timestamp` (`None` outside chrono's range)
/// and `DateTime::to_rfc3339`.
#[verifier::external_body]
fn timestamp_rfc3339(ts: i64) -> (r: Option<String>)
    ensures
        r matches Some(s) ==> s@ == rfc3339_text(ts as int),
{
    chrono::DateTime::from_timestamp(ts, 0).map(|t| t.to_rfc3339())
}

/// The text of a creation time: RFC 3339 where chrono can render the instant,
/// the decimal count of seconds otherwise.
pub open spec fn created_text(ts: int, rendered: Option<String>) -> Seq<char> {
    match rendered {
        Some(s) => s@,
        None => decimal(ts),
    }
}

/// Whether `r` is the public view of `file`: the same fields, the id shown
/// empty when the record has none, and the creation time as text.
pub open spec fn describes(r: FileResponse, file: File) -> bool {
    &&& file.id matches Some(id) ==> r.id == id
    &&& file.id is None ==> r.id@.len() == 0
    &&& r.original_name == file.original_name
    &&& r.stored_name == file.stored_name
    &&& r.size == file.size
    &&& r.mime_type == file.mime_type
    &&& exists|rendered: Option<String>|
        (rendered matches Some(s) ==> s@ == rfc3339_text(file.created_at as int)) && r.created_at@
            == #[trigger] created_text(file.created_at as int, rendered)
}

impl UserResponse {
    /// The public view of `user`: its id and email.
    pub fn from_user(user: User) -> (r: UserResponse)
        ensures
            r.id == user.id,
            r.email == user.email,
    {
        UserResponse { id: user.id, email: user.email }
    }
}

impl AuthResponse {
    /// The answer that carries `token` and the public view of `user`.
    pub fn new(token: String, user: User) -> (r: AuthResponse)
        ensures
            r.token == token,
            r.user.id == user.id,
            r.user.email == user.email,
    {
        AuthResponse { token, user: UserResponse::from_user(user) }
    }
}

impl ErrorResponse {
    /// An error body with the given text.
    pub fn new(error: String) -> (r: ErrorResponse)
        ensures
            r.error == error,
    {
        ErrorResponse { error }
    }
}

impl FileResponse {
    /// The public view of a metadata record; a record without id shows an empty
    /// one.
    pub fn from_file(file: File) -> (r: FileResponse)
        ensures
            describes(r, file),
    {
        let rendered = timestamp_rfc3339(file.created_at);
        let ghost g = rendered;
        let created_at = match rendered {
            Some(s) => s,
            None => i64_to_decimal(file.created_at),
        };
        let id = match file.id {
            Some(id) => id,
            None => String::new(),
        };
        let r = FileResponse {
            id,
            original_name: file.original_name,
            stored_name: file.stored_name,
            size: file.size,
            mime_type: file.mime_type,
            created_at,
        };
        assert(r.created_at@ == created_text(file.created_at as int, g));
        r
    }
}

impl UploadResponse {
    /// The answer to the upload that produced `file`.
    pub fn new(file: File) -> (r: UploadResponse)
        ensures
            r.success,
            describes(r.file, file),
    {
        UploadResponse { success: true, file: FileResponse::from_file(file) }
    }
}

impl DeleteResponse {
    /// The answer to the delete of `file_id`.
    pub fn deleted(file_id: &str) -> (r: DeleteResponse)
        ensures
            r.success,
            r.message@ == "File "@ + file_id@ + " deleted successfully"@,
    {
        let message = owned("File ").concat(file_id).concat(" deleted successfully");
        DeleteResponse { success: true, message }
    }
}

} // verus!
