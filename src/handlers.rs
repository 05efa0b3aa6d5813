//! What the service answers: the decisions of the upload, download and help
//! routes, with the exact replies. Reading request bodies, touching the
//! storage directory and sending responses happen around these functions.
use vstd::prelude::*;

use crate::naming::{is_storage_name_for, prepend_uuid};
use crate::settings::{host_text, Settings};

verus! {

/// 80-character decorative horizontal rule.
pub const BANNER_RULE: &'static str =
    "===--------------------------------------------------------------------------===";

/// Reply body when an upload cannot be stored.
pub const UPLOAD_FAILED: &'static str = "Error: Failed to upload file.\n";

/// Reply body when an upload is larger than the configured limit.
pub const TOO_LARGE: &'static str = "Error: File too large.\n";

/// Reply body when a requested name could escape the storage directory.
pub const INVALID_NAME: &'static str = "Error: Invalid file name.\n";

/// Reply body when a download cannot be served.
pub const NOT_FOUND: &'static str = "Not found.\n";

/// HTTP statuses that the service answers with.
#[derive(Clone, Copy, Debug, PartialEq, Eq, Structural)]
pub enum Status {
    Success,
    Created,
    BadRequest,
    NotFound,
    PayloadTooLarge,
    InternalServerError,
}

/// The numeric HTTP code of a status.
pub open spec fn status_code(s: Status) -> u16 {
    match s {
        Status::Success => 200,
        Status::Created => 201,
        Status::BadRequest => 400,
        Status::NotFound => 404,
        Status::PayloadTooLarge => 413,
        Status::InternalServerError => 500,
    }
}

impl Status {
    /// The numeric HTTP code.
    pub fn code(&self) -> (r: u16)
        ensures
            r == status_code(*self),
    {
        match self {
            Status::Success => 200,
            Status::Created => 201,
            Status::BadRequest => 400,
            Status::NotFound => 404,
            Status::PayloadTooLarge => 413,
            Status::InternalServerError => 500,
        }
    }
}

/// A status with a text body.
#[derive(Debug)]
pub struct Reply {
    pub status: Status,
    pub body: String,
}

/// Whether a requested name names a plain entry of the storage directory:
/// not empty, not `.` or `..`, and free of path separators.
pub open spec fn valid_name(name: Seq<char>) -> bool {
    &&& name.len() > 0
    &&& name != seq!['.']
    &&& name != seq!['.', '.']
    &&& forall|i: int| 0 <= i < name.len() ==> #[trigger] name[i] != '/' && name[i] != '\\'
}

/// The body of a successful upload: the retrieval command between two
/// rules.
pub open spec fn upload_text(host: Seq<char>, storage_name: Seq<char>) -> Seq<char> {
    "\n\n"@ + BANNER_RULE@ + "\n\ncurl -O http://"@ + host + "/get/"@ + storage_name + "\n\n"@
        + BANNER_RULE@ + "\n\n"@
}

/// The body of the help reply.
pub open spec fn help_text(host: Seq<char>) -> Seq<char> {
    "Use `curl -T "@ + host + "` to upload files.\n"@
}

/// Whether `name` is a valid requested name.
pub fn is_valid_name(name: &str) -> (r: bool)
    ensures
        r == valid_name(name@),
{
    let len = name.unicode_len();
    if len == 0 {
        return false;
    }
    if len <= 2 {
        let first = name.get_char(0);
        if first == '.' && (len == 1 || name.get_char(1) == '.') {
            assert(name@ =~= seq!['.'] || name@ =~= seq!['.', '.']);
            return false;
        }
        assert(name@ != seq!['.'] && name@ != seq!['.', '.']) by {
            if len == 1 {
                assert(seq!['.'][0] == '.');
            } else {
                assert(seq!['.', '.'][0] == '.' && seq!['.', '.'][1] == '.');
            }
        }
    }
    let mut i: usize = 0;
    while i < len
        invariant
            i <= len,
            len == name@.len(),
            forall|j: int| 0 <= j < i ==> #[trigger] name@[j] != '/' && name@[j] != '\\',
        decreases len - i,
    {
        let c = name.get_char(i);
        if c == '/' || c == '\\' {
            return false;
        }
        i = i + 1;
    }
    true
}

/// The body of a successful upload, for the configured public host.
pub fn upload_reply(settings: &Settings, storage_name: &str) -> (r: String)
    ensures
        r@ == upload_text(host_text(settings@), storage_name@),
{
    let host = settings.host_string();
    let mut s = String::from_str("\n\n");
    s.append(BANNER_RULE);
    s.append("\n\ncurl -O http://");
    s.append(host.as_str());
    s.append("/get/");
    s.append(storage_name);
    s.append("\n\n");
    s.append(BANNER_RULE);
    s.append("\n\n");
    s
}

/// Decides an upload of `body_len` bytes under the requested `name`: the
/// storage name to write the body under, or the reply that refuses it.
/// A body over the size limit is refused before anything else.
pub fn plan_upload(settings: &Settings, name: &str, body_len: usize) -> (r: Result<String, Reply>)
    ensures
        body_len > settings@.size_limit ==> (r matches Err(reply) && reply.status
            == Status::PayloadTooLarge && reply.body@ == TOO_LARGE@),
        body_len <= settings@.size_limit && !valid_name(name@) ==> (r matches Err(reply)
            && reply.status == Status::BadRequest && reply.body@ == INVALID_NAME@),
        body_len <= settings@.size_limit && valid_name(name@) ==> (r matches Ok(s)
            && is_storage_name_for(s@, name@)),
{
    if body_len > settings.size_limit() {
        return Err(Reply { status: Status::PayloadTooLarge, body: String::from_str(TOO_LARGE) });
    }
    if !is_valid_name(name) {
        return Err(Reply { status: Status::BadRequest, body: String::from_str(INVALID_NAME) });
    }
    Ok(prepend_uuid(name))
}

/// The reply once the body was, or failed to be, written under
/// `storage_name`.
pub fn finish_upload(settings: &Settings, storage_name: &str, written: bool) -> (r: Reply)
    ensures
        written ==> r.status == Status::Created && r.body@ == upload_text(host_text(settings@), storage_name@),
        !written ==> r.status == Status::InternalServerError && r.body@ == UPLOAD_FAILED@,
{
    if written {
        Reply { status: Status::Created, body: upload_reply(settings, storage_name) }
    } else {
        Reply { status: Status::InternalServerError, body: String::from_str(UPLOAD_FAILED) }
    }
}

/// Decides a download of the storage entry `name`: an invalid name is
/// answered as not found, without looking at the storage directory.
pub fn plan_download(name: &str) -> (r: Result<(), Reply>)
    ensures
        r is Ok <==> valid_name(name@),
        r matches Err(e) ==> e.status == Status::NotFound && e.body@ == NOT_FOUND@,
{
    if is_valid_name(name) {
        Ok(())
    } else {
        Err(download_failure())
    }
}

/// The reply to a download whose file cannot be opened, whatever the cause.
pub fn download_failure() -> (r: Reply)
    ensures
        r.status == Status::NotFound,
        status_code(r.status) == 404,
        r.body@ == NOT_FOUND@,
{
    Reply { status: Status::NotFound, body: String::from_str(NOT_FOUND) }
}

/// The reply at the root: a usage hint with the upload command.
pub fn help(settings: &Settings) -> (r: Reply)
    ensures
        r.status == Status::BadRequest,
        r.body@ == help_text(host_text(settings@)),
{
    let host = settings.host_string();
    let mut s = String::from_str("Use `curl -T ");
    s.append(host.as_str());
    s.append("` to upload files.\n");
    Reply { status: Status::BadRequest, body: s }
}

} // verus!
