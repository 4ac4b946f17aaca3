//! The ways in which a request can fail, with the status code and the
//! diagnostic that each is answered with.

use crate::messages::{
    fill, filled, BLOCKED_EXTENSION, CREATE_FILE_ERROR, CUSTOM_NAME_GENERATION_ERROR,
    DELETED_ERROR, INVALID_URL_FORMAT, MISSING_FIELD, PAYLOAD_TOO_LARGE, READ_FILE_ERROR,
    REDIS_CONNECTION_ERROR, REDIS_GET_ERROR, REDIS_SAVE_ERROR, SAVE_FILE_ERROR,
};
use crate::state::{humanize_bytes, humanized};
use crate::text::{decimal_digits, push_decimal};
use vstd::prelude::*;
use vstd::string::StringExecFns;

verus! {

/// A failed request.
#[derive(Debug, Clone)]
pub enum Failure {
    /// The metadata store could not be reached.
    StoreUnavailable,
    /// The metadata store did not answer a lookup of the requested path.
    StoreReadFailed { id_path: String },
    /// The metadata store did not take a new record.
    StoreWriteFailed,
    /// No record is kept under the requested path.
    NotFound { id_path: String },
    /// A record is kept, but its file has left the disk.
    Gone { id_path: String },
    /// The content type or file extension `what` may not be uploaded.
    BlockedType { what: String },
    /// The upload is larger than `limit` bytes allow.
    PayloadTooLarge { file_name: String, limit: u64 },
    /// The request holds no field named `file`.
    MissingField,
    /// `url` is no absolute URL.
    InvalidUrl { url: String },
    /// No identifier could be allocated.
    AllocationFailure { reason: String },
    /// The upload's file could not be created.
    CreateFailed { file_name: String },
    /// The upload's `size` bytes could not be written to its file.
    WriteFailed { file_name: String, size: u64 },
    /// The upload's `size` bytes could not be flushed to its file.
    FlushFailed { file_name: String, size: u64 },
    /// The file behind the requested path could not be read.
    ReadFailed { id_path: String },
    /// The size of the file behind a record could not be learnt.
    MetadataFailed,
    /// The stored record could not be understood.
    SerializationFailure,
    /// The page for a text could not be rendered.
    RenderFailed { reason: String },
}

/// A `Failure` as plain values.
pub enum FailureView {
    StoreUnavailable,
    StoreReadFailed { id_path: Seq<char> },
    StoreWriteFailed,
    NotFound { id_path: Seq<char> },
    Gone { id_path: Seq<char> },
    BlockedType { what: Seq<char> },
    PayloadTooLarge { file_name: Seq<char>, limit: u64 },
    MissingField,
    InvalidUrl { url: Seq<char> },
    AllocationFailure { reason: Seq<char> },
    CreateFailed { file_name: Seq<char> },
    WriteFailed { file_name: Seq<char>, size: u64 },
    FlushFailed { file_name: Seq<char>, size: u64 },
    ReadFailed { id_path: Seq<char> },
    MetadataFailed,
    SerializationFailure,
    RenderFailed { reason: Seq<char> },
}

impl View for Failure {
    type V = FailureView;

    open spec fn view(&self) -> FailureView {
        match self {
            Failure::StoreUnavailable => FailureView::StoreUnavailable,
            Failure::StoreReadFailed { id_path } => FailureView::StoreReadFailed {
                id_path: id_path@,
            },
            Failure::StoreWriteFailed => FailureView::StoreWriteFailed,
            Failure::NotFound { id_path } => FailureView::NotFound { id_path: id_path@ },
            Failure::Gone { id_path } => FailureView::Gone { id_path: id_path@ },
            Failure::BlockedType { what } => FailureView::BlockedType { what: what@ },
            Failure::PayloadTooLarge { file_name, limit } => FailureView::PayloadTooLarge {
                file_name: file_name@,
                limit: *limit,
            },
            Failure::MissingField => FailureView::MissingField,
            Failure::InvalidUrl { url } => FailureView::InvalidUrl { url: url@ },
            Failure::AllocationFailure { reason } => FailureView::AllocationFailure {
                reason: reason@,
            },
            Failure::CreateFailed { file_name } => FailureView::CreateFailed {
                file_name: file_name@,
            },
            Failure::WriteFailed { file_name, size } => FailureView::WriteFailed {
                file_name: file_name@,
                size: *size,
            },
            Failure::FlushFailed { file_name, size } => FailureView::FlushFailed {
                file_name: file_name@,
                size: *size,
            },
            Failure::ReadFailed { id_path } => FailureView::ReadFailed { id_path: id_path@ },
            Failure::MetadataFailed => FailureView::MetadataFailed,
            Failure::SerializationFailure => FailureView::SerializationFailure,
            Failure::RenderFailed { reason } => FailureView::RenderFailed { reason: reason@ },
        }
    }
}

/// A result as plain values.
pub open spec fn outcome<T: View, E: View>(r: Result<T, E>) -> Result<T::V, E::V> {
    match r {
        Ok(t) => Ok(t@),
        Err(e) => Err(e@),
    }
}

/// Why `size` bytes did not reach a file: `verb` is what failed.
pub open spec fn save_reason(verb: Seq<char>, size: u64) -> Seq<char> {
    "Unable to "@ + verb + " file contents of "@ + decimal_digits(size as nat) + " bytes"@
}

impl FailureView {
    /// The status code that the failure is answered with: 404 where nothing
    /// is kept under the path, 410 where the record has lost its file, 413
    /// and 415 for uploads that are too large or of a blocked kind, 400 for
    /// a malformed request, 500 for everything that went wrong on this side.
    pub open spec fn status(self) -> u16 {
        match self {
            FailureView::NotFound { .. } => 404,
            FailureView::Gone { .. } => 410,
            FailureView::BlockedType { .. } => 415,
            FailureView::PayloadTooLarge { .. } => 413,
            FailureView::MissingField => 400,
            FailureView::InvalidUrl { .. } => 400,
            _ => 500,
        }
    }

    /// The diagnostic that the failure is answered with.
    pub open spec fn message(self) -> Seq<char> {
        match self {
            FailureView::StoreUnavailable => REDIS_CONNECTION_ERROR@,
            FailureView::StoreReadFailed { id_path } => filled(
                REDIS_GET_ERROR@,
                "{{ FN }}"@,
                id_path,
            ),
            FailureView::StoreWriteFailed => REDIS_SAVE_ERROR@,
            FailureView::NotFound { id_path } => filled(DELETED_ERROR@, "{{ FN }}"@, id_path),
            FailureView::Gone { id_path } => filled(DELETED_ERROR@, "{{ FN }}"@, id_path),
            FailureView::BlockedType { what } => filled(
                BLOCKED_EXTENSION@,
                "{{ FILE_TYPE }}"@,
                what,
            ),
            FailureView::PayloadTooLarge { file_name, limit } => filled(
                filled(PAYLOAD_TOO_LARGE@, "{{ FS }}"@, humanized(limit)),
                "{{ FN }}"@,
                file_name,
            ),
            FailureView::MissingField => MISSING_FIELD@,
            FailureView::InvalidUrl { url } => filled(INVALID_URL_FORMAT@, "{{ URL }}"@, url),
            FailureView::AllocationFailure { reason } => filled(
                CUSTOM_NAME_GENERATION_ERROR@,
                "{{ REASON }}"@,
                reason,
            ),
            FailureView::CreateFailed { file_name } => filled(
                CREATE_FILE_ERROR@,
                "{{ FN }}"@,
                file_name,
            ),
            FailureView::WriteFailed { file_name, size } => filled(
                filled(SAVE_FILE_ERROR@, "{{ FN }}"@, file_name),
                "{{ REASON }}"@,
                save_reason("write"@, size),
            ),
            FailureView::FlushFailed { file_name, size } => filled(
                filled(SAVE_FILE_ERROR@, "{{ FN }}"@, file_name),
                "{{ REASON }}"@,
                save_reason("flush"@, size),
            ),
            FailureView::ReadFailed { id_path } => filled(READ_FILE_ERROR@, "{{ FN }}"@, id_path),
            FailureView::MetadataFailed => "Failed to get metadata"@,
            FailureView::SerializationFailure => "Failed to parse data"@,
            FailureView::RenderFailed { reason } => "Failed to render template. Error: "@
                + reason,
        }
    }
}

/// Why `size` bytes did not reach a file.
fn reason_of(verb: &str, size: u64) -> (r: String)
    ensures
        r@ == save_reason(verb@, size),
{
    let mut r = String::from_str("Unable to ");
    r.append(verb);
    r.append(" file contents of ");
    push_decimal(&mut r, size);
    r.append(" bytes");
    r
}

impl Failure {
    /// The status code that the failure is answered with.
    pub fn status(&self) -> (r: u16)
        ensures
            r == self@.status(),
    {
        match self {
            Failure::NotFound { .. } => 404,
            Failure::Gone { .. } => 410,
            Failure::BlockedType { .. } => 415,
            Failure::PayloadTooLarge { .. } => 413,
            Failure::MissingField => 400,
            Failure::InvalidUrl { .. } => 400,
            _ => 500,
        }
    }

    /// The diagnostic that the failure is answered with.
    pub fn message(&self) -> (r: String)
        ensures
            r@ == self@.message(),
    {
        proof {
            reveal_strlit("{{ FN }}");
            reveal_strlit("{{ FS }}");
            reveal_strlit("{{ URL }}");
            reveal_strlit("{{ REASON }}");
            reveal_strlit("{{ FILE_TYPE }}");
        }
        match self {
            Failure::StoreUnavailable => String::from_str(REDIS_CONNECTION_ERROR),
            Failure::StoreReadFailed { id_path } => fill(
                REDIS_GET_ERROR,
                "{{ FN }}",
                id_path.as_str(),
            ),
            Failure::StoreWriteFailed => String::from_str(REDIS_SAVE_ERROR),
            Failure::NotFound { id_path } => fill(DELETED_ERROR, "{{ FN }}", id_path.as_str()),
            Failure::Gone { id_path } => fill(DELETED_ERROR, "{{ FN }}", id_path.as_str()),
            Failure::BlockedType { what } => fill(
                BLOCKED_EXTENSION,
                "{{ FILE_TYPE }}",
                what.as_str(),
            ),
            Failure::PayloadTooLarge { file_name, limit } => {
                let size = humanize_bytes(*limit);
                let with_size = fill(PAYLOAD_TOO_LARGE, "{{ FS }}", size.as_str());
                fill(with_size.as_str(), "{{ FN }}", file_name.as_str())
            },
            Failure::MissingField => String::from_str(MISSING_FIELD),
            Failure::InvalidUrl { url } => fill(INVALID_URL_FORMAT, "{{ URL }}", url.as_str()),
            Failure::AllocationFailure { reason } => fill(
                CUSTOM_NAME_GENERATION_ERROR,
                "{{ REASON }}",
                reason.as_str(),
            ),
            Failure::CreateFailed { file_name } => fill(
                CREATE_FILE_ERROR,
                "{{ FN }}",
                file_name.as_str(),
            ),
            Failure::WriteFailed { file_name, size } => {
                let named = fill(SAVE_FILE_ERROR, "{{ FN }}", file_name.as_str());
                let reason = reason_of("write", *size);
                fill(named.as_str(), "{{ REASON }}", reason.as_str())
            },
            Failure::FlushFailed { file_name, size } => {
                let named = fill(SAVE_FILE_ERROR, "{{ FN }}", file_name.as_str());
                let reason = reason_of("flush", *size);
                fill(named.as_str(), "{{ REASON }}", reason.as_str())
            },
            Failure::ReadFailed { id_path } => fill(READ_FILE_ERROR, "{{ FN }}", id_path.as_str()),
            Failure::MetadataFailed => String::from_str("Failed to get metadata"),
            Failure::SerializationFailure => String::from_str("Failed to parse data"),
            Failure::RenderFailed { reason } => {
                let mut r = String::from_str("Failed to render template. Error: ");
                r.append(reason.as_str());
                r
            },
        }
    }
}

} // verus!
