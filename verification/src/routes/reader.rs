//! Handing objects out: from the requested path and what the metadata
//! store holds under it to the look at the disk that is needed, and from
//! what the disk showed to the answer.

use crate::config::IhaCdnConfig;
use crate::content_type::{guessed_type, type_of_extension};
use crate::failure::{Failure, FailureView};
use crate::routes::uploads::{finished, is_text, settled_type, UploadView};
use crate::state::CDNData;
use crate::templating::{TemplateCodeData, TemplatePaste, TemplatePasteView};
use crate::text::{chars_of, find_last, has_prefix, last_position, string_of};
use vstd::prelude::*;
use vstd::string::StringExecFns;

verus! {

/// The method of a read. Whatever is not `HEAD` is answered as `GET`.
#[derive(Debug, Clone, Copy, PartialEq, Eq, Structural)]
pub enum Method {
    Head,
    Get,
}

/// What the metadata store said to the lookup of the requested identifier.
#[derive(Debug, Clone)]
pub enum Lookup {
    /// The store could not be reached.
    Unavailable,
    /// The store was reached, and the lookup failed.
    Failed,
    /// Nothing is kept under the key.
    Missing,
    /// What is kept under the key is no record.
    Corrupt,
    /// The record kept under the key.
    Found(CDNData),
}

/// A look at the disk that an answer waits for.
#[derive(Debug, Clone)]
pub enum DiskStep {
    /// Find out whether the file at `path` exists.
    Probe { path: String, content_type: String },
    /// Read the file at `path` as text, for the page of a paste.
    ReadPaste { path: String, code_type: String, file_id: String, id_path: String },
    /// Read the file at `path` as text, to be sent as it is.
    ReadRaw { path: String, content_type: String, id_path: String },
    /// Open the file at `path` and learn its size.
    Open { path: String, mimetype: String, id_path: String, head: bool },
}

/// What the disk showed.
#[derive(Debug, Clone)]
pub enum DiskReply {
    /// The file exists.
    Present,
    /// There is no such file.
    Absent,
    /// The look failed for another reason.
    Failed,
    /// The file was read, and holds this text.
    Text(String),
    /// The file was opened, and holds this many bytes.
    Opened(u64),
    /// The file was opened, but its size could not be learnt.
    NoMetadata,
}

/// The answer to a read.
#[derive(Debug, Clone)]
pub enum Reply {
    /// A temporary redirect to `target`.
    Redirect { target: String },
    /// A status and a content type, without a body.
    Bare { status: u16, content_type: String },
    /// The page of a paste.
    Paste(TemplatePaste),
    /// A text as it is, for download.
    Raw { content_type: String, content_disposition: String, content_length: u64, content: String },
    /// The file at `path`, of `content_length` bytes; without its bytes
    /// where `head` is set.
    File {
        content_type: String,
        content_length: u64,
        content_disposition: String,
        path: String,
        head: bool,
    },
    /// A failure, with its status and diagnostic.
    Failed(Failure),
}

/// Where a read stands after the lookup.
#[derive(Debug, Clone)]
pub enum Reading {
    /// The answer is known.
    Done(Reply),
    /// The answer waits for a look at the disk.
    Disk(DiskStep),
}

/// A `DiskStep` as plain values.
pub enum DiskStepView {
    Probe { path: Seq<char>, content_type: Seq<char> },
    ReadPaste { path: Seq<char>, code_type: Seq<char>, file_id: Seq<char>, id_path: Seq<char> },
    ReadRaw { path: Seq<char>, content_type: Seq<char>, id_path: Seq<char> },
    Open { path: Seq<char>, mimetype: Seq<char>, id_path: Seq<char>, head: bool },
}

/// A `Reply` as plain values.
pub enum ReplyView {
    Redirect { target: Seq<char> },
    Bare { status: u16, content_type: Seq<char> },
    Paste(TemplatePasteView),
    Raw {
        content_type: Seq<char>,
        content_disposition: Seq<char>,
        content_length: u64,
        content: Seq<char>,
    },
    File {
        content_type: Seq<char>,
        content_length: u64,
        content_disposition: Seq<char>,
        path: Seq<char>,
        head: bool,
    },
    Failed(FailureView),
}

/// A `Reading` as plain values.
pub enum ReadingView {
    Done(ReplyView),
    Disk(DiskStepView),
}

impl View for DiskStep {
    type V = DiskStepView;

    open spec fn view(&self) -> DiskStepView {
        match self {
            DiskStep::Probe { path, content_type } => DiskStepView::Probe {
                path: path@,
                content_type: content_type@,
            },
            DiskStep::ReadPaste { path, code_type, file_id, id_path } => DiskStepView::ReadPaste {
                path: path@,
                code_type: code_type@,
                file_id: file_id@,
                id_path: id_path@,
            },
            DiskStep::ReadRaw { path, content_type, id_path } => DiskStepView::ReadRaw {
                path: path@,
                content_type: content_type@,
                id_path: id_path@,
            },
            DiskStep::Open { path, mimetype, id_path, head } => DiskStepView::Open {
                path: path@,
                mimetype: mimetype@,
                id_path: id_path@,
                head: *head,
            },
        }
    }
}

impl View for Reply {
    type V = ReplyView;

    open spec fn view(&self) -> ReplyView {
        match self {
            Reply::Redirect { target } => ReplyView::Redirect { target: target@ },
            Reply::Bare { status, content_type } => ReplyView::Bare {
                status: *status,
                content_type: content_type@,
            },
            Reply::Paste(page) => ReplyView::Paste(page@),
            Reply::Raw { content_type, content_disposition, content_length, content } =>
                ReplyView::Raw {
                content_type: content_type@,
                content_disposition: content_disposition@,
                content_length: *content_length,
                content: content@,
            },
            Reply::File { content_type, content_length, content_disposition, path, head } =>
                ReplyView::File {
                content_type: content_type@,
                content_length: *content_length,
                content_disposition: content_disposition@,
                path: path@,
                head: *head,
            },
            Reply::Failed(failure) => ReplyView::Failed(failure@),
        }
    }
}

impl View for Reading {
    type V = ReadingView;

    open spec fn view(&self) -> ReadingView {
        match self {
            Reading::Done(reply) => ReadingView::Done(reply@),
            Reading::Disk(step) => ReadingView::Disk(step@),
        }
    }
}

impl ReplyView {
    /// The status code of the answer: 307 for a redirect, 200 for a page, a
    /// text or a file, and for a failure its own.
    pub open spec fn status(self) -> u16 {
        match self {
            ReplyView::Redirect { .. } => 307,
            ReplyView::Bare { status, .. } => status,
            ReplyView::Paste(_) => 200,
            ReplyView::Raw { .. } => 200,
            ReplyView::File { .. } => 200,
            ReplyView::Failed(failure) => failure.status(),
        }
    }
}

impl Reply {
    /// The status code of the answer.
    pub fn status(&self) -> (r: u16)
        ensures
            r == self@.status(),
    {
        match self {
            Reply::Redirect { .. } => 307,
            Reply::Bare { status, .. } => *status,
            Reply::Paste(_) => 200,
            Reply::Raw { .. } => 200,
            Reply::File { .. } => 200,
            Reply::Failed(failure) => failure.status(),
        }
    }
}

/// The requested path, parted at its last `.` into the identifier and the
/// extension that the client gave; without a `.` all of it is the
/// identifier.
pub open spec fn split_path(id_path: Seq<char>) -> (Seq<char>, Seq<char>) {
    match last_position(id_path, '.') {
        Some(i) => (id_path.take(i), id_path.skip(i + 1)),
        None => (id_path, Seq::empty()),
    }
}

/// The last part of a path: what follows its last `/`.
pub open spec fn file_name_part(path: Seq<char>) -> Seq<char> {
    match last_position(path, '/') {
        Some(i) => path.skip(i + 1),
        None => path,
    }
}

/// Whether a file of the content type `mimetype` is shown in place: images
/// and videos are, everything else is offered for download.
pub open spec fn shown_inline(mimetype: Seq<char>) -> bool {
    "image/"@.is_prefix_of(mimetype) || "video/"@.is_prefix_of(mimetype)
}

/// The `Content-Disposition` of the file at `path`.
pub open spec fn disposition(inline: bool, path: Seq<char>) -> Seq<char> {
    (if inline {
        "inline"@
    } else {
        "attachment"@
    }) + "; filename=\""@ + file_name_part(path) + "\""@
}

/// The content type that a text is sent with as it is: `guessed` is the
/// guess for its stored extension; without one it is plain text.
pub open spec fn raw_type(guessed: Option<Seq<char>>) -> Seq<char> {
    match guessed {
        Some(mime) => mime,
        None => "text/plain"@,
    }
}

/// The number of bytes that `text` takes in UTF-8.
pub open spec fn byte_length(text: Seq<char>) -> u64 {
    (vstd::utf8::encode_utf8(text).len() as usize) as u64
}

/// The failure of a read for which the store gave no record.
pub open spec fn lookup_failure(id_path: Seq<char>, lookup: Lookup) -> FailureView {
    match lookup {
        Lookup::Unavailable => FailureView::StoreUnavailable,
        Lookup::Failed => FailureView::StoreReadFailed { id_path },
        Lookup::Corrupt => FailureView::SerializationFailure,
        _ => FailureView::NotFound { id_path },
    }
}

/// Where a read on the rendered route stands after the lookup. A redirect
/// is answered at once. A text waits for a probe where the method is
/// `HEAD`, for its content otherwise; a file waits to be opened. The
/// extension that the client gave picks the highlighting of a text, and
/// the stored one where the client gave none.
pub open spec fn rendered(method: Method, id_path: Seq<char>, lookup: Lookup) -> ReadingView {
    let (raw_id, ext) = split_path(id_path);
    match lookup {
        Lookup::Found(CDNData::Short { target }) => ReadingView::Done(
            ReplyView::Redirect { target: target@ },
        ),
        Lookup::Found(CDNData::Code { path, mimetype, .. }) => if method == Method::Head {
            ReadingView::Disk(
                DiskStepView::Probe { path: path@, content_type: "text/html; charset=UTF-8"@ },
            )
        } else {
            ReadingView::Disk(
                DiskStepView::ReadPaste {
                    path: path@,
                    code_type: if ext.len() == 0 {
                        mimetype@
                    } else {
                        ext
                    },
                    file_id: raw_id,
                    id_path,
                },
            )
        },
        Lookup::Found(CDNData::File { path, mimetype, .. }) => ReadingView::Disk(
            DiskStepView::Open {
                path: path@,
                mimetype: mimetype@,
                id_path,
                head: method == Method::Head,
            },
        ),
        _ => ReadingView::Done(ReplyView::Failed(lookup_failure(id_path, lookup))),
    }
}

/// Where a read on the raw route stands after the lookup; `guessed` is the
/// content type guessed for the stored extension of a text. Only texts are
/// served here: a file or a redirect is answered as not found.
pub open spec fn raw(
    method: Method,
    id_path: Seq<char>,
    lookup: Lookup,
    guessed: Option<Seq<char>>,
) -> ReadingView {
    match lookup {
        Lookup::Found(CDNData::Code { path, .. }) => if method == Method::Head {
            ReadingView::Disk(DiskStepView::Probe { path: path@, content_type: raw_type(guessed) })
        } else {
            ReadingView::Disk(
                DiskStepView::ReadRaw { path: path@, content_type: raw_type(guessed), id_path },
            )
        },
        _ => ReadingView::Done(ReplyView::Failed(lookup_failure(id_path, lookup))),
    }
}

/// The stored extension of a text, for which the raw route guesses a
/// content type.
pub open spec fn stored_extension(lookup: Lookup) -> Option<Seq<char>> {
    match lookup {
        Lookup::Found(CDNData::Code { mimetype, .. }) => Some(mimetype@),
        _ => None,
    }
}

/// The answer, once the disk has shown `reply`. A file that is not there
/// makes the object gone, which is not the same as not found: its record
/// is still kept.
pub open spec fn answered(step: DiskStepView, reply: DiskReply) -> ReplyView {
    match step {
        DiskStepView::Probe { content_type, .. } => ReplyView::Bare {
            status: match reply {
                DiskReply::Absent => 410,
                DiskReply::Failed => 500,
                DiskReply::NoMetadata => 500,
                _ => 200,
            },
            content_type,
        },
        DiskStepView::ReadPaste { code_type, file_id, id_path, .. } => match reply {
            DiskReply::Text(content) => ReplyView::Paste(
                TemplatePasteView { code_type, code_data: content@, file_id },
            ),
            DiskReply::Absent => ReplyView::Failed(FailureView::Gone { id_path }),
            _ => ReplyView::Failed(FailureView::ReadFailed { id_path }),
        },
        DiskStepView::ReadRaw { path, content_type, id_path } => match reply {
            DiskReply::Text(content) => ReplyView::Raw {
                content_type,
                content_disposition: disposition(false, path),
                content_length: byte_length(content@),
                content: content@,
            },
            DiskReply::Absent => ReplyView::Failed(FailureView::Gone { id_path }),
            _ => ReplyView::Failed(FailureView::ReadFailed { id_path }),
        },
        DiskStepView::Open { path, mimetype, id_path, head } => match reply {
            DiskReply::Opened(size) => ReplyView::File {
                content_type: mimetype,
                content_length: size,
                content_disposition: disposition(shown_inline(mimetype), path),
                path,
                head,
            },
            DiskReply::Absent => ReplyView::Failed(FailureView::Gone { id_path }),
            DiskReply::NoMetadata => ReplyView::Failed(FailureView::MetadataFailed),
            _ => ReplyView::Failed(FailureView::ReadFailed { id_path }),
        },
    }
}

/// The whole of a read: the answer after the lookup, or after the look at
/// the disk where one is needed.
pub open spec fn resolved(reading: ReadingView, disk: DiskReply) -> ReplyView {
    match reading {
        ReadingView::Done(reply) => reply,
        ReadingView::Disk(step) => answered(step, disk),
    }
}

/// Parts the requested path into the identifier and the extension that the
/// client gave.
pub fn split_id_path(id_path: &str) -> (r: (String, String))
    ensures
        (r.0@, r.1@) == split_path(id_path@),
{
    let chars = chars_of(id_path);
    match find_last(&chars, '.') {
        Some(i) => {
            let id = string_of(&chars, 0, i);
            let ext = string_of(&chars, i + 1, chars.len());
            assert(chars@.subrange(0, i as int) =~= chars@.take(i as int));
            assert(chars@.subrange(i + 1, chars@.len() as int) =~= chars@.skip(i + 1));
            (id, ext)
        },
        None => (String::from_str(id_path), String::new()),
    }
}

/// The last part of a path.
pub fn file_name_of(path: &str) -> (r: String)
    ensures
        r@ == file_name_part(path@),
{
    let chars = chars_of(path);
    match find_last(&chars, '/') {
        Some(i) => {
            let r = string_of(&chars, i + 1, chars.len());
            assert(chars@.subrange(i + 1, chars@.len() as int) =~= chars@.skip(i + 1));
            r
        },
        None => String::from_str(path),
    }
}

/// The `Content-Disposition` of the file at `path`.
pub fn disposition_of(inline: bool, path: &str) -> (r: String)
    ensures
        r@ == disposition(inline, path@),
{
    let mut r = if inline {
        String::from_str("inline")
    } else {
        String::from_str("attachment")
    };
    r.append("; filename=\"");
    r.append(file_name_of(path).as_str());
    r.append("\"");
    r
}

/// The failure of a read for which the store gave no record.
fn failure_of_lookup(id_path: &str, lookup: &Lookup) -> (r: Failure)
    ensures
        r@ == lookup_failure(id_path@, *lookup),
{
    match lookup {
        Lookup::Unavailable => Failure::StoreUnavailable,
        Lookup::Failed => Failure::StoreReadFailed { id_path: String::from_str(id_path) },
        Lookup::Corrupt => Failure::SerializationFailure,
        _ => Failure::NotFound { id_path: String::from_str(id_path) },
    }
}

/// A read on the rendered route, after the lookup of the identifier in
/// `id_path`.
pub fn file_reader(method: Method, id_path: &str, lookup: Lookup) -> (r: Reading)
    ensures
        r@ == rendered(method, id_path@, lookup),
{
    let (raw_id, ext) = split_id_path(id_path);
    match lookup {
        Lookup::Found(CDNData::Short { target }) => Reading::Done(Reply::Redirect { target }),
        Lookup::Found(CDNData::Code { is_admin: _, path, mimetype, time_added: _ }) => {
            if method == Method::Head {
                Reading::Disk(
                    DiskStep::Probe {
                        path,
                        content_type: String::from_str("text/html; charset=UTF-8"),
                    },
                )
            } else {
                let code_type = if ext.as_str().unicode_len() == 0 {
                    mimetype
                } else {
                    ext
                };
                Reading::Disk(
                    DiskStep::ReadPaste {
                        path,
                        code_type,
                        file_id: raw_id,
                        id_path: String::from_str(id_path),
                    },
                )
            }
        },
        Lookup::Found(CDNData::File { is_admin: _, path, mimetype, time_added: _ }) => {
            Reading::Disk(
                DiskStep::Open {
                    path,
                    mimetype,
                    id_path: String::from_str(id_path),
                    head: method == Method::Head,
                },
            )
        },
        other => Reading::Done(Reply::Failed(failure_of_lookup(id_path, &other))),
    }
}

/// A read on the raw route, after the lookup of the identifier in
/// `id_path`; `guessed` is the content type guessed for the stored
/// extension of a text.
pub fn file_reader_raw_guessed(
    method: Method,
    id_path: &str,
    lookup: Lookup,
    guessed: Option<String>,
) -> (r: Reading)
    ensures
        r@ == raw(
            method,
            id_path@,
            lookup,
            match guessed {
                Some(mime) => Some(mime@),
                None => None,
            },
        ),
{
    match lookup {
        Lookup::Found(CDNData::Code { is_admin: _, path, mimetype: _, time_added: _ }) => {
            let content_type = match guessed {
                Some(mime) => mime,
                None => String::from_str("text/plain"),
            };
            if method == Method::Head {
                Reading::Disk(DiskStep::Probe { path, content_type })
            } else {
                Reading::Disk(
                    DiskStep::ReadRaw { path, content_type, id_path: String::from_str(id_path) },
                )
            }
        },
        other => Reading::Done(Reply::Failed(failure_of_lookup(id_path, &other))),
    }
}

/// A read on the raw route, after the lookup of the identifier in
/// `id_path`.
pub fn file_reader_raw(method: Method, id_path: &str, lookup: Lookup) -> (r: Reading)
    ensures
        r@ == raw(
            method,
            id_path@,
            lookup,
            match stored_extension(lookup) {
                Some(ext) => guessed_type(ext),
                None => None,
            },
        ),
{
    let guessed = match &lookup {
        Lookup::Found(CDNData::Code { mimetype, .. }) => type_of_extension(mimetype.as_str()),
        _ => None,
    };
    file_reader_raw_guessed(method, id_path, lookup, guessed)
}

impl DiskStep {
    /// The file that the step looks at.
    pub fn path(&self) -> (r: &String)
        ensures
            r@ == match self@ {
                DiskStepView::Probe { path, .. } => path,
                DiskStepView::ReadPaste { path, .. } => path,
                DiskStepView::ReadRaw { path, .. } => path,
                DiskStepView::Open { path, .. } => path,
            },
    {
        match self {
            DiskStep::Probe { path, .. } => path,
            DiskStep::ReadPaste { path, .. } => path,
            DiskStep::ReadRaw { path, .. } => path,
            DiskStep::Open { path, .. } => path,
        }
    }

    /// The answer, once the disk has shown `reply`.
    pub fn answer(self, reply: DiskReply) -> (r: Reply)
        ensures
            r@ == answered(self@, reply),
    {
        match self {
            DiskStep::Probe { path: _, content_type } => {
                let status: u16 = match reply {
                    DiskReply::Absent => 410,
                    DiskReply::Failed => 500,
                    DiskReply::NoMetadata => 500,
                    _ => 200,
                };
                Reply::Bare { status, content_type }
            },
            DiskStep::ReadPaste { path: _, code_type, file_id, id_path } => match reply {
                DiskReply::Text(content) => Reply::Paste(
                    TemplatePaste { code_type, code_data: TemplateCodeData::new(content), file_id },
                ),
                DiskReply::Absent => Reply::Failed(Failure::Gone { id_path }),
                _ => Reply::Failed(Failure::ReadFailed { id_path }),
            },
            DiskStep::ReadRaw { path, content_type, id_path } => match reply {
                DiskReply::Text(content) => {
                    let content_length: u64 = content.as_str().len() as u64;
                    Reply::Raw {
                        content_type,
                        content_disposition: disposition_of(false, path.as_str()),
                        content_length,
                        content,
                    }
                },
                DiskReply::Absent => Reply::Failed(Failure::Gone { id_path }),
                _ => Reply::Failed(Failure::ReadFailed { id_path }),
            },
            DiskStep::Open { path, mimetype, id_path, head } => match reply {
                DiskReply::Opened(size) => {
                    let inline = has_prefix(mimetype.as_str(), "image/") || has_prefix(
                        mimetype.as_str(),
                        "video/",
                    );
                    Reply::File {
                        content_type: mimetype,
                        content_length: size,
                        content_disposition: disposition_of(inline, path.as_str()),
                        path,
                        head,
                    }
                },
                DiskReply::Absent => Reply::Failed(Failure::Gone { id_path }),
                DiskReply::NoMetadata => Reply::Failed(Failure::MetadataFailed),
                _ => Reply::Failed(Failure::ReadFailed { id_path }),
            },
        }
    }
}

/// Gone is not the same as not found. A read of a text or a file whose
/// record is kept but whose file has left the disk is answered with 410 on
/// the rendered route, and so is that of a text on the raw route; a read of
/// an identifier that the store keeps nothing under is answered with 404 on
/// either route.
pub proof fn lemma_gone_is_not_not_found(
    method: Method,
    id_path: Seq<char>,
    record: CDNData,
    guessed: Option<Seq<char>>,
    disk: DiskReply,
)
    ensures
        !(record is Short) ==> resolved(
            rendered(method, id_path, Lookup::Found(record)),
            DiskReply::Absent,
        ).status() == 410,
        record is Code ==> resolved(
            raw(method, id_path, Lookup::Found(record), guessed),
            DiskReply::Absent,
        ).status() == 410,
        resolved(rendered(method, id_path, Lookup::Missing), disk).status() == 404,
        resolved(raw(method, id_path, Lookup::Missing, guessed), disk).status() == 404,
{
}

/// Round trip. A text that was taken in under the declared extension
/// `txt` is kept as a text under that extension; read back on the raw
/// route, from a disk that gives back the bytes that were written, it comes
/// out as it went in, with the content type that is guessed for `txt`.
/// `record` is the record that was kept and `content` the text that the
/// disk gives back.
pub proof fn lemma_text_round_trip(
    config: IhaCdnConfig,
    upload: UploadView,
    root: Seq<char>,
    now: i64,
    known: Option<Seq<Seq<char>>>,
    record: CDNData,
    id_path: Seq<char>,
    content: String,
)
    requires
        is_text(settled_type(upload)),
        upload.real_extension == "txt"@,
        record@ == finished(config, upload, root, now, known).record,
        vstd::utf8::encode_utf8(content@) == upload.consumed,
    ensures
        stored_extension(Lookup::Found(record)) == Some("txt"@),
        resolved(
            raw(Method::Get, id_path, Lookup::Found(record), guessed_type("txt"@)),
            DiskReply::Text(content),
        ) == (ReplyView::Raw {
            content_type: raw_type(guessed_type("txt"@)),
            content_disposition: disposition(
                false,
                finished(config, upload, root, now, known).path,
            ),
            content_length: (upload.consumed.len() as usize) as u64,
            content: content@,
        }),
{
}

} // verus!
