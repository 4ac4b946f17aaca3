//! Taking objects in: allocating an identifier, checking and collecting the
//! bytes of an upload, and writing down the record that will be kept.

use crate::address::{parse_url, parsed_url};
use crate::config::{join_path, joined_path, upload_dir_name, IhaCdnConfig};
use crate::content_type::{extensions_of, known_extensions, sniff, sniffed_type};
use crate::failure::{outcome, Failure, FailureView};
use crate::state::{CDNData, CDNDataView, PREFIX};
use crate::text::{
    chars_of, concat2, find_last, has_prefix, last_position, push_char, str_eq, string_of, views,
};
use vstd::prelude::*;
use vstd::string::StringExecFns;

verus! {

/// Whether `c` is one of the 26 lowercase letters.
pub open spec fn is_lowercase_letter(c: char) -> bool {
    'a' <= c <= 'z'
}

/// Whether `name` is an identifier of `amount` characters.
pub open spec fn is_identifier(name: Seq<char>, amount: nat) -> bool {
    &&& name.len() == amount
    &&& forall|i: int| 0 <= i < name.len() ==> is_lowercase_letter(#[trigger] name[i])
}

/// The key under which the record of `identifier` is kept.
pub open spec fn object_key(identifier: Seq<char>) -> Seq<char> {
    PREFIX@ + identifier
}

/// Picks one character of `alphabet` at random, with
/// `rand::seq::IteratorRandom::choose` on the thread's generator `rand::rng`.
/// The contract claims what holds of every draw: a character that comes out
/// stands in `alphabet`, and nothing comes out only where `alphabet` is
/// empty.
#[verifier::external_body]
fn pick(alphabet: &str) -> (r: Option<char>)
    ensures
        r matches Some(c) ==> alphabet@.contains(c),
        r is None ==> alphabet@.len() == 0,
{
    rand::seq::IteratorRandom::choose(alphabet.chars(), &mut rand::rng())
}

/// A random identifier of `amount` lowercase letters.
pub fn randomize_file_name(amount: usize) -> (name: String)
    ensures
        is_identifier(name@, amount as nat),
{
    let chars = "abcdefghijklmnopqrstuvwxyz";
    proof {
        reveal_strlit("abcdefghijklmnopqrstuvwxyz");
    }
    let mut name = String::new();
    let mut i: usize = 0;
    while i < amount
        invariant
            i <= amount,
            chars@ == "abcdefghijklmnopqrstuvwxyz"@,
            chars@.len() == 26,
            forall|k: int| 0 <= k < 26 ==> is_lowercase_letter(#[trigger] chars@[k]),
            is_identifier(name@, i as nat),
        decreases amount - i,
    {
        match pick(chars) {
            Some(c) => {
                push_char(&mut name, c);
                i += 1;
            },
            None => {
                assert(false);
            },
        }
    }
    name
}

/// The key under which the record of `identifier` is kept.
pub fn key_of(identifier: &str) -> (key: String)
    ensures
        key@ == object_key(identifier@),
{
    concat2(PREFIX, identifier)
}

/// What the allocator does next.
#[derive(Debug, Clone)]
pub enum Allocation {
    /// Ask the metadata store how many records are kept under the key of
    /// this candidate, and come back with the answer.
    Probe(String),
    /// The identifier is free.
    Done(String),
    /// The store did not answer; no identifier is given out.
    Failed(Failure),
}

/// Whether the store's answer to a probe says that the candidate is free:
/// it did answer, and counted no record under the key.
pub open spec fn says_free(reply: Option<i64>) -> bool {
    reply matches Some(count) && count <= 0
}

/// What the allocator reports where the store did not answer a probe.
pub open spec fn probe_failure() -> FailureView {
    FailureView::AllocationFailure { reason: "Unable to query redis for existing name"@ }
}

/// One step of the allocation of an identifier of `amount` letters. At the
/// start `probed` is `None`, and a first candidate is drawn. After that
/// `probed` holds the last candidate and the store's answer to the probe of
/// its key, `None` where the store failed. A candidate that the store
/// counts no record for is given out; one that is taken is dropped for a
/// fresh one, as often as it takes.
pub fn generate_file_name(amount: usize, probed: Option<(String, Option<i64>)>) -> (r: Allocation)
    ensures
        match probed {
            None => r matches Allocation::Probe(c) && is_identifier(c@, amount as nat),
            Some((candidate, reply)) => match reply {
                None => r matches Allocation::Failed(f) && f@ == probe_failure(),
                Some(count) => if count > 0 {
                    r matches Allocation::Probe(c) && is_identifier(c@, amount as nat)
                } else {
                    r matches Allocation::Done(name) && name@ == candidate@
                },
            },
        },
        r is Done <==> (probed matches Some(p) && says_free(p.1)),
{
    match probed {
        None => Allocation::Probe(randomize_file_name(amount)),
        Some((candidate, reply)) => match reply {
            None => Allocation::Failed(
                Failure::AllocationFailure {
                    reason: String::from_str("Unable to query redis for existing name"),
                },
            ),
            Some(count) => if count > 0 {
                Allocation::Probe(randomize_file_name(amount))
            } else {
                Allocation::Done(candidate)
            },
        },
    }
}

/// The keys of `identifiers`, added to `store`.
pub open spec fn store_with(store: Set<Seq<char>>, identifiers: Seq<Seq<char>>) -> Set<Seq<char>> {
    store.union(
        Set::new(
            |key: Seq<char>|
                exists|i: int|
                    0 <= i < identifiers.len() && key == object_key(#[trigger] identifiers[i]),
        ),
    )
}

/// Whether `count` is a true answer to the probe of `identifier` in `store`.
pub open spec fn true_answer(store: Set<Seq<char>>, identifier: Seq<char>, count: i64) -> bool {
    (count > 0) == store.contains(object_key(identifier))
}

/// Whether `identifiers` can have been allocated one after the other,
/// starting from `store`: each was given out on a true answer of the store
/// as it stood with the keys of all earlier ones written.
pub open spec fn allocated_in_turn(
    store: Set<Seq<char>>,
    identifiers: Seq<Seq<char>>,
    counts: Seq<i64>,
) -> bool {
    &&& counts.len() == identifiers.len()
    &&& forall|k: int|
        0 <= k < identifiers.len() ==> {
            &&& true_answer(
                store_with(store, identifiers.take(k)),
                identifiers[k],
                #[trigger] counts[k],
            )
            &&& says_free(Some(counts[k]))
        }
}

/// Two identifiers with one key are the same identifier.
pub proof fn lemma_key_is_injective(a: Seq<char>, b: Seq<char>)
    requires
        object_key(a) == object_key(b),
    ensures
        a == b,
{
    assert(object_key(a).skip(PREFIX@.len() as int) =~= a);
    assert(object_key(b).skip(PREFIX@.len() as int) =~= b);
}

/// Uniqueness: identifiers that are allocated one after the other, each
/// written to the store before the next is asked for, are pairwise
/// distinct, whatever the store held at the start.
pub proof fn lemma_allocations_are_distinct(
    store: Set<Seq<char>>,
    identifiers: Seq<Seq<char>>,
    counts: Seq<i64>,
)
    requires
        allocated_in_turn(store, identifiers, counts),
    ensures
        forall|i: int, j: int|
            0 <= i < j < identifiers.len() ==> identifiers[i] != identifiers[j],
        forall|i: int, j: int|
            0 <= i < j < identifiers.len() ==> object_key(identifiers[i]) != object_key(
                identifiers[j],
            ),
        forall|i: int| 0 <= i < identifiers.len() ==> !store.contains(object_key(identifiers[i])),
{
    assert forall|i: int, j: int| 0 <= i < j < identifiers.len() implies identifiers[i]
        != identifiers[j] by {
        let earlier = identifiers.take(j);
        assert(earlier[i] == identifiers[i]);
        assert(true_answer(store_with(store, earlier), identifiers[j], counts[j]));
        if identifiers[i] == identifiers[j] {
            assert(store_with(store, earlier).contains(object_key(earlier[i])));
        }
    }
    assert forall|i: int, j: int| 0 <= i < j < identifiers.len() implies object_key(
        identifiers[i],
    ) != object_key(identifiers[j]) by {
        if object_key(identifiers[i]) == object_key(identifiers[j]) {
            lemma_key_is_injective(identifiers[i], identifiers[j]);
        }
    }
    assert forall|i: int| 0 <= i < identifiers.len() implies !store.contains(
        object_key(identifiers[i]),
    ) by {
        assert(true_answer(store_with(store, identifiers.take(i)), identifiers[i], counts[i]));
    }
}

/// The form of a request to shorten a URL.
#[derive(Debug, Clone)]
pub struct ShortenForm {
    pub url: String,
}

/// An upload that has been taken in whole.
#[derive(Debug, Clone)]
pub struct FileState {
    /// The bytes of the upload.
    pub chunks: Vec<u8>,
    /// The content type read off the first chunk.
    pub mime_types: String,
    /// The extension that the content type stands for, or, where it stands
    /// for none, the declared one.
    pub extension: String,
    /// The extension that the upload was declared with.
    pub real_extension: String,
    /// The identifier of the upload.
    pub file_name: String,
}

/// A `FileState` as plain values.
pub struct FileStateView {
    pub chunks: Seq<u8>,
    pub mime_types: Seq<char>,
    pub extension: Seq<char>,
    pub real_extension: Seq<char>,
    pub file_name: Seq<char>,
}

impl View for FileState {
    type V = FileStateView;

    open spec fn view(&self) -> FileStateView {
        FileStateView {
            chunks: self.chunks@,
            mime_types: self.mime_types@,
            extension: self.extension@,
            real_extension: self.real_extension@,
            file_name: self.file_name@,
        }
    }
}

/// An upload while its bytes come in.
#[derive(Debug, Clone)]
pub struct Upload {
    /// The identifier of the upload.
    pub file_name: String,
    /// The extension that the upload was declared with.
    pub real_extension: String,
    /// Whether an administrator sends it.
    pub is_admin: bool,
    /// How many bytes it may hold; `None` is no limit.
    pub limit: Option<u64>,
    /// The content type read off the first chunk, once there was one.
    pub guess_type: Option<String>,
    /// The bytes taken in so far.
    pub consumed: Vec<u8>,
}

/// An `Upload` as plain values.
pub struct UploadView {
    pub file_name: Seq<char>,
    pub real_extension: Seq<char>,
    pub is_admin: bool,
    pub limit: Option<u64>,
    pub guess_type: Option<Seq<char>>,
    pub consumed: Seq<u8>,
}

impl View for Upload {
    type V = UploadView;

    open spec fn view(&self) -> UploadView {
        UploadView {
            file_name: self.file_name@,
            real_extension: self.real_extension@,
            is_admin: self.is_admin,
            limit: self.limit,
            guess_type: match self.guess_type {
                Some(t) => Some(t@),
                None => None,
            },
            consumed: self.consumed@,
        }
    }
}

/// An upload that was accepted: what is written where, and what is
/// answered.
#[derive(Debug, Clone)]
pub struct Stored {
    /// The upload itself.
    pub state: FileState,
    /// The file that its bytes are written to.
    pub path: String,
    /// The record that is kept of it.
    pub record: CDNData,
    /// The key that the record is kept under.
    pub key: String,
    /// The public URL, which is the answer to the request.
    pub url: String,
}

/// A `Stored` as plain values.
pub struct StoredView {
    pub state: FileStateView,
    pub path: Seq<char>,
    pub record: CDNDataView,
    pub key: Seq<char>,
    pub url: Seq<char>,
}

impl View for Stored {
    type V = StoredView;

    open spec fn view(&self) -> StoredView {
        StoredView {
            state: self.state@,
            path: self.path@,
            record: self.record@,
            key: self.key@,
            url: self.url@,
        }
    }
}

/// The extension that a file name declares: what follows its last `.`, or
/// `bin` where it holds none.
pub open spec fn declared_extension(given_name: Seq<char>) -> Seq<char> {
    match last_position(given_name, '.') {
        Some(i) => given_name.skip(i + 1),
        None => "bin"@,
    }
}

/// The name of an object's file: the identifier, a `.`, the extension.
pub open spec fn full_name(identifier: Seq<char>, extension: Seq<char>) -> Seq<char> {
    identifier + seq!['.'] + extension
}

/// The start of an upload. The declared content type is checked first, then
/// the declared extension; nothing of the body has been read by then.
pub open spec fn begun(
    config: IhaCdnConfig,
    is_admin: bool,
    identifier: Seq<char>,
    content_type: Seq<char>,
    given_name: Seq<char>,
) -> Result<UploadView, FailureView> {
    let extension = declared_extension(given_name);
    if !config.allows_filetype(content_type) {
        Err(FailureView::BlockedType { what: content_type })
    } else if !config.allows_extension(extension) {
        Err(FailureView::BlockedType { what: extension })
    } else {
        Ok(
            UploadView {
                file_name: identifier,
                real_extension: extension,
                is_admin,
                limit: config.limit_bytes(is_admin),
                guess_type: None,
                consumed: Seq::empty(),
            },
        )
    }
}

/// One chunk more, of which `sniffed` is the content type that its bytes
/// show. The type counts on the first chunk only, and is checked before the
/// size; the size is checked on every chunk, before the chunk is kept.
pub open spec fn accepted(
    config: IhaCdnConfig,
    upload: UploadView,
    chunk: Seq<u8>,
    sniffed: Seq<char>,
) -> Result<UploadView, FailureView> {
    if upload.guess_type is None && !config.allows_filetype(sniffed) {
        Err(FailureView::BlockedType { what: sniffed })
    } else if upload.limit is Some && upload.consumed.len() + chunk.len() > upload.limit->0 {
        Err(
            FailureView::PayloadTooLarge {
                file_name: full_name(upload.file_name, upload.real_extension),
                limit: upload.limit->0,
            },
        )
    } else {
        Ok(
            UploadView {
                guess_type: if upload.guess_type is None {
                    Some(sniffed)
                } else {
                    upload.guess_type
                },
                consumed: upload.consumed + chunk,
                ..upload
            },
        )
    }
}

/// One chunk more.
pub open spec fn fed(config: IhaCdnConfig, upload: UploadView, chunk: Seq<u8>) -> Result<
    UploadView,
    FailureView,
> {
    accepted(config, upload, chunk, sniffed_type(chunk))
}

/// All of `chunks`, one after the other, up to the first that is refused.
pub open spec fn fed_all(config: IhaCdnConfig, upload: UploadView, chunks: Seq<Seq<u8>>) -> Result<
    UploadView,
    FailureView,
>
    decreases chunks.len(),
{
    if chunks.len() == 0 {
        Ok(upload)
    } else {
        match fed(config, upload, chunks[0]) {
            Ok(next) => fed_all(config, next, chunks.skip(1)),
            Err(e) => Err(e),
        }
    }
}

/// The bytes of `chunks`, in one piece.
pub open spec fn joined(chunks: Seq<Seq<u8>>) -> Seq<u8>
    decreases chunks.len(),
{
    if chunks.len() == 0 {
        Seq::empty()
    } else {
        chunks[0] + joined(chunks.skip(1))
    }
}

/// The extension that stands for a content type of which `known` are the
/// extensions on record: the first of them, unless there is none or it is
/// the catch-all `bin`; then the declared one.
pub open spec fn canonical_extension(known: Option<Seq<Seq<char>>>, declared: Seq<char>) -> Seq<
    char,
> {
    match known {
        Some(list) => if list.len() > 0 && list[0] != "bin"@ {
            list[0]
        } else {
            declared
        },
        None => declared,
    }
}

/// The content type of an upload: what its first chunk showed, or that of
/// arbitrary bytes where it had no chunk.
pub open spec fn settled_type(upload: UploadView) -> Seq<char> {
    match upload.guess_type {
        Some(t) => t,
        None => "application/octet-stream"@,
    }
}

/// Whether a content type is that of a text.
pub open spec fn is_text(mime: Seq<char>) -> bool {
    "text/"@.is_prefix_of(mime)
}

/// The end of an upload, at the time `now`, with the upload root at `root`;
/// `known` are the extensions on record for its content type. The file and
/// the URL go by the declared extension. A text is kept as `Code`, whose
/// `mimetype` is the declared extension; anything else as `File`, whose
/// `mimetype` is the content type.
pub open spec fn finished(
    config: IhaCdnConfig,
    upload: UploadView,
    root: Seq<char>,
    now: i64,
    known: Option<Seq<Seq<char>>>,
) -> StoredView {
    let mime = settled_type(upload);
    let name = full_name(upload.file_name, upload.real_extension);
    let path = joined_path(joined_path(root, upload_dir_name(upload.is_admin)), name);
    StoredView {
        state: FileStateView {
            chunks: upload.consumed,
            mime_types: mime,
            extension: canonical_extension(known, upload.real_extension),
            real_extension: upload.real_extension,
            file_name: upload.file_name,
        },
        path,
        record: if is_text(mime) {
            CDNDataView::Code {
                is_admin: upload.is_admin,
                path,
                mimetype: upload.real_extension,
                time_added: now,
            }
        } else {
            CDNDataView::File {
                is_admin: upload.is_admin,
                path,
                mimetype: mime,
                time_added: now,
            }
        },
        key: object_key(upload.file_name),
        url: config.url_of(name),
    }
}

/// The extension that a file name declares.
pub fn extension_of_name(given_name: &str) -> (r: String)
    ensures
        r@ == declared_extension(given_name@),
{
    let chars = chars_of(given_name);
    match find_last(&chars, '.') {
        Some(i) => {
            let r = string_of(&chars, i + 1, chars.len());
            assert(chars@.subrange(i + 1, chars@.len() as int) =~= chars@.skip(i + 1));
            r
        },
        None => String::from_str("bin"),
    }
}

/// The name of an object's file.
pub fn name_with_extension(identifier: &str, extension: &str) -> (r: String)
    ensures
        r@ == full_name(identifier@, extension@),
{
    let mut r = String::from_str(identifier);
    push_char(&mut r, '.');
    r.append(extension);
    r
}

/// Starts an upload under the identifier `file_name`, of which the request
/// declares the content type `content_type` and the file name
/// `given_name`.
pub fn begin_upload(
    config: &IhaCdnConfig,
    is_admin: bool,
    file_name: String,
    content_type: &str,
    given_name: &str,
) -> (r: Result<Upload, Failure>)
    requires
        config.storage.limits_fit(),
    ensures
        outcome(r) == begun(*config, is_admin, file_name@, content_type@, given_name@),
{
    if !config.is_filetype_allowed(content_type) {
        return Err(Failure::BlockedType { what: String::from_str(content_type) });
    }
    let extension = extension_of_name(given_name);
    if !config.is_extension_allowed(extension.as_str()) {
        return Err(Failure::BlockedType { what: extension });
    }
    let upload = Upload {
        file_name,
        real_extension: extension,
        is_admin,
        limit: config.get_limit(is_admin),
        guess_type: None,
        consumed: Vec::new(),
    };
    assert(upload@.consumed =~= Seq::<u8>::empty());
    Ok(upload)
}

impl Upload {
    /// Takes one chunk more, of which `sniffed` is the content type that
    /// its bytes show.
    pub fn accept(self, config: &IhaCdnConfig, chunk: &[u8], sniffed: String) -> (r: Result<
        Upload,
        Failure,
    >)
        ensures
            outcome(r) == accepted(*config, self@, chunk@, sniffed@),
    {
        let first = self.guess_type.is_none();
        if first && !config.is_filetype_allowed(sniffed.as_str()) {
            return Err(Failure::BlockedType { what: sniffed });
        }
        match self.limit {
            Some(limit) => {
                let expected: u128 = self.consumed.len() as u128 + chunk.len() as u128;
                if expected > limit as u128 {
                    return Err(
                        Failure::PayloadTooLarge {
                            file_name: name_with_extension(
                                self.file_name.as_str(),
                                self.real_extension.as_str(),
                            ),
                            limit,
                        },
                    );
                }
            },
            None => {},
        }
        let ghost before = self@;
        let Upload { file_name, real_extension, is_admin, limit, guess_type, consumed } = self;
        let mut consumed = consumed;
        consumed.extend_from_slice(chunk);
        assert(consumed@ =~= before.consumed + chunk@);
        let guess_type = if first {
            Some(sniffed)
        } else {
            guess_type
        };
        Ok(Upload { file_name, real_extension, is_admin, limit, guess_type, consumed })
    }

    /// Takes one chunk more. The content type is read off the first chunk.
    pub fn feed(self, config: &IhaCdnConfig, chunk: &[u8]) -> (r: Result<Upload, Failure>)
        ensures
            outcome(r) == fed(*config, self@, chunk@),
    {
        let sniffed = if self.guess_type.is_none() {
            sniff(chunk)
        } else {
            String::new()
        };
        self.accept(config, chunk, sniffed)
    }

    /// Takes all of `chunks`, one after the other, up to the first that is
    /// refused.
    pub fn feed_all(self, config: &IhaCdnConfig, chunks: &Vec<Vec<u8>>) -> (r: Result<
        Upload,
        Failure,
    >)
        ensures
            outcome(r) == fed_all(*config, self@, chunk_views(chunks@)),
    {
        let ghost start = self@;
        let ghost all = chunk_views(chunks@);
        let mut upload = self;
        let mut i: usize = 0;
        assert(all.skip(0) =~= all);
        while i < chunks.len()
            invariant
                i <= chunks.len(),
                all == chunk_views(chunks@),
                start == self@,
                fed_all(*config, start, all) == fed_all(*config, upload@, all.skip(i as int)),
            decreases chunks.len() - i,
        {
            let ghost rest = all.skip(i as int);
            assert(rest[0] == chunks@[i as int]@);
            assert(rest.skip(1) =~= all.skip(i + 1));
            let ghost current = upload@;
            assert(fed_all(*config, current, rest) == match fed(*config, current, rest[0]) {
                Ok(next) => fed_all(*config, next, rest.skip(1)),
                Err(e) => Err(e),
            });
            match upload.feed(config, chunks[i].as_slice()) {
                Ok(next) => {
                    upload = next;
                },
                Err(e) => {
                    return Err(e);
                },
            }
            i += 1;
        }
        Ok(upload)
    }

    /// Ends the upload at the time `now`, with the upload root at
    /// `upload_root`; `known` are the extensions on record for its content
    /// type.
    pub fn finish_with(
        self,
        config: &IhaCdnConfig,
        upload_root: &str,
        now: i64,
        known: Option<Vec<String>>,
    ) -> (r: Stored)
        ensures
            r@ == finished(*config, self@, upload_root@, now, known_view(known)),
    {
        let ghost before = self@;
        let Upload { file_name, real_extension, is_admin, limit: _, guess_type, consumed } = self;
        let mime = match guess_type {
            Some(t) => t,
            None => String::from_str("application/octet-stream"),
        };
        let extension = canonical_extension_of(&known, real_extension.as_str());
        let name = name_with_extension(file_name.as_str(), real_extension.as_str());
        let dir = config.get_path(upload_root, is_admin);
        let path = join_path(dir.as_str(), name.as_str());
        let key = key_of(file_name.as_str());
        let url = config.make_url(name.as_str());
        let record = if has_prefix(mime.as_str(), "text/") {
            CDNData::Code {
                is_admin,
                path: path.clone(),
                mimetype: real_extension.clone(),
                time_added: now,
            }
        } else {
            CDNData::File { is_admin, path: path.clone(), mimetype: mime.clone(), time_added: now }
        };
        Stored {
            state: FileState { chunks: consumed, mime_types: mime, extension, real_extension, file_name },
            path,
            record,
            key,
            url,
        }
    }

    /// Ends the upload at the time `now`, with the upload root at
    /// `upload_root`.
    pub fn finish(self, config: &IhaCdnConfig, upload_root: &str, now: i64) -> (r: Stored)
        ensures
            r@ == finished(
                *config,
                self@,
                upload_root@,
                now,
                known_extensions(settled_type(self@)),
            ),
    {
        let known = match &self.guess_type {
            Some(t) => extensions_of(t.as_str()),
            None => extensions_of("application/octet-stream"),
        };
        self.finish_with(config, upload_root, now, known)
    }
}

/// The step at which the writing of an upload's file failed.
#[derive(Debug, Clone, Copy, PartialEq, Eq, Structural)]
pub enum WriteStep {
    /// The file could not be created.
    Create,
    /// The bytes could not be written.
    Write,
    /// The bytes could not be flushed.
    Flush,
}

/// The failure of an upload whose file could not be written.
pub open spec fn write_failed(stored: StoredView, step: WriteStep) -> FailureView {
    let file_name = full_name(stored.state.file_name, stored.state.real_extension);
    let size: u64 = (stored.state.chunks.len() as usize) as u64;
    match step {
        WriteStep::Create => FailureView::CreateFailed { file_name },
        WriteStep::Write => FailureView::WriteFailed { file_name, size },
        WriteStep::Flush => FailureView::FlushFailed { file_name, size },
    }
}

/// The end of a request's upload: `taken` is the upload of its field
/// `file`, and `None` where the request held no such field.
pub open spec fn concluded(
    config: IhaCdnConfig,
    taken: Option<UploadView>,
    root: Seq<char>,
    now: i64,
) -> Result<StoredView, FailureView> {
    match taken {
        Some(upload) => Ok(
            finished(config, upload, root, now, known_extensions(settled_type(upload))),
        ),
        None => Err(FailureView::MissingField),
    }
}

/// Whether a field of the request is the one that holds the upload.
pub fn is_upload_field(name: &str) -> (r: bool)
    ensures
        r == (name@ == "file"@),
{
    str_eq(name, "file")
}

/// Ends the upload of a request at the time `now`, with the upload root at
/// `upload_root`; `taken` is the upload of its field `file`, and `None`
/// where the request held no such field.
pub fn conclude(taken: Option<Upload>, config: &IhaCdnConfig, upload_root: &str, now: i64) -> (r:
    Result<Stored, Failure>)
    ensures
        outcome(r) == concluded(
            *config,
            match taken {
                Some(upload) => Some(upload@),
                None => None,
            },
            upload_root@,
            now,
        ),
{
    match taken {
        Some(upload) => Ok(upload.finish(config, upload_root, now)),
        None => Err(Failure::MissingField),
    }
}

impl Stored {
    /// The failure of the upload where its file could not be written.
    pub fn write_failure(&self, step: WriteStep) -> (r: Failure)
        ensures
            r@ == write_failed(self@, step),
    {
        let file_name = name_with_extension(
            self.state.file_name.as_str(),
            self.state.real_extension.as_str(),
        );
        let size: u64 = self.state.chunks.len() as u64;
        match step {
            WriteStep::Create => Failure::CreateFailed { file_name },
            WriteStep::Write => Failure::WriteFailed { file_name, size },
            WriteStep::Flush => Failure::FlushFailed { file_name, size },
        }
    }
}

/// The chunks of an upload as plain values.
pub open spec fn chunk_views(chunks: Seq<Vec<u8>>) -> Seq<Seq<u8>> {
    Seq::new(chunks.len(), |i: int| chunks[i]@)
}

/// A list of extensions as plain values.
pub open spec fn known_view(known: Option<Vec<String>>) -> Option<Seq<Seq<char>>> {
    match known {
        Some(list) => Some(views(list@)),
        None => None,
    }
}

/// The extension that stands for a content type of which `known` are the
/// extensions on record.
pub fn canonical_extension_of(known: &Option<Vec<String>>, declared: &str) -> (r: String)
    ensures
        r@ == canonical_extension(known_view(*known), declared@),
{
    match known {
        Some(list) => {
            if list.len() > 0 && !str_eq(list[0].as_str(), "bin") {
                assert(views(list@)[0] == list@[0]@);
                list[0].clone()
            } else {
                if list.len() > 0 {
                    assert(views(list@)[0] == list@[0]@);
                }
                String::from_str(declared)
            }
        },
        None => String::from_str(declared),
    }
}

/// Size enforcement. Of an upload that is limited to `limit` bytes, and
/// whose content type is not refused on its first chunk: if all its bytes,
/// those taken before and those of `chunks`, number more than `limit`, it
/// fails as too large, and nothing is left to write; if they number
/// `limit` or fewer, it succeeds, and holds exactly those bytes.
pub proof fn lemma_size_limit_is_enforced(
    config: IhaCdnConfig,
    upload: UploadView,
    chunks: Seq<Seq<u8>>,
    limit: u64,
)
    requires
        upload.limit == Some(limit),
        upload.consumed.len() <= limit,
        upload.guess_type is None && chunks.len() > 0 ==> config.allows_filetype(
            sniffed_type(chunks[0]),
        ),
    ensures
        upload.consumed.len() + joined(chunks).len() > limit ==> fed_all(config, upload, chunks)
            == Err::<UploadView, FailureView>(
            FailureView::PayloadTooLarge {
                file_name: full_name(upload.file_name, upload.real_extension),
                limit,
            },
        ),
        upload.consumed.len() + joined(chunks).len() <= limit ==> (fed_all(config, upload, chunks)
            matches Ok(done) && done.consumed == upload.consumed + joined(chunks)
            && done.file_name == upload.file_name && done.real_extension == upload.real_extension
            && done.is_admin == upload.is_admin),
    decreases chunks.len(),
{
    if chunks.len() == 0 {
        assert(upload.consumed + joined(chunks) =~= upload.consumed);
    } else {
        let rest = chunks.skip(1);
        assert(joined(chunks) == chunks[0] + joined(rest));
        match fed(config, upload, chunks[0]) {
            Ok(next) => {
                lemma_size_limit_is_enforced(config, next, rest, limit);
                assert(next.consumed + joined(rest) =~= upload.consumed + joined(chunks));
            },
            Err(e) => {},
        }
    }
}

/// Type enforcement precedence. An upload that was let in by its declared
/// content type and extension is still refused as of a blocked type where
/// the bytes of its first chunk show one, whatever its size.
pub proof fn lemma_sniffed_type_is_enforced(
    config: IhaCdnConfig,
    is_admin: bool,
    identifier: Seq<char>,
    content_type: Seq<char>,
    given_name: Seq<char>,
    chunks: Seq<Seq<u8>>,
)
    requires
        chunks.len() > 0,
        !config.allows_filetype(sniffed_type(chunks[0])),
    ensures
        config.allows_filetype(content_type) && config.allows_extension(
            declared_extension(given_name),
        ) ==> (begun(config, is_admin, identifier, content_type, given_name) matches Ok(upload)
            && fed_all(config, upload, chunks) == Err::<UploadView, FailureView>(
            FailureView::BlockedType { what: sniffed_type(chunks[0]) },
        )),
{
}

/// A URL that was shortened: what is kept, and what is answered.
#[derive(Debug, Clone)]
pub struct Shortened {
    /// The record that is kept.
    pub record: CDNData,
    /// The key that the record is kept under.
    pub key: String,
    /// The public short URL, which is the answer to the request.
    pub url: String,
}

/// A `Shortened` as plain values.
pub struct ShortenedView {
    pub record: CDNDataView,
    pub key: Seq<char>,
    pub url: Seq<char>,
}

impl View for Shortened {
    type V = ShortenedView;

    open spec fn view(&self) -> ShortenedView {
        ShortenedView { record: self.record@, key: self.key@, url: self.url@ }
    }
}

/// The shortening of `submitted` under `identifier`, of which `parsed` is
/// the URL that was read out of it, if it is one.
pub open spec fn shortened(
    config: IhaCdnConfig,
    identifier: Seq<char>,
    submitted: Seq<char>,
    parsed: Option<Seq<char>>,
) -> Result<ShortenedView, FailureView> {
    match parsed {
        Some(target) => Ok(
            ShortenedView {
                record: CDNDataView::Short { target },
                key: object_key(identifier),
                url: config.url_of(identifier),
            },
        ),
        None => Err(FailureView::InvalidUrl { url: submitted }),
    }
}

/// Shortens `submitted` under the identifier `file_name`; `parsed` is the
/// URL that was read out of it, if it is one.
pub fn shorten_parsed(
    config: &IhaCdnConfig,
    file_name: &str,
    submitted: String,
    parsed: Option<String>,
) -> (r: Result<Shortened, Failure>)
    ensures
        outcome(r) == shortened(
            *config,
            file_name@,
            submitted@,
            match parsed {
                Some(t) => Some(t@),
                None => None,
            },
        ),
{
    match parsed {
        Some(target) => Ok(
            Shortened {
                record: CDNData::Short { target },
                key: key_of(file_name),
                url: config.make_url(file_name),
            },
        ),
        None => Err(Failure::InvalidUrl { url: submitted }),
    }
}

/// Shortens the URL of `form` under the identifier `file_name`. White
/// space around the URL does not count. What is kept is the URL as the
/// parser writes it.
pub fn shorten_url(config: &IhaCdnConfig, file_name: &str, form: &ShortenForm) -> (r: Result<
    Shortened,
    Failure,
>)
    ensures
        outcome(r) == shortened(
            *config,
            file_name@,
            crate::text::trimmed(form.url@),
            parsed_url(crate::text::trimmed(form.url@)),
        ),
{
    let submitted = crate::text::trim(form.url.as_str());
    let parsed = parse_url(submitted.as_str());
    shorten_parsed(config, file_name, submitted, parsed)
}

} // verus!
