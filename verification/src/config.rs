//! The server's configuration and the rules that are read off it: who is an
//! administrator, how large an upload may be, what is blocked, and how a
//! public URL is written.

use crate::address::{join_url, joined_url, parse_url, parsed_url};
use crate::text::{concat2, contains_str, views};
use vstd::prelude::*;
use vstd::string::StringExecFns;

verus! {

/// The administrator password a fresh configuration holds. While it is
/// unchanged nobody is an administrator.
pub open spec fn unchanged_admin_password() -> Seq<char> {
    "PLEASE_CHANGE_THIS"@
}

/// The file extensions a fresh configuration blocks.
pub open spec fn stock_blocked_extensions() -> Seq<Seq<char>> {
    seq!["exe"@, "sh"@, "msi"@, "bat"@, "dll"@, "com"@]
}

/// The content types a fresh configuration blocks.
pub open spec fn stock_blocked_content_types() -> Seq<Seq<char>> {
    seq![
        "text/x-sh"@,
        "text/x-msdos-batch"@,
        "application/x-dosexec"@,
        "application/x-msdownload"@,
        "application/vnd.microsoft.portable-executable"@,
        "application/x-msi"@,
        "application/x-msdos-program"@,
        "application/x-sh"@,
    ]
}

/// A limit given in kibibytes, in bytes.
pub open spec fn kib_to_bytes(kib: u64) -> int {
    kib * 1024
}

/// `name` below the directory `base`: one `/` stands between the two unless
/// `base` is empty or already ends in one.
pub open spec fn joined_path(base: Seq<char>, name: Seq<char>) -> Seq<char> {
    if base.len() == 0 || base.last() == '/' {
        base + name
    } else {
        base + seq!['/'] + name
    }
}

/// The directory, below the upload root, that holds the uploads of one
/// audience.
pub open spec fn upload_dir_name(is_admin: bool) -> Seq<char> {
    if is_admin {
        "uploads_admin"@
    } else {
        "uploads"@
    }
}

/// Settings of the upload notifier.
#[derive(Debug, Clone)]
pub struct IhaCdnNotifierConfig {
    /// Enable or disable the notifier.
    pub enable: bool,
    /// The Discord webhook URL to send notifications to.
    pub discord_webhook: Option<String>,
}

/// Settings of Plausible Analytics.
#[derive(Debug, Clone)]
pub struct IhaCdnPlausibleConfig {
    /// Enable or disable Plausible Analytics.
    pub enable: bool,
    /// The Plausible Analytics domain.
    pub domain: Option<String>,
    /// The Plausible Analytics script URL.
    pub endpoint_url: Option<String>,
}

/// The retention policy. The two ages are counted in the unit of the time
/// stamps that the age of a file is taken from.
#[derive(Debug, Clone)]
pub struct IhaCdnRetentionConfig {
    /// Enable or disable the file retention policy.
    pub enable: bool,
    /// The age that a file of the largest allowed size is kept for.
    pub min_age: u64,
    /// The age that an empty file is kept for.
    pub max_age: u64,
}

/// Size limits of uploads, in kibibytes. `None` is no limit.
#[derive(Debug, Clone)]
pub struct IhaCdnStorageConfig {
    /// The limit for everybody but administrators.
    pub filesize_limit: Option<u64>,
    /// The limit for administrators.
    pub admin_filesize_limit: Option<u64>,
}

/// File extensions and content types that may not be uploaded.
#[derive(Debug, Clone)]
pub struct IhaCdnBlocklistConfig {
    /// Block the following file extensions.
    pub extensions: Vec<String>,
    /// Block the following MIME types.
    pub content_types: Vec<String>,
}

/// The whole configuration.
#[derive(Debug, Clone)]
pub struct IhaCdnConfig {
    /// The hostname that public URLs are written with.
    pub hostname: String,
    /// The address the server listens on.
    pub host: String,
    /// The port the server listens on.
    pub port: u16,
    /// HTTPS mode, this only affects the URL generation.
    pub https_mode: bool,
    /// The path to upload files to.
    pub upload_path: String,
    /// Admin password for uploading files.
    pub admin_password: String,
    /// The length of the random filename.
    pub filename_length: usize,
    /// Where the metadata store is reached.
    pub redis: String,
    /// Config for the notifier.
    pub notifier: IhaCdnNotifierConfig,
    /// Config for the retention policy.
    pub retention: IhaCdnRetentionConfig,
    /// Config for the storage.
    pub storage: IhaCdnStorageConfig,
    /// Config for the blocklist.
    pub blocklist: IhaCdnBlocklistConfig,
    /// Config for Plausible Analytics.
    pub plausible: IhaCdnPlausibleConfig,
}

pub fn default_hostname() -> (r: String)
    ensures
        r@ == "127.0.0.1"@,
{
    String::from_str("127.0.0.1")
}

pub fn default_redis_port() -> (r: u16)
    ensures
        r == 6379,
{
    6379
}

pub fn default_ihacdn_port() -> (r: u16)
    ensures
        r == 6969,
{
    6969
}

pub fn default_ihacdn_upload_path() -> (r: String)
    ensures
        r@ == "./"@,
{
    String::from_str("./")
}

pub fn default_ihacdn_admin_password() -> (r: String)
    ensures
        r@ == unchanged_admin_password(),
{
    String::from_str("PLEASE_CHANGE_THIS")
}

pub fn default_filename_length() -> (r: usize)
    ensures
        r == 8,
{
    8
}

pub fn default_retention_min_age() -> (r: u64)
    ensures
        r == 30,
{
    30
}

pub fn default_retention_max_age() -> (r: u64)
    ensures
        r == 180,
{
    180
}

/// 512 MiB, in kibibytes.
pub fn default_filesize_limit() -> (r: Option<u64>)
    ensures
        r == Some(524288u64),
{
    Some(524288)
}

pub fn default_block_extension() -> (r: Vec<String>)
    ensures
        views(r@) == stock_blocked_extensions(),
{
    let mut r: Vec<String> = Vec::new();
    r.push(String::from_str("exe"));
    r.push(String::from_str("sh"));
    r.push(String::from_str("msi"));
    r.push(String::from_str("bat"));
    r.push(String::from_str("dll"));
    r.push(String::from_str("com"));
    assert(views(r@) =~= stock_blocked_extensions());
    r
}

pub fn default_block_mimetypes() -> (r: Vec<String>)
    ensures
        views(r@) == stock_blocked_content_types(),
{
    let mut r: Vec<String> = Vec::new();
    r.push(String::from_str("text/x-sh"));
    r.push(String::from_str("text/x-msdos-batch"));
    r.push(String::from_str("application/x-dosexec"));
    r.push(String::from_str("application/x-msdownload"));
    r.push(String::from_str("application/vnd.microsoft.portable-executable"));
    r.push(String::from_str("application/x-msi"));
    r.push(String::from_str("application/x-msdos-program"));
    r.push(String::from_str("application/x-sh"));
    assert(views(r@) =~= stock_blocked_content_types());
    r
}

impl Default for IhaCdnNotifierConfig {
    fn default() -> (r: Self)
        ensures
            !r.enable,
            r.discord_webhook is None,
    {
        Self { enable: false, discord_webhook: None }
    }
}

impl Default for IhaCdnPlausibleConfig {
    fn default() -> (r: Self)
        ensures
            !r.enable,
            r.domain is None,
            r.endpoint_url is None,
    {
        Self { enable: false, domain: None, endpoint_url: None }
    }
}

/// Where Plausible Analytics takes events, given the endpoint that the
/// configuration names, if it names one: the path `/api/event` on it, or on
/// `https://plausible.io` where none is named or the named one is no URL.
pub open spec fn plausible_endpoint(configured: Option<Seq<char>>) -> Option<Seq<char>> {
    let base = match configured {
        Some(named) => named,
        None => "https://plausible.io"@,
    };
    let root = match parsed_url(base) {
        Some(url) => Some(url),
        None => parsed_url("https://plausible.io"@),
    };
    match root {
        Some(url) => joined_url(url, "/api/event"@),
        None => None,
    }
}

impl IhaCdnPlausibleConfig {
    /// The endpoint that the configuration names, as plain values.
    pub open spec fn named_endpoint(&self) -> Option<Seq<char>> {
        match self.endpoint_url {
            Some(named) => Some(named@),
            None => None,
        }
    }

    /// The URL that events are sent to; `None` where none can be made of
    /// the configured endpoint.
    pub fn endpoint_url(&self) -> (r: Option<String>)
        ensures
            r is Some <==> plausible_endpoint(self.named_endpoint()) is Some,
            r matches Some(url) ==> url@ == plausible_endpoint(self.named_endpoint())->0,
    {
        let parsed = match &self.endpoint_url {
            Some(named) => parse_url(named.as_str()),
            None => parse_url("https://plausible.io"),
        };
        let root = match parsed {
            Some(url) => Some(url),
            None => parse_url("https://plausible.io"),
        };
        match root {
            Some(url) => join_url(url.as_str(), "/api/event"),
            None => None,
        }
    }

    /// Whether Plausible Analytics is switched on and has a domain set.
    pub fn is_enabled(&self) -> (r: bool)
        ensures
            r == (self.enable && self.domain is Some),
    {
        self.enable && self.domain.is_some()
    }
}

impl Default for IhaCdnRetentionConfig {
    fn default() -> (r: Self)
        ensures
            !r.enable,
            r.min_age == 30,
            r.max_age == 180,
    {
        Self {
            enable: false,
            min_age: default_retention_min_age(),
            max_age: default_retention_max_age(),
        }
    }
}

impl Default for IhaCdnStorageConfig {
    fn default() -> (r: Self)
        ensures
            r.filesize_limit == Some(524288u64),
            r.admin_filesize_limit is None,
            r.limits_fit(),
    {
        Self { filesize_limit: default_filesize_limit(), admin_filesize_limit: None }
    }
}

impl IhaCdnStorageConfig {
    /// Both limits can be written in bytes.
    pub open spec fn limits_fit(&self) -> bool {
        &&& self.filesize_limit matches Some(kib) ==> kib_to_bytes(kib) <= u64::MAX
        &&& self.admin_filesize_limit matches Some(kib) ==> kib_to_bytes(kib) <= u64::MAX
    }

    /// The limit that holds for one audience, in kibibytes.
    pub open spec fn limit_kib(&self, is_admin: bool) -> Option<u64> {
        if is_admin {
            self.admin_filesize_limit
        } else {
            self.filesize_limit
        }
    }

    /// Tells whether `limits_fit` holds.
    pub fn check_limits(&self) -> (r: bool)
        ensures
            r == self.limits_fit(),
    {
        let public_fits = match self.filesize_limit {
            Some(kib) => kib <= u64::MAX / 1024,
            None => true,
        };
        let admin_fits = match self.admin_filesize_limit {
            Some(kib) => kib <= u64::MAX / 1024,
            None => true,
        };
        public_fits && admin_fits
    }
}

impl Default for IhaCdnBlocklistConfig {
    fn default() -> (r: Self)
        ensures
            views(r.extensions@) == stock_blocked_extensions(),
            views(r.content_types@) == stock_blocked_content_types(),
    {
        Self { extensions: default_block_extension(), content_types: default_block_mimetypes() }
    }
}

impl Default for IhaCdnConfig {
    fn default() -> (r: Self)
        ensures
            r.is_stock(),
    {
        let mut redis = String::from_str("redis://");
        redis.append(default_hostname().as_str());
        redis.append(":");
        crate::text::push_decimal(&mut redis, 6379);
        Self {
            hostname: default_hostname(),
            host: default_hostname(),
            port: default_ihacdn_port(),
            https_mode: false,
            upload_path: default_ihacdn_upload_path(),
            admin_password: default_ihacdn_admin_password(),
            filename_length: default_filename_length(),
            redis,
            notifier: IhaCdnNotifierConfig::default(),
            retention: IhaCdnRetentionConfig::default(),
            storage: IhaCdnStorageConfig::default(),
            blocklist: IhaCdnBlocklistConfig::default(),
            plausible: IhaCdnPlausibleConfig::default(),
        }
    }
}

impl IhaCdnConfig {
    /// What a fresh configuration holds.
    pub open spec fn is_stock(&self) -> bool {
        &&& self.hostname@ == "127.0.0.1"@
        &&& self.host@ == "127.0.0.1"@
        &&& self.port == 6969
        &&& !self.https_mode
        &&& self.upload_path@ == "./"@
        &&& self.admin_password@ == unchanged_admin_password()
        &&& self.filename_length == 8
        &&& self.redis@ == "redis://"@ + "127.0.0.1"@ + ":"@ + crate::text::decimal_digits(6379)
        &&& !self.notifier.enable
        &&& self.notifier.discord_webhook is None
        &&& !self.retention.enable
        &&& self.retention.min_age == 30
        &&& self.retention.max_age == 180
        &&& self.storage.filesize_limit == Some(524288u64)
        &&& self.storage.admin_filesize_limit is None
        &&& views(self.blocklist.extensions@) == stock_blocked_extensions()
        &&& views(self.blocklist.content_types@) == stock_blocked_content_types()
        &&& !self.plausible.enable
        &&& self.plausible.domain is None
        &&& self.plausible.endpoint_url is None
    }

    /// The settings can be served from, given whether the upload path exists
    /// on disk.
    pub open spec fn is_valid(&self, upload_path_exists: bool) -> bool {
        &&& self.hostname@.len() > 0
        &&& self.port != 0
        &&& self.upload_path@.len() > 0
        &&& upload_path_exists
        &&& self.admin_password@.len() > 0
        &&& self.filename_length >= 5
        &&& !(self.plausible.enable && self.plausible.domain is None)
    }

    /// The size limit of one audience, in bytes.
    pub open spec fn limit_bytes(&self, is_admin: bool) -> Option<u64> {
        match self.storage.limit_kib(is_admin) {
            Some(kib) => Some((kib * 1024) as u64),
            None => None,
        }
    }

    /// Whether `password` makes its bearer an administrator.
    pub open spec fn admits(&self, password: Seq<char>) -> bool {
        self.admin_password@ != unchanged_admin_password() && password == self.admin_password@
    }

    /// Whether a content type may be uploaded.
    pub open spec fn allows_filetype(&self, filetype: Seq<char>) -> bool {
        !views(self.blocklist.content_types@).contains(filetype)
    }

    /// Whether a file extension may be uploaded.
    pub open spec fn allows_extension(&self, extension: Seq<char>) -> bool {
        !views(self.blocklist.extensions@).contains(extension)
    }

    /// The public URL of `file_name`.
    pub open spec fn url_of(&self, file_name: Seq<char>) -> Seq<char> {
        if self.https_mode {
            "https://"@ + self.hostname@ + "/"@ + file_name
        } else {
            "http://"@ + self.hostname@ + "/"@ + file_name
        }
    }

    /// A fresh configuration.
    pub fn new() -> (r: Self)
        ensures
            r.is_stock(),
    {
        Self::default()
    }

    /// Checks that the settings can be served from. `upload_path_exists`
    /// says whether the upload path was found on disk.
    pub fn verify(&self, upload_path_exists: bool) -> (r: bool)
        ensures
            r == self.is_valid(upload_path_exists),
    {
        if self.hostname.as_str().unicode_len() == 0 {
            return false;
        }
        if self.port == 0 {
            return false;
        }
        if self.upload_path.as_str().unicode_len() == 0 {
            return false;
        }
        if !upload_path_exists {
            return false;
        }
        if self.admin_password.as_str().unicode_len() == 0 {
            return false;
        }
        if self.filename_length < 5 {
            return false;
        }
        if self.plausible.enable && self.plausible.domain.is_none() {
            return false;
        }
        true
    }

    /// The directory that holds the uploads of one audience, below the
    /// upload root `root`.
    pub fn get_path(&self, root: &str, is_admin: bool) -> (r: String)
        ensures
            r@ == joined_path(root@, upload_dir_name(is_admin)),
    {
        if is_admin {
            join_path(root, "uploads_admin")
        } else {
            join_path(root, "uploads")
        }
    }

    /// The size limit of one audience, in bytes; `None` is no limit.
    pub fn get_limit(&self, is_admin: bool) -> (r: Option<u64>)
        requires
            self.storage.limits_fit(),
        ensures
            r == self.limit_bytes(is_admin),
            r is Some <==> self.storage.limit_kib(is_admin) is Some,
            r matches Some(bytes) ==> bytes == kib_to_bytes(self.storage.limit_kib(is_admin)->0),
    {
        let kib = if is_admin {
            self.storage.admin_filesize_limit
        } else {
            self.storage.filesize_limit
        };
        match kib {
            Some(kib) => Some(kib * 1024),
            None => None,
        }
    }

    /// Verify the admin password.
    ///
    /// While the admin password is the one a fresh configuration holds, this
    /// returns `false` whatever is presented. The comparison looks at every
    /// byte, so that its duration does not tell where two passwords of one
    /// length differ.
    pub fn verify_admin_password(&self, password: &str) -> (r: bool)
        ensures
            r == self.admits(password@),
    {
        if self.admin_password == default_ihacdn_admin_password() {
            return false;
        }
        let given = password.as_bytes();
        let expected = self.admin_password.as_str().as_bytes();
        proof {
            vstd::utf8::encode_utf8_decode_utf8(password@);
            vstd::utf8::encode_utf8_decode_utf8(self.admin_password@);
        }
        if given.len() != expected.len() {
            return false;
        }
        let mut result: u8 = 0;
        let mut i: usize = 0;
        assert(given@.take(0) =~= expected@.take(0));
        while i < given.len()
            invariant
                i <= given.len(),
                given.len() == expected.len(),
                result == 0 <==> given@.take(i as int) == expected@.take(i as int),
            decreases given.len() - i,
        {
            let a: u8 = given[i];
            let b: u8 = expected[i];
            let ghost before = result;
            result = result | (a ^ b);
            assert((result == 0) == (before == 0 && a == b)) by (bit_vector)
                requires
                    result == before | (a ^ b),
            ;
            assert(given@.take(i + 1) =~= given@.take(i as int).push(a));
            assert(expected@.take(i + 1) =~= expected@.take(i as int).push(b));
            assert(given@.take(i + 1).drop_last() =~= given@.take(i as int));
            assert(expected@.take(i + 1).drop_last() =~= expected@.take(i as int));
            assert(given@.take(i + 1).last() == a);
            assert(expected@.take(i + 1).last() == b);
            i += 1;
        }
        assert(given@.take(i as int) =~= given@);
        assert(expected@.take(i as int) =~= expected@);
        result == 0
    }

    /// Whether a content type may be uploaded.
    pub fn is_filetype_allowed(&self, filetype: &str) -> (r: bool)
        ensures
            r == self.allows_filetype(filetype@),
    {
        !contains_str(&self.blocklist.content_types, filetype)
    }

    /// Whether a file extension may be uploaded.
    pub fn is_extension_allowed(&self, extension: &str) -> (r: bool)
        ensures
            r == self.allows_extension(extension@),
    {
        !contains_str(&self.blocklist.extensions, extension)
    }

    /// The public URL of `file_name`.
    pub fn make_url(&self, file_name: &str) -> (r: String)
        ensures
            r@ == self.url_of(file_name@),
    {
        let mut r = if self.https_mode {
            String::from_str("https://")
        } else {
            String::from_str("http://")
        };
        r.append(self.hostname.as_str());
        r.append("/");
        r.append(file_name);
        r
    }
}

/// `name` below the directory `base`.
pub fn join_path(base: &str, name: &str) -> (r: String)
    ensures
        r@ == joined_path(base@, name@),
{
    let chars = crate::text::chars_of(base);
    if chars.len() == 0 || chars[chars.len() - 1] == '/' {
        concat2(base, name)
    } else {
        proof {
            reveal_strlit("/");
        }
        let mut r = concat2(base, "/");
        r.append(name);
        assert("/"@ =~= seq!['/']);
        r
    }
}

} // verus!
