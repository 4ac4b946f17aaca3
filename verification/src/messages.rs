//! The diagnostics that are sent with a failed request. Each is a fixed
//! text in which every occurrence of a placeholder gives way to a value.

use crate::text::{chars_of, push_char};
use vstd::prelude::*;

verus! {

pub const DELETED_ERROR: &'static str = r#"System.IO.FileNotFoundException: Could not find file '{{ FN }}' in server filesystem.
File name: '{{ FN }}'
   at System.IO.__Error.WinIOError(Int32 errorCode, String maybeFullPath)
   at System.IO.FileStream.Init(String path, FileMode mode, FileAccess access, Int32 rights, Boolean useRights, FileShare share, Int32 bufferSize, FileOptions options, SECURITY_ATTRIBUTES secAttrs, String msgPath, Boolean bFromProxy, Boolean useLongPath, Boolean checkHost)
   at System.IO.FileStream..ctor(String path, FileMode mode, FileAccess access, FileShare share, Int32 bufferSize, FileOptions options, String msgPath, Boolean bFromProxy, Boolean useLongPath, Boolean checkHost)
   at System.IO.StreamReader..ctor(String path, Encoding encoding, Boolean detectEncodingFromByteOrderMarks, Int32 bufferSize, Boolean checkHost)
   at System.IO.File.InternalReadAllText(String path, Encoding encoding, Boolean checkHost)
   at System.IO.File.ReadAllText(String path)
   at ConsoleApp.Program.Main(String[] args) in FileHandling.cs:line 182
"#;

pub const PAYLOAD_TOO_LARGE: &'static str = r"/usr/bin/../lib/gcc/x86_64/9.3-win32/../../../../usr/bin/as: ihaCDN/routes/FileHandler.o: too many sections (37616)
ihaCDN/request/upload/{{ FN }}: Assembler messages:
ihaCDN/request/upload/{{ FN }}: Fatal error: can't write ihaCDN/routes/FileHandler.o: File too big (Maximum allowed is {{ FS }})
";

pub const BLOCKED_EXTENSION: &'static str = r"[InvalidCastException: '{{ FILE_TYPE }}' is not allowed.]
ValidateExteension() in FileHandler.cs:65
ASP.UploadRoutes.Page_Load(Object sender, EventArgs e) in UploadRoutes.ascx:20
System.Web.Util.CalliHelper.EventArgFunctionCaller(IntPtr fp, Object o, Object t, EventArgs e) +15
System.Web.Util.CalliEventHandlerDelegateProxy.Callback(Object sender, EventArgs e) +36
System.Web.UI.Control.OnLoad(EventArgs e) +102
System.Web.UI.Control.LoadRecursive() +47
System.Web.UI.Control.LoadRecursive() +131
System.Web.UI.Control.LoadRecursive() +131
System.Web.UI.Page.ProcessRequestMain(Boolean includeStagesBeforeAsyncPoint, Boolean includeStagesAfterAsyncPoint) +1064
";

pub const MISSING_FIELD: &'static str = r#"Notice: Undefined index: file in /var/www/html/upload.php on line 17
Warning: file_get_contents(): "file" cannot be empty in /var/www/html/upload.php on line 18
"#;

pub const INVALID_URL_FORMAT: &'static str = r#"ValueError: Invalid URL format provided: '{{ URL }}'
  File "url_validator.py", line 42, in validate_url
    raise ValueError(f"Invalid URL format provided: '{url}'")
"#;

pub const REDIS_CONNECTION_ERROR: &'static str = r#"panic: Could not connect to Redis server. Connection failed.
goroutine 1 [running]:
main.connectToRedis(...)
    /opt/ihacdn/redis_client.go:34
main.initRedis()
    /opt/ihacdn/redis_client.go:21 +0x85
main.main()
    /opt/ihacdn/main.go:12 +0x39
exit status 2
"#;

pub const CREATE_FILE_ERROR: &'static str = r#"Errno::ENOENT: Failed to open and create file @ rb_sysopen - '{{ FN }}'
    from /usr/lib/ruby/3.0.0/open-uri.rb:37:in `read'
    from /usr/lib/ruby/3.0.0/open-uri.rb:37:in `open'
    from data_reader.rb:12:in `read_input'
"#;

pub const READ_FILE_ERROR: &'static str = r#"Errno::ENOENT: Failed to read file @ rb_sysopen - '{{ FN }}'
    from /usr/lib/ruby/3.0.0/open-uri.rb:37:in `read'
    from /usr/lib/ruby/3.0.0/open-uri.rb:37:in `open'
    from data_reader.rb:12:in `read_input'
"#;

pub const SAVE_FILE_ERROR: &'static str = r#"Exception in thread "main" java.io.IOException: Failed to save data to '{{ FN }}': {{ REASON }}
    at com.ihacdn.FileHandler.saveData(FileHandler.java:45)
    at com.ihacdn.Main.main(Main.java:12)
"#;

pub const REDIS_SAVE_ERROR: &'static str = r#"thread 'main' panicked at 'Failed to save data to Redis', src/redis_handler.rs:45:10
stack backtrace:
   0: ihacdn::redis_handler::save_data
             at src/redis_handler.rs:45
   1: ihacdn::main
             at src/main.rs:12
   2: std::rt::lang_start
             at /rustc/1.86.0/library/std/src/rt.rs:165
"#;

pub const REDIS_GET_ERROR: &'static str = r#"thread 'main' panicked at 'Failed to get data from Redis for `{{ FN }}`', src/redis_handler.rs:88:18
stack backtrace:
   0: ihacdn::redis_handler::get_data
             at src/redis_handler.rs:88
   1: ihacdn::main
             at src/main.rs:15
   2: std::rt::lang_start
             at /rustc/1.86.0/library/std/src/rt.rs:165
"#;

pub const CUSTOM_NAME_GENERATION_ERROR: &'static str = r#"Error: Failed to generate custom name: {{ REASON }}
    at generateCustomName (customNameGenerator.js:45:15)
    at processRequest (requestHandler.js:32:10)
    at async handleRequest (server.js:78:7)
"#;

/// `text` with every occurrence of `placeholder` replaced by `value`. The
/// occurrences are taken from the left and do not overlap; what was put in
/// is not looked at again.
pub open spec fn filled(text: Seq<char>, placeholder: Seq<char>, value: Seq<char>) -> Seq<char>
    recommends
        placeholder.len() > 0,
    decreases text.len(),
{
    if placeholder.len() == 0 || text.len() < placeholder.len() {
        text
    } else if placeholder.is_prefix_of(text) {
        value + filled(text.skip(placeholder.len() as int), placeholder, value)
    } else {
        seq![text[0]] + filled(text.skip(1), placeholder, value)
    }
}

/// Whether `pattern` stands in `text` at position `at`.
fn matches_at(text: &Vec<char>, at: usize, pattern: &Vec<char>) -> (r: bool)
    requires
        at <= text.len(),
    ensures
        r == pattern@.is_prefix_of(text@.skip(at as int)),
{
    if pattern.len() > text.len() - at {
        return false;
    }
    let mut i: usize = 0;
    while i < pattern.len()
        invariant
            at <= text.len(),
            i <= pattern.len() <= text.len() - at,
            forall|j: int| 0 <= j < i ==> text@[at + j] == pattern@[j],
        decreases pattern.len() - i,
    {
        if text[at + i] != pattern[i] {
            assert(text@.skip(at as int)[i as int] != pattern@[i as int]);
            assert(!(pattern@ =~= text@.skip(at as int).subrange(0, pattern@.len() as int)));
            return false;
        }
        i += 1;
    }
    assert(pattern@ =~= text@.skip(at as int).subrange(0, pattern@.len() as int));
    true
}

/// `template` with every occurrence of `placeholder` replaced by `value`.
pub fn fill(template: &str, placeholder: &str, value: &str) -> (r: String)
    requires
        placeholder@.len() > 0,
    ensures
        r@ == filled(template@, placeholder@, value@),
{
    let text = chars_of(template);
    let pattern = chars_of(placeholder);
    let mut r = String::new();
    let mut i: usize = 0;
    assert(text@.skip(0) =~= text@);
    while i < text.len()
        invariant
            i <= text.len(),
            text@ == template@,
            pattern@ == placeholder@,
            pattern@.len() > 0,
            r@ + filled(text@.skip(i as int), pattern@, value@) == filled(
                text@,
                pattern@,
                value@,
            ),
        decreases text.len() - i,
    {
        let ghost rest = text@.skip(i as int);
        let ghost before = r@;
        if matches_at(&text, i, &pattern) {
            vstd::string::StringExecFns::append(&mut r, value);
            assert(rest.skip(pattern@.len() as int) =~= text@.skip(i + pattern@.len()));
            assert(r@ + filled(text@.skip(i + pattern@.len()), pattern@, value@) =~= before
                + filled(rest, pattern@, value@));
            i += pattern.len();
        } else {
            push_char(&mut r, text[i]);
            assert(rest.skip(1) =~= text@.skip(i + 1));
            proof {
                if rest.len() < pattern@.len() {
                    lemma_filled_short(rest.skip(1), pattern@, value@);
                    assert(rest =~= seq![rest[0]] + rest.skip(1));
                }
            }
            assert(r@ + filled(text@.skip(i + 1), pattern@, value@) =~= before + filled(
                rest,
                pattern@,
                value@,
            ));
            i += 1;
        }
    }
    assert(text@.skip(i as int).len() == 0);
    assert(r@ + Seq::<char>::empty() =~= r@);
    r
}

/// A text shorter than the placeholder holds none and stays as it is.
proof fn lemma_filled_short(text: Seq<char>, placeholder: Seq<char>, value: Seq<char>)
    requires
        text.len() < placeholder.len(),
    ensures
        filled(text, placeholder, value) == text,
{
}

} // verus!
