use ihacdn::config::IhaCdnConfig;
use ihacdn::failure::Failure;
use ihacdn::routes::reader::{
    file_reader, file_reader_raw, DiskReply, Lookup, Method, Reading, Reply,
};
use ihacdn::routes::uploads::{
    begin_upload, canonical_extension_of, conclude, extension_of_name, generate_file_name,
    is_upload_field, key_of, name_with_extension, randomize_file_name, shorten_parsed,
    shorten_url, Allocation, ShortenForm, Upload, WriteStep,
};
use ihacdn::state::CDNData;

fn config_with_limit(kib: Option<u64>) -> IhaCdnConfig {
    let mut config = IhaCdnConfig::new();
    config.hostname = "cdn.example.org".to_string();
    config.storage.filesize_limit = kib;
    config
}

fn start(config: &IhaCdnConfig, name: &str) -> Upload {
    begin_upload(config, false, "abcde".to_string(), "application/octet-stream", name).unwrap()
}

#[test]
fn random_names_are_lowercase_letters() {
    for amount in [0usize, 1, 5, 8, 64] {
        let name = randomize_file_name(amount);
        assert_eq!(name.chars().count(), amount);
        assert!(name.chars().all(|c| ('a'..='z').contains(&c)));
    }
}

#[test]
fn random_names_differ() {
    let a = randomize_file_name(32);
    let b = randomize_file_name(32);
    assert_ne!(a, b);
}

#[test]
fn keys_carry_the_prefix() {
    assert_eq!(key_of("abcde"), "ihacdnabcde");
    assert_eq!(key_of(""), "ihacdn");
}

#[test]
fn allocation_starts_with_a_probe() {
    match generate_file_name(8, None) {
        Allocation::Probe(candidate) => {
            assert_eq!(candidate.len(), 8);
            assert!(candidate.chars().all(|c| c.is_ascii_lowercase()));
        }
        other => panic!("unexpected {:?}", other),
    }
}

#[test]
fn allocation_gives_out_a_free_candidate() {
    for count in [0i64, -1, i64::MIN] {
        match generate_file_name(8, Some(("qwertyui".to_string(), Some(count)))) {
            Allocation::Done(name) => assert_eq!(name, "qwertyui"),
            other => panic!("unexpected {:?}", other),
        }
    }
}

#[test]
fn allocation_retries_on_a_taken_candidate() {
    for count in [1i64, 2, i64::MAX] {
        match generate_file_name(6, Some(("qwerty".to_string(), Some(count)))) {
            Allocation::Probe(candidate) => {
                assert_eq!(candidate.len(), 6);
                assert!(candidate.chars().all(|c| c.is_ascii_lowercase()));
            }
            other => panic!("unexpected {:?}", other),
        }
    }
}

#[test]
fn allocation_fails_when_the_store_does() {
    match generate_file_name(8, Some(("qwertyui".to_string(), None))) {
        Allocation::Failed(failure) => {
            assert_eq!(failure.status(), 500);
            assert!(matches!(
                &failure,
                Failure::AllocationFailure { reason } if reason == "Unable to query redis for existing name"
            ));
            assert!(failure
                .message()
                .starts_with("Error: Failed to generate custom name: Unable to query redis for existing name\n"));
        }
        other => panic!("unexpected {:?}", other),
    }
}

#[test]
fn allocations_against_an_empty_store_are_distinct() {
    let mut store: Vec<String> = Vec::new();
    let mut given: Vec<String> = Vec::new();
    for _ in 0..200 {
        let mut step = generate_file_name(1, None);
        let name = loop {
            match step {
                Allocation::Probe(candidate) => {
                    let count = if store.contains(&key_of(&candidate)) { 1 } else { 0 };
                    step = generate_file_name(1, Some((candidate, Some(count))));
                }
                Allocation::Done(name) => break Some(name),
                Allocation::Failed(_) => break None,
            }
            if store.len() == 26 {
                break None;
            }
        };
        match name {
            Some(name) => {
                assert!(!given.contains(&name));
                store.push(key_of(&name));
                given.push(name);
            }
            None => break,
        }
    }
    assert_eq!(given.len(), 26);
}

#[test]
fn declared_extension_is_what_follows_the_last_dot() {
    assert_eq!(extension_of_name("notes.txt"), "txt");
    assert_eq!(extension_of_name("archive.tar.gz"), "gz");
    assert_eq!(extension_of_name("README"), "bin");
    assert_eq!(extension_of_name(""), "bin");
    assert_eq!(extension_of_name("trailing."), "");
    assert_eq!(extension_of_name(".hidden"), "hidden");
    assert_eq!(name_with_extension("abcde", "txt"), "abcde.txt");
    assert_eq!(name_with_extension("abcde", ""), "abcde.");
}

#[test]
fn declared_type_is_checked_before_the_extension() {
    let config = config_with_limit(Some(1024));
    let r = begin_upload(&config, false, "abcde".to_string(), "application/x-sh", "run.exe");
    assert!(matches!(r, Err(Failure::BlockedType { ref what }) if what == "application/x-sh"));
    let r = begin_upload(&config, false, "abcde".to_string(), "text/plain", "run.exe");
    assert!(matches!(r, Err(Failure::BlockedType { ref what }) if what == "exe"));
    assert_eq!(r.unwrap_err().status(), 415);
}

#[test]
fn blocked_bin_blocks_names_without_extension() {
    let mut config = config_with_limit(Some(1024));
    config.blocklist.extensions.push("bin".to_string());
    let r = begin_upload(&config, false, "abcde".to_string(), "text/plain", "README");
    assert!(matches!(r, Err(Failure::BlockedType { ref what }) if what == "bin"));
}

#[test]
fn begin_sets_up_the_upload() {
    let mut config = config_with_limit(Some(2));
    config.storage.admin_filesize_limit = Some(5);
    let upload = begin_upload(&config, false, "abcde".to_string(), "text/plain", "a.b.rs").unwrap();
    assert_eq!(upload.file_name, "abcde");
    assert_eq!(upload.real_extension, "rs");
    assert_eq!(upload.limit, Some(2048));
    assert!(!upload.is_admin);
    assert_eq!(upload.guess_type, None);
    assert!(upload.consumed.is_empty());
    let upload = begin_upload(&config, true, "abcde".to_string(), "text/plain", "a.rs").unwrap();
    assert_eq!(upload.limit, Some(5120));
    assert!(upload.is_admin);
}

#[test]
fn upload_of_exactly_the_limit_succeeds() {
    let config = config_with_limit(Some(1));
    let upload = start(&config, "data.bin");
    let chunks = vec![vec![7u8; 1000], vec![8u8; 24]];
    let mut upload = upload;
    for chunk in &chunks {
        upload = upload.accept(&config, chunk, "application/octet-stream".to_string()).unwrap();
    }
    assert_eq!(upload.consumed.len(), 1024);
    assert_eq!(&upload.consumed[..1000], &[7u8; 1000][..]);
    assert_eq!(&upload.consumed[1000..], &[8u8; 24][..]);
}

#[test]
fn upload_of_one_byte_more_is_too_large() {
    let config = config_with_limit(Some(1));
    let upload = start(&config, "data.bin");
    let upload = upload.accept(&config, &[7u8; 1000], "application/octet-stream".to_string()).unwrap();
    let r = upload.accept(&config, &[8u8; 25], String::new());
    match r {
        Err(failure) => {
            assert_eq!(failure.status(), 413);
            assert!(matches!(
                &failure,
                Failure::PayloadTooLarge { file_name, limit } if file_name == "abcde.bin" && *limit == 1024
            ));
            let message = failure.message();
            assert!(message.contains("ihaCDN/request/upload/abcde.bin: Assembler messages:"));
            assert!(message.ends_with("File too big (Maximum allowed is 1 KiB)\n"));
        }
        Ok(_) => panic!("accepted"),
    }
}

#[test]
fn single_chunk_over_the_limit_is_too_large() {
    let config = config_with_limit(Some(1));
    let r = start(&config, "data.bin").feed_all(&config, &vec![vec![0u8; 1025]]);
    assert!(matches!(r, Err(Failure::PayloadTooLarge { .. })));
    let r = start(&config, "data.bin").feed_all(&config, &vec![vec![0u8; 1024]]);
    assert_eq!(r.unwrap().consumed.len(), 1024);
}

#[test]
fn no_limit_takes_everything() {
    let config = config_with_limit(None);
    let upload = start(&config, "data.bin");
    assert_eq!(upload.limit, None);
    let r = upload.feed_all(&config, &vec![vec![1u8; 70000], vec![2u8; 70000]]);
    assert_eq!(r.unwrap().consumed.len(), 140000);
}

#[test]
fn zero_limit_takes_only_nothing() {
    let config = config_with_limit(Some(0));
    let r = start(&config, "data.bin").feed_all(&config, &vec![vec![], vec![]]);
    assert!(r.unwrap().consumed.is_empty());
    let r = start(&config, "data.bin").feed_all(&config, &vec![vec![], vec![1]]);
    assert!(matches!(r, Err(Failure::PayloadTooLarge { .. })));
}

#[test]
fn sniffed_type_counts_on_the_first_chunk_only() {
    let config = config_with_limit(Some(1024));
    let upload = start(&config, "cat.png");
    let r = upload.accept(&config, b"MZ", "application/x-dosexec".to_string());
    assert!(matches!(r, Err(Failure::BlockedType { ref what }) if what == "application/x-dosexec"));
    let upload = start(&config, "cat.png");
    let upload = upload.accept(&config, b"ab", "image/png".to_string()).unwrap();
    assert_eq!(upload.guess_type.as_deref(), Some("image/png"));
    let upload = upload.accept(&config, b"MZ", "application/x-dosexec".to_string()).unwrap();
    assert_eq!(upload.guess_type.as_deref(), Some("image/png"));
    assert_eq!(upload.consumed, b"abMZ");
}

#[test]
fn blocked_type_comes_before_too_large() {
    let config = config_with_limit(Some(1));
    let r = start(&config, "cat.png").accept(&config, &[0u8; 5000], "application/x-sh".to_string());
    assert!(matches!(r, Err(Failure::BlockedType { ref what }) if what == "application/x-sh"));
}

#[test]
fn spoofed_extension_is_caught_by_the_content() {
    let config = config_with_limit(Some(1024));
    let upload =
        begin_upload(&config, false, "abcde".to_string(), "image/png", "holiday.png").unwrap();
    let mut program = b"MZ\x90\x00\x03\x00\x00\x00\x04\x00\x00\x00\xff\xff\x00\x00".to_vec();
    program.extend_from_slice(&[0u8; 256]);
    match upload.feed(&config, &program) {
        Err(Failure::BlockedType { what }) => {
            assert!(!config.is_filetype_allowed(&what));
        }
        other => panic!("unexpected {:?}", other),
    }
}

#[test]
fn picture_is_known_by_its_content() {
    let config = config_with_limit(Some(1024));
    let upload = begin_upload(&config, false, "abcde".to_string(), "", "holiday").unwrap();
    let png = b"\x89PNG\r\n\x1a\n\x00\x00\x00\rIHDR\x00\x00\x00\x01\x00\x00\x00\x01\x08\x06\x00\x00\x00";
    let upload = upload.feed(&config, png).unwrap();
    assert_eq!(upload.guess_type.as_deref(), Some("image/png"));
    let stored = upload.finish(&config, "/srv/cdn", 1700000000);
    assert_eq!(stored.state.mime_types, "image/png");
    assert_eq!(stored.state.extension, "png");
    assert_eq!(stored.state.real_extension, "bin");
    assert_eq!(stored.path, "/srv/cdn/uploads/abcde.bin");
    assert_eq!(stored.url, "http://cdn.example.org/abcde.bin");
    assert_eq!(stored.key, "ihacdnabcde");
    match stored.record {
        CDNData::File { is_admin, path, mimetype, time_added } => {
            assert!(!is_admin);
            assert_eq!(path, "/srv/cdn/uploads/abcde.bin");
            assert_eq!(mimetype, "image/png");
            assert_eq!(time_added, 1700000000);
        }
        other => panic!("unexpected {:?}", other),
    }
}

#[test]
fn canonical_extension_prefers_the_known_one() {
    let known = Some(vec!["png".to_string(), "pnz".to_string()]);
    assert_eq!(canonical_extension_of(&known, "jpg"), "png");
    let known = Some(vec!["bin".to_string(), "exe".to_string()]);
    assert_eq!(canonical_extension_of(&known, "jpg"), "jpg");
    assert_eq!(canonical_extension_of(&Some(vec![]), "jpg"), "jpg");
    assert_eq!(canonical_extension_of(&None, "jpg"), "jpg");
}

#[test]
fn empty_upload_is_arbitrary_bytes() {
    let mut config = config_with_limit(Some(1024));
    config.https_mode = true;
    let upload = begin_upload(&config, true, "zzzzz".to_string(), "text/plain", "empty.dat").unwrap();
    let stored = upload.finish_with(&config, "/srv/cdn/", 5, None);
    assert_eq!(stored.state.mime_types, "application/octet-stream");
    assert_eq!(stored.state.extension, "dat");
    assert!(stored.state.chunks.is_empty());
    assert_eq!(stored.path, "/srv/cdn/uploads_admin/zzzzz.dat");
    assert_eq!(stored.url, "https://cdn.example.org/zzzzz.dat");
    assert!(matches!(stored.record, CDNData::File { is_admin: true, .. }));
}

#[test]
fn text_is_kept_as_code_under_its_declared_extension() {
    let config = config_with_limit(Some(1024));
    let upload = begin_upload(&config, false, "abcde".to_string(), "text/plain", "main.rs").unwrap();
    let upload = upload.accept(&config, b"fn main() {}", "text/x-rust".to_string()).unwrap();
    let stored = upload.finish_with(&config, "/srv/cdn", 77, Some(vec!["rs".to_string()]));
    assert_eq!(stored.state.extension, "rs");
    match stored.record {
        CDNData::Code { is_admin, path, mimetype, time_added } => {
            assert!(!is_admin);
            assert_eq!(path, "/srv/cdn/uploads/abcde.rs");
            assert_eq!(mimetype, "rs");
            assert_eq!(time_added, 77);
        }
        other => panic!("unexpected {:?}", other),
    }
}

#[test]
fn plain_text_scenario() {
    let mut config = IhaCdnConfig::new();
    config.hostname = "cdn.example.org".to_string();
    config.storage.filesize_limit = Some(1024);
    let is_admin = config.verify_admin_password("");
    assert!(!is_admin);
    let id = match generate_file_name(config.filename_length, None) {
        Allocation::Probe(candidate) => {
            match generate_file_name(config.filename_length, Some((candidate, Some(0)))) {
                Allocation::Done(id) => id,
                other => panic!("unexpected {:?}", other),
            }
        }
        other => panic!("unexpected {:?}", other),
    };
    let body = b"hello you\n";
    assert_eq!(body.len(), 10);
    let upload = begin_upload(&config, is_admin, id.clone(), "text/plain", "notes.txt").unwrap();
    let upload = upload.feed(&config, body).unwrap();
    assert_eq!(upload.guess_type.as_deref(), Some("text/plain"));
    let stored = upload.finish(&config, "/srv/cdn", 1700000000);
    assert_eq!(stored.url, format!("http://cdn.example.org/{}.txt", id));
    assert_eq!(stored.path, format!("/srv/cdn/uploads/{}.txt", id));
    assert_eq!(stored.state.chunks, body);
    assert_eq!(stored.state.extension, "asm");
    assert!(matches!(&stored.record, CDNData::Code { mimetype, .. } if mimetype == "txt"));

    let content = String::from_utf8(stored.state.chunks.clone()).unwrap();
    let reading = file_reader(Method::Get, &id, Lookup::Found(stored.record.clone()));
    let reply = match reading {
        Reading::Disk(step) => {
            assert_eq!(step.path(), &stored.path);
            step.answer(DiskReply::Text(content.clone()))
        }
        other => panic!("unexpected {:?}", other),
    };
    assert_eq!(reply.status(), 200);
    match reply {
        Reply::Paste(page) => {
            assert_eq!(page.code_type, "txt");
            assert_eq!(page.code_data.as_str(), "hello you\n");
            assert_eq!(page.file_id, id);
        }
        other => panic!("unexpected {:?}", other),
    }

    let reading = file_reader_raw(Method::Get, &id, Lookup::Found(stored.record.clone()));
    let reply = match reading {
        Reading::Disk(step) => step.answer(DiskReply::Text(content)),
        other => panic!("unexpected {:?}", other),
    };
    assert_eq!(reply.status(), 200);
    match reply {
        Reply::Raw { content_type, content_disposition, content_length, content } => {
            assert_eq!(content_type, "text/plain");
            assert_eq!(content_length, 10);
            assert_eq!(content.as_bytes(), body);
            assert_eq!(content_disposition, format!("attachment; filename=\"{}.txt\"", id));
        }
        other => panic!("unexpected {:?}", other),
    }
}

#[test]
fn shorten_rejects_what_is_no_url() {
    let config = config_with_limit(Some(1024));
    let form = ShortenForm { url: "not-a-url".to_string() };
    match shorten_url(&config, "abcde", &form) {
        Err(failure) => {
            assert_eq!(failure.status(), 400);
            assert!(matches!(&failure, Failure::InvalidUrl { url } if url == "not-a-url"));
            assert!(failure
                .message()
                .starts_with("ValueError: Invalid URL format provided: 'not-a-url'\n"));
        }
        Ok(_) => panic!("accepted"),
    }
}

#[test]
fn shorten_keeps_the_url_as_the_parser_writes_it() {
    let config = config_with_limit(Some(1024));
    let form = ShortenForm { url: "  HTTPS://Example.ORG/a b  \n".to_string() };
    let shortened = shorten_url(&config, "abcde", &form).unwrap();
    assert!(matches!(&shortened.record, CDNData::Short { target } if target == "https://example.org/a%20b"));
    assert_eq!(shortened.key, "ihacdnabcde");
    assert_eq!(shortened.url, "http://cdn.example.org/abcde");
}

#[test]
fn shorten_trims_before_it_reports() {
    let config = config_with_limit(Some(1024));
    let form = ShortenForm { url: "\t example.org/x \u{3000}".to_string() };
    let r = shorten_url(&config, "abcde", &form);
    assert!(matches!(r, Err(Failure::InvalidUrl { ref url }) if url == "example.org/x"));
}

#[test]
fn shorten_with_a_given_verdict() {
    let config = config_with_limit(Some(1024));
    let r = shorten_parsed(&config, "qq", "x".to_string(), Some("https://e.org/".to_string())).unwrap();
    assert!(matches!(&r.record, CDNData::Short { target } if target == "https://e.org/"));
    assert_eq!(r.url, "http://cdn.example.org/qq");
    let r = shorten_parsed(&config, "qq", "x".to_string(), None);
    assert!(matches!(r, Err(Failure::InvalidUrl { ref url }) if url == "x"));
}

#[test]
fn request_without_a_file_field_is_refused() {
    let config = config_with_limit(Some(1024));
    assert!(is_upload_field("file"));
    assert!(!is_upload_field("File"));
    assert!(!is_upload_field("files"));
    assert!(!is_upload_field(""));
    match conclude(None, &config, "/srv/cdn", 5) {
        Err(failure) => {
            assert_eq!(failure.status(), 400);
            assert!(matches!(failure, Failure::MissingField));
            assert!(failure.message().starts_with("Notice: Undefined index: file in "));
        }
        Ok(_) => panic!("accepted"),
    }
    let upload = start(&config, "a.bin").accept(&config, b"xyz", "application/x-custom".to_string()).unwrap();
    let stored = conclude(Some(upload), &config, "/srv/cdn", 5).unwrap();
    assert_eq!(stored.path, "/srv/cdn/uploads/abcde.bin");
    assert_eq!(stored.state.chunks, b"xyz");
    assert_eq!(stored.state.mime_types, "application/x-custom");
}

#[test]
fn failed_writes_name_the_file_and_its_size() {
    let config = config_with_limit(Some(1024));
    let upload = start(&config, "a.tar.gz").accept(&config, &[1u8; 321], "application/gzip".to_string()).unwrap();
    let stored = upload.finish_with(&config, "/srv/cdn", 5, None);
    let failure = stored.write_failure(WriteStep::Create);
    assert!(matches!(&failure, Failure::CreateFailed { file_name } if file_name == "abcde.gz"));
    assert_eq!(failure.status(), 500);
    let failure = stored.write_failure(WriteStep::Write);
    assert!(matches!(&failure, Failure::WriteFailed { file_name, size } if file_name == "abcde.gz" && *size == 321));
    assert!(failure.message().contains("'abcde.gz': Unable to write file contents of 321 bytes"));
    let failure = stored.write_failure(WriteStep::Flush);
    assert!(matches!(&failure, Failure::FlushFailed { file_name, size } if file_name == "abcde.gz" && *size == 321));
    assert!(failure.message().contains("'abcde.gz': Unable to flush file contents of 321 bytes"));
}
