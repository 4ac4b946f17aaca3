use ihacdn::config::IhaCdnConfig;
use ihacdn::failure::Failure;
use ihacdn::messages::{fill, DELETED_ERROR, MISSING_FIELD, REDIS_CONNECTION_ERROR, REDIS_SAVE_ERROR};
use ihacdn::notifier::{
    extract_ip_address, is_in_blocked_ranges, is_private_ip, join_with, notify_discord, IpAddress,
    USER_AGENT,
};
use ihacdn::state::CDNData;
use ihacdn::templating::{HtmlTemplate, TemplateCodeData, TemplateIndex, TemplatePaste};
use ihacdn::text::{decimal, has_prefix, str_eq, trim};
use ihacdn::track::report_to_plausible;

fn file(is_admin: bool) -> CDNData {
    CDNData::File {
        is_admin,
        path: "/srv/cdn/uploads/abcde.png".to_string(),
        mimetype: "image/png".to_string(),
        time_added: 1,
    }
}

fn notifying() -> IhaCdnConfig {
    let mut config = IhaCdnConfig::new();
    config.notifier.enable = true;
    config.notifier.discord_webhook = Some("https://discord.example/hook".to_string());
    config
}

#[test]
fn placeholders_are_filled_from_the_left() {
    assert_eq!(fill("a{{ X }}b{{ X }}", "{{ X }}", "--"), "a--b--");
    assert_eq!(fill("aaa", "aa", "b"), "ba");
    assert_eq!(fill("abc", "x", "y"), "abc");
    assert_eq!(fill("", "x", "y"), "");
    assert_eq!(fill("xx", "x", "xx"), "xxxx");
    assert_eq!(fill("{{ FN }", "{{ FN }}", "y"), "{{ FN }");
    assert_eq!(fill("é{{é}}", "{{é}}", "ü"), "éü");
}

#[test]
fn each_failure_has_its_status() {
    let s = |t: &str| t.to_string();
    let cases: Vec<(Failure, u16)> = vec![
        (Failure::StoreUnavailable, 500),
        (Failure::StoreReadFailed { id_path: s("a") }, 500),
        (Failure::StoreWriteFailed, 500),
        (Failure::NotFound { id_path: s("a") }, 404),
        (Failure::Gone { id_path: s("a") }, 410),
        (Failure::BlockedType { what: s("exe") }, 415),
        (Failure::PayloadTooLarge { file_name: s("a.b"), limit: 1 }, 413),
        (Failure::MissingField, 400),
        (Failure::InvalidUrl { url: s("x") }, 400),
        (Failure::AllocationFailure { reason: s("x") }, 500),
        (Failure::CreateFailed { file_name: s("a.b") }, 500),
        (Failure::WriteFailed { file_name: s("a.b"), size: 1 }, 500),
        (Failure::FlushFailed { file_name: s("a.b"), size: 1 }, 500),
        (Failure::ReadFailed { id_path: s("a") }, 500),
        (Failure::MetadataFailed, 500),
        (Failure::SerializationFailure, 500),
        (Failure::RenderFailed { reason: s("x") }, 500),
    ];
    for (failure, status) in cases {
        assert_eq!(failure.status(), status);
    }
}

#[test]
fn each_failure_has_its_diagnostic() {
    let s = |t: &str| t.to_string();
    assert_eq!(Failure::StoreUnavailable.message(), REDIS_CONNECTION_ERROR);
    assert_eq!(Failure::StoreWriteFailed.message(), REDIS_SAVE_ERROR);
    assert_eq!(Failure::MissingField.message(), MISSING_FIELD);
    assert_eq!(
        Failure::Gone { id_path: s("abcde.txt") }.message(),
        DELETED_ERROR.replace("{{ FN }}", "abcde.txt")
    );
    assert_eq!(
        Failure::NotFound { id_path: s("q") }.message(),
        Failure::Gone { id_path: s("q") }.message()
    );
    assert!(Failure::BlockedType { what: s("exe") }
        .message()
        .starts_with("[InvalidCastException: 'exe' is not allowed.]\n"));
    assert!(Failure::CreateFailed { file_name: s("abcde.txt") }
        .message()
        .starts_with("Errno::ENOENT: Failed to open and create file @ rb_sysopen - 'abcde.txt'\n"));
    assert!(Failure::WriteFailed { file_name: s("abcde.txt"), size: 1234 }.message().starts_with(
        "Exception in thread \"main\" java.io.IOException: Failed to save data to 'abcde.txt': Unable to write file contents of 1234 bytes\n"
    ));
    assert!(Failure::FlushFailed { file_name: s("abcde.txt"), size: 0 }.message().starts_with(
        "Exception in thread \"main\" java.io.IOException: Failed to save data to 'abcde.txt': Unable to flush file contents of 0 bytes\n"
    ));
    assert!(Failure::PayloadTooLarge { file_name: s("abcde.iso"), limit: 524288 * 1024 }
        .message()
        .ends_with("ihaCDN/request/upload/abcde.iso: Fatal error: can't write ihaCDN/routes/FileHandler.o: File too big (Maximum allowed is 512 MiB)\n"));
    assert_eq!(
        Failure::RenderFailed { reason: s("boom") }.message(),
        "Failed to render template. Error: boom"
    );
    assert!(Failure::InvalidUrl { url: s("{{ URL }}") }
        .message()
        .starts_with("ValueError: Invalid URL format provided: '{{ URL }}'\n"));
}

#[test]
fn text_helpers() {
    assert_eq!(decimal(0), "0");
    assert_eq!(decimal(10), "10");
    assert_eq!(decimal(1234567890), "1234567890");
    assert_eq!(decimal(u64::MAX), "18446744073709551615");
    assert!(str_eq("", ""));
    assert!(str_eq("añb", "añb"));
    assert!(!str_eq("ab", "abc"));
    assert!(!str_eq("abd", "abc"));
    assert!(has_prefix("text/plain", "text/"));
    assert!(has_prefix("text/", "text/"));
    assert!(!has_prefix("text", "text/"));
    assert!(!has_prefix("xtext/plain", "text/"));
    assert!(has_prefix("anything", ""));
    assert_eq!(trim("  a b \t\n"), "a b");
    assert_eq!(trim("\u{a0}x\u{2003}"), "x");
    assert_eq!(trim("   "), "");
    assert_eq!(trim(""), "");
    assert_eq!(trim("x"), "x");
}

#[test]
fn joining_with_a_separator() {
    let v = |items: &[&str]| items.iter().map(|s| s.to_string()).collect::<Vec<String>>();
    assert_eq!(join_with(&v(&[]), ", "), "");
    assert_eq!(join_with(&v(&["a"]), ", "), "a");
    assert_eq!(join_with(&v(&["a", "b", "c"]), ", "), "a, b, c");
    assert_eq!(join_with(&v(&["", ""]), "-"), "-");
}

#[test]
fn no_notice_without_a_webhook() {
    let ips = vec!["203.0.114.7".to_string()];
    let mut config = notifying();
    config.notifier.enable = false;
    assert!(notify_discord("http://h/abcde.png", &file(false), &config, &ips).is_none());
    let mut config = notifying();
    config.notifier.discord_webhook = None;
    assert!(notify_discord("http://h/abcde.png", &file(false), &config, &ips).is_none());
    let mut config = notifying();
    config.notifier.discord_webhook = Some(String::new());
    assert!(notify_discord("http://h/abcde.png", &file(false), &config, &ips).is_none());
}

#[test]
fn notice_names_uploader_url_and_admin() {
    let ips = vec!["203.0.114.7".to_string(), "2001:4860::1".to_string()];
    let notice = notify_discord("http://h/abcde.png", &file(true), &notifying(), &ips).unwrap();
    assert_eq!(notice.webhook_url, "https://discord.example/hook");
    assert_eq!(
        notice.content,
        "Uploader IPs: **203.0.114.7, 2001:4860::1**\nFile: **<http://h/abcde.png>**\nIs Admin? **Yes**"
    );
    assert_eq!(notice.avatar_url, "https://p.ihateani.me/static/img/favicon.png");
    assert_eq!(notice.username, "ihaCDN Notificator");
    assert!(!notice.tts);
    let short = CDNData::Short { target: "https://e.org/".to_string() };
    let notice = notify_discord("http://h/abcde", &short, &notifying(), &Vec::new()).unwrap();
    assert_eq!(
        notice.content,
        "Uploader IPs: **Unknown IP**\nShort URL: **<http://h/abcde>**\nIs Admin? **No**"
    );
}

#[test]
fn report_goes_to_plausible_when_enabled() {
    let ips = vec!["203.0.114.7".to_string(), "198.51.101.1".to_string()];
    let mut config = IhaCdnConfig::new();
    assert!(report_to_plausible("http://h/a", &file(false), &config, &ips, None, None).is_none());
    config.plausible.enable = true;
    assert!(report_to_plausible("http://h/a", &file(false), &config, &ips, None, None).is_none());
    config.plausible.domain = Some(String::new());
    assert!(report_to_plausible("http://h/a", &file(false), &config, &ips, None, None).is_none());
    config.plausible.domain = Some("cdn.example.org".to_string());
    let report = report_to_plausible(
        "http://h/a.png",
        &file(true),
        &config,
        &ips,
        Some("https://ref.example/".to_string()),
        None,
    )
    .unwrap();
    assert_eq!(report.endpoint, "https://plausible.io/api/event");
    assert_eq!(report.event.name, "pageview");
    assert_eq!(report.event.url, "http://h/a.png");
    assert_eq!(report.event.kind, "file");
    assert!(report.event.is_admin_upload);
    assert_eq!(report.event.domain.as_deref(), Some("cdn.example.org"));
    assert_eq!(report.event.referrer.as_deref(), Some("https://ref.example/"));
    assert!(!report.event.interactive);
    assert_eq!(report.user_agent, USER_AGENT);
    assert_eq!(report.forwarded_for, "203.0.114.7, 198.51.101.1");
    let code = CDNData::Code {
        is_admin: false,
        path: "/p".to_string(),
        mimetype: "rs".to_string(),
        time_added: 0,
    };
    let report = report_to_plausible(
        "http://h/a",
        &code,
        &config,
        &Vec::new(),
        None,
        Some("curl/8".to_string()),
    )
    .unwrap();
    assert_eq!(report.event.kind, "code");
    assert_eq!(report.user_agent, "curl/8");
    assert_eq!(report.forwarded_for, "");
    let short = CDNData::Short { target: "https://e.org/".to_string() };
    let report = report_to_plausible("http://h/a", &short, &config, &ips, None, None).unwrap();
    assert_eq!(report.event.kind, "short");
    assert!(!report.event.is_admin_upload);
}

#[test]
fn front_page_shows_the_config() {
    let mut config = IhaCdnConfig::new();
    let page = TemplateIndex::of_config(&config);
    assert!(!page.https_mode);
    assert_eq!(page.hostname, "127.0.0.1");
    assert_eq!(page.filesize_limit.as_deref(), Some("512 MiB"));
    assert_eq!(page.blacklist_extensions, config.blocklist.extensions);
    assert_eq!(page.blacklist_ctypes, config.blocklist.content_types);
    assert!(page.file_retention.is_none());
    config.retention.enable = true;
    config.storage.filesize_limit = None;
    config.https_mode = true;
    let page = TemplateIndex::of_config(&config);
    assert!(page.https_mode);
    assert_eq!(page.filesize_limit, None);
    let ages = page.file_retention.unwrap();
    assert_eq!((ages.min_age.as_str(), ages.max_age.as_str()), ("30", "180"));
}

#[test]
fn template_wrappers_hold_what_they_are_given() {
    let data = TemplateCodeData::new("let x = 1;".to_string());
    assert_eq!(data.as_str(), "let x = 1;");
    let page = TemplatePaste { code_type: "rs".to_string(), code_data: data, file_id: "abcde".to_string() };
    let html = HtmlTemplate::new(page);
    assert_eq!(html.0.file_id, "abcde");
    assert_eq!(html.0.code_data.as_str(), "let x = 1;");
}

fn v4(a: u8, b: u8, c: u8, d: u8) -> IpAddress {
    IpAddress::V4(u32::from_be_bytes([a, b, c, d]))
}

fn v6(segments: [u16; 8]) -> IpAddress {
    let mut value: u128 = 0;
    for segment in segments {
        value = (value << 16) | segment as u128;
    }
    IpAddress::V6(value)
}

#[test]
fn addresses_that_are_not_public() {
    for ip in [
        v4(10, 0, 0, 0),
        v4(10, 255, 255, 255),
        v4(172, 16, 0, 1),
        v4(172, 31, 255, 255),
        v4(192, 168, 1, 1),
        v4(127, 0, 0, 1),
        v4(169, 254, 10, 10),
        v4(0, 0, 0, 0),
        v4(255, 255, 255, 255),
        v4(192, 0, 2, 55),
        v4(198, 51, 100, 1),
        v4(203, 0, 113, 255),
        v4(224, 0, 0, 1),
        v4(239, 255, 255, 255),
        v6([0, 0, 0, 0, 0, 0, 0, 1]),
        v6([0, 0, 0, 0, 0, 0, 0, 0]),
        v6([0xff02, 0, 0, 0, 0, 0, 0, 1]),
        v6([0xfe80, 0, 0, 0, 1, 2, 3, 4]),
        v6([0xfebf, 0xffff, 0, 0, 0, 0, 0, 0]),
        v6([0xfc00, 0, 0, 0, 0, 0, 0, 1]),
        v6([0xfdff, 0, 0, 0, 0, 0, 0, 1]),
    ] {
        assert!(is_private_ip(ip), "{:?}", ip);
    }
}

#[test]
fn addresses_that_are_public() {
    for ip in [
        v4(8, 8, 8, 8),
        v4(9, 255, 255, 255),
        v4(11, 0, 0, 0),
        v4(172, 15, 255, 255),
        v4(172, 32, 0, 0),
        v4(192, 167, 255, 255),
        v4(192, 169, 0, 0),
        v4(128, 0, 0, 1),
        v4(126, 255, 255, 255),
        v4(169, 253, 1, 1),
        v4(0, 0, 0, 1),
        v4(255, 255, 255, 254),
        v4(192, 0, 3, 0),
        v4(198, 51, 101, 0),
        v4(203, 0, 112, 255),
        v4(223, 255, 255, 255),
        v4(240, 0, 0, 0),
        v6([0, 0, 0, 0, 0, 0, 0, 2]),
        v6([0x2001, 0x4860, 0, 0, 0, 0, 0, 0x8888]),
        v6([0xfec0, 0, 0, 0, 0, 0, 0, 1]),
        v6([0xfe7f, 0xffff, 0, 0, 0, 0, 0, 1]),
        v6([0xfbff, 0, 0, 0, 0, 0, 0, 1]),
        v6([0xfe00, 0, 0, 0, 0, 0, 0, 1]),
        v6([0, 0, 0, 0, 0, 0xffff, 0x0a00, 1]),
    ] {
        assert!(!is_private_ip(ip), "{:?}", ip);
    }
}

#[test]
fn addresses_of_the_reverse_proxy() {
    for ip in [
        v4(173, 245, 48, 0),
        v4(173, 245, 63, 255),
        v4(103, 21, 244, 1),
        v4(103, 22, 203, 255),
        v4(103, 31, 7, 9),
        v4(141, 101, 127, 255),
        v4(108, 162, 192, 0),
        v4(190, 93, 255, 255),
        v4(188, 114, 96, 0),
        v4(197, 234, 243, 255),
        v4(198, 41, 128, 0),
        v4(198, 41, 255, 255),
        v4(162, 159, 255, 255),
        v4(104, 16, 0, 0),
        v4(104, 23, 255, 255),
        v4(104, 24, 0, 0),
        v4(104, 27, 255, 255),
        v4(172, 71, 255, 255),
        v4(131, 0, 75, 255),
        v6([0x2400, 0xcb00, 1, 2, 3, 4, 5, 6]),
        v6([0x2606, 0x4700, 0x4700, 0, 0, 0, 0, 0x1111]),
        v6([0x2803, 0xf800, 0, 0, 0, 0, 0, 0]),
        v6([0x2405, 0xb500, 0xffff, 0xffff, 0xffff, 0xffff, 0xffff, 0xffff]),
        v6([0x2405, 0x8100, 0, 0, 0, 0, 0, 1]),
        v6([0x2a06, 0x98c0, 0, 0, 0, 0, 0, 0]),
        v6([0x2a06, 0x98c7, 0xffff, 0xffff, 0xffff, 0xffff, 0xffff, 0xffff]),
        v6([0x2c0f, 0xf248, 0, 0, 0, 0, 0, 1]),
    ] {
        assert!(is_in_blocked_ranges(ip), "{:?}", ip);
    }
    for ip in [
        v4(173, 245, 47, 255),
        v4(173, 245, 64, 0),
        v4(198, 41, 127, 255),
        v4(162, 157, 255, 255),
        v4(162, 160, 0, 0),
        v4(104, 15, 255, 255),
        v4(104, 28, 0, 0),
        v4(172, 63, 255, 255),
        v4(172, 72, 0, 0),
        v4(131, 0, 76, 0),
        v4(8, 8, 8, 8),
        v6([0x2400, 0xcb01, 0, 0, 0, 0, 0, 0]),
        v6([0x2a06, 0x98c8, 0, 0, 0, 0, 0, 0]),
        v6([0x2a06, 0x98bf, 0xffff, 0, 0, 0, 0, 0]),
        v6([0x2001, 0x4860, 0, 0, 0, 0, 0, 0x8888]),
        v6([0, 0, 0, 0, 0, 0, 0x6810, 1]),
    ] {
        assert!(!is_in_blocked_ranges(ip), "{:?}", ip);
    }
}

#[test]
fn uploader_addresses_are_listed_by_header() {
    let cf = vec![v4(203, 0, 114, 7), v4(10, 0, 0, 1)];
    let cf6 = vec![v6([0x2001, 0x4860, 0, 0, 0, 0, 0, 0x8888]), v6([0x2606, 0x4700, 0, 0, 0, 0, 0, 1])];
    let xff = vec![v4(104, 16, 1, 1), v4(8, 8, 8, 8), v4(8, 8, 8, 8)];
    let forwarded = vec![v4(127, 0, 0, 1)];
    let real = vec![v4(1, 1, 1, 1), v6([0xfe80, 0, 0, 0, 0, 0, 0, 1])];
    assert_eq!(
        extract_ip_address(&cf, &cf6, &xff, &forwarded, &real),
        vec![
            v4(203, 0, 114, 7),
            v6([0x2001, 0x4860, 0, 0, 0, 0, 0, 0x8888]),
            v4(8, 8, 8, 8),
            v4(8, 8, 8, 8),
            v4(1, 1, 1, 1),
        ]
    );
    let none: Vec<IpAddress> = Vec::new();
    assert!(extract_ip_address(&none, &none, &none, &none, &none).is_empty());
}
