use ihacdn::config::{
    default_block_extension, default_block_mimetypes, default_filename_length,
    default_filesize_limit, default_hostname, default_ihacdn_admin_password,
    default_ihacdn_port, default_ihacdn_upload_path, default_redis_port,
    default_retention_max_age, default_retention_min_age, join_path, IhaCdnBlocklistConfig,
    IhaCdnConfig, IhaCdnNotifierConfig, IhaCdnPlausibleConfig, IhaCdnRetentionConfig,
    IhaCdnStorageConfig,
};

#[test]
fn default_values_are_the_documented_ones() {
    assert_eq!(default_hostname(), "127.0.0.1");
    assert_eq!(default_redis_port(), 6379);
    assert_eq!(default_ihacdn_port(), 6969);
    assert_eq!(default_ihacdn_upload_path(), "./");
    assert_eq!(default_ihacdn_admin_password(), "PLEASE_CHANGE_THIS");
    assert_eq!(default_filename_length(), 8);
    assert_eq!(default_retention_min_age(), 30);
    assert_eq!(default_retention_max_age(), 180);
    assert_eq!(default_filesize_limit(), Some(524288));
    assert_eq!(default_block_extension(), vec!["exe", "sh", "msi", "bat", "dll", "com"]);
    assert_eq!(
        default_block_mimetypes(),
        vec![
            "text/x-sh",
            "text/x-msdos-batch",
            "application/x-dosexec",
            "application/x-msdownload",
            "application/vnd.microsoft.portable-executable",
            "application/x-msi",
            "application/x-msdos-program",
            "application/x-sh",
        ]
    );
}

#[test]
fn new_config_holds_the_defaults() {
    let config = IhaCdnConfig::new();
    assert_eq!(config.hostname, "127.0.0.1");
    assert_eq!(config.host, "127.0.0.1");
    assert_eq!(config.port, 6969);
    assert!(!config.https_mode);
    assert_eq!(config.upload_path, "./");
    assert_eq!(config.admin_password, "PLEASE_CHANGE_THIS");
    assert_eq!(config.filename_length, 8);
    assert_eq!(config.redis, "redis://127.0.0.1:6379");
    assert!(!config.notifier.enable);
    assert_eq!(config.notifier.discord_webhook, None);
    assert!(!config.retention.enable);
    assert_eq!(config.retention.min_age, 30);
    assert_eq!(config.retention.max_age, 180);
    assert_eq!(config.storage.filesize_limit, Some(524288));
    assert_eq!(config.storage.admin_filesize_limit, None);
    assert_eq!(config.blocklist.extensions.len(), 6);
    assert_eq!(config.blocklist.content_types.len(), 8);
    assert!(!config.plausible.enable);
    assert_eq!(config.plausible.domain, None);
    assert_eq!(config.plausible.endpoint_url, None);
}

#[test]
fn default_impls_of_the_parts() {
    let notifier = IhaCdnNotifierConfig::default();
    assert!(!notifier.enable && notifier.discord_webhook.is_none());
    let plausible = IhaCdnPlausibleConfig::default();
    assert!(!plausible.enable && plausible.domain.is_none() && plausible.endpoint_url.is_none());
    let retention = IhaCdnRetentionConfig::default();
    assert_eq!((retention.enable, retention.min_age, retention.max_age), (false, 30, 180));
    let storage = IhaCdnStorageConfig::default();
    assert_eq!((storage.filesize_limit, storage.admin_filesize_limit), (Some(524288), None));
    let blocklist = IhaCdnBlocklistConfig::default();
    assert_eq!(blocklist.extensions[0], "exe");
    assert_eq!(blocklist.content_types[7], "application/x-sh");
}

#[test]
fn admin_password_is_refused_while_unchanged() {
    let mut config = IhaCdnConfig::new();
    assert_eq!(config.verify_admin_password("mypassword"), false);
    assert_eq!(config.verify_admin_password("PLEASE_CHANGE_THIS"), false);
    config.admin_password = "mypassword".to_string();
    assert_eq!(config.verify_admin_password("mypassword"), true);
    assert_eq!(config.verify_admin_password("wrongpassword"), false);
    assert_eq!(config.verify_admin_password("mypassworD"), false);
    assert_eq!(config.verify_admin_password("Mypassword"), false);
    assert_eq!(config.verify_admin_password(""), false);
    assert_eq!(config.verify_admin_password("mypassword "), false);
}

#[test]
fn admin_password_may_hold_any_characters() {
    let mut config = IhaCdnConfig::new();
    config.admin_password = "pässwörd-密码".to_string();
    assert!(config.verify_admin_password("pässwörd-密码"));
    assert!(!config.verify_admin_password("password-密码"));
}

#[test]
fn limits_are_given_in_bytes() {
    let mut config = IhaCdnConfig::new();
    assert!(config.storage.check_limits());
    assert_eq!(config.get_limit(false), Some(524288 * 1024));
    assert_eq!(config.get_limit(true), None);
    config.storage.admin_filesize_limit = Some(3);
    config.storage.filesize_limit = None;
    assert_eq!(config.get_limit(true), Some(3072));
    assert_eq!(config.get_limit(false), None);
    config.storage.filesize_limit = Some(0);
    assert_eq!(config.get_limit(false), Some(0));
}

#[test]
fn limits_that_do_not_fit_are_told() {
    let mut storage = IhaCdnStorageConfig::default();
    storage.filesize_limit = Some(u64::MAX / 1024);
    assert!(storage.check_limits());
    storage.filesize_limit = Some(u64::MAX / 1024 + 1);
    assert!(!storage.check_limits());
    storage.filesize_limit = None;
    storage.admin_filesize_limit = Some(u64::MAX);
    assert!(!storage.check_limits());
}

#[test]
fn blocked_types_and_extensions() {
    let config = IhaCdnConfig::new();
    assert!(!config.is_filetype_allowed("application/x-sh"));
    assert!(!config.is_filetype_allowed("text/x-sh"));
    assert!(config.is_filetype_allowed("text/plain"));
    assert!(config.is_filetype_allowed("Application/x-sh"));
    assert!(config.is_filetype_allowed(""));
    assert!(!config.is_extension_allowed("exe"));
    assert!(!config.is_extension_allowed("com"));
    assert!(config.is_extension_allowed("EXE"));
    assert!(config.is_extension_allowed("txt"));
    assert!(config.is_extension_allowed("ex"));
}

#[test]
fn urls_follow_the_scheme() {
    let mut config = IhaCdnConfig::new();
    config.hostname = "cdn.example.org".to_string();
    assert_eq!(config.make_url("abcde.txt"), "http://cdn.example.org/abcde.txt");
    config.https_mode = true;
    assert_eq!(config.make_url("abcde"), "https://cdn.example.org/abcde");
    assert_eq!(config.make_url(""), "https://cdn.example.org/");
}

#[test]
fn verify_tells_each_fault() {
    let mut good = IhaCdnConfig::new();
    good.admin_password = "secret".to_string();
    assert!(good.verify(true));
    assert!(!good.verify(false));
    assert!(IhaCdnConfig::new().verify(true));

    let mut c = good.clone();
    c.hostname = String::new();
    assert!(!c.verify(true));
    let mut c = good.clone();
    c.port = 0;
    assert!(!c.verify(true));
    let mut c = good.clone();
    c.upload_path = String::new();
    assert!(!c.verify(true));
    let mut c = good.clone();
    c.admin_password = String::new();
    assert!(!c.verify(true));
    let mut c = good.clone();
    c.filename_length = 4;
    assert!(!c.verify(true));
    c.filename_length = 5;
    assert!(c.verify(true));
    let mut c = good.clone();
    c.plausible.enable = true;
    assert!(!c.verify(true));
    c.plausible.domain = Some("example.org".to_string());
    assert!(c.verify(true));
}

#[test]
fn upload_directories() {
    let config = IhaCdnConfig::new();
    assert_eq!(config.get_path("/srv/cdn", false), "/srv/cdn/uploads");
    assert_eq!(config.get_path("/srv/cdn", true), "/srv/cdn/uploads_admin");
    assert_eq!(config.get_path("/", false), "/uploads");
    assert_eq!(config.get_path("", true), "uploads_admin");
    assert_eq!(join_path("/a/b/", "c.txt"), "/a/b/c.txt");
    assert_eq!(join_path("/a/b", "c.txt"), "/a/b/c.txt");
}

#[test]
fn plausible_is_enabled_only_with_a_domain() {
    let mut plausible = IhaCdnPlausibleConfig::default();
    assert!(!plausible.is_enabled());
    plausible.enable = true;
    assert!(!plausible.is_enabled());
    plausible.domain = Some("example.org".to_string());
    assert!(plausible.is_enabled());
    plausible.enable = false;
    assert!(!plausible.is_enabled());
}

#[test]
fn plausible_endpoint_is_the_event_api() {
    let mut plausible = IhaCdnPlausibleConfig::default();
    assert_eq!(plausible.endpoint_url(), Some("https://plausible.io/api/event".to_string()));
    plausible.endpoint_url = Some("https://stats.example.org/some/path".to_string());
    assert_eq!(
        plausible.endpoint_url(),
        Some("https://stats.example.org/api/event".to_string())
    );
    plausible.endpoint_url = Some("not a url".to_string());
    assert_eq!(plausible.endpoint_url(), Some("https://plausible.io/api/event".to_string()));
    plausible.endpoint_url = Some("mailto:someone@example.org".to_string());
    assert_eq!(plausible.endpoint_url(), None);
}
