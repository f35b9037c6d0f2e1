use youwee::cookies::{
    browser_cookie_source_for, CookieStore, cookie_domain_matches, cookie_header_at, cookie_header_from_netscape, sqlite_sidecar_path,
    tiktok_cookie_header_from_netscape,
};

#[test]
fn tiktok_live_sqlite_sidecar_path_appends_sqlite_wal_suffix() {
    assert_eq!(sqlite_sidecar_path("cookies.sqlite", "wal"), "cookies.sqlite-wal");
}

#[test]
fn browser_cookies_sqlite_sidecar_path_appends_sqlite_wal_suffix() {
    assert_eq!(sqlite_sidecar_path("cookies.sqlite", "wal"), "cookies.sqlite-wal");
    assert_eq!(sqlite_sidecar_path("cookies.sqlite", "shm"), "cookies.sqlite-shm");
}

#[test]
fn cookie_domains_match_subdomains_both_ways() {
    assert!(cookie_domain_matches("www.tiktok.com", ".tiktok.com"));
    assert!(cookie_domain_matches("tiktok.com", "www.TikTok.com"));
    assert!(cookie_domain_matches(".TIKTOK.COM", "tiktok.com"));
    assert!(!cookie_domain_matches("nottiktok.com", "tiktok.com"));
    assert!(!cookie_domain_matches("tiktok.com", "example.com"));
}

const COOKIES: &str = "# Netscape HTTP Cookie File\n\
.tiktok.com\tTRUE\t/\tTRUE\t0\tsessionid\tabc\n\
#HttpOnly_.tiktok.com\tTRUE\t/\tTRUE\t0\tsid_tt\tdef\n\
.tiktok.com\tTRUE\t/\tTRUE\t100\texpired\told\n\
.example.com\tTRUE\t/\tTRUE\t0\tother\tzzz\n\
short\tline\n";

#[test]
fn parses_tiktok_cookie_header_from_netscape_file() {
    assert_eq!(
        cookie_header_at(COOKIES, "www.tiktok.com", 1_000, true).as_deref(),
        Some("sessionid=abc")
    );
    assert_eq!(
        tiktok_cookie_header_from_netscape(
            ".tiktok.com\tTRUE\t/\tTRUE\t0\tsessionid\tabc\n",
            "www.tiktok.com"
        )
        .as_deref(),
        Some("sessionid=abc")
    );
}

#[test]
fn parses_cookie_header_from_netscape_file() {
    assert_eq!(
        cookie_header_at(COOKIES, "www.tiktok.com", 1_000, false).as_deref(),
        Some("sessionid=abc; sid_tt=def")
    );
    assert_eq!(
        cookie_header_at(COOKIES, "www.tiktok.com", 50, false).as_deref(),
        Some("sessionid=abc; sid_tt=def; expired=old")
    );
    assert_eq!(cookie_header_at(COOKIES, "www.youtube.com", 50, false), None);
    assert_eq!(
        cookie_header_from_netscape("  .example.com\tTRUE\t/\tTRUE\tnever\tk\tv  \n", "example.com")
            .as_deref(),
        Some("k=v")
    );
}

#[test]
fn browser_cookie_rows_give_the_header_of_matching_domains() {
    let rows = vec![
        (".tiktok.com".to_string(), "sessionid".to_string(), "abc".to_string()),
        (".example.com".to_string(), "other".to_string(), "nope".to_string()),
        ("www.tiktok.com".to_string(), "tt".to_string(), "1".to_string()),
    ];
    assert_eq!(
        youwee::cookies::cookie_header_from_rows(&rows, "www.tiktok.com").as_deref(),
        Some("sessionid=abc; tt=1")
    );
    assert_eq!(youwee::cookies::cookie_header_from_rows(&rows, "other.org"), None);
    assert_eq!(youwee::cookies::cookie_header_from_rows(&[], "www.tiktok.com"), None);
}

#[test]
fn cookie_sources_follow_the_cookie_mode() {
    let url = "https://www.tiktok.com/@creator/live";
    assert_eq!(
        browser_cookie_source_for(url, Some("file"), None, None, Some("/tmp/cookies.txt"), false),
        Some((CookieStore::NetscapeFile, "/tmp/cookies.txt".to_string(), "www.tiktok.com".to_string()))
    );
    assert_eq!(browser_cookie_source_for(url, Some("file"), None, None, Some("  "), false), None);
    assert_eq!(
        browser_cookie_source_for(url, Some("browser"), Some("FireFox"), Some("default"), None, false),
        Some((CookieStore::FirefoxProfile, "default".to_string(), "www.tiktok.com".to_string()))
    );
    assert_eq!(
        browser_cookie_source_for(url, Some("browser"), Some("chrome"), Some("default"), None, false),
        None
    );
    assert_eq!(browser_cookie_source_for(url, None, None, None, Some("/tmp/c.txt"), false), None);
    assert_eq!(
        browser_cookie_source_for(url, Some("file"), None, None, Some("/tmp/c.txt"), true),
        None
    );
    assert_eq!(
        browser_cookie_source_for("not a url", Some("file"), None, None, Some("/tmp/c.txt"), false),
        None
    );
}
