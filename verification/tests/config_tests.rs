//! Session parsing: cookies, header blocks, base directories.

use pixivdwn::config::{UIDSession, Session, SessionError, parse_header_block};
use pixivdwn::pixiv::PixivRequest;
use pixivdwn::fanbox::FanboxRequest;

#[test]
fn uid_from_cookie_prefix() {
    let u = UIDSession::parse("12345_SECRET-REDACTED").unwrap();
    assert_eq!(u.uid, 12345);
    assert_eq!(u.cookie, "12345_SECRET-REDACTED");
    // a cookie without an underscore is all uid
    let u = UIDSession::parse("777").unwrap();
    assert_eq!(u.uid, 777);
    // a non-numeric prefix is refused
    assert!(matches!(UIDSession::parse("abc_x"), Err(SessionError::InvalidUid)));
    assert!(matches!(UIDSession::parse(""), Err(SessionError::InvalidUid)));
}

#[test]
fn header_block_parses_and_filters() {
    let block = "GET /home HTTP/1.1\nHost: api.example\nCookie: k=v\nAccept: */*\n";
    let pairs = parse_header_block(block).unwrap();
    assert_eq!(
        pairs,
        vec![
            ("Cookie".to_string(), "k=v".to_string()),
            ("Accept".to_string(), "*/*".to_string()),
        ]
    );
}

#[test]
fn header_block_reports_the_bad_line() {
    let block = "Cookie: k=v\nbroken-line\n";
    match parse_header_block(block) {
        Err(SessionError::UnparsableHeader(l)) => assert_eq!(l, "broken-line"),
        other => panic!("expected the broken line, got {:?}", other),
    }
}

fn session_with(pixiv: Option<&str>, fanbox: Option<&str>, full: Option<&str>) -> Session {
    Session::new(
        pixiv.map(str::to_string),
        fanbox.map(str::to_string),
        full.map(str::to_string),
        Some("/archive/images".to_string()),
        None,
    )
    .unwrap()
}

#[test]
fn session_assembly_and_base_dirs() {
    let s = session_with(Some("42_c"), None, None);
    assert_eq!(s.pixiv.as_ref().unwrap().uid, 42);
    assert!(s.fanbox.is_none());
    assert_eq!(s.get_pixiv_base_dir().unwrap(), "/archive/images");
    assert!(s.get_fanbox_base_dir().is_err());
}

#[test]
fn pixiv_request_headers() {
    let s = session_with(Some("42_c"), None, None);
    let h = PixivRequest(&s).argument().unwrap();
    assert_eq!(h[0].0, "Cookie");
    assert_eq!(h[0].1, "PHPSESSID=42_c;");
    assert_eq!(h[1].0, "User-Agent");
    // a session is demanded
    let bare = session_with(None, None, None);
    assert_eq!(PixivRequest(&bare).argument(), Err(SessionError::MissingSession));
}

#[test]
fn fanbox_request_headers_from_cookie() {
    let s = session_with(None, Some("9_f"), None);
    let h = FanboxRequest(&s).argument().unwrap();
    assert_eq!(h[0], ("Cookie".to_string(), "FANBOXSESSID=9_f;".to_string()));
    assert_eq!(h[1], ("Origin".to_string(), "https://www.fanbox.cc".to_string()));
    assert_eq!(h[2], ("Referer".to_string(), "https://www.fanbox.cc/".to_string()));
}

#[test]
fn fanbox_request_headers_from_full_block() {
    let s = session_with(None, Some("9_f"), Some("Cookie: a=b\nX-Extra: y\n"));
    let h = FanboxRequest(&s).argument().unwrap();
    // the raw block overrides the plain cookie
    assert_eq!(h[0], ("Cookie".to_string(), "a=b".to_string()));
    assert_eq!(h[1], ("X-Extra".to_string(), "y".to_string()));
    assert_eq!(h[2].0, "Origin");
    assert_eq!(h[3].0, "Referer");
}
