use bbs_post::bbs::{
    classify, is_shitaraba_bbs, new, open_thread, parse_bbs_url, AnyThread, BbsUrl,
};
use bbs_post::compatible;
use bbs_post::error::BbsError;
use bbs_post::location::Location;
use bbs_post::shitaraba;

fn location(text: &str) -> Location {
    Location::parse(text).unwrap()
}

fn with_path(path: &str) -> Location {
    Location {
        href: format!("https://example.com{}", path),
        origin: "https://example.com".to_string(),
        host: Some("example.com".to_string()),
        path: path.to_string(),
    }
}

#[test]
fn test_parse_bbs_url() {
    let url = "https://jbbs.shitaraba.net/bbs/read.cgi/radio/22607/1484488601/l50";
    match parse_bbs_url(location(url)) {
        Ok(BbsUrl::ProbablyShitarabaThread(u, _)) => assert_eq!(u.href, location(url).href),
        _ => panic!("Mismatched result for URL: {}", url),
    }

    let url = "https://jbbs.shitaraba.net/radio/22607/";
    match parse_bbs_url(location(url)) {
        Ok(BbsUrl::ProbablyShitarabaBoard(u, dir, board)) => {
            assert_eq!(u.href, location(url).href);
            assert_eq!(dir, "radio".to_string());
            assert_eq!(board, 22607);
        }
        _ => panic!("Mismatched result for URL: {}", url),
    }

    let url = "https://bbs.jpnkn.com/test/read.cgi/progre/1749359408/l50";
    match parse_bbs_url(location(url)) {
        Ok(BbsUrl::ProbablyCompatibleThread(u, _)) => assert_eq!(u.href, location(url).href),
        _ => panic!("Mismatched result for URL: {}", url),
    }

    let url = "https://bbs.jpnkn.com/progre/";
    match parse_bbs_url(location(url)) {
        Ok(BbsUrl::MaybeCompatibleBoard(u, board)) => {
            assert_eq!(u.href, location(url).href);
            assert_eq!(board, "progre".to_string());
        }
        _ => panic!("Mismatched result for URL: {}", url),
    }

    let url = "https://example.com/";
    match parse_bbs_url(location(url)) {
        Err(back) => assert_eq!(back.href, url),
        _ => panic!("Mismatched result for URL: {}", url),
    }
}

#[test]
fn location_parse_normalises_and_splits() {
    let l = location("HTTPS://Example.COM:443/a/b?x=1#frag");
    assert_eq!(l.href, "https://example.com/a/b?x=1#frag");
    assert_eq!(l.origin, "https://example.com");
    assert_eq!(l.host, Some("example.com".to_string()));
    assert_eq!(l.path, "/a/b");
    let l = location("http://localhost:8080/x");
    assert_eq!(l.origin, "http://localhost:8080");
}

#[test]
fn location_parse_rejects_relative_text() {
    assert!(Location::parse("not a url").is_none());
    assert!(Location::parse("/progre/").is_none());
    assert!(Location::parse("").is_none());
}

#[test]
fn location_without_host() {
    let l = location("mailto:someone@example.com");
    assert_eq!(l.host, None);
    assert_eq!(l.origin, "null");
}

#[test]
fn shitaraba_thread_fields_are_exact() {
    let t = shitaraba::parse_thread_url(&location(
        "https://jbbs.shitaraba.net/bbs/read.cgi/radio/22607/1484488601/l50",
    ))
    .unwrap();
    assert_eq!(t.origin(), "https://jbbs.shitaraba.net");
    assert_eq!(t.dir(), "radio");
    assert_eq!(t.bbs(), 22607);
    assert_eq!(t.key(), 1484488601);
    assert_eq!(
        t.read_url(),
        "https://jbbs.shitaraba.net/bbs/read.cgi/radio/22607/1484488601/"
    );
}

#[test]
fn shitaraba_thread_whatever_follows_the_key() {
    for tail in ["", "/", "/l50", "/1-100", "/a/b/c", "//"] {
        let path = format!("/bbs/read.cgi/game/123/456{}", tail);
        let t = shitaraba::parse_thread_url(&with_path(&path)).unwrap();
        assert_eq!(t.dir(), "game");
        assert_eq!(t.bbs(), 123);
        assert_eq!(t.key(), 456);
        assert_eq!(t.origin(), "https://example.com");
    }
}

#[test]
fn shitaraba_thread_on_any_host() {
    let t = shitaraba::parse_thread_url(&location("http://other.example/bbs/read.cgi/a/1/2"))
        .unwrap();
    assert_eq!(t.origin(), "http://other.example");
    assert_eq!(t.dir(), "a");
}

#[test]
fn shitaraba_thread_rejects_malformed_paths() {
    for path in [
        "/bbs/read.cgi/",
        "/bbs/read.cgi/radio",
        "/bbs/read.cgi/radio/",
        "/bbs/read.cgi/radio/22607",
        "/bbs/read.cgi/radio/22607/",
        "/bbs/read.cgi/radio/abc/1484488601",
        "/bbs/read.cgi/radio/22607/abc",
        "/bbs/read.cgi/radio/22607/12x/",
        "/bbs/read.cgi//22607/1484488601",
        "/bbs/read.cgi/radio//1484488601",
        "/bbs/read.cgi/radio/-1/5",
        "/bbs/read_cgi/radio/22607/1484488601",
        "/bbs/readxcgi/radio/22607/1484488601",
        "/x/bbs/read.cgi/radio/22607/1484488601",
        "/bbs/read.cgi/radio/22607/1484488601:/l50",
        "/bbs/read.cgi/radio/18446744073709551616/1",
        "/bbs/read.cgi/radio/1/18446744073709551616",
        "/",
        "",
    ] {
        assert!(shitaraba::parse_thread_url(&with_path(path)).is_none(), "{}", path);
    }
}

#[test]
fn numbers_are_read_as_unsigned_decimals() {
    let t = shitaraba::parse_thread_url(&with_path("/bbs/read.cgi/d/007/+42")).unwrap();
    assert_eq!(t.bbs(), 7);
    assert_eq!(t.key(), 42);
    let t = shitaraba::parse_thread_url(&with_path(
        "/bbs/read.cgi/d/0/18446744073709551615",
    ))
    .unwrap();
    assert_eq!(t.bbs(), 0);
    assert_eq!(t.key(), u64::MAX);
    assert!(shitaraba::parse_thread_url(&with_path("/bbs/read.cgi/d/+/1")).is_none());
    assert!(shitaraba::parse_thread_url(&with_path("/bbs/read.cgi/d/1+/1")).is_none());
    assert!(shitaraba::parse_thread_url(&with_path("/bbs/read.cgi/d/++1/1")).is_none());
}

#[test]
fn shitaraba_board_with_and_without_closing_slash() {
    for url in [
        "https://jbbs.shitaraba.net/radio/22607/",
        "https://jbbs.shitaraba.net/radio/22607",
    ] {
        assert_eq!(
            shitaraba::parse_board_url(&location(url)),
            Some(("radio".to_string(), 22607))
        );
    }
}

#[test]
fn shitaraba_board_rejects_other_addresses() {
    for url in [
        "https://jbbs.shitaraba.net/",
        "https://jbbs.shitaraba.net/radio",
        "https://jbbs.shitaraba.net/radio/",
        "https://jbbs.shitaraba.net/radio/abc/",
        "https://jbbs.shitaraba.net/radio/+5/",
        "https://jbbs.shitaraba.net/radio/22607//",
        "https://jbbs.shitaraba.net/radio/22607/x",
        "https://jbbs.shitaraba.net/radio/22607/?x=1",
        "https://jbbs.shitaraba.net/radio/22607#top",
        "https://jbbs.shitaraba.net/a/b/22607/",
        "https://jbbs.shitaraba.net/radio/18446744073709551616/",
        "http://jbbs.shitaraba.net/radio/22607/",
        "https://jbbsxshitaraba.net/radio/22607/",
        "https://example.com/radio/22607/",
    ] {
        assert_eq!(shitaraba::parse_board_url(&location(url)), None, "{}", url);
    }
}

#[test]
fn compatible_thread_fields_are_exact() {
    let t = compatible::parse_thread_url(&location(
        "https://bbs.jpnkn.com/test/read.cgi/progre/1749359408/l50",
    ))
    .unwrap();
    assert_eq!(t.origin(), "https://bbs.jpnkn.com");
    assert_eq!(t.bbs(), "progre");
    assert_eq!(t.key(), 1749359408);
    assert_eq!(t.read_url(), "https://bbs.jpnkn.com/test/read.cgi/progre/1749359408");
}

#[test]
fn compatible_thread_whatever_follows_the_key() {
    for tail in ["", "/", "/l50", ":/l50", ":/", "/a/b", "/:"] {
        let path = format!("/test/read.cgi/news/987{}", tail);
        let t = compatible::parse_thread_url(&with_path(&path)).unwrap();
        assert_eq!(t.bbs(), "news");
        assert_eq!(t.key(), 987);
    }
}

#[test]
fn compatible_thread_rejects_malformed_paths() {
    for path in [
        "/test/read.cgi/",
        "/test/read.cgi/news",
        "/test/read.cgi/news/",
        "/test/read.cgi/news/abc",
        "/test/read.cgi/news/12a/l50",
        "/test/read.cgi/news/123:",
        "/test/read.cgi/news/123::/l50",
        "/test/read.cgi/news/:/l50",
        "/test/read.cgi//123",
        "/test/read.cgi/news//123",
        "/test/readxcgi/news/123",
        "/test/read.cgi/news/18446744073709551616",
        "/bbs/read.cgi/news/123",
        "/",
        "",
    ] {
        assert!(compatible::parse_thread_url(&with_path(path)).is_none(), "{}", path);
    }
}

#[test]
fn compatible_board_is_a_single_segment() {
    assert_eq!(
        compatible::parse_board_url(&with_path("/progre/")),
        Some("progre".to_string())
    );
    assert_eq!(
        compatible::parse_board_url(&with_path("/progre")),
        Some("progre".to_string())
    );
    assert_eq!(compatible::parse_board_url(&with_path("/a")), Some("a".to_string()));
    for path in ["/", "", "//", "/a/b", "/a/b/", "/a//", "progre", "progre/"] {
        assert_eq!(compatible::parse_board_url(&with_path(path)), None, "{}", path);
    }
}

#[test]
fn single_segment_classifies_as_compatible_board() {
    for url in ["https://bbs.jpnkn.com/progre/", "https://bbs.jpnkn.com/progre", "http://x.test/b/"] {
        match parse_bbs_url(location(url)) {
            Ok(BbsUrl::MaybeCompatibleBoard(_, _)) => {}
            other => panic!("{} gave {:?}", url, other),
        }
    }
}

#[test]
fn empty_path_is_not_classified() {
    for url in ["https://example.com/", "https://example.com", "https://jbbs.shitaraba.net/"] {
        match parse_bbs_url(location(url)) {
            Err(back) => assert_eq!(back.href, location(url).href),
            other => panic!("{} gave {:?}", url, other),
        }
    }
}

#[test]
fn shitaraba_patterns_go_first() {
    let both = Location {
        href: "https://jbbs.shitaraba.net/radio/22607/".to_string(),
        origin: "https://jbbs.shitaraba.net".to_string(),
        host: Some("jbbs.shitaraba.net".to_string()),
        path: "/test/read.cgi/progre/1749359408/".to_string(),
    };
    match parse_bbs_url(both) {
        Ok(BbsUrl::ProbablyShitarabaBoard(_, dir, board)) => {
            assert_eq!(dir, "radio");
            assert_eq!(board, 22607);
        }
        other => panic!("gave {:?}", other),
    }
    let both = Location {
        href: "https://jbbs.shitaraba.net/radio/22607/".to_string(),
        origin: "https://jbbs.shitaraba.net".to_string(),
        host: Some("jbbs.shitaraba.net".to_string()),
        path: "/bbs/read.cgi/game/1/2".to_string(),
    };
    match parse_bbs_url(both) {
        Ok(BbsUrl::ProbablyShitarabaThread(_, t)) => {
            assert_eq!(t.dir(), "game");
            assert_eq!(t.bbs(), 1);
            assert_eq!(t.key(), 2);
        }
        other => panic!("gave {:?}", other),
    }
    match parse_bbs_url(location("https://jbbs.shitaraba.net/radio/22607")) {
        Ok(BbsUrl::ProbablyShitarabaBoard(_, _, _)) => {}
        other => panic!("gave {:?}", other),
    }
}

#[test]
fn classify_parses_then_recognises() {
    match classify("https://jbbs.shitaraba.net/bbs/read.cgi/radio/22607/1484488601/l50") {
        Ok(BbsUrl::ProbablyShitarabaThread(u, t)) => {
            assert_eq!(u.path, "/bbs/read.cgi/radio/22607/1484488601/l50");
            assert_eq!(t.dir(), "radio");
            assert_eq!(t.bbs(), 22607);
            assert_eq!(t.key(), 1484488601);
        }
        other => panic!("gave {:?}", other),
    }
    match classify("https://bbs.jpnkn.com/progre/") {
        Ok(BbsUrl::MaybeCompatibleBoard(_, bbs)) => assert_eq!(bbs, "progre"),
        other => panic!("gave {:?}", other),
    }
}

#[test]
fn classify_fails_on_unsupported_or_unparsable_text() {
    assert_eq!(classify("https://example.com/").err(), Some(BbsError::Classification));
    assert_eq!(classify("https://example.com/a/b/c").err(), Some(BbsError::Classification));
    assert_eq!(classify("no url at all").err(), Some(BbsError::Classification));
    assert_eq!(classify("").err(), Some(BbsError::Classification));
}

#[test]
fn new_picks_the_family_by_host_and_path() {
    match new(&location("https://jbbs.shitaraba.net/bbs/read.cgi/radio/22607/1484488601/")) {
        Ok(AnyThread::Shitaraba(t)) => assert_eq!(t.key(), 1484488601),
        other => panic!("gave {:?}", other),
    }
    match new(&location("https://other.example/bbs/read.cgi/radio/1/2/")) {
        Ok(AnyThread::Shitaraba(t)) => assert_eq!(t.origin(), "https://other.example"),
        other => panic!("gave {:?}", other),
    }
    match new(&location("https://bbs.jpnkn.com/test/read.cgi/progre/1749359408")) {
        Ok(AnyThread::Compatible(t)) => assert_eq!(t.bbs(), "progre"),
        other => panic!("gave {:?}", other),
    }
}

#[test]
fn new_fails_where_the_family_has_no_such_thread() {
    // The host decides for Shitaraba, whose thread pattern the path does not meet.
    assert_eq!(
        new(&location("https://jbbs.shitaraba.net/test/read.cgi/progre/1")).err(),
        Some(BbsError::Classification)
    );
    assert_eq!(
        new(&location("https://bbs.jpnkn.com/progre/")).err(),
        Some(BbsError::Classification)
    );
    assert_eq!(
        new(&location("mailto:someone@example.com")).err(),
        Some(BbsError::Classification)
    );
}

#[test]
fn open_thread_parses_then_opens() {
    match open_thread("https://bbs.jpnkn.com/test/read.cgi/progre/1749359408") {
        Ok(AnyThread::Compatible(t)) => assert_eq!(t.key(), 1749359408),
        other => panic!("gave {:?}", other),
    }
    assert_eq!(open_thread("nonsense").err(), Some(BbsError::Classification));
}

#[test]
fn is_shitaraba_bbs_by_host_or_path() {
    assert!(is_shitaraba_bbs("jbbs.shitaraba.net", "/"));
    assert!(is_shitaraba_bbs("example.com", "/bbs/read.cgi/a/1/2"));
    assert!(is_shitaraba_bbs("example.com", "/bbs/read.cgi/"));
    assert!(!is_shitaraba_bbs("example.com", "/bbs/read.cgi"));
    assert!(!is_shitaraba_bbs("example.com", "/test/read.cgi/a/1"));
    assert!(!is_shitaraba_bbs("jbbs.shitaraba.net.example", "/"));
    assert!(!is_shitaraba_bbs("", ""));
}
