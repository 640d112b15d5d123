use bbs_post::bbs::{classify, new, open_thread, AnyThread, BbsUrl, Thread};
use bbs_post::compatible::Compatible;
use bbs_post::error::BbsError;
use bbs_post::http::{Method, Request};
use bbs_post::location::Location;
use bbs_post::shitaraba::Shitaraba;

fn headers(request: &Request) -> Vec<(String, String)> {
    request.headers.iter().map(|h| (h.name.clone(), h.value.clone())).collect()
}

fn pair(name: &str, value: &str) -> (String, String) {
    (name.to_string(), value.to_string())
}

#[test]
fn shitaraba_post_end_to_end() {
    let thread = match classify("https://jbbs.shitaraba.net/bbs/read.cgi/radio/22607/1484488601/l50")
    {
        Ok(BbsUrl::ProbablyShitarabaThread(_, t)) => t,
        other => panic!("gave {:?}", other),
    };
    assert_eq!(thread.dir(), "radio");
    assert_eq!(thread.bbs(), 22607);
    assert_eq!(thread.key(), 1484488601);
    let request = thread.post("euc-jp", "", "sage", "test").unwrap();
    assert_eq!(request.method, Method::Post);
    assert_eq!(
        request.url,
        "https://jbbs.shitaraba.net/bbs/write.cgi/radio/22607/1484488601/"
    );
    assert_eq!(
        request.body,
        "BBS=22607&KEY=1484488601&DIR=radio&NAME=&MAIL=sage&MESSAGE=test"
    );
    assert_eq!(
        headers(&request),
        vec![
            pair("Content-Type", "application/x-www-form-urlencoded; charset=euc-jp"),
            pair(
                "Referer",
                "https://jbbs.shitaraba.net/bbs/read.cgi/radio/22607/1484488601/"
            ),
            pair("User-Agent", "bbs_post/0.1.0"),
        ]
    );
}

#[test]
fn compatible_post_end_to_end() {
    let url = Location::parse("https://bbs.jpnkn.com/test/read.cgi/progre/1749359408/l50").unwrap();
    let thread = Compatible::new(&url).unwrap();
    let request = thread.post("Shift_JIS", "名無し", "sage", "テスト 1").unwrap();
    assert_eq!(request.method, Method::Post);
    assert_eq!(request.url, "https://bbs.jpnkn.com/test/bbs.cgi");
    assert_eq!(
        request.body,
        "FROM=%96%BC%96%B3%82%B5&mail=sage&MESSAGE=%83e%83X%83g%201&key=1749359408&bbs=progre"
    );
    assert_eq!(
        headers(&request),
        vec![
            pair("User-Agent", "bbs_post/0.1.0"),
            pair("Content-Type", "application/x-www-form-urlencoded; charset=Shift_JIS"),
            pair("Cookie", "NAME=\"%96%BC%96%B3%82%B5\";MAIL=\"sage\""),
        ]
    );
}

#[test]
fn post_body_carries_the_bytes_of_the_charset() {
    let url = Location::parse("https://jbbs.shitaraba.net/bbs/read.cgi/radio/1/2/").unwrap();
    let thread = Shitaraba::new(&url).unwrap();
    let euc = thread.post("euc-jp", "", "", "あ").unwrap();
    assert_eq!(euc.body, "BBS=1&KEY=2&DIR=radio&NAME=&MAIL=&MESSAGE=%A4%A2");
    let sjis = thread.post("shift_jis", "", "", "あ").unwrap();
    assert_eq!(sjis.body, "BBS=1&KEY=2&DIR=radio&NAME=&MAIL=&MESSAGE=%82%A0");
    let utf8 = thread.post("utf-8", "", "", "あ").unwrap();
    assert_eq!(utf8.body, "BBS=1&KEY=2&DIR=radio&NAME=&MAIL=&MESSAGE=%E3%81%82");
}

#[test]
fn post_with_unknown_charset_is_an_encoding_failure() {
    let url = Location::parse("https://jbbs.shitaraba.net/bbs/read.cgi/radio/1/2/").unwrap();
    let thread = Shitaraba::new(&url).unwrap();
    assert_eq!(thread.post("klingon", "", "", "x").err(), Some(BbsError::Encoding));
    let url = Location::parse("https://bbs.jpnkn.com/test/read.cgi/progre/1").unwrap();
    let thread = Compatible::new(&url).unwrap();
    assert_eq!(thread.post("", "n", "e", "x").err(), Some(BbsError::Encoding));
}

#[test]
fn new_rejects_what_is_no_thread() {
    let url = Location::parse("https://bbs.jpnkn.com/progre/").unwrap();
    assert_eq!(Compatible::new(&url).err(), Some(BbsError::Classification));
    assert_eq!(Shitaraba::new(&url).err(), Some(BbsError::Classification));
}

#[test]
fn posted_judges_by_the_status_alone() {
    let url = Location::parse("https://bbs.jpnkn.com/test/read.cgi/progre/1").unwrap();
    let thread = Compatible::new(&url).unwrap();
    assert_eq!(thread.posted(200, &[0x82, 0xa0]), Ok("あ".to_string()));
    assert_eq!(thread.posted(299, b"ERROR"), Ok("ERROR".to_string()));
    assert_eq!(thread.posted(403, b"x"), Err(BbsError::FetchStatus(403)));
    assert_eq!(thread.posted(302, b"x"), Err(BbsError::FetchStatus(302)));
    let url = Location::parse("https://jbbs.shitaraba.net/bbs/read.cgi/radio/1/2/").unwrap();
    let thread = Shitaraba::new(&url).unwrap();
    assert_eq!(thread.posted(200, &[0xa4, 0xa2]), Ok("あ".to_string()));
    assert_eq!(thread.posted(500, &[]), Err(BbsError::FetchStatus(500)));
}

#[test]
fn any_thread_posts_as_its_family_does() {
    let thread = open_thread("https://jbbs.shitaraba.net/bbs/read.cgi/radio/22607/1484488601/")
        .unwrap();
    let request = thread.post("euc-jp", "", "sage", "test").unwrap();
    assert_eq!(
        request.url,
        "https://jbbs.shitaraba.net/bbs/write.cgi/radio/22607/1484488601/"
    );
    assert_eq!(thread.posted(200, &[0xa4, 0xa2]), Ok("あ".to_string()));
    let url = Location::parse("https://bbs.jpnkn.com/test/read.cgi/progre/1749359408").unwrap();
    let thread = new(&url).unwrap();
    assert!(matches!(thread, AnyThread::Compatible(_)));
    let request = thread.post("shift_jis", "", "", "a b").unwrap();
    assert_eq!(request.url, "https://bbs.jpnkn.com/test/bbs.cgi");
    assert_eq!(request.body, "FROM=&mail=&MESSAGE=a%20b&key=1749359408&bbs=progre");
    assert_eq!(thread.posted(200, &[0x82, 0xa0]), Ok("あ".to_string()));
    assert_eq!(thread.post("nope", "", "", "").err(), Some(BbsError::Encoding));
}

#[test]
fn request_takes_its_fields_as_they_travel() {
    let url = Location::parse("https://jbbs.shitaraba.net/bbs/read.cgi/radio/22607/1484488601/").unwrap();
    let thread = Shitaraba::new(&url).unwrap();
    let request = thread.request("euc-jp", "%A4%A2", "sage", "a%20b");
    assert_eq!(request.method, Method::Post);
    assert_eq!(
        request.url,
        "https://jbbs.shitaraba.net/bbs/write.cgi/radio/22607/1484488601/"
    );
    assert_eq!(
        request.body,
        "BBS=22607&KEY=1484488601&DIR=radio&NAME=%A4%A2&MAIL=sage&MESSAGE=a%20b"
    );
    let url = Location::parse("https://bbs.jpnkn.com/test/read.cgi/progre/7").unwrap();
    let thread = Compatible::new(&url).unwrap();
    let request = thread.request("utf-8", "n", "e", "m");
    assert_eq!(request.url, "https://bbs.jpnkn.com/test/bbs.cgi");
    assert_eq!(request.body, "FROM=n&mail=e&MESSAGE=m&key=7&bbs=progre");
    assert_eq!(
        headers(&request),
        vec![
            pair("User-Agent", "bbs_post/0.1.0"),
            pair("Content-Type", "application/x-www-form-urlencoded; charset=utf-8"),
            pair("Cookie", "NAME=\"n\";MAIL=\"e\""),
        ]
    );
}
