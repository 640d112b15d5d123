use bbs_post::charset::charset_percent_encode;
use bbs_post::charset::decode_reply;
use bbs_post::page::{extract_title, fetch_charset_title_pair, find_title, find_token, push_chunk};

fn token(page: &[u8]) -> Option<Vec<u8>> {
    find_token(page).map(|(a, e)| page[a..e].to_vec())
}

#[test]
fn page_without_declaration_is_read_as_utf8() {
    let (charset, title) = fetch_charset_title_pair("<title>日本語</title>".as_bytes());
    assert_eq!(charset, "utf-8");
    assert_eq!(title, "日本語");
    let (charset, title) = fetch_charset_title_pair(b"");
    assert_eq!(charset, "utf-8");
    assert_eq!(title, "");
    let (charset, title) = fetch_charset_title_pair(b"<title>a\xffb</title> charset");
    assert_eq!(charset, "utf-8");
    assert_eq!(title, "a\u{fffd}b");
}

#[test]
fn quoted_declaration_is_reported_byte_for_byte() {
    let mut page = b"<meta charset=\"Shift_JIS\">\n<title>".to_vec();
    page.extend_from_slice(&[0x83, 0x65, 0x83, 0x58, 0x83, 0x67]);
    page.extend_from_slice(b"</title>");
    let (charset, title) = fetch_charset_title_pair(&page);
    assert_eq!(charset, "Shift_JIS");
    assert_eq!(title, "テスト");
}

#[test]
fn unquoted_declaration_runs_to_semicolon_or_quote() {
    let mut page =
        b"<meta http-equiv=\"Content-Type\" content=\"text/html; charset=EUC-JP\">\n<title>".to_vec();
    page.extend_from_slice(&[0xa4, 0xa2]);
    page.extend_from_slice(b"</title>");
    let (charset, title) = fetch_charset_title_pair(&page);
    assert_eq!(charset, "EUC-JP");
    assert_eq!(title, "あ");
    assert_eq!(token(b"Content-Type: text/html; charset=utf-8; x"), Some(b"utf-8".to_vec()));
    assert_eq!(token(b"charset=euc-jp"), Some(b"euc-jp".to_vec()));
    assert_eq!(token(b"charset=a b\nc\"d"), Some(b"a b\nc".to_vec()));
}

#[test]
fn unknown_declaration_falls_back_to_utf8() {
    let (charset, title) = fetch_charset_title_pair("charset=klingon;<title>é</title>".as_bytes());
    assert_eq!(charset, "utf-8");
    assert_eq!(title, "é");
    // An unquoted token runs on to the end where nothing closes it.
    let (charset, _) = fetch_charset_title_pair(b"<meta charset=utf-8>");
    assert_eq!(charset, "utf-8");
    assert_eq!(token(b"<meta charset=utf-8>"), Some(b"utf-8>".to_vec()));
}

#[test]
fn label_is_reported_as_written() {
    let (charset, _) = fetch_charset_title_pair(b"x; charset= sHiFt_JiS ;");
    assert_eq!(charset, " sHiFt_JiS ");
}

#[test]
fn quoted_token_runs_to_the_last_quote_of_the_line() {
    assert_eq!(token(b"charset=\"utf-8\""), Some(b"utf-8".to_vec()));
    assert_eq!(token(b"charset=\"utf-8\" lang=\"ja\"\n\""), Some(b"utf-8\" lang=\"ja".to_vec()));
    assert_eq!(token(b"charset=\"utf-8\"\n<a href=\"x\">"), Some(b"utf-8".to_vec()));
}

#[test]
fn malformed_declarations_are_passed_over() {
    assert_eq!(token(b"charset="), None);
    assert_eq!(token(b"charset=;"), None);
    assert_eq!(token(b"charset=\"\""), None);
    assert_eq!(token(b"charset=\""), None);
    assert_eq!(token(b"charset=\"abc"), None);
    assert_eq!(token(b"charset=\"abc\n\""), None);
    assert_eq!(token(b"charset"), None);
    assert_eq!(token(b"Charset=utf-8"), None);
    assert_eq!(token(b""), None);
    assert_eq!(token(b"charset=; charset=\"\" charset=euc-jp;"), Some(b"euc-jp".to_vec()));
    assert_eq!(find_token(b"charset=; charset=\"\" charset=euc-jp;"), Some((29, 35)));
}

#[test]
fn first_declaration_decides() {
    assert_eq!(token(b"charset=a;charset=b;"), Some(b"a".to_vec()));
    let (charset, _) = fetch_charset_title_pair(b"charset=nonsense;charset=utf-8;");
    assert_eq!(charset, "utf-8");
}

#[test]
fn title_tags_in_any_case() {
    assert_eq!(extract_title("<TITLE>a</TITLE>"), "a");
    assert_eq!(extract_title("<TiTlE>a</tItLe>"), "a");
    assert_eq!(extract_title("x<title>Hello, world</title>y"), "Hello, world");
    assert_eq!(extract_title("<title></title>"), "");
    assert_eq!(extract_title("<title><title>a</title></title>"), "<title>a");
}

#[test]
fn first_title_that_closes_on_its_line() {
    assert_eq!(extract_title("<title>a</title><title>b</title>"), "a");
    assert_eq!(extract_title("<title>a\n</title><title>b</title>"), "b");
    assert_eq!(extract_title("<title>a\nb</title>"), "");
    assert_eq!(extract_title("<title>a\r</title>"), "a\r");
}

#[test]
fn no_title_gives_the_empty_text() {
    assert_eq!(extract_title(""), "");
    assert_eq!(extract_title("<title>"), "");
    assert_eq!(extract_title("<title>abc"), "");
    assert_eq!(extract_title("</title>"), "");
    assert_eq!(extract_title("<titl>a</title>"), "");
    assert_eq!(extract_title("<title >a</title>"), "");
}

#[test]
fn title_range_is_found() {
    let text: Vec<char> = "ab<title>cd</title>".chars().collect();
    assert_eq!(find_title(&text), Some((9, 11)));
    let text: Vec<char> = "ab".chars().collect();
    assert_eq!(find_title(&text), None);
}

#[test]
fn chunks_are_taken_until_the_cap_is_passed() {
    let mut buf = Vec::new();
    assert!(push_chunk(&mut buf, &[1u8; 1000]));
    assert_eq!(buf.len(), 1000);
    assert!(push_chunk(&mut buf, &[2u8; 24]));
    assert_eq!(buf.len(), 1024);
    assert!(!push_chunk(&mut buf, &[3u8; 1]));
    assert_eq!(buf.len(), 1025);
    assert_eq!(buf[999], 1);
    assert_eq!(buf[1000], 2);
    assert_eq!(buf[1024], 3);
    let mut buf = Vec::new();
    assert!(push_chunk(&mut buf, &[]));
    assert!(!push_chunk(&mut buf, &[0u8; 5000]));
    assert_eq!(buf.len(), 5000);
}

#[test]
fn percent_encoding_works_on_the_bytes_of_the_charset() {
    assert_eq!(charset_percent_encode("shift_jis", "あ"), Some("%82%A0".to_string()));
    assert_eq!(charset_percent_encode("euc-jp", "あ"), Some("%A4%A2".to_string()));
    assert_eq!(charset_percent_encode("utf-8", "あ"), Some("%E3%81%82".to_string()));
    assert_eq!(
        charset_percent_encode("Shift_JIS", "テスト"),
        Some("%83e%83X%83g".to_string())
    );
}

#[test]
fn percent_encoding_keeps_letters_and_digits_only() {
    assert_eq!(
        charset_percent_encode("utf-8", "azAZ09 -_.~!*'()/&=+%\n"),
        Some("azAZ09%20%2D%5F%2E%7E%21%2A%27%28%29%2F%26%3D%2B%25%0A".to_string())
    );
    assert_eq!(charset_percent_encode("utf-8", ""), Some(String::new()));
    assert_eq!(charset_percent_encode("utf-8", "\u{0}\u{7f}"), Some("%00%7F".to_string()));
}

#[test]
fn unmappable_characters_become_references() {
    assert_eq!(
        charset_percent_encode("shift_jis", "😀"),
        Some("%26%23128512%3B".to_string())
    );
}

#[test]
fn unknown_label_gives_no_encoding() {
    assert_eq!(charset_percent_encode("klingon", "a"), None);
    assert_eq!(charset_percent_encode("", "a"), None);
    assert_eq!(charset_percent_encode("utf 8", "a"), None);
}

#[test]
fn reply_is_decoded_with_the_label_or_as_utf8() {
    assert_eq!(decode_reply("shift_jis", &[0x82, 0xa0]), "あ");
    assert_eq!(decode_reply("euc-jp", &[0xa4, 0xa2]), "あ");
    assert_eq!(decode_reply("klingon", "あ".as_bytes()), "あ");
    assert_eq!(decode_reply("klingon", &[0x61, 0xff]), "a\u{fffd}");
}
