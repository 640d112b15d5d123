//! The compatible family: `test/read.cgi` to read, `test/bbs.cgi` to post.

use vstd::prelude::*;
use crate::bbs::Thread;
use crate::charset::{charset_percent_encode, decode_reply, form_value, label_bytes};
use crate::error::BbsError;
use crate::http::{ensure_success, header, Header, Method, Request, RequestView, UA};
use crate::location::Location;
use crate::text::{
    decimal, find_char, has_prefix, index_from, is_digit, is_segment, leading_key,
    lemma_decimal_reads_back, lemma_index_from_is, lemma_unsigned_is_segment, parse_unsigned,
    push_decimal, read_leading_key, starts_with, to_chars, to_text, unsigned_u64,
};

verus! {

/// A thread of the compatible family: `<origin>/test/read.cgi/<bbs>/<key>`.
#[derive(Debug)]
pub struct Compatible {
    origin: String,
    bbs: String,
    key: u64,
}

/// A `Compatible` thread as a mathematical value.
pub struct CompatibleView {
    pub origin: Seq<char>,
    pub bbs: Seq<char>,
    pub key: u64,
}

impl View for Compatible {
    type V = CompatibleView;

    closed spec fn view(&self) -> CompatibleView {
        CompatibleView { origin: self.origin@, bbs: self.bbs@, key: self.key }
    }
}

/// The path under which this family serves its threads.
pub open spec fn read_prefix() -> Seq<char> {
    "/test/read.cgi/"@
}

/// Where the key ends in a path whose key segment ends at `c`: a colon that
/// stands right before the slash that closes the segment is no part of the key.
pub open spec fn key_end(path: Seq<char>, from: int, c: int) -> int {
    if from < c < path.len() && path[c - 1] == ':' {
        c - 1
    } else {
        c
    }
}

/// Board and thread key of a path of the form `/test/read.cgi/<bbs>/<key>`,
/// which anything may follow after a slash, or after a colon and a slash.
/// The board is a non-empty segment; the key is an unsigned decimal number.
pub open spec fn thread_in_path(path: Seq<char>) -> Option<(Seq<char>, u64)> {
    let a = read_prefix().len() as int;
    let b = index_from(path, a, '/');
    let c = index_from(path, b + 1, '/');
    if has_prefix(path, read_prefix()) && a < b < path.len() {
        match unsigned_u64(path.subrange(b + 1, key_end(path, b + 1, c))) {
            Some(key) => Some((path.subrange(a, b), key)),
            None => None,
        }
    } else {
        None
    }
}

/// The board of a path of the form `/<bbs>`, optionally closed by one slash:
/// a single non-empty segment.
pub open spec fn board_in_path(path: Seq<char>) -> Option<Seq<char>> {
    let b = index_from(path, 1, '/');
    if path.len() > 0 && path[0] == '/' && 1 < b && (b == path.len() || b + 1 == path.len()) {
        Some(path.subrange(1, b))
    } else {
        None
    }
}

/// The thread that a location's path names, on the location's origin.
pub open spec fn thread_of(origin: Seq<char>, path: Seq<char>) -> Option<CompatibleView> {
    match thread_in_path(path) {
        Some((bbs, key)) => Some(CompatibleView { origin, bbs, key }),
        None => None,
    }
}

/// The address of a board's index file.
pub open spec fn subject_url_of(origin: Seq<char>, bbs: Seq<char>) -> Seq<char> {
    origin + "/"@ + bbs + "/subject.txt"@
}

/// The address at which a thread is read.
pub open spec fn read_url_of(t: CompatibleView) -> Seq<char> {
    t.origin + "/test/read.cgi/"@ + t.bbs + "/"@ + decimal(t.key as nat)
}

/// The address to which every reply on an origin is sent.
pub open spec fn write_url_of(t: CompatibleView) -> Seq<char> {
    t.origin + "/test/bbs.cgi"@
}

/// What may follow the key in a thread path: nothing, or anything after a
/// slash, or after a colon and a slash.
pub open spec fn is_thread_suffix(rest: Seq<char>) -> bool {
    rest.len() == 0 || rest[0] == '/' || (rest.len() >= 2 && rest[0] == ':' && rest[1] == '/')
}

/// A path that is made of the thread prefix, a board and a thread key, with
/// or without such a suffix, names the thread of that board and key, whatever
/// the suffix holds.
pub proof fn thread_path_is_recognised(
    path: Seq<char>,
    bbs: Seq<char>,
    key: Seq<char>,
    rest: Seq<char>,
)
    requires
        is_segment(bbs),
        unsigned_u64(key) is Some,
        is_thread_suffix(rest),
        path == read_prefix() + bbs + "/"@ + key + rest,
    ensures
        thread_in_path(path) == Some((bbs, unsigned_u64(key).unwrap())),
{
    reveal_strlit("/");
    lemma_unsigned_is_segment(key);
    let a = read_prefix().len() as int;
    let b = a + bbs.len();
    let k = b + 1 + key.len();
    assert(path.take(a) =~= read_prefix());
    assert forall|j: int| a <= j < b implies path[j] != '/' by {
        assert(path[j] == bbs[j - a]);
    }
    assert(path[b] == '/');
    lemma_index_from_is(path, a, '/', b);
    assert(path.subrange(a, b) =~= bbs);
    assert(path.subrange(b + 1, k) =~= key);
    assert forall|j: int| b + 1 <= j < k implies path[j] != '/' by {
        assert(path[j] == key[j - b - 1]);
    }
    assert(path[k - 1] == key[key.len() - 1]);
    assert(path[k - 1] != ':') by {
        if key[0] == '+' {
            assert(key.len() >= 2);
            assert(is_digit(key.skip(1)[key.len() - 2]));
        } else {
            assert(is_digit(key[key.len() - 1]));
        }
    }
    if rest.len() == 0 {
        lemma_index_from_is(path, b + 1, '/', k);
    } else if rest[0] == '/' {
        assert(path[k] == rest[0]);
        lemma_index_from_is(path, b + 1, '/', k);
    } else {
        assert(path[k] == rest[0]);
        assert(path[k + 1] == rest[1]);
        lemma_index_from_is(path, b + 1, '/', k + 1);
    }
}

/// The path of the address at which a thread is read names that thread
/// again, provided that the board is one segment.
pub proof fn read_path_names_its_thread(bbs: Seq<char>, key: u64)
    requires
        is_segment(bbs),
    ensures
        thread_in_path(read_prefix() + bbs + "/"@ + decimal(key as nat)) == Some((bbs, key)),
{
    lemma_decimal_reads_back(key as nat);
    let path = read_prefix() + bbs + "/"@ + decimal(key as nat);
    assert(path == path + Seq::<char>::empty());
    thread_path_is_recognised(path, bbs, decimal(key as nat), Seq::empty());
}

/// A path that is made of a slash and one segment, with or without one
/// closing slash, names the board of that segment.
pub proof fn board_path_is_recognised(path: Seq<char>, bbs: Seq<char>, closed: bool)
    requires
        is_segment(bbs),
        path == "/"@ + bbs + (if closed {
            "/"@
        } else {
            ""@
        }),
    ensures
        board_in_path(path) == Some(bbs),
{
    reveal_strlit("/");
    reveal_strlit("");
    let b = 1 + bbs.len() as int;
    assert forall|j: int| 1 <= j < b implies path[j] != '/' by {
        assert(path[j] == bbs[j - 1]);
    }
    if closed {
        assert(path[b] == '/');
    }
    lemma_index_from_is(path, 1, '/', b);
    assert(path.subrange(1, b) =~= bbs);
}

/// A path that holds no segment at all, the bare slash or nothing, names no
/// board.
pub proof fn bare_path_is_no_board(path: Seq<char>)
    requires
        path.len() <= 1,
    ensures
        board_in_path(path) is None,
{
    reveal_with_fuel(index_from, 2);
}

/// Reads a thread out of a location, by its path.
pub fn parse_thread_url(thread_url: &Location) -> (r: Option<Compatible>)
    ensures
        match thread_of(thread_url@.origin, thread_url@.path) {
            Some(t) => r matches Some(got) && got@ == t,
            None => r is None,
        },
{
    let path = to_chars(thread_url.path.as_str());
    let prefix = to_chars("/test/read.cgi/");
    if !starts_with(path.as_slice(), prefix.as_slice()) {
        return None;
    }
    let a = prefix.len();
    let b = find_char(path.as_slice(), a, '/');
    if b == a || b >= path.len() {
        return None;
    }
    let c = find_char(path.as_slice(), b + 1, '/');
    let e = if b + 1 < c && c < path.len() && path[c - 1] == ':' {
        c - 1
    } else {
        c
    };
    match parse_unsigned(path.as_slice(), b + 1, e) {
        Some(key) => Some(
            Compatible { origin: thread_url.origin.clone(), bbs: to_text(path.as_slice(), a, b), key },
        ),
        None => None,
    }
}

/// Reads a board out of a location, by its path.
pub fn parse_board_url(board_url: &Location) -> (r: Option<String>)
    ensures
        match board_in_path(board_url@.path) {
            Some(bbs) => r matches Some(got) && got@ == bbs,
            None => r is None,
        },
{
    let path = to_chars(board_url.path.as_str());
    if path.len() == 0 || path[0] != '/' {
        return None;
    }
    let b = find_char(path.as_slice(), 1, '/');
    if b == 1 || (b < path.len() && b + 1 < path.len()) {
        return None;
    }
    Some(to_text(path.as_slice(), 1, b))
}

/// The key of the newest thread that a board's index lists.
pub fn read_latest_thread(subject_txt: &str) -> (r: Result<u64, BbsError>)
    ensures
        match leading_key(subject_txt@) {
            Some(key) => r == Ok::<u64, BbsError>(key),
            None => r == Err::<u64, BbsError>(BbsError::Discovery),
        },
{
    match read_leading_key(subject_txt) {
        Some(key) => Ok(key),
        None => Err(BbsError::Discovery),
    }
}

/// The address of the index file of board `bbs`.
pub fn subject_url(origin: &str, bbs: &str) -> (r: String)
    ensures
        r@ == subject_url_of(origin@, bbs@),
{
    let mut out = String::from_str(origin);
    out.append("/");
    out.append(bbs);
    out.append("/subject.txt");
    out
}

/// Writes `<origin>/test/read.cgi/<bbs>/<key>`.
fn thread_address(origin: &str, bbs: &str, key: u64) -> (r: String)
    ensures
        r@ == origin@ + "/test/read.cgi/"@ + bbs@ + "/"@ + decimal(key as nat),
{
    let mut out = String::from_str(origin);
    out.append("/test/read.cgi/");
    out.append(bbs);
    out.append("/");
    push_decimal(&mut out, key);
    out
}

/// The address of the newest thread of a board, found in the board's index
/// as it was fetched.
pub fn fetch_latest_thread_url(origin: &str, bbs: &str, subject_txt: &str) -> (r: Result<
    String,
    BbsError,
>)
    ensures
        match leading_key(subject_txt@) {
            Some(key) => r matches Ok(url) && url@ == read_url_of(
                CompatibleView { origin: origin@, bbs: bbs@, key },
            ),
            None => r == Err::<String, BbsError>(BbsError::Discovery),
        },
{
    match read_latest_thread(subject_txt) {
        Ok(key) => Ok(thread_address(origin, bbs, key)),
        Err(e) => Err(e),
    }
}

/// The body of the form that posts a reply, its fields already in the form
/// in which they travel.
pub open spec fn form_of(
    t: CompatibleView,
    name: Seq<char>,
    email: Seq<char>,
    msg: Seq<char>,
) -> Seq<char> {
    "FROM="@ + name + "&mail="@ + email + "&MESSAGE="@ + msg + "&key="@ + decimal(t.key as nat)
        + "&bbs="@ + t.bbs
}

/// The cookie that carries name and mail, both in the form in which they travel.
pub open spec fn cookie_of(name: Seq<char>, email: Seq<char>) -> Seq<char> {
    "NAME=\""@ + name + "\";MAIL=\""@ + email + "\""@
}

/// The request that posts a reply to thread `t`, its fields already in the
/// form in which they travel.
pub open spec fn request_of(
    t: CompatibleView,
    charset: Seq<char>,
    name: Seq<char>,
    email: Seq<char>,
    msg: Seq<char>,
) -> RequestView {
    RequestView {
        method: Method::Post,
        url: write_url_of(t),
        headers: seq![
            ("User-Agent"@, UA@),
            ("Content-Type"@, "application/x-www-form-urlencoded; charset="@ + charset),
            ("Cookie"@, cookie_of(name, email)),
        ],
        body: form_of(t, name, email, msg),
    }
}

/// The request that posts a reply to thread `t`, its fields as they are
/// typed: each travels encoded in the charset and percent-encoded.
pub open spec fn post_request_of(
    t: CompatibleView,
    charset: Seq<char>,
    name: Seq<char>,
    email: Seq<char>,
    msg: Seq<char>,
) -> RequestView {
    let label = label_bytes(charset);
    request_of(
        t,
        charset,
        form_value(label, name),
        form_value(label, email),
        form_value(label, msg),
    )
}

impl Compatible {
    /// The thread that `url` names, or a classification failure where it
    /// names none of this family.
    pub fn new(url: &Location) -> (r: Result<Compatible, BbsError>)
        ensures
            match thread_of(url@.origin, url@.path) {
                Some(t) => r matches Ok(got) && got@ == t,
                None => r matches Err(e) && e == BbsError::Classification,
            },
    {
        match parse_thread_url(url) {
            Some(site) => Ok(site),
            None => Err(BbsError::Classification),
        }
    }

    /// Scheme, host and port of the forum.
    pub fn origin(&self) -> (r: &str)
        ensures
            r@ == self@.origin,
    {
        self.origin.as_str()
    }

    /// The name of the board.
    pub fn bbs(&self) -> (r: &str)
        ensures
            r@ == self@.bbs,
    {
        self.bbs.as_str()
    }

    /// The key of the thread.
    pub fn key(&self) -> (r: u64)
        ensures
            r == self@.key,
    {
        self.key
    }

    /// The address at which the thread is read.
    pub fn read_url(&self) -> (r: String)
        ensures
            r@ == read_url_of(self@),
    {
        thread_address(self.origin.as_str(), self.bbs.as_str(), self.key)
    }

    /// Builds the request that posts a reply, from fields that are already
    /// in the form in which they travel.
    pub fn request(&self, charset: &str, name: &str, email: &str, msg: &str) -> (r: Request)
        ensures
            r@ == request_of(self@, charset@, name@, email@, msg@),
    {
        let mut url = String::from_str(self.origin.as_str());
        url.append("/test/bbs.cgi");
        let mut content_type = String::from_str("application/x-www-form-urlencoded; charset=");
        content_type.append(charset);
        let mut cookie = String::from_str("NAME=\"");
        cookie.append(name);
        cookie.append("\";MAIL=\"");
        cookie.append(email);
        cookie.append("\"");
        let mut headers: Vec<Header> = Vec::new();
        headers.push(header("User-Agent", String::from_str(UA)));
        headers.push(header("Content-Type", content_type));
        headers.push(header("Cookie", cookie));
        let mut body = String::from_str("FROM=");
        body.append(name);
        body.append("&mail=");
        body.append(email);
        body.append("&MESSAGE=");
        body.append(msg);
        body.append("&key=");
        push_decimal(&mut body, self.key);
        body.append("&bbs=");
        body.append(self.bbs.as_str());
        let request = Request { method: Method::Post, url, headers, body };
        proof {
            assert(request@.headers =~= seq![
                ("User-Agent"@, UA@),
                ("Content-Type"@, "application/x-www-form-urlencoded; charset="@ + charset@),
                ("Cookie"@, cookie_of(name@, email@)),
            ]);
        }
        request
    }
}

impl Thread for Compatible {
    open spec fn post_of(
        &self,
        charset: Seq<char>,
        name: Seq<char>,
        email: Seq<char>,
        msg: Seq<char>,
    ) -> RequestView {
        post_request_of(self@, charset, name, email, msg)
    }

    open spec fn reply_label(&self) -> Seq<char> {
        "shift_jis"@
    }

    fn post(&self, charset: &str, name: &str, email: &str, msg: &str) -> (r: Result<
        Request,
        BbsError,
    >) {
        let name = match charset_percent_encode(charset, name) {
            Some(v) => v,
            None => { return Err(BbsError::Encoding); },
        };
        let email = match charset_percent_encode(charset, email) {
            Some(v) => v,
            None => { return Err(BbsError::Encoding); },
        };
        let msg = match charset_percent_encode(charset, msg) {
            Some(v) => v,
            None => { return Err(BbsError::Encoding); },
        };
        Ok(self.request(charset, name.as_str(), email.as_str(), msg.as_str()))
    }

    fn posted(&self, status: u16, body: &[u8]) -> (r: Result<String, BbsError>) {
        match ensure_success(status) {
            Ok(_) => Ok(decode_reply("shift_jis", body)),
            Err(e) => Err(e),
        }
    }
}

} // verus!
