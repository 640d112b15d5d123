//! The Shitaraba family: `bbs/read.cgi` to read, `bbs/write.cgi` to post.

use vstd::prelude::*;
use crate::bbs::Thread;
use crate::charset::{charset_percent_encode, decode_reply, form_value, label_bytes};
use crate::error::BbsError;
use crate::http::{ensure_success, header, Header, Method, Request, RequestView, UA};
use crate::location::Location;
use crate::text::{
    decimal, digits_u64, find_char, has_prefix, index_from, is_segment, leading_key,
    lemma_decimal_reads_back, lemma_index_from_is, lemma_unsigned_is_segment, parse_digits,
    parse_unsigned, push_decimal, read_leading_key, starts_with, to_chars, to_text, unsigned_u64,
};

verus! {

/// A thread of the Shitaraba family: `<origin>/bbs/read.cgi/<dir>/<bbs>/<key>/`.
#[derive(Debug)]
pub struct Shitaraba {
    origin: String,
    dir: String,
    bbs: u64,
    key: u64,
}

/// A `Shitaraba` thread as a mathematical value.
pub struct ShitarabaView {
    pub origin: Seq<char>,
    pub dir: Seq<char>,
    pub bbs: u64,
    pub key: u64,
}

impl View for Shitaraba {
    type V = ShitarabaView;

    closed spec fn view(&self) -> ShitarabaView {
        ShitarabaView { origin: self.origin@, dir: self.dir@, bbs: self.bbs, key: self.key }
    }
}

/// The path under which this family serves its threads.
pub open spec fn read_prefix() -> Seq<char> {
    "/bbs/read.cgi/"@
}

/// The address under which this family serves its boards.
pub open spec fn board_prefix() -> Seq<char> {
    "https://jbbs.shitaraba.net/"@
}

/// Directory, board number and thread key of a path of the form
/// `/bbs/read.cgi/<dir>/<board>/<key>`, which anything may follow after a
/// further slash. The directory is a non-empty segment; board and key are
/// unsigned decimal numbers.
pub open spec fn thread_in_path(path: Seq<char>) -> Option<(Seq<char>, u64, u64)> {
    let a = read_prefix().len() as int;
    let b = index_from(path, a, '/');
    let c = index_from(path, b + 1, '/');
    let d = index_from(path, c + 1, '/');
    if has_prefix(path, read_prefix()) && a < b < path.len() && c < path.len() {
        match (unsigned_u64(path.subrange(b + 1, c)), unsigned_u64(path.subrange(c + 1, d))) {
            (Some(bbs), Some(key)) => Some((path.subrange(a, b), bbs, key)),
            _ => None,
        }
    } else {
        None
    }
}

/// Directory and board number of an address of the form
/// `https://jbbs.shitaraba.net/<dir>/<board>`, optionally closed by one
/// slash. The directory is a non-empty segment; the board is a run of digits.
pub open spec fn board_in_href(href: Seq<char>) -> Option<(Seq<char>, u64)> {
    let a = board_prefix().len() as int;
    let b = index_from(href, a, '/');
    let c = index_from(href, b + 1, '/');
    if has_prefix(href, board_prefix()) && a < b < href.len() && (c == href.len() || c + 1
        == href.len()) {
        match digits_u64(href.subrange(b + 1, c)) {
            Some(bbs) => Some((href.subrange(a, b), bbs)),
            None => None,
        }
    } else {
        None
    }
}

/// The thread that a location's path names, on the location's origin.
pub open spec fn thread_of(origin: Seq<char>, path: Seq<char>) -> Option<ShitarabaView> {
    match thread_in_path(path) {
        Some((dir, bbs, key)) => Some(ShitarabaView { origin, dir, bbs, key }),
        None => None,
    }
}

/// The address of a board's index file.
pub open spec fn subject_url_of(origin: Seq<char>, dir: Seq<char>, bbs: u64) -> Seq<char> {
    origin + "/"@ + dir + "/"@ + decimal(bbs as nat) + "/subject.txt"@
}

/// The address at which a thread is read.
pub open spec fn read_url_of(t: ShitarabaView) -> Seq<char> {
    t.origin + "/bbs/read.cgi/"@ + t.dir + "/"@ + decimal(t.bbs as nat) + "/"@ + decimal(
        t.key as nat,
    ) + "/"@
}

/// The address to which a reply to a thread is sent.
pub open spec fn write_url_of(t: ShitarabaView) -> Seq<char> {
    t.origin + "/bbs/write.cgi/"@ + t.dir + "/"@ + decimal(t.bbs as nat) + "/"@ + decimal(
        t.key as nat,
    ) + "/"@
}

/// A path that is made of the thread prefix, a directory, a board number and
/// a thread key, with or without more after a further slash, names the thread
/// of that directory, board and key, whatever follows.
pub proof fn thread_path_is_recognised(
    path: Seq<char>,
    dir: Seq<char>,
    board: Seq<char>,
    key: Seq<char>,
    rest: Seq<char>,
)
    requires
        is_segment(dir),
        unsigned_u64(board) is Some,
        unsigned_u64(key) is Some,
        rest.len() == 0 || rest[0] == '/',
        path == read_prefix() + dir + "/"@ + board + "/"@ + key + rest,
    ensures
        thread_in_path(path) == Some((dir, unsigned_u64(board).unwrap(), unsigned_u64(key).unwrap())),
{
    reveal_strlit("/");
    lemma_unsigned_is_segment(board);
    lemma_unsigned_is_segment(key);
    let a = read_prefix().len() as int;
    let b = a + dir.len();
    let c = b + 1 + board.len();
    let d = c + 1 + key.len();
    assert(path.take(a) =~= read_prefix());
    assert forall|j: int| a <= j < b implies path[j] != '/' by {
        assert(path[j] == dir[j - a]);
    }
    assert(path[b] == '/');
    lemma_index_from_is(path, a, '/', b);
    assert forall|j: int| b + 1 <= j < c implies path[j] != '/' by {
        assert(path[j] == board[j - b - 1]);
    }
    assert(path[c] == '/');
    lemma_index_from_is(path, b + 1, '/', c);
    assert forall|j: int| c + 1 <= j < d implies path[j] != '/' by {
        assert(path[j] == key[j - c - 1]);
    }
    if d < path.len() {
        assert(path[d] == rest[0]);
    }
    lemma_index_from_is(path, c + 1, '/', d);
    assert(path.subrange(a, b) =~= dir);
    assert(path.subrange(b + 1, c) =~= board);
    assert(path.subrange(c + 1, d) =~= key);
}

/// The path of the address at which a thread is read names that thread
/// again, provided that the directory is one segment.
pub proof fn read_path_names_its_thread(dir: Seq<char>, bbs: u64, key: u64)
    requires
        is_segment(dir),
    ensures
        thread_in_path(
            read_prefix() + dir + "/"@ + decimal(bbs as nat) + "/"@ + decimal(key as nat) + "/"@,
        ) == Some((dir, bbs, key)),
{
    reveal_strlit("/");
    lemma_decimal_reads_back(bbs as nat);
    lemma_decimal_reads_back(key as nat);
    let path = read_prefix() + dir + "/"@ + decimal(bbs as nat) + "/"@ + decimal(key as nat)
        + "/"@;
    thread_path_is_recognised(path, dir, decimal(bbs as nat), decimal(key as nat), "/"@);
}

/// An address that is made of the board prefix, a directory and a board
/// number, with or without one closing slash, names that board.
pub proof fn board_address_is_recognised(
    href: Seq<char>,
    dir: Seq<char>,
    board: Seq<char>,
    closed: bool,
)
    requires
        is_segment(dir),
        digits_u64(board) is Some,
        href == board_prefix() + dir + "/"@ + board + (if closed {
            "/"@
        } else {
            ""@
        }),
    ensures
        board_in_href(href) == Some((dir, digits_u64(board).unwrap())),
{
    reveal_strlit("/");
    reveal_strlit("");
    lemma_unsigned_is_segment(board);
    let a = board_prefix().len() as int;
    let b = a + dir.len();
    let c = b + 1 + board.len();
    assert(href.take(a) =~= board_prefix());
    assert forall|j: int| a <= j < b implies href[j] != '/' by {
        assert(href[j] == dir[j - a]);
    }
    assert(href[b] == '/');
    lemma_index_from_is(href, a, '/', b);
    assert forall|j: int| b + 1 <= j < c implies href[j] != '/' by {
        assert(href[j] == board[j - b - 1]);
    }
    if closed {
        assert(href[c] == '/');
    }
    lemma_index_from_is(href, b + 1, '/', c);
    assert(href.subrange(a, b) =~= dir);
    assert(href.subrange(b + 1, c) =~= board);
}

/// Reads a thread out of a location, by its path.
pub fn parse_thread_url(thread_url: &Location) -> (r: Option<Shitaraba>)
    ensures
        match thread_of(thread_url@.origin, thread_url@.path) {
            Some(t) => r matches Some(got) && got@ == t,
            None => r is None,
        },
{
    let path = to_chars(thread_url.path.as_str());
    let prefix = to_chars("/bbs/read.cgi/");
    if !starts_with(path.as_slice(), prefix.as_slice()) {
        return None;
    }
    let a = prefix.len();
    let b = find_char(path.as_slice(), a, '/');
    if b == a || b >= path.len() {
        return None;
    }
    let c = find_char(path.as_slice(), b + 1, '/');
    if c >= path.len() {
        return None;
    }
    let d = find_char(path.as_slice(), c + 1, '/');
    let bbs = match parse_unsigned(path.as_slice(), b + 1, c) {
        Some(n) => n,
        None => { return None; },
    };
    let key = match parse_unsigned(path.as_slice(), c + 1, d) {
        Some(n) => n,
        None => { return None; },
    };
    let dir = to_text(path.as_slice(), a, b);
    Some(Shitaraba { origin: thread_url.origin.clone(), dir, bbs, key })
}

/// Reads directory and board number out of a location, by its whole address.
pub fn parse_board_url(board_url: &Location) -> (r: Option<(String, u64)>)
    ensures
        match board_in_href(board_url@.href) {
            Some((dir, bbs)) => r matches Some(got) && got.0@ == dir && got.1 == bbs,
            None => r is None,
        },
{
    let href = to_chars(board_url.href.as_str());
    let prefix = to_chars("https://jbbs.shitaraba.net/");
    if !starts_with(href.as_slice(), prefix.as_slice()) {
        return None;
    }
    let a = prefix.len();
    let b = find_char(href.as_slice(), a, '/');
    if b == a || b >= href.len() {
        return None;
    }
    let c = find_char(href.as_slice(), b + 1, '/');
    if c < href.len() && c + 1 < href.len() {
        return None;
    }
    match parse_digits(href.as_slice(), b + 1, c) {
        Some(bbs) => Some((to_text(href.as_slice(), a, b), bbs)),
        None => None,
    }
}

/// The key of the newest thread that a board's index lists.
pub fn read_latest_thread(subject_txt: &str) -> (r: Result<u64, BbsError>)
    ensures
        match leading_key(subject_txt@) {
            Some(key) => r == Ok::<u64, BbsError>(key),
            None => r == Err::<u64, BbsError>(BbsError::Discovery),
        },
{
    match read_leading_key(subject_txt) {
        Some(key) => Ok(key),
        None => Err(BbsError::Discovery),
    }
}

/// The address of the index file of board `bbs` in directory `dir`.
pub fn subject_url(origin: &str, dir: &str, bbs: u64) -> (r: String)
    ensures
        r@ == subject_url_of(origin@, dir@, bbs),
{
    let mut out = String::from_str(origin);
    out.append("/");
    out.append(dir);
    out.append("/");
    push_decimal(&mut out, bbs);
    out.append("/subject.txt");
    out
}

/// Writes `<origin><stem><dir>/<bbs>/<key>/`.
fn thread_address(origin: &str, stem: &str, dir: &str, bbs: u64, key: u64) -> (r: String)
    ensures
        r@ == origin@ + stem@ + dir@ + "/"@ + decimal(bbs as nat) + "/"@ + decimal(key as nat)
            + "/"@,
{
    let mut out = String::from_str(origin);
    out.append(stem);
    out.append(dir);
    out.append("/");
    push_decimal(&mut out, bbs);
    out.append("/");
    push_decimal(&mut out, key);
    out.append("/");
    out
}

/// The address of the newest thread of a board, found in the board's index
/// as it was fetched.
pub fn fetch_latest_thread_url(origin: &str, dir: &str, bbs: u64, subject_txt: &str) -> (r:
    Result<String, BbsError>)
    ensures
        match leading_key(subject_txt@) {
            Some(key) => r matches Ok(url) && url@ == read_url_of(
                ShitarabaView { origin: origin@, dir: dir@, bbs, key },
            ),
            None => r == Err::<String, BbsError>(BbsError::Discovery),
        },
{
    match read_latest_thread(subject_txt) {
        Ok(key) => Ok(thread_address(origin, "/bbs/read.cgi/", dir, bbs, key)),
        Err(e) => Err(e),
    }
}

/// The body of the form that posts a reply, its fields already in the form
/// in which they travel.
pub open spec fn form_of(
    t: ShitarabaView,
    name: Seq<char>,
    email: Seq<char>,
    msg: Seq<char>,
) -> Seq<char> {
    "BBS="@ + decimal(t.bbs as nat) + "&KEY="@ + decimal(t.key as nat) + "&DIR="@ + t.dir
        + "&NAME="@ + name + "&MAIL="@ + email + "&MESSAGE="@ + msg
}

/// The request that posts a reply to thread `t`, its fields already in the
/// form in which they travel.
pub open spec fn request_of(
    t: ShitarabaView,
    charset: Seq<char>,
    name: Seq<char>,
    email: Seq<char>,
    msg: Seq<char>,
) -> RequestView {
    RequestView {
        method: Method::Post,
        url: write_url_of(t),
        headers: seq![
            ("Content-Type"@, "application/x-www-form-urlencoded; charset="@ + charset),
            ("Referer"@, read_url_of(t)),
            ("User-Agent"@, UA@),
        ],
        body: form_of(t, name, email, msg),
    }
}

/// The request that posts a reply to thread `t`, its fields as they are
/// typed: each travels encoded in the charset and percent-encoded.
pub open spec fn post_request_of(
    t: ShitarabaView,
    charset: Seq<char>,
    name: Seq<char>,
    email: Seq<char>,
    msg: Seq<char>,
) -> RequestView {
    let label = label_bytes(charset);
    request_of(
        t,
        charset,
        form_value(label, name),
        form_value(label, email),
        form_value(label, msg),
    )
}

impl Shitaraba {
    /// The thread that `url` names, or a classification failure where it
    /// names none of this family.
    pub fn new(url: &Location) -> (r: Result<Shitaraba, BbsError>)
        ensures
            match thread_of(url@.origin, url@.path) {
                Some(t) => r matches Ok(got) && got@ == t,
                None => r matches Err(e) && e == BbsError::Classification,
            },
    {
        match parse_thread_url(url) {
            Some(site) => Ok(site),
            None => Err(BbsError::Classification),
        }
    }

    /// Scheme, host and port of the forum.
    pub fn origin(&self) -> (r: &str)
        ensures
            r@ == self@.origin,
    {
        self.origin.as_str()
    }

    /// The directory of the board.
    pub fn dir(&self) -> (r: &str)
        ensures
            r@ == self@.dir,
    {
        self.dir.as_str()
    }

    /// The number of the board.
    pub fn bbs(&self) -> (r: u64)
        ensures
            r == self@.bbs,
    {
        self.bbs
    }

    /// The key of the thread.
    pub fn key(&self) -> (r: u64)
        ensures
            r == self@.key,
    {
        self.key
    }

    /// The address at which the thread is read.
    pub fn read_url(&self) -> (r: String)
        ensures
            r@ == read_url_of(self@),
    {
        thread_address(self.origin.as_str(), "/bbs/read.cgi/", self.dir.as_str(), self.bbs, self.key)
    }

    /// Builds the request that posts a reply, from fields that are already
    /// in the form in which they travel.
    pub fn request(&self, charset: &str, name: &str, email: &str, msg: &str) -> (r: Request)
        ensures
            r@ == request_of(self@, charset@, name@, email@, msg@),
    {
        let url = thread_address(
            self.origin.as_str(),
            "/bbs/write.cgi/",
            self.dir.as_str(),
            self.bbs,
            self.key,
        );
        let mut content_type = String::from_str("application/x-www-form-urlencoded; charset=");
        content_type.append(charset);
        let mut headers: Vec<Header> = Vec::new();
        headers.push(header("Content-Type", content_type));
        headers.push(header("Referer", self.read_url()));
        headers.push(header("User-Agent", String::from_str(UA)));
        let mut body = String::from_str("BBS=");
        push_decimal(&mut body, self.bbs);
        body.append("&KEY=");
        push_decimal(&mut body, self.key);
        body.append("&DIR=");
        body.append(self.dir.as_str());
        body.append("&NAME=");
        body.append(name);
        body.append("&MAIL=");
        body.append(email);
        body.append("&MESSAGE=");
        body.append(msg);
        let request = Request { method: Method::Post, url, headers, body };
        proof {
            assert(request@.headers =~= seq![
                ("Content-Type"@, "application/x-www-form-urlencoded; charset="@ + charset@),
                ("Referer"@, read_url_of(self@)),
                ("User-Agent"@, UA@),
            ]);
        }
        request
    }
}

impl Thread for Shitaraba {
    open spec fn post_of(
        &self,
        charset: Seq<char>,
        name: Seq<char>,
        email: Seq<char>,
        msg: Seq<char>,
    ) -> RequestView {
        post_request_of(self@, charset, name, email, msg)
    }

    open spec fn reply_label(&self) -> Seq<char> {
        "euc-jp"@
    }

    fn post(&self, charset: &str, name: &str, email: &str, msg: &str) -> (r: Result<
        Request,
        BbsError,
    >) {
        let name = match charset_percent_encode(charset, name) {
            Some(v) => v,
            None => { return Err(BbsError::Encoding); },
        };
        let email = match charset_percent_encode(charset, email) {
            Some(v) => v,
            None => { return Err(BbsError::Encoding); },
        };
        let msg = match charset_percent_encode(charset, msg) {
            Some(v) => v,
            None => { return Err(BbsError::Encoding); },
        };
        Ok(self.request(charset, name.as_str(), email.as_str(), msg.as_str()))
    }

    fn posted(&self, status: u16, body: &[u8]) -> (r: Result<String, BbsError>) {
        match ensure_success(status) {
            Ok(_) => Ok(decode_reply("euc-jp", body)),
            Err(e) => Err(e),
        }
    }
}

} // verus!
