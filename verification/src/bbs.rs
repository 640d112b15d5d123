//! Recognising URLs, resolving them to threads, and the capability to post.

use vstd::prelude::*;
use crate::charset::{known_label, label_bytes, reply_text, MAX_BYTES, MAX_TEXT};
use crate::compatible::{Compatible, CompatibleView};
use crate::error::BbsError;
use crate::http::{get, get_of, is_success, Request, RequestView};
use crate::location::{parsed, Location, LocationView};
use crate::page::{fetch_charset_title_pair, page_charset, page_text, title_of};
use crate::shitaraba::{Shitaraba, ShitarabaView};
use crate::text::{
    digits_u64, has_prefix, is_segment, leading_key, same_text, text_starts_with, unsigned_u64,
};

verus! {

/// A thread that a reply can be posted to.
pub trait Thread {
    /// The request that posts a reply to this thread, the fields given as
    /// they are typed and `charset` naming the encoding that the forum reads.
    spec fn post_of(
        &self,
        charset: Seq<char>,
        name: Seq<char>,
        email: Seq<char>,
        msg: Seq<char>,
    ) -> RequestView;

    /// The label of the encoding in which this forum family answers.
    spec fn reply_label(&self) -> Seq<char>;

    /// Builds the request that posts a reply. Fails where `charset` names no
    /// known encoding, and only there. The bounds on the fields keep the
    /// encoder's buffers within what the machine can address.
    fn post(&self, charset: &str, name: &str, email: &str, msg: &str) -> (r: Result<
        Request,
        BbsError,
    >)
        requires
            name@.len() <= MAX_TEXT,
            email@.len() <= MAX_TEXT,
            msg@.len() <= MAX_TEXT,
        ensures
            known_label(label_bytes(charset@)) ==> (r matches Ok(request) && request@
                == self.post_of(charset@, name@, email@, msg@)),
            !known_label(label_bytes(charset@)) ==> r == Err::<Request, BbsError>(
                BbsError::Encoding,
            ),
    ;

    /// Judges the server's answer to a posted reply: a status outside
    /// 200..=299 is a failure; otherwise the post counts as made, and the
    /// body is decoded for diagnosis only.
    fn posted(&self, status: u16, body: &[u8]) -> (r: Result<String, BbsError>)
        requires
            body@.len() <= MAX_BYTES,
        ensures
            is_success(status) ==> (r matches Ok(text) && text@ == reply_text(
                label_bytes(self.reply_label()),
                body@,
            )),
            !is_success(status) ==> r == Err::<String, BbsError>(BbsError::FetchStatus(status)),
    ;
}

/// A thread of either family.
#[derive(Debug)]
pub enum AnyThread {
    Shitaraba(Shitaraba),
    Compatible(Compatible),
}

/// An `AnyThread` as a mathematical value.
pub enum AnyThreadView {
    Shitaraba(ShitarabaView),
    Compatible(CompatibleView),
}

impl View for AnyThread {
    type V = AnyThreadView;

    open spec fn view(&self) -> AnyThreadView {
        match *self {
            AnyThread::Shitaraba(t) => AnyThreadView::Shitaraba(t@),
            AnyThread::Compatible(t) => AnyThreadView::Compatible(t@),
        }
    }
}

impl Thread for AnyThread {
    open spec fn post_of(
        &self,
        charset: Seq<char>,
        name: Seq<char>,
        email: Seq<char>,
        msg: Seq<char>,
    ) -> RequestView {
        match *self {
            AnyThread::Shitaraba(t) => t.post_of(charset, name, email, msg),
            AnyThread::Compatible(t) => t.post_of(charset, name, email, msg),
        }
    }

    open spec fn reply_label(&self) -> Seq<char> {
        match *self {
            AnyThread::Shitaraba(t) => t.reply_label(),
            AnyThread::Compatible(t) => t.reply_label(),
        }
    }

    fn post(&self, charset: &str, name: &str, email: &str, msg: &str) -> (r: Result<
        Request,
        BbsError,
    >) {
        match self {
            AnyThread::Shitaraba(t) => t.post(charset, name, email, msg),
            AnyThread::Compatible(t) => t.post(charset, name, email, msg),
        }
    }

    fn posted(&self, status: u16, body: &[u8]) -> (r: Result<String, BbsError>) {
        match self {
            AnyThread::Shitaraba(t) => t.posted(status, body),
            AnyThread::Compatible(t) => t.posted(status, body),
        }
    }
}

/// Whether host and path point at the Shitaraba family: by the host of its
/// service, or by the path under which it serves threads.
pub open spec fn shitaraba_like(host: Seq<char>, path: Seq<char>) -> bool {
    host == "jbbs.shitaraba.net"@ || has_prefix(path, "/bbs/read.cgi/"@)
}

/// Tells whether host and path point at the Shitaraba family.
pub fn is_shitaraba_bbs(host: &str, path: &str) -> (yes: bool)
    ensures
        yes == shitaraba_like(host@, path@),
{
    if same_text(host, "jbbs.shitaraba.net") {
        return true;
    }
    if text_starts_with(path, "/bbs/read.cgi/") {
        return true;
    }
    false
}

/// The thread that a location names: of the Shitaraba family where host or
/// path point at it, else of the compatible family. There is none where the
/// location has no host or its path is no thread path of that family.
pub open spec fn thread_at(url: LocationView) -> Option<AnyThreadView> {
    match url.host {
        None => None,
        Some(host) => if shitaraba_like(host, url.path) {
            match crate::shitaraba::thread_of(url.origin, url.path) {
                Some(t) => Some(AnyThreadView::Shitaraba(t)),
                None => None,
            }
        } else {
            match crate::compatible::thread_of(url.origin, url.path) {
                Some(t) => Some(AnyThreadView::Compatible(t)),
                None => None,
            }
        },
    }
}

/// Opens the thread that `url` names.
pub fn new(url: &Location) -> (r: Result<AnyThread, BbsError>)
    ensures
        match thread_at(url@) {
            Some(t) => r matches Ok(got) && got@ == t,
            None => r matches Err(e) && e == BbsError::Classification,
        },
{
    let host = match &url.host {
        Some(h) => h,
        None => { return Err(BbsError::Classification); },
    };
    if is_shitaraba_bbs(host.as_str(), url.path.as_str()) {
        match Shitaraba::new(url) {
            Ok(t) => Ok(AnyThread::Shitaraba(t)),
            Err(e) => Err(e),
        }
    } else {
        match Compatible::new(url) {
            Ok(t) => Ok(AnyThread::Compatible(t)),
            Err(e) => Err(e),
        }
    }
}

/// What a URL was recognised as. Each case keeps the URL that it came from.
#[derive(Debug)]
pub enum BbsUrl {
    /// A thread of the Shitaraba family.
    ProbablyShitarabaThread(Location, Shitaraba),
    /// A board of the Shitaraba family: directory and board number.
    ProbablyShitarabaBoard(Location, String, u64),
    /// A thread of the compatible family.
    ProbablyCompatibleThread(Location, Compatible),
    /// A board of the compatible family, by its name: the catch-all.
    MaybeCompatibleBoard(Location, String),
}

/// A `BbsUrl` as a mathematical value.
pub enum BbsUrlView {
    ProbablyShitarabaThread(LocationView, ShitarabaView),
    ProbablyShitarabaBoard(LocationView, Seq<char>, u64),
    ProbablyCompatibleThread(LocationView, CompatibleView),
    MaybeCompatibleBoard(LocationView, Seq<char>),
}

impl View for BbsUrl {
    type V = BbsUrlView;

    open spec fn view(&self) -> BbsUrlView {
        match *self {
            BbsUrl::ProbablyShitarabaThread(url, t) => BbsUrlView::ProbablyShitarabaThread(
                url@,
                t@,
            ),
            BbsUrl::ProbablyShitarabaBoard(url, dir, bbs) => BbsUrlView::ProbablyShitarabaBoard(
                url@,
                dir@,
                bbs,
            ),
            BbsUrl::ProbablyCompatibleThread(url, t) => BbsUrlView::ProbablyCompatibleThread(
                url@,
                t@,
            ),
            BbsUrl::MaybeCompatibleBoard(url, bbs) => BbsUrlView::MaybeCompatibleBoard(url@, bbs@),
        }
    }
}

/// What a location is recognised as. The patterns are tried in this order,
/// and the first that matches decides: a Shitaraba thread, by the path; a
/// Shitaraba board, by the whole address; a compatible thread, by the path;
/// a compatible board, by the path. There is no result where none matches.
pub open spec fn classified(url: LocationView) -> Option<BbsUrlView> {
    if let Some(t) = crate::shitaraba::thread_of(url.origin, url.path) {
        Some(BbsUrlView::ProbablyShitarabaThread(url, t))
    } else if let Some((dir, bbs)) = crate::shitaraba::board_in_href(url.href) {
        Some(BbsUrlView::ProbablyShitarabaBoard(url, dir, bbs))
    } else if let Some(t) = crate::compatible::thread_of(url.origin, url.path) {
        Some(BbsUrlView::ProbablyCompatibleThread(url, t))
    } else if let Some(bbs) = crate::compatible::board_in_path(url.path) {
        Some(BbsUrlView::MaybeCompatibleBoard(url, bbs))
    } else {
        None
    }
}

/// A location whose path is a Shitaraba thread path is recognised as that
/// thread, with directory, board and key as the path gives them, whatever
/// follows the key and whatever the rest of the location holds.
pub proof fn shitaraba_thread_is_classified(
    url: LocationView,
    dir: Seq<char>,
    board: Seq<char>,
    key: Seq<char>,
    rest: Seq<char>,
)
    requires
        is_segment(dir),
        unsigned_u64(board) is Some,
        unsigned_u64(key) is Some,
        rest.len() == 0 || rest[0] == '/',
        url.path == crate::shitaraba::read_prefix() + dir + "/"@ + board + "/"@ + key + rest,
    ensures
        classified(url) == Some(
            BbsUrlView::ProbablyShitarabaThread(
                url,
                ShitarabaView {
                    origin: url.origin,
                    dir,
                    bbs: unsigned_u64(board).unwrap(),
                    key: unsigned_u64(key).unwrap(),
                },
            ),
        ),
{
    crate::shitaraba::thread_path_is_recognised(url.path, dir, board, key, rest);
}

/// A location whose address is a Shitaraba board address is recognised as
/// that board, unless its path is a Shitaraba thread path, which goes first.
pub proof fn shitaraba_board_is_classified(
    url: LocationView,
    dir: Seq<char>,
    board: Seq<char>,
    closed: bool,
)
    requires
        is_segment(dir),
        digits_u64(board) is Some,
        url.href == crate::shitaraba::board_prefix() + dir + "/"@ + board + (if closed {
            "/"@
        } else {
            ""@
        }),
        crate::shitaraba::thread_in_path(url.path) is None,
    ensures
        classified(url) == Some(
            BbsUrlView::ProbablyShitarabaBoard(url, dir, digits_u64(board).unwrap()),
        ),
{
    crate::shitaraba::board_address_is_recognised(url.href, dir, board, closed);
}

/// No path is a thread path of both families.
pub proof fn thread_paths_are_disjoint(path: Seq<char>)
    ensures
        !(has_prefix(path, crate::shitaraba::read_prefix()) && has_prefix(
            path,
            crate::compatible::read_prefix(),
        )),
{
    reveal_strlit("/bbs/read.cgi/");
    reveal_strlit("/test/read.cgi/");
    if has_prefix(path, crate::shitaraba::read_prefix()) && has_prefix(
        path,
        crate::compatible::read_prefix(),
    ) {
        assert(path.take(14)[1] == 'b');
        assert(path.take(15)[1] == 't');
    }
}

/// A location whose path is a compatible thread path is recognised as that
/// thread, whatever follows the key, unless its address is a Shitaraba board
/// address, which goes first.
pub proof fn compatible_thread_is_classified(
    url: LocationView,
    bbs: Seq<char>,
    key: Seq<char>,
    rest: Seq<char>,
)
    requires
        is_segment(bbs),
        unsigned_u64(key) is Some,
        crate::compatible::is_thread_suffix(rest),
        url.path == crate::compatible::read_prefix() + bbs + "/"@ + key + rest,
        crate::shitaraba::board_in_href(url.href) is None,
    ensures
        classified(url) == Some(
            BbsUrlView::ProbablyCompatibleThread(
                url,
                CompatibleView { origin: url.origin, bbs, key: unsigned_u64(key).unwrap() },
            ),
        ),
{
    crate::compatible::thread_path_is_recognised(url.path, bbs, key, rest);
    thread_paths_are_disjoint(url.path);
}

/// A path of a single segment is a thread path of neither family.
pub proof fn single_segment_is_no_thread(path: Seq<char>, bbs: Seq<char>, closed: bool)
    requires
        is_segment(bbs),
        path == "/"@ + bbs + (if closed {
            "/"@
        } else {
            ""@
        }),
    ensures
        crate::shitaraba::thread_in_path(path) is None,
        crate::compatible::thread_in_path(path) is None,
{
    reveal_strlit("/");
    reveal_strlit("");
    reveal_strlit("/bbs/read.cgi/");
    reveal_strlit("/test/read.cgi/");
    if has_prefix(path, crate::shitaraba::read_prefix()) {
        assert(path.take(14)[4] == '/');
        assert(path[4] == bbs[3]);
    }
    if has_prefix(path, crate::compatible::read_prefix()) {
        assert(path.take(15)[5] == '/');
        assert(path[5] == bbs[4]);
    }
}

/// A location whose path is a single segment, with or without a closing
/// slash, is recognised as the compatible board of that name, unless its
/// address is a Shitaraba board address, which goes first.
pub proof fn single_segment_is_compatible_board(url: LocationView, bbs: Seq<char>, closed: bool)
    requires
        is_segment(bbs),
        url.path == "/"@ + bbs + (if closed {
            "/"@
        } else {
            ""@
        }),
        crate::shitaraba::board_in_href(url.href) is None,
    ensures
        classified(url) == Some(BbsUrlView::MaybeCompatibleBoard(url, bbs)),
{
    single_segment_is_no_thread(url.path, bbs, closed);
    crate::compatible::board_path_is_recognised(url.path, bbs, closed);
}

/// A location whose path holds no segment, the bare slash or nothing, is not
/// recognised, unless its address is a Shitaraba board address.
pub proof fn bare_path_is_not_classified(url: LocationView)
    requires
        url.path.len() <= 1,
        crate::shitaraba::board_in_href(url.href) is None,
    ensures
        classified(url) is None,
{
    reveal_strlit("/bbs/read.cgi/");
    reveal_strlit("/test/read.cgi/");
    crate::compatible::bare_path_is_no_board(url.path);
}

/// The order of the patterns decides: a location that matches a pattern of
/// the Shitaraba family is recognised as of that family, whether or not it
/// matches a pattern of the compatible family too.
pub proof fn shitaraba_goes_first(url: LocationView)
    requires
        crate::shitaraba::thread_in_path(url.path) is Some || crate::shitaraba::board_in_href(
            url.href,
        ) is Some,
    ensures
        classified(url) matches Some(c) && (c is ProbablyShitarabaThread
            || c is ProbablyShitarabaBoard),
{
}

/// Recognises a location as a thread or a board of one of the two families,
/// and hands the location back where it is neither.
pub fn parse_bbs_url(url: Location) -> (r: Result<BbsUrl, Location>)
    ensures
        match classified(url@) {
            Some(c) => r matches Ok(got) && got@ == c,
            None => r == Err::<BbsUrl, Location>(url),
        },
{
    if let Some(thread) = crate::shitaraba::parse_thread_url(&url) {
        return Ok(BbsUrl::ProbablyShitarabaThread(url, thread));
    }
    if let Some((dir, board)) = crate::shitaraba::parse_board_url(&url) {
        return Ok(BbsUrl::ProbablyShitarabaBoard(url, dir, board));
    }
    if let Some(thread) = crate::compatible::parse_thread_url(&url) {
        return Ok(BbsUrl::ProbablyCompatibleThread(url, thread));
    }
    if let Some(board) = crate::compatible::parse_board_url(&url) {
        return Ok(BbsUrl::MaybeCompatibleBoard(url, board));
    }
    Err(url)
}

/// What a typed URL is recognised as: nothing where it does not parse as an
/// absolute URL, else what the location that it parses to is recognised as.
pub open spec fn classified_text(text: Seq<char>) -> Option<BbsUrlView> {
    match parsed(text) {
        Some(url) => classified(url),
        None => None,
    }
}

/// Parses a typed URL and recognises it.
pub fn classify(text: &str) -> (r: Result<BbsUrl, BbsError>)
    ensures
        match classified_text(text@) {
            Some(c) => r matches Ok(got) && got@ == c,
            None => r matches Err(e) && e == BbsError::Classification,
        },
{
    let url = match Location::parse(text) {
        Some(url) => url,
        None => { return Err(BbsError::Classification); },
    };
    match parse_bbs_url(url) {
        Ok(bbs_url) => Ok(bbs_url),
        Err(_) => Err(BbsError::Classification),
    }
}

/// A thread to post to, with what its page says of itself.
#[derive(Debug)]
pub struct ResolvedTarget {
    /// The address of the thread.
    pub thread_url: String,
    /// The label of the encoding that the page declares, or `utf-8`.
    pub encoding: String,
    /// The title of the page, empty where it has none.
    pub title: String,
}

/// A `ResolvedTarget` as a mathematical value.
pub struct ResolvedTargetView {
    pub thread_url: Seq<char>,
    pub encoding: Seq<char>,
    pub title: Seq<char>,
}

impl View for ResolvedTarget {
    type V = ResolvedTargetView;

    open spec fn view(&self) -> ResolvedTargetView {
        ResolvedTargetView {
            thread_url: self.thread_url@,
            encoding: self.encoding@,
            title: self.title@,
        }
    }
}

/// A text that may be missing, as a mathematical value.
pub open spec fn text_view(text: Option<&str>) -> Option<Seq<char>> {
    match text {
        Some(t) => Some(t@),
        None => None,
    }
}

/// The address of the index that tells a board's newest thread; none for a
/// thread, which needs no discovery.
pub open spec fn index_url_of(bbs_url: BbsUrlView) -> Option<Seq<char>> {
    match bbs_url {
        BbsUrlView::ProbablyShitarabaThread(_, _) => None,
        BbsUrlView::ProbablyShitarabaBoard(url, dir, bbs) => Some(
            crate::shitaraba::subject_url_of(url.origin, dir, bbs),
        ),
        BbsUrlView::ProbablyCompatibleThread(_, _) => None,
        BbsUrlView::MaybeCompatibleBoard(url, bbs) => Some(
            crate::compatible::subject_url_of(url.origin, bbs),
        ),
    }
}

/// The address of the thread that a recognised URL leads to. A thread leads
/// to itself. A board leads to its newest thread, which the index names, as
/// it was fetched; discovery fails where the index is missing or names none.
pub open spec fn thread_url_of(bbs_url: BbsUrlView, subject_txt: Option<Seq<char>>) -> Result<
    Seq<char>,
    BbsError,
> {
    match bbs_url {
        BbsUrlView::ProbablyShitarabaThread(url, _) => Ok(url.href),
        BbsUrlView::ProbablyCompatibleThread(url, _) => Ok(url.href),
        BbsUrlView::ProbablyShitarabaBoard(url, dir, bbs) => match subject_txt {
            Some(index) => match leading_key(index) {
                Some(key) => Ok(
                    crate::shitaraba::read_url_of(
                        ShitarabaView { origin: url.origin, dir, bbs, key },
                    ),
                ),
                None => Err(BbsError::Discovery),
            },
            None => Err(BbsError::Discovery),
        },
        BbsUrlView::MaybeCompatibleBoard(url, bbs) => match subject_txt {
            Some(index) => match leading_key(index) {
                Some(key) => Ok(
                    crate::compatible::read_url_of(CompatibleView { origin: url.origin, bbs, key }),
                ),
                None => Err(BbsError::Discovery),
            },
            None => Err(BbsError::Discovery),
        },
    }
}

/// What resolution gives: the thread's address with the charset and the
/// title of its page. It fails where the thread's address is not found, the
/// page could not be fetched (`status` is `None`), or the server answered
/// with a status outside 200..=299.
pub open spec fn resolved(
    bbs_url: BbsUrlView,
    subject_txt: Option<Seq<char>>,
    status: Option<u16>,
    page: Seq<u8>,
) -> Result<ResolvedTargetView, BbsError> {
    match thread_url_of(bbs_url, subject_txt) {
        Err(e) => Err(e),
        Ok(thread_url) => match status {
            None => Err(BbsError::FetchTransport),
            Some(code) => if is_success(code) {
                Ok(
                    ResolvedTargetView {
                        thread_url,
                        encoding: page_charset(page),
                        title: title_of(page_text(page)),
                    },
                )
            } else {
                Err(BbsError::FetchStatus(code))
            },
        },
    }
}

/// The request for the index that must be fetched before a board's newest
/// thread is known; none for a thread.
pub fn index_request(bbs_url: &BbsUrl) -> (r: Option<Request>)
    ensures
        match index_url_of(bbs_url@) {
            Some(url) => r matches Some(request) && request@ == get_of(url),
            None => r is None,
        },
{
    match bbs_url {
        BbsUrl::ProbablyShitarabaThread(_, _) => None,
        BbsUrl::ProbablyShitarabaBoard(url, dir, bbs) => Some(
            get(crate::shitaraba::subject_url(url.origin.as_str(), dir.as_str(), *bbs)),
        ),
        BbsUrl::ProbablyCompatibleThread(_, _) => None,
        BbsUrl::MaybeCompatibleBoard(url, bbs) => Some(
            get(crate::compatible::subject_url(url.origin.as_str(), bbs.as_str())),
        ),
    }
}

/// The address of the thread that a recognised URL leads to, given the
/// board's index as it was fetched (`None` where it could not be fetched, or
/// where none was needed).
pub fn thread_url(bbs_url: &BbsUrl, subject_txt: Option<&str>) -> (r: Result<String, BbsError>)
    ensures
        match thread_url_of(bbs_url@, text_view(subject_txt)) {
            Ok(url) => r matches Ok(got) && got@ == url,
            Err(e) => r matches Err(got) && got == e,
        },
{
    match bbs_url {
        BbsUrl::ProbablyShitarabaThread(url, _) => Ok(url.href.clone()),
        BbsUrl::ProbablyCompatibleThread(url, _) => Ok(url.href.clone()),
        BbsUrl::ProbablyShitarabaBoard(url, dir, bbs) => match subject_txt {
            Some(index) => crate::shitaraba::fetch_latest_thread_url(
                url.origin.as_str(),
                dir.as_str(),
                *bbs,
                index,
            ),
            None => Err(BbsError::Discovery),
        },
        BbsUrl::MaybeCompatibleBoard(url, bbs) => match subject_txt {
            Some(index) => crate::compatible::fetch_latest_thread_url(
                url.origin.as_str(),
                bbs.as_str(),
                index,
            ),
            None => Err(BbsError::Discovery),
        },
    }
}

/// Resolves a recognised URL to its thread, with the charset and the title
/// of the thread's page, from what was fetched: the board's index, where one
/// was needed, and status and first bytes of the thread's page.
pub fn fetch_thread_url_encoding_name(
    bbs_url: &BbsUrl,
    subject_txt: Option<&str>,
    status: Option<u16>,
    page: &[u8],
) -> (r: Result<ResolvedTarget, BbsError>)
    requires
        page@.len() <= MAX_BYTES,
    ensures
        match resolved(bbs_url@, text_view(subject_txt), status, page@) {
            Ok(target) => r matches Ok(got) && got@ == target,
            Err(e) => r matches Err(got) && got == e,
        },
{
    let thread_url = match thread_url(bbs_url, subject_txt) {
        Ok(url) => url,
        Err(e) => { return Err(e); },
    };
    let code = match status {
        Some(code) => code,
        None => { return Err(BbsError::FetchTransport); },
    };
    if !(200 <= code && code <= 299) {
        return Err(BbsError::FetchStatus(code));
    }
    let (encoding, title) = fetch_charset_title_pair(page);
    Ok(ResolvedTarget { thread_url, encoding, title })
}

/// Opens the thread at a resolved address, for posting.
pub fn open_thread(thread_url: &str) -> (r: Result<AnyThread, BbsError>)
    ensures
        match parsed(thread_url@) {
            Some(url) => match thread_at(url) {
                Some(t) => r matches Ok(got) && got@ == t,
                None => r matches Err(e) && e == BbsError::Classification,
            },
            None => r matches Err(e) && e == BbsError::Classification,
        },
{
    match Location::parse(thread_url) {
        Some(url) => new(&url),
        None => Err(BbsError::Classification),
    }
}

} // verus!
