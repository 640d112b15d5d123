//! What the head of a thread's page tells: its charset and its title.

use vstd::prelude::*;
use vstd::slice::slice_subrange;
use crate::charset::{decode_utf8_lossy, decode_with, decoded, known_label, utf8_text, MAX_BYTES};
use crate::text::{to_chars, to_text};

verus! {

/// How many bytes of a page are read before reading stops.
pub const PREFIX_CAP: usize = 1024;

/// The bytes of `charset=`.
pub open spec fn charset_key() -> Seq<u8> {
    seq![99u8, 104u8, 97u8, 114u8, 115u8, 101u8, 116u8, 61u8]
}

/// Whether `charset=` stands in `s` at `i`.
pub open spec fn key_at(s: Seq<u8>, i: int) -> bool {
    0 <= i && i + 8 <= s.len() && s.subrange(i, i + 8) == charset_key()
}

/// Where an unquoted token that starts at `from` ends: at the first
/// semicolon or double quote, or at the end of `s`.
pub open spec fn plain_end(s: Seq<u8>, from: int) -> int
    decreases s.len() - from,
{
    if from >= s.len() {
        s.len() as int
    } else if s[from] == 59 || s[from] == 34 {
        from
    } else {
        plain_end(s, from + 1)
    }
}

/// Where the line that holds `from` ends: at the first line feed, or at the
/// end of `s`.
pub open spec fn line_end(s: Seq<u8>, from: int) -> int
    decreases s.len() - from,
{
    if from >= s.len() {
        s.len() as int
    } else if s[from] == 10 {
        from
    } else {
        line_end(s, from + 1)
    }
}

/// The last double quote in `s[from..to]`, or `from - 1` where there is none.
pub open spec fn last_quote(s: Seq<u8>, from: int, to: int) -> int
    decreases to - from,
{
    if to <= from {
        from - 1
    } else if s[to - 1] == 34 {
        to - 1
    } else {
        last_quote(s, from, to - 1)
    }
}

/// The token of a charset declaration that starts at `i`, as the range that
/// it takes in `s`. A declaration is `charset=` followed either by a
/// non-empty token that runs up to a semicolon, a double quote or the end, or
/// by a double quote, a non-empty token and the last double quote of the line.
pub open spec fn token_at(s: Seq<u8>, i: int) -> Option<(int, int)> {
    let a = i + 8;
    if !key_at(s, i) || a >= s.len() || s[a] == 59 {
        None
    } else if s[a] == 34 {
        let q = last_quote(s, a + 2, line_end(s, a + 1));
        if q >= a + 2 {
            Some((a + 1, q))
        } else {
            None
        }
    } else {
        Some((a, plain_end(s, a)))
    }
}

/// The token of the first charset declaration at or after `from`.
pub open spec fn first_token(s: Seq<u8>, from: int) -> Option<(int, int)>
    decreases s.len() - from,
{
    if from >= s.len() {
        None
    } else if token_at(s, from) is Some {
        token_at(s, from)
    } else {
        first_token(s, from + 1)
    }
}

/// The label that a page declares: the token of its first charset
/// declaration, where that names a known encoding.
pub open spec fn declared_label(page: Seq<u8>) -> Option<Seq<u8>> {
    match first_token(page, 0) {
        Some((a, e)) => if known_label(page.subrange(a, e)) {
            Some(page.subrange(a, e))
        } else {
            None
        },
        None => None,
    }
}

/// The charset that is reported for a page: the label that it declares, or
/// `utf-8` where it declares none that is known.
pub open spec fn page_charset(page: Seq<u8>) -> Seq<char> {
    match declared_label(page) {
        Some(label) => utf8_text(label),
        None => "utf-8"@,
    }
}

/// The text of a page: decoded with the encoding that it declares, or as
/// UTF-8 where it declares none that is known.
pub open spec fn page_text(page: Seq<u8>) -> Seq<char> {
    match declared_label(page) {
        Some(label) => decoded(label, page),
        None => utf8_text(page),
    }
}

/// `c` with an ASCII capital letter turned into its small letter.
pub open spec fn lower(c: char) -> char {
    if 65 <= c as u32 <= 90 {
        ((c as u32 + 32) as u8) as char
    } else {
        c
    }
}

/// The opening tag of a title, in small letters.
pub open spec fn open_tag() -> Seq<char> {
    seq!['<', 't', 'i', 't', 'l', 'e', '>']
}

/// The closing tag of a title, in small letters.
pub open spec fn close_tag() -> Seq<char> {
    seq!['<', '/', 't', 'i', 't', 'l', 'e', '>']
}

/// Whether `tag` stands in `s` at `i`, in capital or small letters.
pub open spec fn tag_at(s: Seq<char>, i: int, tag: Seq<char>) -> bool {
    0 <= i && i + tag.len() <= s.len() && forall|k: int|
        0 <= k < tag.len() ==> lower(#[trigger] s[i + k]) == tag[k]
}

/// Where the title that starts at `from` ends: at the first closing tag,
/// provided that no line feed comes before it.
pub open spec fn title_end(s: Seq<char>, from: int) -> Option<int>
    decreases s.len() - from,
{
    if from >= s.len() {
        None
    } else if tag_at(s, from, close_tag()) {
        Some(from)
    } else if s[from] == '\n' {
        None
    } else {
        title_end(s, from + 1)
    }
}

/// The range of the first title at or after `from`: what stands between an
/// opening tag and the closing tag that ends it on the same line.
pub open spec fn first_title(s: Seq<char>, from: int) -> Option<(int, int)>
    decreases s.len() - from,
{
    if from >= s.len() {
        None
    } else if tag_at(s, from, open_tag()) && title_end(s, from + 7) is Some {
        Some((from + 7, title_end(s, from + 7).unwrap()))
    } else {
        first_title(s, from + 1)
    }
}

/// The title of a page, empty where it has none.
pub open spec fn title_of(text: Seq<char>) -> Seq<char> {
    match first_title(text, 0) {
        Some((a, e)) => text.subrange(a, e),
        None => Seq::empty(),
    }
}

/// Where no declaration starts between `from` and `at`, the first token at
/// or after `from` is the first at or after `at`.
pub proof fn lemma_first_token_skips(s: Seq<u8>, from: int, at: int)
    requires
        0 <= from <= at <= s.len(),
        forall|j: int| from <= j < at ==> token_at(s, j) is None,
    ensures
        first_token(s, from) == first_token(s, at),
    decreases at - from,
{
    if from < at {
        lemma_first_token_skips(s, from + 1, at);
    }
}

/// A page that holds `charset=` nowhere is read as UTF-8 and reported as
/// `utf-8`.
pub proof fn page_without_declaration_is_utf8(page: Seq<u8>)
    requires
        forall|i: int| !key_at(page, i),
    ensures
        page_charset(page) == "utf-8"@,
        page_text(page) == utf8_text(page),
{
    lemma_first_token_skips(page, 0, page.len() as int);
}

/// A page whose first declaration names a known encoding is read with that
/// encoding and reported under the declaration's token, byte for byte.
pub proof fn declared_charset_is_reported(page: Seq<u8>, at: int)
    requires
        0 <= at < page.len(),
        forall|j: int| 0 <= j < at ==> token_at(page, j) is None,
        token_at(page, at) matches Some((a, e)) && known_label(page.subrange(a, e)),
    ensures
        token_at(page, at) matches Some((a, e)) && page_charset(page) == utf8_text(
            page.subrange(a, e),
        ) && page_text(page) == decoded(page.subrange(a, e), page),
{
    lemma_first_token_skips(page, 0, at);
}

/// Takes one more chunk of a page into `buf` and tells whether to go on
/// reading: reading stops once more than `PREFIX_CAP` bytes are held.
pub fn push_chunk(buf: &mut Vec<u8>, chunk: &[u8]) -> (more: bool)
    ensures
        final(buf)@ == old(buf)@ + chunk@,
        more == (final(buf)@.len() <= PREFIX_CAP),
{
    buf.extend_from_slice(chunk);
    buf.len() <= PREFIX_CAP
}

/// Tells whether `charset=` stands in `s` at `i`.
fn is_key_at(s: &[u8], i: usize) -> (yes: bool)
    ensures
        yes == key_at(s@, i as int),
{
    if s.len() < 8 || i > s.len() - 8 {
        return false;
    }
    let yes = s[i] == 99 && s[i + 1] == 104 && s[i + 2] == 97 && s[i + 3] == 114 && s[i + 4]
        == 115 && s[i + 5] == 101 && s[i + 6] == 116 && s[i + 7] == 61;
    proof {
        let sub = s@.subrange(i as int, i + 8);
        if yes {
            assert(sub =~= charset_key());
        } else {
            assert(sub[0] == s@[i as int] && sub[1] == s@[i + 1] && sub[2] == s@[i + 2] && sub[3]
                == s@[i + 3] && sub[4] == s@[i + 4] && sub[5] == s@[i + 5] && sub[6] == s@[i + 6]
                && sub[7] == s@[i + 7]);
        }
    }
    yes
}

/// Finds the end of the unquoted token that starts at `from`.
fn find_plain_end(s: &[u8], from: usize) -> (at: usize)
    requires
        from <= s@.len(),
    ensures
        at == plain_end(s@, from as int),
        from <= at <= s@.len(),
{
    let mut i: usize = from;
    while i < s.len() && s[i] != 59 && s[i] != 34
        invariant
            from <= i <= s@.len(),
            plain_end(s@, from as int) == plain_end(s@, i as int),
        decreases s@.len() - i,
    {
        i += 1;
    }
    i
}

/// Finds the end of the line that holds `from`.
fn find_line_end(s: &[u8], from: usize) -> (at: usize)
    requires
        from <= s@.len(),
    ensures
        at == line_end(s@, from as int),
        from <= at <= s@.len(),
{
    let mut i: usize = from;
    while i < s.len() && s[i] != 10
        invariant
            from <= i <= s@.len(),
            line_end(s@, from as int) == line_end(s@, i as int),
        decreases s@.len() - i,
    {
        i += 1;
    }
    i
}

/// Finds the last double quote in `s[from..to]`.
fn find_last_quote(s: &[u8], from: usize, to: usize) -> (at: Option<usize>)
    requires
        from <= to <= s@.len(),
    ensures
        match at {
            Some(q) => q == last_quote(s@, from as int, to as int) && from <= q < to,
            None => last_quote(s@, from as int, to as int) == from - 1,
        },
{
    let mut i: usize = to;
    while i > from
        invariant
            from <= i <= to <= s@.len(),
            last_quote(s@, from as int, to as int) == last_quote(s@, from as int, i as int),
        decreases i - from,
    {
        if s[i - 1] == 34 {
            return Some(i - 1);
        }
        i -= 1;
    }
    None
}

/// Reads the token of a charset declaration that starts at `i`.
fn read_token_at(s: &[u8], i: usize) -> (r: Option<(usize, usize)>)
    ensures
        match token_at(s@, i as int) {
            Some((a, e)) => r matches Some(got) && got.0 == a && got.1 == e && a <= e <= s@.len(),
            None => r is None,
        },
{
    if !is_key_at(s, i) {
        return None;
    }
    let n = s.len();
    assert(i + 8 <= n);
    let a = i + 8;
    if a >= s.len() || s[a] == 59 {
        return None;
    }
    if s[a] == 34 {
        if s.len() - a < 2 {
            proof {
                assert(line_end(s@, a + 1) == s@.len());
                assert(last_quote(s@, a + 2, s@.len() as int) == a + 1);
            }
            return None;
        }
        let end = find_line_end(s, a + 1);
        if end < a + 2 {
            proof {
                assert(last_quote(s@, a + 2, end as int) == a + 1);
            }
            return None;
        }
        match find_last_quote(s, a + 2, end) {
            Some(q) => Some((a + 1, q)),
            None => None,
        }
    } else {
        Some((a, find_plain_end(s, a)))
    }
}

/// Finds the token of the first charset declaration of a page.
pub fn find_token(s: &[u8]) -> (r: Option<(usize, usize)>)
    ensures
        match first_token(s@, 0) {
            Some((a, e)) => r matches Some(got) && got.0 == a && got.1 == e && a <= e <= s@.len(),
            None => r is None,
        },
{
    let mut i: usize = 0;
    while i < s.len()
        invariant
            i <= s@.len(),
            first_token(s@, 0) == first_token(s@, i as int),
        decreases s@.len() - i,
    {
        match read_token_at(s, i) {
            Some(t) => { return Some(t); },
            None => {},
        }
        i += 1;
    }
    None
}

/// Turns an ASCII capital letter into its small letter.
fn to_lower(c: char) -> (r: char)
    ensures
        r == lower(c),
{
    let code: u32 = c as u32;
    if 65 <= code && code <= 90 {
        ((code + 32) as u8) as char
    } else {
        c
    }
}

/// Tells whether `tag` stands in `s` at `i`, in capital or small letters.
fn is_tag_at(s: &[char], i: usize, tag: &[char]) -> (yes: bool)
    ensures
        yes == tag_at(s@, i as int, tag@),
{
    if tag.len() > s.len() || i > s.len() - tag.len() {
        return false;
    }
    let mut k: usize = 0;
    while k < tag.len()
        invariant
            k <= tag@.len(),
            i + tag@.len() <= s@.len() <= usize::MAX,
            forall|j: int| 0 <= j < k ==> lower(#[trigger] s@[i + j]) == tag@[j],
        decreases tag@.len() - k,
    {
        if to_lower(s[i + k]) != tag[k] {
            return false;
        }
        k += 1;
    }
    true
}

/// Finds the closing tag that ends the title that starts at `from`.
fn find_title_end(s: &[char], from: usize, close: &[char]) -> (r: Option<usize>)
    requires
        from <= s@.len(),
        close@ == close_tag(),
    ensures
        match title_end(s@, from as int) {
            Some(e) => r == Some(e as usize) && from <= e <= s@.len(),
            None => r is None,
        },
{
    let mut i: usize = from;
    while i < s.len()
        invariant
            from <= i <= s@.len(),
            close@ == close_tag(),
            title_end(s@, from as int) == title_end(s@, i as int),
        decreases s@.len() - i,
    {
        if is_tag_at(s, i, close) {
            return Some(i);
        }
        if s[i] == '\n' {
            return None;
        }
        i += 1;
    }
    None
}

/// Finds the first title of a text.
pub fn find_title(s: &[char]) -> (r: Option<(usize, usize)>)
    ensures
        match first_title(s@, 0) {
            Some((a, e)) => r matches Some(got) && got.0 == a && got.1 == e && a <= e <= s@.len(),
            None => r is None,
        },
{
    let open = vec!['<', 't', 'i', 't', 'l', 'e', '>'];
    let close = vec!['<', '/', 't', 'i', 't', 'l', 'e', '>'];
    assert(open@ =~= open_tag());
    assert(close@ =~= close_tag());
    let mut i: usize = 0;
    while i < s.len()
        invariant
            i <= s@.len(),
            open@ == open_tag(),
            close@ == close_tag(),
            first_title(s@, 0) == first_title(s@, i as int),
        decreases s@.len() - i,
    {
        if is_tag_at(s, i, open.as_slice()) {
            match find_title_end(s, i + 7, close.as_slice()) {
                Some(e) => { return Some((i + 7, e)); },
                None => {},
            }
        }
        i += 1;
    }
    None
}

/// The title of a text, empty where it has none.
pub fn extract_title(text: &str) -> (r: String)
    ensures
        r@ == title_of(text@),
{
    let chars = to_chars(text);
    match find_title(chars.as_slice()) {
        Some((a, e)) => to_text(chars.as_slice(), a, e),
        None => String::new(),
    }
}

/// The charset and the title of a page, from the bytes that were read of it.
pub fn fetch_charset_title_pair(page: &[u8]) -> (r: (String, String))
    requires
        page@.len() <= MAX_BYTES,
    ensures
        r.0@ == page_charset(page@),
        r.1@ == title_of(page_text(page@)),
{
    let declared = match find_token(page) {
        Some((a, e)) => {
            let label = slice_subrange(page, a, e);
            match decode_with(label, page) {
                Some(text) => Some((decode_utf8_lossy(label), text)),
                None => None,
            }
        },
        None => None,
    };
    let (charset, text) = match declared {
        Some(pair) => pair,
        None => (String::from_str("utf-8"), decode_utf8_lossy(page)),
    };
    (charset, extract_title(text.as_str()))
}

} // verus!
