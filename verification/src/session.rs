//! The per-connection request protocol: what to reply to one text request,
//! given the latest snapshot and the artwork this connection was sent last.

use vstd::prelude::*;
use vstd::string::*;
use crate::status::{status_view, ArtworkInfo, PlayerStatus, StatusView};
use crate::text::{after, starts_with, strip_prefix};

verus! {

/// The text of the reply that stands for "nothing to send".
pub fn null_reply() -> (r: &'static str)
    ensures
        r@ == "null"@,
{
    "null"
}

/// A decimal digit.
pub open spec fn is_digit(c: char) -> bool {
    '0' <= c <= '9'
}

/// The value of a decimal digit; zero for any other character.
pub open spec fn digit_value(c: char) -> nat {
    if is_digit(c) {
        (c as int - '0' as int) as nat
    } else {
        0
    }
}

/// The number that a sequence of decimal digits denotes.
pub open spec fn digits_value(digits: Seq<char>) -> nat
    decreases digits.len(),
{
    if digits.len() == 0 {
        0
    } else {
        digits_value(digits.drop_last()) * 10 + digit_value(digits.last())
    }
}

/// The text without one leading plus sign, if it has one.
pub open spec fn unsigned_part(text: Seq<char>) -> Seq<char> {
    if text.len() > 0 && text[0] == '+' {
        after(text, 1)
    } else {
        text
    }
}

/// Every character is a decimal digit.
pub open spec fn all_digits(digits: Seq<char>) -> bool {
    forall|i: int| 0 <= i < digits.len() ==> is_digit(#[trigger] digits[i])
}

/// The non-negative integer that `text` denotes in base ten: one or more
/// digits, with at most one plus sign before them. Nothing for any other
/// text.
pub open spec fn index_value(text: Seq<char>) -> Option<nat> {
    let digits = unsigned_part(text);
    if digits.len() > 0 && all_digits(digits) {
        Some(digits_value(digits))
    } else {
        None
    }
}

/// A number never shrinks when digits are written after it.
pub proof fn lemma_value_grows(digits: Seq<char>, count: int)
    requires
        0 <= count <= digits.len(),
    ensures
        digits_value(digits.take(count)) <= digits_value(digits),
    decreases digits.len(),
{
    if count == digits.len() {
        assert(digits.take(count) =~= digits);
    } else {
        assert(digits.drop_last().take(count) =~= digits.take(count));
        lemma_value_grows(digits.drop_last(), count);
    }
}

/// A text with a character outside ASCII denotes no index.
pub proof fn lemma_not_ascii_no_index(text: Seq<char>)
    requires
        !vstd::utf8::is_ascii_chars(text),
    ensures
        index_value(text) is None,
{
    let i = choose|i: int| 0 <= i < text.len() && !('\0' <= #[trigger] text[i] <= '\u{7f}');
    let digits = unsigned_part(text);
    if text[0] == '+' {
        assert(digits[i - 1] == text[i]);
        assert(!is_digit(digits[i - 1]));
    } else {
        assert(!is_digit(digits[i]));
    }
}

/// Reads a base-ten index. Nothing is returned for a text that denotes no
/// index, nor for a number that does not fit the machine's word.
pub fn parse_index(text: &str) -> (r: Option<usize>)
    ensures
        r == match index_value(text@) {
            Some(n) => if n <= usize::MAX {
                Some(n as usize)
            } else {
                None
            },
            None => None,
        },
{
    if !text.is_ascii() {
        proof {
            lemma_not_ascii_no_index(text@);
        }
        return None;
    }
    let bytes = text.as_bytes();
    proof {
        is_ascii_spec_bytes(text);
    }
    let n = bytes.len();
    let start: usize = if n > 0 && bytes[0] == 43u8 {
        1
    } else {
        0
    };
    if start == n {
        return None;
    }
    let ghost digits = unsigned_part(text@);
    assert(digits =~= text@.subrange(start as int, n as int));
    let mut value: usize = 0;
    let mut i: usize = start;
    while i < n
        invariant
            start <= i <= n,
            n == text@.len(),
            n == bytes@.len(),
            vstd::utf8::is_ascii_chars(text@),
            forall|j: int| 0 <= j < n ==> bytes@[j] == text@[j] as u8,
            digits == text@.subrange(start as int, n as int),
            digits == unsigned_part(text@),
            forall|j: int| 0 <= j < i - start ==> is_digit(#[trigger] digits[j]),
            value == digits_value(digits.take(i - start)),
        decreases n - i,
    {
        let b = bytes[i];
        let ghost c = text@[i as int];
        assert(c == digits[i - start]);
        if b < 48 || b > 57 {
            assert(!is_digit(digits[i - start]));
            return None;
        }
        let digit: usize = (b - 48) as usize;
        proof {
            assert(digits.take(i - start + 1).drop_last() =~= digits.take(i - start));
            assert(digits.take(i - start + 1).last() == c);
        }
        if value > (usize::MAX - digit) / 10 {
            proof {
                lemma_value_grows(digits, i - start + 1);
            }
            return None;
        }
        value = value * 10 + digit;
        i += 1;
    }
    assert(digits.take(n - start) =~= digits);
    Some(value)
}

/// One request, as the protocol understands it.
#[derive(Debug, Clone, Copy, PartialEq, Eq, Structural)]
pub enum Request {
    /// A request for the current status: any text that does not begin with
    /// the artwork prefix.
    Status,
    /// A request for the artwork at this position.
    Artwork(usize),
    /// A text that begins with the artwork prefix but names no position
    /// that a list could have.
    Unanswerable,
}

/// The characters with which an artwork request begins.
pub open spec fn artwork_prefix() -> Seq<char> {
    seq!['a', 'r', 't', 'w', 'o', 'r', 'k', '/']
}

/// The characters with which the source of a local artwork file begins.
pub open spec fn file_scheme() -> Seq<char> {
    seq!['f', 'i', 'l', 'e', ':', '/', '/']
}

/// The request that a text denotes.
pub open spec fn request_of(text: Seq<char>) -> Request {
    if starts_with(text, artwork_prefix()) {
        match index_value(after(text, 8)) {
            Some(n) => if n <= usize::MAX {
                Request::Artwork(n as usize)
            } else {
                Request::Unanswerable
            },
            None => Request::Unanswerable,
        }
    } else {
        Request::Status
    }
}

/// Reads one text request.
pub fn parse_request(text: &str) -> (r: Request)
    ensures
        r == request_of(text@),
{
    proof {
        reveal_strlit("artwork/");
        assert("artwork/"@ =~= artwork_prefix());
    }
    match strip_prefix(text, "artwork/") {
        Some(rest) => match parse_index(rest) {
            Some(index) => Request::Artwork(index),
            None => Request::Unanswerable,
        },
        None => Request::Status,
    }
}

/// A reply, as a mathematical value.
pub enum ReplyView {
    Null,
    Text(Seq<char>),
    File(Seq<char>),
    Status(StatusView),
}

/// What to send back for one request.
#[derive(Debug, PartialEq, Eq)]
pub enum Reply {
    /// The text `null`: nothing is available, or nothing has changed.
    Null,
    /// This text, as it is: the source of artwork that the client fetches
    /// itself.
    Text(String),
    /// The bytes of the local file at this path, as a binary message.
    File(String),
    /// The encoding of this snapshot.
    Status(PlayerStatus),
}

impl View for Reply {
    type V = ReplyView;

    open spec fn view(&self) -> ReplyView {
        match self {
            Reply::Null => ReplyView::Null,
            Reply::Text(t) => ReplyView::Text(t@),
            Reply::File(p) => ReplyView::File(p@),
            Reply::Status(s) => ReplyView::Status(s@),
        }
    }
}

/// The reply that carries the artwork with this source: the file's path
/// for a local file, the source itself otherwise.
pub open spec fn artwork_reply(src: Seq<char>) -> ReplyView {
    if starts_with(src, file_scheme()) {
        ReplyView::File(after(src, 7))
    } else {
        ReplyView::Text(src)
    }
}

/// The reply to a request, and the artwork that the connection has been
/// sent last once the reply is out.
pub open spec fn answer(
    last: Option<Seq<char>>,
    request: Request,
    latest: Option<StatusView>,
) -> (ReplyView, Option<Seq<char>>) {
    match request {
        Request::Status => match latest {
            Some(status) => (ReplyView::Status(status), last),
            None => (ReplyView::Null, last),
        },
        Request::Artwork(index) => match latest {
            Some(status) => if index < status.metadata.artwork.len() && last != Some(
                status.metadata.artwork[index as int],
            ) {
                (
                    artwork_reply(status.metadata.artwork[index as int]),
                    Some(status.metadata.artwork[index as int]),
                )
            } else {
                (ReplyView::Null, last)
            },
            None => (ReplyView::Null, last),
        },
        Request::Unanswerable => (ReplyView::Null, last),
    }
}

/// The state of one connection: the artwork it was sent last.
#[derive(Debug)]
pub struct Session {
    last_artwork: Option<ArtworkInfo>,
}

impl View for Session {
    type V = Option<Seq<char>>;

    closed spec fn view(&self) -> Option<Seq<char>> {
        match self.last_artwork {
            Some(a) => Some(a@),
            None => None,
        }
    }
}

/// Builds the reply that carries one piece of artwork.
pub fn reply_with_artwork(artwork: &ArtworkInfo) -> (r: Reply)
    ensures
        r@ == artwork_reply(artwork@),
{
    proof {
        reveal_strlit("file://");
        assert("file://"@ =~= file_scheme());
    }
    match strip_prefix(artwork.src.as_str(), "file://") {
        Some(path) => Reply::File(path.to_owned()),
        None => Reply::Text(artwork.src.clone()),
    }
}

impl Session {
    /// The state of a connection that was sent nothing yet.
    pub fn new() -> (r: Session)
        ensures
            r@ is None,
    {
        Session { last_artwork: None }
    }

    /// The source of the artwork sent last, if any.
    pub fn last_artwork(&self) -> (r: Option<&str>)
        ensures
            r is Some == self@ is Some,
            r is Some ==> r.unwrap()@ == self@.unwrap(),
    {
        match &self.last_artwork {
            Some(a) => Some(a.src.as_str()),
            None => None,
        }
    }

    /// Answers one request against the latest snapshot, and remembers the
    /// artwork that the reply carries.
    pub fn answer_request(&mut self, request: Request, latest: &Option<PlayerStatus>) -> (r: Reply)
        ensures
            (r@, final(self)@) == answer(old(self)@, request, status_view(*latest)),
    {
        match request {
            Request::Status => match latest {
                Some(status) => Reply::Status(status.clone()),
                None => Reply::Null,
            },
            Request::Artwork(index) => {
                let Some(status) = latest else {
                    return Reply::Null;
                };
                if index >= status.metadata.artwork.len() {
                    return Reply::Null;
                }
                let artwork = &status.metadata.artwork[index];
                assert(status@.metadata.artwork[index as int] == artwork@);
                let unchanged = match &self.last_artwork {
                    Some(last) => last.same_as(artwork),
                    None => false,
                };
                if unchanged {
                    return Reply::Null;
                }
                self.last_artwork = Some(artwork.clone());
                reply_with_artwork(artwork)
            },
            Request::Unanswerable => Reply::Null,
        }
    }

    /// Answers one text request against the latest snapshot.
    pub fn respond(&mut self, request: &str, latest: &Option<PlayerStatus>) -> (r: Reply)
        ensures
            (r@, final(self)@) == answer(old(self)@, request_of(request@), status_view(*latest)),
    {
        let request = parse_request(request);
        self.answer_request(request, latest)
    }
}

/// The same artwork asked for twice in a row on one connection, with the
/// snapshot unchanged, is sent the first time and answered with the null
/// reply the second time. The connection must not have been sent that very
/// artwork just before, or the first answer is the null reply already.
pub proof fn lemma_repeated_artwork_is_null(
    last: Option<Seq<char>>,
    text: Seq<char>,
    index: nat,
    latest: StatusView,
)
    requires
        starts_with(text, artwork_prefix()),
        index_value(after(text, 8)) == Some(index),
        index < latest.metadata.artwork.len() <= usize::MAX,
        last != Some(latest.metadata.artwork[index as int]),
    ensures
        ({
            let first = answer(last, request_of(text), Some(latest));
            let second = answer(first.1, request_of(text), Some(latest));
            &&& first.0 == artwork_reply(latest.metadata.artwork[index as int])
            &&& first.0 != ReplyView::Null
            &&& second.0 == ReplyView::Null
            &&& second.1 == first.1
        }),
{
}

/// A request for artwork that names no position of the list, or names any
/// position while the cache is empty, is answered with the null reply and
/// leaves the connection's state alone.
pub proof fn lemma_out_of_range_is_null(
    last: Option<Seq<char>>,
    text: Seq<char>,
    latest: Option<StatusView>,
)
    requires
        starts_with(text, artwork_prefix()),
        latest is Some ==> match index_value(after(text, 8)) {
            Some(index) => index >= latest.unwrap().metadata.artwork.len(),
            None => true,
        },
    ensures
        answer(last, request_of(text), latest) == (ReplyView::Null, last),
{
}

/// While the cache is empty every request, for the status or for artwork,
/// is answered with the null reply.
pub proof fn lemma_empty_cache_is_null(last: Option<Seq<char>>, text: Seq<char>)
    ensures
        answer(last, request_of(text), None) == (ReplyView::Null, last),
{
}

/// A text that does not begin with the artwork prefix, the empty text
/// among them, is a request for the status and is answered with the latest
/// snapshot.
pub proof fn lemma_other_text_asks_for_status(
    last: Option<Seq<char>>,
    text: Seq<char>,
    latest: StatusView,
)
    requires
        !starts_with(text, artwork_prefix()),
    ensures
        answer(last, request_of(text), Some(latest)) == (ReplyView::Status(latest), last),
        request_of(Seq::<char>::empty()) == Request::Status,
{
}

} // verus!
