//! Parsed HTTP responses and their classification by content type.

use vstd::prelude::*;
use vstd::utf8::{
    decode_utf8, encode_utf8, encode_utf8_decode_utf8, encode_utf8_valid_utf8, valid_utf8,
};
use crate::text::{chars_of, contains, equal_ignoring_case, includes, lowered, occurs_at};

verus! {

/// The coarse kind of a response's payload.
#[derive(Clone, Copy, Debug, PartialEq, Eq, Structural)]
pub enum ContentCategory {
    Html,
    Json,
    Other,
}

/// One header line of a response.
#[derive(Clone, Debug, PartialEq, Eq)]
pub struct Header {
    pub name: String,
    pub value: Vec<u8>,
}

/// A response as the HTTP parser hands it over: its header lines in the
/// order in which they arrived, and its body if it has one.
#[derive(Clone, Debug, PartialEq, Eq)]
pub struct ParsedHttpMessage {
    pub headers: Vec<Header>,
    pub body: Option<Vec<u8>>,
}

/// Why the HTTP parser gave up on a buffer.
#[derive(Clone, Debug, PartialEq, Eq)]
pub struct HttpParseError {
    pub description: String,
}

/// A response over plain values: its headers as a mapping from names in
/// lower case to values, and its body.
pub struct MessageModel {
    pub headers: Map<Seq<char>, Seq<u8>>,
    pub body: Option<Seq<u8>>,
}

/// The mapping that a run of header lines stands for.  Names are compared
/// without regard to ASCII case, and of two lines with one name the later
/// one counts.
pub open spec fn header_map(headers: Seq<Header>) -> Map<Seq<char>, Seq<u8>>
    decreases headers.len(),
{
    if headers.len() == 0 {
        Map::empty()
    } else {
        header_map(headers.drop_last()).insert(
            lowered(headers.last().name@),
            headers.last().value@,
        )
    }
}

impl View for ParsedHttpMessage {
    type V = MessageModel;

    open spec fn view(&self) -> MessageModel {
        MessageModel {
            headers: header_map(self.headers@),
            body: match self.body {
                Some(bytes) => Some(bytes@),
                None => None,
            },
        }
    }
}

/// The value of the header called `name`, whatever the case of its
/// letters.
pub open spec fn header_value(message: MessageModel, name: Seq<char>) -> Option<Seq<u8>> {
    if message.headers.contains_key(lowered(name)) {
        Some(message.headers[lowered(name)])
    } else {
        None
    }
}

/// What `String::from_utf8_lossy` makes of bytes that are not UTF-8.
pub uninterp spec fn lossy_text(bytes: Seq<u8>) -> Seq<char>;

/// The text that bytes stand for: their decoding where they are UTF-8,
/// and otherwise the text in which each invalid sequence has given way to
/// the replacement character.
pub open spec fn decoded(bytes: Seq<u8>) -> Seq<char> {
    if valid_utf8(bytes) {
        decode_utf8(bytes)
    } else {
        lossy_text(bytes)
    }
}

/// Calls `String::from_utf8_lossy`.  Bytes that are UTF-8 come back as the
/// text they encode; for any others the result is a function of the bytes
/// alone and is named by `lossy_text`.
#[verifier::external_body]
pub(crate) fn decode_lossy(bytes: &[u8]) -> (text: String)
    ensures
        text@ == if valid_utf8(bytes@) {
            decode_utf8(bytes@)
        } else {
            lossy_text(bytes@)
        },
{
    String::from_utf8_lossy(bytes).into_owned()
}

/// The category that a content type stands for: `Html` where it mentions
/// `text/html`, else `Json` where it mentions `application/json`, else
/// `Other`.
pub open spec fn category_of(content_type: Seq<char>) -> ContentCategory {
    if contains(content_type, "text/html"@) {
        ContentCategory::Html
    } else if contains(content_type, "application/json"@) {
        ContentCategory::Json
    } else {
        ContentCategory::Other
    }
}

/// The category of a response: that of its `Content-Type` header, and
/// `Other` where it has none.
pub open spec fn message_category(message: MessageModel) -> ContentCategory {
    match header_value(message, "Content-Type"@) {
        Some(value) => category_of(decoded(value)),
        None => ContentCategory::Other,
    }
}

/// The body of a response as text; empty where it has no body.
pub open spec fn message_body(message: MessageModel) -> Seq<char> {
    match message.body {
        Some(bytes) => decoded(bytes),
        None => Seq::empty(),
    }
}

/// The category and body text of what the parser returned.  A buffer
/// that the parser rejected is `Other`, with the parser's complaint for
/// a body.
pub open spec fn classification(parsed: Result<ParsedHttpMessage, HttpParseError>) -> (
    ContentCategory,
    Seq<char>,
) {
    match parsed {
        Ok(message) => (message_category(message@), message_body(message@)),
        Err(error) => (ContentCategory::Other, error.description@),
    }
}

/// The position of the last header line whose name is `key` once lowered.
pub open spec fn last_named(headers: Seq<Header>, key: Seq<char>) -> Option<int>
    decreases headers.len(),
{
    if headers.len() == 0 {
        None
    } else if lowered(headers.last().name@) == key {
        Some(headers.len() - 1)
    } else {
        last_named(headers.drop_last(), key)
    }
}

/// A name is in the mapping exactly when some line has it, and the last
/// such line gives its value.
pub proof fn lemma_header_map(headers: Seq<Header>, key: Seq<char>)
    ensures
        match last_named(headers, key) {
            Some(i) => {
                &&& 0 <= i < headers.len()
                &&& lowered(headers[i].name@) == key
                &&& header_map(headers).contains_key(key)
                &&& header_map(headers)[key] == headers[i].value@
            },
            None => !header_map(headers).contains_key(key),
        },
    decreases headers.len(),
{
    if headers.len() > 0 {
        lemma_header_map(headers.drop_last(), key);
    }
}

impl ParsedHttpMessage {
    /// Looks up a header by name, without regard to the case of letters.
    /// Of several lines with that name the last one counts.
    pub fn header(&self, name: &str) -> (value: Option<&Vec<u8>>)
        ensures
            match value {
                Some(bytes) => header_value(self@, name@) == Some(bytes@),
                None => header_value(self@, name@) is None,
            },
    {
        let wanted = chars_of(name);
        let mut i: usize = self.headers.len();
        assert(self.headers@.take(i as int) =~= self.headers@);
        while i > 0
            invariant
                i <= self.headers.len(),
                wanted@ == name@,
                last_named(self.headers@, lowered(name@)) == last_named(
                    self.headers@.take(i as int),
                    lowered(name@),
                ),
            decreases i,
        {
            i -= 1;
            let candidate = chars_of(self.headers[i].name.as_str());
            assert(self.headers@.take(i + 1).last() == self.headers@[i as int]);
            assert(self.headers@.take(i + 1).drop_last() =~= self.headers@.take(i as int));
            if equal_ignoring_case(&candidate, &wanted) {
                proof {
                    lemma_header_map(self.headers@, lowered(name@));
                }
                return Some(&self.headers[i].value);
            }
        }
        proof {
            lemma_header_map(self.headers@, lowered(name@));
        }
        None
    }
}

/// Tells the category that a content type stands for.
pub fn category_of_content_type(content_type: &str) -> (category: ContentCategory)
    ensures
        category == category_of(content_type@),
{
    let chars = chars_of(content_type);
    let html = chars_of("text/html");
    let json = chars_of("application/json");
    if includes(&chars, &html) {
        ContentCategory::Html
    } else if includes(&chars, &json) {
        ContentCategory::Json
    } else {
        ContentCategory::Other
    }
}

/// Classifies what the parser returned, and gives the body as text.
pub fn classify(parsed: &Result<ParsedHttpMessage, HttpParseError>) -> (res: (
    ContentCategory,
    String,
))
    ensures
        res.0 == classification(*parsed).0,
        res.1@ == classification(*parsed).1,
        parsed matches Err(error) ==> res.0 == ContentCategory::Other && res.1@
            == error.description@,
        parsed matches Ok(message) && header_value(message@, "Content-Type"@) is None ==> res.0
            == ContentCategory::Other,
{
    match parsed {
        Ok(message) => {
            let category = match message.header("Content-Type") {
                Some(value) => {
                    let content_type = decode_lossy(value.as_slice());
                    category_of_content_type(content_type.as_str())
                },
                None => ContentCategory::Other,
            };
            let body = match &message.body {
                Some(bytes) => decode_lossy(bytes.as_slice()),
                None => String::new(),
            };
            (category, body)
        },
        Err(error) => (ContentCategory::Other, error.description.clone()),
    }
}

/// A content type that begins with `application/json` stands for `Json`
/// whatever parameters follow the media type, unless they mention
/// `text/html`.
pub proof fn lemma_json_with_parameters(parameters: Seq<char>)
    requires
        !contains("application/json"@ + parameters, "text/html"@),
    ensures
        category_of("application/json"@ + parameters) == ContentCategory::Json,
{
    let json = "application/json"@;
    assert((json + parameters).subrange(0, json.len() as int) =~= json);
    assert(occurs_at(json + parameters, json, 0));
}

/// A content type of `application/json; charset=utf-8` stands for `Json`:
/// the parameter after the media type does not matter.
pub proof fn lemma_json_with_charset_is_json()
    ensures
        category_of("application/json; charset=utf-8"@) == ContentCategory::Json,
{
    let text = "application/json; charset=utf-8"@;
    let html = "text/html"@;
    let json = "application/json"@;
    reveal_strlit("application/json; charset=utf-8");
    reveal_strlit("text/html");
    reveal_strlit("application/json");
    assert(text.subrange(0, 16) =~= json);
    assert(occurs_at(text, json, 0));
    assert forall|at: int| !occurs_at(text, html, at) by {
        if occurs_at(text, html, at) {
            let part = text.subrange(at, at + 9);
            assert(part[0] == html[0]);
            assert(part[1] == html[1]);
        }
    }
}

/// Every response whose `Content-Type` header reads
/// `application/json; charset=utf-8` is of category `Json`.
pub proof fn lemma_json_header_with_charset(message: MessageModel)
    requires
        header_value(message, "Content-Type"@) == Some(
            encode_utf8("application/json; charset=utf-8"@),
        ),
    ensures
        message_category(message) == ContentCategory::Json,
{
    let text = "application/json; charset=utf-8"@;
    encode_utf8_valid_utf8(text);
    encode_utf8_decode_utf8(text);
    lemma_json_with_charset_is_json();
}

} // verus!
