//! The encodings that the wire format takes from other crates: URLs, query
//! strings and base64. The functions that call into those crates are not
//! proved; each of their contracts says what the function it names is taken
//! to do.

use vstd::prelude::*;
use vstd::string::*;
use vstd::utf8::{encode_utf8, is_ascii_chars, is_ascii_chars_encode_utf8};

use crate::text::decimal;

verus! {

/// The longest target and the longest query string, in bytes, that a request
/// is made of.
pub const MAX_URL_BYTES: usize = 0x0100_0000;

/// The error of `url::Url::parse`, carried through and never looked into.
#[verifier::external_type_specification]
#[verifier::external_body]
pub struct ExParseError(url::ParseError);

/// The serialization of the URL that `url::Url::parse` makes of `text`, or
/// nothing where it refuses the text.
pub uninterp spec fn url_parsed(text: Seq<char>) -> Option<Seq<char>>;

/// The serialization of a URL after `url::Url::set_query` has replaced its
/// query by `query`, where `url` is its serialization before. A parsed URL
/// is what its serialization parses to, so the serialization stands for it.
pub uninterp spec fn query_set(url: Seq<char>, query: Seq<char>) -> Seq<char>;

/// What `rustc_serialize::base64::ToBase64::to_base64` makes of `bytes` under
/// the crate's `STANDARD` configuration.
pub uninterp spec fn base64(bytes: Seq<u8>) -> Seq<char>;

/// Whether a byte stands for itself in a query string: `*`, `-`, `.`, `_`,
/// a digit or a letter of ASCII.
pub open spec fn form_plain(b: u8) -> bool {
    b == 0x2a || b == 0x2d || b == 0x2e || b == 0x5f || 0x30 <= b <= 0x39 || 0x41 <= b <= 0x5a
        || 0x61 <= b <= 0x7a
}

/// The hexadecimal digit of a number below sixteen, in upper case.
pub open spec fn hex_digit(n: int) -> char {
    if n == 0 {
        '0'
    } else if n == 1 {
        '1'
    } else if n == 2 {
        '2'
    } else if n == 3 {
        '3'
    } else if n == 4 {
        '4'
    } else if n == 5 {
        '5'
    } else if n == 6 {
        '6'
    } else if n == 7 {
        '7'
    } else if n == 8 {
        '8'
    } else if n == 9 {
        '9'
    } else if n == 10 {
        'A'
    } else if n == 11 {
        'B'
    } else if n == 12 {
        'C'
    } else if n == 13 {
        'D'
    } else if n == 14 {
        'E'
    } else {
        'F'
    }
}

/// A byte as it stands in a query string: itself where it is plain, `+` for
/// a space, else `%` and its two hexadecimal digits.
pub open spec fn form_byte(b: u8) -> Seq<char> {
    if form_plain(b) {
        seq![b as char]
    } else if b == 0x20 {
        seq!['+']
    } else {
        seq!['%', hex_digit(b as int / 16), hex_digit(b as int % 16)]
    }
}

/// Bytes as they stand in a query string, one after the other.
pub open spec fn form_bytes(bytes: Seq<u8>) -> Seq<char>
    decreases bytes.len(),
{
    if bytes.len() == 0 {
        Seq::<char>::empty()
    } else {
        form_bytes(bytes.drop_last()) + form_byte(bytes.last())
    }
}

/// A name or value as it stands in a query string: its UTF-8 bytes, each
/// written as `form_byte` says.
pub open spec fn form_component(text: Seq<char>) -> Seq<char> {
    form_bytes(encode_utf8(text))
}

/// A pair as it stands in a query string: name, `=`, value.
pub open spec fn form_pair(pair: (Seq<char>, Seq<char>)) -> Seq<char> {
    form_component(pair.0).push('=') + form_component(pair.1)
}

/// A query string: the pairs in order, with `&` between neighbours.
pub open spec fn form_urlencoded(pairs: Seq<(Seq<char>, Seq<char>)>) -> Seq<char>
    decreases pairs.len(),
{
    if pairs.len() == 0 {
        Seq::<char>::empty()
    } else if pairs.len() == 1 {
        form_pair(pairs[0])
    } else {
        form_urlencoded(pairs.drop_last()).push('&') + form_pair(pairs.last())
    }
}

/// The views of a list of pairs of strings.
pub open spec fn pair_views(pairs: Seq<(String, String)>) -> Seq<(Seq<char>, Seq<char>)> {
    pairs.map_values(|pair: (String, String)| (pair.0@, pair.1@))
}

/// Whether a text is made of plain characters only.
pub open spec fn plain_text(text: Seq<char>) -> bool {
    forall|i: int|
        0 <= i < text.len() ==> '\0' <= (#[trigger] text[i]) <= '\u{7f}' && form_plain(
            text[i] as u8,
        )
}

/// Plain bytes stand for themselves.
pub proof fn lemma_plain_bytes(bytes: Seq<u8>)
    requires
        forall|i: int| 0 <= i < bytes.len() ==> form_plain(#[trigger] bytes[i]),
    ensures
        form_bytes(bytes) == Seq::new(bytes.len(), |i: int| bytes[i] as char),
    decreases bytes.len(),
{
    if bytes.len() > 0 {
        let init = bytes.drop_last();
        assert forall|i: int| 0 <= i < init.len() implies form_plain(#[trigger] init[i]) by {
            assert(init[i] == bytes[i]);
        }
        lemma_plain_bytes(init);
        assert(form_bytes(bytes) =~= Seq::new(bytes.len(), |i: int| bytes[i] as char));
    } else {
        assert(form_bytes(bytes) =~= Seq::new(bytes.len(), |i: int| bytes[i] as char));
    }
}

/// A name or value of plain characters is written as it is: `limit` and
/// `10` go out as `limit` and `10`.
pub proof fn lemma_plain_component(text: Seq<char>)
    requires
        plain_text(text),
    ensures
        form_component(text) == text,
{
    assert(is_ascii_chars(text));
    is_ascii_chars_encode_utf8(text);
    let bytes = encode_utf8(text);
    assert forall|i: int| 0 <= i < bytes.len() implies form_plain(#[trigger] bytes[i]) by {
        assert(text[i] as u8 == bytes[i]);
    }
    lemma_plain_bytes(bytes);
    assert forall|i: int| 0 <= i < text.len() implies bytes[i] as char == text[i] by {
        assert(text[i] as u8 == bytes[i]);
        assert('\0' <= text[i] <= '\u{7f}');
    }
    assert(form_component(text) =~= text);
}

/// A decimal numeral is plain text: a number goes out as it is written.
pub proof fn lemma_decimal_is_plain(n: nat)
    ensures
        plain_text(decimal(n)),
    decreases n,
{
    if n >= 10 {
        lemma_decimal_is_plain(n / 10);
        let init = decimal(n / 10);
        let all = decimal(n);
        assert forall|i: int| 0 <= i < all.len() implies '\0' <= (#[trigger] all[i])
            <= '\u{7f}' && form_plain(all[i] as u8) by {
            if i < init.len() {
                assert(all[i] == init[i]);
            }
        }
    }
}

/// Calls `url::Url::parse` and returns the serialization of the URL. The
/// contract claims that the outcome depends on the text alone.
#[verifier::external_body]
pub(crate) fn parse_url(text: &str) -> (r: Result<String, url::ParseError>)
    ensures
        r is Ok <==> url_parsed(text@) is Some,
        r matches Ok(u) ==> url_parsed(text@) == Some(u@),
{
    let url = url::Url::parse(text)?;
    Ok(url.into())
}

/// Calls `url::Url::parse`, then `url::Url::set_query` with `query`, and
/// returns the serialization of the URL. The contract claims that the text
/// is refused exactly where `parse_url` refuses it, since `set_query`
/// refuses nothing, and that the outcome of `set_query` depends on the
/// parsed URL and the query alone. Long texts are kept out because
/// `set_query` counts positions in 32 bits and does not return where they
/// do not fit.
#[verifier::external_body]
pub(crate) fn parse_url_with_query(text: &str, query: &str) -> (r: Result<
    String,
    url::ParseError,
>)
    requires
        text.spec_bytes().len() <= MAX_URL_BYTES,
        query.spec_bytes().len() <= MAX_URL_BYTES,
    ensures
        r is Ok <==> url_parsed(text@) is Some,
        r matches Ok(u) ==> u@ == query_set(url_parsed(text@)->0, query@),
{
    let mut url = url::Url::parse(text)?;
    url.set_query(Some(query));
    Ok(url.into())
}

/// Calls `url::form_urlencoded::Serializer::extend_pairs` on an empty
/// target and returns what `finish` hands back. The crate appends the pairs
/// one by one, each as name, `=`, value, with `&` before every pair but the
/// first. Names and values go through its byte serializer, which lets the
/// plain bytes stand, writes a space as `+` and any other byte as `%` with
/// two hexadecimal digits in upper case.
#[verifier::external_body]
pub(crate) fn encode_query(pairs: &Vec<(String, String)>) -> (r: String)
    ensures
        r@ == form_urlencoded(pair_views(pairs@)),
{
    url::form_urlencoded::Serializer::new(String::new()).extend_pairs(pairs.iter()).finish()
}

/// Calls `rustc_serialize::base64::ToBase64::to_base64` on the bytes of
/// `text` with the crate's `STANDARD` configuration, which pads and does not
/// wrap lines.
#[verifier::external_body]
pub(crate) fn encode_base64(text: &str) -> (r: String)
    ensures
        r@ == base64(text.spec_bytes()),
{
    rustc_serialize::base64::ToBase64::to_base64(
        text.as_bytes(),
        rustc_serialize::base64::STANDARD,
    )
}

} // verus!
