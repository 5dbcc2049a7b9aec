//! A plain model of JSON documents, and the parser that produces it.

use rustc_serialize::json::Json;
use vstd::prelude::*;
use vstd::string::*;
use vstd::utf8::encode_utf8;

verus! {

/// A JSON number as the parser classifies it.
#[derive(Clone, Copy, Debug, PartialEq, Eq, Structural)]
pub enum Number {
    /// An integer held signed: the parser holds the negative ones so.
    Signed(i64),
    /// An integer held unsigned: the parser holds the others so.
    Unsigned(u64),
    /// A number with a fraction or exponent, held as the bit pattern of its
    /// IEEE-754 double. Which double the parser makes of a numeral may
    /// differ from one machine to another.
    Real(u64),
}

/// A JSON document.
#[derive(Debug, PartialEq)]
pub enum JsonValue {
    Null,
    Boolean(bool),
    Number(Number),
    Text(String),
    Array(Vec<JsonValue>),
    /// The members of an object, each name with its value. A parsed
    /// document has every name once, in the order of the names: where the
    /// text repeats a name, the parser keeps the last value. In a document
    /// made otherwise, the first occurrence of a name is the member.
    Object(Vec<(String, JsonValue)>),
}

/// The value of the first member called `name`, if there is one.
pub open spec fn member(members: Seq<(String, JsonValue)>, name: Seq<char>) -> Option<JsonValue>
    decreases members.len(),
{
    if members.len() == 0 {
        None
    } else if members[0].0@ == name {
        Some(members[0].1)
    } else {
        member(members.skip(1), name)
    }
}

/// Whether two documents are the same but for the payload of their real
/// numbers: the same kinds of value in the same places, the same names,
/// texts, booleans and integers, and a real number wherever the other has
/// one.
pub open spec fn alike(a: JsonValue, b: JsonValue) -> bool
    decreases a,
{
    match a {
        JsonValue::Null => b is Null,
        JsonValue::Boolean(x) => b == JsonValue::Boolean(x),
        JsonValue::Number(Number::Real(_)) => b matches JsonValue::Number(Number::Real(_)),
        JsonValue::Number(n) => b == JsonValue::Number(n),
        JsonValue::Text(s) => b matches JsonValue::Text(t) && s@ == t@,
        JsonValue::Array(xs) => b matches JsonValue::Array(ys) && xs@.len() == ys@.len()
            && forall|i: int| 0 <= i < xs@.len() ==> alike(#[trigger] xs@[i], ys@[i]),
        JsonValue::Object(ms) => b matches JsonValue::Object(ns) && ms@.len() == ns@.len()
            && forall|i: int|
            0 <= i < ms@.len() ==> (#[trigger] ms@[i]).0@ == ns@[i].0@ && alike(
                ms@[i].1,
                ns@[i].1,
            ),
    }
}

impl JsonValue {
    /// The member called `name` of an object; nothing for any other value.
    pub open spec fn spec_field(self, name: Seq<char>) -> Option<JsonValue> {
        match self {
            JsonValue::Object(members) => member(members@, name),
            _ => None,
        }
    }

    /// The characters of a text value.
    pub open spec fn spec_text(self) -> Option<Seq<char>> {
        match self {
            JsonValue::Text(s) => Some(s@),
            _ => None,
        }
    }

    /// The elements of an array.
    pub open spec fn spec_items(self) -> Option<Seq<JsonValue>> {
        match self {
            JsonValue::Array(items) => Some(items@),
            _ => None,
        }
    }

    /// An integer value that fits an unsigned word.
    pub open spec fn spec_u64(self) -> Option<u64> {
        match self {
            JsonValue::Number(Number::Unsigned(n)) => Some(n),
            JsonValue::Number(Number::Signed(n)) => if n >= 0 {
                Some(n as u64)
            } else {
                None
            },
            _ => None,
        }
    }

    /// An integer value that fits a signed word.
    pub open spec fn spec_i64(self) -> Option<i64> {
        match self {
            JsonValue::Number(Number::Signed(n)) => Some(n),
            JsonValue::Number(Number::Unsigned(n)) => if n <= i64::MAX {
                Some(n as i64)
            } else {
                None
            },
            _ => None,
        }
    }

    /// Any number.
    pub open spec fn spec_number(self) -> Option<Number> {
        match self {
            JsonValue::Number(n) => Some(n),
            _ => None,
        }
    }

    /// Looks up the member called `name`.
    pub fn field(&self, name: &str) -> (r: Option<&JsonValue>)
        ensures
            match r {
                Some(v) => self.spec_field(name@) == Some(*v),
                None => self.spec_field(name@) is None,
            },
    {
        match self {
            JsonValue::Object(members) => {
                let key = name.to_owned();
                let mut i: usize = 0;
                assert(members@.skip(0) =~= members@);
                while i < members.len()
                    invariant
                        i <= members.len(),
                        key@ == name@,
                        self.spec_field(name@) == member(members@, name@),
                        member(members@, name@) == member(members@.skip(i as int), name@),
                    decreases members.len() - i,
                {
                    let entry = &members[i];
                    let ghost rest = members@.skip(i as int);
                    assert(rest.len() > 0 && rest[0] == members@[i as int]);
                    if entry.0 == key {
                        assert(member(rest, name@) == Some(rest[0].1));
                        return Some(&entry.1);
                    }
                    assert(member(rest, name@) == member(rest.skip(1), name@));
                    assert(members@.skip(i as int).skip(1) =~= members@.skip(i + 1));
                    i = i + 1;
                }
                None
            },
            _ => None,
        }
    }

    /// The text of a text value.
    pub fn as_text(&self) -> (r: Option<&String>)
        ensures
            match r {
                Some(s) => self.spec_text() == Some(s@),
                None => self.spec_text() is None,
            },
    {
        match self {
            JsonValue::Text(s) => Some(s),
            _ => None,
        }
    }

    /// The elements of an array.
    pub fn as_array(&self) -> (r: Option<&Vec<JsonValue>>)
        ensures
            match r {
                Some(items) => self.spec_items() == Some(items@),
                None => self.spec_items() is None,
            },
    {
        match self {
            JsonValue::Array(items) => Some(items),
            _ => None,
        }
    }

    /// The value as an unsigned word, where it is an integer that fits one.
    pub fn as_u64(&self) -> (r: Option<u64>)
        ensures
            r == self.spec_u64(),
    {
        match self {
            JsonValue::Number(Number::Unsigned(n)) => Some(*n),
            JsonValue::Number(Number::Signed(n)) => if *n >= 0 {
                Some(*n as u64)
            } else {
                None
            },
            _ => None,
        }
    }

    /// The value as a signed word, where it is an integer that fits one.
    pub fn as_i64(&self) -> (r: Option<i64>)
        ensures
            r == self.spec_i64(),
    {
        match self {
            JsonValue::Number(Number::Signed(n)) => Some(*n),
            JsonValue::Number(Number::Unsigned(n)) => if *n <= 0x7fff_ffff_ffff_ffffu64 {
                Some(*n as i64)
            } else {
                None
            },
            _ => None,
        }
    }

    /// The value as a number of any kind.
    pub fn as_number(&self) -> (r: Option<Number>)
        ensures
            r == self.spec_number(),
    {
        match self {
            JsonValue::Number(n) => Some(*n),
            _ => None,
        }
    }

    /// Tells whether the value is `null`.
    pub fn is_null(&self) -> (r: bool)
        ensures
            r == (*self is Null),
    {
        match self {
            JsonValue::Null => true,
            _ => false,
        }
    }
}

/// The parser's own tree, `rustc_serialize::json::Json`, which is copied
/// into the model as soon as it is made.
#[verifier::external_type_specification]
#[verifier::external_body]
pub struct ExJson(Json);

/// The error of `rustc_serialize::json::Json::from_str`, carried through and
/// never looked into.
#[verifier::external_type_specification]
#[verifier::external_body]
pub struct ExParserError(rustc_serialize::json::ParserError);

/// What `rustc_serialize::json::Json::from_str` makes of `text`: nothing
/// where it reports an error, else a document that it builds. The crate
/// does not fix the payload of a real number, so this is one of the
/// documents it may build; the others are like it.
pub uninterp spec fn json_parse(text: Seq<char>) -> Option<JsonValue>;

/// Copies a tree of `rustc_serialize::json::Json` into the model, variant by
/// variant. The members of an object come in the order of the crate's map,
/// and a double comes as its bit pattern.
#[verifier::external_body]
fn from_tree(tree: &Json) -> JsonValue {
    match tree {
        Json::Null => JsonValue::Null,
        Json::Boolean(b) => JsonValue::Boolean(*b),
        Json::I64(n) => JsonValue::Number(Number::Signed(*n)),
        Json::U64(n) => JsonValue::Number(Number::Unsigned(*n)),
        Json::F64(x) => JsonValue::Number(Number::Real(x.to_bits())),
        Json::String(s) => JsonValue::Text(s.clone()),
        Json::Array(a) => JsonValue::Array(a.iter().map(from_tree).collect()),
        Json::Object(o) => JsonValue::Object(
            o.iter().map(|(k, v)| (k.clone(), from_tree(v))).collect(),
        ),
    }
}

/// The deepest nesting of arrays and objects that is handed to the parser,
/// which descends one call for every level.
pub const MAX_NESTING: usize = 128;

/// The most digits, leading zeros aside, that an exponent may have in a text
/// that is handed to the parser, which gathers the exponent in a machine
/// word without looking for overflow.
pub const MAX_EXPONENT_DIGITS: usize = 9;

/// The longest name of a member, in bytes as written, in a text that is
/// handed to the parser. The parser keeps the names of the members it is
/// inside of in one buffer that it addresses in sixteen bits; `MAX_NESTING`
/// names of this length stay below that.
pub const MAX_KEY_BYTES: usize = 511;

/// The longest text, in bytes, that is handed to the parser, which counts
/// the elements of an array in thirty-two bits.
pub const MAX_DOCUMENT_BYTES: usize = 0x4000_0000;

/// Where a scan of JSON text stands.
pub struct Scan {
    /// How many arrays and objects are open.
    pub depth: nat,
    /// The most that were open at once.
    pub deepest: nat,
    /// Whether the scan is inside a string.
    pub quoted: bool,
    /// Whether the last byte, inside a string, was an unescaped backslash.
    pub escaped: bool,
    /// Whether the scan is in an exponent: after an `e` or `E` outside a
    /// string, with nothing but a sign and digits since.
    pub exponent: bool,
    /// Whether a sign may still come: the last byte was the `e` or `E`.
    pub signable: bool,
    /// The digits of the exponent so far, leading zeros aside.
    pub digits: nat,
    /// The most digits that any exponent had.
    pub longest: nat,
    /// The bytes of the string that the scan is inside of, so far.
    pub current: nat,
    /// The bytes of the last string, while nothing but whitespace has
    /// followed it; zero otherwise.
    pub pending: nat,
    /// The most bytes that any string had which a colon followed.
    pub key: nat,
    /// Whether the last byte outside strings, whitespace aside, was a comma.
    pub comma: bool,
    /// Whether a closing brace has followed a comma.
    pub dangling: bool,
}

/// The scan before the first byte.
pub open spec fn scan_start() -> Scan {
    Scan {
        depth: 0,
        deepest: 0,
        quoted: false,
        escaped: false,
        exponent: false,
        signable: false,
        digits: 0,
        longest: 0,
        current: 0,
        pending: 0,
        key: 0,
        comma: false,
        dangling: false,
    }
}

/// The larger of two numbers.
pub open spec fn larger(a: nat, b: nat) -> nat {
    if a > b {
        a
    } else {
        b
    }
}

/// Whether a byte is whitespace between the tokens of JSON.
pub open spec fn is_space(b: u8) -> bool {
    b == 0x20 || b == 0x0a || b == 0x09 || b == 0x0d
}

/// The scan after one more byte inside a string: a quote that no backslash
/// escapes ends the string, every other byte is one byte more of it.
pub open spec fn scan_quoted(s: Scan, b: u8) -> Scan {
    if s.escaped {
        Scan { escaped: false, current: s.current + 1, ..s }
    } else if b == 0x5c {
        Scan { escaped: true, current: s.current + 1, ..s }
    } else if b == 0x22 {
        Scan { quoted: false, pending: s.current, ..s }
    } else {
        Scan { current: s.current + 1, ..s }
    }
}

/// The scan after one more byte. Outside strings, whitespace ends an
/// exponent and nothing else. Every `e` or `E` is taken to start an
/// exponent, whether or not a number stands before it; every string that a
/// colon follows is taken for a name; a closing bracket or brace with
/// nothing open changes no depth.
pub open spec fn scan_step(s: Scan, b: u8) -> Scan {
    if s.quoted {
        scan_quoted(s, b)
    } else if is_space(b) {
        Scan { exponent: false, ..s }
    } else {
        let t = Scan { exponent: false, pending: 0, comma: false, ..s };
        if b == 0x65 || b == 0x45 {
            Scan { exponent: true, signable: true, digits: 0, ..t }
        } else if s.exponent && s.signable && (b == 0x2b || b == 0x2d) {
            Scan { exponent: true, signable: false, ..t }
        } else if s.exponent && 0x30 <= b <= 0x39 {
            let digits = if s.digits == 0 && b == 0x30 {
                0
            } else {
                s.digits + 1
            };
            Scan {
                exponent: true,
                signable: false,
                digits,
                longest: larger(s.longest, digits),
                ..t
            }
        } else if b == 0x22 {
            Scan { quoted: true, current: 0, ..t }
        } else if b == 0x3a {
            Scan { key: larger(s.key, s.pending), ..t }
        } else if b == 0x2c {
            Scan { comma: true, ..t }
        } else if b == 0x5b || b == 0x7b {
            Scan { depth: s.depth + 1, deepest: larger(s.deepest, s.depth + 1), ..t }
        } else if b == 0x5d || b == 0x7d {
            Scan {
                depth: if s.depth > 0 {
                    (s.depth - 1) as nat
                } else {
                    0
                },
                dangling: s.dangling || (b == 0x7d && s.comma),
                ..t
            }
        } else {
            t
        }
    }
}

/// The scan after all of `bytes`.
pub open spec fn scan(bytes: Seq<u8>) -> Scan
    decreases bytes.len(),
{
    if bytes.len() == 0 {
        scan_start()
    } else {
        scan_step(scan(bytes.drop_last()), bytes.last())
    }
}

/// What a scan found in a text.
#[derive(Clone, Copy, Debug, PartialEq, Eq, Structural)]
pub struct Measure {
    /// How deep arrays and objects nest, at most.
    pub nesting: usize,
    /// How many digits the longest exponent has.
    pub exponent: usize,
    /// How many bytes the longest name has.
    pub key: usize,
    /// Whether a closing brace follows a comma.
    pub dangling: bool,
}

/// How deep arrays and objects nest in `text`, at most.
pub open spec fn nesting(text: Seq<char>) -> nat {
    scan(encode_utf8(text)).deepest
}

/// How many digits the longest exponent in `text` has, at most.
pub open spec fn exponent_digits(text: Seq<char>) -> nat {
    scan(encode_utf8(text)).longest
}

/// How many bytes the longest name of a member in `text` has, at most, as
/// it is written between its quotes.
pub open spec fn key_bytes(text: Seq<char>) -> nat {
    scan(encode_utf8(text)).key
}

/// Whether a closing brace follows a comma somewhere in `text`, outside
/// strings and whitespace aside. No JSON document has that.
pub open spec fn dangling_comma(text: Seq<char>) -> bool {
    scan(encode_utf8(text)).dangling
}

/// Whether `text` is within what the parser is handed.
pub open spec fn within_limits(text: Seq<char>) -> bool {
    &&& encode_utf8(text).len() <= MAX_DOCUMENT_BYTES
    &&& nesting(text) <= MAX_NESTING
    &&& exponent_digits(text) <= MAX_EXPONENT_DIGITS
    &&& key_bytes(text) <= MAX_KEY_BYTES
    &&& !dangling_comma(text)
}

/// A document that `text` is: one that the parser makes of it, unless the
/// text is beyond the limits. It stands for every document the parser may
/// make of the text; they differ at most in the payload of real numbers.
pub open spec fn json_document(text: Seq<char>) -> Option<JsonValue> {
    if within_limits(text) {
        json_parse(text)
    } else {
        None
    }
}

/// Whether `doc` is an outcome of parsing `text`: nothing where the text is
/// no document, else a document like the one the text is.
pub open spec fn reads(text: Seq<char>, doc: Option<JsonValue>) -> bool {
    match json_document(text) {
        Some(d) => doc matches Some(v) && alike(v, d),
        None => doc is None,
    }
}

/// Measures `text`: the nesting of its arrays and objects, its longest
/// exponent, its longest name, and whether a comma dangles before a brace.
pub fn measure(text: &str) -> (r: Measure)
    ensures
        r.nesting == nesting(text@),
        r.exponent == exponent_digits(text@),
        r.key == key_bytes(text@),
        r.dangling == dangling_comma(text@),
{
    let bytes = text.as_bytes();
    let mut depth: usize = 0;
    let mut deepest: usize = 0;
    let mut quoted = false;
    let mut escaped = false;
    let mut exponent = false;
    let mut signable = false;
    let mut digits: usize = 0;
    let mut longest: usize = 0;
    let mut current: usize = 0;
    let mut pending: usize = 0;
    let mut key: usize = 0;
    let mut comma = false;
    let mut dangling = false;
    let mut i: usize = 0;
    assert(bytes@.take(0) =~= Seq::<u8>::empty());
    while i < bytes.len()
        invariant
            i <= bytes.len(),
            bytes@ == encode_utf8(text@),
            depth <= deepest <= i,
            digits <= longest <= i,
            current <= i,
            pending <= i,
            key <= i,
            scan(bytes@.take(i as int)) == (Scan {
                depth: depth as nat,
                deepest: deepest as nat,
                quoted,
                escaped,
                exponent,
                signable,
                digits: digits as nat,
                longest: longest as nat,
                current: current as nat,
                pending: pending as nat,
                key: key as nat,
                comma,
                dangling,
            }),
        decreases bytes.len() - i,
    {
        let b = bytes[i];
        proof {
            let next = bytes@.take(i + 1);
            assert(next.drop_last() =~= bytes@.take(i as int));
            assert(next.last() == b);
        }
        if quoted {
            if escaped {
                escaped = false;
                current = current + 1;
            } else if b == 0x5c {
                escaped = true;
                current = current + 1;
            } else if b == 0x22 {
                quoted = false;
                pending = current;
            } else {
                current = current + 1;
            }
        } else if b == 0x20 || b == 0x0a || b == 0x09 || b == 0x0d {
            exponent = false;
        } else {
            let was_exponent = exponent;
            let was_pending = pending;
            let was_comma = comma;
            exponent = false;
            pending = 0;
            comma = false;
            if b == 0x65 || b == 0x45 {
                exponent = true;
                signable = true;
                digits = 0;
            } else if was_exponent && signable && (b == 0x2b || b == 0x2d) {
                exponent = true;
                signable = false;
            } else if was_exponent && 0x30 <= b && b <= 0x39 {
                exponent = true;
                signable = false;
                if !(digits == 0 && b == 0x30) {
                    digits = digits + 1;
                }
                if digits > longest {
                    longest = digits;
                }
            } else if b == 0x22 {
                quoted = true;
                current = 0;
            } else if b == 0x3a {
                if was_pending > key {
                    key = was_pending;
                }
            } else if b == 0x2c {
                comma = true;
            } else if b == 0x5b || b == 0x7b {
                depth = depth + 1;
                if depth > deepest {
                    deepest = depth;
                }
            } else if b == 0x5d || b == 0x7d {
                if depth > 0 {
                    depth = depth - 1;
                }
                if b == 0x7d && was_comma {
                    dangling = true;
                }
            }
        }
        i = i + 1;
    }
    assert(bytes@.take(bytes.len() as int) =~= bytes@);
    Measure { nesting: deepest, exponent: longest, key, dangling }
}

/// Tells whether `text` is within what the parser is handed.
pub fn is_within_limits(text: &str) -> (r: bool)
    ensures
        r == within_limits(text@),
{
    if text.as_bytes().len() > MAX_DOCUMENT_BYTES {
        return false;
    }
    let found = measure(text);
    found.nesting <= MAX_NESTING && found.exponent <= MAX_EXPONENT_DIGITS && found.key
        <= MAX_KEY_BYTES && !found.dangling
}

/// Calls `rustc_serialize::json::Json::from_str` and hands the tree over in
/// the model. The contract claims that whether the text is a document, and
/// which one but for the payload of its real numbers, depends on the text
/// alone; of a real number it claims only that it is one, since the crate
/// computes it with `powi`. The limits keep out the texts on which the
/// crate does not return:
/// - deep nesting, because its builder calls itself once for every open
///   array or object;
/// - long exponents, because it gathers them in a machine word without
///   looking for overflow;
/// - a comma before a closing brace, because it then takes one element too
///   many off its stack and goes on in the wrong place;
/// - long names, because it addresses the names it is inside of in sixteen
///   bits;
/// - long texts, because it counts the elements of an array in thirty-two
///   bits.
#[verifier::external_body]
fn parse_tree(text: &str) -> (r: Result<JsonValue, rustc_serialize::json::ParserError>)
    requires
        encode_utf8(text@).len() <= MAX_DOCUMENT_BYTES,
        nesting(text@) <= MAX_NESTING,
        exponent_digits(text@) <= MAX_EXPONENT_DIGITS,
        key_bytes(text@) <= MAX_KEY_BYTES,
        !dangling_comma(text@),
    ensures
        r is Ok <==> json_parse(text@) is Some,
        r matches Ok(v) ==> alike(v, json_parse(text@)->0),
{
    match Json::from_str(text) {
        Ok(tree) => Ok(from_tree(&tree)),
        Err(e) => Err(e),
    }
}

/// Parses JSON text. Returns nothing where the text is not one JSON
/// document, or is beyond a limit: `MAX_DOCUMENT_BYTES`, `MAX_NESTING`,
/// `MAX_EXPONENT_DIGITS` or `MAX_KEY_BYTES`.
pub fn parse(text: &str) -> (r: Option<JsonValue>)
    ensures
        reads(text@, r),
{
    if is_within_limits(text) {
        match parse_tree(text) {
            Ok(v) => Some(v),
            Err(_) => None,
        }
    } else {
        None
    }
}

/// Two lists of members that are alike hold, under every name, members that
/// are alike.
pub proof fn lemma_alike_member(
    ms: Seq<(String, JsonValue)>,
    ns: Seq<(String, JsonValue)>,
    name: Seq<char>,
)
    requires
        ms.len() == ns.len(),
        forall|i: int|
            0 <= i < ms.len() ==> (#[trigger] ms[i]).0@ == ns[i].0@ && alike(ms[i].1, ns[i].1),
    ensures
        match member(ms, name) {
            Some(x) => member(ns, name) matches Some(y) && alike(x, y),
            None => member(ns, name) is None,
        },
    decreases ms.len(),
{
    if ms.len() > 0 {
        assert(ms[0].0@ == ns[0].0@ && alike(ms[0].1, ns[0].1));
        if ms[0].0@ != name {
            let mt = ms.skip(1);
            let nt = ns.skip(1);
            assert forall|i: int| 0 <= i < mt.len() implies (#[trigger] mt[i]).0@ == nt[i].0@
                && alike(mt[i].1, nt[i].1) by {
                assert(mt[i] == ms[i + 1]);
                assert(nt[i] == ns[i + 1]);
            }
            lemma_alike_member(mt, nt, name);
        }
    }
}

/// Documents that are alike hold, under every name, members that are alike,
/// and the same text where they are text.
pub proof fn lemma_alike_field(a: JsonValue, b: JsonValue, name: Seq<char>)
    requires
        alike(a, b),
    ensures
        match a.spec_field(name) {
            Some(x) => b.spec_field(name) matches Some(y) && alike(x, y),
            None => b.spec_field(name) is None,
        },
        a.spec_text() == b.spec_text(),
{
    match a {
        JsonValue::Object(ms) => {
            match b {
                JsonValue::Object(ns) => {
                    lemma_alike_member(ms@, ns@, name);
                },
                _ => {},
            }
        },
        _ => {},
    }
}

/// Documents that are alike are the same integer, the same `null`, or
/// arrays of as many elements that are alike one by one.
pub proof fn lemma_alike_values(a: JsonValue, b: JsonValue)
    requires
        alike(a, b),
    ensures
        a.spec_i64() == b.spec_i64(),
        a.spec_u64() == b.spec_u64(),
        (a is Null) == (b is Null),
        match a.spec_items() {
            Some(xs) => b.spec_items() matches Some(ys) && xs.len() == ys.len() && forall|i: int|
                0 <= i < xs.len() ==> alike(#[trigger] xs[i], ys[i]),
            None => b.spec_items() is None,
        },
{
}

} // verus!
