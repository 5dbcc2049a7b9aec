//! The address of one version of a document.

use vstd::prelude::*;

use crate::error::DecodeError;
use crate::json::{alike, lemma_alike_field, member, JsonValue};
use crate::RepresentsJSON;
use crate::text::{free_of, join, lemma_split_join, split, split_segments, views};

verus! {

/// Identifies a document, and one version of it once `ref_` is known.
#[derive(Clone, Debug, PartialEq, Eq)]
pub struct Path {
    pub collection: String,
    pub key: String,
    pub ref_: Option<String>,
}

/// A `Path` as plain text.
pub struct PathView {
    pub collection: Seq<char>,
    pub key: Seq<char>,
    pub ref_: Option<Seq<char>>,
}

impl View for Path {
    type V = PathView;

    open spec fn view(&self) -> PathView {
        PathView {
            collection: self.collection@,
            key: self.key@,
            ref_: match self.ref_ {
                Some(r) => Some(r@),
                None => None,
            },
        }
    }
}

/// The path segment that introduces a version in a `Location` header.
pub open spec fn refs_marker() -> Seq<char> {
    seq!['r', 'e', 'f', 's']
}

/// The largest index `i` with `1 <= i < upto` at which `pieces` holds the
/// version marker.
pub open spec fn marker_before(pieces: Seq<Seq<char>>, upto: int) -> Option<int>
    decreases upto,
{
    if upto <= 1 {
        None
    } else if pieces[upto - 1] == refs_marker() {
        Some(upto - 1)
    } else {
        marker_before(pieces, upto - 1)
    }
}

/// The key and ref that a location names: the segments on either side of the
/// last `refs` segment that has a segment after it, both non-empty. The
/// position is found by the marker, not counted from the start, so a longer
/// or shorter prefix changes nothing.
pub open spec fn location_identity(location: Seq<char>) -> Option<(Seq<char>, Seq<char>)> {
    let pieces = split(location, '/');
    match marker_before(pieces, pieces.len() - 1) {
        Some(i) => if pieces[i - 1].len() > 0 && pieces[i + 1].len() > 0 {
            Some((pieces[i - 1], pieces[i + 1]))
        } else {
            None
        },
        None => None,
    }
}

/// Reads key and ref out of a `Location` or `Content-Location` value.
pub fn parse_location(location: &str) -> (r: Option<(String, String)>)
    ensures
        match r {
            Some((key, ref_)) => location_identity(location@) == Some((key@, ref_@)),
            None => location_identity(location@) is None,
        },
{
    let pieces = split_segments(location, '/');
    proof {
        reveal_strlit("refs");
        crate::text::lemma_split_nonempty(location@, '/');
    }
    let marker = "refs".to_owned();
    assert(marker@ =~= refs_marker());
    let mut upto: usize = pieces.len() - 1;
    while upto > 1
        invariant
            upto <= pieces.len() - 1,
            views(pieces@) == split(location@, '/'),
            marker@ == refs_marker(),
            marker_before(views(pieces@), pieces.len() - 1) == marker_before(
                views(pieces@),
                upto as int,
            ),
        decreases upto,
    {
        let i = upto - 1;
        assert(views(pieces@)[i as int] == pieces@[i as int]@);
        if pieces[i] == marker {
            assert(views(pieces@)[i - 1] == pieces@[i - 1]@);
            assert(views(pieces@)[i + 1] == pieces@[i + 1]@);
            if pieces[i - 1].as_str().unicode_len() > 0 && pieces[i + 1].as_str().unicode_len()
                > 0 {
                return Some((pieces[i - 1].clone(), pieces[i + 1].clone()));
            } else {
                return None;
            }
        }
        upto = upto - 1;
    }
    None
}

/// Finding the identity undoes writing it: a location made of any prefix
/// segments, then collection, key, the marker and the ref, names that key
/// and that ref.
pub proof fn lemma_location_round_trip(
    prefix: Seq<Seq<char>>,
    collection: Seq<char>,
    key: Seq<char>,
    ref_: Seq<char>,
)
    requires
        forall|i: int| 0 <= i < prefix.len() ==> free_of(#[trigger] prefix[i], '/'),
        free_of(collection, '/'),
        free_of(key, '/'),
        free_of(ref_, '/'),
        key.len() > 0,
        ref_.len() > 0,
    ensures
        location_identity(
            join(prefix + seq![collection, key, refs_marker(), ref_], '/'),
        ) == Some((key, ref_)),
{
    let pieces = prefix + seq![collection, key, refs_marker(), ref_];
    assert forall|i: int| 0 <= i < pieces.len() implies free_of(#[trigger] pieces[i], '/') by {
        if i < prefix.len() {
            assert(pieces[i] == prefix[i]);
        }
    }
    lemma_split_join(pieces, '/');
    let n = pieces.len() as int;
    assert(pieces[n - 2] == refs_marker());
    assert(marker_before(pieces, n - 1) == Some(n - 2));
    assert(pieces[n - 3] == key);
    assert(pieces[n - 1] == ref_);
}

/// The text that a member holds, where the member is there and is text.
pub open spec fn text_member(value: JsonValue, name: Seq<char>) -> Option<String> {
    match value.spec_field(name) {
        Some(JsonValue::Text(s)) => Some(s),
        _ => None,
    }
}

/// The text that an optional member holds: nothing where the member is
/// missing or `null`, the text where it is text. Any other value is a
/// mismatch, the outer `None`.
pub open spec fn optional_text_member(value: JsonValue, name: Seq<char>) -> Option<Option<String>> {
    match value.spec_field(name) {
        None => Some(None),
        Some(JsonValue::Null) => Some(None),
        Some(JsonValue::Text(s)) => Some(Some(s)),
        _ => None,
    }
}

/// Reads a text member.
pub fn read_text(value: &JsonValue, name: &str) -> (r: Option<String>)
    ensures
        r == text_member(*value, name@),
{
    match value.field(name) {
        Some(JsonValue::Text(s)) => Some(s.clone()),
        _ => None,
    }
}

/// Reads a text member that may be missing or `null`.
pub fn read_optional_text(value: &JsonValue, name: &str) -> (r: Option<Option<String>>)
    ensures
        r == optional_text_member(*value, name@),
{
    match value.field(name) {
        None => Some(None),
        Some(JsonValue::Null) => Some(None),
        Some(JsonValue::Text(s)) => Some(Some(s.clone())),
        _ => None,
    }
}

impl RepresentsJSON for Path {
    open spec fn represents(value: JsonValue, out: Option<Path>) -> bool {
        out == Path::decoded(value)
    }

    fn from_json(value: &JsonValue) -> (r: Option<Path>) {
        let collection = read_text(value, "collection");
        let key = read_text(value, "key");
        let ref_ = read_optional_text(value, "ref");
        let r = match (collection, key, ref_) {
            (Some(collection), Some(key), Some(ref_)) => Some(Path { collection, key, ref_ }),
            _ => None,
        };
        assert(Path::represents(*value, r));
        r
    }
}

impl Path {
    /// The address that a JSON value stands for: an object with text members
    /// `collection` and `key`, and a member `ref` that is text, `null` or
    /// missing.
    pub open spec fn decoded(value: JsonValue) -> Option<Path> {
        match (
            text_member(value, "collection"@),
            text_member(value, "key"@),
            optional_text_member(value, "ref"@),
        ) {
            (Some(collection), Some(key), Some(ref_)) => Some(Path { collection, key, ref_ }),
            _ => None,
        }
    }

    /// Reads an address out of a JSON object.
    pub fn decode(value: &JsonValue) -> (r: Result<Path, DecodeError>)
        ensures
            match r {
                Ok(path) => Path::decoded(*value) == Some(path),
                Err(e) => e == DecodeError::Shape && Path::decoded(*value) is None,
            },
    {
        match Path::from_json(value) {
            Some(path) => Ok(path),
            None => Err(DecodeError::Shape),
        }
    }

    /// Writes the address as a JSON object with the members `collection`,
    /// `key` and `ref`, in this order; an unknown ref is written as `null`.
    pub fn encode(&self) -> (r: JsonValue)
        ensures
            r matches JsonValue::Object(members) && {
                &&& members@.len() == 3
                &&& members@[0].0@ == "collection"@
                &&& members@[0].1 == JsonValue::Text(self.collection)
                &&& members@[1].0@ == "key"@
                &&& members@[1].1 == JsonValue::Text(self.key)
                &&& members@[2].0@ == "ref"@
                &&& members@[2].1 == match self.ref_ {
                    Some(r) => JsonValue::Text(r),
                    None => JsonValue::Null,
                }
            },
            Path::decoded(r) == Some(*self),
    {
        let mut members: Vec<(String, JsonValue)> = Vec::new();
        members.push(("collection".to_owned(), JsonValue::Text(self.collection.clone())));
        members.push(("key".to_owned(), JsonValue::Text(self.key.clone())));
        let version = match &self.ref_ {
            Some(r) => JsonValue::Text(r.clone()),
            None => JsonValue::Null,
        };
        members.push(("ref".to_owned(), version));
        proof {
            reveal_strlit("collection");
            reveal_strlit("key");
            reveal_strlit("ref");
            let m = members@;
            assert(m.skip(1)[0] == m[1]);
            assert(m.skip(1).skip(1)[0] == m[2]);
            assert("collection"@.len() == 10 && "key"@.len() == 3 && "ref"@.len() == 3);
            assert("key"@[0] == 'k' && "ref"@[0] == 'r');
            assert("collection"@ != "key"@);
            assert("collection"@ != "ref"@);
            assert("key"@ != "ref"@);
            assert(member(m, "collection"@) == Some(m[0].1));
            assert(member(m.skip(1), "key"@) == Some(m[1].1));
            assert(member(m, "key"@) == Some(m[1].1));
            assert(member(m.skip(1).skip(1), "ref"@) == Some(m[2].1));
            assert(member(m.skip(1), "ref"@) == Some(m[2].1));
            assert(member(m, "ref"@) == Some(m[2].1));
        }
        JsonValue::Object(members)
    }
}

/// The ref of an address once a reply has named one: a ref that was known
/// stays, and only an unknown one is filled in.
pub open spec fn settled_ref(known: Option<Seq<char>>, found: Option<Seq<char>>) -> Option<
    Seq<char>,
> {
    if known is Some {
        known
    } else {
        found
    }
}

impl Path {
    /// Fills in the ref that a reply names, unless the address has one.
    pub fn with_ref(self, found: Option<String>) -> (r: Path)
        ensures
            r@.collection == self@.collection,
            r@.key == self@.key,
            r@.ref_ == settled_ref(
                self@.ref_,
                match found {
                    Some(f) => Some(f@),
                    None => None,
                },
            ),
    {
        let ref_ = match self.ref_ {
            Some(known) => Some(known),
            None => found,
        };
        Path { collection: self.collection, key: self.key, ref_ }
    }
}

/// Documents that are alike stand for the same address, or for none.
pub proof fn lemma_alike_path(p: JsonValue, q: JsonValue)
    requires
        alike(p, q),
    ensures
        match Path::decoded(p) {
            Some(x) => Path::decoded(q) matches Some(y) && x@ == y@,
            None => Path::decoded(q) is None,
        },
{
    lemma_alike_field(p, q, "collection"@);
    lemma_alike_field(p, q, "key"@);
    lemma_alike_field(p, q, "ref"@);
    lemma_alike_text_member(p, q, "collection"@);
    lemma_alike_text_member(p, q, "key"@);
    lemma_alike_text_member(p, q, "ref"@);
}

/// Documents that are alike hold the same text under every name.
pub proof fn lemma_alike_text_member(p: JsonValue, q: JsonValue, name: Seq<char>)
    requires
        alike(p, q),
    ensures
        match text_member(p, name) {
            Some(s) => text_member(q, name) matches Some(t) && s@ == t@,
            None => text_member(q, name) is None,
        },
        match optional_text_member(p, name) {
            Some(Some(s)) => optional_text_member(q, name) matches Some(Some(t)) && s@ == t@,
            Some(None) => optional_text_member(q, name) == Some(None::<String>),
            None => optional_text_member(q, name) is None,
        },
{
    lemma_alike_field(p, q, name);
    match p.spec_field(name) {
        Some(x) => {
            let y = q.spec_field(name)->0;
            lemma_alike_field(x, y, name);
        },
        None => {},
    }
}

} // verus!
