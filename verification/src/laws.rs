//! What holds across operations, stated over the same spec functions as the
//! contracts of the operations themselves.

use vstd::prelude::*;

use crate::client::{
    authorization, content_length, final_headers, header_value, optional_view, planned,
    refusal, reserved, turned, url_text, version_text, ClientView, Response,
};
use crate::error::{DecodeError, OrchestrateError};
use crate::interpret::{confirms, documents_as, reads_as};
use crate::json::{
    alike, json_document, lemma_alike_field, lemma_alike_values, reads, JsonValue,
};
use crate::key_value::{
    count_member, creates, gets, results_member, updates, KVResult, KVResults, KeyValueResult,
    PathResult,
};
use crate::path::{
    lemma_alike_path, lemma_location_round_trip, optional_text_member, refs_marker, settled_ref,
    PathView,
};
use crate::text::{free_of, join, same_ignoring_case, without_prefix};
use crate::wire::{form_pair, form_urlencoded, lemma_plain_component, query_set, url_parsed};
use crate::RepresentsJSON;

verus! {

/// The location that the store gives a version of a document: any prefix
/// segments, then collection, key, `refs` and the ref, with slashes between.
pub open spec fn location_of(
    prefix: Seq<Seq<char>>,
    collection: Seq<char>,
    key: Seq<char>,
    ref_: Seq<char>,
) -> Seq<char> {
    join(prefix + seq![collection, key, refs_marker(), ref_], '/')
}

/// Whether the texts can stand as segments of a location: none holds a
/// slash, and key and ref are not empty.
pub open spec fn addressable(
    prefix: Seq<Seq<char>>,
    collection: Seq<char>,
    key: Seq<char>,
    ref_: Seq<char>,
) -> bool {
    &&& forall|i: int| 0 <= i < prefix.len() ==> free_of(#[trigger] prefix[i], '/')
    &&& free_of(collection, '/')
    &&& free_of(key, '/')
    &&& free_of(ref_, '/')
    &&& key.len() > 0
    &&& ref_.len() > 0
}

/// Create, then get. Where the store answers a create with status 201 and
/// the location of the new version, the create returns the address of that
/// version. Where the store then answers the read of that collection and key
/// with status 200 and the document that was sent, the read returns a value
/// that this document stands for, under that collection and key; it fails
/// only where the document stands for no value of the type asked for. The
/// document is the one that was sent but for the payload of its real
/// numbers, which the parser does not fix.
pub proof fn lemma_create_then_get<T: RepresentsJSON>(
    prefix: Seq<Seq<char>>,
    collection: Seq<char>,
    key: Seq<char>,
    ref_: Seq<char>,
    document: Seq<char>,
    created: Response,
    made: PathResult,
    served: Response,
    got: KeyValueResult<T>,
)
    requires
        addressable(prefix, collection, key, ref_),
        created.status == 201,
        header_value(created.headers@, "Location"@) == Some(
            location_of(prefix, collection, key, ref_),
        ),
        creates(collection, created, made),
        json_document(document) is Some,
        served.status == 200,
        served.body@ == document,
        gets::<T>(collection, key, None, served, got),
    ensures
        made matches Ok(path) && path@ == (PathView { collection, key, ref_: Some(ref_) }),
        match got {
            Ok(res) => res.path@.collection == collection && res.path@.key == key && exists|
                doc: JsonValue,
            |
                #[trigger] alike(doc, json_document(document)->0) && T::represents(
                    doc,
                    Some(res.value),
                ),
            Err(e) => e == OrchestrateError::JsonError(DecodeError::Shape) && exists|
                doc: JsonValue,
            |
                #[trigger] alike(doc, json_document(document)->0) && T::represents(doc, None),
        },
{
    lemma_location_round_trip(prefix, collection, key, ref_);
    match got {
        Ok(res) => {
            let doc = choose|doc: Option<JsonValue>|
                #[trigger] reads(document, doc) && documents_as::<T>(
                    doc,
                    Ok::<T, OrchestrateError>(res.value),
                );
            assert(alike(doc->0, json_document(document)->0));
        },
        Err(e) => {
            let doc = choose|doc: Option<JsonValue>|
                #[trigger] reads(document, doc) && documents_as::<T>(
                    doc,
                    Err::<T, OrchestrateError>(e),
                );
            assert(alike(doc->0, json_document(document)->0));
        },
    }
}

/// An update succeeds on status 201 only. Any other status, such as 412 for
/// a stale ref under `If-Match` or 409 for an existing key under
/// `If-None-Match`, gives the domain error with that status, never an
/// address.
pub proof fn lemma_update_fails_unless_created(
    collection: Seq<char>,
    key: Seq<char>,
    reply: Response,
    r: PathResult,
)
    requires
        updates(collection, key, reply, r),
        reply.status != 201,
    ensures
        r matches Err(OrchestrateError::RequestError(e)) && e.status == reply.status,
{
}

/// An update that the store accepts returns the ref that the store names:
/// on status 201 with the location of the new version, the result is the
/// caller's collection and key with that ref.
pub proof fn lemma_update_returns_new_ref(
    prefix: Seq<Seq<char>>,
    collection: Seq<char>,
    key: Seq<char>,
    ref_: Seq<char>,
    reply: Response,
    r: PathResult,
)
    requires
        addressable(prefix, collection, key, ref_),
        reply.status == 201,
        header_value(reply.headers@, "Location"@) == Some(
            location_of(prefix, collection, key, ref_),
        ),
        updates(collection, key, reply, r),
    ensures
        r matches Ok(path) && path@ == (PathView { collection, key, ref_: Some(ref_) }),
{
    lemma_location_round_trip(prefix, collection, key, ref_);
}

/// A read succeeds on status 200 only. Any other status, such as 404 for a
/// document that was purged, gives the domain error with that status.
pub proof fn lemma_get_fails_unless_ok<T: RepresentsJSON>(
    collection: Seq<char>,
    key: Seq<char>,
    known: Option<Seq<char>>,
    reply: Response,
    r: KeyValueResult<T>,
)
    requires
        gets::<T>(collection, key, known, reply, r),
        reply.status != 200,
    ensures
        r matches Err(OrchestrateError::RequestError(e)) && e.status == reply.status,
{
}

/// An operation without a document to return succeeds on its expected
/// status and on no other.
pub proof fn lemma_confirmed_iff_expected(
    reply: Response,
    expected: u16,
    r: Result<bool, OrchestrateError>,
)
    requires
        confirms(reply, expected, r),
    ensures
        r is Ok <==> reply.status == expected,
        r is Ok ==> r == Ok::<bool, OrchestrateError>(true),
{
}

/// Identity and credential are the client's own: whatever headers the
/// caller sets, `User-Agent` and `Authorization` go out with the client's
/// values, and the body headers with the computed ones.
pub proof fn lemma_fixed_headers_win(v: ClientView)
    ensures
        final_headers(v).dom().contains("Authorization"@),
        final_headers(v)["Authorization"@] == authorization(v.token),
        final_headers(v).dom().contains("User-Agent"@),
        final_headers(v)["User-Agent"@] == version_text(),
        final_headers(v).dom().contains("Content-Length"@),
        final_headers(v)["Content-Length"@] == content_length(v.body),
        v.body is Some ==> final_headers(v).dom().contains("Content-Type"@) && final_headers(
            v,
        )["Content-Type"@] == "application/json"@,
{
    lemma_fixed_names_differ();
}

/// The four names that the client sets are four different names.
pub proof fn lemma_fixed_names_differ()
    ensures
        "Authorization"@.len() == 13,
        "User-Agent"@.len() == 10,
        "Content-Length"@.len() == 14,
        "Content-Type"@.len() == 12,
{
    reveal_strlit("Authorization");
    reveal_strlit("User-Agent");
    reveal_strlit("Content-Length");
    reveal_strlit("Content-Type");
}

/// The credential cannot be shadowed: of the headers that go out, the only
/// one whose name reads `Authorization`, in whatever case, is the client's
/// own. The same holds of `User-Agent` and `Content-Length`.
pub proof fn lemma_no_header_shadows(v: ClientView, name: Seq<char>)
    requires
        final_headers(v).dom().contains(name),
    ensures
        same_ignoring_case(name, "Authorization"@) ==> name == "Authorization"@,
        same_ignoring_case(name, "User-Agent"@) ==> name == "User-Agent"@,
        same_ignoring_case(name, "Content-Length"@) ==> name == "Content-Length"@,
{
    lemma_fixed_names_differ();
}

/// Every header of the caller under a name that is not reserved goes out as
/// the caller set it, and no header is added under such a name.
pub proof fn lemma_caller_headers_kept(v: ClientView, name: Seq<char>)
    requires
        !reserved(name, v.body is Some),
    ensures
        final_headers(v).dom().contains(name) == v.headers.dom().contains(name),
        v.headers.dom().contains(name) ==> final_headers(v)[name] == v.headers[name],
{
    assert(same_ignoring_case("Authorization"@, "Authorization"@));
    assert(same_ignoring_case("User-Agent"@, "User-Agent"@));
    assert(same_ignoring_case("Content-Length"@, "Content-Length"@));
    assert(same_ignoring_case("Content-Type"@, "Content-Type"@));
}

/// Following a link depends on the link alone: the target is the link
/// without the version prefix, no query parameter of the builder survives,
/// and the URL of the request is what the parser makes of host and link.
pub proof fn lemma_link_is_followed_verbatim(v: ClientView, link: Seq<char>)
    ensures
        turned(v, Some(link)).target == Some(without_prefix(link, "/v0/"@)),
        turned(v, Some(link)).query.len() == 0,
        refusal(turned(v, Some(link))) is None ==> planned(turned(v, Some(link))).url
            == url_parsed(url_text(v.host, without_prefix(link, "/v0/"@)))->0,
{
    let t = turned(v, Some(link));
    assert(t.query =~= Seq::empty());
}

/// Following the same link twice is following it once, and without a link
/// nothing changes: there is no page to turn to.
pub proof fn lemma_following_is_idempotent(v: ClientView, link: Option<Seq<char>>)
    ensures
        turned(turned(v, link), link) == turned(v, link),
        link is None ==> turned(v, link) == v,
{
}

/// A ref that the caller knows is never replaced by one that a reply names.
pub proof fn lemma_known_ref_stays(known: Seq<char>, found: Option<Seq<char>>)
    ensures
        settled_ref(Some(known), found) == Some(known),
        settled_ref(None, found) == found,
{
}

/// A purge is asked for in the URL: where the only query parameter is
/// `purge=true`, the request goes to the target with `purge=true` as its
/// query.
pub proof fn lemma_purge_is_sent(v: ClientView)
    requires
        v.query == seq![("purge"@, "true"@)],
        refusal(v) is None,
    ensures
        planned(v).url == query_set(
            url_parsed(url_text(v.host, v.target->0))->0,
            "purge=true"@,
        ),
{
    reveal_strlit("purge");
    reveal_strlit("true");
    reveal_strlit("purge=true");
    lemma_plain_component("purge"@);
    lemma_plain_component("true"@);
    let pairs = seq![("purge"@, "true"@)];
    assert(form_urlencoded(pairs) == form_pair(pairs[0]));
    assert(form_pair(("purge"@, "true"@)) =~= "purge=true"@);
}

/// The link to the next page that the body of a listing carries: the text
/// member `next` of the document that the body is, if it has one.
pub open spec fn listed_next(body: Seq<char>) -> Option<Seq<char>> {
    match json_document(body) {
        Some(d) => match optional_text_member(d, "next"@) {
            Some(Some(link)) => Some(link@),
            _ => None,
        },
        None => None,
    }
}

/// The link of a page is the reply's: whatever the type of the documents,
/// and whatever the parser makes of the real numbers in the body, the page
/// that a listing returns links to where the body says, and more pages
/// remain exactly where the body carries a link.
pub proof fn lemma_next_link_is_the_replys<T: RepresentsJSON>(reply: Response, page: KVResults<T>)
    requires
        reads_as::<KVResults<T>>(reply, 200, Ok(page)),
    ensures
        reply.status == 200,
        optional_view(page.next) == listed_next(reply.body@),
        page.count == page.results@.len(),
{
    let doc = choose|doc: Option<JsonValue>|
        #[trigger] reads(reply.body@, doc) && documents_as::<KVResults<T>>(
            doc,
            Ok::<KVResults<T>, OrchestrateError>(page),
        );
    let v = doc->0;
    let d = json_document(reply.body@)->0;
    assert(alike(v, d));
    lemma_alike_field(v, d, "next"@);
}

/// A traversal can be repeated: where the store answers a request as it
/// answered before, the page has as many results as before and links to the
/// same place, so the request for the page after it is the same again.
pub proof fn lemma_traversal_repeats<T: RepresentsJSON>(
    v: ClientView,
    first: Response,
    again: Response,
    page: KVResults<T>,
    same: KVResults<T>,
)
    requires
        first.body@ == again.body@,
        reads_as::<KVResults<T>>(first, 200, Ok(page)),
        reads_as::<KVResults<T>>(again, 200, Ok(same)),
    ensures
        optional_view(page.next) == optional_view(same.next),
        turned(v, optional_view(page.next)) == turned(v, optional_view(same.next)),
        (page.next is Some) == (same.next is Some),
{
    lemma_next_link_is_the_replys::<T>(first, page);
    lemma_next_link_is_the_replys::<T>(again, same);
}

/// Whether a type reads steadily: of documents that differ at most in the
/// payload of their real numbers it makes the same value.
pub open spec fn steady<T: RepresentsJSON>() -> bool {
    forall|d: JsonValue, v: JsonValue, w: JsonValue, a: T, b: T|
        #![trigger alike(v, d), alike(w, d), T::represents(v, Some(a)), T::represents(w, Some(b))]
        alike(v, d) && alike(w, d) && T::represents(v, Some(a)) && T::represents(w, Some(b))
            ==> a == b
}

/// An unsigned integer is read steadily.
pub proof fn lemma_unsigned_is_steady()
    ensures
        steady::<u64>(),
{
    assert forall|d: JsonValue, v: JsonValue, w: JsonValue, a: u64, b: u64|
        #![trigger alike(v, d), alike(w, d), u64::represents(v, Some(a)), u64::represents(w, Some(b))]
        alike(v, d) && alike(w, d) && u64::represents(v, Some(a)) && u64::represents(
            w,
            Some(b),
        ) implies a == b by {
        lemma_alike_values(v, d);
        lemma_alike_values(w, d);
    }
}

/// A page can be read again: where the store answers a request with the
/// body it answered with before, and the documents are of a type that reads
/// steadily, the second page is the first, result by result. It has the same
/// count, the same documents under the same addresses in the same order,
/// and the same link.
pub proof fn lemma_pages_repeat<T: RepresentsJSON>(
    first: Response,
    again: Response,
    page: KVResults<T>,
    same: KVResults<T>,
)
    requires
        steady::<T>(),
        first.body@ == again.body@,
        reads_as::<KVResults<T>>(first, 200, Ok(page)),
        reads_as::<KVResults<T>>(again, 200, Ok(same)),
    ensures
        page.count == same.count,
        page.results@.len() == same.results@.len(),
        forall|i: int|
            0 <= i < page.results@.len() ==> (#[trigger] page.results@[i]).value
                == same.results@[i].value && page.results@[i].path@ == same.results@[i].path@,
        optional_view(page.next) == optional_view(same.next),
{
    lemma_next_link_is_the_replys::<T>(first, page);
    lemma_next_link_is_the_replys::<T>(again, same);
    let d = json_document(first.body@)->0;
    let v = (choose|doc: Option<JsonValue>|
        #[trigger] reads(first.body@, doc) && documents_as::<KVResults<T>>(
            doc,
            Ok::<KVResults<T>, OrchestrateError>(page),
        ))->0;
    let w = (choose|doc: Option<JsonValue>|
        #[trigger] reads(again.body@, doc) && documents_as::<KVResults<T>>(
            doc,
            Ok::<KVResults<T>, OrchestrateError>(same),
        ))->0;
    assert(alike(v, d) && alike(w, d));
    lemma_listing_alike::<T>(v, d, page);
    lemma_listing_alike::<T>(w, d, same);
    let items = results_member(d)->0;
    let xs = results_member(v)->0;
    let ys = results_member(w)->0;
    assert forall|i: int| 0 <= i < page.results@.len() implies (#[trigger] page.results@[i]).value
        == same.results@[i].value && page.results@[i].path@ == same.results@[i].path@ by {
        let a = page.results@[i];
        let b = same.results@[i];
        assert(KVResult::<T>::represents(xs[i], Some(a)));
        assert(KVResult::<T>::represents(ys[i], Some(b)));
        assert(alike(xs[i], items[i]) && alike(ys[i], items[i]));
        lemma_alike_field(xs[i], items[i], "path"@);
        lemma_alike_field(ys[i], items[i], "path"@);
        lemma_alike_field(xs[i], items[i], "value"@);
        lemma_alike_field(ys[i], items[i], "value"@);
        let pd = items[i].spec_field("path"@)->0;
        lemma_alike_path(xs[i].spec_field("path"@)->0, pd);
        lemma_alike_path(ys[i].spec_field("path"@)->0, pd);
        let xd = items[i].spec_field("value"@)->0;
        let x = xs[i].spec_field("value"@)->0;
        let y = ys[i].spec_field("value"@)->0;
        assert(alike(x, xd) && alike(y, xd));
        assert(T::represents(x, Some(a.value)));
        assert(T::represents(y, Some(b.value)));
    }
}

/// A page that a document stands for has the count of every document like
/// it, and as many results as it has items, each read from an item like
/// the one in its place.
pub proof fn lemma_listing_alike<T: RepresentsJSON>(v: JsonValue, d: JsonValue, page: KVResults<T>)
    requires
        alike(v, d),
        KVResults::<T>::represents(v, Some(page)),
    ensures
        count_member(d) == Some(page.count),
        results_member(v) is Some,
        results_member(d) is Some,
        results_member(v)->0.len() == page.results@.len(),
        results_member(d)->0.len() == page.results@.len(),
        forall|i: int|
            0 <= i < page.results@.len() ==> KVResult::<T>::represents(
                results_member(v)->0[i],
                Some(#[trigger] page.results@[i]),
            ) && alike(results_member(v)->0[i], results_member(d)->0[i]),
{
    lemma_alike_field(v, d, "count"@);
    lemma_alike_field(v, d, "results"@);
    lemma_alike_values(v.spec_field("count"@)->0, d.spec_field("count"@)->0);
    lemma_alike_values(v.spec_field("results"@)->0, d.spec_field("results"@)->0);
}

} // verus!
