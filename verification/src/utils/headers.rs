//! The headers of a response, as the map that carries them out.

use vstd::prelude::*;
use vstd::utf8::encode_utf8;
use http::{HeaderMap, HeaderValue};

verus! {

/// `http::HeaderMap`, which is filled here and read elsewhere.
#[verifier::external_type_specification]
#[verifier::external_body]
#[verifier::reject_recursive_types(T)]
pub struct ExHeaderMap<T>(HeaderMap<T>);

/// `http::HeaderValue`, which only the map holds.
#[verifier::external_type_specification]
#[verifier::external_body]
pub struct ExHeaderValue(HeaderValue);

/// What a map of headers holds: each name that it has, as the map writes
/// names, with the bytes of the first value under that name.
pub uninterp spec fn header_fields(map: HeaderMap<HeaderValue>) -> Map<Seq<char>, Seq<u8>>;

/// The name of a header as the map writes it, where the text is the name of
/// a header: names that differ in the case of letters are written alike.
pub uninterp spec fn header_name(name: Seq<char>) -> Option<Seq<char>>;

/// Whether a text can be the value of a header: it holds no control
/// character but the tabulator.
pub open spec fn is_header_value(value: Seq<char>) -> bool {
    forall|i: int|
        0 <= i < encode_utf8(value).len() ==> {
            let b = #[trigger] encode_utf8(value)[i];
            b >= 32 && b != 127 || b == 9
        }
}

/// A number of names below which every map has room for one more.
pub const ROOM: usize = 1024;

/// Whether the map that holds `fields` has room for a pair: it does while
/// it holds fewer names than `ROOM`.
pub open spec fn has_room(fields: Map<Seq<char>, Seq<u8>>) -> bool {
    fields.dom().finite() && fields.dom().len() < ROOM
}

/// What a map of headers holds before it has taken any.
pub open spec fn no_fields() -> Map<Seq<char>, Seq<u8>> {
    Map::empty()
}

/// `http::HeaderMap::new`: the map that holds nothing.
#[verifier::external_body]
pub(crate) fn new_headers() -> (made: HeaderMap<HeaderValue>)
    ensures
        header_fields(made) == no_fields(),
{
    HeaderMap::new()
}

/// `http::HeaderMap::try_insert`, with the name from
/// `http::header::HeaderName::from_bytes` and the value from
/// `http::HeaderValue::from_str`. The contract claims that a pair is taken
/// only if its name is one and its value can be one, that it then stands in
/// place of whatever the name had, and that a pair that is not taken leaves
/// the map as it was. A map that holds fewer than 1024 names has room: it
/// takes every pair whose name is one and whose value can be one. The map
/// gives out of room only at 32768 names, or when it would grow beyond
/// them, which a map of so few names does not.
#[verifier::external_body]
pub(crate) fn insert_header(
    headers: &mut HeaderMap<HeaderValue>,
    name: &str,
    value: &str,
) -> (taken: bool)
    ensures
        taken ==> header_name(name@) is Some && is_header_value(value@),
        header_name(name@) is Some && is_header_value(value@) && has_room(
            header_fields(*old(headers)),
        ) ==> taken,
        header_fields(*final(headers)) == if taken {
            header_fields(*old(headers)).insert(header_name(name@)->0, encode_utf8(value@))
        } else {
            header_fields(*old(headers))
        },
{
    match (http::header::HeaderName::from_bytes(name.as_bytes()), HeaderValue::from_str(value)) {
        (Ok(name), Ok(value)) => headers.try_insert(name, value).is_ok(),
        _ => false,
    }
}

/// What a map holds once it has taken the pairs in their order: a pair takes
/// the place of an earlier one with a name that is written alike. There is
/// no such map where a name is none or a value cannot be one.
pub open spec fn fields_of(pairs: Seq<(Seq<char>, Seq<char>)>) -> Option<
    Map<Seq<char>, Seq<u8>>,
>
    decreases pairs.len(),
{
    if pairs.len() == 0 {
        Some(no_fields())
    } else {
        match (fields_of(pairs.drop_last()), header_name(pairs.last().0)) {
            (Some(before), Some(name)) => if is_header_value(pairs.last().1) {
                Some(before.insert(name, encode_utf8(pairs.last().1)))
            } else {
                None
            },
            _ => None,
        }
    }
}

/// The map that carries the given headers out. There is none where a name
/// is none or a value cannot be one; and there is one for every list of
/// fewer than 1024 headers whose names are names and whose values can be
/// values.
pub fn header_map(headers: &Vec<(String, String)>) -> (carried: Option<HeaderMap<HeaderValue>>)
    ensures
        carried matches Some(filled) ==> fields_of(headers.deep_view()) == Some(
            header_fields(filled),
        ),
        fields_of(headers.deep_view()) is None ==> carried is None,
        headers@.len() < ROOM && fields_of(headers.deep_view()) is Some ==> carried is Some,
{
    let mut filled = new_headers();
    let ghost all = headers.deep_view();
    let mut i: usize = 0;
    assert(all.take(0) =~= Seq::empty());
    while i < headers.len()
        invariant
            i <= headers.len(),
            all == headers.deep_view(),
            fields_of(all.take(i as int)) == Some(header_fields(filled)),
            header_fields(filled).dom().finite(),
            header_fields(filled).dom().len() <= i,
        decreases headers.len() - i,
    {
        proof {
            assert(all.take(i + 1).drop_last() =~= all.take(i as int));
            assert(all.take(i + 1).last() == (headers[i as int].0@, headers[i as int].1@));
        }
        let ghost before = header_fields(filled);
        let taken = insert_header(&mut filled, headers[i].0.as_str(), headers[i].1.as_str());
        if !taken {
            proof {
                lemma_fields_of_more(all, i + 1);
            }
            return None;
        }
        proof {
            let name = header_name(headers[i as int].0@)->0;
            assert(header_fields(filled).dom() =~= before.dom().insert(name));
            vstd::set::axiom_set_insert_len(before.dom(), name);
        }
        i += 1;
    }
    assert(all.take(headers.len() as int) =~= all);
    Some(filled)
}

/// Pairs that make no map make none with more pairs after them either.
pub proof fn lemma_fields_of_more(pairs: Seq<(Seq<char>, Seq<char>)>, n: int)
    requires
        0 <= n <= pairs.len(),
    ensures
        fields_of(pairs.take(n)) is None ==> fields_of(pairs) is None,
    decreases pairs.len() - n,
{
    if n < pairs.len() {
        assert(pairs.take(n + 1).drop_last() =~= pairs.take(n));
        lemma_fields_of_more(pairs, n + 1);
    } else {
        assert(pairs.take(n) =~= pairs);
    }
}

} // verus!
