//! The envelope decoder, and the fixed pieces of the request that
//! fetches a response body.
//!
//! A response body is a fixed 4-byte anti-hijacking prefix followed by
//! one JSON document; the document must be an array whose first element
//! is the array of sharer records.  [`decode_envelope`] strips the
//! prefix, parses, unwraps, and decodes every record, all or nothing,
//! and fails closed with a decode error on any body that does not have
//! that shape — a prefix-less stub included.
//!
//! The HTTP call itself is outside this crate: a caller issues a GET to
//! [`location_url`] with the parameters of [`query_params`] and the
//! session cookie as a literal `cookie` header, and hands the raw body
//! to [`decode_envelope`].

use vstd::prelude::*;

use crate::error::Error;
use crate::json::Jv;
use crate::json::JsonValue;
use crate::json::json_doc;
use crate::json::jv_index;
use crate::json::jv_of_seq;
use crate::json::lemma_jv_of_seq;
use crate::json::parse_value;
use crate::json::render;
use crate::json::to_json_value;
use crate::location::Location;
use crate::location::LocationModel;
use crate::location::spec_decode_record;

verus! {

/// The number of anti-hijacking bytes before the JSON document.
pub const PREFIX_LEN: usize = 4;

/// The models of a sequence of decoded locations.
pub open spec fn locations_model(locs: Seq<Location>) -> Seq<LocationModel> {
    locs.map_values(|l: Location| l@)
}

/// Mapping to models commutes with appending one location.
proof fn lemma_locations_model_push(s: Seq<Location>, x: Location)
    ensures
        locations_model(s.push(x)) =~= locations_model(s).push(x@),
{
}

/// The error reported when the body is too short to hold the 4-byte
/// anti-hijacking prefix at all: the decoder fails closed rather than
/// guess.
pub open spec fn msg_short_body() -> Seq<char> {
    "response body is shorter than its 4-byte prefix"@
}

/// The error reported when the parsed document is not an array whose
/// first element is an array.
pub open spec fn msg_missing_records(doc: Jv) -> Seq<char> {
    "Missing location array: "@ + render(doc)
}

/// Where the sharer records sit in the parsed document: its element
/// `[0]`, which must itself be an array.
pub open spec fn spec_unwrap_envelope(doc: Jv) -> Result<Seq<Jv>, Seq<char>> {
    match jv_index(doc, 0) {
        Some(first) => match first {
            Jv::Arr(records) => Ok(records),
            _ => Err(msg_missing_records(doc)),
        },
        None => Err(msg_missing_records(doc)),
    }
}

/// Decoding a batch of records is all or nothing: the first record that
/// fails fails the whole batch with its own error, and order is kept.
pub open spec fn spec_decode_records(records: Seq<Jv>) -> Result<Seq<LocationModel>, Seq<char>>
    decreases records,
{
    if records.len() == 0 {
        Ok(Seq::empty())
    } else {
        match spec_decode_record(records[0]) {
            Err(m) => Err(m),
            Ok(l) => match spec_decode_records(records.subrange(1, records.len() as int)) {
                Err(m) => Err(m),
                Ok(rest) => Ok(seq![l] + rest),
            },
        }
    }
}

/// Decoding a batch of records never yields partial results: a batch
/// that succeeds decodes every record, in the server's order, and a
/// batch with one failing record anywhere fails as a whole.
pub proof fn lemma_decode_records_all_or_nothing(records: Seq<Jv>)
    ensures
        spec_decode_records(records) matches Ok(ms) ==> (ms.len() == records.len() && (forall|
            k: int,
        |
            0 <= k < records.len() ==> spec_decode_record(records[k]) == Ok::<
                LocationModel,
                Seq<char>,
            >(ms[k]))),
        (exists|k: int| 0 <= k < records.len() && spec_decode_record(records[k]) is Err)
            ==> spec_decode_records(records) is Err,
    decreases records,
{
    if records.len() != 0 {
        let sub = records.subrange(1, records.len() as int);
        lemma_decode_records_all_or_nothing(sub);
        assert(forall|k: int| 1 <= k < records.len() ==> sub[k - 1] == records[k]);
        if exists|k: int| 0 <= k < records.len() && spec_decode_record(records[k]) is Err {
            let k = choose|k: int| 0 <= k < records.len() && spec_decode_record(records[k]) is Err;
            if k != 0 {
                assert(spec_decode_record(sub[k - 1]) is Err);
            }
        }
    }
}

/// What decoding a parsed document yields: the records of
/// [`spec_unwrap_envelope`], decoded by [`spec_decode_records`].
pub open spec fn spec_decode_envelope(doc: Jv) -> Result<Seq<LocationModel>, Seq<char>> {
    match spec_unwrap_envelope(doc) {
        Err(m) => Err(m),
        Ok(records) => spec_decode_records(records),
    }
}

/// How a result of [`decode_envelope`] relates to the parse of the
/// bytes after the prefix: a parse failure is a `SerdeError` carrying
/// the parser's message, and everything past the parse is pinned by
/// [`spec_decode_envelope`].
pub open spec fn decode_outcome_matches(
    doc: Result<Jv, Seq<char>>,
    r: Result<Vec<Location>, Error>,
) -> bool {
    match r {
        Ok(locs) => doc matches Ok(d) && spec_decode_envelope(d) == Ok::<
            Seq<LocationModel>,
            Seq<char>,
        >(locations_model(locs@)),
        Err(e) => match e {
            Error::SerdeError(m) => doc matches Err(pm) && pm == m@,
            Error::Malformed(m) => doc matches Ok(d) && spec_decode_envelope(d) == Err::<
                Seq<LocationModel>,
                Seq<char>,
            >(m@),
        },
    }
}

/// Decode a raw response body: strip the 4-byte prefix, parse the rest
/// as JSON, locate the record array at `[0]`, and decode every record
/// in order, all or nothing.  A body of any bytes whatsoever is
/// admitted; one too short to hold the prefix is a decode error, never
/// a panic.
pub fn decode_envelope(body: &[u8]) -> (r: Result<Vec<Location>, Error>)
    ensures
        body@.len() < PREFIX_LEN ==> (r matches Err(e) && e matches Error::Malformed(m) && m@
            == msg_short_body()),
        body@.len() >= PREFIX_LEN ==> decode_outcome_matches(
            json_doc(body@.skip(PREFIX_LEN as int)),
            r,
        ),
{
    if body.len() < PREFIX_LEN {
        return Err(
            Error::Malformed(String::from_str("response body is shorter than its 4-byte prefix")),
        );
    }
    let json = vstd::slice::slice_subrange(body, PREFIX_LEN, body.len());
    proof {
        assert(json@ =~= body@.skip(PREFIX_LEN as int));
    }
    let value = match parse_value(json) {
        Ok(v) => v,
        Err(m) => {
            return Err(Error::SerdeError(m));
        },
    };
    let doc = to_json_value(value);
    let records = match doc.get(0) {
        Some(first) => match first {
            JsonValue::Array(records) => records,
            _ => {
                return Err(missing_records_error(&doc));
            },
        },
        None => {
            return Err(missing_records_error(&doc));
        },
    };
    let ghost rs: Seq<Jv> = jv_of_seq(records@);
    proof {
        lemma_jv_of_seq(records@);
        assert(spec_unwrap_envelope(doc@) == Ok::<Seq<Jv>, Seq<char>>(rs));
    }
    let mut out: Vec<Location> = Vec::new();
    let mut i: usize = 0;
    proof {
        assert(rs.subrange(0, rs.len() as int) =~= rs);
        assert(locations_model(out@) =~= Seq::<LocationModel>::empty());
        if spec_decode_records(rs) is Ok {
            assert(locations_model(out@) + spec_decode_records(rs)->Ok_0
                =~= spec_decode_records(rs)->Ok_0);
        }
    }
    while i < records.len()
        invariant
            i <= records.len(),
            body@.len() >= PREFIX_LEN,
            json_doc(body@.skip(PREFIX_LEN as int)) == Ok::<Jv, Seq<char>>(doc@),
            spec_unwrap_envelope(doc@) == Ok::<Seq<Jv>, Seq<char>>(rs),
            rs == jv_of_seq(records@),
            rs.len() == records@.len(),
            forall|k: int| 0 <= k < records@.len() ==> rs[k] == records@[k]@,
            spec_decode_records(rs) == (match spec_decode_records(
                rs.subrange(i as int, rs.len() as int),
            ) {
                Err(m) => Err::<Seq<LocationModel>, Seq<char>>(m),
                Ok(rest) => Ok::<Seq<LocationModel>, Seq<char>>(locations_model(out@) + rest),
            }),
        decreases records.len() - i,
    {
        let ghost suffix = rs.subrange(i as int, rs.len() as int);
        proof {
            assert(suffix[0] == rs[i as int]);
            assert(suffix.subrange(1, suffix.len() as int) =~= rs.subrange(
                i as int + 1,
                rs.len() as int,
            ));
        }
        match Location::from_array(&records[i]) {
            Ok(loc) => {
                let ghost prev = out@;
                out.push(loc);
                proof {
                    lemma_locations_model_push(prev, loc);
                    assert(out@ == prev.push(loc));
                    if spec_decode_records(suffix.subrange(1, suffix.len() as int)) is Ok {
                        let rest = spec_decode_records(suffix.subrange(1, suffix.len() as int))->Ok_0;
                        assert(locations_model(prev) + (seq![loc@] + rest)
                            =~= locations_model(out@) + rest);
                    }
                }
            },
            Err(e) => {
                proof {
                    assert(spec_decode_records(rs) is Err);
                }
                return Err(e);
            },
        }
        i += 1;
    }
    proof {
        assert(rs.subrange(rs.len() as int, rs.len() as int).len() == 0);
        assert(locations_model(out@) + Seq::<LocationModel>::empty() =~= locations_model(out@));
    }
    Ok(out)
}

/// Build the message of [`msg_missing_records`].
fn missing_records_error(doc: &JsonValue) -> (r: Error)
    ensures
        r matches Error::Malformed(m) && m@ == msg_missing_records(doc@),
{
    let mut m = String::from_str("Missing location array: ");
    m.append(doc.to_rendered().as_str());
    Error::Malformed(m)
}

/// Decoding is a function of the body: two results that both stand in
/// [`decode_outcome_matches`] to the same parsed document agree —
/// success with equal locations, or failure of the same kind with the
/// same message.
pub proof fn lemma_decode_deterministic(
    doc: Result<Jv, Seq<char>>,
    r1: Result<Vec<Location>, Error>,
    r2: Result<Vec<Location>, Error>,
)
    requires
        decode_outcome_matches(doc, r1),
        decode_outcome_matches(doc, r2),
    ensures
        r1 is Ok <==> r2 is Ok,
        r1 matches Ok(a) ==> (r2 matches Ok(b) && locations_model(a@) == locations_model(b@)),
        r1 matches Err(Error::Malformed(a)) ==> (r2 matches Err(Error::Malformed(b)) && a@ == b@),
        r1 matches Err(Error::SerdeError(a)) ==> (r2 matches Err(Error::SerdeError(b)) && a@
            == b@),
{
}

/// The fixed endpoint that answers with location-sharing bodies.
pub fn location_url() -> (r: &'static str)
    ensures
        r@ == "https://www.google.com/maps/preview/locationsharing/read"@,
{
    "https://www.google.com/maps/preview/locationsharing/read"
}

/// The fixed, protocol-version-pinned `pb` parameter blob the endpoint
/// requires; its internal structure is not interpreted here.
pub fn pb_parameter() -> (r: &'static str)
    ensures
        r@ == "!1m7!8m6!1m3!1i14!2i8413!3i5385!2i6!3x4095!2m3!1e0!2sm!3i407105169!3m7!2sen!5e1105!12m4!1e68!2m2!1sset!2sRoadmap!4e1!5m4!1e4!8m2!1e0!1e1!6m9!1e12!2i2!26m1!4b1!30m1!1f1.3953487873077393!39b1!44e1!50e0!23i4111425"@,
{
    "!1m7!8m6!1m3!1i14!2i8413!3i5385!2i6!3x4095!2m3!1e0!2sm!3i407105169!3m7!2sen!5e1105!12m4!1e68!2m2!1sset!2sRoadmap!4e1!5m4!1e4!8m2!1e0!1e1!6m9!1e12!2i2!26m1!4b1!30m1!1f1.3953487873077393!39b1!44e1!50e0!23i4111425"
}

/// The fixed query-parameter set of the location-sharing request:
/// `authuser=0`, `hl=en`, `gl=en`, and the `pb` blob.
pub fn query_params() -> (r: Vec<(&'static str, &'static str)>)
    ensures
        r@.len() == 4,
        r@[0].0@ == "authuser"@ && r@[0].1@ == "0"@,
        r@[1].0@ == "hl"@ && r@[1].1@ == "en"@,
        r@[2].0@ == "gl"@ && r@[2].1@ == "en"@,
        r@[3].0@ == "pb"@ && r@[3].1@
            == "!1m7!8m6!1m3!1i14!2i8413!3i5385!2i6!3x4095!2m3!1e0!2sm!3i407105169!3m7!2sen!5e1105!12m4!1e68!2m2!1sset!2sRoadmap!4e1!5m4!1e4!8m2!1e0!1e1!6m9!1e12!2i2!26m1!4b1!30m1!1f1.3953487873077393!39b1!44e1!50e0!23i4111425"@,
{
    let mut r: Vec<(&'static str, &'static str)> = Vec::new();
    r.push(("authuser", "0"));
    r.push(("hl", "en"));
    r.push(("gl", "en"));
    r.push(("pb", pb_parameter()));
    r
}

} // verus!
