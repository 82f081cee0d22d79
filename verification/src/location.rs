//! The decoded domain records, and the decoder for one sharer record.
//!
//! The upstream protocol has no field names, only fixed positional
//! offsets into nested arrays.  [`spec_decode_record`] is the exact
//! statement of that layout: which path each field is read from, which
//! type it must have, which lookups may be absent, and the precise
//! error reported the moment the layout does not match.
//! [`Location::from_array`] is the verified walker that implements it.

use vstd::prelude::*;

use crate::error::Error;
use crate::json::Jv;
use crate::json::JsonValue;
use crate::json::jv_index;
use crate::json::num_as_u64;
use crate::json::number_as_u64;
use crate::json::render;

verus! {

/// A user sharing a location with you.
#[derive(Debug, PartialEq)]
pub struct Person {
    /// An opaque identifier.
    pub id: String,
    /// A URL pointing to an avatar.
    pub picture_url: Option<String>,
    /// The user's full display name.
    pub full_name: String,
    /// The user's shorter nickname.
    pub nickname: Option<String>,
}

/// One shared location.
#[derive(Debug, PartialEq)]
pub struct Location {
    /// The person represented by this location.
    pub person: Person,
    /// Latitude in degrees, as the JSON number the server sent.
    pub latitude: serde_json::Number,
    /// Longitude in degrees, as the JSON number the server sent.
    pub longitude: serde_json::Number,
    /// The best guess as to the person's address.
    pub address: Option<String>,
    /// When the location was last updated, in whole seconds since the
    /// Unix epoch (the server sends milliseconds; sub-second precision
    /// is truncated).
    pub timestamp: Option<u64>,
    /// The user's phone's battery, from 0 to 100.
    pub battery: Option<u8>,
}

/// The mathematical model of a [`Person`].
pub struct PersonModel {
    pub id: Seq<char>,
    pub picture_url: Option<Seq<char>>,
    pub full_name: Seq<char>,
    pub nickname: Option<Seq<char>>,
}

/// The mathematical model of a [`Location`].
pub struct LocationModel {
    pub person: PersonModel,
    pub latitude: serde_json::Number,
    pub longitude: serde_json::Number,
    pub address: Option<Seq<char>>,
    pub timestamp: Option<u64>,
    pub battery: Option<u8>,
}

impl View for Person {
    type V = PersonModel;

    open spec fn view(&self) -> PersonModel {
        PersonModel {
            id: self.id@,
            picture_url: match self.picture_url {
                Some(s) => Some(s@),
                None => None,
            },
            full_name: self.full_name@,
            nickname: match self.nickname {
                Some(s) => Some(s@),
                None => None,
            },
        }
    }
}

impl View for Location {
    type V = LocationModel;

    open spec fn view(&self) -> LocationModel {
        LocationModel {
            person: self.person@,
            latitude: self.latitude,
            longitude: self.longitude,
            address: match self.address {
                Some(s) => Some(s@),
                None => None,
            },
            timestamp: self.timestamp,
            battery: self.battery,
        }
    }
}

/// The error reported when a positional lookup finds nothing: it names
/// the index chain that failed and quotes the container it was walking.
pub open spec fn msg_missing(root: Jv, path: Seq<char>) -> Seq<char> {
    "Vector "@ + render(root) + " missing "@ + path
}

/// The error reported when a value at a path is not the string the
/// layout requires there.
pub open spec fn msg_not_string(v: Jv) -> Seq<char> {
    render(v) + " was not a string"@
}

/// The error reported when a required string is present but empty:
/// identity and display name must never be empty once decode succeeds.
pub open spec fn msg_empty_string(v: Jv) -> Seq<char> {
    render(v) + " was an empty string"@
}

/// The error reported when a value at a path is not the number the
/// layout requires there.
pub open spec fn msg_not_number(v: Jv) -> Seq<char> {
    render(v) + " was not a number"@
}

/// Two positional lookups in a row, with the error naming how far the
/// chain got: `path_i` is the rendering of `[i]`, `path_ij` of `[i][j]`.
pub open spec fn spec_get2(root: Jv, i: int, j: int, path_i: Seq<char>, path_ij: Seq<char>) -> Result<
    Jv,
    Seq<char>,
> {
    match jv_index(root, i) {
        None => Err(msg_missing(root, path_i)),
        Some(v1) => match jv_index(v1, j) {
            None => Err(msg_missing(root, path_ij)),
            Some(v2) => Ok(v2),
        },
    }
}

/// Three positional lookups in a row.
pub open spec fn spec_get3(
    root: Jv,
    i: int,
    j: int,
    k: int,
    path_i: Seq<char>,
    path_ij: Seq<char>,
    path_ijk: Seq<char>,
) -> Result<Jv, Seq<char>> {
    match spec_get2(root, i, j, path_i, path_ij) {
        Err(m) => Err(m),
        Ok(v2) => match jv_index(v2, k) {
            None => Err(msg_missing(root, path_ijk)),
            Some(v3) => Ok(v3),
        },
    }
}

/// A required string at `[i][j]`: a missing lookup, a non-string and
/// the empty string all fail — a decoded `Location` never carries an
/// empty identity or display name.
pub open spec fn spec_req_str(root: Jv, i: int, j: int, path_i: Seq<char>, path_ij: Seq<char>) -> Result<
    Seq<char>,
    Seq<char>,
> {
    match spec_get2(root, i, j, path_i, path_ij) {
        Err(m) => Err(m),
        Ok(v) => match v {
            Jv::Str(s) => if s.len() == 0 {
                Err(msg_empty_string(v))
            } else {
                Ok(s)
            },
            _ => Err(msg_not_string(v)),
        },
    }
}

/// An optional string at `[i][j]`: a missing lookup fails, anything
/// present that is not a string (such as `null`) is merely absent.
pub open spec fn spec_opt_str(root: Jv, i: int, j: int, path_i: Seq<char>, path_ij: Seq<char>) -> Result<
    Option<Seq<char>>,
    Seq<char>,
> {
    match spec_get2(root, i, j, path_i, path_ij) {
        Err(m) => Err(m),
        Ok(v) => match v {
            Jv::Str(s) => Ok(Some(s)),
            _ => Ok(None),
        },
    }
}

/// A required number at `[i][j][k]`.
pub open spec fn spec_req_num(
    root: Jv,
    i: int,
    j: int,
    k: int,
    path_i: Seq<char>,
    path_ij: Seq<char>,
    path_ijk: Seq<char>,
) -> Result<serde_json::Number, Seq<char>> {
    match spec_get3(root, i, j, k, path_i, path_ij, path_ijk) {
        Err(m) => Err(m),
        Ok(v) => match v {
            Jv::Num(n) => Ok(n),
            _ => Err(msg_not_number(v)),
        },
    }
}

/// The update instant, in whole seconds: the number at `[1][2]` is
/// milliseconds since the Unix epoch; anything there that is not an
/// unsigned integer fails.
pub open spec fn spec_timestamp(root: Jv) -> Result<u64, Seq<char>> {
    match spec_get2(root, 1, 2, "[1]"@, "[1][2]"@) {
        Err(m) => Err(m),
        Ok(v) => match v {
            Jv::Num(n) => match num_as_u64(n) {
                Some(ms) => Ok((ms / 1000) as u64),
                None => Err("Failed to parse datetime"@),
            },
            _ => Err("Failed to parse datetime"@),
        },
    }
}

/// The battery level: present only when `[13][1]` exists and is an
/// unsigned integer, which is then truncated into a byte.  A record
/// with `[13]` absent or `null` still decodes.
pub open spec fn spec_battery(root: Jv) -> Option<u8> {
    match jv_index(root, 13) {
        None => None,
        Some(b) => match jv_index(b, 1) {
            None => None,
            Some(v) => match v {
                Jv::Num(n) => match num_as_u64(n) {
                    Some(u) => Some((u % 256) as u8),
                    None => None,
                },
                _ => None,
            },
        },
    }
}

/// What decoding one sharer record yields: the `Location` whose fields
/// are read from the fixed positional offsets of the record array, or
/// the first error in field order (identity, avatar, name, nickname,
/// latitude, longitude, timestamp, address; the battery never fails).
pub open spec fn spec_decode_record(j: Jv) -> Result<LocationModel, Seq<char>> {
    if !(j is Arr) {
        Err("value should be an array"@)
    } else {
        match spec_req_str(j, 6, 0, "[6]"@, "[6][0]"@) {
            Err(m) => Err(m),
            Ok(id) => match spec_opt_str(j, 6, 1, "[6]"@, "[6][1]"@) {
                Err(m) => Err(m),
                Ok(picture_url) => match spec_req_str(j, 6, 2, "[6]"@, "[6][2]"@) {
                    Err(m) => Err(m),
                    Ok(full_name) => match spec_opt_str(j, 6, 3, "[6]"@, "[6][3]"@) {
                        Err(m) => Err(m),
                        Ok(nickname) => match spec_req_num(
                            j,
                            1,
                            1,
                            2,
                            "[1]"@,
                            "[1][1]"@,
                            "[1][1][2]"@,
                        ) {
                            Err(m) => Err(m),
                            Ok(latitude) => match spec_req_num(
                                j,
                                1,
                                1,
                                1,
                                "[1]"@,
                                "[1][1]"@,
                                "[1][1][1]"@,
                            ) {
                                Err(m) => Err(m),
                                Ok(longitude) => match spec_timestamp(j) {
                                    Err(m) => Err(m),
                                    Ok(ts) => match spec_opt_str(j, 1, 4, "[1]"@, "[1][4]"@) {
                                        Err(m) => Err(m),
                                        Ok(address) => Ok(
                                            LocationModel {
                                                person: PersonModel {
                                                    id,
                                                    picture_url,
                                                    full_name,
                                                    nickname,
                                                },
                                                latitude,
                                                longitude,
                                                address,
                                                timestamp: Some(ts),
                                                battery: spec_battery(j),
                                            },
                                        ),
                                    },
                                },
                            },
                        },
                    },
                },
            },
        }
    }
}

/// A decode that succeeds never carries an empty identity or an empty
/// display name: the record fails instead.
pub proof fn lemma_required_strings_nonempty(j: Jv)
    ensures
        spec_decode_record(j) matches Ok(l) ==> (l.person.id.len() != 0
            && l.person.full_name.len() != 0),
{
}

// --- the verified walker ---

/// Build the message of [`msg_missing`].
fn missing_error(root: &JsonValue, path: &str) -> (r: Error)
    ensures
        r matches Error::Malformed(m) && m@ == msg_missing(root@, path@),
{
    let mut m = String::from_str("Vector ");
    m.append(root.to_rendered().as_str());
    m.append(" missing ");
    m.append(path);
    Error::Malformed(m)
}

/// Build the message of [`msg_empty_string`].
fn empty_string_error(v: &JsonValue) -> (r: Error)
    ensures
        r matches Error::Malformed(m) && m@ == msg_empty_string(v@),
{
    let mut m = v.to_rendered();
    m.append(" was an empty string");
    Error::Malformed(m)
}

/// Build the message of [`msg_not_string`].
fn not_string_error(v: &JsonValue) -> (r: Error)
    ensures
        r matches Error::Malformed(m) && m@ == msg_not_string(v@),
{
    let mut m = v.to_rendered();
    m.append(" was not a string");
    Error::Malformed(m)
}

/// Build the message of [`msg_not_number`].
fn not_number_error(v: &JsonValue) -> (r: Error)
    ensures
        r matches Error::Malformed(m) && m@ == msg_not_number(v@),
{
    let mut m = v.to_rendered();
    m.append(" was not a number");
    Error::Malformed(m)
}

/// Two positional lookups in a row, as [`spec_get2`] describes them.
fn get2<'a>(root: &'a JsonValue, i: usize, j: usize, path_i: &str, path_ij: &str) -> (r: Result<
    &'a JsonValue,
    Error,
>)
    ensures
        match r {
            Ok(v) => spec_get2(root@, i as int, j as int, path_i@, path_ij@) == Ok::<Jv, Seq<char>>(v@),
            Err(e) => e matches Error::Malformed(m) && spec_get2(
                root@,
                i as int,
                j as int,
                path_i@,
                path_ij@,
            ) == Err::<Jv, Seq<char>>(m@),
        },
{
    match root.get(i) {
        None => Err(missing_error(root, path_i)),
        Some(v1) => match v1.get(j) {
            None => Err(missing_error(root, path_ij)),
            Some(v2) => Ok(v2),
        },
    }
}

/// Three positional lookups in a row, as [`spec_get3`] describes them.
fn get3<'a>(
    root: &'a JsonValue,
    i: usize,
    j: usize,
    k: usize,
    path_i: &str,
    path_ij: &str,
    path_ijk: &str,
) -> (r: Result<&'a JsonValue, Error>)
    ensures
        match r {
            Ok(v) => spec_get3(
                root@,
                i as int,
                j as int,
                k as int,
                path_i@,
                path_ij@,
                path_ijk@,
            ) == Ok::<Jv, Seq<char>>(v@),
            Err(e) => e matches Error::Malformed(m) && spec_get3(
                root@,
                i as int,
                j as int,
                k as int,
                path_i@,
                path_ij@,
                path_ijk@,
            ) == Err::<Jv, Seq<char>>(m@),
        },
{
    match get2(root, i, j, path_i, path_ij) {
        Err(e) => Err(e),
        Ok(v2) => match v2.get(k) {
            None => Err(missing_error(root, path_ijk)),
            Some(v3) => Ok(v3),
        },
    }
}

/// A required string at `[i][j]`, as [`spec_req_str`] describes it.
fn req_str(root: &JsonValue, i: usize, j: usize, path_i: &str, path_ij: &str) -> (r: Result<
    String,
    Error,
>)
    ensures
        match r {
            Ok(s) => spec_req_str(root@, i as int, j as int, path_i@, path_ij@) == Ok::<
                Seq<char>,
                Seq<char>,
            >(s@),
            Err(e) => e matches Error::Malformed(m) && spec_req_str(
                root@,
                i as int,
                j as int,
                path_i@,
                path_ij@,
            ) == Err::<Seq<char>, Seq<char>>(m@),
        },
{
    match get2(root, i, j, path_i, path_ij) {
        Err(e) => Err(e),
        Ok(v) => match v {
            JsonValue::String(s) => if s.as_str().is_empty() {
                Err(empty_string_error(v))
            } else {
                Ok(s.clone())
            },
            _ => Err(not_string_error(v)),
        },
    }
}

/// An optional string at `[i][j]`, as [`spec_opt_str`] describes it.
fn opt_str(root: &JsonValue, i: usize, j: usize, path_i: &str, path_ij: &str) -> (r: Result<
    Option<String>,
    Error,
>)
    ensures
        match r {
            Ok(o) => spec_opt_str(root@, i as int, j as int, path_i@, path_ij@) == Ok::<
                Option<Seq<char>>,
                Seq<char>,
            >(
                match o {
                    Some(s) => Some(s@),
                    None => None,
                },
            ),
            Err(e) => e matches Error::Malformed(m) && spec_opt_str(
                root@,
                i as int,
                j as int,
                path_i@,
                path_ij@,
            ) == Err::<Option<Seq<char>>, Seq<char>>(m@),
        },
{
    match get2(root, i, j, path_i, path_ij) {
        Err(e) => Err(e),
        Ok(v) => match v {
            JsonValue::String(s) => Ok(Some(s.clone())),
            _ => Ok(None),
        },
    }
}

/// A required number at `[i][j][k]`, as [`spec_req_num`] describes it.
fn req_num(
    root: &JsonValue,
    i: usize,
    j: usize,
    k: usize,
    path_i: &str,
    path_ij: &str,
    path_ijk: &str,
) -> (r: Result<serde_json::Number, Error>)
    ensures
        match r {
            Ok(n) => spec_req_num(
                root@,
                i as int,
                j as int,
                k as int,
                path_i@,
                path_ij@,
                path_ijk@,
            ) == Ok::<serde_json::Number, Seq<char>>(n),
            Err(e) => e matches Error::Malformed(m) && spec_req_num(
                root@,
                i as int,
                j as int,
                k as int,
                path_i@,
                path_ij@,
                path_ijk@,
            ) == Err::<serde_json::Number, Seq<char>>(m@),
        },
{
    match get3(root, i, j, k, path_i, path_ij, path_ijk) {
        Err(e) => Err(e),
        Ok(v) => match v {
            JsonValue::Number(n) => Ok(n.clone()),
            _ => Err(not_number_error(v)),
        },
    }
}

/// The update instant in whole seconds, as [`spec_timestamp`] describes
/// it.
fn timestamp_seconds(root: &JsonValue) -> (r: Result<u64, Error>)
    ensures
        match r {
            Ok(t) => spec_timestamp(root@) == Ok::<u64, Seq<char>>(t),
            Err(e) => e matches Error::Malformed(m) && spec_timestamp(root@) == Err::<
                u64,
                Seq<char>,
            >(m@),
        },
{
    match get2(root, 1, 2, "[1]", "[1][2]") {
        Err(e) => Err(e),
        Ok(v) => match v {
            JsonValue::Number(n) => match number_as_u64(n) {
                Some(ms) => Ok(ms / 1000),
                None => Err(Error::Malformed(String::from_str("Failed to parse datetime"))),
            },
            _ => Err(Error::Malformed(String::from_str("Failed to parse datetime"))),
        },
    }
}

/// The battery level, as [`spec_battery`] describes it: never an error.
fn battery_level(root: &JsonValue) -> (r: Option<u8>)
    ensures
        r == spec_battery(root@),
{
    match root.get(13) {
        None => None,
        Some(b) => match b.get(1) {
            None => None,
            Some(v) => match v {
                JsonValue::Number(n) => match number_as_u64(n) {
                    Some(u) => Some((u % 256) as u8),
                    None => None,
                },
                _ => None,
            },
        },
    }
}

impl Location {
    /// Decode one sharer record from its positional-array
    /// representation, exactly as [`spec_decode_record`] states: the
    /// first failing lookup short-circuits the whole record, and no
    /// partial `Location` is ever returned.
    pub fn from_array(val: &JsonValue) -> (r: Result<Location, Error>)
        ensures
            match r {
                Ok(loc) => spec_decode_record(val@) == Ok::<LocationModel, Seq<char>>(loc@),
                Err(e) => e matches Error::Malformed(m) && spec_decode_record(val@) == Err::<
                    LocationModel,
                    Seq<char>,
                >(m@),
            },
    {
        match val {
            JsonValue::Array(_) => {},
            _ => {
                return Err(Error::Malformed(String::from_str("value should be an array")));
            },
        }
        let id = match req_str(val, 6, 0, "[6]", "[6][0]") {
            Ok(s) => s,
            Err(e) => {
                return Err(e);
            },
        };
        let picture_url = match opt_str(val, 6, 1, "[6]", "[6][1]") {
            Ok(o) => o,
            Err(e) => {
                return Err(e);
            },
        };
        let full_name = match req_str(val, 6, 2, "[6]", "[6][2]") {
            Ok(s) => s,
            Err(e) => {
                return Err(e);
            },
        };
        let nickname = match opt_str(val, 6, 3, "[6]", "[6][3]") {
            Ok(o) => o,
            Err(e) => {
                return Err(e);
            },
        };
        let latitude = match req_num(val, 1, 1, 2, "[1]", "[1][1]", "[1][1][2]") {
            Ok(n) => n,
            Err(e) => {
                return Err(e);
            },
        };
        let longitude = match req_num(val, 1, 1, 1, "[1]", "[1][1]", "[1][1][1]") {
            Ok(n) => n,
            Err(e) => {
                return Err(e);
            },
        };
        let timestamp = match timestamp_seconds(val) {
            Ok(t) => t,
            Err(e) => {
                return Err(e);
            },
        };
        let address = match opt_str(val, 1, 4, "[1]", "[1][4]") {
            Ok(o) => o,
            Err(e) => {
                return Err(e);
            },
        };
        let battery = battery_level(val);
        Ok(
            Location {
                person: Person { id, picture_url, full_name, nickname },
                latitude,
                longitude,
                address,
                timestamp: Some(timestamp),
                battery,
            },
        )
    }
}

} // verus!
