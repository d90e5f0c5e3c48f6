//! The response envelope `{success, id, data, errors}` common to every
//! endpoint, and the decoders that turn a raw response text into either a
//! typed payload or a normalized error list.
//!
//! Decoding follows one rule per failure source: text that does not parse as
//! JSON, or JSON that does not match the envelope shape, yields exactly one
//! [`InternalError`] with `internal` set; a well-formed envelope with
//! `success` false yields the server-reported errors normalized verbatim, in
//! order. An envelope that contradicts itself — `success` true without
//! `data`, or `success` false without `errors` — is treated as a decode
//! failure rather than trusted.

use vstd::prelude::*;

use crate::client::Client;
use crate::error::{is_single_internal, malformed_msg, normalized, APIError, InternalError};
use crate::json::{
    bool_field, json_parse, lookup, obj_field, parse_json, req_bool, req_string, req_u16,
    str_field, u16_field, Json,
};
use crate::payload::{
    key_data_of, key_data_record, nickname_list, nickname_list_of, player_data_of,
    player_data_record, punishment_of, punishment_record, staff_list, staff_list_of, KeyData,
    KeyDataView, NicknameHistory, PlayerData, PlayerDataView, PunishmentData, StaffTracker,
};

verus! {

/// A decoded response envelope carrying a payload of type `T`. Exactly one of
/// `data` / `errors` is expected when `success` is true / false; the decoders
/// treat an envelope that breaks that expectation as malformed.
pub struct APIData<T> {
    pub success: bool,
    pub id: String,
    pub data: Option<T>,
    pub errors: Option<Vec<APIError>>,
}

/// The nickname-history response envelope.
pub type APINicknameResponse = APIData<Vec<NicknameHistory>>;

/// The player-data response envelope.
pub type APIPlayerData = APIData<PlayerData>;

/// The key-data response envelope.
pub type APIKeyData = APIData<KeyData>;

/// The staff-tracker response envelope.
pub type APIStaffTracker = APIData<Vec<StaffTracker>>;

/// The punishment response envelope.
pub type APIPunishmentData = APIData<PunishmentData>;

/// The mathematical value of a decoded envelope with payload `P`.
pub struct EnvelopeView<P> {
    pub success: bool,
    pub id: String,
    pub data: Option<P>,
    pub errors: Option<Seq<APIError>>,
}

/// The server-reported error a JSON value decodes to, if its shape fits.
pub open spec fn api_error_of(j: Json) -> Option<APIError> {
    match j {
        Json::Obj(fs) => match (
            str_field(fs@, "type"@),
            u16_field(fs@, "code"@),
            str_field(fs@, "message"@),
        ) {
            (Some(error_type), Some(code), Some(message)) => Some(
                APIError { error_type, code, message },
            ),
            _ => None,
        },
        _ => None,
    }
}

/// Decodes one server-reported error, as [`api_error_of`] describes.
pub fn api_error_entry(j: &Json) -> (r: Option<APIError>)
    ensures
        r == api_error_of(*j),
{
    let fields = match j {
        Json::Obj(fs) => fs,
        _ => {
            return None;
        },
    };
    let error_type = match req_string(fields, "type") {
        Some(s) => s,
        None => {
            return None;
        },
    };
    let code = match req_u16(fields, "code") {
        Some(c) => c,
        None => {
            return None;
        },
    };
    let message = match req_string(fields, "message") {
        Some(s) => s,
        None => {
            return None;
        },
    };
    Some(APIError { error_type, code, message })
}

/// The server-reported error list a JSON value decodes to: an array whose
/// every element is a well-shaped error.
pub open spec fn api_error_list_of(j: Json) -> Option<Seq<APIError>> {
    match j {
        Json::Arr(elems) => if forall|i: int|
            0 <= i < elems@.len() ==> (#[trigger] api_error_of(elems@[i])) is Some {
            Some(Seq::new(elems@.len(), |i: int| api_error_of(elems@[i]).unwrap()))
        } else {
            None
        },
        _ => None,
    }
}

/// Decodes a server-reported error list, as [`api_error_list_of`] describes.
pub fn api_error_list(j: &Json) -> (r: Option<Vec<APIError>>)
    ensures
        match r {
            Some(v) => api_error_list_of(*j) == Some(v@),
            None => api_error_list_of(*j) is None,
        },
{
    let elems = match j {
        Json::Arr(es) => es,
        _ => {
            return None;
        },
    };
    let mut out: Vec<APIError> = Vec::new();
    let mut i: usize = 0;
    while i < elems.len()
        invariant
            *j == Json::Arr(*elems),
            0 <= i <= elems@.len(),
            out@.len() == i,
            forall|k: int|
                0 <= k < i ==> ((#[trigger] api_error_of(elems@[k])) matches Some(e)
                    && out@[k] == e),
        decreases elems@.len() - i,
    {
        match api_error_entry(&elems[i]) {
            Some(e) => out.push(e),
            None => {
                proof {
                    assert(!(forall|k: int|
                        0 <= k < elems@.len() ==> (#[trigger] api_error_of(
                            elems@[k],
                        )) is Some)) by {
                        assert(api_error_of(elems@[i as int]) is None);
                    }
                }
                return None;
            },
        }
        i = i + 1;
    }
    proof {
        assert(out@ =~= Seq::new(elems@.len(), |k: int| api_error_of(elems@[k]).unwrap()));
    }
    Some(out)
}

/// The envelope a JSON value decodes to for a payload decoder `payload_of`:
/// `success` and `id` are required, `data` and `errors` map omission or
/// `null` to `None` and must otherwise satisfy their decoders.
pub open spec fn envelope_of<P>(j: Json, payload_of: spec_fn(Json) -> Option<P>) -> Option<
    EnvelopeView<P>,
> {
    match j {
        Json::Obj(fs) => {
            let success = bool_field(fs@, "success"@);
            let id = str_field(fs@, "id"@);
            let data = match lookup(fs@, "data"@) {
                None => Some(None),
                Some(Json::Null) => Some(None),
                Some(x) => match payload_of(x) {
                    Some(p) => Some(Some(p)),
                    None => None,
                },
            };
            let errors = match lookup(fs@, "errors"@) {
                None => Some(None),
                Some(Json::Null) => Some(None),
                Some(x) => match api_error_list_of(x) {
                    Some(es) => Some(Some(es)),
                    None => None,
                },
            };
            match (success, id, data, errors) {
                (Some(success), Some(id), Some(data), Some(errors)) => Some(
                    EnvelopeView { success, id, data, errors },
                ),
                _ => None,
            }
        },
        _ => None,
    }
}

/// What a decoded envelope amounts to: its payload, the errors the server
/// reported, or a malformed envelope (including the contradictory cases of
/// `success` true without `data` and `success` false without `errors`).
pub enum Verdict<P> {
    Payload(P),
    Reported(Seq<APIError>),
    Malformed,
}

/// The verdict of a decoded envelope, as [`Verdict`] describes.
pub open spec fn verdict_of<P>(o: Option<EnvelopeView<P>>) -> Verdict<P> {
    match o {
        None => Verdict::Malformed,
        Some(e) => if e.success {
            match e.data {
                Some(p) => Verdict::Payload(p),
                None => Verdict::Malformed,
            }
        } else {
            match e.errors {
                Some(es) => Verdict::Reported(es),
                None => Verdict::Malformed,
            }
        },
    }
}

/// The single normalized error surfaced when a response parses as JSON but
/// does not match the expected envelope.
pub fn malformed_failure() -> (r: Vec<InternalError>)
    ensures
        is_single_internal(r@, malformed_msg()),
{
    Client::map_internal_error("response did not match the expected envelope".to_owned())
}

/// Resolves a decoded envelope: the payload when `success` is true and
/// `data` is present, the normalized server-reported errors when `success`
/// is false and `errors` is present, and a single decode error for the two
/// contradictory cases.
pub fn map_errors<T>(env: APIData<T>) -> (r: Result<T, Vec<InternalError>>)
    ensures
        env.success && env.data is Some ==> r == Ok::<T, Vec<InternalError>>(env.data.unwrap()),
        env.success && env.data is None ==> (r matches Err(es) && is_single_internal(
            es@,
            malformed_msg(),
        )),
        !env.success && env.errors is Some ==> (r matches Err(es) && es@ == normalized(
            env.errors.unwrap()@,
        )),
        !env.success && env.errors is None ==> (r matches Err(es) && is_single_internal(
            es@,
            malformed_msg(),
        )),
{
    if env.success {
        match env.data {
            Some(d) => Ok(d),
            None => Err(malformed_failure()),
        }
    } else {
        match env.errors {
            Some(v) => Err(Client::map_external_error(v)),
            None => Err(malformed_failure()),
        }
    }
}

/// The nickname-history envelope a JSON value decodes to, with the
/// ordered nickname-history list as its payload.
pub open spec fn nickname_envelope_of(j: Json) -> Option<EnvelopeView<Seq<NicknameHistory>>> {
    envelope_of(j, |d: Json| nickname_list_of(d))
}

/// Decodes a nickname-history envelope, as [`nickname_envelope_of`] describes.
pub fn nickname_envelope(j: &Json) -> (r: Option<APINicknameResponse>)
    ensures
        match r {
            Some(env) => (nickname_envelope_of(*j) matches Some(e) && env.success == e.success
                && env.id == e.id && (match (env.data, e.data) {
                (Some(v), Some(p)) => v@ == p,
                (None, None) => true,
                _ => false,
            }) && (match (env.errors, e.errors) {
                (Some(v), Some(p)) => v@ == p,
                (None, None) => true,
                _ => false,
            })),
            None => nickname_envelope_of(*j) is None,
        },
{
    let fields = match j {
        Json::Obj(fs) => fs,
        _ => {
            return None;
        },
    };
    let success = match req_bool(fields, "success") {
        Some(b) => b,
        None => {
            return None;
        },
    };
    let id = match req_string(fields, "id") {
        Some(s) => s,
        None => {
            return None;
        },
    };
    let data = match obj_field(fields, "data") {
        None => None,
        Some(Json::Null) => None,
        Some(x) => match nickname_list(x) {
            Some(v) => Some(v),
            None => {
                return None;
            },
        },
    };
    let errors = match obj_field(fields, "errors") {
        None => None,
        Some(Json::Null) => None,
        Some(x) => match api_error_list(x) {
            Some(v) => Some(v),
            None => {
                return None;
            },
        },
    };
    Some(APIData { success, id, data, errors })
}

/// Decodes a raw nickname-history response text: the ordered nickname-history list
/// on success, or the normalized error list every failure source maps to.
pub fn decode_nickname_history(body: &str) -> (r: Result<Vec<NicknameHistory>, Vec<InternalError>>)
    ensures
        json_parse(body@) matches Err(m) ==> (r matches Err(es) && is_single_internal(es@, m@)),
        json_parse(body@) matches Ok(j) ==> match verdict_of(nickname_envelope_of(j)) {
            Verdict::Payload(p) => (r matches Ok(v) && v@ == p),
            Verdict::Reported(es) => (r matches Err(v) && v@ == normalized(es)),
            Verdict::Malformed => (r matches Err(v) && is_single_internal(v@, malformed_msg())),
        },
{
    match parse_json(body) {
        Err(m) => Err(Client::map_internal_error(m)),
        Ok(j) => match nickname_envelope(&j) {
            None => Err(malformed_failure()),
            Some(env) => map_errors(env),
        },
    }
}

/// The player-data envelope a JSON value decodes to, with the
/// player profile as its payload.
pub open spec fn player_envelope_of(j: Json) -> Option<EnvelopeView<PlayerDataView>> {
    envelope_of(j, |d: Json| player_data_of(d))
}

/// Decodes a player-data envelope, as [`player_envelope_of`] describes.
pub fn player_envelope(j: &Json) -> (r: Option<APIPlayerData>)
    ensures
        match r {
            Some(env) => (player_envelope_of(*j) matches Some(e) && env.success == e.success
                && env.id == e.id && (match (env.data, e.data) {
                (Some(v), Some(p)) => v@ == p,
                (None, None) => true,
                _ => false,
            }) && (match (env.errors, e.errors) {
                (Some(v), Some(p)) => v@ == p,
                (None, None) => true,
                _ => false,
            })),
            None => player_envelope_of(*j) is None,
        },
{
    let fields = match j {
        Json::Obj(fs) => fs,
        _ => {
            return None;
        },
    };
    let success = match req_bool(fields, "success") {
        Some(b) => b,
        None => {
            return None;
        },
    };
    let id = match req_string(fields, "id") {
        Some(s) => s,
        None => {
            return None;
        },
    };
    let data = match obj_field(fields, "data") {
        None => None,
        Some(Json::Null) => None,
        Some(x) => match player_data_record(x) {
            Some(v) => Some(v),
            None => {
                return None;
            },
        },
    };
    let errors = match obj_field(fields, "errors") {
        None => None,
        Some(Json::Null) => None,
        Some(x) => match api_error_list(x) {
            Some(v) => Some(v),
            None => {
                return None;
            },
        },
    };
    Some(APIData { success, id, data, errors })
}

/// Decodes a raw player-data response text: the player profile
/// on success, or the normalized error list every failure source maps to.
pub fn decode_player_data(body: &str) -> (r: Result<PlayerData, Vec<InternalError>>)
    ensures
        json_parse(body@) matches Err(m) ==> (r matches Err(es) && is_single_internal(es@, m@)),
        json_parse(body@) matches Ok(j) ==> match verdict_of(player_envelope_of(j)) {
            Verdict::Payload(p) => (r matches Ok(v) && v@ == p),
            Verdict::Reported(es) => (r matches Err(v) && v@ == normalized(es)),
            Verdict::Malformed => (r matches Err(v) && is_single_internal(v@, malformed_msg())),
        },
{
    match parse_json(body) {
        Err(m) => Err(Client::map_internal_error(m)),
        Ok(j) => match player_envelope(&j) {
            None => Err(malformed_failure()),
            Some(env) => map_errors(env),
        },
    }
}

/// The staff-tracker envelope a JSON value decodes to, with the
/// staff-presence list as its payload.
pub open spec fn staff_envelope_of(j: Json) -> Option<EnvelopeView<Seq<StaffTracker>>> {
    envelope_of(j, |d: Json| staff_list_of(d))
}

/// Decodes a staff-tracker envelope, as [`staff_envelope_of`] describes.
pub fn staff_envelope(j: &Json) -> (r: Option<APIStaffTracker>)
    ensures
        match r {
            Some(env) => (staff_envelope_of(*j) matches Some(e) && env.success == e.success
                && env.id == e.id && (match (env.data, e.data) {
                (Some(v), Some(p)) => v@ == p,
                (None, None) => true,
                _ => false,
            }) && (match (env.errors, e.errors) {
                (Some(v), Some(p)) => v@ == p,
                (None, None) => true,
                _ => false,
            })),
            None => staff_envelope_of(*j) is None,
        },
{
    let fields = match j {
        Json::Obj(fs) => fs,
        _ => {
            return None;
        },
    };
    let success = match req_bool(fields, "success") {
        Some(b) => b,
        None => {
            return None;
        },
    };
    let id = match req_string(fields, "id") {
        Some(s) => s,
        None => {
            return None;
        },
    };
    let data = match obj_field(fields, "data") {
        None => None,
        Some(Json::Null) => None,
        Some(x) => match staff_list(x) {
            Some(v) => Some(v),
            None => {
                return None;
            },
        },
    };
    let errors = match obj_field(fields, "errors") {
        None => None,
        Some(Json::Null) => None,
        Some(x) => match api_error_list(x) {
            Some(v) => Some(v),
            None => {
                return None;
            },
        },
    };
    Some(APIData { success, id, data, errors })
}

/// Decodes a raw staff-tracker response text: the staff-presence list
/// on success, or the normalized error list every failure source maps to.
pub fn decode_staff_tracker(body: &str) -> (r: Result<Vec<StaffTracker>, Vec<InternalError>>)
    ensures
        json_parse(body@) matches Err(m) ==> (r matches Err(es) && is_single_internal(es@, m@)),
        json_parse(body@) matches Ok(j) ==> match verdict_of(staff_envelope_of(j)) {
            Verdict::Payload(p) => (r matches Ok(v) && v@ == p),
            Verdict::Reported(es) => (r matches Err(v) && v@ == normalized(es)),
            Verdict::Malformed => (r matches Err(v) && is_single_internal(v@, malformed_msg())),
        },
{
    match parse_json(body) {
        Err(m) => Err(Client::map_internal_error(m)),
        Ok(j) => match staff_envelope(&j) {
            None => Err(malformed_failure()),
            Some(env) => map_errors(env),
        },
    }
}

/// The punishment envelope a JSON value decodes to, with the
/// punishment record as its payload.
pub open spec fn punishment_envelope_of(j: Json) -> Option<EnvelopeView<PunishmentData>> {
    envelope_of(j, |d: Json| punishment_of(d))
}

/// Decodes a punishment envelope, as [`punishment_envelope_of`] describes.
pub fn punishment_envelope(j: &Json) -> (r: Option<APIPunishmentData>)
    ensures
        match r {
            Some(env) => (punishment_envelope_of(*j) matches Some(e) && env.success == e.success
                && env.id == e.id && (match (env.data, e.data) {
                (Some(v), Some(p)) => v == p,
                (None, None) => true,
                _ => false,
            }) && (match (env.errors, e.errors) {
                (Some(v), Some(p)) => v@ == p,
                (None, None) => true,
                _ => false,
            })),
            None => punishment_envelope_of(*j) is None,
        },
{
    let fields = match j {
        Json::Obj(fs) => fs,
        _ => {
            return None;
        },
    };
    let success = match req_bool(fields, "success") {
        Some(b) => b,
        None => {
            return None;
        },
    };
    let id = match req_string(fields, "id") {
        Some(s) => s,
        None => {
            return None;
        },
    };
    let data = match obj_field(fields, "data") {
        None => None,
        Some(Json::Null) => None,
        Some(x) => match punishment_record(x) {
            Some(v) => Some(v),
            None => {
                return None;
            },
        },
    };
    let errors = match obj_field(fields, "errors") {
        None => None,
        Some(Json::Null) => None,
        Some(x) => match api_error_list(x) {
            Some(v) => Some(v),
            None => {
                return None;
            },
        },
    };
    Some(APIData { success, id, data, errors })
}

/// Decodes a raw punishment response text: the punishment record
/// on success, or the normalized error list every failure source maps to.
pub fn decode_punishment_data(body: &str) -> (r: Result<PunishmentData, Vec<InternalError>>)
    ensures
        json_parse(body@) matches Err(m) ==> (r matches Err(es) && is_single_internal(es@, m@)),
        json_parse(body@) matches Ok(j) ==> match verdict_of(punishment_envelope_of(j)) {
            Verdict::Payload(p) => (r matches Ok(v) && v == p),
            Verdict::Reported(es) => (r matches Err(v) && v@ == normalized(es)),
            Verdict::Malformed => (r matches Err(v) && is_single_internal(v@, malformed_msg())),
        },
{
    match parse_json(body) {
        Err(m) => Err(Client::map_internal_error(m)),
        Ok(j) => match punishment_envelope(&j) {
            None => Err(malformed_failure()),
            Some(env) => map_errors(env),
        },
    }
}

/// The key-data envelope a JSON value decodes to, with the
/// key-data record as its payload.
pub open spec fn key_envelope_of(j: Json) -> Option<EnvelopeView<KeyDataView>> {
    envelope_of(j, |d: Json| key_data_of(d))
}

/// Decodes a key-data envelope, as [`key_envelope_of`] describes.
pub fn key_envelope(j: &Json) -> (r: Option<APIKeyData>)
    ensures
        match r {
            Some(env) => (key_envelope_of(*j) matches Some(e) && env.success == e.success
                && env.id == e.id && (match (env.data, e.data) {
                (Some(v), Some(p)) => v@ == p,
                (None, None) => true,
                _ => false,
            }) && (match (env.errors, e.errors) {
                (Some(v), Some(p)) => v@ == p,
                (None, None) => true,
                _ => false,
            })),
            None => key_envelope_of(*j) is None,
        },
{
    let fields = match j {
        Json::Obj(fs) => fs,
        _ => {
            return None;
        },
    };
    let success = match req_bool(fields, "success") {
        Some(b) => b,
        None => {
            return None;
        },
    };
    let id = match req_string(fields, "id") {
        Some(s) => s,
        None => {
            return None;
        },
    };
    let data = match obj_field(fields, "data") {
        None => None,
        Some(Json::Null) => None,
        Some(x) => match key_data_record(x) {
            Some(v) => Some(v),
            None => {
                return None;
            },
        },
    };
    let errors = match obj_field(fields, "errors") {
        None => None,
        Some(Json::Null) => None,
        Some(x) => match api_error_list(x) {
            Some(v) => Some(v),
            None => {
                return None;
            },
        },
    };
    Some(APIData { success, id, data, errors })
}

/// Decodes a raw key-data response text: the key-data record
/// on success, or the normalized error list every failure source maps to.
pub fn decode_key_data(body: &str) -> (r: Result<KeyData, Vec<InternalError>>)
    ensures
        json_parse(body@) matches Err(m) ==> (r matches Err(es) && is_single_internal(es@, m@)),
        json_parse(body@) matches Ok(j) ==> match verdict_of(key_envelope_of(j)) {
            Verdict::Payload(p) => (r matches Ok(v) && v@ == p),
            Verdict::Reported(es) => (r matches Err(v) && v@ == normalized(es)),
            Verdict::Malformed => (r matches Err(v) && is_single_internal(v@, malformed_msg())),
        },
{
    match parse_json(body) {
        Err(m) => Err(Client::map_internal_error(m)),
        Ok(j) => match key_envelope(&j) {
            None => Err(malformed_failure()),
            Some(env) => map_errors(env),
        },
    }
}

} // verus!
