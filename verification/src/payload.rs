//! The endpoint-specific record shapes, and their decoders from the JSON
//! tree.
//!
//! Each shape has a spec decoder (`*_of`) that says exactly which JSON values
//! it accepts and what record they produce — required fields must be present
//! with the right type, optional fields map JSON `null` or omission to `None`
//! — and an exec decoder proved equal to it.

use vstd::prelude::*;

use crate::json::{
    bool_field, i8_field, lookup, obj_field, opt_bool, opt_bool_field, opt_str_field, opt_string,
    opt_u32, opt_u32_field, req_bool, req_i8, req_string, str_field, Json,
};

verus! {

/// One entry of a nickname-history response.
#[derive(Debug)]
pub struct NicknameHistory {
    pub uuid: String,
    pub nickname: String,
    pub active: bool,
    pub created_at: String,
    pub voided_at: String,
}

/// A punishment record.
#[derive(Debug)]
pub struct PunishmentData {
    pub id: String,
    pub punishment_type: String,
    pub uuid: String,
    pub executor: Option<String>,
    pub reason: String,
    pub length: Option<u32>,
}

/// One entry of a player profile's nickname history.
#[derive(Debug)]
pub struct PlayerDataNicknameHistory {
    pub nickname: String,
    pub active: Option<bool>,
    pub created_at: String,
    pub voided_at: Option<String>,
}

/// One infraction inside a player profile.
#[derive(Debug)]
pub struct PlayerDataInfractions {
    pub id: String,
    pub punishment_type: String,
    pub executor: Option<String>,
    pub reason: String,
    pub length: Option<u32>,
}

/// The presence tracker inside a player profile.
#[derive(Debug)]
pub struct PlayerDataTracker {
    pub server: Option<String>,
    pub map: Option<String>,
    pub proxy: Option<String>,
    pub last_login: Option<String>,
}

/// One entry of a player profile's IP history.
#[derive(Debug)]
pub struct PlayerDataIPHistory {
    pub ip: String,
    pub login_at: String,
    pub logout_at: Option<String>,
    pub connection_proxy: Option<String>,
}

/// A player profile: nickname history, infractions, presence tracker, and an
/// optional IP history.
#[derive(Debug)]
pub struct PlayerData {
    pub uuid: String,
    pub nickname_history: Vec<PlayerDataNicknameHistory>,
    pub infractions: Vec<PlayerDataInfractions>,
    pub tracker: PlayerDataTracker,
    pub ip_history: Option<Vec<PlayerDataIPHistory>>,
}

/// The mathematical value of a [`PlayerData`]: its lists as sequences.
pub struct PlayerDataView {
    pub uuid: String,
    pub nickname_history: Seq<PlayerDataNicknameHistory>,
    pub infractions: Seq<PlayerDataInfractions>,
    pub tracker: PlayerDataTracker,
    pub ip_history: Option<Seq<PlayerDataIPHistory>>,
}

impl View for PlayerData {
    type V = PlayerDataView;

    open spec fn view(&self) -> PlayerDataView {
        PlayerDataView {
            uuid: self.uuid,
            nickname_history: self.nickname_history@,
            infractions: self.infractions@,
            tracker: self.tracker,
            ip_history: match self.ip_history {
                Some(v) => Some(v@),
                None => None,
            },
        }
    }
}

/// One endpoint-permission entry of a key-data response.
#[derive(Debug)]
pub struct KeyEndpoints {
    pub id: String,
    pub version: i8,
    pub status: bool,
}

/// What the key-introspection endpoint reports about an API key.
#[derive(Debug)]
pub struct KeyData {
    pub key: String,
    pub valid: bool,
    pub active: bool,
    pub created_at: Option<String>,
    pub expires_at: Option<String>,
    pub owner_cactiveconnections_id: Option<String>,
    pub endpoints: Vec<KeyEndpoints>,
}

/// The mathematical value of a [`KeyData`]: its endpoint list as a sequence.
pub struct KeyDataView {
    pub key: String,
    pub valid: bool,
    pub active: bool,
    pub created_at: Option<String>,
    pub expires_at: Option<String>,
    pub owner_cactiveconnections_id: Option<String>,
    pub endpoints: Seq<KeyEndpoints>,
}

impl View for KeyData {
    type V = KeyDataView;

    open spec fn view(&self) -> KeyDataView {
        KeyDataView {
            key: self.key,
            valid: self.valid,
            active: self.active,
            created_at: self.created_at,
            expires_at: self.expires_at,
            owner_cactiveconnections_id: self.owner_cactiveconnections_id,
            endpoints: self.endpoints@,
        }
    }
}

/// One entry of a staff-presence response.
#[derive(Debug)]
pub struct StaffTracker {
    pub uuid: String,
    pub rank: String,
    pub online: Option<bool>,
}

/// The nickname-history entry a JSON value decodes to, if its shape fits.
pub open spec fn nickname_entry_of(j: Json) -> Option<NicknameHistory> {
    match j {
        Json::Obj(fs) => match (
            str_field(fs@, "uuid"@),
            str_field(fs@, "nickname"@),
            bool_field(fs@, "active"@),
            str_field(fs@, "created_at"@),
            str_field(fs@, "voided_at"@),
        ) {
            (Some(uuid), Some(nickname), Some(active), Some(created_at), Some(voided_at)) => Some(
                NicknameHistory { uuid, nickname, active, created_at, voided_at },
            ),
            _ => None,
        },
        _ => None,
    }
}

/// Decodes one nickname-history entry, as [`nickname_entry_of`] describes.
pub fn nickname_entry(j: &Json) -> (r: Option<NicknameHistory>)
    ensures
        r == nickname_entry_of(*j),
{
    let fields = match j {
        Json::Obj(fs) => fs,
        _ => {
            return None;
        },
    };
    let uuid = match req_string(fields, "uuid") {
        Some(s) => s,
        None => {
            return None;
        },
    };
    let nickname = match req_string(fields, "nickname") {
        Some(s) => s,
        None => {
            return None;
        },
    };
    let active = match req_bool(fields, "active") {
        Some(b) => b,
        None => {
            return None;
        },
    };
    let created_at = match req_string(fields, "created_at") {
        Some(s) => s,
        None => {
            return None;
        },
    };
    let voided_at = match req_string(fields, "voided_at") {
        Some(s) => s,
        None => {
            return None;
        },
    };
    Some(NicknameHistory { uuid, nickname, active, created_at, voided_at })
}

/// The nickname-history list a JSON value decodes to: an array whose every
/// element is a well-shaped entry.
pub open spec fn nickname_list_of(j: Json) -> Option<Seq<NicknameHistory>> {
    match j {
        Json::Arr(elems) => if forall|i: int|
            0 <= i < elems@.len() ==> (#[trigger] nickname_entry_of(elems@[i])) is Some {
            Some(Seq::new(elems@.len(), |i: int| nickname_entry_of(elems@[i]).unwrap()))
        } else {
            None
        },
        _ => None,
    }
}

/// Decodes a nickname-history list, as [`nickname_list_of`] describes.
pub fn nickname_list(j: &Json) -> (r: Option<Vec<NicknameHistory>>)
    ensures
        match r {
            Some(v) => nickname_list_of(*j) == Some(v@),
            None => nickname_list_of(*j) is None,
        },
{
    let elems = match j {
        Json::Arr(es) => es,
        _ => {
            return None;
        },
    };
    let mut out: Vec<NicknameHistory> = Vec::new();
    let mut i: usize = 0;
    while i < elems.len()
        invariant
            *j == Json::Arr(*elems),
            0 <= i <= elems@.len(),
            out@.len() == i,
            forall|k: int|
                0 <= k < i ==> ((#[trigger] nickname_entry_of(elems@[k])) matches Some(e)
                    && out@[k] == e),
        decreases elems@.len() - i,
    {
        match nickname_entry(&elems[i]) {
            Some(e) => out.push(e),
            None => {
                proof {
                    assert(!(forall|k: int|
                        0 <= k < elems@.len() ==> (#[trigger] nickname_entry_of(
                            elems@[k],
                        )) is Some)) by {
                        assert(nickname_entry_of(elems@[i as int]) is None);
                    }
                }
                return None;
            },
        }
        i = i + 1;
    }
    proof {
        assert(out@ =~= Seq::new(elems@.len(), |k: int| nickname_entry_of(elems@[k]).unwrap()));
    }
    Some(out)
}

/// The punishment record a JSON value decodes to, if its shape fits.
pub open spec fn punishment_of(j: Json) -> Option<PunishmentData> {
    match j {
        Json::Obj(fs) => match (
            str_field(fs@, "id"@),
            str_field(fs@, "punishment_type"@),
            str_field(fs@, "uuid"@),
            opt_str_field(fs@, "executor"@),
            str_field(fs@, "reason"@),
            opt_u32_field(fs@, "length"@),
        ) {
            (Some(id), Some(punishment_type), Some(uuid), Some(executor), Some(reason), Some(length)) => Some(PunishmentData { id, punishment_type, uuid, executor, reason, length }),
            _ => None,
        },
        _ => None,
    }
}

/// Decodes one punishment record, as [`punishment_of`] describes.
pub fn punishment_record(j: &Json) -> (r: Option<PunishmentData>)
    ensures
        r == punishment_of(*j),
{
    let fields = match j {
        Json::Obj(fs) => fs,
        _ => {
            return None;
        },
    };
    let id = match req_string(fields, "id") {
        Some(x) => x,
        None => {
            return None;
        },
    };
    let punishment_type = match req_string(fields, "punishment_type") {
        Some(x) => x,
        None => {
            return None;
        },
    };
    let uuid = match req_string(fields, "uuid") {
        Some(x) => x,
        None => {
            return None;
        },
    };
    let executor = match opt_string(fields, "executor") {
        Some(x) => x,
        None => {
            return None;
        },
    };
    let reason = match req_string(fields, "reason") {
        Some(x) => x,
        None => {
            return None;
        },
    };
    let length = match opt_u32(fields, "length") {
        Some(x) => x,
        None => {
            return None;
        },
    };
    Some(PunishmentData { id, punishment_type, uuid, executor, reason, length })
}

/// The staff-presence entry a JSON value decodes to, if its shape fits.
pub open spec fn staff_entry_of(j: Json) -> Option<StaffTracker> {
    match j {
        Json::Obj(fs) => match (
            str_field(fs@, "uuid"@),
            str_field(fs@, "rank"@),
            opt_bool_field(fs@, "online"@),
        ) {
            (Some(uuid), Some(rank), Some(online)) => Some(StaffTracker { uuid, rank, online }),
            _ => None,
        },
        _ => None,
    }
}

/// Decodes one staff-presence entry, as [`staff_entry_of`] describes.
pub fn staff_entry(j: &Json) -> (r: Option<StaffTracker>)
    ensures
        r == staff_entry_of(*j),
{
    let fields = match j {
        Json::Obj(fs) => fs,
        _ => {
            return None;
        },
    };
    let uuid = match req_string(fields, "uuid") {
        Some(x) => x,
        None => {
            return None;
        },
    };
    let rank = match req_string(fields, "rank") {
        Some(x) => x,
        None => {
            return None;
        },
    };
    let online = match opt_bool(fields, "online") {
        Some(x) => x,
        None => {
            return None;
        },
    };
    Some(StaffTracker { uuid, rank, online })
}

/// The staff-presence list a JSON value decodes to: an array whose every element is a
/// well-shaped entry.
pub open spec fn staff_list_of(j: Json) -> Option<Seq<StaffTracker>> {
    match j {
        Json::Arr(elems) => if forall|i: int|
            0 <= i < elems@.len() ==> (#[trigger] staff_entry_of(elems@[i])) is Some {
            Some(Seq::new(elems@.len(), |i: int| staff_entry_of(elems@[i]).unwrap()))
        } else {
            None
        },
        _ => None,
    }
}

/// Decodes a staff-presence list, as [`staff_list_of`] describes.
pub fn staff_list(j: &Json) -> (r: Option<Vec<StaffTracker>>)
    ensures
        match r {
            Some(v) => staff_list_of(*j) == Some(v@),
            None => staff_list_of(*j) is None,
        },
{
    let elems = match j {
        Json::Arr(es) => es,
        _ => {
            return None;
        },
    };
    let mut out: Vec<StaffTracker> = Vec::new();
    let mut i: usize = 0;
    while i < elems.len()
        invariant
            *j == Json::Arr(*elems),
            0 <= i <= elems@.len(),
            out@.len() == i,
            forall|k: int|
                0 <= k < i ==> ((#[trigger] staff_entry_of(elems@[k])) matches Some(e)
                    && out@[k] == e),
        decreases elems@.len() - i,
    {
        match staff_entry(&elems[i]) {
            Some(e) => out.push(e),
            None => {
                proof {
                    assert(!(forall|k: int|
                        0 <= k < elems@.len() ==> (#[trigger] staff_entry_of(
                            elems@[k],
                        )) is Some)) by {
                        assert(staff_entry_of(elems@[i as int]) is None);
                    }
                }
                return None;
            },
        }
        i = i + 1;
    }
    proof {
        assert(out@ =~= Seq::new(elems@.len(), |k: int| staff_entry_of(elems@[k]).unwrap()));
    }
    Some(out)
}

/// The profile nickname-history entry a JSON value decodes to, if its shape fits.
pub open spec fn pd_nickname_entry_of(j: Json) -> Option<PlayerDataNicknameHistory> {
    match j {
        Json::Obj(fs) => match (
            str_field(fs@, "nickname"@),
            opt_bool_field(fs@, "active"@),
            str_field(fs@, "created_at"@),
            opt_str_field(fs@, "voided_at"@),
        ) {
            (Some(nickname), Some(active), Some(created_at), Some(voided_at)) => Some(PlayerDataNicknameHistory { nickname, active, created_at, voided_at }),
            _ => None,
        },
        _ => None,
    }
}

/// Decodes one profile nickname-history entry, as [`pd_nickname_entry_of`] describes.
pub fn pd_nickname_entry(j: &Json) -> (r: Option<PlayerDataNicknameHistory>)
    ensures
        r == pd_nickname_entry_of(*j),
{
    let fields = match j {
        Json::Obj(fs) => fs,
        _ => {
            return None;
        },
    };
    let nickname = match req_string(fields, "nickname") {
        Some(x) => x,
        None => {
            return None;
        },
    };
    let active = match opt_bool(fields, "active") {
        Some(x) => x,
        None => {
            return None;
        },
    };
    let created_at = match req_string(fields, "created_at") {
        Some(x) => x,
        None => {
            return None;
        },
    };
    let voided_at = match opt_string(fields, "voided_at") {
        Some(x) => x,
        None => {
            return None;
        },
    };
    Some(PlayerDataNicknameHistory { nickname, active, created_at, voided_at })
}

/// The profile nickname-history list a JSON value decodes to: an array whose every element is a
/// well-shaped entry.
pub open spec fn pd_nickname_list_of(j: Json) -> Option<Seq<PlayerDataNicknameHistory>> {
    match j {
        Json::Arr(elems) => if forall|i: int|
            0 <= i < elems@.len() ==> (#[trigger] pd_nickname_entry_of(elems@[i])) is Some {
            Some(Seq::new(elems@.len(), |i: int| pd_nickname_entry_of(elems@[i]).unwrap()))
        } else {
            None
        },
        _ => None,
    }
}

/// Decodes a profile nickname-history list, as [`pd_nickname_list_of`] describes.
pub fn pd_nickname_list(j: &Json) -> (r: Option<Vec<PlayerDataNicknameHistory>>)
    ensures
        match r {
            Some(v) => pd_nickname_list_of(*j) == Some(v@),
            None => pd_nickname_list_of(*j) is None,
        },
{
    let elems = match j {
        Json::Arr(es) => es,
        _ => {
            return None;
        },
    };
    let mut out: Vec<PlayerDataNicknameHistory> = Vec::new();
    let mut i: usize = 0;
    while i < elems.len()
        invariant
            *j == Json::Arr(*elems),
            0 <= i <= elems@.len(),
            out@.len() == i,
            forall|k: int|
                0 <= k < i ==> ((#[trigger] pd_nickname_entry_of(elems@[k])) matches Some(e)
                    && out@[k] == e),
        decreases elems@.len() - i,
    {
        match pd_nickname_entry(&elems[i]) {
            Some(e) => out.push(e),
            None => {
                proof {
                    assert(!(forall|k: int|
                        0 <= k < elems@.len() ==> (#[trigger] pd_nickname_entry_of(
                            elems@[k],
                        )) is Some)) by {
                        assert(pd_nickname_entry_of(elems@[i as int]) is None);
                    }
                }
                return None;
            },
        }
        i = i + 1;
    }
    proof {
        assert(out@ =~= Seq::new(elems@.len(), |k: int| pd_nickname_entry_of(elems@[k]).unwrap()));
    }
    Some(out)
}

/// The infraction entry a JSON value decodes to, if its shape fits.
pub open spec fn infraction_entry_of(j: Json) -> Option<PlayerDataInfractions> {
    match j {
        Json::Obj(fs) => match (
            str_field(fs@, "id"@),
            str_field(fs@, "punishment_type"@),
            opt_str_field(fs@, "executor"@),
            str_field(fs@, "reason"@),
            opt_u32_field(fs@, "length"@),
        ) {
            (Some(id), Some(punishment_type), Some(executor), Some(reason), Some(length)) => Some(PlayerDataInfractions { id, punishment_type, executor, reason, length }),
            _ => None,
        },
        _ => None,
    }
}

/// Decodes one infraction entry, as [`infraction_entry_of`] describes.
pub fn infraction_entry(j: &Json) -> (r: Option<PlayerDataInfractions>)
    ensures
        r == infraction_entry_of(*j),
{
    let fields = match j {
        Json::Obj(fs) => fs,
        _ => {
            return None;
        },
    };
    let id = match req_string(fields, "id") {
        Some(x) => x,
        None => {
            return None;
        },
    };
    let punishment_type = match req_string(fields, "punishment_type") {
        Some(x) => x,
        None => {
            return None;
        },
    };
    let executor = match opt_string(fields, "executor") {
        Some(x) => x,
        None => {
            return None;
        },
    };
    let reason = match req_string(fields, "reason") {
        Some(x) => x,
        None => {
            return None;
        },
    };
    let length = match opt_u32(fields, "length") {
        Some(x) => x,
        None => {
            return None;
        },
    };
    Some(PlayerDataInfractions { id, punishment_type, executor, reason, length })
}

/// The infraction list a JSON value decodes to: an array whose every element is a
/// well-shaped entry.
pub open spec fn infraction_list_of(j: Json) -> Option<Seq<PlayerDataInfractions>> {
    match j {
        Json::Arr(elems) => if forall|i: int|
            0 <= i < elems@.len() ==> (#[trigger] infraction_entry_of(elems@[i])) is Some {
            Some(Seq::new(elems@.len(), |i: int| infraction_entry_of(elems@[i]).unwrap()))
        } else {
            None
        },
        _ => None,
    }
}

/// Decodes a infraction list, as [`infraction_list_of`] describes.
pub fn infraction_list(j: &Json) -> (r: Option<Vec<PlayerDataInfractions>>)
    ensures
        match r {
            Some(v) => infraction_list_of(*j) == Some(v@),
            None => infraction_list_of(*j) is None,
        },
{
    let elems = match j {
        Json::Arr(es) => es,
        _ => {
            return None;
        },
    };
    let mut out: Vec<PlayerDataInfractions> = Vec::new();
    let mut i: usize = 0;
    while i < elems.len()
        invariant
            *j == Json::Arr(*elems),
            0 <= i <= elems@.len(),
            out@.len() == i,
            forall|k: int|
                0 <= k < i ==> ((#[trigger] infraction_entry_of(elems@[k])) matches Some(e)
                    && out@[k] == e),
        decreases elems@.len() - i,
    {
        match infraction_entry(&elems[i]) {
            Some(e) => out.push(e),
            None => {
                proof {
                    assert(!(forall|k: int|
                        0 <= k < elems@.len() ==> (#[trigger] infraction_entry_of(
                            elems@[k],
                        )) is Some)) by {
                        assert(infraction_entry_of(elems@[i as int]) is None);
                    }
                }
                return None;
            },
        }
        i = i + 1;
    }
    proof {
        assert(out@ =~= Seq::new(elems@.len(), |k: int| infraction_entry_of(elems@[k]).unwrap()));
    }
    Some(out)
}

/// The presence tracker a JSON value decodes to, if its shape fits.
pub open spec fn tracker_of(j: Json) -> Option<PlayerDataTracker> {
    match j {
        Json::Obj(fs) => match (
            opt_str_field(fs@, "server"@),
            opt_str_field(fs@, "map"@),
            opt_str_field(fs@, "proxy"@),
            opt_str_field(fs@, "last_login"@),
        ) {
            (Some(server), Some(map), Some(proxy), Some(last_login)) => Some(PlayerDataTracker { server, map, proxy, last_login }),
            _ => None,
        },
        _ => None,
    }
}

/// Decodes one presence tracker, as [`tracker_of`] describes.
pub fn tracker_record(j: &Json) -> (r: Option<PlayerDataTracker>)
    ensures
        r == tracker_of(*j),
{
    let fields = match j {
        Json::Obj(fs) => fs,
        _ => {
            return None;
        },
    };
    let server = match opt_string(fields, "server") {
        Some(x) => x,
        None => {
            return None;
        },
    };
    let map = match opt_string(fields, "map") {
        Some(x) => x,
        None => {
            return None;
        },
    };
    let proxy = match opt_string(fields, "proxy") {
        Some(x) => x,
        None => {
            return None;
        },
    };
    let last_login = match opt_string(fields, "last_login") {
        Some(x) => x,
        None => {
            return None;
        },
    };
    Some(PlayerDataTracker { server, map, proxy, last_login })
}

/// The IP-history entry a JSON value decodes to, if its shape fits.
pub open spec fn ip_entry_of(j: Json) -> Option<PlayerDataIPHistory> {
    match j {
        Json::Obj(fs) => match (
            str_field(fs@, "ip"@),
            str_field(fs@, "login_at"@),
            opt_str_field(fs@, "logout_at"@),
            opt_str_field(fs@, "connection_proxy"@),
        ) {
            (Some(ip), Some(login_at), Some(logout_at), Some(connection_proxy)) => Some(PlayerDataIPHistory { ip, login_at, logout_at, connection_proxy }),
            _ => None,
        },
        _ => None,
    }
}

/// Decodes one IP-history entry, as [`ip_entry_of`] describes.
pub fn ip_entry(j: &Json) -> (r: Option<PlayerDataIPHistory>)
    ensures
        r == ip_entry_of(*j),
{
    let fields = match j {
        Json::Obj(fs) => fs,
        _ => {
            return None;
        },
    };
    let ip = match req_string(fields, "ip") {
        Some(x) => x,
        None => {
            return None;
        },
    };
    let login_at = match req_string(fields, "login_at") {
        Some(x) => x,
        None => {
            return None;
        },
    };
    let logout_at = match opt_string(fields, "logout_at") {
        Some(x) => x,
        None => {
            return None;
        },
    };
    let connection_proxy = match opt_string(fields, "connection_proxy") {
        Some(x) => x,
        None => {
            return None;
        },
    };
    Some(PlayerDataIPHistory { ip, login_at, logout_at, connection_proxy })
}

/// The IP-history list a JSON value decodes to: an array whose every element is a
/// well-shaped entry.
pub open spec fn ip_list_of(j: Json) -> Option<Seq<PlayerDataIPHistory>> {
    match j {
        Json::Arr(elems) => if forall|i: int|
            0 <= i < elems@.len() ==> (#[trigger] ip_entry_of(elems@[i])) is Some {
            Some(Seq::new(elems@.len(), |i: int| ip_entry_of(elems@[i]).unwrap()))
        } else {
            None
        },
        _ => None,
    }
}

/// Decodes a IP-history list, as [`ip_list_of`] describes.
pub fn ip_list(j: &Json) -> (r: Option<Vec<PlayerDataIPHistory>>)
    ensures
        match r {
            Some(v) => ip_list_of(*j) == Some(v@),
            None => ip_list_of(*j) is None,
        },
{
    let elems = match j {
        Json::Arr(es) => es,
        _ => {
            return None;
        },
    };
    let mut out: Vec<PlayerDataIPHistory> = Vec::new();
    let mut i: usize = 0;
    while i < elems.len()
        invariant
            *j == Json::Arr(*elems),
            0 <= i <= elems@.len(),
            out@.len() == i,
            forall|k: int|
                0 <= k < i ==> ((#[trigger] ip_entry_of(elems@[k])) matches Some(e)
                    && out@[k] == e),
        decreases elems@.len() - i,
    {
        match ip_entry(&elems[i]) {
            Some(e) => out.push(e),
            None => {
                proof {
                    assert(!(forall|k: int|
                        0 <= k < elems@.len() ==> (#[trigger] ip_entry_of(
                            elems@[k],
                        )) is Some)) by {
                        assert(ip_entry_of(elems@[i as int]) is None);
                    }
                }
                return None;
            },
        }
        i = i + 1;
    }
    proof {
        assert(out@ =~= Seq::new(elems@.len(), |k: int| ip_entry_of(elems@[k]).unwrap()));
    }
    Some(out)
}

/// The endpoint-permission entry a JSON value decodes to, if its shape fits.
pub open spec fn endpoint_entry_of(j: Json) -> Option<KeyEndpoints> {
    match j {
        Json::Obj(fs) => match (
            str_field(fs@, "id"@),
            i8_field(fs@, "version"@),
            bool_field(fs@, "status"@),
        ) {
            (Some(id), Some(version), Some(status)) => Some(KeyEndpoints { id, version, status }),
            _ => None,
        },
        _ => None,
    }
}

/// Decodes one endpoint-permission entry, as [`endpoint_entry_of`] describes.
pub fn endpoint_entry(j: &Json) -> (r: Option<KeyEndpoints>)
    ensures
        r == endpoint_entry_of(*j),
{
    let fields = match j {
        Json::Obj(fs) => fs,
        _ => {
            return None;
        },
    };
    let id = match req_string(fields, "id") {
        Some(x) => x,
        None => {
            return None;
        },
    };
    let version = match req_i8(fields, "version") {
        Some(x) => x,
        None => {
            return None;
        },
    };
    let status = match req_bool(fields, "status") {
        Some(x) => x,
        None => {
            return None;
        },
    };
    Some(KeyEndpoints { id, version, status })
}

/// The endpoint-permission list a JSON value decodes to: an array whose every element is a
/// well-shaped entry.
pub open spec fn endpoint_list_of(j: Json) -> Option<Seq<KeyEndpoints>> {
    match j {
        Json::Arr(elems) => if forall|i: int|
            0 <= i < elems@.len() ==> (#[trigger] endpoint_entry_of(elems@[i])) is Some {
            Some(Seq::new(elems@.len(), |i: int| endpoint_entry_of(elems@[i]).unwrap()))
        } else {
            None
        },
        _ => None,
    }
}

/// Decodes a endpoint-permission list, as [`endpoint_list_of`] describes.
pub fn endpoint_list(j: &Json) -> (r: Option<Vec<KeyEndpoints>>)
    ensures
        match r {
            Some(v) => endpoint_list_of(*j) == Some(v@),
            None => endpoint_list_of(*j) is None,
        },
{
    let elems = match j {
        Json::Arr(es) => es,
        _ => {
            return None;
        },
    };
    let mut out: Vec<KeyEndpoints> = Vec::new();
    let mut i: usize = 0;
    while i < elems.len()
        invariant
            *j == Json::Arr(*elems),
            0 <= i <= elems@.len(),
            out@.len() == i,
            forall|k: int|
                0 <= k < i ==> ((#[trigger] endpoint_entry_of(elems@[k])) matches Some(e)
                    && out@[k] == e),
        decreases elems@.len() - i,
    {
        match endpoint_entry(&elems[i]) {
            Some(e) => out.push(e),
            None => {
                proof {
                    assert(!(forall|k: int|
                        0 <= k < elems@.len() ==> (#[trigger] endpoint_entry_of(
                            elems@[k],
                        )) is Some)) by {
                        assert(endpoint_entry_of(elems@[i as int]) is None);
                    }
                }
                return None;
            },
        }
        i = i + 1;
    }
    proof {
        assert(out@ =~= Seq::new(elems@.len(), |k: int| endpoint_entry_of(elems@[k]).unwrap()));
    }
    Some(out)
}

/// The player profile a JSON value decodes to, if its shape fits: the
/// nickname-history, infraction and tracker fields are required, the
/// IP-history list is optional.
pub open spec fn player_data_of(j: Json) -> Option<PlayerDataView> {
    match j {
        Json::Obj(fs) => {
            let uuid = str_field(fs@, "uuid"@);
            let nh = match lookup(fs@, "nickname_history"@) {
                Some(x) => pd_nickname_list_of(x),
                None => None,
            };
            let inf = match lookup(fs@, "infractions"@) {
                Some(x) => infraction_list_of(x),
                None => None,
            };
            let tr = match lookup(fs@, "tracker"@) {
                Some(x) => tracker_of(x),
                None => None,
            };
            let ip = match lookup(fs@, "ip_history"@) {
                None => Some(None),
                Some(Json::Null) => Some(None),
                Some(x) => match ip_list_of(x) {
                    Some(l) => Some(Some(l)),
                    None => None,
                },
            };
            match (uuid, nh, inf, tr, ip) {
                (Some(uuid), Some(nh), Some(inf), Some(tr), Some(ip)) => Some(
                    PlayerDataView {
                        uuid,
                        nickname_history: nh,
                        infractions: inf,
                        tracker: tr,
                        ip_history: ip,
                    },
                ),
                _ => None,
            }
        },
        _ => None,
    }
}

/// Decodes a player profile, as [`player_data_of`] describes.
pub fn player_data_record(j: &Json) -> (r: Option<PlayerData>)
    ensures
        match r {
            Some(p) => player_data_of(*j) == Some(p@),
            None => player_data_of(*j) is None,
        },
{
    let fields = match j {
        Json::Obj(fs) => fs,
        _ => {
            return None;
        },
    };
    let uuid = match req_string(fields, "uuid") {
        Some(s) => s,
        None => {
            return None;
        },
    };
    let nh = match obj_field(fields, "nickname_history") {
        Some(x) => match pd_nickname_list(x) {
            Some(v) => v,
            None => {
                return None;
            },
        },
        None => {
            return None;
        },
    };
    let inf = match obj_field(fields, "infractions") {
        Some(x) => match infraction_list(x) {
            Some(v) => v,
            None => {
                return None;
            },
        },
        None => {
            return None;
        },
    };
    let tr = match obj_field(fields, "tracker") {
        Some(x) => match tracker_record(x) {
            Some(t) => t,
            None => {
                return None;
            },
        },
        None => {
            return None;
        },
    };
    let ip = match obj_field(fields, "ip_history") {
        None => None,
        Some(Json::Null) => None,
        Some(x) => match ip_list(x) {
            Some(v) => Some(v),
            None => {
                return None;
            },
        },
    };
    Some(PlayerData { uuid, nickname_history: nh, infractions: inf, tracker: tr, ip_history: ip })
}

/// The key-data record a JSON value decodes to, if its shape fits: key and
/// validity fields are required, the timestamps and owner are optional, and
/// the endpoint list is required.
pub open spec fn key_data_of(j: Json) -> Option<KeyDataView> {
    match j {
        Json::Obj(fs) => {
            let key = str_field(fs@, "key"@);
            let valid = bool_field(fs@, "valid"@);
            let active = bool_field(fs@, "active"@);
            let created_at = opt_str_field(fs@, "created_at"@);
            let expires_at = opt_str_field(fs@, "expires_at"@);
            let owner = opt_str_field(fs@, "owner_cactiveconnections_id"@);
            let eps = match lookup(fs@, "endpoints"@) {
                Some(x) => endpoint_list_of(x),
                None => None,
            };
            match (key, valid, active, created_at, expires_at, owner, eps) {
                (
                    Some(key),
                    Some(valid),
                    Some(active),
                    Some(created_at),
                    Some(expires_at),
                    Some(owner),
                    Some(eps),
                ) => Some(
                    KeyDataView {
                        key,
                        valid,
                        active,
                        created_at,
                        expires_at,
                        owner_cactiveconnections_id: owner,
                        endpoints: eps,
                    },
                ),
                _ => None,
            }
        },
        _ => None,
    }
}

/// Decodes a key-data record, as [`key_data_of`] describes.
pub fn key_data_record(j: &Json) -> (r: Option<KeyData>)
    ensures
        match r {
            Some(k) => key_data_of(*j) == Some(k@),
            None => key_data_of(*j) is None,
        },
{
    let fields = match j {
        Json::Obj(fs) => fs,
        _ => {
            return None;
        },
    };
    let key = match req_string(fields, "key") {
        Some(s) => s,
        None => {
            return None;
        },
    };
    let valid = match req_bool(fields, "valid") {
        Some(b) => b,
        None => {
            return None;
        },
    };
    let active = match req_bool(fields, "active") {
        Some(b) => b,
        None => {
            return None;
        },
    };
    let created_at = match opt_string(fields, "created_at") {
        Some(v) => v,
        None => {
            return None;
        },
    };
    let expires_at = match opt_string(fields, "expires_at") {
        Some(v) => v,
        None => {
            return None;
        },
    };
    let owner = match opt_string(fields, "owner_cactiveconnections_id") {
        Some(v) => v,
        None => {
            return None;
        },
    };
    let eps = match obj_field(fields, "endpoints") {
        Some(x) => match endpoint_list(x) {
            Some(v) => v,
            None => {
                return None;
            },
        },
        None => {
            return None;
        },
    };
    Some(
        KeyData {
            key,
            valid,
            active,
            created_at,
            expires_at,
            owner_cactiveconnections_id: owner,
            endpoints: eps,
        },
    )
}

} // verus!
