//! The API client: it owns an API key and a cache preference, builds the
//! request URL for each remote operation, and normalizes failures into
//! [`InternalError`] lists.
//!
//! The client never performs the HTTP GET itself: a caller sends the URL
//! built here, then hands the response text to the decoders in
//! [`crate::envelope`].

use vstd::prelude::*;
use vstd::string::StringExecFns;

use crate::error::{is_single_internal, normalized, APIError, InternalError};

verus! {

/// A client of the remote API: the key and cache flag are stored verbatim and
/// embedded in every request URL.
pub struct Client {
    pub key: String,
    pub cache: bool,
}

/// The base URL every request starts from.
pub open spec fn api_base() -> Seq<char> {
    "https://hypixel.cactive.network/api/v3"@
}

/// How a cache flag reads inside a query string.
pub open spec fn bool_seq(b: bool) -> Seq<char> {
    if b {
        "true"@
    } else {
        "false"@
    }
}

/// The query-string form of a boolean, as [`bool_seq`] describes.
pub fn bool_str(b: bool) -> (r: &'static str)
    ensures
        r@ == bool_seq(b),
{
    if b {
        "true"
    } else {
        "false"
    }
}

/// The nickname-history request URL for the given key, cache flag and
/// nickname.
pub open spec fn nickname_history_url_spec(key: Seq<char>, cache: bool, nickname: Seq<char>) -> Seq<
    char,
> {
    api_base() + "/nickname-history?key="@ + key + "&cache="@ + bool_seq(cache) + "&nickname="@
        + nickname
}

/// The player-data request URL for the given key, cache flag and UUID.
pub open spec fn player_data_url_spec(key: Seq<char>, cache: bool, uuid: Seq<char>) -> Seq<char> {
    api_base() + "/player-data?key="@ + key + "&cache="@ + bool_seq(cache) + "&uuid="@ + uuid
}

/// The staff-tracker request URL for the given key, cache flag and filter.
pub open spec fn staff_tracker_url_spec(key: Seq<char>, cache: bool, filter: Seq<char>) -> Seq<
    char,
> {
    api_base() + "/staff-tracker?key="@ + key + "&cache="@ + bool_seq(cache) + "&filter="@ + filter
}

/// The punishment request URL for the given key, cache flag and punishment
/// id. It reuses the staff-tracker path: that is how the remote service
/// routes this lookup.
pub open spec fn punishment_data_url_spec(key: Seq<char>, cache: bool, id: Seq<char>) -> Seq<
    char,
> {
    api_base() + "/staff-tracker?key="@ + key + "&cache="@ + bool_seq(cache) + "&id="@ + id
}

/// The key-introspection request URL: only the looked-up key is embedded.
pub open spec fn key_data_url_spec(key: Seq<char>) -> Seq<char> {
    api_base() + "/key?key="@ + key
}

impl Client {
    /// Creates a client holding the key and cache flag verbatim; the key's
    /// format is not validated.
    pub fn new(key: String, cache: bool) -> (r: Client)
        ensures
            r.key == key,
            r.cache == cache,
    {
        Client { key, cache }
    }

    /// Builds the nickname-history request URL, exactly as
    /// [`nickname_history_url_spec`] lays it out.
    pub fn nickname_history_url(&self, nickname: &str) -> (r: String)
        ensures
            r@ == nickname_history_url_spec(self.key@, self.cache, nickname@),
    {
        let mut url = String::new();
        url.append("https://hypixel.cactive.network/api/v3");
        url.append("/nickname-history?key=");
        url.append(self.key.as_str());
        url.append("&cache=");
        url.append(bool_str(self.cache));
        url.append("&nickname=");
        url.append(nickname);
        proof {
            assert(url@ =~= nickname_history_url_spec(self.key@, self.cache, nickname@));
        }
        url
    }

    /// Builds the player-data request URL, exactly as
    /// [`player_data_url_spec`] lays it out.
    pub fn player_data_url(&self, uuid: &str) -> (r: String)
        ensures
            r@ == player_data_url_spec(self.key@, self.cache, uuid@),
    {
        let mut url = String::new();
        url.append("https://hypixel.cactive.network/api/v3");
        url.append("/player-data?key=");
        url.append(self.key.as_str());
        url.append("&cache=");
        url.append(bool_str(self.cache));
        url.append("&uuid=");
        url.append(uuid);
        proof {
            assert(url@ =~= player_data_url_spec(self.key@, self.cache, uuid@));
        }
        url
    }

    /// Builds the staff-tracker request URL, exactly as
    /// [`staff_tracker_url_spec`] lays it out.
    pub fn staff_tracker_url(&self, filter: &str) -> (r: String)
        ensures
            r@ == staff_tracker_url_spec(self.key@, self.cache, filter@),
    {
        let mut url = String::new();
        url.append("https://hypixel.cactive.network/api/v3");
        url.append("/staff-tracker?key=");
        url.append(self.key.as_str());
        url.append("&cache=");
        url.append(bool_str(self.cache));
        url.append("&filter=");
        url.append(filter);
        proof {
            assert(url@ =~= staff_tracker_url_spec(self.key@, self.cache, filter@));
        }
        url
    }

    /// Builds the punishment request URL, exactly as
    /// [`punishment_data_url_spec`] lays it out.
    pub fn punishment_data_url(&self, id: &str) -> (r: String)
        ensures
            r@ == punishment_data_url_spec(self.key@, self.cache, id@),
    {
        let mut url = String::new();
        url.append("https://hypixel.cactive.network/api/v3");
        url.append("/staff-tracker?key=");
        url.append(self.key.as_str());
        url.append("&cache=");
        url.append(bool_str(self.cache));
        url.append("&id=");
        url.append(id);
        proof {
            assert(url@ =~= punishment_data_url_spec(self.key@, self.cache, id@));
        }
        url
    }

    /// Builds the key-introspection request URL, exactly as
    /// [`key_data_url_spec`] lays it out; the client's own stored key is not
    /// embedded.
    pub fn key_data_url(&self, key: &str) -> (r: String)
        ensures
            r@ == key_data_url_spec(key@),
    {
        let mut url = String::new();
        url.append("https://hypixel.cactive.network/api/v3");
        url.append("/key?key=");
        url.append(key);
        proof {
            assert(url@ =~= key_data_url_spec(key@));
        }
        url
    }

    /// Wraps a locally-detected failure (transport or decode) as the single
    /// normalized error the caller sees: `internal` set, code 500, the fixed
    /// failure type, and the underlying error text as the message.
    pub fn map_internal_error(error: String) -> (r: Vec<InternalError>)
        ensures
            is_single_internal(r@, error@),
    {
        let mut out: Vec<InternalError> = Vec::new();
        out.push(
            InternalError {
                error_type: "failed-api-request".to_owned(),
                code: 500,
                message: error,
                internal: true,
            },
        );
        out
    }

    /// Normalizes a server-reported error list entry by entry: fields are
    /// copied verbatim, `internal` is false, and the order is preserved.
    pub fn map_external_error(errors: Vec<APIError>) -> (r: Vec<InternalError>)
        ensures
            r@ == normalized(errors@),
    {
        let mut out: Vec<InternalError> = Vec::new();
        let mut i: usize = 0;
        while i < errors.len()
            invariant
                0 <= i <= errors@.len(),
                out@ =~= normalized(errors@.take(i as int)),
            decreases errors@.len() - i,
        {
            let e = &errors[i];
            out.push(
                InternalError {
                    error_type: e.error_type.clone(),
                    code: e.code,
                    message: e.message.clone(),
                    internal: false,
                },
            );
            i = i + 1;
        }
        proof {
            assert(errors@.take(errors@.len() as int) =~= errors@);
            assert(out@ =~= normalized(errors@));
        }
        out
    }
}

} // verus!
