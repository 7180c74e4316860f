use vstd::prelude::*;
use crate::error::{ApiError, ErrorKind};
use crate::net::{http_api_owned_games, http_api_steamid, is_success_code};
use crate::props::entry_views;

verus! {

/// A client for the remote directory service, carrying the caller's API
/// key. The service resolves a human-readable handle to an internal
/// identifier and lists the items an identifier owns.
pub struct Api {
    key: String,
}

impl View for Api {
    type V = Seq<char>;

    closed spec fn view(&self) -> Seq<char> {
        self.key@
    }
}

/// The service root under which every directory call is made.
pub open spec fn api_root() -> Seq<char> {
    "https://api.steampowered.com/"@
}

/// The identifiers present in an owned-items listing, in order, entries
/// without one skipped.
pub open spec fn present_ids(s: Seq<Option<u64>>) -> Seq<u64>
    decreases s.len(),
{
    if s.len() == 0 {
        Seq::empty()
    } else {
        let rest = present_ids(s.drop_last());
        match s.last() {
            Some(v) => rest.push(v),
            None => rest,
        }
    }
}

/// Decides a handle-resolution response: the identifier on a success
/// status that carried one, and an error on a non-2xx status or on a
/// response without the identifier field.
pub fn steamid_of_response(status: u16, steamid: Option<String>) -> (r: Result<String, ApiError>)
    ensures
        (match r {
            Ok(s) => is_success_code(status) && (steamid matches Some(t) && s == t),
            Err(e) => (!is_success_code(status) || steamid is None) && e@.kind
                == ErrorKind::Lookup,
        }),
{
    if !(200 <= status && status < 300) {
        return Err(ApiError::new(ErrorKind::Lookup, "Steam API returned an invalid response code"));
    }
    match steamid {
        Some(s) => Ok(s),
        None => Err(ApiError::new(ErrorKind::Lookup, "Steam API returned an invalid response")),
    }
}

/// Decides an owned-items response: on a success status that carried a
/// listing, the identifiers present in it in order, and an error on a
/// non-2xx status or on a response without the listing.
pub fn appids_of_response(status: u16, games: Option<Vec<Option<u64>>>) -> (r: Result<
    Vec<u64>,
    ApiError,
>)
    ensures
        (match r {
            Ok(ids) => is_success_code(status) && (games matches Some(g) && ids@ == present_ids(
                g@,
            )),
            Err(e) => (!is_success_code(status) || games is None) && e@.kind
                == ErrorKind::Lookup,
        }),
{
    if !(200 <= status && status < 300) {
        return Err(ApiError::new(ErrorKind::Lookup, "Steam API returned an invalid response code"));
    }
    let games = match games {
        Some(g) => g,
        None => {
            return Err(ApiError::new(ErrorKind::Lookup, "Steam API returned an invalid response"));
        },
    };
    let mut ids: Vec<u64> = Vec::new();
    let mut i: usize = 0;
    while i < games.len()
        invariant
            0 <= i <= games@.len(),
            ids@ == present_ids(games@.subrange(0, i as int)),
        decreases games@.len() - i,
    {
        proof {
            assert(games@.subrange(0, i + 1).drop_last() =~= games@.subrange(0, i as int));
            assert(games@.subrange(0, i + 1).last() == games@[i as int]);
        }
        match games[i] {
            Some(v) => ids.push(v),
            None => (),
        }
        i = i + 1;
    }
    proof {
        assert(games@.subrange(0, games@.len() as int) =~= games@);
    }
    Ok(ids)
}

impl Api {
    /// A client using the given API key for every call.
    pub fn new(key: &str) -> (r: Api)
        ensures
            r@ == key@,
    {
        Api { key: key.to_owned() }
    }

    /// The full URL of one directory call.
    fn call_url(&self, path: &str) -> (r: String)
        ensures
            r@ == api_root() + path@,
    {
        let base: String = "https://api.steampowered.com/".to_owned();
        base.concat(path)
    }

    /// The query attached to a handle-resolution call: the API key and the
    /// handle, under the service's parameter names.
    fn vanity_query(&self, username: &str) -> (q: Vec<(String, String)>)
        ensures
            entry_views(q@) == seq![("key"@, self@), ("vanityurl"@, username@)],
    {
        let mut q: Vec<(String, String)> = Vec::new();
        q.push(("key".to_owned(), self.key.clone()));
        q.push(("vanityurl".to_owned(), username.to_owned()));
        proof {
            assert(q@[0].0@ == "key"@);
            assert(q@[0].1@ == self@);
            assert(q@[1].0@ == "vanityurl"@);
            assert(q@[1].1@ == username@);
            assert(entry_views(q@) =~= seq![("key"@, self@), ("vanityurl"@, username@)]);
        }
        q
    }

    /// The query attached to an owned-items call: the API key, the
    /// internal identifier, and the response format, under the service's
    /// parameter names.
    fn owned_games_query(&self, steamid: &str) -> (q: Vec<(String, String)>)
        ensures
            entry_views(q@) == seq![
                ("key"@, self@),
                ("steamid"@, steamid@),
                ("format"@, "json"@),
            ],
    {
        let mut q: Vec<(String, String)> = Vec::new();
        q.push(("key".to_owned(), self.key.clone()));
        q.push(("steamid".to_owned(), steamid.to_owned()));
        q.push(("format".to_owned(), "json".to_owned()));
        proof {
            assert(q@[0].0@ == "key"@);
            assert(q@[0].1@ == self@);
            assert(q@[1].0@ == "steamid"@);
            assert(q@[1].1@ == steamid@);
            assert(q@[2].0@ == "format"@);
            assert(q@[2].1@ == "json"@);
            assert(entry_views(q@) =~= seq![
                ("key"@, self@),
                ("steamid"@, steamid@),
                ("format"@, "json"@),
            ]);
        }
        q
    }

    /// Resolves a human-readable handle to the internal identifier the
    /// directory returns for it. The URL and query are fixed by
    /// `call_url` and `vanity_query`; the outcome rests with the remote
    /// service and is decided exactly as `steamid_of_response` states, so
    /// every failure carries the lookup kind.
    pub fn resolve_vanity_url(&self, username: &str) -> (r: Result<String, ApiError>)
        ensures
            r matches Err(e) ==> e@.kind == ErrorKind::Lookup,
    {
        let url = self.call_url("ISteamUser/ResolveVanityURL/v0001/");
        let query = self.vanity_query(username);
        match http_api_steamid(url.as_str(), &query) {
            Ok((status, steamid)) => steamid_of_response(status, steamid),
            Err(e) => Err(ApiError::new(ErrorKind::Lookup, e.as_str())),
        }
    }

    /// Lists the item identifiers owned by the given internal identifier.
    /// The URL and query are fixed by `call_url` and `owned_games_query`;
    /// the outcome rests with the remote service and is decided exactly as
    /// `appids_of_response` states, so every failure carries the lookup
    /// kind.
    pub fn get_owned_games(&self, steamid: &str) -> (r: Result<Vec<u64>, ApiError>)
        ensures
            r matches Err(e) ==> e@.kind == ErrorKind::Lookup,
    {
        let url = self.call_url("IPlayerService/GetOwnedGames/v0001/");
        let query = self.owned_games_query(steamid);
        match http_api_owned_games(url.as_str(), &query) {
            Ok((status, games)) => appids_of_response(status, games),
            Err(e) => Err(ApiError::new(ErrorKind::Lookup, e.as_str())),
        }
    }
}

} // verus!
