use vstd::prelude::*;

verus! {

/// Whether an HTTP status code reports success.
pub open spec fn is_success_code(status: u16) -> bool {
    200 <= status < 300
}

/// Relies on reqwest's blocking client (`Client::builder`, `build`,
/// `get`, `header`, `send`, `Response::status`, `Response::text`): one
/// HTTP GET for `url` with the two fixed gate cookies attached, handing
/// back the status code and the body text, or the message of a client
/// construction or transport failure. Nothing is promised of the
/// network's answer.
#[verifier::external_body]
pub(crate) fn http_get_page(url: &str) -> (r: Result<(u16, String), String>) {
    let resp = match reqwest::blocking::Client::builder().build().and_then(|client| {
        client.get(url).header("Cookie", "birthtime=400000000; mature_content=1").send()
    }) {
        Ok(resp) => resp,
        Err(e) => return Err(e.to_string()),
    };
    let status = resp.status().as_u16();
    match resp.text() {
        Ok(body) => Ok((status, body)),
        Err(e) => Err(e.to_string()),
    }
}

/// Relies on reqwest's blocking `get`, `Response::status` and
/// `Response::bytes`: one undecorated HTTP GET for `url`, handing back the
/// status code and the raw body bytes, or a transport error's message.
/// Nothing is promised of the network's answer.
#[verifier::external_body]
pub(crate) fn http_get_bytes(url: &str) -> (r: Result<(u16, Vec<u8>), String>) {
    let resp = match reqwest::blocking::get(url) {
        Ok(resp) => resp,
        Err(e) => return Err(e.to_string()),
    };
    let status = resp.status().as_u16();
    match resp.bytes() {
        Ok(b) => Ok((status, b.to_vec())),
        Err(e) => Err(e.to_string()),
    }
}

/// Relies on reqwest's blocking client (`Client::builder`, `build`,
/// `get`, `query`, `send`, `Response::status`, `Response::json`) and
/// serde_json's `Value` indexing and `as_str`: one HTTP GET for `url`
/// with `query` attached, handing back the status code and the
/// "response"."steamid" string of the JSON body when the body parses and
/// carries one, or the message of a client construction or transport
/// failure. Nothing is promised of the network's answer.
#[verifier::external_body]
pub(crate) fn http_api_steamid(url: &str, query: &Vec<(String, String)>) -> (r: Result<
    (u16, Option<String>),
    String,
>) {
    let resp = match reqwest::blocking::Client::builder().build().and_then(|client| {
        client.get(url).query(query).send()
    }) {
        Ok(resp) => resp,
        Err(e) => return Err(e.to_string()),
    };
    let status = resp.status().as_u16();
    let value: serde_json::Value = match resp.json() {
        Ok(v) => v,
        Err(_) => serde_json::Value::Null,
    };
    let steamid = value["response"]["steamid"].as_str().map(|s| s.to_string());
    Ok((status, steamid))
}

/// Relies on reqwest's blocking client (`Client::builder`, `build`,
/// `get`, `query`, `send`, `Response::status`, `Response::json`) and
/// serde_json's `Value` indexing, `as_array` and `as_u64`: one HTTP GET
/// for `url` with `query` attached, handing back the status code and,
/// when the JSON body parses and carries a "response"."games" array, each
/// entry's numeric "appid" where it has one, or the message of a client
/// construction or transport failure. Nothing is promised of the
/// network's answer.
#[verifier::external_body]
pub(crate) fn http_api_owned_games(url: &str, query: &Vec<(String, String)>) -> (r: Result<
    (u16, Option<Vec<Option<u64>>>),
    String,
>) {
    let resp = match reqwest::blocking::Client::builder().build().and_then(|client| {
        client.get(url).query(query).send()
    }) {
        Ok(resp) => resp,
        Err(e) => return Err(e.to_string()),
    };
    let status = resp.status().as_u16();
    let value: serde_json::Value = match resp.json() {
        Ok(v) => v,
        Err(_) => serde_json::Value::Null,
    };
    let games = value["response"]["games"].as_array().map(
        |games| games.iter().map(|g| g["appid"].as_u64()).collect(),
    );
    Ok((status, games))
}

} // verus!
