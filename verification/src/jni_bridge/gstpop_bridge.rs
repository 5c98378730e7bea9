//! The gst-pop service host: which port its start request asks for.

use vstd::prelude::*;
use crate::backend::gstpop::embedded::{spec_url_port, url_port};
use crate::backend::gstpop::protocol::{json_read, read_json};
use crate::command::http_runner::result_view;
use crate::json::{json_get, Json, JsonValue};

verus! {

/// The port named by a service configuration document, given how it
/// read as JSON: the port of its `gstpop_url` string, when the document is
/// JSON and has one.
pub open spec fn config_port_from(parsed: Result<Json, Seq<char>>) -> Option<u16> {
    match parsed {
        Ok(doc) => match json_get(doc, "gstpop_url"@) {
            Some(Json::Str(url)) => Some(spec_url_port(url)),
            _ => None,
        },
        Err(_) => None,
    }
}

/// The port named by a service configuration document.
pub open spec fn config_port(config_json: Seq<char>) -> Option<u16> {
    config_port_from(json_read(config_json))
}

/// The port that a read configuration document names (see
/// [`config_port_from`]).
pub fn config_port_from_parsed(parsed: &Result<JsonValue, String>) -> (r: Option<u16>)
    ensures
        r == config_port_from(result_view(*parsed)),
{
    match parsed {
        Ok(doc) => match doc.get("gstpop_url") {
            Some(url) => match url.as_str() {
                Some(u) => Some(url_port(u.as_str())),
                None => None,
            },
            None => None,
        },
        Err(_) => None,
    }
}

/// The port named by a service configuration document, if any.
pub fn parse_gstpop_config_port(config_json: &str) -> (r: Option<u16>)
    ensures
        r == config_port(config_json@),
{
    config_port_from_parsed(&read_json(config_json))
}

/// The port the embedded daemon is started on: the configured one, else
/// 9000.
pub fn start_port(config_json: &str) -> (port: u16)
    ensures
        port == match config_port(config_json@) {
            Some(p) => p,
            None => 9000u16,
        },
{
    match parse_gstpop_config_port(config_json) {
        Some(p) => p,
        None => 9000,
    }
}

} // verus!
