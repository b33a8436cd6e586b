use vstd::prelude::*;

pub mod api;
pub mod color;
pub mod error;
pub mod json;
pub mod parse;
pub mod text;

use crate::api::effects::{EffectDetails, PluginOption, options_join, details_text, trans_time_text, delay_time_text, lin_direction_text, loop_text, option_text, push_effect_details};
use crate::color::NanoLeafColor;
use crate::error::NanoLeafError;
use crate::json::{JsonVal, as_text, get_text};
use crate::text::{bool_lit, text_lit, push_chars, push_text_lit, string_from_chars};

verus! {

/// True exactly for the HTTP status codes that signal success.
pub open spec fn status_ok(status: u16) -> bool {
    200 <= status < 300
}

/// Executable test for a successful HTTP status.
pub fn status_is_success(status: u16) -> (r: bool)
    ensures
        r == status_ok(status),
{
    200 <= status && status < 300
}

/// The HTTP methods the device's API uses.
#[derive(Debug, Clone, Copy, PartialEq, Eq, Structural)]
pub enum HttpMethod {
    Get,
    Put,
}

/// One fully built HTTP request: everything the transport needs. The
/// library builds these; performing them is the caller's business.
#[derive(Debug, Clone)]
pub struct HttpRequest {
    pub method: HttpMethod,
    pub url: String,
    pub body: Option<String>,
}

/// The URL every call targets: `<host>/api/v1/<access_token>/<endpoint>`.
pub open spec fn api_url(host: Seq<char>, token: Seq<char>, endpoint: Seq<char>) -> Seq<char> {
    host + "/api/v1/"@ + token + "/"@ + endpoint
}

/// The power command body: exactly `{"on":{"value":<bool>}}`.
pub open spec fn on_body(value: bool) -> Seq<char> {
    "{\"on\":{\"value\":"@ + bool_lit(value) + "}}"@
}

/// The effect selection body: exactly `{"select":<name>}`.
pub open spec fn select_body(name: Seq<char>) -> Seq<char> {
    "{\"select\":"@ + text_lit(name) + "}"@
}

/// The minimal effect-request body, wrapped under `write`.
pub open spec fn request_body(name: Seq<char>) -> Seq<char> {
    "{\"write\":{\"command\":\"request\",\"animName\":"@ + text_lit(name) + "}}"@
}

/// The fixed option set of the wheel effect, comma-joined in fixed order:
/// transition time 24, delay time 0, direction `right`, loop on.
pub open spec fn wheel_options_text() -> Seq<char> {
    trans_time_text(24) + ","@ + delay_time_text(0) + ","@ + lin_direction_text("right"@) + ","@
        + loop_text(true)
}

/// The full add-wheel-effect body: the `EffectDetails` wire object under
/// `write`, with the policy defaults this operation bakes in (plugin UUID,
/// protocol version `2.0`, animation type `plugin`, color type `HSB`, no
/// overlay, and the fixed option set), the palette in input order.
pub open spec fn wheel_body(name: Seq<char>, palette: Seq<NanoLeafColor>) -> Seq<char> {
    "{\"write\":"@ + details_text(
        "add"@,
        "2.0"@,
        "plugin"@,
        name,
        "HSB"@,
        "027842e4-e1d6-4a4c-a731-be74a1ebd4cf"@,
        "color"@,
        wheel_options_text(),
        palette,
        false,
    ) + "}"@
}

/// A handle on one device: the host and the pre-obtained access token,
/// fixed at construction.
pub struct NanoLeafClient {
    pub access_token: String,
    pub host: String,
}

impl NanoLeafClient {
    /// Binds a host and an access token.
    pub fn new(access_token: &str, host: &str) -> (c: NanoLeafClient)
        ensures
            c.access_token@ == access_token@,
            c.host@ == host@,
    {
        NanoLeafClient { access_token: access_token.to_owned(), host: host.to_owned() }
    }

    /// The URL for `endpoint`, exactly as `api_url` states.
    pub fn api(&self, endpoint: &str) -> (r: String)
        ensures
            r@ == api_url(self.host@, self.access_token@, endpoint@),
    {
        let mut out: Vec<char> = Vec::new();
        push_chars(&mut out, self.host.as_str());
        push_chars(&mut out, "/api/v1/");
        push_chars(&mut out, self.access_token.as_str());
        push_chars(&mut out, "/");
        push_chars(&mut out, endpoint);
        let r = string_from_chars(out);
        assert(r@ =~= api_url(self.host@, self.access_token@, endpoint@));
        r
    }

    /// The read of the full device snapshot: a GET of the API root,
    /// with no body.
    pub fn info_request(&self) -> (r: HttpRequest)
        ensures
            r.method == HttpMethod::Get,
            r.url@ == api_url(self.host@, self.access_token@, ""@),
            r.body is None,
    {
        HttpRequest { method: HttpMethod::Get, url: self.api(""), body: None }
    }

    /// The power command: a PUT of `state/on` whose body is exactly
    /// `{"on":{"value":<value>}}`, key names case-sensitive, nothing else.
    pub fn on_request(&self, value: bool) -> (r: HttpRequest)
        ensures
            r.method == HttpMethod::Put,
            r.url@ == api_url(self.host@, self.access_token@, "state/on"@),
            r.body matches Some(b) && b@ == on_body(value),
    {
        let mut out: Vec<char> = Vec::new();
        push_chars(&mut out, "{\"on\":{\"value\":");
        push_chars(&mut out, if value { "true" } else { "false" });
        push_chars(&mut out, "}}");
        let body = string_from_chars(out);
        assert(body@ =~= on_body(value));
        HttpRequest { method: HttpMethod::Put, url: self.api("state/on"), body: Some(body) }
    }

    /// The query for the currently selected effect: a GET of
    /// `effects/select`, with no body.
    pub fn select_get_request(&self) -> (r: HttpRequest)
        ensures
            r.method == HttpMethod::Get,
            r.url@ == api_url(self.host@, self.access_token@, "effects/select"@),
            r.body is None,
    {
        HttpRequest { method: HttpMethod::Get, url: self.api("effects/select"), body: None }
    }

    /// The effect selection: a PUT of `effects` whose body is exactly
    /// `{"select":<name>}`.
    pub fn select_put_request(&self, name: &str) -> (r: HttpRequest)
        ensures
            r.method == HttpMethod::Put,
            r.url@ == api_url(self.host@, self.access_token@, "effects"@),
            r.body matches Some(b) && b@ == select_body(name@),
    {
        let mut out: Vec<char> = Vec::new();
        push_chars(&mut out, "{\"select\":");
        push_text_lit(&mut out, name);
        push_chars(&mut out, "}");
        let body = string_from_chars(out);
        assert(body@ =~= select_body(name@));
        HttpRequest { method: HttpMethod::Put, url: self.api("effects"), body: Some(body) }
    }

    /// The minimal effect request: a PUT of `effects` whose body is the
    /// `write` command `request` with only the animation name.
    pub fn request_effect_request(&self, name: &str) -> (r: HttpRequest)
        ensures
            r.method == HttpMethod::Put,
            r.url@ == api_url(self.host@, self.access_token@, "effects"@),
            r.body matches Some(b) && b@ == request_body(name@),
    {
        let mut out: Vec<char> = Vec::new();
        push_chars(&mut out, "{\"write\":{\"command\":\"request\",\"animName\":");
        push_text_lit(&mut out, name);
        push_chars(&mut out, "}}");
        let body = string_from_chars(out);
        assert(body@ =~= request_body(name@));
        HttpRequest { method: HttpMethod::Put, url: self.api("effects"), body: Some(body) }
    }

    /// The add of a new color-wheel effect: a PUT of `effects` whose body
    /// is exactly `wheel_body`: the given name, the palette in input
    /// order, and the baked-in plugin identity and fixed option set.
    pub fn add_wheel_effect_request(&self, name: &str, palette: Vec<NanoLeafColor>) -> (r:
        HttpRequest)
        ensures
            r.method == HttpMethod::Put,
            r.url@ == api_url(self.host@, self.access_token@, "effects"@),
            r.body matches Some(b) && b@ == wheel_body(name@, palette@),
    {
        let mut plugin_options: Vec<PluginOption> = Vec::new();
        plugin_options.push(PluginOption::TransTime(24));
        plugin_options.push(PluginOption::DelayTime(0));
        plugin_options.push(PluginOption::LinDirection("right".to_owned()));
        plugin_options.push(PluginOption::Loop(true));
        proof {
            assert(plugin_options@.len() == 4);
            assert(options_join(plugin_options@, 3) == option_text(plugin_options@[3]));
            assert(options_join(plugin_options@, 2) == option_text(plugin_options@[2]) + ","@
                + options_join(plugin_options@, 3));
            assert(options_join(plugin_options@, 1) == option_text(plugin_options@[1]) + ","@
                + options_join(plugin_options@, 2));
            assert(options_join(plugin_options@, 0) == option_text(plugin_options@[0]) + ","@
                + options_join(plugin_options@, 1));
            assert(options_join(plugin_options@, 0) =~= wheel_options_text());
        }
        let details = EffectDetails {
            command: "add".to_owned(),
            version: "2.0".to_owned(),
            anim_type: "plugin".to_owned(),
            anim_name: name.to_owned(),
            color_type: "HSB".to_owned(),
            plugin_uuid: "027842e4-e1d6-4a4c-a731-be74a1ebd4cf".to_owned(),
            plugin_type: "color".to_owned(),
            plugin_options,
            palette,
            has_overlay: false,
        };
        let mut out: Vec<char> = Vec::new();
        push_chars(&mut out, "{\"write\":");
        push_effect_details(&mut out, &details);
        push_chars(&mut out, "}");
        let body = string_from_chars(out);
        assert(body@ =~= wheel_body(name@, details.palette@));
        HttpRequest { method: HttpMethod::Put, url: self.api("effects"), body: Some(body) }
    }
}

/// Interprets an operation whose result is the raw response text: a
/// success status hands the body through unchanged; any other status is a
/// device error carrying that status, never a silent success.
pub fn text_response(status: u16, body: &str) -> (r: Result<String, NanoLeafError>)
    ensures
        status_ok(status) ==> (r matches Ok(s) && s@ == body@),
        !status_ok(status) ==> (r matches Err(e) && e == NanoLeafError::Device(status)),
{
    if status_is_success(status) {
        Ok(body.to_owned())
    } else {
        Err(NanoLeafError::Device(status))
    }
}

/// Interprets an operation whose response body is discarded: success on a
/// success status, a device error carrying the status otherwise.
pub fn unit_response(status: u16) -> (r: Result<(), NanoLeafError>)
    ensures
        status_ok(status) ==> r is Ok,
        !status_ok(status) ==> (r matches Err(e) && e == NanoLeafError::Device(status)),
{
    if status_is_success(status) {
        Ok(())
    } else {
        Err(NanoLeafError::Device(status))
    }
}

/// Decodes a bare JSON string document: exactly the string the document
/// holds, and a decode error on any other document.
pub fn decode_bare_string(v: &JsonVal) -> (r: Result<String, NanoLeafError>)
    ensures
        match r {
            Ok(s) => as_text(*v) == Some(s),
            Err(e) => as_text(*v) is None && e == NanoLeafError::Decode,
        },
{
    match get_text(v) {
        Some(s) => Ok(s.clone()),
        None => Err(NanoLeafError::Decode),
    }
}

/// Interprets the answer to `select_get_request`: a non-success status is
/// a device error carrying that status; otherwise the body is parsed
/// (`json_of` names the parse result) and, exactly when the document is a
/// bare JSON string, that string comes back unchanged; any other document,
/// and a body that is no JSON document at all, is a decode error.
pub fn select_get_response(status: u16, body: &str) -> (r: Result<String, NanoLeafError>)
    ensures
        !status_ok(status) ==> (r matches Err(e) && e == NanoLeafError::Device(status)),
        status_ok(status) ==> match parse::json_of(body@) {
            Some(v) => (as_text(v) matches Some(s) ==> (r matches Ok(t) && t == s)) && (as_text(v)
                is None ==> (r matches Err(e) && e == NanoLeafError::Decode)),
            None => r matches Err(e) && e == NanoLeafError::Decode,
        },
{
    if !status_is_success(status) {
        return Err(NanoLeafError::Device(status));
    }
    match parse::parse_json(body) {
        Some(v) => decode_bare_string(&v),
        None => Err(NanoLeafError::Decode),
    }
}

/// Interprets the answer to `info_request`: a non-success status is a
/// device error carrying that status; otherwise the body is parsed
/// (`json_of` names the parse result) and decoded as `decode_device_info`
/// states exactly — a body that is no JSON document at all, or a document
/// missing a required field, yields a decode error, never a partial value.
pub fn info_response(status: u16, body: &str) -> (r: Result<api::NanoLeafAPI, NanoLeafError>)
    ensures
        !status_ok(status) ==> (r matches Err(e) && e == NanoLeafError::Device(status)),
        status_ok(status) ==> match parse::json_of(body@) {
            Some(v) => (api::device_info_shape(v) ==> (r matches Ok(info) && api::is_device_info(
                info,
                v,
            ))) && (!api::device_info_shape(v) ==> (r matches Err(e) && e
                == NanoLeafError::Decode)),
            None => r matches Err(e) && e == NanoLeafError::Decode,
        },
{
    if !status_is_success(status) {
        return Err(NanoLeafError::Device(status));
    }
    match parse::parse_json(body) {
        Some(v) => api::decode_device_info(&v),
        None => Err(NanoLeafError::Decode),
    }
}

} // verus!
