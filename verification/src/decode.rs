//! Decoding of what the service and the persisted store hand back: the
//! completion response, the model catalogue, and the stored configuration.
//!
//! serde_json takes each body apart behind one trusted decoder per body
//! shape. The decomposition of a text depends on the text alone, so each
//! decoder's result bears an uninterpreted name (`completion_decode`,
//! `models_decode`, `config_decode`), and every decision on the decomposed
//! values — classification of the response, the shape of each record, the
//! error carried out — is verified against that name, so that each function
//! here returns exactly what the decomposition dictates.
use crate::config::{spec_default_config, Config};
use crate::encode::spec_config_json;
use crate::errors::ClientError;
use serde_json::Value;

use crate::messages::{
    first_choice_content, role_from_name, spec_role_of_name, Message, OpenRouterChoice,
    OpenRouterModel, OpenRouterModelsResponse, OpenRouterPricing, OpenRouterResponse, Role,
};
use vstd::prelude::*;

verus! {

// ---------------------------------------------------------------------------
// The named decompositions, and the trusted decoders that carry them
// ---------------------------------------------------------------------------
/// What serde_json finds in a completion response body: the text of the parse
/// failure if the body is no JSON; `Err(None)` if it is JSON without a
/// choices array; else, per choice, the message's role and content, each
/// present exactly where it is a string.
pub uninterp spec fn completion_decode(s: Seq<char>) -> Result<
    Seq<(Option<Seq<char>>, Option<Seq<char>>)>,
    Option<Seq<char>>,
>;

/// What serde_json finds in a model-catalogue body: the parse failure's text,
/// or `Err(None)` for JSON without a data array; else, per entry, the id and
/// description where they are strings, the context length where it is an
/// unsigned number, and the pricing object's prompt and completion texts
/// where each is a number (its decimal text) or a string (its own text).
pub uninterp spec fn models_decode(s: Seq<char>) -> Result<
    Seq<(Option<Seq<char>>, Option<u64>, Option<Seq<char>>, Option<Seq<char>>, Option<Seq<char>>)>,
    Option<Seq<char>>,
>;

/// What serde_json finds in a persisted-configuration text: the parse
/// failure's text, or the four fields, each present exactly where it has the
/// stored type (string, string, unsigned number, unsigned number).
pub uninterp spec fn config_decode(s: Seq<char>) -> Result<
    (Option<Seq<char>>, Option<Seq<char>>, Option<u64>, Option<u64>),
    Seq<char>,
>;

/// One decomposed choice: the message's role and content texts.
pub type RawChoice = (Option<String>, Option<String>);

/// One decomposed catalogue entry: id, context length, description, and the
/// prompt and completion price texts.
pub type RawModel = (Option<String>, Option<u64>, Option<String>, Option<String>, Option<String>);

/// The four decomposed fields of a persisted configuration.
pub type RawConfig = (Option<String>, Option<String>, Option<u64>, Option<u64>);

pub open spec fn opt_str_view(o: Option<String>) -> Option<Seq<char>> {
    match o {
        Some(s) => Some(s@),
        None => None,
    }
}

pub open spec fn raw_choices_view(v: Seq<RawChoice>) -> Seq<
    (Option<Seq<char>>, Option<Seq<char>>),
> {
    v.map_values(|p: RawChoice| (opt_str_view(p.0), opt_str_view(p.1)))
}

pub open spec fn raw_model_view(p: RawModel) -> (Option<Seq<char>>, Option<u64>, Option<
    Seq<char>,
>, Option<Seq<char>>, Option<Seq<char>>) {
    (opt_str_view(p.0), p.1, opt_str_view(p.2), opt_str_view(p.3), opt_str_view(p.4))
}

pub open spec fn raw_models_view(v: Seq<RawModel>) -> Seq<
    (Option<Seq<char>>, Option<u64>, Option<Seq<char>>, Option<Seq<char>>, Option<Seq<char>>),
> {
    v.map_values(|p: RawModel| raw_model_view(p))
}

/// Relies on serde_json: from_str::<Value> to parse the body, Value::get and
/// Value::as_array to reach the choices, Value::as_str for each message's
/// role and content. The decomposition depends on the text alone, so the
/// result is tied to `completion_decode`.
#[verifier::external_body]
fn decode_completion_raw(body: &str) -> (r: Result<Vec<RawChoice>, Option<String>>)
    ensures
        match completion_decode(body@) {
            Ok(items) => r matches Ok(v) && raw_choices_view(v@) == items,
            Err(m) => r matches Err(e) && opt_str_view(e) == m,
        },
{
    let s = |v: Option<&serde_json::Value>| v.and_then(|x| x.as_str()).map(str::to_string);
    let parsed: serde_json::Value = serde_json::from_str(body).map_err(|e| Some(e.to_string()))?;
    let items = parsed.get("choices").and_then(|c| c.as_array()).ok_or(None)?;
    Ok(items.iter().map(|c| {
        let m = c.get("message");
        (s(m.and_then(|m| m.get("role"))), s(m.and_then(|m| m.get("content"))))
    }).collect())
}

/// Relies on serde_json: from_str::<Value>, Value::pointer, Value::get,
/// Value::as_array, Value::as_str, Value::as_u64, and Number's Display impl
/// for a price sent as a number. The decomposition depends on the text alone,
/// so the result is tied to `models_decode`.
#[verifier::external_body]
fn decode_models_raw(body: &str) -> (r: Result<Vec<RawModel>, Option<String>>)
    ensures
        match models_decode(body@) {
            Ok(items) => r matches Ok(v) && raw_models_view(v@) == items,
            Err(m) => r matches Err(e) && opt_str_view(e) == m,
        },
{
    let s = |v: Option<&Value>| v.and_then(Value::as_str).map(str::to_string);
    let price = |v: Option<&Value>| v.and_then(|x| if x.is_number() {
        Some(x.to_string())
    } else {
        x.as_str().map(str::to_string)
    });
    let parsed: Value = serde_json::from_str(body).map_err(|e| Some(e.to_string()))?;
    let items = parsed.get("data").and_then(Value::as_array).ok_or(None)?;
    Ok(items.iter().map(|m| (
        s(m.get("id")),
        m.get("context_length").and_then(Value::as_u64),
        s(m.get("description")),
        price(m.pointer("/pricing/prompt")),
        price(m.pointer("/pricing/completion")),
    )).collect())
}

/// Relies on serde_json: from_str::<Value>, Value::get, Value::as_str and
/// Value::as_u64 for the four stored fields. The decomposition depends on the
/// text alone, so the result is tied to `config_decode`; and serde_json
/// parses JSON text, so on the exact text that `spec_config_json` fixes for a
/// configuration it hands back that configuration's four fields.
#[verifier::external_body]
fn decode_config_raw(contents: &str) -> (r: Result<RawConfig, String>)
    ensures
        match config_decode(contents@) {
            Ok(f) => r matches Ok(v) && opt_str_view(v.0) == f.0 && opt_str_view(v.1) == f.1
                && v.2 == f.2 && v.3 == f.3,
            Err(m) => r matches Err(e) && e@ == m,
        },
        match r {
            Ok(v) => forall|c: Config|
                contents@ == #[trigger] spec_config_json(c) ==> ((v.0 matches Some(k) && k@
                    == c.api_key@) && (v.1 matches Some(m) && m@ == c.model@) && v.2 == Some(
                    c.max_tokens as u64,
                ) && v.3 == Some(c.temperature_milli as u64)),
            Err(_) => forall|c: Config| contents@ != #[trigger] spec_config_json(c),
        },
{
    let s = |v: Option<&serde_json::Value>| v.and_then(|x| x.as_str()).map(str::to_string);
    let parsed: serde_json::Value = serde_json::from_str(contents).map_err(|e| e.to_string())?;
    Ok((
        s(parsed.get("api_key")),
        s(parsed.get("model")),
        parsed.get("max_tokens").and_then(|v| v.as_u64()),
        parsed.get("temperature_milli").and_then(|v| v.as_u64()),
    ))
}

// ---------------------------------------------------------------------------
// The completion response
// ---------------------------------------------------------------------------
/// Whether an HTTP status code reports success.
pub open spec fn spec_status_success(status: u16) -> bool {
    200 <= status < 300
}

fn status_success(status: u16) -> (r: bool)
    ensures
        r == spec_status_success(status),
{
    200 <= status && status < 300
}

fn shape_error(what: &str) -> (r: ClientError)
    ensures
        r is NetworkError,
{
    let mut m = String::from_str("malformed response from the OpenRouter API: ");
    m.append(what);
    ClientError::NetworkError(m)
}

/// A decomposed choice is usable when its content is a string and its role,
/// where stated, is a known role name.
pub open spec fn choice_shape_ok(items: Seq<(Option<Seq<char>>, Option<Seq<char>>)>) -> bool {
    forall|i: int|
        0 <= i < items.len() ==> ((#[trigger] items[i]).1 is Some && (items[i].0 matches Some(n)
            ==> spec_role_of_name(n) is Some))
}

/// The role of a decomposed message: the named one, or the assistant's where
/// the body states none.
pub open spec fn spec_choice_role(role_opt: Option<Seq<char>>) -> Role {
    match role_opt {
        None => Role::Assistant,
        Some(n) => spec_role_of_name(n)->0,
    }
}

/// What parsing a completion body returns, as a function of the body's
/// decomposition: the parse failure's own text as a `NetworkError`; a
/// `NetworkError` for a missing choices array or an unusable choice; else the
/// choices, in order, with the stated contents and roles.
pub open spec fn completion_parse_post(s: Seq<char>, r: Result<
    OpenRouterResponse,
    ClientError,
>) -> bool {
    match completion_decode(s) {
        Err(m) => r matches Err(e) && e is NetworkError && (m matches Some(t) ==> e matches
            ClientError::NetworkError(u) && u@ == t),
        Ok(items) => if choice_shape_ok(items) {
            r matches Ok(resp) && resp.choices@.len() == items.len() && (forall|i: int|
                0 <= i < items.len() ==> (#[trigger] resp.choices@[i]).message.role
                    == spec_choice_role(items[i].0) && (items[i].1 matches Some(t)
                    && resp.choices@[i].message.content@ == t))
        } else {
            r matches Err(e) && e is NetworkError
        },
    }
}

/// Parses a completion response body into its choices, returning exactly what
/// the body's decomposition dictates. A body whose choices array is empty
/// parses cleanly into zero choices, never an error.
pub fn parse_completion_body(body: &str) -> (r: Result<OpenRouterResponse, ClientError>)
    ensures
        completion_parse_post(body@, r),
{
    let raw = match decode_completion_raw(body) {
        Err(e) => {
            return Err(
                match e {
                    Some(t) => ClientError::NetworkError(t),
                    None => shape_error("no choices array"),
                },
            );
        },
        Ok(v) => v,
    };
    let ghost items = raw_choices_view(raw@);
    let n = raw.len();
    let mut choices: Vec<OpenRouterChoice> = Vec::new();
    let mut i: usize = 0;
    while i < n
        invariant
            i <= n == raw@.len(),
            items == raw_choices_view(raw@),
            completion_decode(body@) == Ok::<_, Option<Seq<char>>>(items),
            choices@.len() == i,
            forall|k: int|
                0 <= k < i ==> ((#[trigger] items[k]).1 is Some && (items[k].0 matches Some(nm)
                    ==> spec_role_of_name(nm) is Some)),
            forall|k: int|
                0 <= k < i ==> (#[trigger] choices@[k]).message.role == spec_choice_role(
                    items[k].0,
                ) && (items[k].1 matches Some(t) && choices@[k].message.content@ == t),
        decreases n - i,
    {
        proof {
            assert(items[i as int] == (opt_str_view(raw@[i as int].0), opt_str_view(
                raw@[i as int].1,
            )));
        }
        let content = match &raw[i].1 {
            Some(c) => c.clone(),
            None => {
                proof {
                    assert(!choice_shape_ok(items));
                }
                return Err(shape_error("a message without string content"));
            },
        };
        let role = match &raw[i].0 {
            None => Role::Assistant,
            Some(name) => match role_from_name(name.as_str()) {
                Some(role) => role,
                None => {
                    proof {
                        assert(items[i as int].0 matches Some(nm) && spec_role_of_name(nm) is None);
                        assert(!choice_shape_ok(items));
                    }
                    return Err(shape_error("a message with an unknown role"));
                },
            },
        };
        choices.push(OpenRouterChoice { message: Message { role, content } });
        i = i + 1;
    }
    Ok(OpenRouterResponse { choices })
}

/// Classifies the outcome of a completion call from its status code and raw
/// body. A non-2xx status is an `ApiError` carrying the status and the body
/// verbatim. For a 2xx status the body's decomposition dictates the result: a
/// body that will not decompose is a `NetworkError`, zero choices are an
/// `EmptyResponse`, and else the answer is the first choice's content.
pub fn interpret_completion_response(status: u16, body: &str) -> (r: Result<String, ClientError>)
    ensures
        !spec_status_success(status) ==> (r matches Err(e) && e matches ClientError::ApiError {
            status: s,
            body: b,
        } && s == status && b@ == body@),
        spec_status_success(status) ==> match completion_decode(body@) {
            Err(m) => r matches Err(e) && e is NetworkError,
            Ok(items) => if !choice_shape_ok(items) {
                r matches Err(e) && e is NetworkError
            } else if items.len() == 0 {
                r matches Err(e) && e is EmptyResponse
            } else {
                r matches Ok(c) && (items[0].1 matches Some(t) && c@ == t)
            },
        },
{
    if !status_success(status) {
        return Err(ClientError::ApiError { status, body: String::from_str(body) });
    }
    let response = match parse_completion_body(body) {
        Ok(resp) => resp,
        Err(e) => {
            return Err(e);
        },
    };
    first_choice_content(&response)
}

// ---------------------------------------------------------------------------
// The model catalogue
// ---------------------------------------------------------------------------
/// A decomposed catalogue entry is usable when its id is a string.
pub open spec fn model_shape_ok(
    items: Seq<(Option<Seq<char>>, Option<u64>, Option<Seq<char>>, Option<Seq<char>>, Option<
        Seq<char>,
    >)>,
) -> bool {
    forall|i: int| 0 <= i < items.len() ==> (#[trigger] items[i]).0 is Some
}

/// How a parsed catalogue entry reads its decomposition: the id verbatim, the
/// context length where it fits, the description where stated, and pricing
/// exactly where both price texts are there.
pub open spec fn model_matches(
    raw: (Option<Seq<char>>, Option<u64>, Option<Seq<char>>, Option<Seq<char>>, Option<Seq<char>>),
    m: OpenRouterModel,
) -> bool {
    &&& (raw.0 matches Some(id) && m.id@ == id)
    &&& m.context_length == (match raw.1 {
        Some(c) => if c <= u32::MAX as u64 {
            Some(c as u32)
        } else {
            None
        },
        None => None,
    })
    &&& (match raw.2 {
        Some(d) => m.description matches Some(x) && x@ == d,
        None => m.description is None,
    })
    &&& (match (raw.3, raw.4) {
        (Some(p), Some(q)) => m.pricing matches Some(x) && x.prompt@ == p && x.completion@ == q,
        _ => m.pricing is None,
    })
}

/// What parsing a catalogue body returns, as a function of the body's
/// decomposition.
pub open spec fn models_parse_post(s: Seq<char>, r: Result<
    OpenRouterModelsResponse,
    ClientError,
>) -> bool {
    match models_decode(s) {
        Err(m) => r matches Err(e) && e is NetworkError && (m matches Some(t) ==> e matches
            ClientError::NetworkError(u) && u@ == t),
        Ok(items) => if model_shape_ok(items) {
            r matches Ok(resp) && resp.data@.len() == items.len() && (forall|i: int|
                0 <= i < items.len() ==> model_matches(items[i], #[trigger] resp.data@[i]))
        } else {
            r matches Err(e) && e is NetworkError
        },
    }
}

/// Parses a model-catalogue body, returning exactly what the body's
/// decomposition dictates.
pub fn parse_models_body(body: &str) -> (r: Result<OpenRouterModelsResponse, ClientError>)
    ensures
        models_parse_post(body@, r),
{
    let raw = match decode_models_raw(body) {
        Err(e) => {
            return Err(
                match e {
                    Some(t) => ClientError::NetworkError(t),
                    None => shape_error("no data array"),
                },
            );
        },
        Ok(v) => v,
    };
    let ghost items = raw_models_view(raw@);
    let n = raw.len();
    let mut data: Vec<OpenRouterModel> = Vec::new();
    let mut i: usize = 0;
    while i < n
        invariant
            i <= n == raw@.len(),
            items == raw_models_view(raw@),
            models_decode(body@) == Ok::<_, Option<Seq<char>>>(items),
            data@.len() == i,
            forall|k: int| 0 <= k < i ==> (#[trigger] items[k]).0 is Some,
            forall|k: int| 0 <= k < i ==> model_matches(items[k], #[trigger] data@[k]),
        decreases n - i,
    {
        proof {
            assert(items[i as int] == raw_model_view(raw@[i as int]));
        }
        let entry = &raw[i];
        let id = match &entry.0 {
            Some(id) => id.clone(),
            None => {
                proof {
                    assert(!model_shape_ok(items));
                }
                return Err(shape_error("a model without a string id"));
            },
        };
        let context_length: Option<u32> = match &entry.1 {
            Some(c) => if *c <= 0xffff_ffff {
                Some(*c as u32)
            } else {
                None
            },
            None => None,
        };
        let description = match &entry.2 {
            Some(d) => Some(d.clone()),
            None => None,
        };
        let pricing = match (&entry.3, &entry.4) {
            (Some(p), Some(q)) => Some(
                OpenRouterPricing { prompt: p.clone(), completion: q.clone() },
            ),
            _ => None,
        };
        data.push(OpenRouterModel { id, context_length, description, pricing });
        i = i + 1;
    }
    Ok(OpenRouterModelsResponse { data })
}

/// Classifies the outcome of a model-catalogue call from its status code and
/// raw body: a non-2xx status is an `ApiError` carrying the status and the
/// body verbatim; on a 2xx status the body's decomposition dictates the
/// result.
pub fn interpret_models_response(status: u16, body: &str) -> (r: Result<
    OpenRouterModelsResponse,
    ClientError,
>)
    ensures
        !spec_status_success(status) ==> (r matches Err(e) && e matches ClientError::ApiError {
            status: s,
            body: b,
        } && s == status && b@ == body@),
        spec_status_success(status) ==> models_parse_post(body@, r),
{
    if !status_success(status) {
        return Err(ClientError::ApiError { status, body: String::from_str(body) });
    }
    parse_models_body(body)
}

// ---------------------------------------------------------------------------
// The persisted configuration
// ---------------------------------------------------------------------------
/// What parsing a persisted configuration returns, as a function of the
/// text's decomposition: the parse failure's own text as a `ConfigError`; a
/// `ConfigError` where a field is absent, of the wrong type, or out of range;
/// else the configuration with exactly the stored fields. A corrupt store is
/// never read as a configuration.
pub open spec fn config_parse_post(s: Seq<char>, r: Result<Config, ClientError>) -> bool {
    match config_decode(s) {
        Err(m) => r matches Err(e) && e matches ClientError::ConfigError(t) && t@ == m,
        Ok(f) => if f.0 is None || f.1 is None || f.2 is None || f.3 is None {
            r matches Err(e) && e is ConfigError
        } else if f.2->0 > u32::MAX as u64 || f.3->0 > u32::MAX as u64 {
            r matches Err(e) && e is ConfigError
        } else {
            r matches Ok(c) && (f.0 matches Some(k) && c.api_key@ == k) && (f.1 matches Some(m)
                && c.model@ == m) && c.max_tokens as u64 == f.2->0 && c.temperature_milli as u64
                == f.3->0
        },
    }
}

fn config_shape_error(what: &str) -> (r: ClientError)
    ensures
        r is ConfigError,
{
    let mut m = String::from_str("malformed configuration file: ");
    m.append(what);
    ClientError::ConfigError(m)
}

/// Parses the JSON text of a persisted configuration, the shape that
/// `config_to_json` writes, returning exactly what the text's decomposition
/// dictates. In particular the round trip holds: on the exact text that
/// `config_to_json` writes for a configuration, the result is that
/// configuration, field for field.
pub fn parse_config_json(contents: &str) -> (r: Result<Config, ClientError>)
    ensures
        config_parse_post(contents@, r),
        forall|c: Config|
            contents@ == #[trigger] spec_config_json(c) ==> (r matches Ok(rc) && rc.api_key@
                == c.api_key@ && rc.model@ == c.model@ && rc.max_tokens == c.max_tokens
                && rc.temperature_milli == c.temperature_milli),
{
    let raw = match decode_config_raw(contents) {
        Err(e) => {
            return Err(ClientError::ConfigError(e));
        },
        Ok(v) => v,
    };
    let api_key = match raw.0 {
        Some(k) => k,
        None => {
            return Err(config_shape_error("api_key is no string"));
        },
    };
    let model = match raw.1 {
        Some(m) => m,
        None => {
            return Err(config_shape_error("model is no string"));
        },
    };
    let max_tokens: u32 = match raw.2 {
        Some(x) => if x <= 0xffff_ffff {
            x as u32
        } else {
            return Err(config_shape_error("max_tokens is out of range"));
        },
        None => {
            return Err(config_shape_error("max_tokens is no small number"));
        },
    };
    let temperature_milli: u32 = match raw.3 {
        Some(x) => if x <= 0xffff_ffff {
            x as u32
        } else {
            return Err(config_shape_error("temperature_milli is out of range"));
        },
        None => {
            return Err(config_shape_error("temperature_milli is no small number"));
        },
    };
    Ok(Config { api_key, model, max_tokens, temperature_milli })
}

/// The stored configuration of an invocation: the parsed store contents, or
/// the built-in defaults where no store exists yet. An existing store is read
/// exactly as its decomposition dictates — a corrupt one is a `ConfigError`,
/// never silently replaced — and reading back what `config_to_json` wrote
/// yields the written configuration, field for field.
pub fn load_config(contents: Option<&str>) -> (r: Result<Config, ClientError>)
    ensures
        contents is None ==> (r matches Ok(c) && spec_default_config(c)),
        contents matches Some(s) ==> config_parse_post(s@, r),
        forall|c: Config|
            (contents matches Some(s) && s@ == #[trigger] spec_config_json(c)) ==> (r matches Ok(
                rc,
            ) && rc.api_key@ == c.api_key@ && rc.model@ == c.model@ && rc.max_tokens
                == c.max_tokens && rc.temperature_milli == c.temperature_milli),
{
    match contents {
        None => Ok(Config::default()),
        Some(s) => parse_config_json(s),
    }
}

} // verus!
