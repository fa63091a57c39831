//! JSON encoding of the values the client sends: the completion request body
//! and the persisted configuration, together with the request headers.
//!
//! The encoders build the exact byte-for-byte text their specification
//! functions describe; the caller only has to put the string on the wire or
//! on disk.
use crate::config::Config;
use crate::messages::{spec_role_name, Message, OpenRouterRequest};
use crate::text::{
    spec_decimal_digits, spec_temperature_text, str_to_chars, string_from_chars, temperature_chars,
    u32_to_chars,
};
use vstd::prelude::*;

verus! {

// ---------------------------------------------------------------------------
// String escaping
// ---------------------------------------------------------------------------
pub open spec fn spec_hex_char(d: nat) -> char {
    if d < 10 {
        crate::text::spec_digit_char(d)
    } else if d == 10 {
        'a'
    } else if d == 11 {
        'b'
    } else if d == 12 {
        'c'
    } else if d == 13 {
        'd'
    } else if d == 14 {
        'e'
    } else {
        'f'
    }
}

/// The JSON escape of one character: quotes, backslashes and the named
/// control characters get a two-character escape, the other control
/// characters a four-digit one, and everything else stands as itself.
pub open spec fn spec_escape_char(c: char) -> Seq<char> {
    if c == '"' {
        seq!['\\', '"']
    } else if c == '\\' {
        seq!['\\', '\\']
    } else if c == '\n' {
        seq!['\\', 'n']
    } else if c == '\r' {
        seq!['\\', 'r']
    } else if c == '\t' {
        seq!['\\', 't']
    } else if (c as int) < 32 {
        seq!['\\', 'u', '0', '0', spec_hex_char(((c as int) / 16) as nat), spec_hex_char(
            ((c as int) % 16) as nat,
        )]
    } else {
        seq![c]
    }
}

pub open spec fn spec_escape(s: Seq<char>) -> Seq<char>
    decreases s.len(),
{
    if s.len() == 0 {
        Seq::<char>::empty()
    } else {
        spec_escape(s.drop_last()) + spec_escape_char(s.last())
    }
}

/// A JSON string literal: the escaped text between quotes.
pub open spec fn spec_json_string(s: Seq<char>) -> Seq<char> {
    seq!['"'] + spec_escape(s) + seq!['"']
}

fn hex_char(d: u32) -> (c: char)
    requires
        d < 16,
    ensures
        c == spec_hex_char(d as nat),
{
    if d < 10 {
        crate::text::digit_to_char(d)
    } else {
        match d {
            10 => 'a',
            11 => 'b',
            12 => 'c',
            13 => 'd',
            14 => 'e',
            _ => 'f',
        }
    }
}

fn push_escaped_char(out: &mut Vec<char>, c: char)
    ensures
        final (out)@ == old(out)@ + spec_escape_char(c),
{
    let ghost start = out@;
    if c == '"' {
        out.push('\\');
        out.push('"');
    } else if c == '\\' {
        out.push('\\');
        out.push('\\');
    } else if c == '\n' {
        out.push('\\');
        out.push('n');
    } else if c == '\r' {
        out.push('\\');
        out.push('r');
    } else if c == '\t' {
        out.push('\\');
        out.push('t');
    } else if (c as u32) < 32 {
        let code = c as u32;
        out.push('\\');
        out.push('u');
        out.push('0');
        out.push('0');
        out.push(hex_char(code / 16));
        out.push(hex_char(code % 16));
    } else {
        out.push(c);
    }
    proof {
        assert(out@ =~= start + spec_escape_char(c));
    }
}

/// Appends the JSON string literal of `s` to `out`.
fn push_json_string(out: &mut Vec<char>, s: &str)
    ensures
        final (out)@ == old(out)@ + spec_json_string(s@),
{
    let chars = str_to_chars(s);
    let ghost start = out@;
    out.push('"');
    let n = chars.len();
    let mut i: usize = 0;
    proof {
        assert(spec_escape(chars@.take(0)) =~= Seq::<char>::empty());
        assert(out@ =~= start + seq!['"'] + spec_escape(chars@.take(0)));
    }
    while i < n
        invariant
            i <= n == chars@.len(),
            chars@ == s@,
            out@ == start + seq!['"'] + spec_escape(chars@.take(i as int)),
        decreases n - i,
    {
        proof {
            assert(chars@.take(i + 1).drop_last() =~= chars@.take(i as int));
            assert(chars@.take(i + 1).last() == chars@[i as int]);
        }
        push_escaped_char(out, chars[i]);
        i = i + 1;
        proof {
            assert(out@ =~= start + seq!['"'] + spec_escape(chars@.take(i as int)));
        }
    }
    out.push('"');
    proof {
        assert(chars@.take(n as int) =~= s@);
        assert(out@ =~= start + spec_json_string(s@));
    }
}

/// Appends the characters of a literal piece to `out`.
fn push_piece(out: &mut Vec<char>, piece: &str)
    ensures
        final (out)@ == old(out)@ + piece@,
{
    let chars = str_to_chars(piece);
    crate::text::append_chars(out, &chars);
}

// ---------------------------------------------------------------------------
// The request body
// ---------------------------------------------------------------------------
/// The JSON object of one message.
pub open spec fn spec_message_json(m: Message) -> Seq<char> {
    "{\"role\":\""@ + spec_role_name(m.role) + "\",\"content\":"@ + spec_json_string(m.content@)
        + "}"@
}

/// The comma-separated message objects.
pub open spec fn spec_messages_body(ms: Seq<Message>) -> Seq<char>
    decreases ms.len(),
{
    if ms.len() == 0 {
        Seq::<char>::empty()
    } else if ms.len() == 1 {
        spec_message_json(ms[0])
    } else {
        spec_messages_body(ms.drop_last()) + seq![','] + spec_message_json(ms.last())
    }
}

/// The JSON body of a completion request, exactly as sent: model, messages in
/// order, token bound, and the temperature as a decimal number.
pub open spec fn spec_request_json(r: OpenRouterRequest) -> Seq<char> {
    "{\"model\":"@ + spec_json_string(r.model@) + ",\"messages\":["@ + spec_messages_body(
        r.messages@,
    ) + "],\"max_tokens\":"@ + spec_decimal_digits(r.max_tokens as nat) + ",\"temperature\":"@
        + spec_temperature_text(r.temperature_milli as nat) + "}"@
}

fn push_message_json(out: &mut Vec<char>, m: &Message)
    ensures
        final (out)@ == old(out)@ + spec_message_json(*m),
{
    let ghost start = out@;
    push_piece(out, "{\"role\":\"");
    push_piece(out, crate::messages::role_name(m.role));
    push_piece(out, "\",\"content\":");
    push_json_string(out, m.content.as_str());
    push_piece(out, "}");
    proof {
        assert(out@ =~= start + spec_message_json(*m));
    }
}

/// The JSON body of a completion request.
pub fn request_to_json(request: &OpenRouterRequest) -> (r: String)
    ensures
        r@ == spec_request_json(*request),
{
    let mut out: Vec<char> = Vec::new();
    push_piece(&mut out, "{\"model\":");
    push_json_string(&mut out, request.model.as_str());
    push_piece(&mut out, ",\"messages\":[");
    let ghost start = out@;
    let n = request.messages.len();
    let mut i: usize = 0;
    proof {
        assert(spec_messages_body(request.messages@.take(0)) =~= Seq::<char>::empty());
        assert(out@ =~= start + spec_messages_body(request.messages@.take(0)));
    }
    while i < n
        invariant
            i <= n == request.messages@.len(),
            out@ == start + spec_messages_body(request.messages@.take(i as int)),
        decreases n - i,
    {
        proof {
            assert(request.messages@.take(i + 1).drop_last() =~= request.messages@.take(i as int));
            assert(request.messages@.take(i + 1).last() == request.messages@[i as int]);
        }
        if i > 0 {
            out.push(',');
        }
        push_message_json(&mut out, &request.messages[i]);
        i = i + 1;
        proof {
            assert(out@ =~= start + spec_messages_body(request.messages@.take(i as int)));
        }
    }
    proof {
        assert(request.messages@.take(n as int) =~= request.messages@);
    }
    push_piece(&mut out, "],\"max_tokens\":");
    let digits = u32_to_chars(request.max_tokens);
    crate::text::append_chars(&mut out, &digits);
    push_piece(&mut out, ",\"temperature\":");
    let temperature = temperature_chars(request.temperature_milli);
    crate::text::append_chars(&mut out, &temperature);
    push_piece(&mut out, "}");
    proof {
        assert(out@ =~= spec_request_json(*request));
    }
    string_from_chars(&out)
}

// ---------------------------------------------------------------------------
// The persisted configuration
// ---------------------------------------------------------------------------
/// The JSON text of a persisted configuration. The temperature is stored in
/// thousandths, as an integer.
pub open spec fn spec_config_json(c: Config) -> Seq<char> {
    "{\"api_key\":"@ + spec_json_string(c.api_key@) + ",\"model\":"@ + spec_json_string(c.model@)
        + ",\"max_tokens\":"@ + spec_decimal_digits(c.max_tokens as nat)
        + ",\"temperature_milli\":"@ + spec_decimal_digits(c.temperature_milli as nat) + "}"@
}

/// The JSON text of a configuration, for the persisted store.
pub fn config_to_json(config: &Config) -> (r: String)
    ensures
        r@ == spec_config_json(*config),
{
    let mut out: Vec<char> = Vec::new();
    push_piece(&mut out, "{\"api_key\":");
    push_json_string(&mut out, config.api_key.as_str());
    push_piece(&mut out, ",\"model\":");
    push_json_string(&mut out, config.model.as_str());
    push_piece(&mut out, ",\"max_tokens\":");
    let digits = u32_to_chars(config.max_tokens);
    crate::text::append_chars(&mut out, &digits);
    push_piece(&mut out, ",\"temperature_milli\":");
    let digits = u32_to_chars(config.temperature_milli);
    crate::text::append_chars(&mut out, &digits);
    push_piece(&mut out, "}");
    proof {
        assert(out@ =~= spec_config_json(*config));
    }
    string_from_chars(&out)
}

// ---------------------------------------------------------------------------
// Headers
// ---------------------------------------------------------------------------
/// The value of the Authorization header.
pub fn bearer_header_value(api_key: &str) -> (r: String)
    ensures
        r@ == "Bearer "@ + api_key@,
{
    String::from_str("Bearer ").concat(api_key)
}

/// The headers of every call to the service: the bearer credential, the
/// content type, and the two static identification headers.
pub fn request_headers(api_key: &str) -> (r: Vec<(String, String)>)
    ensures
        r@.len() == 4,
        r@[0].0@ == "Authorization"@ && r@[0].1@ == "Bearer "@ + api_key@,
        r@[1].0@ == "Content-Type"@ && r@[1].1@ == "application/json"@,
        r@[2].0@ == "HTTP-Referer"@ && r@[2].1@ == "https://github.com/naelmohammad/nimbuscode"@,
        r@[3].0@ == "X-Title"@ && r@[3].1@ == "NimbusCode"@,
{
    let mut r: Vec<(String, String)> = Vec::new();
    r.push((String::from_str("Authorization"), bearer_header_value(api_key)));
    r.push((String::from_str("Content-Type"), String::from_str("application/json")));
    r.push(
        (
            String::from_str("HTTP-Referer"),
            String::from_str("https://github.com/naelmohammad/nimbuscode"),
        ),
    );
    r.push((String::from_str("X-Title"), String::from_str("NimbusCode")));
    r
}

} // verus!
