//! JSON texts: command-line parameters read as JSON values, and the framing
//! of JSON-RPC request bodies.

use vstd::prelude::*;

use crate::text::{lemma_occurs_between, occurs_at};

verus! {

/// A lower-case hexadecimal digit.
pub open spec fn hex_digit(d: nat) -> char {
    if d < 10 {
        ((d + 0x30) as u32) as char
    } else {
        ((d - 10 + 0x61) as u32) as char
    }
}

/// How `serde_json` writes one character inside a JSON string: `"` and `\`
/// escaped with a backslash; backspace, form feed, line feed, carriage
/// return and tab as `\b`, `\f`, `\n`, `\r`, `\t`; the other control
/// characters below U+0020 as `\u00XX` in lower-case hexadecimal; every other
/// character as itself.
pub open spec fn json_escaped_char(c: char) -> Seq<char> {
    let u = c as u32;
    if c == '"' {
        seq!['\\', '"']
    } else if c == '\\' {
        seq!['\\', '\\']
    } else if u == 0x08 {
        seq!['\\', 'b']
    } else if u == 0x0c {
        seq!['\\', 'f']
    } else if u == 0x0a {
        seq!['\\', 'n']
    } else if u == 0x0d {
        seq!['\\', 'r']
    } else if u == 0x09 {
        seq!['\\', 't']
    } else if u < 0x20 {
        seq!['\\', 'u', '0', '0', hex_digit((u / 16) as nat), hex_digit((u % 16) as nat)]
    } else {
        seq![c]
    }
}

/// The escaped characters of a JSON string's contents.
pub open spec fn json_escaped(text: Seq<char>) -> Seq<char>
    decreases text.len(),
{
    if text.len() == 0 {
        Seq::empty()
    } else {
        json_escaped(text.drop_last()) + json_escaped_char(text.last())
    }
}

/// The text that `serde_json` writes for a JSON string holding `text`.
pub open spec fn json_string_literal(text: Seq<char>) -> Seq<char> {
    seq!['"'] + json_escaped(text) + seq!['"']
}

/// What `serde_json` makes of `text` read as a JSON value and written back
/// in its compact form, or `None` when `text` is not JSON.
pub uninterp spec fn json_reencode(text: Seq<char>) -> Option<Seq<char>>;

/// Writes a JSON string: calls `Display` of `serde_json::Value::String`,
/// which writes the compact JSON text of the value (infallible). The
/// contract states the escaping of `serde_json`'s `format_escaped_str`.
#[verifier::external_body]
pub(crate) fn json_quote(text: &str) -> (r: String)
    ensures
        r@ == json_string_literal(text@),
{
    serde_json::Value::String(text.to_owned()).to_string()
}

/// Calls `serde_json::from_str::<serde_json::Value>` and, when that
/// succeeds, `Display` of the value, which writes its compact JSON text.
/// The contract names the outcome `json_reencode`.
#[verifier::external_body]
fn json_reencode_text(text: &str) -> (r: Option<String>)
    ensures
        r matches Some(t) ==> json_reencode(text@) == Some(t@),
        r is None <==> json_reencode(text@) is None,
{
    match serde_json::from_str::<serde_json::Value>(text) {
        Ok(value) => Some(value.to_string()),
        Err(_) => None,
    }
}

/// The views of some strings.
pub open spec fn texts(v: Seq<String>) -> Seq<Seq<char>> {
    v.map_values(|s: String| s@)
}

/// The view of an optional string.
pub open spec fn opt_text(o: Option<String>) -> Option<Seq<char>> {
    match o {
        Some(s) => Some(s@),
        None => None,
    }
}

/// The JSON text that stands for a positional parameter: the parameter read
/// as JSON when it is JSON, else a JSON string holding it.
pub open spec fn param_json(param: Seq<char>, parsed: Option<Seq<char>>) -> Seq<char> {
    match parsed {
        Some(json) => json,
        None => json_string_literal(param),
    }
}

/// The JSON text of a parameter, given what reading it as JSON gave.
pub fn param_from_parse(param: &str, parsed: Option<String>) -> (r: String)
    ensures
        r@ == param_json(param@, opt_text(parsed)),
{
    match parsed {
        Some(json) => json,
        None => json_quote(param),
    }
}

/// Reads each parameter as a JSON value when it is one and keeps it as a
/// JSON string otherwise, in order.
pub fn parse_params(params: Vec<String>) -> (r: Vec<String>)
    ensures
        r.len() == params.len(),
        forall|i: int|
            0 <= i < params.len() ==> #[trigger] r[i]@ == param_json(
                params[i]@,
                json_reencode(params[i]@),
            ),
{
    let mut out: Vec<String> = Vec::new();
    let mut i: usize = 0;
    while i < params.len()
        invariant
            i <= params.len(),
            out.len() == i,
            forall|j: int|
                0 <= j < i ==> #[trigger] out[j]@ == param_json(
                    params[j]@,
                    json_reencode(params[j]@),
                ),
        decreases params.len() - i,
    {
        let param = params[i].as_str();
        let parsed = json_reencode_text(param);
        out.push(param_from_parse(param, parsed));
        i = i + 1;
    }
    out
}

/// Texts joined by commas.
pub open spec fn comma_joined(items: Seq<Seq<char>>) -> Seq<char>
    decreases items.len(),
{
    if items.len() == 0 {
        Seq::empty()
    } else if items.len() == 1 {
        items[0]
    } else {
        comma_joined(items.drop_last()) + seq![','] + items.last()
    }
}

/// The JSON array of the given JSON texts.
pub open spec fn json_array_text(items: Seq<Seq<char>>) -> Seq<char> {
    seq!['['] + comma_joined(items) + seq![']']
}

/// The JSON array of the given JSON texts, in order.
pub fn json_array(items: &Vec<String>) -> (r: String)
    ensures
        r@ == json_array_text(texts(items@)),
{
    proof {
        reveal_strlit("[");
        reveal_strlit(",");
        reveal_strlit("]");
    }
    let ghost all = texts(items@);
    let mut out = String::from_str("[");
    let mut i: usize = 0;
    while i < items.len()
        invariant
            i <= items.len(),
            all == texts(items@),
            out@ == seq!['['] + comma_joined(all.take(i as int)),
        decreases items.len() - i,
    {
        let ghost before = out@;
        if i > 0 {
            out.append(",");
        }
        out.append(items[i].as_str());
        proof {
            reveal_strlit(",");
            let next = all.take(i + 1);
            assert(next.drop_last() =~= all.take(i as int));
            assert(next.last() == items[i as int]@);
            if i == 0 {
                assert(all.take(0) =~= Seq::<Seq<char>>::empty());
                assert(comma_joined(next) == items[0]@);
                assert(out@ =~= seq!['['] + comma_joined(next));
            } else {
                assert(comma_joined(next) == comma_joined(all.take(i as int)) + seq![','] + items[i as int]@);
                assert(out@ =~= seq!['['] + comma_joined(next));
            }
        }
        i = i + 1;
    }
    assert(all.take(items.len() as int) =~= all);
    out.append("]");
    out
}

/// The parameters always form a JSON array: the text opens with `[` and
/// closes with `]`; no parameters give `[]`; one parameter `t` gives `[t]`;
/// and one more parameter `x` after at least one inserts `,x` before the
/// closing `]`.
pub proof fn law_params_form_an_array(items: Seq<Seq<char>>, x: Seq<char>)
    ensures
        json_array_text(items).len() >= 2,
        json_array_text(items)[0] == '[',
        json_array_text(items).last() == ']',
        items.len() == 0 ==> json_array_text(items) == seq!['[', ']'],
        items.len() == 1 ==> json_array_text(items) == seq!['['] + items[0] + seq![']'],
        items.len() >= 1 ==> json_array_text(items.push(x)) == json_array_text(items).drop_last()
            + seq![','] + x + seq![']'],
{
    let t = json_array_text(items);
    assert(t == seq!['['] + comma_joined(items) + seq![']']);
    assert(t[0] == '[');
    assert(t.last() == ']');
    if items.len() == 0 {
        assert(t =~= seq!['[', ']']);
    }
    if items.len() >= 1 {
        let longer = items.push(x);
        assert(longer.drop_last() =~= items);
        assert(comma_joined(longer) == comma_joined(items) + seq![','] + x);
        assert(t.drop_last() =~= seq!['['] + comma_joined(items));
        assert(json_array_text(longer) =~= t.drop_last() + seq![','] + x + seq![']']);
    }
}

/// The start of a JSON-RPC request body, up to the method.
pub const REQUEST_HEAD: &'static str = "{\"jsonrpc\":\"1.0\",\"id\":\"bitcoin-cli-rs\",\"method\":";

/// The key of the parameters in a JSON-RPC request body.
pub const PARAMS_KEY: &'static str = ",\"params\":";

/// The JSON-RPC 1.0 request body that calls `method` with the positional
/// parameters `params` (JSON texts): the members `jsonrpc`, `id`, `method`
/// and `params`, in that order, written compactly.
pub open spec fn request_body_text(method: Seq<char>, params: Seq<Seq<char>>) -> Seq<char> {
    REQUEST_HEAD@ + json_string_literal(method) + PARAMS_KEY@ + json_array_text(params) + seq!['}']
}

/// A request body opens with the fixed members `jsonrpc` and `id`, then
/// names the method as a JSON string, then gives the parameters as a JSON
/// array, and closes the object: its text is made of these parts, in order.
pub proof fn law_request_body_parts(method: Seq<char>, params: Seq<Seq<char>>)
    ensures
        ({
            let body = request_body_text(method, params);
            let head = REQUEST_HEAD@;
            let name = json_string_literal(method);
            let array = json_array_text(params);
            &&& occurs_at(body, 0, head)
            &&& occurs_at(body, head.len() as int, name)
            &&& occurs_at(body, (head.len() + name.len()) as int, PARAMS_KEY@)
            &&& occurs_at(body, (head.len() + name.len() + PARAMS_KEY@.len()) as int, array)
            &&& body.len() == head.len() + name.len() + PARAMS_KEY@.len() + array.len() + 1
            &&& body.last() == '}'
        }),
{
    let body = request_body_text(method, params);
    let head = REQUEST_HEAD@;
    let name = json_string_literal(method);
    let key = PARAMS_KEY@;
    let array = json_array_text(params);
    let close = seq!['}'];
    lemma_occurs_between(Seq::empty(), head, name + key + array + close);
    assert(body =~= Seq::<char>::empty() + head + (name + key + array + close));
    lemma_occurs_between(head, name, key + array + close);
    assert(body =~= head + name + (key + array + close));
    lemma_occurs_between(head + name, key, array + close);
    assert(body =~= (head + name) + key + (array + close));
    lemma_occurs_between(head + name + key, array, close);
    assert(body =~= (head + name + key) + array + close);
}

/// Writes the JSON-RPC request body that calls `method` with `params`.
pub fn request_body(method: &str, params: &Vec<String>) -> (r: String)
    ensures
        r@ == request_body_text(method@, texts(params@)),
{
    proof {
        reveal_strlit("}");
    }
    let mut out = String::from_str(REQUEST_HEAD);
    let quoted = json_quote(method);
    out.append(quoted.as_str());
    out.append(PARAMS_KEY);
    let array = json_array(params);
    out.append(array.as_str());
    out.append("}");
    out
}

} // verus!
