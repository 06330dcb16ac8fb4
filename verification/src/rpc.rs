//! JSON-RPC envelope handling and the conversion of a decoded response into
//! the typed transaction model.
//!
//! The envelope rules are stated over two named properties of the response
//! text — whether it is valid JSON, and whether its top level holds an
//! `error` field — so `decode_envelope` says exactly when each error comes
//! and when a result is owed. The result itself crosses the trust boundary
//! once, converted into the library's [`Json`] tree; the signature-list
//! extraction and the instruction-tree conversion then run on that tree
//! under exact contracts.

use vstd::prelude::*;
use crate::json::{obj_get, spec_obj_get, spec_str_field, str_field, Json};
use crate::model::{InnerGroup, InstructionNode, ParsedInfo, ParsedInstr, Transaction};

verus! {

#[verifier::external_type_specification]
#[verifier::external_body]
pub struct ExValue(serde_json::Value);

/// Why an RPC exchange failed.
#[derive(Clone, Debug)]
pub enum RpcError {
    /// Connection-level failure; the detail comes from the caller's transport.
    Transport(String),
    /// Non-success HTTP status, or an RPC-level `error` field in the response
    /// envelope; the detail is the response body or the error field's text.
    Protocol(String),
    /// The response body is not valid structured data.
    Decode,
}

/// Whether the text is one valid JSON document, as serde_json parses it.
pub uninterp spec fn json_valid(s: Seq<char>) -> bool;

/// Whether the text is a JSON document whose top level is an object holding
/// an `error` key. Meaningful only where `json_valid` holds of the text.
pub uninterp spec fn has_error_field(s: Seq<char>) -> bool;

/// Relies on serde_json::from_str::<serde_json::Value>: parses a JSON
/// document from text; the parse succeeds exactly when the text is valid
/// JSON, a function of the text alone.
#[verifier::external_body]
fn parse_json(text: &str) -> (r: Option<serde_json::Value>)
    ensures
        (r is Some) == json_valid(text@),
{
    match serde_json::from_str::<serde_json::Value>(text) {
        Ok(v) => Some(v),
        Err(_) => None,
    }
}

/// Relies on serde_json::from_str and serde_json::Value::get: the top-level
/// `error` field of the document in `text`, when `text` is valid JSON whose
/// top level holds one — both functions of the text alone.
#[verifier::external_body]
fn error_field_in_body(text: &str) -> (r: Option<serde_json::Value>)
    ensures
        (r is Some) == (json_valid(text@) && has_error_field(text@)),
{
    match serde_json::from_str::<serde_json::Value>(text) {
        Ok(v) => v.get("error").cloned(),
        Err(_) => None,
    }
}

/// Relies on serde_json::Value::get: the value of key `key` when `v` is an
/// object holding it, and `None` otherwise.
#[verifier::external_body]
fn get_field<'a>(v: &'a serde_json::Value, key: &str) -> Option<&'a serde_json::Value> {
    v.get(key)
}

/// Relies on serde_json::Value's Display through ToString::to_string: the
/// value rendered as compact JSON text.
#[verifier::external_body]
fn json_to_string(v: &serde_json::Value) -> String {
    v.to_string()
}

/// Relies on the variant shape of serde_json::Value: copies the tree into
/// the library's own [`Json`] type, one arm per variant, keys and elements
/// in delivered order; a number's payload is dropped, as nothing reads it.
#[verifier::external_body]
fn value_to_json(v: &serde_json::Value) -> Json {
    match v {
        serde_json::Value::Null => Json::Null,
        serde_json::Value::Bool(b) => Json::Bool(*b),
        serde_json::Value::Number(_) => Json::Num,
        serde_json::Value::String(s) => Json::Str(s.clone()),
        serde_json::Value::Array(a) => Json::Arr(a.iter().map(value_to_json).collect()),
        serde_json::Value::Object(m) => Json::Obj(
            m.iter().map(|(k, x)| (k.clone(), value_to_json(x))).collect(),
        ),
    }
}

/// Decode one JSON-RPC response envelope.
///
/// `http_ok` says whether the HTTP status was a success; `body` is the
/// response text. A non-success status is a protocol error carrying the
/// body; a body that is not valid JSON is a decode error; a valid body whose
/// top level holds an `error` field is a protocol error even though HTTP
/// succeeded, and its `result` field is not returned. Exactly otherwise the
/// call succeeds, with the envelope's `result` field converted into the
/// library's tree, or JSON null when that field is absent. This stage never
/// reports a transport error: those belong to the caller's transport.
pub fn decode_envelope(http_ok: bool, body: &str) -> (r: Result<Json, RpcError>)
    ensures
        !http_ok ==> r is Err && r->Err_0 is Protocol && r->Err_0->Protocol_0@ == body@,
        r is Err ==> !(r->Err_0 is Transport),
        http_ok ==> ((r is Err && r->Err_0 is Decode) <==> !json_valid(body@)),
        http_ok && json_valid(body@) ==> ((r is Err && r->Err_0 is Protocol) <==> has_error_field(
            body@,
        )),
        (r is Ok) <==> (http_ok && json_valid(body@) && !has_error_field(body@)),
{
    if !http_ok {
        return Err(RpcError::Protocol(body.to_owned()));
    }
    let v = match parse_json(body) {
        Some(v) => v,
        None => {
            return Err(RpcError::Decode);
        },
    };
    if let Some(e) = error_field_in_body(body) {
        return Err(RpcError::Protocol(json_to_string(&e)));
    }
    match get_field(&v, "result") {
        Some(res) => Ok(value_to_json(res)),
        None => Ok(Json::Null),
    }
}

/// The raw value under a page entry's `signature` key, when the entry is an
/// object holding one.
pub open spec fn sig_of(e: Json) -> Option<Json> {
    spec_obj_get(e, "signature"@)
}

/// The signatures of the page elements `elems`, in delivered order: one per
/// element whose `signature` field is a string; other elements contribute
/// nothing.
pub open spec fn spec_signatures(elems: Seq<Json>) -> Seq<String>
    decreases elems.len(),
{
    if elems.len() == 0 {
        Seq::empty()
    } else {
        spec_signatures(elems.drop_last()) + match sig_of(elems.last()) {
            Some(v) => match v {
                Json::Str(s) => seq![s],
                _ => Seq::empty(),
            },
            None => Seq::empty(),
        }
    }
}

/// Extract the signature list from the decoded result of a
/// `getSignaturesForAddress` call: one entry per element whose `signature`
/// field is a string, in the order delivered (newest first). Elements
/// without such a field are skipped; a result that is not an array yields
/// `None`.
pub fn extract_signatures(j: &Json) -> (r: Option<Vec<String>>)
    ensures
        (r is Some) == (*j is Arr),
        r matches Some(v) ==> v@ == spec_signatures((*j)->Arr_0@),
{
    let elems = match j {
        Json::Arr(elems) => elems,
        _ => {
            return None;
        },
    };
    let ghost es = elems@;
    let mut out: Vec<String> = Vec::new();
    let mut i: usize = 0;
    while i < elems.len()
        invariant
            0 <= i <= es.len(),
            es == elems@,
            *j == Json::Arr(*elems),
            out@ == spec_signatures(es.take(i as int)),
        decreases es.len() - i,
    {
        let entry = &elems[i];
        proof {
            assert(es.take(i as int + 1).drop_last() =~= es.take(i as int));
            assert(es.take(i as int + 1).last() == es[i as int]);
        }
        match obj_get(entry, "signature") {
            Some(f) => match f {
                Json::Str(s) => {
                    out.push(s.clone());
                    assert(out@ =~= spec_signatures(es.take(i as int + 1)));
                },
                _ => {
                    assert(out@ =~= spec_signatures(es.take(i as int + 1)));
                },
            },
            None => {
                assert(out@ =~= spec_signatures(es.take(i as int + 1)));
            },
        }
        i = i + 1;
    }
    proof {
        assert(es.take(es.len() as int) =~= es);
    }
    Some(out)
}

/// The program identifier of a raw instruction element: its `program` field
/// as a string, or empty when absent or not a string.
pub open spec fn spec_program(e: Json) -> Seq<char> {
    match spec_str_field(e, "program"@) {
        Some(s) => s,
        None => Seq::empty(),
    }
}

/// The operation tag of a raw instruction element: the string under
/// `parsed.type`, when the element carries a parsed record with one.
pub open spec fn spec_parsed_tag(e: Json) -> Option<Seq<char>> {
    match spec_obj_get(e, "parsed"@) {
        Some(p) => spec_str_field(p, "type"@),
        None => None,
    }
}

/// The string under `parsed.info.<key>` of a raw instruction element, when
/// each step of that path is there and the leaf is a string.
pub open spec fn spec_info_field(e: Json, key: Seq<char>) -> Option<Seq<char>> {
    match spec_obj_get(e, "parsed"@) {
        Some(p) => match spec_obj_get(p, "info"@) {
            Some(info) => spec_str_field(info, key),
            None => None,
        },
        None => None,
    }
}

/// The view of an optional string.
pub open spec fn opt_view(o: Option<String>) -> Option<Seq<char>> {
    match o {
        Some(s) => Some(s@),
        None => None,
    }
}

/// Whether the typed instruction `i` is the conversion of the raw element
/// `e`: same program identifier (empty as the default), a parsed record
/// exactly when `e` carries a string `type` tag, and the three info fields
/// read from `parsed.info`.
pub open spec fn instr_matches(i: InstructionNode, e: Json) -> bool {
    &&& i.program@ == spec_program(e)
    &&& (i.parsed is Some) == (spec_parsed_tag(e) is Some)
    &&& i.parsed matches Some(p) ==> {
        &&& p.op_type@ == spec_parsed_tag(e)->Some_0
        &&& opt_view(p.info.amount) == spec_info_field(e, "amount"@)
        &&& opt_view(p.info.source) == spec_info_field(e, "source"@)
        &&& opt_view(p.info.mint) == spec_info_field(e, "mint"@)
    }
}

/// Whether the typed instruction list `is` is the element-wise conversion of
/// the raw elements `es`.
pub open spec fn instrs_match(is: Seq<InstructionNode>, es: Seq<Json>) -> bool {
    is.len() == es.len() && forall|k: int| 0 <= k < is.len() ==> instr_matches(is[k], es[k])
}

/// Convert one raw instruction element into the typed model.
fn parse_instruction(e: &Json) -> (r: InstructionNode)
    ensures
        instr_matches(r, *e),
{
    let program = match str_field(e, "program") {
        Some(s) => s,
        None => {
            proof {
                reveal_strlit("");
                assert(""@ =~= Seq::<char>::empty());
            }
            "".to_owned()
        },
    };
    let parsed = match obj_get(e, "parsed") {
        Some(p) => match str_field(p, "type") {
            Some(t) => {
                let info = obj_get(p, "info");
                Some(
                    ParsedInstr {
                        op_type: t,
                        info: ParsedInfo {
                            amount: opt_info_str(info, "amount"),
                            source: opt_info_str(info, "source"),
                            mint: opt_info_str(info, "mint"),
                        },
                    },
                )
            },
            None => None,
        },
        None => None,
    };
    InstructionNode { program, parsed }
}

/// The string field `key` of the optional `info` record.
fn opt_info_str(info: Option<&Json>, key: &str) -> (r: Option<String>)
    ensures
        opt_view(r) == match info {
            Some(iv) => spec_str_field(*iv, key@),
            None => None,
        },
{
    match info {
        Some(iv) => str_field(iv, key),
        None => None,
    }
}

/// Convert a raw instruction array into the typed model, keeping order.
fn parse_instruction_list(elems: &Vec<Json>) -> (r: Vec<InstructionNode>)
    ensures
        instrs_match(r@, elems@),
{
    let mut out: Vec<InstructionNode> = Vec::new();
    let mut i: usize = 0;
    while i < elems.len()
        invariant
            0 <= i <= elems@.len(),
            out@.len() == i,
            forall|k: int| 0 <= k < i ==> instr_matches(out@[k], elems@[k]),
        decreases elems@.len() - i,
    {
        out.push(parse_instruction(&elems[i]));
        i = i + 1;
    }
    out
}

/// The raw top-level instruction elements of a decoded transaction: the
/// array at `transaction.message.instructions`, or empty when any step of
/// that path is absent or not an array.
pub open spec fn spec_top_elems(j: Json) -> Seq<Json> {
    match spec_obj_get(j, "transaction"@) {
        Some(t) => match spec_obj_get(t, "message"@) {
            Some(m) => match spec_obj_get(m, "instructions"@) {
                Some(v) => match v {
                    Json::Arr(a) => a@,
                    _ => Seq::empty(),
                },
                None => Seq::empty(),
            },
            None => Seq::empty(),
        },
        None => Seq::empty(),
    }
}

/// The raw inner-instruction group elements of a decoded transaction: the
/// array at `meta.innerInstructions`, or empty when absent or not an array.
pub open spec fn spec_group_elems(j: Json) -> Seq<Json> {
    match spec_obj_get(j, "meta"@) {
        Some(m) => match spec_obj_get(m, "innerInstructions"@) {
            Some(v) => match v {
                Json::Arr(a) => a@,
                _ => Seq::empty(),
            },
            None => Seq::empty(),
        },
        None => Seq::empty(),
    }
}

/// The instruction arrays of the raw groups `gs`, in group order: one per
/// group whose `instructions` field is an array; a group without one holds
/// nothing to scan and is dropped.
pub open spec fn spec_group_lists(gs: Seq<Json>) -> Seq<Seq<Json>>
    decreases gs.len(),
{
    if gs.len() == 0 {
        Seq::empty()
    } else {
        spec_group_lists(gs.drop_last()) + match spec_obj_get(gs.last(), "instructions"@) {
            Some(v) => match v {
                Json::Arr(a) => seq![a@],
                _ => Seq::empty(),
            },
            None => Seq::empty(),
        }
    }
}

/// Whether the typed transaction `t` is the conversion of the decoded value
/// `j`: its instruction list converts `transaction.message.instructions`
/// element-wise, and its groups convert, in order, exactly the groups under
/// `meta.innerInstructions` that carry an instruction array.
pub open spec fn tx_matches(t: Transaction, j: Json) -> bool {
    &&& instrs_match(t.instructions@, spec_top_elems(j))
    &&& t.inner_groups@.len() == spec_group_lists(spec_group_elems(j)).len()
    &&& forall|k: int|
        0 <= k < t.inner_groups@.len() ==> instrs_match(
            t.inner_groups@[k].instructions@,
            spec_group_lists(spec_group_elems(j))[k],
        )
}

/// Convert a decoded transaction value into the typed model the detector
/// scans.
pub fn parse_transaction(j: &Json) -> (t: Transaction)
    ensures
        tx_matches(t, *j),
{
    let mut instructions: Vec<InstructionNode> = Vec::new();
    if let Some(tx) = obj_get(j, "transaction") {
        if let Some(msg) = obj_get(tx, "message") {
            if let Some(iv) = obj_get(msg, "instructions") {
                if let Json::Arr(arr) = iv {
                    instructions = parse_instruction_list(arr);
                }
            }
        }
    }
    assert(instrs_match(instructions@, spec_top_elems(*j)));
    let mut inner_groups: Vec<InnerGroup> = Vec::new();
    if let Some(meta) = obj_get(j, "meta") {
        if let Some(inner) = obj_get(meta, "innerInstructions") {
            if let Json::Arr(garr) = inner {
                let ghost gs = garr@;
                let mut g: usize = 0;
                while g < garr.len()
                    invariant
                        0 <= g <= gs.len(),
                        gs == garr@,
                        inner_groups@.len() == spec_group_lists(gs.take(g as int)).len(),
                        forall|k: int|
                            0 <= k < inner_groups@.len() ==> instrs_match(
                                inner_groups@[k].instructions@,
                                spec_group_lists(gs.take(g as int))[k],
                            ),
                    decreases gs.len() - g,
                {
                    proof {
                        assert(gs.take(g as int + 1).drop_last() =~= gs.take(g as int));
                        assert(gs.take(g as int + 1).last() == gs[g as int]);
                    }
                    if let Some(giv) = obj_get(&garr[g], "instructions") {
                        if let Json::Arr(arr) = giv {
                            inner_groups.push(
                                InnerGroup { instructions: parse_instruction_list(arr) },
                            );
                        }
                    }
                    g = g + 1;
                }
                proof {
                    assert(gs.take(gs.len() as int) =~= gs);
                }
            }
        }
    }
    Transaction { instructions, inner_groups }
}

/// The typed transaction behind a `getTransaction` result: `None` exactly
/// when the result is JSON null (the transaction is not yet available — not
/// an error), and the conversion of the result otherwise.
pub fn transaction_from_rpc(j: &Json) -> (r: Option<Transaction>)
    ensures
        (r is None) == (*j is Null),
        r matches Some(t) ==> tx_matches(t, *j),
{
    match j {
        Json::Null => None,
        _ => Some(parse_transaction(j)),
    }
}

} // verus!
