use vstd::prelude::*;

verus! {

use crate::json::{JVal, jv_get, jv_obj_lookup, lemma_obj_lookup_first, lemma_obj_lookup_none};
use crate::v1beta::live::{
    ClientContentV, ClientMessage, ContentV, FunctionCallV, FunctionResponseV, InlineDataV,
    PartDataV, PartV, ServerContentV, ServerMessageV, b64_valid, sp_scheduling_from,
    sp_scheduling_text, sp_client_content_json, sp_content_json, sp_contents_json,
    sp_content_from, sp_encode_client_message, sp_function_call_from, sp_function_call_json,
    sp_function_response_from, sp_function_response_json, sp_inline_data_from,
    sp_inline_data_json, sp_parts_from, sp_parts_json, sp_part_from, sp_part_json,
    sp_server_content_from, sp_server_message_from, sp_has_known_field,
};

// ---------------------------------------------------------------------------
// Well-formed values
// ---------------------------------------------------------------------------

/// A part whose inline bytes, if any, stand as canonical base64 text — true
/// of every part the library itself builds.
pub open spec fn wf_part(p: PartV) -> bool {
    match p.data {
        PartDataV::InlineData(d) => b64_valid(d.data_b64),
        _ => true,
    }
}

pub open spec fn wf_parts(s: Seq<PartV>) -> bool {
    forall|i: int| 0 <= i < s.len() ==> wf_part(#[trigger] s[i])
}

pub open spec fn wf_content(c: ContentV) -> bool {
    wf_parts(c.parts)
}

pub open spec fn wf_contents(s: Seq<ContentV>) -> bool {
    forall|i: int| 0 <= i < s.len() ==> wf_content(#[trigger] s[i])
}

pub open spec fn wf_client_content(c: ClientContentV) -> bool {
    wf_contents(c.turns)
}

pub open spec fn wf_server_content(sc: ServerContentV) -> bool {
    match sc {
        ServerContentV::ModelTurn(c) => wf_content(c),
        _ => true,
    }
}

// ---------------------------------------------------------------------------
// Spec-level decoding of the outbound content shape
// ---------------------------------------------------------------------------

/// Turns read back from a `clientContent` payload.
pub open spec fn sp_contents_from(s: Seq<JVal>) -> Option<Seq<ContentV>>
    decreases s.len(),
{
    if s.len() == 0 {
        Some(Seq::empty())
    } else {
        match sp_content_from(s[0]) {
            Some(c) => match sp_contents_from(s.subrange(1, s.len() as int)) {
                Some(rest) => Some(seq![c] + rest),
                None => None,
            },
            None => None,
        }
    }
}

/// A `clientContent` payload read back into its turns and flag.
pub open spec fn sp_client_content_from(v: JVal) -> Option<ClientContentV> {
    match jv_get(v, "turns"@) {
        Some(JVal::Arr(a)) => match sp_contents_from(a) {
            Some(turns) => match jv_get(v, "turnComplete"@) {
                Some(JVal::Bool(b)) => Some(ClientContentV { turns, turn_complete: b }),
                _ => None,
            },
            None => None,
        },
        _ => None,
    }
}

/// The JSON an inbound content event would be written as: the variant's one
/// field, the three completion markers carrying `true`.
pub open spec fn sp_server_content_json(sc: ServerContentV) -> JVal {
    match sc {
        ServerContentV::ModelTurn(c) => JVal::Obj(seq![("modelTurn"@, sp_content_json(c))]),
        ServerContentV::GenerationComplete => JVal::Obj(
            seq![("generationComplete"@, JVal::Bool(true))],
        ),
        ServerContentV::TurnComplete => JVal::Obj(seq![("turnComplete"@, JVal::Bool(true))]),
        ServerContentV::Interrupted => JVal::Obj(seq![("interrupted"@, JVal::Bool(true))]),
        ServerContentV::GroundingMetadata(v) => JVal::Obj(seq![("groundingMetadata"@, v)]),
        ServerContentV::OutputTranscription(t) => JVal::Obj(
            seq![("outputTranscription"@, JVal::Obj(seq![("text"@, JVal::Str(t.text))]))],
        ),
        ServerContentV::InputTranscription(t) => JVal::Obj(
            seq![("inputTranscription"@, JVal::Obj(seq![("text"@, JVal::Str(t.text))]))],
        ),
    }
}

// ---------------------------------------------------------------------------
// Round trips
// ---------------------------------------------------------------------------

proof fn lemma_scheduling_text_rt(s: crate::v1beta::live::FunctionResponseScheduling)
    ensures
        sp_scheduling_from(sp_scheduling_text(s)) == Some(s),
{
    reveal_strlit("SILENT");
    reveal_strlit("WHEN_IDLE");
    reveal_strlit("INTERRUPT");
    assert("SILENT"@.len() == 6);
    assert("WHEN_IDLE"@.len() == 9);
    assert("INTERRUPT"@.len() == 9);
    assert("WHEN_IDLE"@[0] == 'W' && "INTERRUPT"@[0] == 'I');
}

proof fn lemma_role_text_rt(r: crate::v1beta::live::Role)
    ensures
        crate::v1beta::live::sp_role_from(crate::v1beta::live::sp_role_text(r)) == Some(r),
{
    reveal_strlit("user");
    reveal_strlit("model");
    assert("user"@.len() == 4);
    assert("model"@.len() == 5);
}

proof fn lemma_outcome_text_rt(o: crate::v1beta::live::CodeExecutionOutcome)
    ensures
        crate::v1beta::live::sp_outcome_from(crate::v1beta::live::sp_outcome_text(o)) == Some(o),
{
    reveal_strlit("OUTCOME_OK");
    reveal_strlit("OUTCOME_FAILED");
    reveal_strlit("OUTCOME_DEADLINE_EXCEEDED");
    assert("OUTCOME_OK"@.len() == 10);
    assert("OUTCOME_FAILED"@.len() == 14);
    assert("OUTCOME_DEADLINE_EXCEEDED"@.len() == 25);
}

proof fn lemma_inline_data_rt(d: InlineDataV)
    requires
        b64_valid(d.data_b64),
    ensures
        sp_inline_data_from(sp_inline_data_json(d)) == Some(d),
{
    reveal_with_fuel(jv_obj_lookup, 4);
    reveal_strlit("mimeType");
    reveal_strlit("data");
    let o = sp_inline_data_json(d)->Obj_0;
    assert(o.len() == 2);
    assert(o[0].0 == "mimeType"@);
    assert("mimeType"@ != "data"@);
    assert(jv_get(sp_inline_data_json(d), "mimeType"@) == Some(JVal::Str(d.mime_type)));
    assert(o.subrange(1, 2)[0] == o[1]);
    assert(jv_obj_lookup(o.subrange(1, 2), "data"@) == Some(JVal::Str(d.data_b64)));
    assert(jv_get(sp_inline_data_json(d), "data"@) == Some(JVal::Str(d.data_b64)));
}

proof fn lemma_function_call_rt(c: FunctionCallV)
    ensures
        sp_function_call_from(sp_function_call_json(c)) == Some(c),
{
    reveal_strlit("id");
    reveal_strlit("name");
    reveal_strlit("args");
    assert("name"@ != "args"@) by {
        assert("name"@[0] == 'n' && "args"@[0] == 'a');
    }
    let o = sp_function_call_json(c)->Obj_0;
    match c.id {
        Some(_) => {
            assert(o.len() == 3);
            assert(o[0].0 == "id"@ && o[1].0 == "name"@ && o[2].0 == "args"@);
            lemma_obj_lookup_first(o, "id"@, 0);
            lemma_obj_lookup_first(o, "name"@, 1);
            lemma_obj_lookup_first(o, "args"@, 2);
        },
        None => {
            assert(o.len() == 2);
            assert(o[0].0 == "name"@ && o[1].0 == "args"@);
            lemma_obj_lookup_none(o, "id"@);
            lemma_obj_lookup_first(o, "name"@, 0);
            lemma_obj_lookup_first(o, "args"@, 1);
        },
    }
}

#[verifier::rlimit(100)]
#[verifier::spinoff_prover]
proof fn lemma_function_response_rt(r: FunctionResponseV)
    ensures
        sp_function_response_from(sp_function_response_json(r)) == Some(r),
{
    reveal_strlit("id");
    reveal_strlit("name");
    reveal_strlit("response");
    reveal_strlit("result");
    reveal_strlit("willContinue");
    reveal_strlit("scheduling");
    let o = sp_function_response_json(r)->Obj_0;
    assert(o.len() == 5);
    assert(o[0].0 == "id"@ && o[1].0 == "name"@ && o[2].0 == "response"@ && o[3].0
        == "willContinue"@ && o[4].0 == "scheduling"@);
    assert("id"@.len() == 2 && "name"@.len() == 4 && "response"@.len() == 8 && "willContinue"@.len()
        == 12 && "scheduling"@.len() == 10);
    lemma_obj_lookup_first(o, "id"@, 0);
    lemma_obj_lookup_first(o, "name"@, 1);
    lemma_obj_lookup_first(o, "response"@, 2);
    lemma_obj_lookup_first(o, "willContinue"@, 3);
    lemma_obj_lookup_first(o, "scheduling"@, 4);
    let ro = o[2].1->Obj_0;
    assert(ro[0].0 == "result"@);
    lemma_obj_lookup_first(ro, "result"@, 0);
    let whole = sp_function_response_json(r);
    assert(jv_get(whole, "id"@) == Some(o[0].1));
    assert(jv_get(whole, "name"@) == Some(JVal::Str(r.name)));
    assert(jv_get(whole, "willContinue"@) == Some(o[3].1));
    match r.scheduling {
        None => {
            assert(jv_get(whole, "scheduling"@) == Some(JVal::Null));
        },
        Some(s) => {
            assert(jv_get(whole, "scheduling"@) == Some(JVal::Str(sp_scheduling_text(s))));
            lemma_scheduling_text_rt(s);
        },
    }
}

#[verifier::rlimit(100)]
#[verifier::spinoff_prover]
proof fn lemma_part_rt(p: PartV)
    requires
        wf_part(p),
    ensures
        sp_part_from(sp_part_json(p)) == Some(p),
{
    reveal_strlit("text");
    reveal_strlit("inlineData");
    reveal_strlit("fileData");
    reveal_strlit("videoMetadata");
    reveal_strlit("functionCall");
    reveal_strlit("functionResponse");
    reveal_strlit("executableCode");
    reveal_strlit("codeExecutionResult");
    reveal_strlit("thought");
    let o = sp_part_json(p)->Obj_0;
    assert(o.len() == 2);
    assert(o[1].0 == "thought"@);
    match p.data {
        PartDataV::Text(_) => {
            assert(o[0].0 == "text"@);
            lemma_obj_lookup_first(o, "text"@, 0);
        },
        PartDataV::InlineData(d) => {
            assert(o[0].0 == "inlineData"@);
            lemma_obj_lookup_none(o, "text"@);
            lemma_obj_lookup_first(o, "inlineData"@, 0);
            lemma_inline_data_rt(d);
        },
        PartDataV::FileData(_) => {
            assert(o[0].0 == "fileData"@);
            lemma_obj_lookup_none(o, "text"@);
            lemma_obj_lookup_none(o, "inlineData"@);
            lemma_obj_lookup_first(o, "fileData"@, 0);
            reveal_strlit("mimeType");
            reveal_strlit("fileUri");
            let fo = o[0].1->Obj_0;
            assert(fo.len() == 2 && fo[0].0 == "mimeType"@ && fo[1].0 == "fileUri"@);
            lemma_obj_lookup_first(fo, "mimeType"@, 0);
            lemma_obj_lookup_first(fo, "fileUri"@, 1);
        },
        PartDataV::VideoMetadata(m) => {
            assert(o[0].0 == "videoMetadata"@);
            lemma_obj_lookup_none(o, "text"@);
            lemma_obj_lookup_none(o, "inlineData"@);
            lemma_obj_lookup_none(o, "fileData"@);
            lemma_obj_lookup_first(o, "videoMetadata"@, 0);
            reveal_strlit("startOffset");
            reveal_strlit("endOffset");
            reveal_strlit("seconds");
            reveal_strlit("nanos");
            let vo = o[0].1->Obj_0;
            assert(vo.len() == 2 && vo[0].0 == "startOffset"@ && vo[1].0 == "endOffset"@);
            lemma_obj_lookup_first(vo, "startOffset"@, 0);
            lemma_obj_lookup_first(vo, "endOffset"@, 1);
            let so = vo[0].1->Obj_0;
            assert(so.len() == 2 && so[0].0 == "seconds"@ && so[1].0 == "nanos"@);
            lemma_obj_lookup_first(so, "seconds"@, 0);
            lemma_obj_lookup_first(so, "nanos"@, 1);
            let eo = vo[1].1->Obj_0;
            assert(eo.len() == 2 && eo[0].0 == "seconds"@ && eo[1].0 == "nanos"@);
            lemma_obj_lookup_first(eo, "seconds"@, 0);
            lemma_obj_lookup_first(eo, "nanos"@, 1);
            crate::json::lemma_parsed_int_lit(m.start_offset.seconds as int);
            crate::json::lemma_parsed_int_lit(m.start_offset.nanos as int);
            crate::json::lemma_parsed_int_lit(m.end_offset.seconds as int);
            crate::json::lemma_parsed_int_lit(m.end_offset.nanos as int);
        },
        PartDataV::FunctionCall(c) => {
            assert(o[0].0 == "functionCall"@);
            lemma_obj_lookup_none(o, "text"@);
            lemma_obj_lookup_none(o, "inlineData"@);
            lemma_obj_lookup_none(o, "fileData"@);
            lemma_obj_lookup_none(o, "videoMetadata"@);
            lemma_obj_lookup_first(o, "functionCall"@, 0);
            lemma_function_call_rt(c);
        },
        PartDataV::FunctionResponse(r) => {
            assert(o[0].0 == "functionResponse"@);
            lemma_obj_lookup_none(o, "text"@);
            lemma_obj_lookup_none(o, "inlineData"@);
            lemma_obj_lookup_none(o, "fileData"@);
            lemma_obj_lookup_none(o, "videoMetadata"@);
            lemma_obj_lookup_none(o, "functionCall"@);
            lemma_obj_lookup_first(o, "functionResponse"@, 0);
            lemma_function_response_rt(r);
        },
        PartDataV::ExecutableCode(_) => {
            assert(o[0].0 == "executableCode"@);
            lemma_obj_lookup_none(o, "text"@);
            lemma_obj_lookup_none(o, "inlineData"@);
            lemma_obj_lookup_none(o, "fileData"@);
            lemma_obj_lookup_none(o, "videoMetadata"@);
            lemma_obj_lookup_none(o, "functionCall"@);
            lemma_obj_lookup_none(o, "functionResponse"@);
            lemma_obj_lookup_first(o, "executableCode"@, 0);
            reveal_strlit("language");
            reveal_strlit("code");
            let eo = o[0].1->Obj_0;
            assert(eo.len() == 2 && eo[0].0 == "language"@ && eo[1].0 == "code"@);
            lemma_obj_lookup_first(eo, "language"@, 0);
            lemma_obj_lookup_first(eo, "code"@, 1);
        },
        PartDataV::CodeExecutionResult(cr) => {
            assert(o[0].0 == "codeExecutionResult"@);
            lemma_obj_lookup_none(o, "text"@);
            lemma_obj_lookup_none(o, "inlineData"@);
            lemma_obj_lookup_none(o, "fileData"@);
            lemma_obj_lookup_none(o, "videoMetadata"@);
            lemma_obj_lookup_none(o, "functionCall"@);
            lemma_obj_lookup_none(o, "functionResponse"@);
            lemma_obj_lookup_none(o, "executableCode"@);
            lemma_obj_lookup_first(o, "codeExecutionResult"@, 0);
            reveal_strlit("outcome");
            reveal_strlit("output");
            lemma_outcome_text_rt(cr.outcome);
            let co = o[0].1->Obj_0;
            assert(co[0].0 == "outcome"@);
            lemma_obj_lookup_first(co, "outcome"@, 0);
            match cr.output {
                Some(_) => {
                    assert(co.len() == 2 && co[1].0 == "output"@);
                    lemma_obj_lookup_first(co, "output"@, 1);
                },
                None => {
                    assert(co.len() == 1);
                    lemma_obj_lookup_none(co, "output"@);
                },
            }
        },
    }
    lemma_obj_lookup_first(o, "thought"@, 1);
}

proof fn lemma_parts_rt(s: Seq<PartV>)
    requires
        wf_parts(s),
    ensures
        sp_parts_from(sp_parts_json(s)) == Some(s),
    decreases s.len(),
{
    if s.len() == 0 {
        assert(sp_parts_from(sp_parts_json(s)) =~= Some(Seq::<PartV>::empty()));
        assert(Seq::<PartV>::empty() =~= s);
    } else {
        let tail = s.subrange(1, s.len() as int);
        assert(wf_parts(tail)) by {
            assert(forall|i: int| 0 <= i < tail.len() ==> tail[i] == s[i + 1]);
        }
        lemma_part_rt(s[0]);
        lemma_parts_rt(tail);
        let js = sp_parts_json(s);
        assert(js[0] == sp_part_json(s[0]));
        assert(js.subrange(1, js.len() as int) =~= sp_parts_json(tail));
        assert(seq![s[0]] + tail =~= s);
    }
}

#[verifier::rlimit(100)]
#[verifier::spinoff_prover]
proof fn lemma_content_rt(c: ContentV)
    requires
        wf_content(c),
    ensures
        sp_content_from(sp_content_json(c)) == Some(c),
{
    reveal_strlit("role");
    reveal_strlit("parts");
    let o = sp_content_json(c)->Obj_0;
    assert(o.len() == 2);
    assert(o[0].0 == "role"@ && o[1].0 == "parts"@);
    lemma_obj_lookup_first(o, "role"@, 0);
    lemma_obj_lookup_first(o, "parts"@, 1);
    match c.role {
        Some(r) => {
            lemma_role_text_rt(r);
        },
        None => {},
    }
    lemma_parts_rt(c.parts);
}

proof fn lemma_contents_rt(s: Seq<ContentV>)
    requires
        wf_contents(s),
    ensures
        sp_contents_from(sp_contents_json(s)) == Some(s),
    decreases s.len(),
{
    if s.len() == 0 {
        assert(sp_contents_from(sp_contents_json(s)) =~= Some(Seq::<ContentV>::empty()));
        assert(Seq::<ContentV>::empty() =~= s);
    } else {
        let tail = s.subrange(1, s.len() as int);
        assert(wf_contents(tail)) by {
            assert(forall|i: int| 0 <= i < tail.len() ==> tail[i] == s[i + 1]);
        }
        lemma_content_rt(s[0]);
        lemma_contents_rt(tail);
        let js = sp_contents_json(s);
        assert(js[0] == sp_content_json(s[0]));
        assert(js.subrange(1, js.len() as int) =~= sp_contents_json(tail));
        assert(seq![s[0]] + tail =~= s);
    }
}

/// Encoding client content and reading it back preserves every populated
/// field: the turns, each part, and the turn-complete flag.
pub proof fn lemma_client_content_round_trip(c: ClientContentV)
    requires
        wf_client_content(c),
    ensures
        sp_client_content_from(sp_client_content_json(c)) == Some(c),
{
    reveal_strlit("turns");
    reveal_strlit("turnComplete");
    let o = sp_client_content_json(c)->Obj_0;
    assert(o.len() == 2);
    assert(o[0].0 == "turns"@ && o[1].0 == "turnComplete"@);
    lemma_obj_lookup_first(o, "turns"@, 0);
    lemma_obj_lookup_first(o, "turnComplete"@, 1);
    lemma_contents_rt(c.turns);
}

/// Encoding an inbound content event and decoding it again preserves every
/// populated field. The three completion markers carry no payload: decoding
/// tests only that their field is present.
pub proof fn lemma_server_content_round_trip(sc: ServerContentV)
    requires
        wf_server_content(sc),
    ensures
        sp_server_content_from(sp_server_content_json(sc)) == Some(sc),
{
    reveal_strlit("modelTurn");
    reveal_strlit("generationComplete");
    reveal_strlit("turnComplete");
    reveal_strlit("interrupted");
    reveal_strlit("groundingMetadata");
    reveal_strlit("outputTranscription");
    reveal_strlit("inputTranscription");
    reveal_strlit("text");
    assert("inputTranscription"@ != "generationComplete"@) by {
        assert("inputTranscription"@[0] == 'i' && "generationComplete"@[0] == 'g');
    }
    let o = sp_server_content_json(sc)->Obj_0;
    assert(o.len() == 1);
    match sc {
        ServerContentV::ModelTurn(c) => {
            assert(o[0].0 == "modelTurn"@);
            lemma_obj_lookup_first(o, "modelTurn"@, 0);
            lemma_content_rt(c);
        },
        ServerContentV::GenerationComplete => {
            assert(o[0].0 == "generationComplete"@);
            lemma_obj_lookup_none(o, "modelTurn"@);
            lemma_obj_lookup_first(o, "generationComplete"@, 0);
        },
        ServerContentV::TurnComplete => {
            assert(o[0].0 == "turnComplete"@);
            lemma_obj_lookup_none(o, "modelTurn"@);
            lemma_obj_lookup_none(o, "generationComplete"@);
            lemma_obj_lookup_first(o, "turnComplete"@, 0);
        },
        ServerContentV::Interrupted => {
            assert(o[0].0 == "interrupted"@);
            lemma_obj_lookup_none(o, "modelTurn"@);
            lemma_obj_lookup_none(o, "generationComplete"@);
            lemma_obj_lookup_none(o, "turnComplete"@);
            lemma_obj_lookup_first(o, "interrupted"@, 0);
        },
        ServerContentV::GroundingMetadata(_) => {
            assert(o[0].0 == "groundingMetadata"@);
            lemma_obj_lookup_none(o, "modelTurn"@);
            lemma_obj_lookup_none(o, "generationComplete"@);
            lemma_obj_lookup_none(o, "turnComplete"@);
            lemma_obj_lookup_none(o, "interrupted"@);
            lemma_obj_lookup_first(o, "groundingMetadata"@, 0);
        },
        ServerContentV::OutputTranscription(t) => {
            assert(o[0].0 == "outputTranscription"@);
            lemma_obj_lookup_none(o, "modelTurn"@);
            lemma_obj_lookup_none(o, "generationComplete"@);
            lemma_obj_lookup_none(o, "turnComplete"@);
            lemma_obj_lookup_none(o, "interrupted"@);
            lemma_obj_lookup_none(o, "groundingMetadata"@);
            lemma_obj_lookup_first(o, "outputTranscription"@, 0);
            let to = o[0].1->Obj_0;
            lemma_obj_lookup_first(to, "text"@, 0);
        },
        ServerContentV::InputTranscription(t) => {
            assert(o[0].0 == "inputTranscription"@);
            lemma_obj_lookup_none(o, "modelTurn"@);
            lemma_obj_lookup_none(o, "generationComplete"@);
            lemma_obj_lookup_none(o, "turnComplete"@);
            lemma_obj_lookup_none(o, "interrupted"@);
            lemma_obj_lookup_none(o, "groundingMetadata"@);
            lemma_obj_lookup_none(o, "outputTranscription"@);
            lemma_obj_lookup_first(o, "inputTranscription"@, 0);
            let to = o[0].1->Obj_0;
            lemma_obj_lookup_first(to, "text"@, 0);
        },
    }
}

/// Decoding a completion marker ignores the literal value under the field:
/// any payload at all selects the marker.
#[verifier::rlimit(100)]
#[verifier::spinoff_prover]
pub proof fn lemma_marker_presence_only(x: JVal)
    ensures
        sp_server_content_from(JVal::Obj(seq![("generationComplete"@, x)])) == Some(
            ServerContentV::GenerationComplete,
        ),
        sp_server_content_from(JVal::Obj(seq![("turnComplete"@, x)])) == Some(
            ServerContentV::TurnComplete,
        ),
        sp_server_content_from(JVal::Obj(seq![("interrupted"@, x)])) == Some(
            ServerContentV::Interrupted,
        ),
{
    reveal_strlit("modelTurn");
    reveal_strlit("generationComplete");
    reveal_strlit("turnComplete");
    reveal_strlit("interrupted");
    assert("modelTurn"@.len() == 9);
    assert("generationComplete"@.len() == 18);
    assert("turnComplete"@.len() == 12);
    assert("interrupted"@.len() == 11);
    let g: Seq<(Seq<char>, JVal)> = seq![("generationComplete"@, x)];
    lemma_obj_lookup_none(g, "modelTurn"@);
    lemma_obj_lookup_first(g, "generationComplete"@, 0);
    let t: Seq<(Seq<char>, JVal)> = seq![("turnComplete"@, x)];
    lemma_obj_lookup_none(t, "modelTurn"@);
    lemma_obj_lookup_none(t, "generationComplete"@);
    lemma_obj_lookup_first(t, "turnComplete"@, 0);
    let i: Seq<(Seq<char>, JVal)> = seq![("interrupted"@, x)];
    lemma_obj_lookup_none(i, "modelTurn"@);
    lemma_obj_lookup_none(i, "generationComplete"@);
    lemma_obj_lookup_none(i, "turnComplete"@);
    lemma_obj_lookup_first(i, "interrupted"@, 0);
}

// ---------------------------------------------------------------------------
// Mutual exclusivity of the envelope fields
// ---------------------------------------------------------------------------

/// For an envelope carrying exactly one of the six known top-level fields,
/// decoding selects that field's variant (or fails on its payload, never
/// another variant); an envelope carrying none of them fails decode.
pub proof fn lemma_envelope_mutual_exclusivity(v: JVal)
    ensures
        !sp_has_known_field(v) ==> sp_server_message_from(v) is None,
        (jv_get(v, "setupComplete"@) is Some && jv_get(v, "serverContent"@) is None && jv_get(
            v,
            "toolCall"@,
        ) is None && jv_get(v, "toolCallCancellation"@) is None && jv_get(v, "goAway"@) is None
            && jv_get(v, "sessionResumptionUpdate"@) is None) ==> sp_server_message_from(v)
            == Some(ServerMessageV::SetupComplete),
        (jv_get(v, "setupComplete"@) is None && jv_get(v, "serverContent"@) is Some && jv_get(
            v,
            "toolCall"@,
        ) is None && jv_get(v, "toolCallCancellation"@) is None && jv_get(v, "goAway"@) is None
            && jv_get(v, "sessionResumptionUpdate"@) is None) ==> (sp_server_message_from(v)
            is None || sp_server_message_from(v)->Some_0 is ServerContent),
        (jv_get(v, "setupComplete"@) is None && jv_get(v, "serverContent"@) is None && jv_get(
            v,
            "toolCall"@,
        ) is Some && jv_get(v, "toolCallCancellation"@) is None && jv_get(v, "goAway"@) is None
            && jv_get(v, "sessionResumptionUpdate"@) is None) ==> (sp_server_message_from(v)
            is None || sp_server_message_from(v)->Some_0 is ToolCall),
        (jv_get(v, "setupComplete"@) is None && jv_get(v, "serverContent"@) is None && jv_get(
            v,
            "toolCall"@,
        ) is None && jv_get(v, "toolCallCancellation"@) is Some && jv_get(v, "goAway"@) is None
            && jv_get(v, "sessionResumptionUpdate"@) is None) ==> (sp_server_message_from(v)
            is None || sp_server_message_from(v)->Some_0 is ToolCallCancellation),
        (jv_get(v, "setupComplete"@) is None && jv_get(v, "serverContent"@) is None && jv_get(
            v,
            "toolCall"@,
        ) is None && jv_get(v, "toolCallCancellation"@) is None && jv_get(v, "goAway"@) is Some
            && jv_get(v, "sessionResumptionUpdate"@) is None) ==> (sp_server_message_from(v)
            is None || sp_server_message_from(v)->Some_0 is GoAway),
        (jv_get(v, "setupComplete"@) is None && jv_get(v, "serverContent"@) is None && jv_get(
            v,
            "toolCall"@,
        ) is None && jv_get(v, "toolCallCancellation"@) is None && jv_get(v, "goAway"@) is None
            && jv_get(v, "sessionResumptionUpdate"@) is Some) ==> (sp_server_message_from(v)
            is None || sp_server_message_from(v)->Some_0 is SessionResumptionUpdate),
{
}

// ---------------------------------------------------------------------------
// Outbound ordering
// ---------------------------------------------------------------------------

/// The frames a sequence of outbound calls becomes, in call order.
pub open spec fn sp_frames_of_calls(msgs: Seq<ClientMessage>) -> Seq<Seq<char>>
    decreases msgs.len(),
{
    if msgs.len() == 0 {
        Seq::empty()
    } else {
        seq![sp_encode_client_message(msgs[0])] + sp_frames_of_calls(
            msgs.subrange(1, msgs.len() as int),
        )
    }
}

/// Outbound calls keep their order on the wire: the frame sequence has one
/// frame per call, the encoding of exactly that call, in the same position.
/// Each `Session::step` on a call emits that one frame and nothing else, so
/// frames written by consecutive steps stand in call order.
pub proof fn lemma_outbound_order(msgs: Seq<ClientMessage>)
    ensures
        sp_frames_of_calls(msgs).len() == msgs.len(),
        forall|i: int|
            0 <= i < msgs.len() ==> sp_frames_of_calls(msgs)[i] == sp_encode_client_message(
                msgs[i],
            ),
    decreases msgs.len(),
{
    if msgs.len() > 0 {
        lemma_outbound_order(msgs.subrange(1, msgs.len() as int));
    }
}

} // verus!
