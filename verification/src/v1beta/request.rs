use vstd::prelude::*;

verus! {

use crate::json::{JVal, JsonValue, JsonNum};
use crate::v1beta::{Content, ContentV, contents_view, lemma_contents_view, lemma_sp_contents_json,
    sp_contents_json, sp_content_json, obj_push};
use crate::v1beta::safety::{HarmCategory, HarmBlockThreshold};

/// One request to the single-shot generation endpoint.
#[derive(Debug, Clone)]
pub struct Request {
    pub contents: Vec<Content>,
    pub tools: Vec<Tools>,
    pub safety_settings: Vec<SafetySettings>,
    pub generation_config: Option<GenerationConfig>,
    pub system_instruction: Option<SystemInstructionContent>,
}

#[derive(Debug, Clone)]
pub struct Tools {
    pub function_declarations: Vec<FunctionDeclaration>,
}

#[derive(Debug, Clone, Copy, PartialEq, Eq)]
pub enum FunctionBehavior {
    /// The system waits for the function response before continuing.
    Blocking,
    /// The system handles function responses as they become available.
    NonBlocking,
}

#[derive(Debug, Clone)]
pub struct FunctionDeclaration {
    pub name: String,
    pub description: String,
    pub parameters: Option<JsonValue>,
    pub response: Option<JsonValue>,
    pub behavior: Option<FunctionBehavior>,
}

#[derive(Debug, Clone, Copy, PartialEq, Eq)]
pub struct SafetySettings {
    pub category: HarmCategory,
    pub threshold: HarmBlockThreshold,
}

/// Options controlling generation; fractional sampling parameters are held
/// as JSON number literals.
#[derive(Debug, Clone)]
pub struct GenerationConfig {
    pub temperature: Option<JsonNum>,
    pub top_p: Option<JsonNum>,
    pub top_k: Option<i32>,
    pub candidate_count: Option<i32>,
    pub max_output_tokens: Option<i32>,
    pub stop_sequences: Option<Vec<String>>,
    pub response_mime_type: Option<String>,
    pub response_schema: Option<JsonValue>,
}

#[derive(Debug, Clone)]
pub struct SystemInstructionContent {
    pub parts: Vec<SystemInstructionPart>,
}

#[derive(Debug, Clone)]
pub struct SystemInstructionPart {
    pub text: String,
}

impl Request {
    /// A request for the given conversation; everything else starts unset.
    pub fn new(contents: Vec<Content>) -> (r: Request)
        ensures
            contents_view(r.contents@) == contents_view(contents@),
            r.tools@.len() == 0,
            r.safety_settings@.len() == 0,
            r.generation_config is None,
            r.system_instruction is None,
    {
        Request {
            contents,
            tools: Vec::new(),
            safety_settings: Vec::new(),
            generation_config: None,
            system_instruction: None,
        }
    }

    pub fn with_generation_config(self, generation_config: GenerationConfig) -> (r: Request)
        ensures
            r == (Request { generation_config: Some(generation_config), ..self }),
    {
        Request { generation_config: Some(generation_config), ..self }
    }

    pub fn with_system_instruction(self, system_instruction: SystemInstructionContent) -> (r:
        Request)
        ensures
            r == (Request { system_instruction: Some(system_instruction), ..self }),
    {
        Request { system_instruction: Some(system_instruction), ..self }
    }

    pub fn with_tools(self, tools: Vec<Tools>) -> (r: Request)
        ensures
            r == (Request { tools, ..self }),
    {
        Request { tools, ..self }
    }

    pub fn with_safety_settings(self, safety_settings: Vec<SafetySettings>) -> (r: Request)
        ensures
            r == (Request { safety_settings, ..self }),
    {
        Request { safety_settings, ..self }
    }
}

impl GenerationConfig {
    /// A configuration with nothing set.
    pub fn new() -> (r: GenerationConfig)
        ensures
            r.temperature is None,
            r.top_p is None,
            r.top_k is None,
            r.candidate_count is None,
            r.max_output_tokens is None,
            r.stop_sequences is None,
            r.response_mime_type is None,
            r.response_schema is None,
    {
        GenerationConfig {
            temperature: None,
            top_p: None,
            top_k: None,
            candidate_count: None,
            max_output_tokens: None,
            stop_sequences: None,
            response_mime_type: None,
            response_schema: None,
        }
    }

    pub fn with_max_output_tokens(self, max_output_tokens: i32) -> (r: GenerationConfig)
        ensures
            r == (GenerationConfig { max_output_tokens: Some(max_output_tokens), ..self }),
    {
        GenerationConfig { max_output_tokens: Some(max_output_tokens), ..self }
    }

    pub fn with_temperature(self, temperature: JsonNum) -> (r: GenerationConfig)
        ensures
            r == (GenerationConfig { temperature: Some(temperature), ..self }),
    {
        GenerationConfig { temperature: Some(temperature), ..self }
    }

    pub fn with_stop_sequences(self, stop_sequences: Vec<String>) -> (r: GenerationConfig)
        ensures
            r == (GenerationConfig { stop_sequences: Some(stop_sequences), ..self }),
    {
        GenerationConfig { stop_sequences: Some(stop_sequences), ..self }
    }
}

impl FunctionDeclaration {
    pub fn new(name: &str, description: &str) -> (r: FunctionDeclaration)
        ensures
            r.name@ == name@,
            r.description@ == description@,
            r.parameters is None,
            r.response is None,
            r.behavior is None,
    {
        FunctionDeclaration {
            name: name.to_owned(),
            description: description.to_owned(),
            parameters: None,
            response: None,
            behavior: None,
        }
    }
}

impl SystemInstructionContent {
    pub fn new(parts: Vec<SystemInstructionPart>) -> (r: SystemInstructionContent)
        ensures
            r.parts@ == parts@,
    {
        SystemInstructionContent { parts }
    }
}

impl SystemInstructionPart {
    pub fn new(text: &str) -> (r: SystemInstructionPart)
        ensures
            r.text@ == text@,
    {
        SystemInstructionPart { text: text.to_owned() }
    }
}

// ---------------------------------------------------------------------------
// JSON
// ---------------------------------------------------------------------------

pub open spec fn sp_harm_category_text(c: HarmCategory) -> Seq<char> {
    match c {
        HarmCategory::HarmCategoryUnspecified => "HARM_CATEGORY_UNSPECIFIED"@,
        HarmCategory::HarmCategorySexuallyExplicit => "HARM_CATEGORY_SEXUALLY_EXPLICIT"@,
        HarmCategory::HarmCategoryHateSpeech => "HARM_CATEGORY_HATE_SPEECH"@,
        HarmCategory::HarmCategoryHarassment => "HARM_CATEGORY_HARASSMENT"@,
        HarmCategory::HarmCategoryDangerousContent => "HARM_CATEGORY_DANGEROUS_CONTENT"@,
    }
}

pub open spec fn sp_threshold_text(t: HarmBlockThreshold) -> Seq<char> {
    match t {
        HarmBlockThreshold::HarmBlockThresholdUnspecified => "HARM_BLOCK_THRESHOLD_UNSPECIFIED"@,
        HarmBlockThreshold::BlockNone => "BLOCK_NONE"@,
        HarmBlockThreshold::BlockLowAndAbove => "BLOCK_LOW_AND_ABOVE"@,
        HarmBlockThreshold::BlockMedAndAbove => "BLOCK_MED_AND_ABOVE"@,
        HarmBlockThreshold::BlockOnlyHigh => "BLOCK_HIGH_AND_ABOVE"@,
    }
}

pub open spec fn sp_behavior_text(b: FunctionBehavior) -> Seq<char> {
    match b {
        FunctionBehavior::Blocking => "BLOCKING"@,
        FunctionBehavior::NonBlocking => "NON_BLOCKING"@,
    }
}

pub open spec fn sp_declaration_json(d: FunctionDeclaration) -> JVal {
    JVal::Obj(
        seq![
            ("name"@, JVal::Str(d.name@)),
            ("description"@, JVal::Str(d.description@)),
        ] + (match d.parameters {
            Some(v) => seq![("parameters"@, v@)],
            None => Seq::empty(),
        }) + (match d.response {
            Some(v) => seq![("response"@, v@)],
            None => Seq::empty(),
        }) + (match d.behavior {
            Some(b) => seq![("behavior"@, JVal::Str(sp_behavior_text(b)))],
            None => Seq::empty(),
        }),
    )
}

pub open spec fn sp_declarations_json(s: Seq<FunctionDeclaration>) -> Seq<JVal>
    decreases s.len(),
{
    if s.len() == 0 {
        Seq::empty()
    } else {
        seq![sp_declaration_json(s[0])] + sp_declarations_json(s.subrange(1, s.len() as int))
    }
}

pub proof fn lemma_sp_declarations_json(s: Seq<FunctionDeclaration>)
    ensures
        sp_declarations_json(s).len() == s.len(),
        forall|i: int| 0 <= i < s.len() ==> sp_declarations_json(s)[i] == sp_declaration_json(s[i]),
    decreases s.len(),
{
    if s.len() > 0 {
        lemma_sp_declarations_json(s.subrange(1, s.len() as int));
    }
}

pub open spec fn sp_tools_json(t: Tools) -> JVal {
    JVal::Obj(
        if t.function_declarations@.len() == 0 {
            Seq::empty()
        } else {
            seq![
                ("functionDeclarations"@, JVal::Arr(sp_declarations_json(t.function_declarations@))),
            ]
        },
    )
}

pub open spec fn sp_tools_list_json(s: Seq<Tools>) -> Seq<JVal>
    decreases s.len(),
{
    if s.len() == 0 {
        Seq::empty()
    } else {
        seq![sp_tools_json(s[0])] + sp_tools_list_json(s.subrange(1, s.len() as int))
    }
}

pub proof fn lemma_sp_tools_list_json(s: Seq<Tools>)
    ensures
        sp_tools_list_json(s).len() == s.len(),
        forall|i: int| 0 <= i < s.len() ==> sp_tools_list_json(s)[i] == sp_tools_json(s[i]),
    decreases s.len(),
{
    if s.len() > 0 {
        lemma_sp_tools_list_json(s.subrange(1, s.len() as int));
    }
}

pub open spec fn sp_safety_json(s: SafetySettings) -> JVal {
    JVal::Obj(
        seq![
            ("category"@, JVal::Str(sp_harm_category_text(s.category))),
            ("threshold"@, JVal::Str(sp_threshold_text(s.threshold))),
        ],
    )
}

pub open spec fn sp_safety_list_json(s: Seq<SafetySettings>) -> Seq<JVal>
    decreases s.len(),
{
    if s.len() == 0 {
        Seq::empty()
    } else {
        seq![sp_safety_json(s[0])] + sp_safety_list_json(s.subrange(1, s.len() as int))
    }
}

pub proof fn lemma_sp_safety_list_json(s: Seq<SafetySettings>)
    ensures
        sp_safety_list_json(s).len() == s.len(),
        forall|i: int| 0 <= i < s.len() ==> sp_safety_list_json(s)[i] == sp_safety_json(s[i]),
    decreases s.len(),
{
    if s.len() > 0 {
        lemma_sp_safety_list_json(s.subrange(1, s.len() as int));
    }
}

pub open spec fn sp_strings_json(s: Seq<Seq<char>>) -> Seq<JVal>
    decreases s.len(),
{
    if s.len() == 0 {
        Seq::empty()
    } else {
        seq![JVal::Str(s[0])] + sp_strings_json(s.subrange(1, s.len() as int))
    }
}

pub proof fn lemma_sp_strings_json(s: Seq<Seq<char>>)
    ensures
        sp_strings_json(s).len() == s.len(),
        forall|i: int| 0 <= i < s.len() ==> sp_strings_json(s)[i] == JVal::Str(s[i]),
    decreases s.len(),
{
    if s.len() > 0 {
        lemma_sp_strings_json(s.subrange(1, s.len() as int));
    }
}

pub open spec fn sp_generation_config_json(c: GenerationConfig) -> JVal {
    JVal::Obj(
        (match c.temperature {
            Some(n) => seq![("temperature"@, JVal::Num(n@))],
            None => Seq::empty(),
        }) + (match c.top_p {
            Some(n) => seq![("topP"@, JVal::Num(n@))],
            None => Seq::empty(),
        }) + (match c.top_k {
            Some(n) => seq![("topK"@, JVal::Num(crate::json::int_lit(n as int)))],
            None => Seq::empty(),
        }) + (match c.candidate_count {
            Some(n) => seq![("candidateCount"@, JVal::Num(crate::json::int_lit(n as int)))],
            None => Seq::empty(),
        }) + (match c.max_output_tokens {
            Some(n) => seq![("maxOutputTokens"@, JVal::Num(crate::json::int_lit(n as int)))],
            None => Seq::empty(),
        }) + (match c.stop_sequences {
            Some(ss) => seq![("stopSequences"@, JVal::Arr(sp_strings_json(ss.deep_view())))],
            None => Seq::empty(),
        }) + (match c.response_mime_type {
            Some(s) => seq![("responseMimeType"@, JVal::Str(s@))],
            None => Seq::empty(),
        }) + (match c.response_schema {
            Some(v) => seq![("responseSchema"@, v@)],
            None => Seq::empty(),
        }),
    )
}

pub open spec fn sp_instruction_parts_json(s: Seq<SystemInstructionPart>) -> Seq<JVal>
    decreases s.len(),
{
    if s.len() == 0 {
        Seq::empty()
    } else {
        seq![JVal::Obj(seq![("text"@, JVal::Str(s[0].text@))])] + sp_instruction_parts_json(
            s.subrange(1, s.len() as int),
        )
    }
}

pub proof fn lemma_sp_instruction_parts_json(s: Seq<SystemInstructionPart>)
    ensures
        sp_instruction_parts_json(s).len() == s.len(),
        forall|i: int|
            0 <= i < s.len() ==> sp_instruction_parts_json(s)[i] == JVal::Obj(
                seq![("text"@, JVal::Str(s[i].text@))],
            ),
    decreases s.len(),
{
    if s.len() > 0 {
        lemma_sp_instruction_parts_json(s.subrange(1, s.len() as int));
    }
}

pub open spec fn sp_instruction_json(c: SystemInstructionContent) -> JVal {
    JVal::Obj(seq![("parts"@, JVal::Arr(sp_instruction_parts_json(c.parts@)))])
}

/// The JSON body a request becomes: the conversation, then tools and safety
/// settings when any are given, then the optional configuration blocks.
pub open spec fn sp_request_json(r: Request) -> JVal {
    JVal::Obj(
        seq![("contents"@, JVal::Arr(sp_contents_json(contents_view(r.contents@))))] + (if r
            .tools@.len() == 0 {
            Seq::empty()
        } else {
            seq![("tools"@, JVal::Arr(sp_tools_list_json(r.tools@)))]
        }) + (if r.safety_settings@.len() == 0 {
            Seq::empty()
        } else {
            seq![("safetySettings"@, JVal::Arr(sp_safety_list_json(r.safety_settings@)))]
        }) + (match r.generation_config {
            Some(c) => seq![("generationConfig"@, sp_generation_config_json(c))],
            None => Seq::empty(),
        }) + (match r.system_instruction {
            Some(c) => seq![("systemInstruction"@, sp_instruction_json(c))],
            None => Seq::empty(),
        }),
    )
}

fn declaration_to_json(d: &FunctionDeclaration) -> (r: JsonValue)
    ensures
        r@ == sp_declaration_json(*d),
{
    let mut o: Vec<(String, JsonValue)> = Vec::new();
    obj_push(&mut o, "name", JsonValue::of_string(d.name.as_str()));
    obj_push(&mut o, "description", JsonValue::of_string(d.description.as_str()));
    match &d.parameters {
        Some(v) => {
            obj_push(&mut o, "parameters", v.clone());
        },
        None => {},
    }
    match &d.response {
        Some(v) => {
            obj_push(&mut o, "response", v.clone());
        },
        None => {},
    }
    match &d.behavior {
        Some(b) => {
            let t: &'static str = match b {
                FunctionBehavior::Blocking => "BLOCKING",
                FunctionBehavior::NonBlocking => "NON_BLOCKING",
            };
            obj_push(&mut o, "behavior", JsonValue::of_string(t));
        },
        None => {},
    }
    proof {
        assert(crate::json::jv_fields_view(o@) =~= sp_declaration_json(*d)->Obj_0);
    }
    JsonValue::Obj(o)
}

fn tools_to_json(t: &Tools) -> (r: JsonValue)
    ensures
        r@ == sp_tools_json(*t),
{
    let mut o: Vec<(String, JsonValue)> = Vec::new();
    if t.function_declarations.len() > 0 {
        let mut arr: Vec<JsonValue> = Vec::new();
        let mut i: usize = 0;
        while i < t.function_declarations.len()
            invariant
                i <= t.function_declarations.len(),
                arr@.len() == i,
                forall|q: int|
                    0 <= q < i ==> crate::json::jv_view(arr@[q]) == sp_declaration_json(
                        t.function_declarations@[q],
                    ),
            decreases t.function_declarations.len() - i,
        {
            let j = declaration_to_json(&t.function_declarations[i]);
            arr.push(j);
            i = i + 1;
        }
        proof {
            crate::json::lemma_jv_elems_view_len(arr@);
            lemma_sp_declarations_json(t.function_declarations@);
            assert(crate::json::jv_elems_view(arr@) =~= sp_declarations_json(
                t.function_declarations@,
            ));
        }
        obj_push(&mut o, "functionDeclarations", JsonValue::Arr(arr));
    }
    proof {
        assert(crate::json::jv_fields_view(o@) =~= sp_tools_json(*t)->Obj_0);
    }
    JsonValue::Obj(o)
}

fn safety_to_json(s: &SafetySettings) -> (r: JsonValue)
    ensures
        r@ == sp_safety_json(*s),
{
    let mut o: Vec<(String, JsonValue)> = Vec::new();
    let c: &'static str = match s.category {
        HarmCategory::HarmCategoryUnspecified => "HARM_CATEGORY_UNSPECIFIED",
        HarmCategory::HarmCategorySexuallyExplicit => "HARM_CATEGORY_SEXUALLY_EXPLICIT",
        HarmCategory::HarmCategoryHateSpeech => "HARM_CATEGORY_HATE_SPEECH",
        HarmCategory::HarmCategoryHarassment => "HARM_CATEGORY_HARASSMENT",
        HarmCategory::HarmCategoryDangerousContent => "HARM_CATEGORY_DANGEROUS_CONTENT",
    };
    obj_push(&mut o, "category", JsonValue::of_string(c));
    let t: &'static str = match s.threshold {
        HarmBlockThreshold::HarmBlockThresholdUnspecified => "HARM_BLOCK_THRESHOLD_UNSPECIFIED",
        HarmBlockThreshold::BlockNone => "BLOCK_NONE",
        HarmBlockThreshold::BlockLowAndAbove => "BLOCK_LOW_AND_ABOVE",
        HarmBlockThreshold::BlockMedAndAbove => "BLOCK_MED_AND_ABOVE",
        HarmBlockThreshold::BlockOnlyHigh => "BLOCK_HIGH_AND_ABOVE",
    };
    obj_push(&mut o, "threshold", JsonValue::of_string(t));
    proof {
        assert(crate::json::jv_fields_view(o@) =~= sp_safety_json(*s)->Obj_0);
    }
    JsonValue::Obj(o)
}

fn generation_config_to_json(c: &GenerationConfig) -> (r: JsonValue)
    ensures
        r@ == sp_generation_config_json(*c),
{
    let mut o: Vec<(String, JsonValue)> = Vec::new();
    match &c.temperature {
        Some(n) => {
            obj_push(&mut o, "temperature", JsonValue::Num(n.clone()));
        },
        None => {},
    }
    match &c.top_p {
        Some(n) => {
            obj_push(&mut o, "topP", JsonValue::Num(n.clone()));
        },
        None => {},
    }
    match c.top_k {
        Some(n) => {
            obj_push(&mut o, "topK", JsonValue::of_i64(n as i64));
        },
        None => {},
    }
    match c.candidate_count {
        Some(n) => {
            obj_push(&mut o, "candidateCount", JsonValue::of_i64(n as i64));
        },
        None => {},
    }
    match c.max_output_tokens {
        Some(n) => {
            obj_push(&mut o, "maxOutputTokens", JsonValue::of_i64(n as i64));
        },
        None => {},
    }
    match &c.stop_sequences {
        Some(ss) => {
            let mut arr: Vec<JsonValue> = Vec::new();
            let mut i: usize = 0;
            while i < ss.len()
                invariant
                    i <= ss.len(),
                    arr@.len() == i,
                    forall|q: int|
                        0 <= q < i ==> crate::json::jv_view(arr@[q]) == JVal::Str(ss@[q]@),
                decreases ss.len() - i,
            {
                arr.push(JsonValue::of_string(ss[i].as_str()));
                i = i + 1;
            }
            proof {
                crate::json::lemma_jv_elems_view_len(arr@);
                lemma_sp_strings_json(ss.deep_view());
                assert(ss.deep_view().len() == ss@.len());
                assert(forall|q: int| 0 <= q < ss@.len() ==> ss.deep_view()[q] == ss@[q]@);
                assert(crate::json::jv_elems_view(arr@) =~= sp_strings_json(ss.deep_view()));
            }
            obj_push(&mut o, "stopSequences", JsonValue::Arr(arr));
        },
        None => {},
    }
    match &c.response_mime_type {
        Some(s) => {
            obj_push(&mut o, "responseMimeType", JsonValue::of_string(s.as_str()));
        },
        None => {},
    }
    match &c.response_schema {
        Some(v) => {
            obj_push(&mut o, "responseSchema", v.clone());
        },
        None => {},
    }
    proof {
        assert(crate::json::jv_fields_view(o@) =~= sp_generation_config_json(*c)->Obj_0);
    }
    JsonValue::Obj(o)
}

fn instruction_to_json(c: &SystemInstructionContent) -> (r: JsonValue)
    ensures
        r@ == sp_instruction_json(*c),
{
    let mut arr: Vec<JsonValue> = Vec::new();
    let mut i: usize = 0;
    while i < c.parts.len()
        invariant
            i <= c.parts.len(),
            arr@.len() == i,
            forall|q: int|
                0 <= q < i ==> crate::json::jv_view(arr@[q]) == JVal::Obj(
                    seq![("text"@, JVal::Str(c.parts@[q].text@))],
                ),
        decreases c.parts.len() - i,
    {
        let mut po: Vec<(String, JsonValue)> = Vec::new();
        obj_push(&mut po, "text", JsonValue::of_string(c.parts[i].text.as_str()));
        proof {
            assert(crate::json::jv_fields_view(po@) =~= seq![
                ("text"@, JVal::Str(c.parts@[i as int].text@)),
            ]);
        }
        arr.push(JsonValue::Obj(po));
        i = i + 1;
    }
    let mut o: Vec<(String, JsonValue)> = Vec::new();
    obj_push(&mut o, "parts", JsonValue::Arr(arr));
    proof {
        crate::json::lemma_jv_elems_view_len(arr@);
        lemma_sp_instruction_parts_json(c.parts@);
        assert(crate::json::jv_elems_view(arr@) =~= sp_instruction_parts_json(c.parts@));
        assert(crate::json::jv_fields_view(o@) =~= sp_instruction_json(*c)->Obj_0);
    }
    JsonValue::Obj(o)
}

impl Request {
    /// This request as the JSON body it is sent with.
    pub fn to_json(&self) -> (r: JsonValue)
        ensures
            r@ == sp_request_json(*self),
    {
        let mut arr: Vec<JsonValue> = Vec::new();
        let mut i: usize = 0;
        while i < self.contents.len()
            invariant
                i <= self.contents.len(),
                arr@.len() == i,
                forall|q: int|
                    0 <= q < i ==> crate::json::jv_view(arr@[q]) == sp_content_json(
                        self.contents@[q]@,
                    ),
            decreases self.contents.len() - i,
        {
            let j = self.contents[i].to_json();
            arr.push(j);
            i = i + 1;
        }
        let mut o: Vec<(String, JsonValue)> = Vec::new();
        proof {
            crate::json::lemma_jv_elems_view_len(arr@);
            lemma_contents_view(self.contents@);
            lemma_sp_contents_json(contents_view(self.contents@));
            assert(crate::json::jv_elems_view(arr@) =~= sp_contents_json(
                contents_view(self.contents@),
            ));
        }
        obj_push(&mut o, "contents", JsonValue::Arr(arr));
        if self.tools.len() > 0 {
            let mut ta: Vec<JsonValue> = Vec::new();
            let mut i: usize = 0;
            while i < self.tools.len()
                invariant
                    i <= self.tools.len(),
                    ta@.len() == i,
                    forall|q: int|
                        0 <= q < i ==> crate::json::jv_view(ta@[q]) == sp_tools_json(
                            self.tools@[q],
                        ),
                decreases self.tools.len() - i,
            {
                let j = tools_to_json(&self.tools[i]);
                ta.push(j);
                i = i + 1;
            }
            proof {
                crate::json::lemma_jv_elems_view_len(ta@);
                lemma_sp_tools_list_json(self.tools@);
                assert(crate::json::jv_elems_view(ta@) =~= sp_tools_list_json(self.tools@));
            }
            obj_push(&mut o, "tools", JsonValue::Arr(ta));
        }
        if self.safety_settings.len() > 0 {
            let mut sa: Vec<JsonValue> = Vec::new();
            let mut i: usize = 0;
            while i < self.safety_settings.len()
                invariant
                    i <= self.safety_settings.len(),
                    sa@.len() == i,
                    forall|q: int|
                        0 <= q < i ==> crate::json::jv_view(sa@[q]) == sp_safety_json(
                            self.safety_settings@[q],
                        ),
                decreases self.safety_settings.len() - i,
            {
                let j = safety_to_json(&self.safety_settings[i]);
                sa.push(j);
                i = i + 1;
            }
            proof {
                crate::json::lemma_jv_elems_view_len(sa@);
                lemma_sp_safety_list_json(self.safety_settings@);
                assert(crate::json::jv_elems_view(sa@) =~= sp_safety_list_json(
                    self.safety_settings@,
                ));
            }
            obj_push(&mut o, "safetySettings", JsonValue::Arr(sa));
        }
        match &self.generation_config {
            Some(c) => {
                obj_push(&mut o, "generationConfig", generation_config_to_json(c));
            },
            None => {},
        }
        match &self.system_instruction {
            Some(c) => {
                obj_push(&mut o, "systemInstruction", instruction_to_json(c));
            },
            None => {},
        }
        proof {
            assert(crate::json::jv_fields_view(o@) =~= sp_request_json(*self)->Obj_0);
        }
        JsonValue::Obj(o)
    }
}

} // verus!
