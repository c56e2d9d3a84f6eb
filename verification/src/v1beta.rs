pub mod live;
pub mod session;
pub mod safety;
pub mod request;
pub mod response;
pub mod rest;
pub mod laws;

use vstd::prelude::*;

verus! {

use crate::json::{JVal, JsonValue, jv_get};

/// Root of the single-shot REST endpoints.
pub const API_BASE: &'static str = "https://generativelanguage.googleapis.com/v1beta/models";

#[derive(Debug, Clone, Copy, PartialEq, Eq)]
pub enum Role {
    User,
    Model,
}

#[derive(Debug, Clone)]
pub struct InlineData {
    /// The media type of the data.
    pub(crate) mime_type: String,
    /// The payload, already base64 text.
    pub(crate) data: String,
}

#[derive(Debug, Clone)]
pub struct FileData {
    mime_type: String,
    file_uri: String,
}

#[derive(Debug, Clone, Copy, PartialEq, Eq, Structural)]
pub struct StartOffset {
    pub seconds: i64,
    pub nanos: i32,
}

#[derive(Debug, Clone, Copy, PartialEq, Eq, Structural)]
pub struct EndOffset {
    pub seconds: i64,
    pub nanos: i32,
}

#[derive(Debug, Clone, Copy, PartialEq, Eq, Structural)]
pub struct VideoMetadata {
    pub start_offset: StartOffset,
    pub end_offset: EndOffset,
}

#[derive(Debug, Clone)]
pub struct FunctionCall {
    pub id: Option<String>,
    pub name: String,
    pub args: JsonValue,
}

#[derive(Debug, Clone)]
pub struct FunctionResult {
    pub result: JsonValue,
}

#[derive(Debug, Clone, Copy, PartialEq, Eq)]
pub enum FunctionResponseScheduling {
    /// Only add the result to the context; do not trigger generation.
    Silent,
    /// Add the result and prompt generation when idle.
    WhenIdle,
    /// Add the result, interrupt generation and prompt anew.
    Interrupt,
}

#[derive(Debug, Clone)]
pub struct FunctionResponse {
    pub id: Option<String>,
    pub name: String,
    pub response: FunctionResult,
    pub will_continue: Option<bool>,
    pub scheduling: Option<FunctionResponseScheduling>,
}

#[derive(Debug, Clone)]
pub enum PartData {
    Text(String),
    InlineData(InlineData),
    FileData(FileData),
    VideoMetadata(VideoMetadata),
    FunctionCall(FunctionCall),
    FunctionResponse(FunctionResponse),
}

#[derive(Debug, Clone)]
pub struct Part {
    pub data: PartData,
    pub thought: Option<bool>,
}

#[derive(Debug, Clone)]
pub struct Content {
    pub role: Role,
    pub parts: Vec<Part>,
}

// ---------------------------------------------------------------------------
// Views
// ---------------------------------------------------------------------------

#[verifier::ext_equal]
pub ghost struct InlineDataV {
    pub mime_type: Seq<char>,
    pub data: Seq<char>,
}

#[verifier::ext_equal]
pub ghost struct FileDataV {
    pub mime_type: Seq<char>,
    pub file_uri: Seq<char>,
}

#[verifier::ext_equal]
pub ghost struct FunctionCallV {
    pub id: Option<Seq<char>>,
    pub name: Seq<char>,
    pub args: JVal,
}

#[verifier::ext_equal]
pub ghost struct FunctionResultV {
    pub result: JVal,
}

#[verifier::ext_equal]
pub ghost struct FunctionResponseV {
    pub id: Option<Seq<char>>,
    pub name: Seq<char>,
    pub response: FunctionResultV,
    pub will_continue: Option<bool>,
    pub scheduling: Option<FunctionResponseScheduling>,
}

#[verifier::ext_equal]
pub ghost enum PartDataV {
    Text(Seq<char>),
    InlineData(InlineDataV),
    FileData(FileDataV),
    VideoMetadata(VideoMetadata),
    FunctionCall(FunctionCallV),
    FunctionResponse(FunctionResponseV),
}

#[verifier::ext_equal]
pub ghost struct PartV {
    pub data: PartDataV,
    pub thought: Option<bool>,
}

#[verifier::ext_equal]
pub ghost struct ContentV {
    pub role: Role,
    pub parts: Seq<PartV>,
}

impl View for InlineData {
    type V = InlineDataV;

    closed spec fn view(&self) -> InlineDataV {
        InlineDataV { mime_type: self.mime_type@, data: self.data@ }
    }
}

impl View for FileData {
    type V = FileDataV;

    closed spec fn view(&self) -> FileDataV {
        FileDataV { mime_type: self.mime_type@, file_uri: self.file_uri@ }
    }
}

impl View for FunctionCall {
    type V = FunctionCallV;

    open spec fn view(&self) -> FunctionCallV {
        FunctionCallV {
            id: match self.id {
                Some(ref s) => Some(s@),
                None => None,
            },
            name: self.name@,
            args: self.args@,
        }
    }
}

impl View for FunctionResult {
    type V = FunctionResultV;

    open spec fn view(&self) -> FunctionResultV {
        FunctionResultV { result: self.result@ }
    }
}

impl View for FunctionResponse {
    type V = FunctionResponseV;

    open spec fn view(&self) -> FunctionResponseV {
        FunctionResponseV {
            id: match self.id {
                Some(ref s) => Some(s@),
                None => None,
            },
            name: self.name@,
            response: self.response@,
            will_continue: self.will_continue,
            scheduling: self.scheduling,
        }
    }
}

impl View for PartData {
    type V = PartDataV;

    open spec fn view(&self) -> PartDataV {
        match self {
            PartData::Text(s) => PartDataV::Text(s@),
            PartData::InlineData(d) => PartDataV::InlineData(d@),
            PartData::FileData(d) => PartDataV::FileData(d@),
            PartData::VideoMetadata(m) => PartDataV::VideoMetadata(*m),
            PartData::FunctionCall(c) => PartDataV::FunctionCall(c@),
            PartData::FunctionResponse(r) => PartDataV::FunctionResponse(r@),
        }
    }
}

impl View for Part {
    type V = PartV;

    open spec fn view(&self) -> PartV {
        PartV { data: self.data@, thought: self.thought }
    }
}

pub open spec fn parts_view(s: Seq<Part>) -> Seq<PartV>
    decreases s.len(),
{
    if s.len() == 0 {
        Seq::empty()
    } else {
        seq![s[0]@] + parts_view(s.subrange(1, s.len() as int))
    }
}

pub proof fn lemma_parts_view(s: Seq<Part>)
    ensures
        parts_view(s).len() == s.len(),
        forall|i: int| 0 <= i < s.len() ==> parts_view(s)[i] == s[i]@,
    decreases s.len(),
{
    if s.len() > 0 {
        lemma_parts_view(s.subrange(1, s.len() as int));
    }
}

impl View for Content {
    type V = ContentV;

    open spec fn view(&self) -> ContentV {
        ContentV { role: self.role, parts: parts_view(self.parts@) }
    }
}

pub open spec fn contents_view(s: Seq<Content>) -> Seq<ContentV>
    decreases s.len(),
{
    if s.len() == 0 {
        Seq::empty()
    } else {
        seq![s[0]@] + contents_view(s.subrange(1, s.len() as int))
    }
}

pub proof fn lemma_contents_view(s: Seq<Content>)
    ensures
        contents_view(s).len() == s.len(),
        forall|i: int| 0 <= i < s.len() ==> contents_view(s)[i] == s[i]@,
    decreases s.len(),
{
    if s.len() > 0 {
        lemma_contents_view(s.subrange(1, s.len() as int));
    }
}

// ---------------------------------------------------------------------------
// Constructors
// ---------------------------------------------------------------------------

impl InlineData {
    /// Media of the given type; the payload is base64 text, taken as it is.
    pub fn new(mime_type: &str, data: &str) -> (r: InlineData)
        ensures
            r@ == (InlineDataV { mime_type: mime_type@, data: data@ }),
    {
        InlineData { mime_type: mime_type.to_owned(), data: data.to_owned() }
    }
}

impl FileData {
    pub fn new(mime_type: &str, file_uri: &str) -> (r: FileData)
        ensures
            r@ == (FileDataV { mime_type: mime_type@, file_uri: file_uri@ }),
    {
        FileData { mime_type: mime_type.to_owned(), file_uri: file_uri.to_owned() }
    }

    pub fn mime_type(&self) -> (r: &str)
        ensures
            r@ == self@.mime_type,
    {
        self.mime_type.as_str()
    }

    pub fn file_uri(&self) -> (r: &str)
        ensures
            r@ == self@.file_uri,
    {
        self.file_uri.as_str()
    }
}

impl Part {
    /// A part holding the given payload, with no thought mark.
    pub fn new(data: PartData) -> (r: Part)
        ensures
            r@.data == data@,
            r@.thought is None,
    {
        Part { data, thought: None }
    }
}

impl Content {
    pub fn new(role: Role, parts: Vec<Part>) -> (r: Content)
        ensures
            r@.role == role,
            r@.parts == parts_view(parts@),
    {
        Content { role, parts }
    }
}

impl FunctionCall {
    pub fn new(id: Option<String>, name: &str, args: JsonValue) -> (r: FunctionCall)
        ensures
            r@.id == (match id {
                Some(s) => Some(s@),
                None => None::<Seq<char>>,
            }),
            r@.name == name@,
            r@.args == args@,
    {
        FunctionCall { id, name: name.to_owned(), args }
    }
}

impl FunctionResult {
    pub fn new(result: JsonValue) -> (r: FunctionResult)
        ensures
            r@.result == result@,
    {
        FunctionResult { result }
    }
}

impl FunctionResponse {
    pub fn new(id: Option<String>, name: &str, response: FunctionResult) -> (r: FunctionResponse)
        ensures
            r@.id == (match id {
                Some(s) => Some(s@),
                None => None::<Seq<char>>,
            }),
            r@.name == name@,
            r@.response == response@,
            r@.will_continue is None,
            r@.scheduling is None,
    {
        FunctionResponse {
            id,
            name: name.to_owned(),
            response,
            will_continue: None,
            scheduling: None,
        }
    }
}

// ---------------------------------------------------------------------------
// JSON in both directions
// ---------------------------------------------------------------------------

pub open spec fn sp_role_text(r: Role) -> Seq<char> {
    match r {
        Role::User => "user"@,
        Role::Model => "model"@,
    }
}

pub open spec fn sp_role_from(s: Seq<char>) -> Option<Role> {
    if s == "user"@ {
        Some(Role::User)
    } else if s == "model"@ {
        Some(Role::Model)
    } else {
        None
    }
}

pub open spec fn sp_scheduling_text(s: FunctionResponseScheduling) -> Seq<char> {
    match s {
        FunctionResponseScheduling::Silent => "SILENT"@,
        FunctionResponseScheduling::WhenIdle => "WHEN_IDLE"@,
        FunctionResponseScheduling::Interrupt => "INTERRUPT"@,
    }
}

pub open spec fn sp_inline_data_json(d: InlineDataV) -> JVal {
    JVal::Obj(seq![("mimeType"@, JVal::Str(d.mime_type)), ("data"@, JVal::Str(d.data))])
}

pub open spec fn sp_file_data_json(d: FileDataV) -> JVal {
    JVal::Obj(seq![("mimeType"@, JVal::Str(d.mime_type)), ("fileUri"@, JVal::Str(d.file_uri))])
}

pub open spec fn sp_offset_json(seconds: i64, nanos: i32) -> JVal {
    JVal::Obj(
        seq![
            ("seconds"@, JVal::Num(crate::json::int_lit(seconds as int))),
            ("nanos"@, JVal::Num(crate::json::int_lit(nanos as int))),
        ],
    )
}

pub open spec fn sp_video_metadata_json(m: VideoMetadata) -> JVal {
    JVal::Obj(
        seq![
            ("startOffset"@, sp_offset_json(m.start_offset.seconds, m.start_offset.nanos)),
            ("endOffset"@, sp_offset_json(m.end_offset.seconds, m.end_offset.nanos)),
        ],
    )
}

pub open spec fn sp_function_call_json(c: FunctionCallV) -> JVal {
    JVal::Obj(
        (match c.id {
            Some(s) => seq![("id"@, JVal::Str(s))],
            None => Seq::empty(),
        }) + seq![("name"@, JVal::Str(c.name)), ("args"@, c.args)],
    )
}

pub open spec fn sp_function_response_json(r: FunctionResponseV) -> JVal {
    JVal::Obj(
        seq![
            ("id"@, match r.id {
                Some(s) => JVal::Str(s),
                None => JVal::Null,
            }),
            ("name"@, JVal::Str(r.name)),
            ("response"@, JVal::Obj(seq![("result"@, r.response.result)])),
            ("willContinue"@, match r.will_continue {
                Some(b) => JVal::Bool(b),
                None => JVal::Null,
            }),
            ("scheduling"@, match r.scheduling {
                Some(s) => JVal::Str(sp_scheduling_text(s)),
                None => JVal::Null,
            }),
        ],
    )
}

pub open spec fn sp_part_data_field(d: PartDataV) -> (Seq<char>, JVal) {
    match d {
        PartDataV::Text(s) => ("text"@, JVal::Str(s)),
        PartDataV::InlineData(x) => ("inlineData"@, sp_inline_data_json(x)),
        PartDataV::FileData(x) => ("fileData"@, sp_file_data_json(x)),
        PartDataV::VideoMetadata(x) => ("videoMetadata"@, sp_video_metadata_json(x)),
        PartDataV::FunctionCall(x) => ("functionCall"@, sp_function_call_json(x)),
        PartDataV::FunctionResponse(x) => ("functionResponse"@, sp_function_response_json(x)),
    }
}

pub open spec fn sp_part_json(p: PartV) -> JVal {
    JVal::Obj(
        seq![
            sp_part_data_field(p.data),
            ("thought"@, match p.thought {
                Some(b) => JVal::Bool(b),
                None => JVal::Null,
            }),
        ],
    )
}

pub open spec fn sp_parts_json(s: Seq<PartV>) -> Seq<JVal>
    decreases s.len(),
{
    if s.len() == 0 {
        Seq::empty()
    } else {
        seq![sp_part_json(s[0])] + sp_parts_json(s.subrange(1, s.len() as int))
    }
}

pub proof fn lemma_sp_parts_json(s: Seq<PartV>)
    ensures
        sp_parts_json(s).len() == s.len(),
        forall|i: int| 0 <= i < s.len() ==> sp_parts_json(s)[i] == sp_part_json(s[i]),
    decreases s.len(),
{
    if s.len() > 0 {
        lemma_sp_parts_json(s.subrange(1, s.len() as int));
    }
}

/// Content as it stands in a request: the role, then the parts, which are
/// left out entirely when there are none.
pub open spec fn sp_content_json(c: ContentV) -> JVal {
    JVal::Obj(
        seq![("role"@, JVal::Str(sp_role_text(c.role)))] + (if c.parts.len() == 0 {
            Seq::empty()
        } else {
            seq![("parts"@, JVal::Arr(sp_parts_json(c.parts)))]
        }),
    )
}

pub open spec fn sp_contents_json(s: Seq<ContentV>) -> Seq<JVal>
    decreases s.len(),
{
    if s.len() == 0 {
        Seq::empty()
    } else {
        seq![sp_content_json(s[0])] + sp_contents_json(s.subrange(1, s.len() as int))
    }
}

pub proof fn lemma_sp_contents_json(s: Seq<ContentV>)
    ensures
        sp_contents_json(s).len() == s.len(),
        forall|i: int| 0 <= i < s.len() ==> sp_contents_json(s)[i] == sp_content_json(s[i]),
    decreases s.len(),
{
    if s.len() > 0 {
        lemma_sp_contents_json(s.subrange(1, s.len() as int));
    }
}

proof fn lemma_fields_view_push(s: Seq<(String, JsonValue)>, k: String, v: JsonValue)
    ensures
        crate::json::jv_fields_view(s.push((k, v))) == crate::json::jv_fields_view(s) + seq![
            (k@, crate::json::jv_view(v)),
        ],
{
    crate::json::lemma_jv_fields_view_len(s.push((k, v)));
    crate::json::lemma_jv_fields_view_len(s);
    assert(crate::json::jv_fields_view(s.push((k, v))) =~= crate::json::jv_fields_view(s) + seq![
        (k@, crate::json::jv_view(v)),
    ]);
}

/// Appends one field to an object under construction.
pub(crate) fn obj_push(o: &mut Vec<(String, JsonValue)>, key: &str, v: JsonValue)
    ensures
        crate::json::jv_fields_view(final(o)@) == crate::json::jv_fields_view(old(o)@) + seq![
            (key@, v@),
        ],
{
    let ghost s0 = o@;
    let ghost gv = v;
    o.push((key.to_owned(), v));
    proof {
        assert(o@ =~= s0.push((o@[o@.len() - 1].0, gv)));
        lemma_fields_view_push(s0, o@[o@.len() - 1].0, gv);
    }
}

impl InlineData {
    pub(crate) fn to_json(&self) -> (r: JsonValue)
        ensures
            r@ == sp_inline_data_json(self@),
    {
        let mut o: Vec<(String, JsonValue)> = Vec::new();
        obj_push(&mut o, "mimeType", JsonValue::of_string(self.mime_type.as_str()));
        obj_push(&mut o, "data", JsonValue::of_string(self.data.as_str()));
        proof {
            assert(crate::json::jv_fields_view(o@) =~= sp_inline_data_json(self@)->Obj_0);
        }
        JsonValue::Obj(o)
    }
}

impl FileData {
    pub(crate) fn to_json(&self) -> (r: JsonValue)
        ensures
            r@ == sp_file_data_json(self@),
    {
        let mut o: Vec<(String, JsonValue)> = Vec::new();
        obj_push(&mut o, "mimeType", JsonValue::of_string(self.mime_type.as_str()));
        obj_push(&mut o, "fileUri", JsonValue::of_string(self.file_uri.as_str()));
        proof {
            assert(crate::json::jv_fields_view(o@) =~= sp_file_data_json(self@)->Obj_0);
        }
        JsonValue::Obj(o)
    }
}

impl VideoMetadata {
    pub(crate) fn to_json(&self) -> (r: JsonValue)
        ensures
            r@ == sp_video_metadata_json(*self),
    {
        let mut so: Vec<(String, JsonValue)> = Vec::new();
        obj_push(&mut so, "seconds", JsonValue::of_i64(self.start_offset.seconds));
        obj_push(&mut so, "nanos", JsonValue::of_i64(self.start_offset.nanos as i64));
        proof {
            assert(crate::json::jv_fields_view(so@) =~= sp_offset_json(
                self.start_offset.seconds,
                self.start_offset.nanos,
            )->Obj_0);
        }
        let mut eo: Vec<(String, JsonValue)> = Vec::new();
        obj_push(&mut eo, "seconds", JsonValue::of_i64(self.end_offset.seconds));
        obj_push(&mut eo, "nanos", JsonValue::of_i64(self.end_offset.nanos as i64));
        proof {
            assert(crate::json::jv_fields_view(eo@) =~= sp_offset_json(
                self.end_offset.seconds,
                self.end_offset.nanos,
            )->Obj_0);
        }
        let mut o: Vec<(String, JsonValue)> = Vec::new();
        obj_push(&mut o, "startOffset", JsonValue::Obj(so));
        obj_push(&mut o, "endOffset", JsonValue::Obj(eo));
        proof {
            assert(crate::json::jv_fields_view(o@) =~= sp_video_metadata_json(*self)->Obj_0);
        }
        JsonValue::Obj(o)
    }
}

impl FunctionCall {
    pub(crate) fn to_json(&self) -> (r: JsonValue)
        ensures
            r@ == sp_function_call_json(self@),
    {
        let mut o: Vec<(String, JsonValue)> = Vec::new();
        match &self.id {
            Some(id) => {
                obj_push(&mut o, "id", JsonValue::of_string(id.as_str()));
            },
            None => {},
        }
        obj_push(&mut o, "name", JsonValue::of_string(self.name.as_str()));
        obj_push(&mut o, "args", self.args.clone());
        proof {
            assert(crate::json::jv_fields_view(o@) =~= sp_function_call_json(self@)->Obj_0);
        }
        JsonValue::Obj(o)
    }
}

impl FunctionResponse {
    pub(crate) fn to_json(&self) -> (r: JsonValue)
        ensures
            r@ == sp_function_response_json(self@),
    {
        let mut ro: Vec<(String, JsonValue)> = Vec::new();
        obj_push(&mut ro, "result", self.response.result.clone());
        let mut o: Vec<(String, JsonValue)> = Vec::new();
        match &self.id {
            Some(id) => {
                obj_push(&mut o, "id", JsonValue::of_string(id.as_str()));
            },
            None => {
                obj_push(&mut o, "id", JsonValue::Null);
            },
        }
        obj_push(&mut o, "name", JsonValue::of_string(self.name.as_str()));
        obj_push(&mut o, "response", JsonValue::Obj(ro));
        match self.will_continue {
            Some(b) => {
                obj_push(&mut o, "willContinue", JsonValue::Bool(b));
            },
            None => {
                obj_push(&mut o, "willContinue", JsonValue::Null);
            },
        }
        match &self.scheduling {
            Some(s) => {
                let t: &'static str = match s {
                    FunctionResponseScheduling::Silent => "SILENT",
                    FunctionResponseScheduling::WhenIdle => "WHEN_IDLE",
                    FunctionResponseScheduling::Interrupt => "INTERRUPT",
                };
                obj_push(&mut o, "scheduling", JsonValue::of_string(t));
            },
            None => {
                obj_push(&mut o, "scheduling", JsonValue::Null);
            },
        }
        proof {
            assert(crate::json::jv_fields_view(o@) =~= sp_function_response_json(self@)->Obj_0);
        }
        JsonValue::Obj(o)
    }
}

impl Part {
    pub(crate) fn to_json(&self) -> (r: JsonValue)
        ensures
            r@ == sp_part_json(self@),
    {
        let f: (String, JsonValue) = match &self.data {
            PartData::Text(s) => ("text".to_owned(), JsonValue::of_string(s.as_str())),
            PartData::InlineData(d) => ("inlineData".to_owned(), d.to_json()),
            PartData::FileData(d) => ("fileData".to_owned(), d.to_json()),
            PartData::VideoMetadata(m) => ("videoMetadata".to_owned(), m.to_json()),
            PartData::FunctionCall(c) => ("functionCall".to_owned(), c.to_json()),
            PartData::FunctionResponse(r) => ("functionResponse".to_owned(), r.to_json()),
        };
        let ghost gf = f;
        let mut o: Vec<(String, JsonValue)> = Vec::new();
        o.push(f);
        proof {
            assert(o@ =~= Seq::<(String, JsonValue)>::empty().push(gf));
            lemma_fields_view_push(Seq::empty(), gf.0, gf.1);
        }
        match self.thought {
            Some(b) => {
                obj_push(&mut o, "thought", JsonValue::Bool(b));
            },
            None => {
                obj_push(&mut o, "thought", JsonValue::Null);
            },
        }
        proof {
            assert(crate::json::jv_fields_view(o@) =~= sp_part_json(self@)->Obj_0);
        }
        JsonValue::Obj(o)
    }
}

impl Content {
    pub(crate) fn to_json(&self) -> (r: JsonValue)
        ensures
            r@ == sp_content_json(self@),
    {
        let mut o: Vec<(String, JsonValue)> = Vec::new();
        let t: &'static str = match self.role {
            Role::User => "user",
            Role::Model => "model",
        };
        obj_push(&mut o, "role", JsonValue::of_string(t));
        if self.parts.len() > 0 {
            let mut arr: Vec<JsonValue> = Vec::new();
            let mut i: usize = 0;
            while i < self.parts.len()
                invariant
                    i <= self.parts.len(),
                    arr@.len() == i,
                    forall|q: int|
                        0 <= q < i ==> crate::json::jv_view(arr@[q]) == sp_part_json(
                            self.parts@[q]@,
                        ),
                decreases self.parts.len() - i,
            {
                let j = self.parts[i].to_json();
                arr.push(j);
                i = i + 1;
            }
            proof {
                crate::json::lemma_jv_elems_view_len(arr@);
                lemma_parts_view(self.parts@);
                lemma_sp_parts_json(parts_view(self.parts@));
                assert(crate::json::jv_elems_view(arr@) =~= sp_parts_json(
                    parts_view(self.parts@),
                ));
            }
            obj_push(&mut o, "parts", JsonValue::Arr(arr));
        }
        proof {
            lemma_parts_view(self.parts@);
            assert(crate::json::jv_fields_view(o@) =~= sp_content_json(self@)->Obj_0);
        }
        JsonValue::Obj(o)
    }
}

// ---------------------------------------------------------------------------
// Decoding
// ---------------------------------------------------------------------------

pub open spec fn sp_inline_data_from(v: JVal) -> Option<InlineDataV> {
    match jv_get(v, "mimeType"@) {
        Some(JVal::Str(m)) => match jv_get(v, "data"@) {
            Some(JVal::Str(d)) => Some(InlineDataV { mime_type: m, data: d }),
            _ => None,
        },
        _ => None,
    }
}

pub open spec fn sp_file_data_from(v: JVal) -> Option<FileDataV> {
    match jv_get(v, "mimeType"@) {
        Some(JVal::Str(m)) => match jv_get(v, "fileUri"@) {
            Some(JVal::Str(u)) => Some(FileDataV { mime_type: m, file_uri: u }),
            _ => None,
        },
        _ => None,
    }
}

pub open spec fn sp_function_call_from(v: JVal) -> Option<FunctionCallV> {
    match crate::v1beta::live::sp_opt_str(jv_get(v, "id"@)) {
        Some(id) => match jv_get(v, "name"@) {
            Some(JVal::Str(name)) => match jv_get(v, "args"@) {
                Some(args) => Some(FunctionCallV { id, name, args }),
                None => None,
            },
            _ => None,
        },
        None => None,
    }
}

/// The payload of a part: the first known tagged field present decides the
/// variant, in declaration order.
pub open spec fn sp_part_data_from(v: JVal) -> Option<PartDataV> {
    if jv_get(v, "text"@) is Some {
        match jv_get(v, "text"@) {
            Some(JVal::Str(s)) => Some(PartDataV::Text(s)),
            _ => None,
        }
    } else if jv_get(v, "inlineData"@) is Some {
        match sp_inline_data_from(jv_get(v, "inlineData"@)->Some_0) {
            Some(d) => Some(PartDataV::InlineData(d)),
            None => None,
        }
    } else if jv_get(v, "fileData"@) is Some {
        match sp_file_data_from(jv_get(v, "fileData"@)->Some_0) {
            Some(d) => Some(PartDataV::FileData(d)),
            None => None,
        }
    } else if jv_get(v, "videoMetadata"@) is Some {
        match crate::v1beta::live::sp_video_metadata_from(jv_get(v, "videoMetadata"@)->Some_0) {
            Some(d) => Some(
                PartDataV::VideoMetadata(
                    VideoMetadata {
                        start_offset: StartOffset {
                            seconds: d.start_offset.seconds,
                            nanos: d.start_offset.nanos,
                        },
                        end_offset: EndOffset {
                            seconds: d.end_offset.seconds,
                            nanos: d.end_offset.nanos,
                        },
                    },
                ),
            ),
            None => None,
        }
    } else if jv_get(v, "functionCall"@) is Some {
        match sp_function_call_from(jv_get(v, "functionCall"@)->Some_0) {
            Some(d) => Some(PartDataV::FunctionCall(d)),
            None => None,
        }
    } else if jv_get(v, "functionResponse"@) is Some {
        match sp_function_response_from(jv_get(v, "functionResponse"@)->Some_0) {
            Some(d) => Some(PartDataV::FunctionResponse(d)),
            None => None,
        }
    } else {
        None
    }
}

pub open spec fn sp_function_response_from(v: JVal) -> Option<FunctionResponseV> {
    match crate::v1beta::live::sp_function_response_from(v) {
        Some(r) => Some(
            FunctionResponseV {
                id: r.id,
                name: r.name,
                response: FunctionResultV { result: r.response.result },
                will_continue: r.will_continue,
                scheduling: match r.scheduling {
                    Some(crate::v1beta::live::FunctionResponseScheduling::Silent) => Some(
                        FunctionResponseScheduling::Silent,
                    ),
                    Some(crate::v1beta::live::FunctionResponseScheduling::WhenIdle) => Some(
                        FunctionResponseScheduling::WhenIdle,
                    ),
                    Some(crate::v1beta::live::FunctionResponseScheduling::Interrupt) => Some(
                        FunctionResponseScheduling::Interrupt,
                    ),
                    None => None,
                },
            },
        ),
        None => None,
    }
}

pub open spec fn sp_part_from(v: JVal) -> Option<PartV> {
    match sp_part_data_from(v) {
        Some(data) => match crate::v1beta::live::sp_opt_bool(jv_get(v, "thought"@)) {
            Some(thought) => Some(PartV { data, thought }),
            None => None,
        },
        None => None,
    }
}

pub open spec fn sp_parts_from(s: Seq<JVal>) -> Option<Seq<PartV>>
    decreases s.len(),
{
    if s.len() == 0 {
        Some(Seq::empty())
    } else {
        match sp_part_from(s[0]) {
            Some(p) => match sp_parts_from(s.subrange(1, s.len() as int)) {
                Some(rest) => Some(seq![p] + rest),
                None => None,
            },
            None => None,
        }
    }
}

/// Content as a response carries it: the role is required, the parts default
/// to none when absent.
pub open spec fn sp_content_from(v: JVal) -> Option<ContentV> {
    match jv_get(v, "role"@) {
        Some(JVal::Str(s)) => match sp_role_from(s) {
            Some(role) => match jv_get(v, "parts"@) {
                None => Some(ContentV { role, parts: Seq::empty() }),
                Some(JVal::Arr(a)) => match sp_parts_from(a) {
                    Some(parts) => Some(ContentV { role, parts }),
                    None => None,
                },
                Some(_) => None,
            },
            None => None,
        },
        _ => None,
    }
}

fn inline_data_from_json(v: &JsonValue) -> (r: Option<InlineData>)
    ensures
        r is Some <==> sp_inline_data_from(v@) is Some,
        r matches Some(x) ==> sp_inline_data_from(v@) == Some(x@),
{
    match v.get("mimeType") {
        Some(jm) => match jm.as_str() {
            Some(m) => match v.get("data") {
                Some(jd) => match jd.as_str() {
                    Some(d) => Some(InlineData { mime_type: m.clone(), data: d.clone() }),
                    None => None,
                },
                None => None,
            },
            None => None,
        },
        None => None,
    }
}

fn file_data_from_json(v: &JsonValue) -> (r: Option<FileData>)
    ensures
        r is Some <==> sp_file_data_from(v@) is Some,
        r matches Some(x) ==> sp_file_data_from(v@) == Some(x@),
{
    match v.get("mimeType") {
        Some(jm) => match jm.as_str() {
            Some(m) => match v.get("fileUri") {
                Some(ju) => match ju.as_str() {
                    Some(u) => Some(FileData { mime_type: m.clone(), file_uri: u.clone() }),
                    None => None,
                },
                None => None,
            },
            None => None,
        },
        None => None,
    }
}

pub(crate) fn part_from_json(v: &JsonValue) -> (r: Option<Part>)
    ensures
        r is Some <==> sp_part_from(v@) is Some,
        r matches Some(x) ==> sp_part_from(v@) == Some(x@),
{
    let data: PartData = if v.get("text").is_some() {
        match v.get("text") {
            Some(t) => match t.as_str() {
                Some(s) => PartData::Text(s.clone()),
                None => {
                    return None;
                },
            },
            None => {
                return None;
            },
        }
    } else if v.get("inlineData").is_some() {
        match v.get("inlineData") {
            Some(dv) => match inline_data_from_json(dv) {
                Some(d) => PartData::InlineData(d),
                None => {
                    return None;
                },
            },
            None => {
                return None;
            },
        }
    } else if v.get("fileData").is_some() {
        match v.get("fileData") {
            Some(dv) => match file_data_from_json(dv) {
                Some(d) => PartData::FileData(d),
                None => {
                    return None;
                },
            },
            None => {
                return None;
            },
        }
    } else if v.get("videoMetadata").is_some() {
        match v.get("videoMetadata") {
            Some(dv) => match crate::v1beta::live::video_metadata_from_json(dv) {
                Some(d) => PartData::VideoMetadata(
                    VideoMetadata {
                        start_offset: StartOffset {
                            seconds: d.start_offset.seconds,
                            nanos: d.start_offset.nanos,
                        },
                        end_offset: EndOffset {
                            seconds: d.end_offset.seconds,
                            nanos: d.end_offset.nanos,
                        },
                    },
                ),
                None => {
                    return None;
                },
            },
            None => {
                return None;
            },
        }
    } else if v.get("functionCall").is_some() {
        match v.get("functionCall") {
            Some(dv) => match function_call_from_json(dv) {
                Some(d) => PartData::FunctionCall(d),
                None => {
                    return None;
                },
            },
            None => {
                return None;
            },
        }
    } else if v.get("functionResponse").is_some() {
        match v.get("functionResponse") {
            Some(dv) => match function_response_from_json(dv) {
                Some(d) => PartData::FunctionResponse(d),
                None => {
                    return None;
                },
            },
            None => {
                return None;
            },
        }
    } else {
        return None;
    };
    match crate::v1beta::live::opt_bool_field(v, "thought") {
        Some(thought) => Some(Part { data, thought }),
        None => None,
    }
}

fn function_call_from_json(v: &JsonValue) -> (r: Option<FunctionCall>)
    ensures
        r is Some <==> sp_function_call_from(v@) is Some,
        r matches Some(x) ==> sp_function_call_from(v@) == Some(x@),
{
    match crate::v1beta::live::opt_str_field(v, "id") {
        Some(id) => match v.get("name") {
            Some(jn) => match jn.as_str() {
                Some(name) => match v.get("args") {
                    Some(args) => Some(
                        FunctionCall { id, name: name.clone(), args: args.clone() },
                    ),
                    None => None,
                },
                None => None,
            },
            None => None,
        },
        None => None,
    }
}

fn function_response_from_json(v: &JsonValue) -> (r: Option<FunctionResponse>)
    ensures
        r is Some <==> sp_function_response_from(v@) is Some,
        r matches Some(x) ==> sp_function_response_from(v@) == Some(x@),
{
    match crate::v1beta::live::function_response_from_json(v) {
        Some(fr) => Some(
            FunctionResponse {
                id: fr.id,
                name: fr.name,
                response: FunctionResult { result: fr.response.result },
                will_continue: fr.will_continue,
                scheduling: match fr.scheduling {
                    Some(crate::v1beta::live::FunctionResponseScheduling::Silent) => Some(
                        FunctionResponseScheduling::Silent,
                    ),
                    Some(crate::v1beta::live::FunctionResponseScheduling::WhenIdle) => Some(
                        FunctionResponseScheduling::WhenIdle,
                    ),
                    Some(crate::v1beta::live::FunctionResponseScheduling::Interrupt) => Some(
                        FunctionResponseScheduling::Interrupt,
                    ),
                    None => None,
                },
            },
        ),
        None => None,
    }
}

fn parts_from_json(a: &Vec<JsonValue>, i: usize) -> (r: Option<Vec<Part>>)
    requires
        i <= a.len(),
    ensures
        ({
            let sp = sp_parts_from(
                crate::json::jv_elems_view(a@).subrange(i as int, a@.len() as int),
            );
            &&& (r is Some <==> sp is Some)
            &&& (r matches Some(ps) ==> sp == Some(parts_view(ps@)))
        }),
    decreases a.len() - i,
{
    proof {
        crate::json::lemma_jv_elems_view_len(a@);
    }
    let ghost ev = crate::json::jv_elems_view(a@);
    let ghost tail = ev.subrange(i as int, a@.len() as int);
    if i == a.len() {
        proof {
            assert(tail =~= Seq::<JVal>::empty());
        }
        return Some(Vec::new());
    }
    proof {
        assert(tail[0] == ev[i as int]);
        assert(tail.subrange(1, tail.len() as int) =~= ev.subrange(
            i + 1 as int,
            a@.len() as int,
        ));
    }
    match part_from_json(&a[i]) {
        Some(p) => match parts_from_json(a, i + 1) {
            Some(rest) => {
                let ghost gp = p;
                let ghost grest = rest@;
                let mut all: Vec<Part> = Vec::new();
                all.push(p);
                let mut rest = rest;
                all.append(&mut rest);
                proof {
                    assert(all@ =~= seq![gp] + grest);
                    lemma_parts_view(all@);
                    lemma_parts_view(grest);
                    assert(parts_view(all@) =~= seq![gp@] + parts_view(grest));
                }
                Some(all)
            },
            None => None,
        },
        None => None,
    }
}

pub(crate) fn content_from_json(v: &JsonValue) -> (r: Option<Content>)
    ensures
        r is Some <==> sp_content_from(v@) is Some,
        r matches Some(x) ==> sp_content_from(v@) == Some(x@),
{
    let role = match v.get("role") {
        Some(rv) => match rv.as_str() {
            Some(s) => {
                if *s == "user".to_owned() {
                    Role::User
                } else if *s == "model".to_owned() {
                    Role::Model
                } else {
                    return None;
                }
            },
            None => {
                return None;
            },
        },
        None => {
            return None;
        },
    };
    match v.get("parts") {
        None => {
            proof {
                assert(parts_view(Seq::<Part>::empty()) =~= Seq::<PartV>::empty());
            }
            Some(Content { role, parts: Vec::new() })
        },
        Some(pv) => match pv.as_arr() {
            Some(a) => {
                proof {
                    assert(crate::json::jv_elems_view(a@).subrange(
                        0,
                        a@.len() as int,
                    ) =~= crate::json::jv_elems_view(a@)) by {
                        crate::json::lemma_jv_elems_view_len(a@);
                    }
                }
                match parts_from_json(a, 0) {
                    Some(parts) => Some(Content { role, parts }),
                    None => None,
                }
            },
            None => None,
        },
    }
}

} // verus!
