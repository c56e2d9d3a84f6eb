use vstd::prelude::*;

verus! {

use crate::json::{JVal, JsonValue, JsonNum};

/// Default socket endpoint of the streaming service.
pub const DEFAULT_WS_ENDPOINT: &'static str = "wss://generativelanguage.googleapis.com/ws/google.ai.generativelanguage.v1beta.GenerativeService.BidiGenerateContent";

/// Default capacity of the inbound consumer channel.
pub const DEFAULT_CHANNEL_CAPACITY: usize = 1024;

// ---------------------------------------------------------------------------
// Session configuration
// ---------------------------------------------------------------------------

/// What goes wrong around a live session.
#[derive(Debug, Clone, PartialEq, Eq)]
pub enum Error {
    /// The socket could not be opened or failed.
    Transport(String),
    /// The endpoint is not a usable URL.
    Configuration(String),
    /// An inbound frame could not be read.
    Decode(DecodeError),
    /// The session is closed; nothing more can be sent.
    Closed,
}

/// Why an inbound frame was rejected.
#[derive(Debug, Clone, PartialEq, Eq)]
pub enum DecodeError {
    /// The frame is not valid JSON text.
    InvalidJson,
    /// The frame is JSON but carries none of the known envelope fields.
    UnknownMessage,
    /// A known field is present but its payload has the wrong shape.
    MalformedField,
}

#[derive(Debug, Clone, Copy, PartialEq, Eq)]
pub enum ResponseModality {
    Text,
    Audio,
}

#[derive(Debug, Clone, Copy, PartialEq, Eq)]
pub enum ActivityHandling {
    Unspecified,
    StartOfActivityInterrupts,
    NoInterruption,
}

#[derive(Debug, Clone, Copy, PartialEq, Eq)]
pub enum StartSensitivity {
    Unspecified,
    High,
    Low,
}

#[derive(Debug, Clone, Copy, PartialEq, Eq)]
pub enum EndSensitivity {
    Unspecified,
    High,
    Low,
}

#[derive(Debug, Clone, Copy, PartialEq, Eq)]
pub enum TurnCoverage {
    Unspecified,
    OnlyActivity,
    AllInput,
}

#[derive(Debug, Clone, Copy, PartialEq, Eq)]
pub enum MediaResolution {
    Unspecified,
    Low,
    Medium,
    High,
}

#[derive(Debug, Clone)]
pub struct PrebuiltVoiceConfig {
    pub voice_name: Option<String>,
}

#[derive(Debug, Clone)]
pub struct VoiceConfig {
    pub prebuilt_voice_config: PrebuiltVoiceConfig,
}

#[derive(Debug, Clone)]
pub struct SpeechConfig {
    pub voice_config: VoiceConfig,
    pub language_code: Option<String>,
}

#[derive(Debug, Clone)]
pub struct ThinkingConfig {
    pub include_thoughts: Option<bool>,
    pub thinking_budget: Option<i32>,
}

#[derive(Debug, Clone, Copy, PartialEq, Eq)]
pub enum DynamicRetrievalMode {
    Unspecified,
    Dynamic,
}

/// The retrieval threshold is carried as a JSON number literal, exactly as it
/// will stand on the wire.
#[derive(Debug, Clone)]
pub struct DynamicRetrievalConfig {
    pub mode: Option<DynamicRetrievalMode>,
    pub dynamic_threshold: Option<JsonNum>,
}

#[derive(Debug, Clone)]
pub struct GoogleSearchRetrieval {
    pub dynamic_retrieval_config: Option<DynamicRetrievalConfig>,
}

#[derive(Debug, Clone)]
pub struct CodeExecution;

#[derive(Debug, Clone)]
pub struct GoogleSearch;

#[derive(Debug, Clone, Copy, PartialEq, Eq)]
pub enum FunctionCallingMode {
    Unspecified,
    Auto,
    Any,
    Disabled,
    Validated,
}

#[derive(Debug, Clone)]
pub struct FunctionCallingConfig {
    pub mode: Option<FunctionCallingMode>,
    pub allowed_function_names: Vec<String>,
}

#[derive(Debug, Clone)]
pub struct ToolConfig {
    pub function_calling_config: Option<FunctionCallingConfig>,
}

#[derive(Debug, Clone, Copy, PartialEq, Eq)]
pub enum FunctionBehavior {
    /// The system waits for the function response before continuing.
    Blocking,
    /// The system handles function responses as they become available.
    NonBlocking,
}

#[derive(Debug, Clone)]
pub struct FunctionDeclaration {
    pub name: String,
    pub description: String,
    pub parameters: Option<JsonValue>,
    pub response: Option<JsonValue>,
    pub behavior: Option<FunctionBehavior>,
}

#[derive(Debug, Clone)]
pub enum Tool {
    FunctionDeclarations(Vec<FunctionDeclaration>),
    GoogleSearchRetrieval(GoogleSearchRetrieval),
    CodeExecution(CodeExecution),
    GoogleSearch(GoogleSearch),
}

/// Options controlling generation. Sampling parameters that are fractional on
/// the wire are held as JSON number literals.
#[derive(Debug, Clone)]
pub struct GenerationConfig {
    pub candidate_count: Option<u32>,
    pub max_output_tokens: Option<u32>,
    pub temperature: Option<JsonNum>,
    pub top_p: Option<JsonNum>,
    pub top_k: Option<u32>,
    pub stop_sequences: Option<Vec<String>>,
    pub seed: Option<i32>,
    pub presence_penalty: Option<JsonNum>,
    pub frequency_penalty: Option<JsonNum>,
    pub response_logprobs: Option<bool>,
    pub logprobs: Option<i32>,
    pub enable_enhanced_civic_answers: Option<bool>,
    pub response_modalities: Option<Vec<ResponseModality>>,
    pub speech_config: Option<SpeechConfig>,
    pub thinking_config: Option<ThinkingConfig>,
    pub media_resolution: Option<MediaResolution>,
    pub response_mime_type: Option<String>,
    pub response_schema: Option<JsonValue>,
}

/// Parameters sent when opening a new streaming session.
#[derive(Debug, Clone)]
pub struct Setup {
    pub model: String,
    pub generation_config: Option<GenerationConfig>,
    pub system_instruction: Option<Content>,
    pub tools: Option<Vec<Tool>>,
    pub realtime_input_config: Option<RealtimeInputConfig>,
    pub session_resumption: Option<SessionResumptionConfig>,
    pub context_window_compression: Option<ContextWindowCompressionConfig>,
    pub output_audio_transcription: Option<AudioTranscriptionConfig>,
}

#[derive(Debug, Clone)]
pub struct ClientContent {
    pub turns: Vec<Content>,
    pub turn_complete: bool,
}

#[derive(Debug, Clone)]
pub struct StartActivity;

#[derive(Debug, Clone)]
pub struct EndActivity;

#[derive(Debug, Clone)]
pub enum RealtimeInput {
    Text(String),
    Audio(InlineData),
    Video(InlineData),
    StartActivity(StartActivity),
    EndActivity(EndActivity),
    AudioStreamEnd(bool),
}

#[derive(Debug, Clone)]
pub struct AutomaticActivityDetection {
    pub disabled: Option<bool>,
    pub start_of_speech_sensitivity: Option<StartSensitivity>,
    pub prefix_padding_ms: Option<i32>,
    pub end_of_speech_sensitivity: Option<EndSensitivity>,
    pub silence_duration_ms: Option<i32>,
}

#[derive(Debug, Clone)]
pub struct RealtimeInputConfig {
    pub automatic_activity_detection: Option<AutomaticActivityDetection>,
    pub activity_handling: Option<ActivityHandling>,
    pub turn_coverage: Option<TurnCoverage>,
}

#[derive(Debug, Clone)]
pub struct SessionResumptionConfig {
    pub handle: String,
}

#[derive(Debug, Clone)]
pub struct ContextWindowCompressionConfig {
    pub sliding_window: SlidingWindow,
    pub trigger_tokens: Option<i64>,
}

#[derive(Debug, Clone)]
pub struct SlidingWindow {
    pub target_tokens: i64,
}

#[derive(Debug, Clone)]
pub struct AudioTranscriptionConfig {}

// ---------------------------------------------------------------------------
// Content
// ---------------------------------------------------------------------------

/// Binary data sent as part of a message; base64 text on the wire.
#[derive(Debug, Clone)]
pub struct InlineData {
    mime_type: String,
    data: Vec<u8>,
}

#[derive(Debug, Clone)]
pub struct FileData {
    mime_type: String,
    file_uri: String,
}

#[derive(Debug, Clone, Copy, PartialEq, Eq, Structural)]
pub struct StartOffset {
    pub seconds: i64,
    pub nanos: i32,
}

#[derive(Debug, Clone, Copy, PartialEq, Eq, Structural)]
pub struct EndOffset {
    pub seconds: i64,
    pub nanos: i32,
}

#[derive(Debug, Clone, Copy, PartialEq, Eq, Structural)]
pub struct VideoMetadata {
    pub start_offset: StartOffset,
    pub end_offset: EndOffset,
}

#[derive(Debug, Clone)]
pub struct ExecutableCode {
    pub language: String,
    pub code: String,
}

/// Outcome of a code execution.
#[derive(Debug, Clone, Copy, PartialEq, Eq)]
pub enum CodeExecutionOutcome {
    /// Completed successfully.
    Success,
    /// Finished with a failure.
    Failed,
    /// Ran too long and was cancelled.
    DeadlineExceeded,
}

#[derive(Debug, Clone)]
pub struct CodeExecutionResult {
    pub outcome: CodeExecutionOutcome,
    pub output: Option<String>,
}

#[derive(Debug, Clone)]
pub enum PartData {
    Text(String),
    InlineData(InlineData),
    FileData(FileData),
    VideoMetadata(VideoMetadata),
    FunctionCall(FunctionCall),
    FunctionResponse(FunctionResponse),
    ExecutableCode(ExecutableCode),
    CodeExecutionResult(CodeExecutionResult),
}

#[derive(Debug, Clone)]
pub struct Part {
    pub data: PartData,
    pub thought: bool,
}

#[derive(Debug, Clone)]
pub struct Content {
    pub role: Option<Role>,
    pub parts: Vec<Part>,
}

#[derive(Debug, Clone, Copy, PartialEq, Eq)]
pub enum Role {
    User,
    Model,
}

#[derive(Debug, Clone)]
pub struct FunctionCall {
    pub id: Option<String>,
    pub name: String,
    pub args: JsonValue,
}

#[derive(Debug, Clone)]
pub struct FunctionResult {
    pub result: JsonValue,
}

#[derive(Debug, Clone, Copy, PartialEq, Eq)]
pub enum FunctionResponseScheduling {
    /// Only add the result to the context; do not trigger generation.
    Silent,
    /// Add the result and prompt generation when idle.
    WhenIdle,
    /// Add the result, interrupt generation and prompt anew.
    Interrupt,
}

#[derive(Debug, Clone)]
pub struct FunctionResponse {
    pub id: Option<String>,
    pub name: String,
    pub response: FunctionResult,
    pub will_continue: Option<bool>,
    pub scheduling: Option<FunctionResponseScheduling>,
}

#[derive(Debug, Clone, Copy, PartialEq, Eq, Structural)]
pub enum Modality {
    ModalityUnspecified,
    Text,
    Image,
    Video,
    Audio,
    Document,
}

#[derive(Debug, Clone, Copy, PartialEq, Eq, Structural)]
pub struct ModalityTokenCount {
    pub modality: Modality,
    pub token_count: i32,
}

#[derive(Debug, Clone)]
pub struct ToolResponse {
    pub function_responses: Vec<FunctionResponse>,
}

/// One outbound envelope.
#[derive(Debug, Clone)]
pub enum ClientMessage {
    Setup(Setup),
    ClientContent(ClientContent),
    RealtimeInput(RealtimeInput),
    ToolResponse(ToolResponse),
}

#[derive(Debug, Clone)]
pub struct SetupComplete {}

#[derive(Debug, Clone)]
pub enum ServerContent {
    ModelTurn(Content),
    GenerationComplete,
    TurnComplete,
    Interrupted,
    GroundingMetadata(JsonValue),
    OutputTranscription(Transcription),
    InputTranscription(Transcription),
}

#[derive(Debug, Clone)]
pub struct Transcription {
    pub text: String,
}

#[derive(Debug, Clone)]
pub struct ToolCall {
    pub function_calls: Vec<FunctionCall>,
}

#[derive(Debug, Clone)]
pub struct ToolCallCancellation {
    pub ids: Vec<String>,
}

#[derive(Debug, Clone)]
pub struct GoAway {
    pub time_left: Option<String>,
}

#[derive(Debug, Clone)]
pub struct SessionResumptionUpdate {
    pub new_handle: Option<String>,
    pub resumable: Option<bool>,
}

#[derive(Debug, Clone)]
pub struct UsageMetadata {
    pub prompt_token_count: Option<i32>,
    pub cached_content_token_count: Option<i32>,
    pub response_token_count: Option<i32>,
    pub tool_use_prompt_token_count: Option<i32>,
    pub thoughts_token_count: Option<i32>,
    pub total_token_count: Option<i32>,
    pub prompt_tokens_details: Vec<ModalityTokenCount>,
    pub cache_tokens_details: Vec<ModalityTokenCount>,
    pub response_tokens_details: Vec<ModalityTokenCount>,
    pub tool_use_prompt_tokens_details: Vec<ModalityTokenCount>,
}

/// One inbound envelope.
#[derive(Debug, Clone)]
pub enum ServerMessage {
    SetupComplete,
    ServerContent { server_content: ServerContent, usage_metadata: Option<UsageMetadata> },
    ToolCall(ToolCall),
    ToolCallCancellation(ToolCallCancellation),
    GoAway(GoAway),
    SessionResumptionUpdate(SessionResumptionUpdate),
}

// ---------------------------------------------------------------------------
// Views of the inbound types
// ---------------------------------------------------------------------------

#[verifier::ext_equal]
pub ghost struct InlineDataV {
    pub mime_type: Seq<char>,
    /// The bytes as they stand on the wire: base64 text.
    pub data_b64: Seq<char>,
}

#[verifier::ext_equal]
pub ghost struct FileDataV {
    pub mime_type: Seq<char>,
    pub file_uri: Seq<char>,
}

#[verifier::ext_equal]
pub ghost struct ExecutableCodeV {
    pub language: Seq<char>,
    pub code: Seq<char>,
}

#[verifier::ext_equal]
pub ghost struct CodeExecutionResultV {
    pub outcome: CodeExecutionOutcome,
    pub output: Option<Seq<char>>,
}

#[verifier::ext_equal]
pub ghost struct FunctionCallV {
    pub id: Option<Seq<char>>,
    pub name: Seq<char>,
    pub args: JVal,
}

#[verifier::ext_equal]
pub ghost struct FunctionResultV {
    pub result: JVal,
}

#[verifier::ext_equal]
pub ghost struct FunctionResponseV {
    pub id: Option<Seq<char>>,
    pub name: Seq<char>,
    pub response: FunctionResultV,
    pub will_continue: Option<bool>,
    pub scheduling: Option<FunctionResponseScheduling>,
}

#[verifier::ext_equal]
pub ghost enum PartDataV {
    Text(Seq<char>),
    InlineData(InlineDataV),
    FileData(FileDataV),
    VideoMetadata(VideoMetadata),
    FunctionCall(FunctionCallV),
    FunctionResponse(FunctionResponseV),
    ExecutableCode(ExecutableCodeV),
    CodeExecutionResult(CodeExecutionResultV),
}

#[verifier::ext_equal]
pub ghost struct PartV {
    pub data: PartDataV,
    pub thought: bool,
}

#[verifier::ext_equal]
pub ghost struct ContentV {
    pub role: Option<Role>,
    pub parts: Seq<PartV>,
}

#[verifier::ext_equal]
pub ghost struct ClientContentV {
    pub turns: Seq<ContentV>,
    pub turn_complete: bool,
}

#[verifier::ext_equal]
pub ghost struct TranscriptionV {
    pub text: Seq<char>,
}

#[verifier::ext_equal]
pub ghost enum ServerContentV {
    ModelTurn(ContentV),
    GenerationComplete,
    TurnComplete,
    Interrupted,
    GroundingMetadata(JVal),
    OutputTranscription(TranscriptionV),
    InputTranscription(TranscriptionV),
}

#[verifier::ext_equal]
pub ghost struct ToolCallV {
    pub function_calls: Seq<FunctionCallV>,
}

#[verifier::ext_equal]
pub ghost struct ToolCallCancellationV {
    pub ids: Seq<Seq<char>>,
}

#[verifier::ext_equal]
pub ghost struct GoAwayV {
    pub time_left: Option<Seq<char>>,
}

#[verifier::ext_equal]
pub ghost struct SessionResumptionUpdateV {
    pub new_handle: Option<Seq<char>>,
    pub resumable: Option<bool>,
}

#[verifier::ext_equal]
pub ghost struct UsageMetadataV {
    pub prompt_token_count: Option<i32>,
    pub cached_content_token_count: Option<i32>,
    pub response_token_count: Option<i32>,
    pub tool_use_prompt_token_count: Option<i32>,
    pub thoughts_token_count: Option<i32>,
    pub total_token_count: Option<i32>,
    pub prompt_tokens_details: Seq<ModalityTokenCount>,
    pub cache_tokens_details: Seq<ModalityTokenCount>,
    pub response_tokens_details: Seq<ModalityTokenCount>,
    pub tool_use_prompt_tokens_details: Seq<ModalityTokenCount>,
}

#[verifier::ext_equal]
pub ghost enum ServerMessageV {
    SetupComplete,
    ServerContent { server_content: ServerContentV, usage_metadata: Option<UsageMetadataV> },
    ToolCall(ToolCallV),
    ToolCallCancellation(ToolCallCancellationV),
    GoAway(GoAwayV),
    SessionResumptionUpdate(SessionResumptionUpdateV),
}

/// The base64 text that stands for `bytes` on the wire.
pub uninterp spec fn b64_of(bytes: Seq<u8>) -> Seq<char>;

/// Whether base64 text is a well-formed, canonical encoding of some bytes.
pub uninterp spec fn b64_valid(text: Seq<char>) -> bool;

/// Relies on base64's STANDARD engine (RFC 4648 alphabet, padded): encoding
/// yields the canonical base64 text of the bytes, a function of them alone,
/// and that text decodes again under the same engine.
#[verifier::external_body]
fn b64_encode(bytes: &Vec<u8>) -> (r: String)
    ensures
        r@ == b64_of(bytes@),
        b64_valid(r@),
{
    base64::Engine::encode(&base64::engine::general_purpose::STANDARD, bytes)
}

/// Relies on base64's STANDARD engine, which demands canonical padding and
/// rejects set trailing bits: decoding succeeds exactly on canonical
/// encodings, and then returns the bytes whose encoding the text is.
#[verifier::external_body]
fn b64_decode(text: &str) -> (r: Option<Vec<u8>>)
    ensures
        r is Some <==> b64_valid(text@),
        r matches Some(b) ==> text@ == b64_of(b@),
{
    base64::Engine::decode(&base64::engine::general_purpose::STANDARD, text).ok()
}

impl View for InlineData {
    type V = InlineDataV;

    closed spec fn view(&self) -> InlineDataV {
        InlineDataV { mime_type: self.mime_type@, data_b64: b64_of(self.data@) }
    }
}

impl View for FileData {
    type V = FileDataV;

    closed spec fn view(&self) -> FileDataV {
        FileDataV { mime_type: self.mime_type@, file_uri: self.file_uri@ }
    }
}

impl View for ExecutableCode {
    type V = ExecutableCodeV;

    open spec fn view(&self) -> ExecutableCodeV {
        ExecutableCodeV { language: self.language@, code: self.code@ }
    }
}

impl View for CodeExecutionResult {
    type V = CodeExecutionResultV;

    open spec fn view(&self) -> CodeExecutionResultV {
        CodeExecutionResultV {
            outcome: self.outcome,
            output: match self.output {
                Some(ref s) => Some(s@),
                None => None,
            },
        }
    }
}

impl View for FunctionCall {
    type V = FunctionCallV;

    open spec fn view(&self) -> FunctionCallV {
        FunctionCallV {
            id: match self.id {
                Some(ref s) => Some(s@),
                None => None,
            },
            name: self.name@,
            args: self.args@,
        }
    }
}

impl View for FunctionResult {
    type V = FunctionResultV;

    open spec fn view(&self) -> FunctionResultV {
        FunctionResultV { result: self.result@ }
    }
}

impl View for FunctionResponse {
    type V = FunctionResponseV;

    open spec fn view(&self) -> FunctionResponseV {
        FunctionResponseV {
            id: match self.id {
                Some(ref s) => Some(s@),
                None => None,
            },
            name: self.name@,
            response: self.response@,
            will_continue: self.will_continue,
            scheduling: self.scheduling,
        }
    }
}

impl View for PartData {
    type V = PartDataV;

    open spec fn view(&self) -> PartDataV {
        match self {
            PartData::Text(s) => PartDataV::Text(s@),
            PartData::InlineData(d) => PartDataV::InlineData(d@),
            PartData::FileData(d) => PartDataV::FileData(d@),
            PartData::VideoMetadata(m) => PartDataV::VideoMetadata(*m),
            PartData::FunctionCall(c) => PartDataV::FunctionCall(c@),
            PartData::FunctionResponse(r) => PartDataV::FunctionResponse(r@),
            PartData::ExecutableCode(e) => PartDataV::ExecutableCode(e@),
            PartData::CodeExecutionResult(r) => PartDataV::CodeExecutionResult(r@),
        }
    }
}

impl View for Part {
    type V = PartV;

    open spec fn view(&self) -> PartV {
        PartV { data: self.data@, thought: self.thought }
    }
}

pub open spec fn parts_view(s: Seq<Part>) -> Seq<PartV>
    decreases s.len(),
{
    if s.len() == 0 {
        Seq::empty()
    } else {
        seq![s[0]@] + parts_view(s.subrange(1, s.len() as int))
    }
}

pub proof fn lemma_parts_view(s: Seq<Part>)
    ensures
        parts_view(s).len() == s.len(),
        forall|i: int| 0 <= i < s.len() ==> parts_view(s)[i] == s[i]@,
    decreases s.len(),
{
    if s.len() > 0 {
        lemma_parts_view(s.subrange(1, s.len() as int));
    }
}

impl View for Content {
    type V = ContentV;

    open spec fn view(&self) -> ContentV {
        ContentV {
            role: self.role,
            parts: parts_view(self.parts@),
        }
    }
}

pub open spec fn contents_view(s: Seq<Content>) -> Seq<ContentV>
    decreases s.len(),
{
    if s.len() == 0 {
        Seq::empty()
    } else {
        seq![s[0]@] + contents_view(s.subrange(1, s.len() as int))
    }
}

pub proof fn lemma_contents_view(s: Seq<Content>)
    ensures
        contents_view(s).len() == s.len(),
        forall|i: int| 0 <= i < s.len() ==> contents_view(s)[i] == s[i]@,
    decreases s.len(),
{
    if s.len() > 0 {
        lemma_contents_view(s.subrange(1, s.len() as int));
    }
}

impl View for ClientContent {
    type V = ClientContentV;

    open spec fn view(&self) -> ClientContentV {
        ClientContentV { turns: contents_view(self.turns@), turn_complete: self.turn_complete }
    }
}

impl View for Transcription {
    type V = TranscriptionV;

    open spec fn view(&self) -> TranscriptionV {
        TranscriptionV { text: self.text@ }
    }
}

impl View for ServerContent {
    type V = ServerContentV;

    open spec fn view(&self) -> ServerContentV {
        match self {
            ServerContent::ModelTurn(c) => ServerContentV::ModelTurn(c@),
            ServerContent::GenerationComplete => ServerContentV::GenerationComplete,
            ServerContent::TurnComplete => ServerContentV::TurnComplete,
            ServerContent::Interrupted => ServerContentV::Interrupted,
            ServerContent::GroundingMetadata(v) => ServerContentV::GroundingMetadata(v@),
            ServerContent::OutputTranscription(t) => ServerContentV::OutputTranscription(t@),
            ServerContent::InputTranscription(t) => ServerContentV::InputTranscription(t@),
        }
    }
}

pub open spec fn calls_view(s: Seq<FunctionCall>) -> Seq<FunctionCallV>
    decreases s.len(),
{
    if s.len() == 0 {
        Seq::empty()
    } else {
        seq![s[0]@] + calls_view(s.subrange(1, s.len() as int))
    }
}

pub proof fn lemma_calls_view(s: Seq<FunctionCall>)
    ensures
        calls_view(s).len() == s.len(),
        forall|i: int| 0 <= i < s.len() ==> calls_view(s)[i] == s[i]@,
    decreases s.len(),
{
    if s.len() > 0 {
        lemma_calls_view(s.subrange(1, s.len() as int));
    }
}

impl View for ToolCall {
    type V = ToolCallV;

    open spec fn view(&self) -> ToolCallV {
        ToolCallV { function_calls: calls_view(self.function_calls@) }
    }
}

impl View for ToolCallCancellation {
    type V = ToolCallCancellationV;

    open spec fn view(&self) -> ToolCallCancellationV {
        ToolCallCancellationV { ids: self.ids.deep_view() }
    }
}

impl View for GoAway {
    type V = GoAwayV;

    open spec fn view(&self) -> GoAwayV {
        GoAwayV {
            time_left: match self.time_left {
                Some(ref s) => Some(s@),
                None => None,
            },
        }
    }
}

impl View for SessionResumptionUpdate {
    type V = SessionResumptionUpdateV;

    open spec fn view(&self) -> SessionResumptionUpdateV {
        SessionResumptionUpdateV {
            new_handle: match self.new_handle {
                Some(ref s) => Some(s@),
                None => None,
            },
            resumable: self.resumable,
        }
    }
}

impl View for UsageMetadata {
    type V = UsageMetadataV;

    open spec fn view(&self) -> UsageMetadataV {
        UsageMetadataV {
            prompt_token_count: self.prompt_token_count,
            cached_content_token_count: self.cached_content_token_count,
            response_token_count: self.response_token_count,
            tool_use_prompt_token_count: self.tool_use_prompt_token_count,
            thoughts_token_count: self.thoughts_token_count,
            total_token_count: self.total_token_count,
            prompt_tokens_details: self.prompt_tokens_details@,
            cache_tokens_details: self.cache_tokens_details@,
            response_tokens_details: self.response_tokens_details@,
            tool_use_prompt_tokens_details: self.tool_use_prompt_tokens_details@,
        }
    }
}

impl View for ServerMessage {
    type V = ServerMessageV;

    open spec fn view(&self) -> ServerMessageV {
        match self {
            ServerMessage::SetupComplete => ServerMessageV::SetupComplete,
            ServerMessage::ServerContent { server_content, usage_metadata } => {
                ServerMessageV::ServerContent {
                    server_content: server_content@,
                    usage_metadata: match usage_metadata {
                        Some(u) => Some(u@),
                        None => None,
                    },
                }
            },
            ServerMessage::ToolCall(c) => ServerMessageV::ToolCall(c@),
            ServerMessage::ToolCallCancellation(c) => ServerMessageV::ToolCallCancellation(c@),
            ServerMessage::GoAway(g) => ServerMessageV::GoAway(g@),
            ServerMessage::SessionResumptionUpdate(u) => {
                ServerMessageV::SessionResumptionUpdate(u@)
            },
        }
    }
}

// ---------------------------------------------------------------------------
// Constructors and accessors
// ---------------------------------------------------------------------------

impl InlineData {
    /// Binary content of the given mime type.
    pub fn new(mime_type: &str, data: Vec<u8>) -> (r: InlineData)
        ensures
            r@.mime_type == mime_type@,
            r@.data_b64 == b64_of(data@),
            r.bytes() == data@,
    {
        InlineData { mime_type: mime_type.to_owned(), data }
    }

    /// The raw bytes carried here.
    pub closed spec fn bytes(&self) -> Seq<u8> {
        self.data@
    }

    pub fn data(&self) -> (r: &[u8])
        ensures
            r@ == self.bytes(),
    {
        self.data.as_slice()
    }

    pub fn mime_type(&self) -> (r: &str)
        ensures
            r@ == self@.mime_type,
    {
        self.mime_type.as_str()
    }
}

impl FileData {
    pub fn new(mime_type: &str, file_uri: &str) -> (r: FileData)
        ensures
            r@ == (FileDataV { mime_type: mime_type@, file_uri: file_uri@ }),
    {
        FileData { mime_type: mime_type.to_owned(), file_uri: file_uri.to_owned() }
    }

    pub fn mime_type(&self) -> (r: &str)
        ensures
            r@ == self@.mime_type,
    {
        self.mime_type.as_str()
    }

    pub fn file_uri(&self) -> (r: &str)
        ensures
            r@ == self@.file_uri,
    {
        self.file_uri.as_str()
    }
}

impl Part {
    /// A part holding the given payload, not marked as a thought.
    pub fn new(data: PartData) -> (r: Part)
        ensures
            r@.data == data@,
            r@.thought == false,
    {
        Part { data, thought: false }
    }
}

impl Content {
    pub fn new(role: Option<Role>, parts: Vec<Part>) -> (r: Content)
        ensures
            r@.role == role,
            r@.parts == parts_view(parts@),
    {
        Content { role, parts }
    }
}

impl ClientContent {
    /// Turns to send; the turn-complete flag starts false.
    pub fn new(turns: Vec<Content>) -> (r: ClientContent)
        ensures
            r@.turns == contents_view(turns@),
            r@.turn_complete == false,
    {
        ClientContent { turns, turn_complete: false }
    }

    /// The same content with the turn-complete flag set as given.
    pub fn is_turn_completed(self, turn_complete: bool) -> (r: ClientContent)
        ensures
            r@.turns == self@.turns,
            r@.turn_complete == turn_complete,
    {
        ClientContent { turns: self.turns, turn_complete }
    }
}

impl FunctionCall {
    pub fn new(id: Option<String>, name: &str, args: JsonValue) -> (r: FunctionCall)
        ensures
            r@.id == (match id {
                Some(s) => Some(s@),
                None => None::<Seq<char>>,
            }),
            r@.name == name@,
            r@.args == args@,
    {
        FunctionCall { id, name: name.to_owned(), args }
    }
}

impl FunctionResult {
    pub fn new(result: JsonValue) -> (r: FunctionResult)
        ensures
            r@.result == result@,
    {
        FunctionResult { result }
    }
}

impl FunctionResponse {
    pub fn new(id: Option<String>, name: &str, response: FunctionResult) -> (r: FunctionResponse)
        ensures
            r@.id == (match id {
                Some(s) => Some(s@),
                None => None::<Seq<char>>,
            }),
            r@.name == name@,
            r@.response == response@,
            r@.will_continue is None,
            r@.scheduling is None,
    {
        FunctionResponse { id, name: name.to_owned(), response, will_continue: None, scheduling: None }
    }

    /// The same response, with the will-continue flag set.
    pub fn with_will_continue(self, will_continue: bool) -> (r: FunctionResponse)
        ensures
            r@ == (FunctionResponseV { will_continue: Some(will_continue), ..self@ }),
    {
        FunctionResponse { will_continue: Some(will_continue), ..self }
    }

    /// The same response, with the scheduling policy set.
    pub fn with_scheduling(self, scheduling: FunctionResponseScheduling) -> (r: FunctionResponse)
        ensures
            r@ == (FunctionResponseV { scheduling: Some(scheduling), ..self@ }),
    {
        FunctionResponse { scheduling: Some(scheduling), ..self }
    }
}

impl ToolResponse {
    pub fn new(function_responses: Vec<FunctionResponse>) -> (r: ToolResponse)
        ensures
            r.function_responses@ == function_responses@,
    {
        ToolResponse { function_responses }
    }
}

impl Setup {
    /// A setup for the given model; everything else starts unset.
    pub fn new(model: &str) -> (r: Setup)
        ensures
            r.model@ == model@,
            r.generation_config is None,
            r.system_instruction is None,
            r.tools is None,
            r.realtime_input_config is None,
            r.session_resumption is None,
            r.context_window_compression is None,
            r.output_audio_transcription is None,
    {
        Setup {
            model: model.to_owned(),
            generation_config: None,
            system_instruction: None,
            tools: None,
            realtime_input_config: None,
            session_resumption: None,
            context_window_compression: None,
            output_audio_transcription: None,
        }
    }

    pub fn with_generation_config(self, generation_config: GenerationConfig) -> (r: Setup)
        ensures
            r == (Setup { generation_config: Some(generation_config), ..self }),
    {
        Setup { generation_config: Some(generation_config), ..self }
    }

    pub fn with_system_instruction(self, system_instruction: Content) -> (r: Setup)
        ensures
            r == (Setup { system_instruction: Some(system_instruction), ..self }),
    {
        Setup { system_instruction: Some(system_instruction), ..self }
    }

    pub fn with_tools(self, tools: Vec<Tool>) -> (r: Setup)
        ensures
            r == (Setup { tools: Some(tools), ..self }),
    {
        Setup { tools: Some(tools), ..self }
    }

    pub fn with_realtime_input_config(self, realtime_input_config: RealtimeInputConfig) -> (r:
        Setup)
        ensures
            r == (Setup { realtime_input_config: Some(realtime_input_config), ..self }),
    {
        Setup { realtime_input_config: Some(realtime_input_config), ..self }
    }

    pub fn with_session_resumption(self, session_resumption: SessionResumptionConfig) -> (r: Setup)
        ensures
            r == (Setup { session_resumption: Some(session_resumption), ..self }),
    {
        Setup { session_resumption: Some(session_resumption), ..self }
    }

    pub fn with_context_window_compression(
        self,
        context_window_compression: ContextWindowCompressionConfig,
    ) -> (r: Setup)
        ensures
            r == (Setup { context_window_compression: Some(context_window_compression), ..self }),
    {
        Setup { context_window_compression: Some(context_window_compression), ..self }
    }

    pub fn with_output_audio_transcription(
        self,
        output_audio_transcription: AudioTranscriptionConfig,
    ) -> (r: Setup)
        ensures
            r == (Setup { output_audio_transcription: Some(output_audio_transcription), ..self }),
    {
        Setup { output_audio_transcription: Some(output_audio_transcription), ..self }
    }
}

impl GenerationConfig {
    /// A configuration with nothing set.
    pub fn new() -> (r: GenerationConfig)
        ensures
            r.candidate_count is None,
            r.max_output_tokens is None,
            r.temperature is None,
            r.top_p is None,
            r.top_k is None,
            r.stop_sequences is None,
            r.seed is None,
            r.presence_penalty is None,
            r.frequency_penalty is None,
            r.response_logprobs is None,
            r.logprobs is None,
            r.enable_enhanced_civic_answers is None,
            r.response_modalities is None,
            r.speech_config is None,
            r.thinking_config is None,
            r.media_resolution is None,
            r.response_mime_type is None,
            r.response_schema is None,
    {
        GenerationConfig {
            candidate_count: None,
            max_output_tokens: None,
            temperature: None,
            top_p: None,
            top_k: None,
            stop_sequences: None,
            seed: None,
            presence_penalty: None,
            frequency_penalty: None,
            response_logprobs: None,
            logprobs: None,
            enable_enhanced_civic_answers: None,
            response_modalities: None,
            speech_config: None,
            thinking_config: None,
            media_resolution: None,
            response_mime_type: None,
            response_schema: None,
        }
    }

    pub fn with_max_output_tokens(self, max_output_tokens: u32) -> (r: GenerationConfig)
        ensures
            r == (GenerationConfig { max_output_tokens: Some(max_output_tokens), ..self }),
    {
        GenerationConfig { max_output_tokens: Some(max_output_tokens), ..self }
    }

    pub fn with_candidate_count(self, candidate_count: u32) -> (r: GenerationConfig)
        ensures
            r == (GenerationConfig { candidate_count: Some(candidate_count), ..self }),
    {
        GenerationConfig { candidate_count: Some(candidate_count), ..self }
    }

    pub fn with_temperature(self, temperature: JsonNum) -> (r: GenerationConfig)
        ensures
            r == (GenerationConfig { temperature: Some(temperature), ..self }),
    {
        GenerationConfig { temperature: Some(temperature), ..self }
    }

    pub fn with_top_k(self, top_k: u32) -> (r: GenerationConfig)
        ensures
            r == (GenerationConfig { top_k: Some(top_k), ..self }),
    {
        GenerationConfig { top_k: Some(top_k), ..self }
    }

    pub fn with_stop_sequences(self, stop_sequences: Vec<String>) -> (r: GenerationConfig)
        ensures
            r == (GenerationConfig { stop_sequences: Some(stop_sequences), ..self }),
    {
        GenerationConfig { stop_sequences: Some(stop_sequences), ..self }
    }

    pub fn with_response_modalities(self, response_modalities: Vec<ResponseModality>) -> (r:
        GenerationConfig)
        ensures
            r == (GenerationConfig { response_modalities: Some(response_modalities), ..self }),
    {
        GenerationConfig { response_modalities: Some(response_modalities), ..self }
    }

    pub fn with_speech_config(self, speech_config: SpeechConfig) -> (r: GenerationConfig)
        ensures
            r == (GenerationConfig { speech_config: Some(speech_config), ..self }),
    {
        GenerationConfig { speech_config: Some(speech_config), ..self }
    }
}

impl SessionResumptionConfig {
    pub fn new(handle: &str) -> (r: SessionResumptionConfig)
        ensures
            r.handle@ == handle@,
    {
        SessionResumptionConfig { handle: handle.to_owned() }
    }
}

// ---------------------------------------------------------------------------
// Encoding: mirrors
// ---------------------------------------------------------------------------

/// A field that stands in an object only when the value is set.
pub open spec fn opt_field(name: Seq<char>, v: Option<JVal>) -> Seq<(Seq<char>, JVal)> {
    match v {
        Some(j) => seq![(name, j)],
        None => Seq::empty(),
    }
}

pub open spec fn sp_role_text(r: Role) -> Seq<char> {
    match r {
        Role::User => "user"@,
        Role::Model => "model"@,
    }
}

pub open spec fn sp_scheduling_text(s: FunctionResponseScheduling) -> Seq<char> {
    match s {
        FunctionResponseScheduling::Silent => "SILENT"@,
        FunctionResponseScheduling::WhenIdle => "WHEN_IDLE"@,
        FunctionResponseScheduling::Interrupt => "INTERRUPT"@,
    }
}

pub open spec fn sp_outcome_text(o: CodeExecutionOutcome) -> Seq<char> {
    match o {
        CodeExecutionOutcome::Success => "OUTCOME_OK"@,
        CodeExecutionOutcome::Failed => "OUTCOME_FAILED"@,
        CodeExecutionOutcome::DeadlineExceeded => "OUTCOME_DEADLINE_EXCEEDED"@,
    }
}

pub open spec fn sp_response_modality_text(m: ResponseModality) -> Seq<char> {
    match m {
        ResponseModality::Text => "text"@,
        ResponseModality::Audio => "audio"@,
    }
}

pub open spec fn sp_activity_handling_text(v: ActivityHandling) -> Seq<char> {
    match v {
        ActivityHandling::Unspecified => "ACTIVITY_HANDLING_UNSPECIFIED"@,
        ActivityHandling::StartOfActivityInterrupts => "START_OF_ACTIVITY_INTERRUPTS"@,
        ActivityHandling::NoInterruption => "NO_INTERRUPTION"@,
    }
}

pub open spec fn sp_start_sensitivity_text(v: StartSensitivity) -> Seq<char> {
    match v {
        StartSensitivity::Unspecified => "START_SENSITIVITY_UNSPECIFIED"@,
        StartSensitivity::High => "START_SENSITIVITY_HIGH"@,
        StartSensitivity::Low => "START_SENSITIVITY_LOW"@,
    }
}

pub open spec fn sp_end_sensitivity_text(v: EndSensitivity) -> Seq<char> {
    match v {
        EndSensitivity::Unspecified => "END_SENSITIVITY_UNSPECIFIED"@,
        EndSensitivity::High => "END_SENSITIVITY_HIGH"@,
        EndSensitivity::Low => "END_SENSITIVITY_LOW"@,
    }
}

pub open spec fn sp_turn_coverage_text(v: TurnCoverage) -> Seq<char> {
    match v {
        TurnCoverage::Unspecified => "TURN_COVERAGE_UNSPECIFIED"@,
        TurnCoverage::OnlyActivity => "TURN_INCLUDES_ONLY_ACTIVITY"@,
        TurnCoverage::AllInput => "TURN_INCLUDES_ALL_INPUT"@,
    }
}

pub open spec fn sp_media_resolution_text(v: MediaResolution) -> Seq<char> {
    match v {
        MediaResolution::Unspecified => "MEDIA_RESOLUTION_UNSPECIFIED"@,
        MediaResolution::Low => "MEDIA_RESOLUTION_LOW"@,
        MediaResolution::Medium => "MEDIA_RESOLUTION_MEDIUM"@,
        MediaResolution::High => "MEDIA_RESOLUTION_HIGH"@,
    }
}

pub open spec fn sp_retrieval_mode_text(v: DynamicRetrievalMode) -> Seq<char> {
    match v {
        DynamicRetrievalMode::Unspecified => "MODE_UNSPECIFIED"@,
        DynamicRetrievalMode::Dynamic => "MODE_DYNAMIC"@,
    }
}

pub open spec fn sp_calling_mode_text(v: FunctionCallingMode) -> Seq<char> {
    match v {
        FunctionCallingMode::Unspecified => "MODE_UNSPECIFIED"@,
        FunctionCallingMode::Auto => "AUTO"@,
        FunctionCallingMode::Any => "ANY"@,
        FunctionCallingMode::Disabled => "NONE"@,
        FunctionCallingMode::Validated => "VALIDATED"@,
    }
}

pub open spec fn sp_behavior_text(v: FunctionBehavior) -> Seq<char> {
    match v {
        FunctionBehavior::Blocking => "BLOCKING"@,
        FunctionBehavior::NonBlocking => "NON_BLOCKING"@,
    }
}

pub open spec fn sp_inline_data_json(d: InlineDataV) -> JVal {
    JVal::Obj(
        seq![("mimeType"@, JVal::Str(d.mime_type)), ("data"@, JVal::Str(d.data_b64))],
    )
}

pub open spec fn sp_file_data_json(d: FileDataV) -> JVal {
    JVal::Obj(
        seq![("mimeType"@, JVal::Str(d.mime_type)), ("fileUri"@, JVal::Str(d.file_uri))],
    )
}

pub open spec fn sp_start_offset_json(o: StartOffset) -> JVal {
    JVal::Obj(
        seq![
            ("seconds"@, JVal::Num(crate::json::int_lit(o.seconds as int))),
            ("nanos"@, JVal::Num(crate::json::int_lit(o.nanos as int))),
        ],
    )
}

pub open spec fn sp_end_offset_json(o: EndOffset) -> JVal {
    JVal::Obj(
        seq![
            ("seconds"@, JVal::Num(crate::json::int_lit(o.seconds as int))),
            ("nanos"@, JVal::Num(crate::json::int_lit(o.nanos as int))),
        ],
    )
}

pub open spec fn sp_video_metadata_json(m: VideoMetadata) -> JVal {
    JVal::Obj(
        seq![
            ("startOffset"@, sp_start_offset_json(m.start_offset)),
            ("endOffset"@, sp_end_offset_json(m.end_offset)),
        ],
    )
}

pub open spec fn sp_function_call_json(c: FunctionCallV) -> JVal {
    JVal::Obj(
        opt_field("id"@, match c.id {
            Some(s) => Some(JVal::Str(s)),
            None => None,
        }) + seq![("name"@, JVal::Str(c.name)), ("args"@, c.args)],
    )
}

pub open spec fn sp_function_result_json(r: FunctionResultV) -> JVal {
    JVal::Obj(seq![("result"@, r.result)])
}

pub open spec fn sp_function_response_json(r: FunctionResponseV) -> JVal {
    JVal::Obj(
        seq![
            ("id"@, match r.id {
                Some(s) => JVal::Str(s),
                None => JVal::Null,
            }),
            ("name"@, JVal::Str(r.name)),
            ("response"@, sp_function_result_json(r.response)),
            ("willContinue"@, match r.will_continue {
                Some(b) => JVal::Bool(b),
                None => JVal::Null,
            }),
            ("scheduling"@, match r.scheduling {
                Some(s) => JVal::Str(sp_scheduling_text(s)),
                None => JVal::Null,
            }),
        ],
    )
}

pub open spec fn sp_executable_code_json(e: ExecutableCodeV) -> JVal {
    JVal::Obj(
        seq![("language"@, JVal::Str(e.language)), ("code"@, JVal::Str(e.code))],
    )
}

pub open spec fn sp_code_execution_result_json(r: CodeExecutionResultV) -> JVal {
    JVal::Obj(
        seq![("outcome"@, JVal::Str(sp_outcome_text(r.outcome)))] + opt_field(
            "output"@,
            match r.output {
                Some(s) => Some(JVal::Str(s)),
                None => None,
            },
        ),
    )
}

/// The single tagged field a part's payload becomes.
pub open spec fn sp_part_data_field(d: PartDataV) -> (Seq<char>, JVal) {
    match d {
        PartDataV::Text(s) => ("text"@, JVal::Str(s)),
        PartDataV::InlineData(x) => ("inlineData"@, sp_inline_data_json(x)),
        PartDataV::FileData(x) => ("fileData"@, sp_file_data_json(x)),
        PartDataV::VideoMetadata(x) => ("videoMetadata"@, sp_video_metadata_json(x)),
        PartDataV::FunctionCall(x) => ("functionCall"@, sp_function_call_json(x)),
        PartDataV::FunctionResponse(x) => ("functionResponse"@, sp_function_response_json(x)),
        PartDataV::ExecutableCode(x) => ("executableCode"@, sp_executable_code_json(x)),
        PartDataV::CodeExecutionResult(x) => (
            "codeExecutionResult"@,
            sp_code_execution_result_json(x),
        ),
    }
}

pub open spec fn sp_part_json(p: PartV) -> JVal {
    JVal::Obj(seq![sp_part_data_field(p.data), ("thought"@, JVal::Bool(p.thought))])
}

pub open spec fn sp_parts_json(s: Seq<PartV>) -> Seq<JVal>
    decreases s.len(),
{
    if s.len() == 0 {
        Seq::empty()
    } else {
        seq![sp_part_json(s[0])] + sp_parts_json(s.subrange(1, s.len() as int))
    }
}

pub open spec fn sp_content_json(c: ContentV) -> JVal {
    JVal::Obj(
        seq![
            ("role"@, match c.role {
                Some(r) => JVal::Str(sp_role_text(r)),
                None => JVal::Null,
            }),
            ("parts"@, JVal::Arr(sp_parts_json(c.parts))),
        ],
    )
}

pub open spec fn sp_contents_json(s: Seq<ContentV>) -> Seq<JVal>
    decreases s.len(),
{
    if s.len() == 0 {
        Seq::empty()
    } else {
        seq![sp_content_json(s[0])] + sp_contents_json(s.subrange(1, s.len() as int))
    }
}

pub open spec fn sp_client_content_json(c: ClientContentV) -> JVal {
    JVal::Obj(
        seq![
            ("turns"@, JVal::Arr(sp_contents_json(c.turns))),
            ("turnComplete"@, JVal::Bool(c.turn_complete)),
        ],
    )
}

// ---------------------------------------------------------------------------
// Encoding: executable code
// ---------------------------------------------------------------------------

proof fn lemma_fields_view_push(s: Seq<(String, JsonValue)>, k: String, v: JsonValue)
    ensures
        crate::json::jv_fields_view(s.push((k, v))) == crate::json::jv_fields_view(s) + seq![
            (k@, crate::json::jv_view(v)),
        ],
{
    crate::json::lemma_jv_fields_view_len(s.push((k, v)));
    crate::json::lemma_jv_fields_view_len(s);
    assert(crate::json::jv_fields_view(s.push((k, v))) =~= crate::json::jv_fields_view(s) + seq![
        (k@, crate::json::jv_view(v)),
    ]);
}

/// Appends one field to an object under construction.
fn obj_push(o: &mut Vec<(String, JsonValue)>, key: &str, v: JsonValue)
    ensures
        crate::json::jv_fields_view(final(o)@) == crate::json::jv_fields_view(old(o)@).push(
            (key@, v@),
        ),
        crate::json::jv_fields_view(final(o)@) == crate::json::jv_fields_view(old(o)@) + seq![
            (key@, v@),
        ],
{
    let ghost s0 = o@;
    let ghost gv = v;
    o.push((key.to_owned(), v));
    proof {
        let kk = o@[o@.len() - 1].0;
        assert(o@ =~= s0.push((o@[o@.len() - 1].0, gv)));
        lemma_fields_view_push(s0, o@[o@.len() - 1].0, gv);
        assert(crate::json::jv_fields_view(s0).push((key@, gv@)) =~= crate::json::jv_fields_view(
            s0,
        ) + seq![(key@, gv@)]);
    }
}

fn role_text(r: &Role) -> (t: &'static str)
    ensures
        t@ == sp_role_text(*r),
{
    match r {
        Role::User => "user",
        Role::Model => "model",
    }
}

fn scheduling_text(s: &FunctionResponseScheduling) -> (t: &'static str)
    ensures
        t@ == sp_scheduling_text(*s),
{
    match s {
        FunctionResponseScheduling::Silent => "SILENT",
        FunctionResponseScheduling::WhenIdle => "WHEN_IDLE",
        FunctionResponseScheduling::Interrupt => "INTERRUPT",
    }
}

fn outcome_text(o: &CodeExecutionOutcome) -> (t: &'static str)
    ensures
        t@ == sp_outcome_text(*o),
{
    match o {
        CodeExecutionOutcome::Success => "OUTCOME_OK",
        CodeExecutionOutcome::Failed => "OUTCOME_FAILED",
        CodeExecutionOutcome::DeadlineExceeded => "OUTCOME_DEADLINE_EXCEEDED",
    }
}

impl InlineData {
    fn to_json(&self) -> (r: JsonValue)
        ensures
            r@ == sp_inline_data_json(self@),
    {
        let mut o: Vec<(String, JsonValue)> = Vec::new();
        obj_push(&mut o, "mimeType", JsonValue::of_string(self.mime_type.as_str()));
        obj_push(&mut o, "data", JsonValue::Str(b64_encode(&self.data)));
        proof {
            assert(crate::json::jv_fields_view(o@) =~= sp_inline_data_json(self@)->Obj_0);
        }
        JsonValue::Obj(o)
    }
}

impl FileData {
    fn to_json(&self) -> (r: JsonValue)
        ensures
            r@ == sp_file_data_json(self@),
    {
        let mut o: Vec<(String, JsonValue)> = Vec::new();
        obj_push(&mut o, "mimeType", JsonValue::of_string(self.mime_type.as_str()));
        obj_push(&mut o, "fileUri", JsonValue::of_string(self.file_uri.as_str()));
        proof {
            assert(crate::json::jv_fields_view(o@) =~= sp_file_data_json(self@)->Obj_0);
        }
        JsonValue::Obj(o)
    }
}

impl VideoMetadata {
    fn to_json(&self) -> (r: JsonValue)
        ensures
            r@ == sp_video_metadata_json(*self),
    {
        let mut so: Vec<(String, JsonValue)> = Vec::new();
        obj_push(&mut so, "seconds", JsonValue::of_i64(self.start_offset.seconds));
        obj_push(&mut so, "nanos", JsonValue::of_i64(self.start_offset.nanos as i64));
        proof {
            assert(crate::json::jv_fields_view(so@) =~= sp_start_offset_json(
                self.start_offset,
            )->Obj_0);
        }
        let mut eo: Vec<(String, JsonValue)> = Vec::new();
        obj_push(&mut eo, "seconds", JsonValue::of_i64(self.end_offset.seconds));
        obj_push(&mut eo, "nanos", JsonValue::of_i64(self.end_offset.nanos as i64));
        proof {
            assert(crate::json::jv_fields_view(eo@) =~= sp_end_offset_json(self.end_offset)->Obj_0);
        }
        let mut o: Vec<(String, JsonValue)> = Vec::new();
        obj_push(&mut o, "startOffset", JsonValue::Obj(so));
        obj_push(&mut o, "endOffset", JsonValue::Obj(eo));
        proof {
            assert(crate::json::jv_fields_view(o@) =~= sp_video_metadata_json(*self)->Obj_0);
        }
        JsonValue::Obj(o)
    }
}

impl FunctionCall {
    fn to_json(&self) -> (r: JsonValue)
        ensures
            r@ == sp_function_call_json(self@),
    {
        let mut o: Vec<(String, JsonValue)> = Vec::new();
        match &self.id {
            Some(id) => {
                obj_push(&mut o, "id", JsonValue::of_string(id.as_str()));
            },
            None => {},
        }
        obj_push(&mut o, "name", JsonValue::of_string(self.name.as_str()));
        obj_push(&mut o, "args", self.args.clone());
        proof {
            assert(crate::json::jv_fields_view(o@) =~= sp_function_call_json(self@)->Obj_0);
        }
        JsonValue::Obj(o)
    }
}

impl FunctionResponse {
    fn to_json(&self) -> (r: JsonValue)
        ensures
            r@ == sp_function_response_json(self@),
    {
        let mut ro: Vec<(String, JsonValue)> = Vec::new();
        obj_push(&mut ro, "result", self.response.result.clone());
        let mut o: Vec<(String, JsonValue)> = Vec::new();
        match &self.id {
            Some(id) => {
                obj_push(&mut o, "id", JsonValue::of_string(id.as_str()));
            },
            None => {
                obj_push(&mut o, "id", JsonValue::Null);
            },
        }
        obj_push(&mut o, "name", JsonValue::of_string(self.name.as_str()));
        obj_push(&mut o, "response", JsonValue::Obj(ro));
        match self.will_continue {
            Some(b) => {
                obj_push(&mut o, "willContinue", JsonValue::Bool(b));
            },
            None => {
                obj_push(&mut o, "willContinue", JsonValue::Null);
            },
        }
        match &self.scheduling {
            Some(s) => {
                obj_push(&mut o, "scheduling", JsonValue::of_string(scheduling_text(s)));
            },
            None => {
                obj_push(&mut o, "scheduling", JsonValue::Null);
            },
        }
        proof {
            assert(crate::json::jv_fields_view(o@) =~= sp_function_response_json(self@)->Obj_0);
        }
        JsonValue::Obj(o)
    }
}

impl ExecutableCode {
    fn to_json(&self) -> (r: JsonValue)
        ensures
            r@ == sp_executable_code_json(self@),
    {
        let mut o: Vec<(String, JsonValue)> = Vec::new();
        obj_push(&mut o, "language", JsonValue::of_string(self.language.as_str()));
        obj_push(&mut o, "code", JsonValue::of_string(self.code.as_str()));
        proof {
            assert(crate::json::jv_fields_view(o@) =~= sp_executable_code_json(self@)->Obj_0);
        }
        JsonValue::Obj(o)
    }
}

impl CodeExecutionResult {
    fn to_json(&self) -> (r: JsonValue)
        ensures
            r@ == sp_code_execution_result_json(self@),
    {
        let mut o: Vec<(String, JsonValue)> = Vec::new();
        obj_push(&mut o, "outcome", JsonValue::of_string(outcome_text(&self.outcome)));
        match &self.output {
            Some(s) => {
                obj_push(&mut o, "output", JsonValue::of_string(s.as_str()));
            },
            None => {},
        }
        proof {
            assert(crate::json::jv_fields_view(o@) =~= sp_code_execution_result_json(
                self@,
            )->Obj_0);
        }
        JsonValue::Obj(o)
    }
}

impl PartData {
    fn to_field(&self) -> (r: (String, JsonValue))
        ensures
            (r.0@, r.1@) == sp_part_data_field(self@),
    {
        match self {
            PartData::Text(s) => ("text".to_owned(), JsonValue::of_string(s.as_str())),
            PartData::InlineData(d) => ("inlineData".to_owned(), d.to_json()),
            PartData::FileData(d) => ("fileData".to_owned(), d.to_json()),
            PartData::VideoMetadata(m) => ("videoMetadata".to_owned(), m.to_json()),
            PartData::FunctionCall(c) => ("functionCall".to_owned(), c.to_json()),
            PartData::FunctionResponse(r) => ("functionResponse".to_owned(), r.to_json()),
            PartData::ExecutableCode(e) => ("executableCode".to_owned(), e.to_json()),
            PartData::CodeExecutionResult(r) => ("codeExecutionResult".to_owned(), r.to_json()),
        }
    }
}

impl Part {
    fn to_json(&self) -> (r: JsonValue)
        ensures
            r@ == sp_part_json(self@),
    {
        let mut o: Vec<(String, JsonValue)> = Vec::new();
        let f = self.data.to_field();
        let ghost gf = f;
        o.push(f);
        proof {
            assert(o@ =~= Seq::<(String, JsonValue)>::empty().push(gf));
            lemma_fields_view_push(Seq::empty(), gf.0, gf.1);
        }
        obj_push(&mut o, "thought", JsonValue::Bool(self.thought));
        proof {
            assert(crate::json::jv_fields_view(o@) =~= sp_part_json(self@)->Obj_0);
        }
        JsonValue::Obj(o)
    }
}

impl Content {
    fn to_json(&self) -> (r: JsonValue)
        ensures
            r@ == sp_content_json(self@),
    {
        let mut arr: Vec<JsonValue> = Vec::new();
        let mut i: usize = 0;
        while i < self.parts.len()
            invariant
                i <= self.parts.len(),
                arr@.len() == i,
                forall|q: int|
                    0 <= q < i ==> crate::json::jv_view(arr@[q]) == sp_part_json(
                        self.parts@[q]@,
                    ),
            decreases self.parts.len() - i,
        {
            let j = self.parts[i].to_json();
            arr.push(j);
            i = i + 1;
        }
        let mut o: Vec<(String, JsonValue)> = Vec::new();
        match &self.role {
            Some(r) => {
                obj_push(&mut o, "role", JsonValue::of_string(role_text(r)));
            },
            None => {
                obj_push(&mut o, "role", JsonValue::Null);
            },
        }
        obj_push(&mut o, "parts", JsonValue::Arr(arr));
        proof {
            crate::json::lemma_jv_elems_view_len(arr@);
            lemma_parts_view(self.parts@);
            lemma_sp_parts_json(parts_view(self.parts@));
            assert(crate::json::jv_elems_view(arr@) =~= sp_parts_json(parts_view(self.parts@)));
            assert(crate::json::jv_fields_view(o@) =~= sp_content_json(self@)->Obj_0);
        }
        JsonValue::Obj(o)
    }
}

pub proof fn lemma_sp_parts_json(s: Seq<PartV>)
    ensures
        sp_parts_json(s).len() == s.len(),
        forall|i: int| 0 <= i < s.len() ==> sp_parts_json(s)[i] == sp_part_json(s[i]),
    decreases s.len(),
{
    if s.len() > 0 {
        lemma_sp_parts_json(s.subrange(1, s.len() as int));
    }
}

pub proof fn lemma_sp_contents_json(s: Seq<ContentV>)
    ensures
        sp_contents_json(s).len() == s.len(),
        forall|i: int| 0 <= i < s.len() ==> sp_contents_json(s)[i] == sp_content_json(s[i]),
    decreases s.len(),
{
    if s.len() > 0 {
        lemma_sp_contents_json(s.subrange(1, s.len() as int));
    }
}

impl ClientContent {
    fn to_json(&self) -> (r: JsonValue)
        ensures
            r@ == sp_client_content_json(self@),
    {
        let mut arr: Vec<JsonValue> = Vec::new();
        let mut i: usize = 0;
        while i < self.turns.len()
            invariant
                i <= self.turns.len(),
                arr@.len() == i,
                forall|q: int|
                    0 <= q < i ==> crate::json::jv_view(arr@[q]) == sp_content_json(
                        self.turns@[q]@,
                    ),
            decreases self.turns.len() - i,
        {
            let j = self.turns[i].to_json();
            arr.push(j);
            i = i + 1;
        }
        let mut o: Vec<(String, JsonValue)> = Vec::new();
        obj_push(&mut o, "turns", JsonValue::Arr(arr));
        obj_push(&mut o, "turnComplete", JsonValue::Bool(self.turn_complete));
        proof {
            crate::json::lemma_jv_elems_view_len(arr@);
            lemma_contents_view(self.turns@);
            lemma_sp_contents_json(contents_view(self.turns@));
            assert(crate::json::jv_elems_view(arr@) =~= sp_contents_json(
                contents_view(self.turns@),
            ));
            assert(crate::json::jv_fields_view(o@) =~= sp_client_content_json(self@)->Obj_0);
        }
        JsonValue::Obj(o)
    }
}

pub open spec fn sp_prebuilt_voice_json(c: PrebuiltVoiceConfig) -> JVal {
    JVal::Obj(
        opt_field("voiceName"@, match c.voice_name {
            Some(s) => Some(JVal::Str(s@)),
            None => None,
        }),
    )
}

pub open spec fn sp_voice_config_json(c: VoiceConfig) -> JVal {
    JVal::Obj(seq![("prebuiltVoiceConfig"@, sp_prebuilt_voice_json(c.prebuilt_voice_config))])
}

pub open spec fn sp_speech_config_json(c: SpeechConfig) -> JVal {
    JVal::Obj(
        seq![("voiceConfig"@, sp_voice_config_json(c.voice_config))] + opt_field(
            "languageCode"@,
            match c.language_code {
                Some(s) => Some(JVal::Str(s@)),
                None => None,
            },
        ),
    )
}

pub open spec fn sp_thinking_config_json(c: ThinkingConfig) -> JVal {
    JVal::Obj(
        opt_field("includeThoughts"@, match c.include_thoughts {
            Some(b) => Some(JVal::Bool(b)),
            None => None,
        }) + opt_field("thinkingBudget"@, match c.thinking_budget {
            Some(n) => Some(JVal::Num(crate::json::int_lit(n as int))),
            None => None,
        }),
    )
}

pub open spec fn sp_retrieval_config_json(c: DynamicRetrievalConfig) -> JVal {
    JVal::Obj(
        opt_field("mode"@, match c.mode {
            Some(m) => Some(JVal::Str(sp_retrieval_mode_text(m))),
            None => None,
        }) + opt_field("dynamicThreshold"@, match c.dynamic_threshold {
            Some(n) => Some(JVal::Num(n@)),
            None => None,
        }),
    )
}

pub open spec fn sp_search_retrieval_json(c: GoogleSearchRetrieval) -> JVal {
    JVal::Obj(
        opt_field("dynamicRetrievalConfig"@, match c.dynamic_retrieval_config {
            Some(r) => Some(sp_retrieval_config_json(r)),
            None => None,
        }),
    )
}

pub open spec fn sp_calling_config_json(c: FunctionCallingConfig) -> JVal {
    JVal::Obj(
        opt_field("mode"@, match c.mode {
            Some(m) => Some(JVal::Str(sp_calling_mode_text(m))),
            None => None,
        }) + (if c.allowed_function_names@.len() == 0 {
            Seq::empty()
        } else {
            seq![
                (
                    "allowedFunctionNames"@,
                    JVal::Arr(sp_strings_json(c.allowed_function_names.deep_view())),
                ),
            ]
        }),
    )
}

pub open spec fn sp_strings_json(s: Seq<Seq<char>>) -> Seq<JVal>
    decreases s.len(),
{
    if s.len() == 0 {
        Seq::empty()
    } else {
        seq![JVal::Str(s[0])] + sp_strings_json(s.subrange(1, s.len() as int))
    }
}

pub proof fn lemma_sp_strings_json(s: Seq<Seq<char>>)
    ensures
        sp_strings_json(s).len() == s.len(),
        forall|i: int| 0 <= i < s.len() ==> sp_strings_json(s)[i] == JVal::Str(s[i]),
    decreases s.len(),
{
    if s.len() > 0 {
        lemma_sp_strings_json(s.subrange(1, s.len() as int));
    }
}

pub open spec fn sp_tool_config_json(c: ToolConfig) -> JVal {
    JVal::Obj(
        opt_field("functionCallingConfig"@, match c.function_calling_config {
            Some(f) => Some(sp_calling_config_json(f)),
            None => None,
        }),
    )
}

pub open spec fn sp_function_declaration_json(d: FunctionDeclaration) -> JVal {
    JVal::Obj(
        seq![
            ("name"@, JVal::Str(d.name@)),
            ("description"@, JVal::Str(d.description@)),
        ] + opt_field("parameters"@, match d.parameters {
            Some(v) => Some(v@),
            None => None,
        }) + opt_field("response"@, match d.response {
            Some(v) => Some(v@),
            None => None,
        }) + opt_field("behavior"@, match d.behavior {
            Some(b) => Some(JVal::Str(sp_behavior_text(b))),
            None => None,
        }),
    )
}

pub open spec fn sp_declarations_json(s: Seq<FunctionDeclaration>) -> Seq<JVal>
    decreases s.len(),
{
    if s.len() == 0 {
        Seq::empty()
    } else {
        seq![sp_function_declaration_json(s[0])] + sp_declarations_json(
            s.subrange(1, s.len() as int),
        )
    }
}

pub proof fn lemma_sp_declarations_json(s: Seq<FunctionDeclaration>)
    ensures
        sp_declarations_json(s).len() == s.len(),
        forall|i: int|
            0 <= i < s.len() ==> sp_declarations_json(s)[i] == sp_function_declaration_json(s[i]),
    decreases s.len(),
{
    if s.len() > 0 {
        lemma_sp_declarations_json(s.subrange(1, s.len() as int));
    }
}

pub open spec fn sp_tool_json(t: Tool) -> JVal {
    match t {
        Tool::FunctionDeclarations(ds) => JVal::Obj(
            if ds@.len() == 0 {
                Seq::empty()
            } else {
                seq![("functionDeclarations"@, JVal::Arr(sp_declarations_json(ds@)))]
            },
        ),
        Tool::GoogleSearchRetrieval(r) => JVal::Obj(
            seq![("googleSearchRetrieval"@, sp_search_retrieval_json(r))],
        ),
        Tool::CodeExecution(_) => JVal::Obj(seq![("codeExecution"@, JVal::Null)]),
        Tool::GoogleSearch(_) => JVal::Obj(seq![("googleSearch"@, JVal::Null)]),
    }
}

pub open spec fn sp_tools_json(s: Seq<Tool>) -> Seq<JVal>
    decreases s.len(),
{
    if s.len() == 0 {
        Seq::empty()
    } else {
        seq![sp_tool_json(s[0])] + sp_tools_json(s.subrange(1, s.len() as int))
    }
}

pub proof fn lemma_sp_tools_json(s: Seq<Tool>)
    ensures
        sp_tools_json(s).len() == s.len(),
        forall|i: int| 0 <= i < s.len() ==> sp_tools_json(s)[i] == sp_tool_json(s[i]),
    decreases s.len(),
{
    if s.len() > 0 {
        lemma_sp_tools_json(s.subrange(1, s.len() as int));
    }
}

pub open spec fn sp_modalities_json(s: Seq<ResponseModality>) -> Seq<JVal>
    decreases s.len(),
{
    if s.len() == 0 {
        Seq::empty()
    } else {
        seq![JVal::Str(sp_response_modality_text(s[0]))] + sp_modalities_json(
            s.subrange(1, s.len() as int),
        )
    }
}

pub proof fn lemma_sp_modalities_json(s: Seq<ResponseModality>)
    ensures
        sp_modalities_json(s).len() == s.len(),
        forall|i: int|
            0 <= i < s.len() ==> sp_modalities_json(s)[i] == JVal::Str(
                sp_response_modality_text(s[i]),
            ),
    decreases s.len(),
{
    if s.len() > 0 {
        lemma_sp_modalities_json(s.subrange(1, s.len() as int));
    }
}

/// The fields of a generation configuration, the first `k` of them.
pub open spec fn sp_gen_fields_upto(c: GenerationConfig, k: int) -> Seq<(Seq<char>, JVal)>
    decreases k,
{
    if k <= 0 {
        Seq::empty()
    } else {
        let s = sp_gen_fields_upto(c, k - 1);
        if k == 1 {
            match c.candidate_count {
                Some(n) => s.push(("candidateCount"@, JVal::Num(crate::json::int_lit(n as int)))),
                None => s,
            }
        } else if k == 2 {
            match c.max_output_tokens {
                Some(n) => s.push(("maxOutputTokens"@, JVal::Num(crate::json::int_lit(n as int)))),
                None => s,
            }
        } else if k == 3 {
            match c.temperature {
                Some(n) => s.push(("temperature"@, JVal::Num(n@))),
                None => s,
            }
        } else if k == 4 {
            match c.top_p {
                Some(n) => s.push(("topP"@, JVal::Num(n@))),
                None => s,
            }
        } else if k == 5 {
            match c.top_k {
                Some(n) => s.push(("topK"@, JVal::Num(crate::json::int_lit(n as int)))),
                None => s,
            }
        } else if k == 6 {
            match c.stop_sequences {
                Some(ss) => s.push(("stopSequences"@, JVal::Arr(sp_strings_json(ss.deep_view())))),
                None => s,
            }
        } else if k == 7 {
            match c.seed {
                Some(n) => s.push(("seed"@, JVal::Num(crate::json::int_lit(n as int)))),
                None => s,
            }
        } else if k == 8 {
            match c.presence_penalty {
                Some(n) => s.push(("presencePenalty"@, JVal::Num(n@))),
                None => s,
            }
        } else if k == 9 {
            match c.frequency_penalty {
                Some(n) => s.push(("frequencyPenalty"@, JVal::Num(n@))),
                None => s,
            }
        } else if k == 10 {
            match c.response_logprobs {
                Some(b) => s.push(("responseLogprobs"@, JVal::Bool(b))),
                None => s,
            }
        } else if k == 11 {
            match c.logprobs {
                Some(n) => s.push(("logprobs"@, JVal::Num(crate::json::int_lit(n as int)))),
                None => s,
            }
        } else if k == 12 {
            match c.enable_enhanced_civic_answers {
                Some(b) => s.push(("enableEnhancedCivicAnswers"@, JVal::Bool(b))),
                None => s,
            }
        } else if k == 13 {
            match c.response_modalities {
                Some(ms) => s.push(("responseModalities"@, JVal::Arr(sp_modalities_json(ms@)))),
                None => s,
            }
        } else if k == 14 {
            match c.speech_config {
                Some(sc) => s.push(("speechConfig"@, sp_speech_config_json(sc))),
                None => s,
            }
        } else if k == 15 {
            match c.thinking_config {
                Some(t) => s.push(("thinkingConfig"@, sp_thinking_config_json(t))),
                None => s,
            }
        } else if k == 16 {
            match c.media_resolution {
                Some(m) => s.push(("mediaResolution"@, JVal::Str(sp_media_resolution_text(m)))),
                None => s,
            }
        } else if k == 17 {
            match c.response_mime_type {
                Some(t) => s.push(("responseMimeType"@, JVal::Str(t@))),
                None => s,
            }
        } else if k == 18 {
            match c.response_schema {
                Some(v) => s.push(("responseSchema"@, crate::json::jv_view(v))),
                None => s,
            }
        } else {
            s
        }
    }
}

pub open spec fn sp_generation_config_fields(c: GenerationConfig) -> Seq<(Seq<char>, JVal)> {
    sp_gen_fields_upto(c, 18)
}

pub open spec fn sp_generation_config_json(c: GenerationConfig) -> JVal {
    JVal::Obj(sp_generation_config_fields(c))
}

pub open spec fn sp_activity_detection_json(c: AutomaticActivityDetection) -> JVal {
    JVal::Obj(
        opt_field("disabled"@, match c.disabled {
            Some(b) => Some(JVal::Bool(b)),
            None => None,
        }) + opt_field("startOfSpeechSensitivity"@, match c.start_of_speech_sensitivity {
            Some(s) => Some(JVal::Str(sp_start_sensitivity_text(s))),
            None => None,
        }) + opt_field("prefixPaddingMs"@, match c.prefix_padding_ms {
            Some(n) => Some(JVal::Num(crate::json::int_lit(n as int))),
            None => None,
        }) + opt_field("endOfSpeechSensitivity"@, match c.end_of_speech_sensitivity {
            Some(s) => Some(JVal::Str(sp_end_sensitivity_text(s))),
            None => None,
        }) + opt_field("silenceDurationMs"@, match c.silence_duration_ms {
            Some(n) => Some(JVal::Num(crate::json::int_lit(n as int))),
            None => None,
        }),
    )
}

pub open spec fn sp_realtime_input_config_json(c: RealtimeInputConfig) -> JVal {
    JVal::Obj(
        opt_field("automaticActivityDetection"@, match c.automatic_activity_detection {
            Some(a) => Some(sp_activity_detection_json(a)),
            None => None,
        }) + opt_field("activityHandling"@, match c.activity_handling {
            Some(a) => Some(JVal::Str(sp_activity_handling_text(a))),
            None => None,
        }) + opt_field("turnCoverage"@, match c.turn_coverage {
            Some(t) => Some(JVal::Str(sp_turn_coverage_text(t))),
            None => None,
        }),
    )
}

pub open spec fn sp_session_resumption_json(c: SessionResumptionConfig) -> JVal {
    JVal::Obj(seq![("handle"@, JVal::Str(c.handle@))])
}

pub open spec fn sp_sliding_window_json(w: SlidingWindow) -> JVal {
    JVal::Obj(seq![("targetTokens"@, JVal::Num(crate::json::int_lit(w.target_tokens as int)))])
}

pub open spec fn sp_compression_json(c: ContextWindowCompressionConfig) -> JVal {
    JVal::Obj(
        seq![("slidingWindow"@, sp_sliding_window_json(c.sliding_window))] + opt_field(
            "triggerTokens"@,
            match c.trigger_tokens {
                Some(n) => Some(JVal::Num(crate::json::int_lit(n as int))),
                None => None,
            },
        ),
    )
}

pub open spec fn sp_audio_transcription_json(c: AudioTranscriptionConfig) -> JVal {
    JVal::Obj(Seq::empty())
}

pub open spec fn sp_setup_json(s: Setup) -> JVal {
    JVal::Obj(
        seq![("model"@, JVal::Str(s.model@))] + opt_field("generationConfig"@, match s
            .generation_config {
            Some(c) => Some(sp_generation_config_json(c)),
            None => None,
        }) + opt_field("systemInstruction"@, match s.system_instruction {
            Some(c) => Some(sp_content_json(c@)),
            None => None,
        }) + opt_field("tools"@, match s.tools {
            Some(ts) => Some(JVal::Arr(sp_tools_json(ts@))),
            None => None,
        }) + opt_field("realtimeInputConfig"@, match s.realtime_input_config {
            Some(c) => Some(sp_realtime_input_config_json(c)),
            None => None,
        }) + opt_field("sessionResumption"@, match s.session_resumption {
            Some(c) => Some(sp_session_resumption_json(c)),
            None => None,
        }) + opt_field("contextWindowCompression"@, match s.context_window_compression {
            Some(c) => Some(sp_compression_json(c)),
            None => None,
        }) + opt_field("outputAudioTranscription"@, match s.output_audio_transcription {
            Some(c) => Some(sp_audio_transcription_json(c)),
            None => None,
        }),
    )
}

pub open spec fn sp_realtime_input_json(m: RealtimeInput) -> JVal {
    match m {
        RealtimeInput::Text(s) => JVal::Obj(seq![("text"@, JVal::Str(s@))]),
        RealtimeInput::Audio(d) => JVal::Obj(seq![("audio"@, sp_inline_data_json(d@))]),
        RealtimeInput::Video(d) => JVal::Obj(seq![("video"@, sp_inline_data_json(d@))]),
        RealtimeInput::StartActivity(_) => JVal::Obj(seq![("startActivity"@, JVal::Null)]),
        RealtimeInput::EndActivity(_) => JVal::Obj(seq![("endActivity"@, JVal::Null)]),
        RealtimeInput::AudioStreamEnd(b) => JVal::Obj(seq![("audioStreamEnd"@, JVal::Bool(b))]),
    }
}

pub open spec fn sp_responses_json(s: Seq<FunctionResponseV>) -> Seq<JVal>
    decreases s.len(),
{
    if s.len() == 0 {
        Seq::empty()
    } else {
        seq![sp_function_response_json(s[0])] + sp_responses_json(s.subrange(1, s.len() as int))
    }
}

pub proof fn lemma_sp_responses_json(s: Seq<FunctionResponseV>)
    ensures
        sp_responses_json(s).len() == s.len(),
        forall|i: int|
            0 <= i < s.len() ==> sp_responses_json(s)[i] == sp_function_response_json(s[i]),
    decreases s.len(),
{
    if s.len() > 0 {
        lemma_sp_responses_json(s.subrange(1, s.len() as int));
    }
}

pub open spec fn responses_view(s: Seq<FunctionResponse>) -> Seq<FunctionResponseV>
    decreases s.len(),
{
    if s.len() == 0 {
        Seq::empty()
    } else {
        seq![s[0]@] + responses_view(s.subrange(1, s.len() as int))
    }
}

pub proof fn lemma_responses_view(s: Seq<FunctionResponse>)
    ensures
        responses_view(s).len() == s.len(),
        forall|i: int| 0 <= i < s.len() ==> responses_view(s)[i] == s[i]@,
    decreases s.len(),
{
    if s.len() > 0 {
        lemma_responses_view(s.subrange(1, s.len() as int));
    }
}

pub open spec fn sp_tool_response_json(t: ToolResponse) -> JVal {
    JVal::Obj(
        seq![
            (
                "functionResponses"@,
                JVal::Arr(sp_responses_json(responses_view(t.function_responses@))),
            ),
        ],
    )
}

/// The JSON a whole outbound envelope becomes.
pub open spec fn sp_client_message_json(m: ClientMessage) -> JVal {
    match m {
        ClientMessage::Setup(s) => JVal::Obj(seq![("setup"@, sp_setup_json(s))]),
        ClientMessage::ClientContent(c) => JVal::Obj(
            seq![("clientContent"@, sp_client_content_json(c@))],
        ),
        ClientMessage::RealtimeInput(r) => JVal::Obj(
            seq![("realtimeInput"@, sp_realtime_input_json(r))],
        ),
        ClientMessage::ToolResponse(t) => JVal::Obj(
            seq![("toolResponse"@, sp_tool_response_json(t))],
        ),
    }
}

/// The exact text of one outbound frame.
pub open spec fn sp_encode_client_message(m: ClientMessage) -> Seq<char> {
    crate::json::jtext(sp_client_message_json(m))
}

fn strings_to_json(ss: &Vec<String>) -> (r: Vec<JsonValue>)
    ensures
        crate::json::jv_elems_view(r@) == sp_strings_json(ss.deep_view()),
{
    let mut out: Vec<JsonValue> = Vec::new();
    let mut i: usize = 0;
    while i < ss.len()
        invariant
            i <= ss.len(),
            out@.len() == i,
            forall|q: int|
                0 <= q < i ==> crate::json::jv_view(out@[q]) == JVal::Str(ss@[q]@),
        decreases ss.len() - i,
    {
        out.push(JsonValue::of_string(ss[i].as_str()));
        i = i + 1;
    }
    proof {
        crate::json::lemma_jv_elems_view_len(out@);
        lemma_sp_strings_json(ss.deep_view());
        assert(ss.deep_view().len() == ss@.len());
        assert(forall|q: int| 0 <= q < ss@.len() ==> ss.deep_view()[q] == ss@[q]@);
        assert(crate::json::jv_elems_view(out@) =~= sp_strings_json(ss.deep_view()));
    }
    out
}

impl PrebuiltVoiceConfig {
    fn to_json(&self) -> (r: JsonValue)
        ensures
            r@ == sp_prebuilt_voice_json(*self),
    {
        let mut o: Vec<(String, JsonValue)> = Vec::new();
        match &self.voice_name {
            Some(s) => {
                obj_push(&mut o, "voiceName", JsonValue::of_string(s.as_str()));
            },
            None => {},
        }
        proof {
            assert(crate::json::jv_fields_view(o@) =~= sp_prebuilt_voice_json(*self)->Obj_0);
        }
        JsonValue::Obj(o)
    }
}

impl VoiceConfig {
    fn to_json(&self) -> (r: JsonValue)
        ensures
            r@ == sp_voice_config_json(*self),
    {
        let mut o: Vec<(String, JsonValue)> = Vec::new();
        obj_push(&mut o, "prebuiltVoiceConfig", self.prebuilt_voice_config.to_json());
        proof {
            assert(crate::json::jv_fields_view(o@) =~= sp_voice_config_json(*self)->Obj_0);
        }
        JsonValue::Obj(o)
    }
}

impl SpeechConfig {
    fn to_json(&self) -> (r: JsonValue)
        ensures
            r@ == sp_speech_config_json(*self),
    {
        let mut o: Vec<(String, JsonValue)> = Vec::new();
        obj_push(&mut o, "voiceConfig", self.voice_config.to_json());
        match &self.language_code {
            Some(s) => {
                obj_push(&mut o, "languageCode", JsonValue::of_string(s.as_str()));
            },
            None => {},
        }
        proof {
            assert(crate::json::jv_fields_view(o@) =~= sp_speech_config_json(*self)->Obj_0);
        }
        JsonValue::Obj(o)
    }
}

impl ThinkingConfig {
    fn to_json(&self) -> (r: JsonValue)
        ensures
            r@ == sp_thinking_config_json(*self),
    {
        let mut o: Vec<(String, JsonValue)> = Vec::new();
        match self.include_thoughts {
            Some(b) => {
                obj_push(&mut o, "includeThoughts", JsonValue::Bool(b));
            },
            None => {},
        }
        match self.thinking_budget {
            Some(n) => {
                obj_push(&mut o, "thinkingBudget", JsonValue::of_i64(n as i64));
            },
            None => {},
        }
        proof {
            assert(crate::json::jv_fields_view(o@) =~= sp_thinking_config_json(*self)->Obj_0);
        }
        JsonValue::Obj(o)
    }
}

impl DynamicRetrievalConfig {
    fn to_json(&self) -> (r: JsonValue)
        ensures
            r@ == sp_retrieval_config_json(*self),
    {
        let mut o: Vec<(String, JsonValue)> = Vec::new();
        match &self.mode {
            Some(m) => {
                let t: &'static str = match m {
                    DynamicRetrievalMode::Unspecified => "MODE_UNSPECIFIED",
                    DynamicRetrievalMode::Dynamic => "MODE_DYNAMIC",
                };
                obj_push(&mut o, "mode", JsonValue::of_string(t));
            },
            None => {},
        }
        match &self.dynamic_threshold {
            Some(n) => {
                obj_push(&mut o, "dynamicThreshold", JsonValue::Num(n.clone()));
            },
            None => {},
        }
        proof {
            assert(crate::json::jv_fields_view(o@) =~= sp_retrieval_config_json(*self)->Obj_0);
        }
        JsonValue::Obj(o)
    }
}

impl GoogleSearchRetrieval {
    fn to_json(&self) -> (r: JsonValue)
        ensures
            r@ == sp_search_retrieval_json(*self),
    {
        let mut o: Vec<(String, JsonValue)> = Vec::new();
        match &self.dynamic_retrieval_config {
            Some(c) => {
                obj_push(&mut o, "dynamicRetrievalConfig", c.to_json());
            },
            None => {},
        }
        proof {
            assert(crate::json::jv_fields_view(o@) =~= sp_search_retrieval_json(*self)->Obj_0);
        }
        JsonValue::Obj(o)
    }
}

impl FunctionCallingConfig {
    fn to_json(&self) -> (r: JsonValue)
        ensures
            r@ == sp_calling_config_json(*self),
    {
        let mut o: Vec<(String, JsonValue)> = Vec::new();
        match &self.mode {
            Some(m) => {
                let t: &'static str = match m {
                    FunctionCallingMode::Unspecified => "MODE_UNSPECIFIED",
                    FunctionCallingMode::Auto => "AUTO",
                    FunctionCallingMode::Any => "ANY",
                    FunctionCallingMode::Disabled => "NONE",
                    FunctionCallingMode::Validated => "VALIDATED",
                };
                obj_push(&mut o, "mode", JsonValue::of_string(t));
            },
            None => {},
        }
        if self.allowed_function_names.len() > 0 {
            let arr = strings_to_json(&self.allowed_function_names);
            obj_push(&mut o, "allowedFunctionNames", JsonValue::Arr(arr));
        }
        proof {
            assert(crate::json::jv_fields_view(o@) =~= sp_calling_config_json(*self)->Obj_0);
        }
        JsonValue::Obj(o)
    }
}

impl ToolConfig {
    /// This configuration as protocol JSON.
    pub fn to_json(&self) -> (r: JsonValue)
        ensures
            r@ == sp_tool_config_json(*self),
    {
        let mut o: Vec<(String, JsonValue)> = Vec::new();
        match &self.function_calling_config {
            Some(c) => {
                obj_push(&mut o, "functionCallingConfig", c.to_json());
            },
            None => {},
        }
        proof {
            assert(crate::json::jv_fields_view(o@) =~= sp_tool_config_json(*self)->Obj_0);
        }
        JsonValue::Obj(o)
    }
}

impl FunctionDeclaration {
    pub fn new(name: &str) -> (r: FunctionDeclaration)
        ensures
            r.name@ == name@,
            r.description@ == Seq::<char>::empty(),
            r.parameters is None,
            r.response is None,
            r.behavior is None,
    {
        FunctionDeclaration {
            name: name.to_owned(),
            description: String::new(),
            parameters: None,
            response: None,
            behavior: None,
        }
    }

    fn to_json(&self) -> (r: JsonValue)
        ensures
            r@ == sp_function_declaration_json(*self),
    {
        let mut o: Vec<(String, JsonValue)> = Vec::new();
        obj_push(&mut o, "name", JsonValue::of_string(self.name.as_str()));
        obj_push(&mut o, "description", JsonValue::of_string(self.description.as_str()));
        match &self.parameters {
            Some(v) => {
                obj_push(&mut o, "parameters", v.clone());
            },
            None => {},
        }
        match &self.response {
            Some(v) => {
                obj_push(&mut o, "response", v.clone());
            },
            None => {},
        }
        match &self.behavior {
            Some(b) => {
                let t: &'static str = match b {
                    FunctionBehavior::Blocking => "BLOCKING",
                    FunctionBehavior::NonBlocking => "NON_BLOCKING",
                };
                obj_push(&mut o, "behavior", JsonValue::of_string(t));
            },
            None => {},
        }
        proof {
            assert(crate::json::jv_fields_view(o@) =~= sp_function_declaration_json(*self)->Obj_0);
        }
        JsonValue::Obj(o)
    }
}

impl Tool {
    fn to_json(&self) -> (r: JsonValue)
        ensures
            r@ == sp_tool_json(*self),
    {
        match self {
            Tool::FunctionDeclarations(ds) => {
                let mut o: Vec<(String, JsonValue)> = Vec::new();
                if ds.len() > 0 {
                    let mut arr: Vec<JsonValue> = Vec::new();
                    let mut i: usize = 0;
                    while i < ds.len()
                        invariant
                            i <= ds.len(),
                            arr@.len() == i,
                            forall|q: int|
                                0 <= q < i ==> crate::json::jv_view(arr@[q])
                                    == sp_function_declaration_json(ds@[q]),
                        decreases ds.len() - i,
                    {
                        let j = ds[i].to_json();
                        arr.push(j);
                        i = i + 1;
                    }
                    proof {
                        crate::json::lemma_jv_elems_view_len(arr@);
                        lemma_sp_declarations_json(ds@);
                        assert(crate::json::jv_elems_view(arr@) =~= sp_declarations_json(ds@));
                    }
                    obj_push(&mut o, "functionDeclarations", JsonValue::Arr(arr));
                }
                proof {
                    assert(crate::json::jv_fields_view(o@) =~= sp_tool_json(*self)->Obj_0);
                }
                JsonValue::Obj(o)
            },
            Tool::GoogleSearchRetrieval(r) => {
                let mut o: Vec<(String, JsonValue)> = Vec::new();
                obj_push(&mut o, "googleSearchRetrieval", r.to_json());
                proof {
                    assert(crate::json::jv_fields_view(o@) =~= sp_tool_json(*self)->Obj_0);
                }
                JsonValue::Obj(o)
            },
            Tool::CodeExecution(_) => {
                let mut o: Vec<(String, JsonValue)> = Vec::new();
                obj_push(&mut o, "codeExecution", JsonValue::Null);
                proof {
                    assert(crate::json::jv_fields_view(o@) =~= sp_tool_json(*self)->Obj_0);
                }
                JsonValue::Obj(o)
            },
            Tool::GoogleSearch(_) => {
                let mut o: Vec<(String, JsonValue)> = Vec::new();
                obj_push(&mut o, "googleSearch", JsonValue::Null);
                proof {
                    assert(crate::json::jv_fields_view(o@) =~= sp_tool_json(*self)->Obj_0);
                }
                JsonValue::Obj(o)
            },
        }
    }
}

impl GenerationConfig {
    /// Appends the first nine fields, in declaration order.
    fn push_fields_front(&self, o: &mut Vec<(String, JsonValue)>)
        requires
            old(o)@.len() == 0,
        ensures
            crate::json::jv_fields_view(final(o)@) == sp_gen_fields_upto(*self, 9),
    {
        proof {
            assert(crate::json::jv_fields_view(o@) =~= Seq::<(Seq<char>, JVal)>::empty());
        }
        match self.candidate_count {
            Some(n) => {
                obj_push(o, "candidateCount", JsonValue::of_u64(n as u64));
            },
            None => {},
        }
                proof {
            assert(sp_gen_fields_upto(*self, 0) == Seq::<(Seq<char>, JVal)>::empty());
            assert(crate::json::jv_fields_view(o@) == sp_gen_fields_upto(*self, 1));
        }
match self.max_output_tokens {
            Some(n) => {
                obj_push(o, "maxOutputTokens", JsonValue::of_u64(n as u64));
            },
            None => {},
        }
                proof {
            assert(crate::json::jv_fields_view(o@) == sp_gen_fields_upto(*self, 2));
        }
match &self.temperature {
            Some(n) => {
                obj_push(o, "temperature", JsonValue::Num(n.clone()));
            },
            None => {},
        }
                proof {
            assert(crate::json::jv_fields_view(o@) == sp_gen_fields_upto(*self, 3));
        }
match &self.top_p {
            Some(n) => {
                obj_push(o, "topP", JsonValue::Num(n.clone()));
            },
            None => {},
        }
                proof {
            assert(crate::json::jv_fields_view(o@) == sp_gen_fields_upto(*self, 4));
        }
match self.top_k {
            Some(n) => {
                obj_push(o, "topK", JsonValue::of_u64(n as u64));
            },
            None => {},
        }
                proof {
            assert(crate::json::jv_fields_view(o@) == sp_gen_fields_upto(*self, 5));
        }
match &self.stop_sequences {
            Some(ss) => {
                let arr = strings_to_json(ss);
                obj_push(o, "stopSequences", JsonValue::Arr(arr));
            },
            None => {},
        }
                proof {
            assert(crate::json::jv_fields_view(o@) == sp_gen_fields_upto(*self, 6));
        }
match self.seed {
            Some(n) => {
                obj_push(o, "seed", JsonValue::of_i64(n as i64));
            },
            None => {},
        }
                proof {
            assert(crate::json::jv_fields_view(o@) == sp_gen_fields_upto(*self, 7));
        }
match &self.presence_penalty {
            Some(n) => {
                obj_push(o, "presencePenalty", JsonValue::Num(n.clone()));
            },
            None => {},
        }
                proof {
            assert(crate::json::jv_fields_view(o@) == sp_gen_fields_upto(*self, 8));
        }
match &self.frequency_penalty {
            Some(n) => {
                obj_push(o, "frequencyPenalty", JsonValue::Num(n.clone()));
            },
            None => {},
        }
                proof {
            assert(crate::json::jv_fields_view(o@) == sp_gen_fields_upto(*self, 9));
        }
    }

    /// Appends fields ten to fourteen, in declaration order.
    fn push_fields_mid(&self, o: &mut Vec<(String, JsonValue)>)
        requires
            crate::json::jv_fields_view(old(o)@) == sp_gen_fields_upto(*self, 9),
        ensures
            crate::json::jv_fields_view(final(o)@) == sp_gen_fields_upto(*self, 13),
    {
        match self.response_logprobs {
            Some(b) => {
                obj_push(o, "responseLogprobs", JsonValue::Bool(b));
            },
            None => {},
        }
                proof {
            assert(crate::json::jv_fields_view(o@) == sp_gen_fields_upto(*self, 10));
        }
match self.logprobs {
            Some(n) => {
                obj_push(o, "logprobs", JsonValue::of_i64(n as i64));
            },
            None => {},
        }
                proof {
            assert(crate::json::jv_fields_view(o@) == sp_gen_fields_upto(*self, 11));
        }
match self.enable_enhanced_civic_answers {
            Some(b) => {
                obj_push(o, "enableEnhancedCivicAnswers", JsonValue::Bool(b));
            },
            None => {},
        }
                proof {
            assert(crate::json::jv_fields_view(o@) == sp_gen_fields_upto(*self, 12));
        }
match &self.response_modalities {
            Some(ms) => {
                let mut arr: Vec<JsonValue> = Vec::new();
                let mut i: usize = 0;
                while i < ms.len()
                    invariant
                        i <= ms.len(),
                        arr@.len() == i,
                        forall|q: int|
                            0 <= q < i ==> crate::json::jv_view(arr@[q]) == JVal::Str(
                                sp_response_modality_text(ms@[q]),
                            ),
                    decreases ms.len() - i,
                {
                    let t: &'static str = match ms[i] {
                        ResponseModality::Text => "text",
                        ResponseModality::Audio => "audio",
                    };
                    arr.push(JsonValue::of_string(t));
                    i = i + 1;
                }
                proof {
                    crate::json::lemma_jv_elems_view_len(arr@);
                    lemma_sp_modalities_json(ms@);
                    assert(crate::json::jv_elems_view(arr@) =~= sp_modalities_json(ms@));
                }
                obj_push(o, "responseModalities", JsonValue::Arr(arr));
            },
            None => {},
        }
                proof {
            assert(crate::json::jv_fields_view(o@) == sp_gen_fields_upto(*self, 13));
        }
    }

    /// Appends the last five fields, in declaration order.
    fn push_fields_back(&self, o: &mut Vec<(String, JsonValue)>)
        requires
            crate::json::jv_fields_view(old(o)@) == sp_gen_fields_upto(*self, 13),
        ensures
            crate::json::jv_fields_view(final(o)@) == sp_gen_fields_upto(*self, 18),
    {
        match &self.speech_config {
            Some(s) => {
                obj_push(o, "speechConfig", s.to_json());
            },
            None => {},
        }
                proof {
            assert(crate::json::jv_fields_view(o@) == sp_gen_fields_upto(*self, 14));
        }
match &self.thinking_config {
            Some(t) => {
                obj_push(o, "thinkingConfig", t.to_json());
            },
            None => {},
        }
                proof {
            assert(crate::json::jv_fields_view(o@) == sp_gen_fields_upto(*self, 15));
        }
match &self.media_resolution {
            Some(m) => {
                let t: &'static str = match m {
                    MediaResolution::Unspecified => "MEDIA_RESOLUTION_UNSPECIFIED",
                    MediaResolution::Low => "MEDIA_RESOLUTION_LOW",
                    MediaResolution::Medium => "MEDIA_RESOLUTION_MEDIUM",
                    MediaResolution::High => "MEDIA_RESOLUTION_HIGH",
                };
                obj_push(o, "mediaResolution", JsonValue::of_string(t));
            },
            None => {},
        }
                proof {
            assert(crate::json::jv_fields_view(o@) == sp_gen_fields_upto(*self, 16));
        }
match &self.response_mime_type {
            Some(s) => {
                obj_push(o, "responseMimeType", JsonValue::of_string(s.as_str()));
            },
            None => {},
        }
                proof {
            assert(crate::json::jv_fields_view(o@) == sp_gen_fields_upto(*self, 17));
        }
match &self.response_schema {
            Some(v) => {
                obj_push(o, "responseSchema", v.clone());
            },
            None => {},
        }
        proof {
            assert(crate::json::jv_fields_view(o@) == sp_gen_fields_upto(*self, 18));
        }
    }

    fn to_json(&self) -> (r: JsonValue)
        ensures
            r@ == sp_generation_config_json(*self),
    {
        let mut o: Vec<(String, JsonValue)> = Vec::new();
        self.push_fields_front(&mut o);
        self.push_fields_mid(&mut o);
        self.push_fields_back(&mut o);
        JsonValue::Obj(o)
    }
}

impl AutomaticActivityDetection {
    fn to_json(&self) -> (r: JsonValue)
        ensures
            r@ == sp_activity_detection_json(*self),
    {
        let mut o: Vec<(String, JsonValue)> = Vec::new();
        match self.disabled {
            Some(b) => {
                obj_push(&mut o, "disabled", JsonValue::Bool(b));
            },
            None => {},
        }
        match &self.start_of_speech_sensitivity {
            Some(s) => {
                let t: &'static str = match s {
                    StartSensitivity::Unspecified => "START_SENSITIVITY_UNSPECIFIED",
                    StartSensitivity::High => "START_SENSITIVITY_HIGH",
                    StartSensitivity::Low => "START_SENSITIVITY_LOW",
                };
                obj_push(&mut o, "startOfSpeechSensitivity", JsonValue::of_string(t));
            },
            None => {},
        }
        match self.prefix_padding_ms {
            Some(n) => {
                obj_push(&mut o, "prefixPaddingMs", JsonValue::of_i64(n as i64));
            },
            None => {},
        }
        match &self.end_of_speech_sensitivity {
            Some(s) => {
                let t: &'static str = match s {
                    EndSensitivity::Unspecified => "END_SENSITIVITY_UNSPECIFIED",
                    EndSensitivity::High => "END_SENSITIVITY_HIGH",
                    EndSensitivity::Low => "END_SENSITIVITY_LOW",
                };
                obj_push(&mut o, "endOfSpeechSensitivity", JsonValue::of_string(t));
            },
            None => {},
        }
        match self.silence_duration_ms {
            Some(n) => {
                obj_push(&mut o, "silenceDurationMs", JsonValue::of_i64(n as i64));
            },
            None => {},
        }
        proof {
            assert(crate::json::jv_fields_view(o@) =~= sp_activity_detection_json(*self)->Obj_0);
        }
        JsonValue::Obj(o)
    }
}

impl RealtimeInputConfig {
    /// This configuration as protocol JSON.
    pub fn to_json(&self) -> (r: JsonValue)
        ensures
            r@ == sp_realtime_input_config_json(*self),
    {
        let mut o: Vec<(String, JsonValue)> = Vec::new();
        match &self.automatic_activity_detection {
            Some(a) => {
                obj_push(&mut o, "automaticActivityDetection", a.to_json());
            },
            None => {},
        }
        match &self.activity_handling {
            Some(a) => {
                let t: &'static str = match a {
                    ActivityHandling::Unspecified => "ACTIVITY_HANDLING_UNSPECIFIED",
                    ActivityHandling::StartOfActivityInterrupts => "START_OF_ACTIVITY_INTERRUPTS",
                    ActivityHandling::NoInterruption => "NO_INTERRUPTION",
                };
                obj_push(&mut o, "activityHandling", JsonValue::of_string(t));
            },
            None => {},
        }
        match &self.turn_coverage {
            Some(t) => {
                let s: &'static str = match t {
                    TurnCoverage::Unspecified => "TURN_COVERAGE_UNSPECIFIED",
                    TurnCoverage::OnlyActivity => "TURN_INCLUDES_ONLY_ACTIVITY",
                    TurnCoverage::AllInput => "TURN_INCLUDES_ALL_INPUT",
                };
                obj_push(&mut o, "turnCoverage", JsonValue::of_string(s));
            },
            None => {},
        }
        proof {
            assert(crate::json::jv_fields_view(o@) =~= sp_realtime_input_config_json(
                *self,
            )->Obj_0);
        }
        JsonValue::Obj(o)
    }
}

impl Setup {
    fn to_json(&self) -> (r: JsonValue)
        ensures
            r@ == sp_setup_json(*self),
    {
        let mut o: Vec<(String, JsonValue)> = Vec::new();
        obj_push(&mut o, "model", JsonValue::of_string(self.model.as_str()));
        match &self.generation_config {
            Some(c) => {
                obj_push(&mut o, "generationConfig", c.to_json());
            },
            None => {},
        }
        match &self.system_instruction {
            Some(c) => {
                obj_push(&mut o, "systemInstruction", c.to_json());
            },
            None => {},
        }
        match &self.tools {
            Some(ts) => {
                let mut arr: Vec<JsonValue> = Vec::new();
                let mut i: usize = 0;
                while i < ts.len()
                    invariant
                        i <= ts.len(),
                        arr@.len() == i,
                        forall|q: int|
                            0 <= q < i ==> crate::json::jv_view(arr@[q]) == sp_tool_json(ts@[q]),
                    decreases ts.len() - i,
                {
                    let j = ts[i].to_json();
                    arr.push(j);
                    i = i + 1;
                }
                proof {
                    crate::json::lemma_jv_elems_view_len(arr@);
                    lemma_sp_tools_json(ts@);
                    assert(crate::json::jv_elems_view(arr@) =~= sp_tools_json(ts@));
                }
                obj_push(&mut o, "tools", JsonValue::Arr(arr));
            },
            None => {},
        }
        match &self.realtime_input_config {
            Some(c) => {
                obj_push(&mut o, "realtimeInputConfig", c.to_json());
            },
            None => {},
        }
        match &self.session_resumption {
            Some(c) => {
                let mut so: Vec<(String, JsonValue)> = Vec::new();
                obj_push(&mut so, "handle", JsonValue::of_string(c.handle.as_str()));
                proof {
                    assert(crate::json::jv_fields_view(so@) =~= sp_session_resumption_json(
                        *c,
                    )->Obj_0);
                }
                obj_push(&mut o, "sessionResumption", JsonValue::Obj(so));
            },
            None => {},
        }
        match &self.context_window_compression {
            Some(c) => {
                let mut wo: Vec<(String, JsonValue)> = Vec::new();
                obj_push(&mut wo, "targetTokens", JsonValue::of_i64(c.sliding_window.target_tokens));
                proof {
                    assert(crate::json::jv_fields_view(wo@) =~= sp_sliding_window_json(
                        c.sliding_window,
                    )->Obj_0);
                }
                let mut co: Vec<(String, JsonValue)> = Vec::new();
                obj_push(&mut co, "slidingWindow", JsonValue::Obj(wo));
                match c.trigger_tokens {
                    Some(n) => {
                        obj_push(&mut co, "triggerTokens", JsonValue::of_i64(n));
                    },
                    None => {},
                }
                proof {
                    assert(crate::json::jv_fields_view(co@) =~= sp_compression_json(*c)->Obj_0);
                }
                obj_push(&mut o, "contextWindowCompression", JsonValue::Obj(co));
            },
            None => {},
        }
        match &self.output_audio_transcription {
            Some(c) => {
                let eo: Vec<(String, JsonValue)> = Vec::new();
                proof {
                    assert(crate::json::jv_fields_view(eo@) =~= sp_audio_transcription_json(
                        *c,
                    )->Obj_0);
                }
                obj_push(&mut o, "outputAudioTranscription", JsonValue::Obj(eo));
            },
            None => {},
        }
        proof {
            assert(crate::json::jv_fields_view(o@) =~= sp_setup_json(*self)->Obj_0);
        }
        JsonValue::Obj(o)
    }
}

impl Setup {
    fn to_json_with_resumption(&self, handle: &Option<String>) -> (r: JsonValue)
        ensures
            r@ == sp_setup_json(sp_merged_setup(*self, *handle)),
    {
        let mut o: Vec<(String, JsonValue)> = Vec::new();
        obj_push(&mut o, "model", JsonValue::of_string(self.model.as_str()));
        match &self.generation_config {
            Some(c) => {
                obj_push(&mut o, "generationConfig", c.to_json());
            },
            None => {},
        }
        match &self.system_instruction {
            Some(c) => {
                obj_push(&mut o, "systemInstruction", c.to_json());
            },
            None => {},
        }
        match &self.tools {
            Some(ts) => {
                let mut arr: Vec<JsonValue> = Vec::new();
                let mut i: usize = 0;
                while i < ts.len()
                    invariant
                        i <= ts.len(),
                        arr@.len() == i,
                        forall|q: int|
                            0 <= q < i ==> crate::json::jv_view(arr@[q]) == sp_tool_json(ts@[q]),
                    decreases ts.len() - i,
                {
                    let j = ts[i].to_json();
                    arr.push(j);
                    i = i + 1;
                }
                proof {
                    crate::json::lemma_jv_elems_view_len(arr@);
                    lemma_sp_tools_json(ts@);
                    assert(crate::json::jv_elems_view(arr@) =~= sp_tools_json(ts@));
                }
                obj_push(&mut o, "tools", JsonValue::Arr(arr));
            },
            None => {},
        }
        match &self.realtime_input_config {
            Some(c) => {
                obj_push(&mut o, "realtimeInputConfig", c.to_json());
            },
            None => {},
        }
        match handle {
            Some(h) => {
                let mut so: Vec<(String, JsonValue)> = Vec::new();
                obj_push(&mut so, "handle", JsonValue::of_string(h.as_str()));
                proof {
                    assert(crate::json::jv_fields_view(so@) =~= sp_session_resumption_json(
                        sp_merged_setup(*self, *handle).session_resumption->Some_0,
                    )->Obj_0);
                }
                obj_push(&mut o, "sessionResumption", JsonValue::Obj(so));
            },
            None => {
                match &self.session_resumption {
                    Some(c) => {
                        let mut so: Vec<(String, JsonValue)> = Vec::new();
                        obj_push(&mut so, "handle", JsonValue::of_string(c.handle.as_str()));
                        proof {
                            assert(crate::json::jv_fields_view(
                                so@,
                            ) =~= sp_session_resumption_json(*c)->Obj_0);
                        }
                        obj_push(&mut o, "sessionResumption", JsonValue::Obj(so));
                    },
                    None => {},
                }
            },
        }
        match &self.context_window_compression {
            Some(c) => {
                let mut wo: Vec<(String, JsonValue)> = Vec::new();
                obj_push(&mut wo, "targetTokens", JsonValue::of_i64(c.sliding_window.target_tokens));
                proof {
                    assert(crate::json::jv_fields_view(wo@) =~= sp_sliding_window_json(
                        c.sliding_window,
                    )->Obj_0);
                }
                let mut co: Vec<(String, JsonValue)> = Vec::new();
                obj_push(&mut co, "slidingWindow", JsonValue::Obj(wo));
                match c.trigger_tokens {
                    Some(n) => {
                        obj_push(&mut co, "triggerTokens", JsonValue::of_i64(n));
                    },
                    None => {},
                }
                proof {
                    assert(crate::json::jv_fields_view(co@) =~= sp_compression_json(*c)->Obj_0);
                }
                obj_push(&mut o, "contextWindowCompression", JsonValue::Obj(co));
            },
            None => {},
        }
        match &self.output_audio_transcription {
            Some(c) => {
                let eo: Vec<(String, JsonValue)> = Vec::new();
                proof {
                    assert(crate::json::jv_fields_view(eo@) =~= sp_audio_transcription_json(
                        *c,
                    )->Obj_0);
                }
                obj_push(&mut o, "outputAudioTranscription", JsonValue::Obj(eo));
            },
            None => {},
        }
        proof {
            assert(crate::json::jv_fields_view(o@) =~= sp_setup_json(
                sp_merged_setup(*self, *handle),
            )->Obj_0);
        }
        JsonValue::Obj(o)
    }
}

impl RealtimeInput {
    fn to_json(&self) -> (r: JsonValue)
        ensures
            r@ == sp_realtime_input_json(*self),
    {
        let mut o: Vec<(String, JsonValue)> = Vec::new();
        match self {
            RealtimeInput::Text(s) => {
                obj_push(&mut o, "text", JsonValue::of_string(s.as_str()));
            },
            RealtimeInput::Audio(d) => {
                obj_push(&mut o, "audio", d.to_json());
            },
            RealtimeInput::Video(d) => {
                obj_push(&mut o, "video", d.to_json());
            },
            RealtimeInput::StartActivity(_) => {
                obj_push(&mut o, "startActivity", JsonValue::Null);
            },
            RealtimeInput::EndActivity(_) => {
                obj_push(&mut o, "endActivity", JsonValue::Null);
            },
            RealtimeInput::AudioStreamEnd(b) => {
                obj_push(&mut o, "audioStreamEnd", JsonValue::Bool(*b));
            },
        }
        proof {
            assert(crate::json::jv_fields_view(o@) =~= sp_realtime_input_json(*self)->Obj_0);
        }
        JsonValue::Obj(o)
    }
}

impl ToolResponse {
    fn to_json(&self) -> (r: JsonValue)
        ensures
            r@ == sp_tool_response_json(*self),
    {
        let mut arr: Vec<JsonValue> = Vec::new();
        let mut i: usize = 0;
        while i < self.function_responses.len()
            invariant
                i <= self.function_responses.len(),
                arr@.len() == i,
                forall|q: int|
                    0 <= q < i ==> crate::json::jv_view(arr@[q]) == sp_function_response_json(
                        self.function_responses@[q]@,
                    ),
            decreases self.function_responses.len() - i,
        {
            let j = self.function_responses[i].to_json();
            arr.push(j);
            i = i + 1;
        }
        let mut o: Vec<(String, JsonValue)> = Vec::new();
        obj_push(&mut o, "functionResponses", JsonValue::Arr(arr));
        proof {
            crate::json::lemma_jv_elems_view_len(arr@);
            lemma_responses_view(self.function_responses@);
            lemma_sp_responses_json(responses_view(self.function_responses@));
            assert(crate::json::jv_elems_view(arr@) =~= sp_responses_json(
                responses_view(self.function_responses@),
            ));
            assert(crate::json::jv_fields_view(o@) =~= sp_tool_response_json(*self)->Obj_0);
        }
        JsonValue::Obj(o)
    }
}

impl ClientMessage {
    /// The JSON value this outbound envelope becomes.
    pub fn to_json(&self) -> (r: JsonValue)
        ensures
            r@ == sp_client_message_json(*self),
    {
        let mut o: Vec<(String, JsonValue)> = Vec::new();
        match self {
            ClientMessage::Setup(s) => {
                obj_push(&mut o, "setup", s.to_json());
            },
            ClientMessage::ClientContent(c) => {
                obj_push(&mut o, "clientContent", c.to_json());
            },
            ClientMessage::RealtimeInput(r) => {
                obj_push(&mut o, "realtimeInput", r.to_json());
            },
            ClientMessage::ToolResponse(t) => {
                obj_push(&mut o, "toolResponse", t.to_json());
            },
        }
        proof {
            assert(crate::json::jv_fields_view(o@) =~= sp_client_message_json(*self)->Obj_0);
        }
        JsonValue::Obj(o)
    }
}

/// Encodes one outbound envelope to its wire text frame. Never fails for
/// values of these types.
pub fn encode_client_message(m: &ClientMessage) -> (r: String)
    ensures
        r@ == sp_encode_client_message(*m),
{
    m.to_json().to_text()
}

/// The setup that opens a connection: the configured one, with the stored
/// resumption handle put in its place when one is held.
pub open spec fn sp_merged_setup(s: Setup, h: Option<String>) -> Setup {
    match h {
        Some(hh) => Setup {
            session_resumption: Some(SessionResumptionConfig { handle: hh }),
            ..s
        },
        None => s,
    }
}

/// Encodes the setup frame that opens a connection, with the stored
/// resumption handle merged in.
pub fn encode_setup_frame(s: &Setup, handle: &Option<String>) -> (r: String)
    ensures
        r@ == sp_encode_client_message(
            ClientMessage::Setup(sp_merged_setup(*s, *handle)),
        ),
{
    let j = s.to_json_with_resumption(handle);
    let mut o: Vec<(String, JsonValue)> = Vec::new();
    obj_push(&mut o, "setup", j);
    proof {
        let m = ClientMessage::Setup(sp_merged_setup(*s, *handle));
        assert(crate::json::jv_fields_view(o@) =~= sp_client_message_json(m)->Obj_0);
    }
    JsonValue::Obj(o).to_text()
}

// ---------------------------------------------------------------------------
// Decoding: mirrors
// ---------------------------------------------------------------------------

use crate::json::{jv_get, parsed_int};

pub open spec fn sp_i64_from(v: JVal) -> Option<i64> {
    match v {
        JVal::Num(t) => match parsed_int(t) {
            Some(n) => if i64::MIN <= n <= i64::MAX {
                Some(n as i64)
            } else {
                None
            },
            None => None,
        },
        _ => None,
    }
}

pub open spec fn sp_i32_from(v: JVal) -> Option<i32> {
    match sp_i64_from(v) {
        Some(n) => if i32::MIN <= n <= i32::MAX {
            Some(n as i32)
        } else {
            None
        },
        None => None,
    }
}

/// An optional string member: absent and null both mean unset; any value
/// other than a string is an error (the outer None).
pub open spec fn sp_opt_str(o: Option<JVal>) -> Option<Option<Seq<char>>> {
    match o {
        None => Some(None),
        Some(JVal::Null) => Some(None),
        Some(JVal::Str(s)) => Some(Some(s)),
        Some(_) => None,
    }
}

/// An optional boolean member, as [`sp_opt_str`].
pub open spec fn sp_opt_bool(o: Option<JVal>) -> Option<Option<bool>> {
    match o {
        None => Some(None),
        Some(JVal::Null) => Some(None),
        Some(JVal::Bool(b)) => Some(Some(b)),
        Some(_) => None,
    }
}

/// An optional integer member, as [`sp_opt_str`].
pub open spec fn sp_opt_i32(o: Option<JVal>) -> Option<Option<i32>> {
    match o {
        None => Some(None),
        Some(JVal::Null) => Some(None),
        Some(v) => match sp_i32_from(v) {
            Some(n) => Some(Some(n)),
            None => None,
        },
    }
}

pub open spec fn sp_role_from(s: Seq<char>) -> Option<Role> {
    if s == "user"@ {
        Some(Role::User)
    } else if s == "model"@ {
        Some(Role::Model)
    } else {
        None
    }
}

pub open spec fn sp_scheduling_from(s: Seq<char>) -> Option<FunctionResponseScheduling> {
    if s == "SILENT"@ {
        Some(FunctionResponseScheduling::Silent)
    } else if s == "WHEN_IDLE"@ {
        Some(FunctionResponseScheduling::WhenIdle)
    } else if s == "INTERRUPT"@ {
        Some(FunctionResponseScheduling::Interrupt)
    } else {
        None
    }
}

pub open spec fn sp_outcome_from(s: Seq<char>) -> Option<CodeExecutionOutcome> {
    if s == "OUTCOME_OK"@ {
        Some(CodeExecutionOutcome::Success)
    } else if s == "OUTCOME_FAILED"@ {
        Some(CodeExecutionOutcome::Failed)
    } else if s == "OUTCOME_DEADLINE_EXCEEDED"@ {
        Some(CodeExecutionOutcome::DeadlineExceeded)
    } else {
        None
    }
}

pub open spec fn sp_modality_from(s: Seq<char>) -> Option<Modality> {
    if s == "MODALITY_UNSPECIFIED"@ {
        Some(Modality::ModalityUnspecified)
    } else if s == "TEXT"@ {
        Some(Modality::Text)
    } else if s == "IMAGE"@ {
        Some(Modality::Image)
    } else if s == "VIDEO"@ {
        Some(Modality::Video)
    } else if s == "AUDIO"@ {
        Some(Modality::Audio)
    } else if s == "DOCUMENT"@ {
        Some(Modality::Document)
    } else {
        None
    }
}

pub open spec fn sp_inline_data_from(v: JVal) -> Option<InlineDataV> {
    match jv_get(v, "mimeType"@) {
        Some(JVal::Str(m)) => match jv_get(v, "data"@) {
            Some(JVal::Str(d)) => if b64_valid(d) {
                Some(InlineDataV { mime_type: m, data_b64: d })
            } else {
                None
            },
            _ => None,
        },
        _ => None,
    }
}

pub open spec fn sp_file_data_from(v: JVal) -> Option<FileDataV> {
    match jv_get(v, "mimeType"@) {
        Some(JVal::Str(m)) => match jv_get(v, "fileUri"@) {
            Some(JVal::Str(u)) => Some(FileDataV { mime_type: m, file_uri: u }),
            _ => None,
        },
        _ => None,
    }
}

pub open spec fn sp_offset_pair_from(v: JVal) -> Option<(i64, i32)> {
    match jv_get(v, "seconds"@) {
        Some(sv) => match sp_i64_from(sv) {
            Some(secs) => match jv_get(v, "nanos"@) {
                Some(nv) => match sp_i32_from(nv) {
                    Some(nanos) => Some((secs, nanos)),
                    None => None,
                },
                None => None,
            },
            None => None,
        },
        None => None,
    }
}

pub open spec fn sp_video_metadata_from(v: JVal) -> Option<VideoMetadata> {
    match jv_get(v, "startOffset"@) {
        Some(sv) => match sp_offset_pair_from(sv) {
            Some(s) => match jv_get(v, "endOffset"@) {
                Some(ev) => match sp_offset_pair_from(ev) {
                    Some(e) => Some(
                        VideoMetadata {
                            start_offset: StartOffset { seconds: s.0, nanos: s.1 },
                            end_offset: EndOffset { seconds: e.0, nanos: e.1 },
                        },
                    ),
                    None => None,
                },
                None => None,
            },
            None => None,
        },
        None => None,
    }
}

pub open spec fn sp_function_call_from(v: JVal) -> Option<FunctionCallV> {
    match sp_opt_str(jv_get(v, "id"@)) {
        Some(id) => match jv_get(v, "name"@) {
            Some(JVal::Str(name)) => match jv_get(v, "args"@) {
                Some(args) => Some(FunctionCallV { id, name, args }),
                None => None,
            },
            _ => None,
        },
        None => None,
    }
}

pub open spec fn sp_function_result_from(v: JVal) -> Option<FunctionResultV> {
    match jv_get(v, "result"@) {
        Some(r) => Some(FunctionResultV { result: r }),
        None => None,
    }
}

pub open spec fn sp_function_response_from(v: JVal) -> Option<FunctionResponseV> {
    match sp_opt_str(jv_get(v, "id"@)) {
        Some(id) => match jv_get(v, "name"@) {
            Some(JVal::Str(name)) => match jv_get(v, "response"@) {
                Some(rv) => match sp_function_result_from(rv) {
                    Some(response) => match sp_opt_bool(jv_get(v, "willContinue"@)) {
                        Some(will_continue) => match jv_get(v, "scheduling"@) {
                            None => Some(
                                FunctionResponseV {
                                    id,
                                    name,
                                    response,
                                    will_continue,
                                    scheduling: None,
                                },
                            ),
                            Some(JVal::Null) => Some(
                                FunctionResponseV {
                                    id,
                                    name,
                                    response,
                                    will_continue,
                                    scheduling: None,
                                },
                            ),
                            Some(JVal::Str(s)) => match sp_scheduling_from(s) {
                                Some(sch) => Some(
                                    FunctionResponseV {
                                        id,
                                        name,
                                        response,
                                        will_continue,
                                        scheduling: Some(sch),
                                    },
                                ),
                                None => None,
                            },
                            Some(_) => None,
                        },
                        None => None,
                    },
                    None => None,
                },
                None => None,
            },
            _ => None,
        },
        None => None,
    }
}

pub open spec fn sp_executable_code_from(v: JVal) -> Option<ExecutableCodeV> {
    match jv_get(v, "language"@) {
        Some(JVal::Str(language)) => match jv_get(v, "code"@) {
            Some(JVal::Str(code)) => Some(ExecutableCodeV { language, code }),
            _ => None,
        },
        _ => None,
    }
}

pub open spec fn sp_code_execution_result_from(v: JVal) -> Option<CodeExecutionResultV> {
    match jv_get(v, "outcome"@) {
        Some(JVal::Str(s)) => match sp_outcome_from(s) {
            Some(outcome) => match sp_opt_str(jv_get(v, "output"@)) {
                Some(output) => Some(CodeExecutionResultV { outcome, output }),
                None => None,
            },
            None => None,
        },
        _ => None,
    }
}

/// The payload of a part: the first known tagged field present decides the
/// variant, in declaration order.
pub open spec fn sp_part_data_from(v: JVal) -> Option<PartDataV> {
    if jv_get(v, "text"@) is Some {
        match jv_get(v, "text"@) {
            Some(JVal::Str(s)) => Some(PartDataV::Text(s)),
            _ => None,
        }
    } else if jv_get(v, "inlineData"@) is Some {
        match sp_inline_data_from(jv_get(v, "inlineData"@)->Some_0) {
            Some(d) => Some(PartDataV::InlineData(d)),
            None => None,
        }
    } else if jv_get(v, "fileData"@) is Some {
        match sp_file_data_from(jv_get(v, "fileData"@)->Some_0) {
            Some(d) => Some(PartDataV::FileData(d)),
            None => None,
        }
    } else if jv_get(v, "videoMetadata"@) is Some {
        match sp_video_metadata_from(jv_get(v, "videoMetadata"@)->Some_0) {
            Some(d) => Some(PartDataV::VideoMetadata(d)),
            None => None,
        }
    } else if jv_get(v, "functionCall"@) is Some {
        match sp_function_call_from(jv_get(v, "functionCall"@)->Some_0) {
            Some(d) => Some(PartDataV::FunctionCall(d)),
            None => None,
        }
    } else if jv_get(v, "functionResponse"@) is Some {
        match sp_function_response_from(jv_get(v, "functionResponse"@)->Some_0) {
            Some(d) => Some(PartDataV::FunctionResponse(d)),
            None => None,
        }
    } else if jv_get(v, "executableCode"@) is Some {
        match sp_executable_code_from(jv_get(v, "executableCode"@)->Some_0) {
            Some(d) => Some(PartDataV::ExecutableCode(d)),
            None => None,
        }
    } else if jv_get(v, "codeExecutionResult"@) is Some {
        match sp_code_execution_result_from(jv_get(v, "codeExecutionResult"@)->Some_0) {
            Some(d) => Some(PartDataV::CodeExecutionResult(d)),
            None => None,
        }
    } else {
        None
    }
}

pub open spec fn sp_part_from(v: JVal) -> Option<PartV> {
    match sp_part_data_from(v) {
        Some(data) => match jv_get(v, "thought"@) {
            None => Some(PartV { data, thought: false }),
            Some(JVal::Bool(b)) => Some(PartV { data, thought: b }),
            Some(_) => None,
        },
        None => None,
    }
}

pub open spec fn sp_parts_from(s: Seq<JVal>) -> Option<Seq<PartV>>
    decreases s.len(),
{
    if s.len() == 0 {
        Some(Seq::empty())
    } else {
        match sp_part_from(s[0]) {
            Some(p) => match sp_parts_from(s.subrange(1, s.len() as int)) {
                Some(rest) => Some(seq![p] + rest),
                None => None,
            },
            None => None,
        }
    }
}

pub open spec fn sp_content_from(v: JVal) -> Option<ContentV> {
    match jv_get(v, "role"@) {
        None => sp_content_parts_from(v, None),
        Some(JVal::Null) => sp_content_parts_from(v, None),
        Some(JVal::Str(s)) => match sp_role_from(s) {
            Some(r) => sp_content_parts_from(v, Some(r)),
            None => None,
        },
        Some(_) => None,
    }
}

pub open spec fn sp_content_parts_from(v: JVal, role: Option<Role>) -> Option<ContentV> {
    match jv_get(v, "parts"@) {
        Some(JVal::Arr(a)) => match sp_parts_from(a) {
            Some(parts) => Some(ContentV { role, parts }),
            None => None,
        },
        _ => None,
    }
}

pub open spec fn sp_transcription_from(v: JVal) -> Option<TranscriptionV> {
    match jv_get(v, "text"@) {
        Some(JVal::Str(text)) => Some(TranscriptionV { text }),
        _ => None,
    }
}

/// An inbound content event: the first known field present decides the
/// variant, in declaration order; the three completion markers are
/// presence-only and their value is ignored.
pub open spec fn sp_server_content_from(v: JVal) -> Option<ServerContentV> {
    if jv_get(v, "modelTurn"@) is Some {
        match sp_content_from(jv_get(v, "modelTurn"@)->Some_0) {
            Some(c) => Some(ServerContentV::ModelTurn(c)),
            None => None,
        }
    } else if jv_get(v, "generationComplete"@) is Some {
        Some(ServerContentV::GenerationComplete)
    } else if jv_get(v, "turnComplete"@) is Some {
        Some(ServerContentV::TurnComplete)
    } else if jv_get(v, "interrupted"@) is Some {
        Some(ServerContentV::Interrupted)
    } else if jv_get(v, "groundingMetadata"@) is Some {
        Some(ServerContentV::GroundingMetadata(jv_get(v, "groundingMetadata"@)->Some_0))
    } else if jv_get(v, "outputTranscription"@) is Some {
        match sp_transcription_from(jv_get(v, "outputTranscription"@)->Some_0) {
            Some(t) => Some(ServerContentV::OutputTranscription(t)),
            None => None,
        }
    } else if jv_get(v, "inputTranscription"@) is Some {
        match sp_transcription_from(jv_get(v, "inputTranscription"@)->Some_0) {
            Some(t) => Some(ServerContentV::InputTranscription(t)),
            None => None,
        }
    } else {
        None
    }
}

pub open spec fn sp_calls_from(s: Seq<JVal>) -> Option<Seq<FunctionCallV>>
    decreases s.len(),
{
    if s.len() == 0 {
        Some(Seq::empty())
    } else {
        match sp_function_call_from(s[0]) {
            Some(c) => match sp_calls_from(s.subrange(1, s.len() as int)) {
                Some(rest) => Some(seq![c] + rest),
                None => None,
            },
            None => None,
        }
    }
}

pub open spec fn sp_tool_call_from(v: JVal) -> Option<ToolCallV> {
    match jv_get(v, "functionCalls"@) {
        None => Some(ToolCallV { function_calls: Seq::empty() }),
        Some(JVal::Arr(a)) => match sp_calls_from(a) {
            Some(cs) => Some(ToolCallV { function_calls: cs }),
            None => None,
        },
        Some(_) => None,
    }
}

pub open spec fn sp_strs_from(s: Seq<JVal>) -> Option<Seq<Seq<char>>>
    decreases s.len(),
{
    if s.len() == 0 {
        Some(Seq::empty())
    } else {
        match s[0] {
            JVal::Str(t) => match sp_strs_from(s.subrange(1, s.len() as int)) {
                Some(rest) => Some(seq![t] + rest),
                None => None,
            },
            _ => None,
        }
    }
}

pub open spec fn sp_cancellation_from(v: JVal) -> Option<ToolCallCancellationV> {
    match jv_get(v, "ids"@) {
        None => Some(ToolCallCancellationV { ids: Seq::empty() }),
        Some(JVal::Arr(a)) => match sp_strs_from(a) {
            Some(ids) => Some(ToolCallCancellationV { ids }),
            None => None,
        },
        Some(_) => None,
    }
}

pub open spec fn sp_go_away_from(v: JVal) -> Option<GoAwayV> {
    match sp_opt_str(jv_get(v, "timeLeft"@)) {
        Some(time_left) => Some(GoAwayV { time_left }),
        None => None,
    }
}

pub open spec fn sp_resumption_from(v: JVal) -> Option<SessionResumptionUpdateV> {
    match sp_opt_str(jv_get(v, "newHandle"@)) {
        Some(new_handle) => match sp_opt_bool(jv_get(v, "resumable"@)) {
            Some(resumable) => Some(SessionResumptionUpdateV { new_handle, resumable }),
            None => None,
        },
        None => None,
    }
}

pub open spec fn sp_mtc_from(v: JVal) -> Option<ModalityTokenCount> {
    match jv_get(v, "modality"@) {
        Some(JVal::Str(s)) => match sp_modality_from(s) {
            Some(modality) => match jv_get(v, "tokenCount"@) {
                Some(tv) => match sp_i32_from(tv) {
                    Some(token_count) => Some(ModalityTokenCount { modality, token_count }),
                    None => None,
                },
                None => None,
            },
            None => None,
        },
        _ => None,
    }
}

pub open spec fn sp_mtcs_from(s: Seq<JVal>) -> Option<Seq<ModalityTokenCount>>
    decreases s.len(),
{
    if s.len() == 0 {
        Some(Seq::empty())
    } else {
        match sp_mtc_from(s[0]) {
            Some(m) => match sp_mtcs_from(s.subrange(1, s.len() as int)) {
                Some(rest) => Some(seq![m] + rest),
                None => None,
            },
            None => None,
        }
    }
}

/// A token-detail list member: absent means empty.
pub open spec fn sp_mtc_list_from(o: Option<JVal>) -> Option<Seq<ModalityTokenCount>> {
    match o {
        None => Some(Seq::empty()),
        Some(JVal::Arr(a)) => sp_mtcs_from(a),
        Some(_) => None,
    }
}

pub open spec fn sp_usage_from(v: JVal) -> Option<UsageMetadataV> {
    match sp_opt_i32(jv_get(v, "promptTokenCount"@)) {
        Some(prompt_token_count) => match sp_opt_i32(jv_get(v, "cachedContentTokenCount"@)) {
            Some(cached_content_token_count) => match sp_opt_i32(
                jv_get(v, "responseTokenCount"@),
            ) {
                Some(response_token_count) => match sp_opt_i32(
                    jv_get(v, "toolUsePromptTokenCount"@),
                ) {
                    Some(tool_use_prompt_token_count) => match sp_opt_i32(
                        jv_get(v, "thoughtsTokenCount"@),
                    ) {
                        Some(thoughts_token_count) => match sp_opt_i32(
                            jv_get(v, "totalTokenCount"@),
                        ) {
                            Some(total_token_count) => match sp_mtc_list_from(
                                jv_get(v, "promptTokensDetails"@),
                            ) {
                                Some(prompt_tokens_details) => match sp_mtc_list_from(
                                    jv_get(v, "cacheTokensDetails"@),
                                ) {
                                    Some(cache_tokens_details) => match sp_mtc_list_from(
                                        jv_get(v, "responseTokensDetails"@),
                                    ) {
                                        Some(response_tokens_details) => match sp_mtc_list_from(
                                            jv_get(v, "toolUsePromptTokensDetails"@),
                                        ) {
                                            Some(tool_use_prompt_tokens_details) => Some(
                                                UsageMetadataV {
                                                    prompt_token_count,
                                                    cached_content_token_count,
                                                    response_token_count,
                                                    tool_use_prompt_token_count,
                                                    thoughts_token_count,
                                                    total_token_count,
                                                    prompt_tokens_details,
                                                    cache_tokens_details,
                                                    response_tokens_details,
                                                    tool_use_prompt_tokens_details,
                                                },
                                            ),
                                            None => None,
                                        },
                                        None => None,
                                    },
                                    None => None,
                                },
                                None => None,
                            },
                            None => None,
                        },
                        None => None,
                    },
                    None => None,
                },
                None => None,
            },
            None => None,
        },
        None => None,
    }
}

/// Whether the envelope carries any known top-level field.
pub open spec fn sp_has_known_field(v: JVal) -> bool {
    ||| jv_get(v, "setupComplete"@) is Some
    ||| jv_get(v, "serverContent"@) is Some
    ||| jv_get(v, "toolCall"@) is Some
    ||| jv_get(v, "toolCallCancellation"@) is Some
    ||| jv_get(v, "goAway"@) is Some
    ||| jv_get(v, "sessionResumptionUpdate"@) is Some
}

/// One inbound envelope: of the known top-level fields, the first present in
/// the fixed priority order decides the variant.
pub open spec fn sp_server_message_from(v: JVal) -> Option<ServerMessageV> {
    if jv_get(v, "setupComplete"@) is Some {
        Some(ServerMessageV::SetupComplete)
    } else if jv_get(v, "serverContent"@) is Some {
        match sp_server_content_from(jv_get(v, "serverContent"@)->Some_0) {
            Some(sc) => match jv_get(v, "usageMetadata"@) {
                None => Some(
                    ServerMessageV::ServerContent { server_content: sc, usage_metadata: None },
                ),
                Some(JVal::Null) => Some(
                    ServerMessageV::ServerContent { server_content: sc, usage_metadata: None },
                ),
                Some(uv) => match sp_usage_from(uv) {
                    Some(u) => Some(
                        ServerMessageV::ServerContent {
                            server_content: sc,
                            usage_metadata: Some(u),
                        },
                    ),
                    None => None,
                },
            },
            None => None,
        }
    } else if jv_get(v, "toolCall"@) is Some {
        match sp_tool_call_from(jv_get(v, "toolCall"@)->Some_0) {
            Some(c) => Some(ServerMessageV::ToolCall(c)),
            None => None,
        }
    } else if jv_get(v, "toolCallCancellation"@) is Some {
        match sp_cancellation_from(jv_get(v, "toolCallCancellation"@)->Some_0) {
            Some(c) => Some(ServerMessageV::ToolCallCancellation(c)),
            None => None,
        }
    } else if jv_get(v, "goAway"@) is Some {
        match sp_go_away_from(jv_get(v, "goAway"@)->Some_0) {
            Some(g) => Some(ServerMessageV::GoAway(g)),
            None => None,
        }
    } else if jv_get(v, "sessionResumptionUpdate"@) is Some {
        match sp_resumption_from(jv_get(v, "sessionResumptionUpdate"@)->Some_0) {
            Some(u) => Some(ServerMessageV::SessionResumptionUpdate(u)),
            None => None,
        }
    } else {
        None
    }
}

/// What one frame of wire text decodes to, if anything.
pub open spec fn sp_decode_server_message(t: Seq<char>) -> Option<ServerMessageV> {
    match crate::json::sp_parse_text(t) {
        Some(v) => sp_server_message_from(v),
        None => None,
    }
}

// ---------------------------------------------------------------------------
// Decoding: executable code
// ---------------------------------------------------------------------------

fn i64_from_json(v: &JsonValue) -> (r: Option<i64>)
    ensures
        r == sp_i64_from(v@),
{
    match v.as_num() {
        Some(n) => n.to_i64(),
        None => None,
    }
}

fn i32_from_json(v: &JsonValue) -> (r: Option<i32>)
    ensures
        r == sp_i32_from(v@),
{
    match i64_from_json(v) {
        Some(n) => {
            if -0x8000_0000i64 <= n && n <= 0x7fff_ffffi64 {
                Some(n as i32)
            } else {
                None
            }
        },
        None => None,
    }
}

pub(crate) fn opt_str_field(v: &JsonValue, key: &str) -> (r: Option<Option<String>>)
    ensures
        sp_opt_str(jv_get(v@, key@)) is Some <==> r is Some,
        r matches Some(x) ==> sp_opt_str(jv_get(v@, key@)) == Some(
            match x {
                Some(s) => Some(s@),
                None => None::<Seq<char>>,
            },
        ),
{
    match v.get(key) {
        None => Some(None),
        Some(f) => {
            if f.is_null() {
                Some(None)
            } else {
                match f.as_str() {
                    Some(s) => Some(Some(s.clone())),
                    None => None,
                }
            }
        },
    }
}

pub(crate) fn opt_bool_field(v: &JsonValue, key: &str) -> (r: Option<Option<bool>>)
    ensures
        r == sp_opt_bool(jv_get(v@, key@)),
{
    match v.get(key) {
        None => Some(None),
        Some(f) => {
            if f.is_null() {
                Some(None)
            } else {
                match f.as_bool() {
                    Some(b) => Some(Some(b)),
                    None => None,
                }
            }
        },
    }
}

pub(crate) fn opt_i32_field(v: &JsonValue, key: &str) -> (r: Option<Option<i32>>)
    ensures
        r == sp_opt_i32(jv_get(v@, key@)),
{
    match v.get(key) {
        None => Some(None),
        Some(f) => {
            if f.is_null() {
                Some(None)
            } else {
                match i32_from_json(f) {
                    Some(n) => Some(Some(n)),
                    None => None,
                }
            }
        },
    }
}

fn inline_data_from_json(v: &JsonValue) -> (r: Option<InlineData>)
    ensures
        r is Some <==> sp_inline_data_from(v@) is Some,
        r matches Some(x) ==> sp_inline_data_from(v@) == Some(x@),
{
    match v.get("mimeType") {
        Some(jm) => match jm.as_str() {
            Some(m) => match v.get("data") {
                Some(jd) => match jd.as_str() {
                    Some(d) => match b64_decode(d.as_str()) {
                        Some(bytes) => Some(InlineData { mime_type: m.clone(), data: bytes }),
                        None => None,
                    },
                    None => None,
                },
                None => None,
            },
            None => None,
        },
        None => None,
    }
}

fn file_data_from_json(v: &JsonValue) -> (r: Option<FileData>)
    ensures
        r is Some <==> sp_file_data_from(v@) is Some,
        r matches Some(x) ==> sp_file_data_from(v@) == Some(x@),
{
    match v.get("mimeType") {
        Some(jm) => match jm.as_str() {
            Some(m) => match v.get("fileUri") {
                Some(ju) => match ju.as_str() {
                    Some(u) => Some(FileData { mime_type: m.clone(), file_uri: u.clone() }),
                    None => None,
                },
                None => None,
            },
            None => None,
        },
        None => None,
    }
}

fn offset_pair_from_json(v: &JsonValue) -> (r: Option<(i64, i32)>)
    ensures
        r == sp_offset_pair_from(v@),
{
    match v.get("seconds") {
        Some(sv) => match i64_from_json(sv) {
            Some(secs) => match v.get("nanos") {
                Some(nv) => match i32_from_json(nv) {
                    Some(nanos) => Some((secs, nanos)),
                    None => None,
                },
                None => None,
            },
            None => None,
        },
        None => None,
    }
}

pub(crate) fn video_metadata_from_json(v: &JsonValue) -> (r: Option<VideoMetadata>)
    ensures
        r == sp_video_metadata_from(v@),
{
    match v.get("startOffset") {
        Some(sv) => match offset_pair_from_json(sv) {
            Some(s) => match v.get("endOffset") {
                Some(ev) => match offset_pair_from_json(ev) {
                    Some(e) => Some(
                        VideoMetadata {
                            start_offset: StartOffset { seconds: s.0, nanos: s.1 },
                            end_offset: EndOffset { seconds: e.0, nanos: e.1 },
                        },
                    ),
                    None => None,
                },
                None => None,
            },
            None => None,
        },
        None => None,
    }
}

fn function_call_from_json(v: &JsonValue) -> (r: Option<FunctionCall>)
    ensures
        r is Some <==> sp_function_call_from(v@) is Some,
        r matches Some(x) ==> sp_function_call_from(v@) == Some(x@),
{
    match opt_str_field(v, "id") {
        Some(id) => match v.get("name") {
            Some(jn) => match jn.as_str() {
                Some(name) => match v.get("args") {
                    Some(args) => Some(
                        FunctionCall { id, name: name.clone(), args: args.clone() },
                    ),
                    None => None,
                },
                None => None,
            },
            None => None,
        },
        None => None,
    }
}

fn scheduling_from_str(s: &String) -> (r: Option<FunctionResponseScheduling>)
    ensures
        r == sp_scheduling_from(s@),
{
    if *s == "SILENT".to_owned() {
        Some(FunctionResponseScheduling::Silent)
    } else if *s == "WHEN_IDLE".to_owned() {
        Some(FunctionResponseScheduling::WhenIdle)
    } else if *s == "INTERRUPT".to_owned() {
        Some(FunctionResponseScheduling::Interrupt)
    } else {
        None
    }
}

pub(crate) fn function_response_from_json(v: &JsonValue) -> (r: Option<FunctionResponse>)
    ensures
        r is Some <==> sp_function_response_from(v@) is Some,
        r matches Some(x) ==> sp_function_response_from(v@) == Some(x@),
{
    let id = match opt_str_field(v, "id") {
        Some(id) => id,
        None => {
            return None;
        },
    };
    let name = match v.get("name") {
        Some(jn) => match jn.as_str() {
            Some(n) => n.clone(),
            None => {
                return None;
            },
        },
        None => {
            return None;
        },
    };
    let response = match v.get("response") {
        Some(rv) => match rv.get("result") {
            Some(res) => FunctionResult { result: res.clone() },
            None => {
                return None;
            },
        },
        None => {
            return None;
        },
    };
    let will_continue = match opt_bool_field(v, "willContinue") {
        Some(w) => w,
        None => {
            return None;
        },
    };
    let scheduling = match v.get("scheduling") {
        None => None,
        Some(sv) => {
            if sv.is_null() {
                None
            } else {
                match sv.as_str() {
                    Some(s) => match scheduling_from_str(s) {
                        Some(sch) => Some(sch),
                        None => {
                            return None;
                        },
                    },
                    None => {
                        return None;
                    },
                }
            }
        },
    };
    Some(FunctionResponse { id, name, response, will_continue, scheduling })
}

fn executable_code_from_json(v: &JsonValue) -> (r: Option<ExecutableCode>)
    ensures
        r is Some <==> sp_executable_code_from(v@) is Some,
        r matches Some(x) ==> sp_executable_code_from(v@) == Some(x@),
{
    match v.get("language") {
        Some(jl) => match jl.as_str() {
            Some(l) => match v.get("code") {
                Some(jc) => match jc.as_str() {
                    Some(c) => Some(ExecutableCode { language: l.clone(), code: c.clone() }),
                    None => None,
                },
                None => None,
            },
            None => None,
        },
        None => None,
    }
}

fn code_execution_result_from_json(v: &JsonValue) -> (r: Option<CodeExecutionResult>)
    ensures
        r is Some <==> sp_code_execution_result_from(v@) is Some,
        r matches Some(x) ==> sp_code_execution_result_from(v@) == Some(x@),
{
    match v.get("outcome") {
        Some(jo) => match jo.as_str() {
            Some(s) => {
                let outcome = if *s == "OUTCOME_OK".to_owned() {
                    CodeExecutionOutcome::Success
                } else if *s == "OUTCOME_FAILED".to_owned() {
                    CodeExecutionOutcome::Failed
                } else if *s == "OUTCOME_DEADLINE_EXCEEDED".to_owned() {
                    CodeExecutionOutcome::DeadlineExceeded
                } else {
                    return None;
                };
                match opt_str_field(v, "output") {
                    Some(output) => Some(CodeExecutionResult { outcome, output }),
                    None => None,
                }
            },
            None => None,
        },
        None => None,
    }
}

fn part_from_json(v: &JsonValue) -> (r: Option<Part>)
    ensures
        r is Some <==> sp_part_from(v@) is Some,
        r matches Some(x) ==> sp_part_from(v@) == Some(x@),
{
    let data: PartData = if v.get("text").is_some() {
        match v.get("text") {
            Some(t) => match t.as_str() {
                Some(s) => PartData::Text(s.clone()),
                None => {
                    return None;
                },
            },
            None => {
                return None;
            },
        }
    } else if v.get("inlineData").is_some() {
        match v.get("inlineData") {
            Some(dv) => match inline_data_from_json(dv) {
                Some(d) => PartData::InlineData(d),
                None => {
                    return None;
                },
            },
            None => {
                return None;
            },
        }
    } else if v.get("fileData").is_some() {
        match v.get("fileData") {
            Some(dv) => match file_data_from_json(dv) {
                Some(d) => PartData::FileData(d),
                None => {
                    return None;
                },
            },
            None => {
                return None;
            },
        }
    } else if v.get("videoMetadata").is_some() {
        match v.get("videoMetadata") {
            Some(dv) => match video_metadata_from_json(dv) {
                Some(d) => PartData::VideoMetadata(d),
                None => {
                    return None;
                },
            },
            None => {
                return None;
            },
        }
    } else if v.get("functionCall").is_some() {
        match v.get("functionCall") {
            Some(dv) => match function_call_from_json(dv) {
                Some(d) => PartData::FunctionCall(d),
                None => {
                    return None;
                },
            },
            None => {
                return None;
            },
        }
    } else if v.get("functionResponse").is_some() {
        match v.get("functionResponse") {
            Some(dv) => match function_response_from_json(dv) {
                Some(d) => PartData::FunctionResponse(d),
                None => {
                    return None;
                },
            },
            None => {
                return None;
            },
        }
    } else if v.get("executableCode").is_some() {
        match v.get("executableCode") {
            Some(dv) => match executable_code_from_json(dv) {
                Some(d) => PartData::ExecutableCode(d),
                None => {
                    return None;
                },
            },
            None => {
                return None;
            },
        }
    } else if v.get("codeExecutionResult").is_some() {
        match v.get("codeExecutionResult") {
            Some(dv) => match code_execution_result_from_json(dv) {
                Some(d) => PartData::CodeExecutionResult(d),
                None => {
                    return None;
                },
            },
            None => {
                return None;
            },
        }
    } else {
        return None;
    };
    match v.get("thought") {
        None => Some(Part { data, thought: false }),
        Some(tv) => match tv.as_bool() {
            Some(b) => Some(Part { data, thought: b }),
            None => None,
        },
    }
}

fn parts_from_json(a: &Vec<JsonValue>, i: usize) -> (r: Option<Vec<Part>>)
    requires
        i <= a.len(),
    ensures
        ({
            let sp = sp_parts_from(
                crate::json::jv_elems_view(a@).subrange(i as int, a@.len() as int),
            );
            &&& (r is Some <==> sp is Some)
            &&& (r matches Some(ps) ==> sp == Some(parts_view(ps@)))
        }),
    decreases a.len() - i,
{
    proof {
        crate::json::lemma_jv_elems_view_len(a@);
    }
    let ghost ev = crate::json::jv_elems_view(a@);
    let ghost tail = ev.subrange(i as int, a@.len() as int);
    if i == a.len() {
        proof {
            assert(tail =~= Seq::<JVal>::empty());
        }
        return Some(Vec::new());
    }
    proof {
        assert(tail[0] == ev[i as int]);
        assert(tail.subrange(1, tail.len() as int) =~= ev.subrange(
            i + 1 as int,
            a@.len() as int,
        ));
    }
    match part_from_json(&a[i]) {
        Some(p) => match parts_from_json(a, i + 1) {
            Some(rest) => {
                let ghost gp = p;
                let ghost grest = rest@;
                let mut all: Vec<Part> = Vec::new();
                all.push(p);
                let mut rest = rest;
                all.append(&mut rest);
                proof {
                    assert(all@ =~= seq![gp] + grest);
                    lemma_parts_view(all@);
                    lemma_parts_view(grest);
                    assert(parts_view(all@) =~= seq![gp@] + parts_view(grest));
                }
                Some(all)
            },
            None => None,
        },
        None => None,
    }
}

fn content_from_json(v: &JsonValue) -> (r: Option<Content>)
    ensures
        r is Some <==> sp_content_from(v@) is Some,
        r matches Some(x) ==> sp_content_from(v@) == Some(x@),
{
    let role: Option<Role> = match v.get("role") {
        None => None,
        Some(rv) => {
            if rv.is_null() {
                None
            } else {
                match rv.as_str() {
                    Some(s) => {
                        if *s == "user".to_owned() {
                            Some(Role::User)
                        } else if *s == "model".to_owned() {
                            Some(Role::Model)
                        } else {
                            return None;
                        }
                    },
                    None => {
                        return None;
                    },
                }
            }
        },
    };
    match v.get("parts") {
        Some(pv) => match pv.as_arr() {
            Some(a) => {
                proof {
                    assert(crate::json::jv_elems_view(a@).subrange(
                        0,
                        a@.len() as int,
                    ) =~= crate::json::jv_elems_view(a@)) by {
                        crate::json::lemma_jv_elems_view_len(a@);
                    }
                }
                match parts_from_json(a, 0) {
                    Some(parts) => Some(Content { role, parts }),
                    None => None,
                }
            },
            None => None,
        },
        None => None,
    }
}

fn transcription_from_json(v: &JsonValue) -> (r: Option<Transcription>)
    ensures
        r is Some <==> sp_transcription_from(v@) is Some,
        r matches Some(x) ==> sp_transcription_from(v@) == Some(x@),
{
    match v.get("text") {
        Some(tv) => match tv.as_str() {
            Some(s) => Some(Transcription { text: s.clone() }),
            None => None,
        },
        None => None,
    }
}

fn server_content_from_json(v: &JsonValue) -> (r: Option<ServerContent>)
    ensures
        r is Some <==> sp_server_content_from(v@) is Some,
        r matches Some(x) ==> sp_server_content_from(v@) == Some(x@),
{
    if v.get("modelTurn").is_some() {
        match v.get("modelTurn") {
            Some(cv) => match content_from_json(cv) {
                Some(c) => Some(ServerContent::ModelTurn(c)),
                None => None,
            },
            None => None,
        }
    } else if v.get("generationComplete").is_some() {
        Some(ServerContent::GenerationComplete)
    } else if v.get("turnComplete").is_some() {
        Some(ServerContent::TurnComplete)
    } else if v.get("interrupted").is_some() {
        Some(ServerContent::Interrupted)
    } else if v.get("groundingMetadata").is_some() {
        match v.get("groundingMetadata") {
            Some(gv) => Some(ServerContent::GroundingMetadata(gv.clone())),
            None => None,
        }
    } else if v.get("outputTranscription").is_some() {
        match v.get("outputTranscription") {
            Some(tv) => match transcription_from_json(tv) {
                Some(t) => Some(ServerContent::OutputTranscription(t)),
                None => None,
            },
            None => None,
        }
    } else if v.get("inputTranscription").is_some() {
        match v.get("inputTranscription") {
            Some(tv) => match transcription_from_json(tv) {
                Some(t) => Some(ServerContent::InputTranscription(t)),
                None => None,
            },
            None => None,
        }
    } else {
        None
    }
}

fn calls_from_json(a: &Vec<JsonValue>, i: usize) -> (r: Option<Vec<FunctionCall>>)
    requires
        i <= a.len(),
    ensures
        ({
            let sp = sp_calls_from(
                crate::json::jv_elems_view(a@).subrange(i as int, a@.len() as int),
            );
            &&& (r is Some <==> sp is Some)
            &&& (r matches Some(cs) ==> sp == Some(calls_view(cs@)))
        }),
    decreases a.len() - i,
{
    proof {
        crate::json::lemma_jv_elems_view_len(a@);
    }
    let ghost ev = crate::json::jv_elems_view(a@);
    let ghost tail = ev.subrange(i as int, a@.len() as int);
    if i == a.len() {
        proof {
            assert(tail =~= Seq::<JVal>::empty());
        }
        return Some(Vec::new());
    }
    proof {
        assert(tail[0] == ev[i as int]);
        assert(tail.subrange(1, tail.len() as int) =~= ev.subrange(
            i + 1 as int,
            a@.len() as int,
        ));
    }
    match function_call_from_json(&a[i]) {
        Some(c) => match calls_from_json(a, i + 1) {
            Some(rest) => {
                let ghost gc = c;
                let ghost grest = rest@;
                let mut all: Vec<FunctionCall> = Vec::new();
                all.push(c);
                let mut rest = rest;
                all.append(&mut rest);
                proof {
                    assert(all@ =~= seq![gc] + grest);
                    lemma_calls_view(all@);
                    lemma_calls_view(grest);
                    assert(calls_view(all@) =~= seq![gc@] + calls_view(grest));
                }
                Some(all)
            },
            None => None,
        },
        None => None,
    }
}

fn tool_call_from_json(v: &JsonValue) -> (r: Option<ToolCall>)
    ensures
        r is Some <==> sp_tool_call_from(v@) is Some,
        r matches Some(x) ==> sp_tool_call_from(v@) == Some(x@),
{
    match v.get("functionCalls") {
        None => {
            proof {
                assert(calls_view(Seq::<FunctionCall>::empty()) =~= Seq::<FunctionCallV>::empty());
            }
            Some(ToolCall { function_calls: Vec::new() })
        },
        Some(fv) => match fv.as_arr() {
            Some(a) => {
                proof {
                    assert(crate::json::jv_elems_view(a@).subrange(
                        0,
                        a@.len() as int,
                    ) =~= crate::json::jv_elems_view(a@)) by {
                        crate::json::lemma_jv_elems_view_len(a@);
                    }
                }
                match calls_from_json(a, 0) {
                    Some(cs) => Some(ToolCall { function_calls: cs }),
                    None => None,
                }
            },
            None => None,
        },
    }
}

fn strs_from_json(a: &Vec<JsonValue>, i: usize) -> (r: Option<Vec<String>>)
    requires
        i <= a.len(),
    ensures
        ({
            let sp = sp_strs_from(
                crate::json::jv_elems_view(a@).subrange(i as int, a@.len() as int),
            );
            &&& (r is Some <==> sp is Some)
            &&& (r matches Some(ss) ==> sp == Some(ss.deep_view()))
        }),
    decreases a.len() - i,
{
    proof {
        crate::json::lemma_jv_elems_view_len(a@);
    }
    let ghost ev = crate::json::jv_elems_view(a@);
    let ghost tail = ev.subrange(i as int, a@.len() as int);
    if i == a.len() {
        proof {
            assert(tail =~= Seq::<JVal>::empty());
        }
        let out: Vec<String> = Vec::new();
        proof {
            assert(out.deep_view() =~= Seq::<Seq<char>>::empty());
        }
        return Some(out);
    }
    proof {
        assert(tail[0] == ev[i as int]);
        assert(tail.subrange(1, tail.len() as int) =~= ev.subrange(
            i + 1 as int,
            a@.len() as int,
        ));
    }
    match a[i].as_str() {
        Some(s) => match strs_from_json(a, i + 1) {
            Some(rest) => {
                let gs = s.clone();
                let ghost ggs = gs@;
                let ghost grest = rest@;
                let mut all: Vec<String> = Vec::new();
                all.push(gs);
                let mut rest = rest;
                all.append(&mut rest);
                proof {
                    assert(all.deep_view() =~= seq![ggs] + Seq::new(
                        grest.len(),
                        |q: int| grest[q]@,
                    ));
                    assert(Seq::new(grest.len(), |q: int| grest[q]@) =~= rest_deep(grest));
                    assert(all.deep_view() =~= seq![ggs] + rest_deep(grest));
                }
                Some(all)
            },
            None => None,
        },
        None => None,
    }
}

/// The views of a sequence of strings.
pub open spec fn rest_deep(s: Seq<String>) -> Seq<Seq<char>> {
    Seq::new(s.len(), |q: int| s[q]@)
}

fn mtc_from_json(v: &JsonValue) -> (r: Option<ModalityTokenCount>)
    ensures
        r == sp_mtc_from(v@),
{
    match v.get("modality") {
        Some(mv) => match mv.as_str() {
            Some(s) => {
                let modality = if *s == "MODALITY_UNSPECIFIED".to_owned() {
                    Modality::ModalityUnspecified
                } else if *s == "TEXT".to_owned() {
                    Modality::Text
                } else if *s == "IMAGE".to_owned() {
                    Modality::Image
                } else if *s == "VIDEO".to_owned() {
                    Modality::Video
                } else if *s == "AUDIO".to_owned() {
                    Modality::Audio
                } else if *s == "DOCUMENT".to_owned() {
                    Modality::Document
                } else {
                    return None;
                };
                match v.get("tokenCount") {
                    Some(tv) => match i32_from_json(tv) {
                        Some(token_count) => Some(ModalityTokenCount { modality, token_count }),
                        None => None,
                    },
                    None => None,
                }
            },
            None => None,
        },
        None => None,
    }
}

fn mtcs_from_json(a: &Vec<JsonValue>, i: usize) -> (r: Option<Vec<ModalityTokenCount>>)
    requires
        i <= a.len(),
    ensures
        ({
            let sp = sp_mtcs_from(
                crate::json::jv_elems_view(a@).subrange(i as int, a@.len() as int),
            );
            &&& (r is Some <==> sp is Some)
            &&& (r matches Some(ms) ==> sp == Some(ms@))
        }),
    decreases a.len() - i,
{
    proof {
        crate::json::lemma_jv_elems_view_len(a@);
    }
    let ghost ev = crate::json::jv_elems_view(a@);
    let ghost tail = ev.subrange(i as int, a@.len() as int);
    if i == a.len() {
        proof {
            assert(tail =~= Seq::<JVal>::empty());
        }
        return Some(Vec::new());
    }
    proof {
        assert(tail[0] == ev[i as int]);
        assert(tail.subrange(1, tail.len() as int) =~= ev.subrange(
            i + 1 as int,
            a@.len() as int,
        ));
    }
    match mtc_from_json(&a[i]) {
        Some(m) => match mtcs_from_json(a, i + 1) {
            Some(rest) => {
                let ghost gm = m;
                let ghost grest = rest@;
                let mut all: Vec<ModalityTokenCount> = Vec::new();
                all.push(m);
                let mut rest = rest;
                all.append(&mut rest);
                proof {
                    assert(all@ =~= seq![gm] + grest);
                }
                Some(all)
            },
            None => None,
        },
        None => None,
    }
}

fn mtc_list_field(v: &JsonValue, key: &str) -> (r: Option<Vec<ModalityTokenCount>>)
    ensures
        ({
            let sp = sp_mtc_list_from(jv_get(v@, key@));
            &&& (r is Some <==> sp is Some)
            &&& (r matches Some(ms) ==> sp == Some(ms@))
        }),
{
    match v.get(key) {
        None => Some(Vec::new()),
        Some(fv) => match fv.as_arr() {
            Some(a) => {
                proof {
                    assert(crate::json::jv_elems_view(a@).subrange(
                        0,
                        a@.len() as int,
                    ) =~= crate::json::jv_elems_view(a@)) by {
                        crate::json::lemma_jv_elems_view_len(a@);
                    }
                }
                mtcs_from_json(a, 0)
            },
            None => None,
        },
    }
}

fn usage_from_json(v: &JsonValue) -> (r: Option<UsageMetadata>)
    ensures
        r is Some <==> sp_usage_from(v@) is Some,
        r matches Some(x) ==> sp_usage_from(v@) == Some(x@),
{
    let prompt_token_count = match opt_i32_field(v, "promptTokenCount") {
        Some(x) => x,
        None => {
            return None;
        },
    };
    let cached_content_token_count = match opt_i32_field(v, "cachedContentTokenCount") {
        Some(x) => x,
        None => {
            return None;
        },
    };
    let response_token_count = match opt_i32_field(v, "responseTokenCount") {
        Some(x) => x,
        None => {
            return None;
        },
    };
    let tool_use_prompt_token_count = match opt_i32_field(v, "toolUsePromptTokenCount") {
        Some(x) => x,
        None => {
            return None;
        },
    };
    let thoughts_token_count = match opt_i32_field(v, "thoughtsTokenCount") {
        Some(x) => x,
        None => {
            return None;
        },
    };
    let total_token_count = match opt_i32_field(v, "totalTokenCount") {
        Some(x) => x,
        None => {
            return None;
        },
    };
    let prompt_tokens_details = match mtc_list_field(v, "promptTokensDetails") {
        Some(x) => x,
        None => {
            return None;
        },
    };
    let cache_tokens_details = match mtc_list_field(v, "cacheTokensDetails") {
        Some(x) => x,
        None => {
            return None;
        },
    };
    let response_tokens_details = match mtc_list_field(v, "responseTokensDetails") {
        Some(x) => x,
        None => {
            return None;
        },
    };
    let tool_use_prompt_tokens_details = match mtc_list_field(v, "toolUsePromptTokensDetails") {
        Some(x) => x,
        None => {
            return None;
        },
    };
    Some(
        UsageMetadata {
            prompt_token_count,
            cached_content_token_count,
            response_token_count,
            tool_use_prompt_token_count,
            thoughts_token_count,
            total_token_count,
            prompt_tokens_details,
            cache_tokens_details,
            response_tokens_details,
            tool_use_prompt_tokens_details,
        },
    )
}

fn server_message_from_json(v: &JsonValue) -> (r: Result<ServerMessage, DecodeError>)
    ensures
        r is Ok <==> sp_server_message_from(v@) is Some,
        r matches Ok(m) ==> sp_server_message_from(v@) == Some(m@),
        r == Result::<ServerMessage, DecodeError>::Err(DecodeError::UnknownMessage)
            <==> !sp_has_known_field(v@),
        r == Result::<ServerMessage, DecodeError>::Err(DecodeError::MalformedField) <==> (
        sp_has_known_field(v@) && sp_server_message_from(v@) is None),
{
    if v.get("setupComplete").is_some() {
        Ok(ServerMessage::SetupComplete)
    } else if v.get("serverContent").is_some() {
        let scv = match v.get("serverContent") {
            Some(x) => x,
            None => {
                return Err(DecodeError::MalformedField);
            },
        };
        match server_content_from_json(scv) {
            Some(sc) => {
                let usage: Option<UsageMetadata> = match v.get("usageMetadata") {
                    None => None,
                    Some(uv) => {
                        if uv.is_null() {
                            None
                        } else {
                            match usage_from_json(uv) {
                                Some(u) => Some(u),
                                None => {
                                    return Err(DecodeError::MalformedField);
                                },
                            }
                        }
                    },
                };
                Ok(ServerMessage::ServerContent { server_content: sc, usage_metadata: usage })
            },
            None => Err(DecodeError::MalformedField),
        }
    } else if v.get("toolCall").is_some() {
        let cv = match v.get("toolCall") {
            Some(x) => x,
            None => {
                return Err(DecodeError::MalformedField);
            },
        };
        match tool_call_from_json(cv) {
            Some(c) => Ok(ServerMessage::ToolCall(c)),
            None => Err(DecodeError::MalformedField),
        }
    } else if v.get("toolCallCancellation").is_some() {
        let cv = match v.get("toolCallCancellation") {
            Some(x) => x,
            None => {
                return Err(DecodeError::MalformedField);
            },
        };
        let ids = match cv.get("ids") {
            None => {
                let e: Vec<String> = Vec::new();
                proof {
                    assert(e.deep_view() =~= Seq::<Seq<char>>::empty());
                }
                e
            },
            Some(fv) => match fv.as_arr() {
                Some(a) => {
                    proof {
                        assert(crate::json::jv_elems_view(a@).subrange(
                            0,
                            a@.len() as int,
                        ) =~= crate::json::jv_elems_view(a@)) by {
                            crate::json::lemma_jv_elems_view_len(a@);
                        }
                    }
                    match strs_from_json(a, 0) {
                        Some(ss) => ss,
                        None => {
                            return Err(DecodeError::MalformedField);
                        },
                    }
                },
                None => {
                    return Err(DecodeError::MalformedField);
                },
            },
        };
        Ok(ServerMessage::ToolCallCancellation(ToolCallCancellation { ids }))
    } else if v.get("goAway").is_some() {
        let gv = match v.get("goAway") {
            Some(x) => x,
            None => {
                return Err(DecodeError::MalformedField);
            },
        };
        match opt_str_field(gv, "timeLeft") {
            Some(time_left) => Ok(ServerMessage::GoAway(GoAway { time_left })),
            None => Err(DecodeError::MalformedField),
        }
    } else if v.get("sessionResumptionUpdate").is_some() {
        let uv = match v.get("sessionResumptionUpdate") {
            Some(x) => x,
            None => {
                return Err(DecodeError::MalformedField);
            },
        };
        let new_handle = match opt_str_field(uv, "newHandle") {
            Some(h) => h,
            None => {
                return Err(DecodeError::MalformedField);
            },
        };
        let resumable = match opt_bool_field(uv, "resumable") {
            Some(b) => b,
            None => {
                return Err(DecodeError::MalformedField);
            },
        };
        Ok(
            ServerMessage::SessionResumptionUpdate(
                SessionResumptionUpdate { new_handle, resumable },
            ),
        )
    } else {
        Err(DecodeError::UnknownMessage)
    }
}

/// Decodes one inbound wire frame. A frame that is not JSON, carries none of
/// the known envelope fields, or carries one with a malformed payload is
/// rejected with the matching error; the session is expected to discard such
/// frames and continue.
pub fn decode_server_message(text: &str) -> (r: Result<ServerMessage, DecodeError>)
    ensures
        r is Ok <==> sp_decode_server_message(text@) is Some,
        r matches Ok(m) ==> sp_decode_server_message(text@) == Some(m@),
        r == Result::<ServerMessage, DecodeError>::Err(DecodeError::InvalidJson)
            <==> crate::json::sp_parse_text(text@) is None,
        r == Result::<ServerMessage, DecodeError>::Err(DecodeError::UnknownMessage) <==> (
        crate::json::sp_parse_text(text@) matches Some(v) && !sp_has_known_field(v)),
        r == Result::<ServerMessage, DecodeError>::Err(DecodeError::MalformedField) <==> (
        crate::json::sp_parse_text(text@) matches Some(v) && sp_has_known_field(v)
            && sp_server_message_from(v) is None),
{
    match JsonValue::parse(text) {
        Some(v) => server_message_from_json(&v),
        None => Err(DecodeError::InvalidJson),
    }
}

} // verus!
