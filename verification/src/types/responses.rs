//! Types of the OpenAI Responses API.

use vstd::prelude::*;
use crate::json::opt_seq;
use crate::text::{join, join_seqs, string_seqs};

verus! {

/// Instructions of a Responses request. Clients send a string or an array of
/// strings; the adapter always holds one string.
pub struct Instructions(pub String);

/// Model of [`Instructions`]: its text.
pub type InstructionsModel = Seq<char>;

impl View for Instructions {
    type V = Seq<char>;

    open spec fn view(&self) -> Seq<char> {
        self.0@
    }
}

impl Clone for Instructions {
    fn clone(&self) -> (r: Self)
        ensures
            r@ == self@,
    {
        Instructions(self.0.clone())
    }
}

/// A content part of a Responses message.
pub enum ResponsesContentPart {
    InputText { text: String },
    InputImage { image_url: Option<String>, detail: Option<String> },
    InputFile { file_id: Option<String>, filename: Option<String> },
    OutputText { text: String },
    Text { text: String },
    ImageUrl { url: String, detail: Option<String> },
    ToolResult { call_id: String, output: String },
}

/// Model of [`ResponsesContentPart`].
pub enum ResponsesContentPartModel {
    InputText { text: Seq<char> },
    InputImage { image_url: Option<Seq<char>>, detail: Option<Seq<char>> },
    InputFile { file_id: Option<Seq<char>>, filename: Option<Seq<char>> },
    OutputText { text: Seq<char> },
    Text { text: Seq<char> },
    ImageUrl { url: Seq<char>, detail: Option<Seq<char>> },
    ToolResult { call_id: Seq<char>, output: Seq<char> },
}

impl View for ResponsesContentPart {
    type V = ResponsesContentPartModel;

    open spec fn view(&self) -> ResponsesContentPartModel {
        match self {
            ResponsesContentPart::InputText { text } => ResponsesContentPartModel::InputText { text: (*text)@ },
            ResponsesContentPart::InputImage { image_url, detail } => ResponsesContentPartModel::InputImage { image_url: opt_seq((*image_url)), detail: opt_seq((*detail)) },
            ResponsesContentPart::InputFile { file_id, filename } => ResponsesContentPartModel::InputFile { file_id: opt_seq((*file_id)), filename: opt_seq((*filename)) },
            ResponsesContentPart::OutputText { text } => ResponsesContentPartModel::OutputText { text: (*text)@ },
            ResponsesContentPart::Text { text } => ResponsesContentPartModel::Text { text: (*text)@ },
            ResponsesContentPart::ImageUrl { url, detail } => ResponsesContentPartModel::ImageUrl { url: (*url)@, detail: opt_seq((*detail)) },
            ResponsesContentPart::ToolResult { call_id, output } => ResponsesContentPartModel::ToolResult { call_id: (*call_id)@, output: (*output)@ },
        }
    }
}

impl Clone for ResponsesContentPart {
    fn clone(&self) -> (r: Self)
        ensures
            r@ == self@,
    {
        match self {
            ResponsesContentPart::InputText { text } => { let c_text = (*text).clone(); ResponsesContentPart::InputText { text: c_text } },
            ResponsesContentPart::InputImage { image_url, detail } => { let c_image_url = (*image_url).clone(); let c_detail = (*detail).clone(); ResponsesContentPart::InputImage { image_url: c_image_url, detail: c_detail } },
            ResponsesContentPart::InputFile { file_id, filename } => { let c_file_id = (*file_id).clone(); let c_filename = (*filename).clone(); ResponsesContentPart::InputFile { file_id: c_file_id, filename: c_filename } },
            ResponsesContentPart::OutputText { text } => { let c_text = (*text).clone(); ResponsesContentPart::OutputText { text: c_text } },
            ResponsesContentPart::Text { text } => { let c_text = (*text).clone(); ResponsesContentPart::Text { text: c_text } },
            ResponsesContentPart::ImageUrl { url, detail } => { let c_url = (*url).clone(); let c_detail = (*detail).clone(); ResponsesContentPart::ImageUrl { url: c_url, detail: c_detail } },
            ResponsesContentPart::ToolResult { call_id, output } => { let c_call_id = (*call_id).clone(); let c_output = (*output).clone(); ResponsesContentPart::ToolResult { call_id: c_call_id, output: c_output } },
        }
    }
}

/// An input item of a Responses request.
pub enum ResponsesInputItem {
    /// A message with a role.
    Message { role: String, content: Option<Vec<ResponsesContentPart>>, id: Option<String>, name: Option<String> },
    /// A function call made by the model; `arguments` is JSON text.
    FunctionCall { call_id: String, name: String, arguments: String, id: Option<String>, status: Option<String> },
    /// The output of a function call.
    FunctionCallOutput { call_id: String, output: String, id: Option<String>, status: Option<String> },
}

/// Model of [`ResponsesInputItem`].
pub enum ResponsesInputItemModel {
    Message { role: Seq<char>, content: Option<Seq<ResponsesContentPartModel>>, id: Option<Seq<char>>, name: Option<Seq<char>> },
    FunctionCall { call_id: Seq<char>, name: Seq<char>, arguments: Seq<char>, id: Option<Seq<char>>, status: Option<Seq<char>> },
    FunctionCallOutput { call_id: Seq<char>, output: Seq<char>, id: Option<Seq<char>>, status: Option<Seq<char>> },
}

impl View for ResponsesInputItem {
    type V = ResponsesInputItemModel;

    open spec fn view(&self) -> ResponsesInputItemModel {
        match self {
            ResponsesInputItem::Message { role, content, id, name } => ResponsesInputItemModel::Message { role: (*role)@, content: (match (*content) { Some(x1) => Some(x1@.map_values(|x2: ResponsesContentPart| x2@)), None => None }), id: opt_seq((*id)), name: opt_seq((*name)) },
            ResponsesInputItem::FunctionCall { call_id, name, arguments, id, status } => ResponsesInputItemModel::FunctionCall { call_id: (*call_id)@, name: (*name)@, arguments: (*arguments)@, id: opt_seq((*id)), status: opt_seq((*status)) },
            ResponsesInputItem::FunctionCallOutput { call_id, output, id, status } => ResponsesInputItemModel::FunctionCallOutput { call_id: (*call_id)@, output: (*output)@, id: opt_seq((*id)), status: opt_seq((*status)) },
        }
    }
}

impl Clone for ResponsesInputItem {
    fn clone(&self) -> (r: Self)
        ensures
            r@ == self@,
    {
        match self {
            ResponsesInputItem::Message { role, content, id, name } => { let c_role = (*role).clone(); let c_content = match &(*content) { Some(x3) => { let x4 = clone_vec_ResponsesContentPart(&(*x3)); Some(x4) }, None => None }; let c_id = (*id).clone(); let c_name = (*name).clone(); ResponsesInputItem::Message { role: c_role, content: c_content, id: c_id, name: c_name } },
            ResponsesInputItem::FunctionCall { call_id, name, arguments, id, status } => { let c_call_id = (*call_id).clone(); let c_name = (*name).clone(); let c_arguments = (*arguments).clone(); let c_id = (*id).clone(); let c_status = (*status).clone(); ResponsesInputItem::FunctionCall { call_id: c_call_id, name: c_name, arguments: c_arguments, id: c_id, status: c_status } },
            ResponsesInputItem::FunctionCallOutput { call_id, output, id, status } => { let c_call_id = (*call_id).clone(); let c_output = (*output).clone(); let c_id = (*id).clone(); let c_status = (*status).clone(); ResponsesInputItem::FunctionCallOutput { call_id: c_call_id, output: c_output, id: c_id, status: c_status } },
        }
    }
}

/// Reasoning options of a Responses request.
pub struct ReasoningConfig {
    pub effort: Option<String>,
    pub summary: Option<String>,
}

/// Model of [`ReasoningConfig`].
pub struct ReasoningConfigModel {
    pub effort: Option<Seq<char>>,
    pub summary: Option<Seq<char>>,
}

impl View for ReasoningConfig {
    type V = ReasoningConfigModel;

    open spec fn view(&self) -> ReasoningConfigModel {
        ReasoningConfigModel {
            effort: opt_seq(self.effort),
            summary: opt_seq(self.summary),
        }
    }
}

impl Clone for ReasoningConfig {
    fn clone(&self) -> (r: Self)
        ensures
            r@ == self@,
    {
        let c_effort = self.effort.clone();
        let c_summary = self.summary.clone();
        ReasoningConfig { effort: c_effort, summary: c_summary }
    }
}

/// The requested output format (`text.format`).
pub enum TextFormat {
    Text,
    JsonObject,
    /// A JSON schema; `schema` is JSON text.
    JsonSchema { name: String, schema: String, strict: Option<bool> },
}

/// Model of [`TextFormat`].
pub enum TextFormatModel {
    Text,
    JsonObject,
    JsonSchema { name: Seq<char>, schema: Seq<char>, strict: Option<bool> },
}

impl View for TextFormat {
    type V = TextFormatModel;

    open spec fn view(&self) -> TextFormatModel {
        match self {
            TextFormat::Text => TextFormatModel::Text,
            TextFormat::JsonObject => TextFormatModel::JsonObject,
            TextFormat::JsonSchema { name, schema, strict } => TextFormatModel::JsonSchema { name: (*name)@, schema: (*schema)@, strict: (*strict) },
        }
    }
}

impl Clone for TextFormat {
    fn clone(&self) -> (r: Self)
        ensures
            r@ == self@,
    {
        match self {
            TextFormat::Text => TextFormat::Text,
            TextFormat::JsonObject => TextFormat::JsonObject,
            TextFormat::JsonSchema { name, schema, strict } => { let c_name = (*name).clone(); let c_schema = (*schema).clone(); let c_strict = (*strict).clone(); TextFormat::JsonSchema { name: c_name, schema: c_schema, strict: c_strict } },
        }
    }
}

/// Text options of a Responses request.
pub struct TextConfig {
    pub format: Option<TextFormat>,
}

/// Model of [`TextConfig`].
pub struct TextConfigModel {
    pub format: Option<TextFormatModel>,
}

impl View for TextConfig {
    type V = TextConfigModel;

    open spec fn view(&self) -> TextConfigModel {
        TextConfigModel {
            format: (match self.format { Some(x5) => Some(x5@), None => None }),
        }
    }
}

impl Clone for TextConfig {
    fn clone(&self) -> (r: Self)
        ensures
            r@ == self@,
    {
        let c_format = match &self.format { Some(x6) => { let x7 = (*x6).clone(); Some(x7) }, None => None };
        TextConfig { format: c_format }
    }
}

/// A function tool definition.
pub struct FunctionDefinition {
    pub name: String,
    pub description: Option<String>,
    /// JSON text of the parameter schema.
    pub parameters: Option<String>,
}

/// Model of [`FunctionDefinition`].
pub struct FunctionDefinitionModel {
    pub name: Seq<char>,
    pub description: Option<Seq<char>>,
    pub parameters: Option<Seq<char>>,
}

impl View for FunctionDefinition {
    type V = FunctionDefinitionModel;

    open spec fn view(&self) -> FunctionDefinitionModel {
        FunctionDefinitionModel {
            name: self.name@,
            description: opt_seq(self.description),
            parameters: opt_seq(self.parameters),
        }
    }
}

impl Clone for FunctionDefinition {
    fn clone(&self) -> (r: Self)
        ensures
            r@ == self@,
    {
        let c_name = self.name.clone();
        let c_description = self.description.clone();
        let c_parameters = self.parameters.clone();
        FunctionDefinition { name: c_name, description: c_description, parameters: c_parameters }
    }
}

/// A tool of a Responses request, in the nested (`function`) or the flat (`name`, `description`, `parameters`) form.
pub struct ResponsesTool {
    /// The `type` field.
    pub tool_type: String,
    pub function: Option<FunctionDefinition>,
    pub name: Option<String>,
    pub description: Option<String>,
    /// JSON text.
    pub parameters: Option<String>,
    pub strict: Option<bool>,
}

/// Model of [`ResponsesTool`].
pub struct ResponsesToolModel {
    pub tool_type: Seq<char>,
    pub function: Option<FunctionDefinitionModel>,
    pub name: Option<Seq<char>>,
    pub description: Option<Seq<char>>,
    pub parameters: Option<Seq<char>>,
    pub strict: Option<bool>,
}

impl View for ResponsesTool {
    type V = ResponsesToolModel;

    open spec fn view(&self) -> ResponsesToolModel {
        ResponsesToolModel {
            tool_type: self.tool_type@,
            function: (match self.function { Some(x8) => Some(x8@), None => None }),
            name: opt_seq(self.name),
            description: opt_seq(self.description),
            parameters: opt_seq(self.parameters),
            strict: self.strict,
        }
    }
}

impl Clone for ResponsesTool {
    fn clone(&self) -> (r: Self)
        ensures
            r@ == self@,
    {
        let c_tool_type = self.tool_type.clone();
        let c_function = match &self.function { Some(x9) => { let x10 = (*x9).clone(); Some(x10) }, None => None };
        let c_name = self.name.clone();
        let c_description = self.description.clone();
        let c_parameters = self.parameters.clone();
        let c_strict = self.strict.clone();
        ResponsesTool { tool_type: c_tool_type, function: c_function, name: c_name, description: c_description, parameters: c_parameters, strict: c_strict }
    }
}

/// An OpenAI Responses API request. Numbers that are floating point on the wire (`temperature`, `top_p`, the penalties) are held as their decimal text; `tool_choice` and `metadata` are JSON text.
pub struct ResponsesRequest {
    pub model: String,
    pub input: Option<Vec<ResponsesInputItem>>,
    pub instructions: Option<Instructions>,
    pub stream: Option<bool>,
    pub max_output_tokens: Option<u32>,
    pub temperature: Option<String>,
    pub top_p: Option<String>,
    pub tools: Option<Vec<ResponsesTool>>,
    pub tool_choice: Option<String>,
    pub reasoning: Option<ReasoningConfig>,
    pub text: Option<TextConfig>,
    pub truncation: Option<String>,
    pub store: Option<bool>,
    pub metadata: Option<String>,
    pub previous_response_id: Option<String>,
    pub session_id: Option<String>,
    pub user: Option<String>,
    pub service_tier: Option<String>,
    pub parallel_tool_calls: Option<bool>,
    pub top_logprobs: Option<u32>,
    pub frequency_penalty: Option<String>,
    pub presence_penalty: Option<String>,
}

/// Model of [`ResponsesRequest`].
pub struct ResponsesRequestModel {
    pub model: Seq<char>,
    pub input: Option<Seq<ResponsesInputItemModel>>,
    pub instructions: Option<InstructionsModel>,
    pub stream: Option<bool>,
    pub max_output_tokens: Option<u32>,
    pub temperature: Option<Seq<char>>,
    pub top_p: Option<Seq<char>>,
    pub tools: Option<Seq<ResponsesToolModel>>,
    pub tool_choice: Option<Seq<char>>,
    pub reasoning: Option<ReasoningConfigModel>,
    pub text: Option<TextConfigModel>,
    pub truncation: Option<Seq<char>>,
    pub store: Option<bool>,
    pub metadata: Option<Seq<char>>,
    pub previous_response_id: Option<Seq<char>>,
    pub session_id: Option<Seq<char>>,
    pub user: Option<Seq<char>>,
    pub service_tier: Option<Seq<char>>,
    pub parallel_tool_calls: Option<bool>,
    pub top_logprobs: Option<u32>,
    pub frequency_penalty: Option<Seq<char>>,
    pub presence_penalty: Option<Seq<char>>,
}

impl View for ResponsesRequest {
    type V = ResponsesRequestModel;

    open spec fn view(&self) -> ResponsesRequestModel {
        ResponsesRequestModel {
            model: self.model@,
            input: (match self.input { Some(x11) => Some(x11@.map_values(|x12: ResponsesInputItem| x12@)), None => None }),
            instructions: (match self.instructions { Some(x13) => Some(x13@), None => None }),
            stream: self.stream,
            max_output_tokens: self.max_output_tokens,
            temperature: opt_seq(self.temperature),
            top_p: opt_seq(self.top_p),
            tools: (match self.tools { Some(x14) => Some(x14@.map_values(|x15: ResponsesTool| x15@)), None => None }),
            tool_choice: opt_seq(self.tool_choice),
            reasoning: (match self.reasoning { Some(x16) => Some(x16@), None => None }),
            text: (match self.text { Some(x17) => Some(x17@), None => None }),
            truncation: opt_seq(self.truncation),
            store: self.store,
            metadata: opt_seq(self.metadata),
            previous_response_id: opt_seq(self.previous_response_id),
            session_id: opt_seq(self.session_id),
            user: opt_seq(self.user),
            service_tier: opt_seq(self.service_tier),
            parallel_tool_calls: self.parallel_tool_calls,
            top_logprobs: self.top_logprobs,
            frequency_penalty: opt_seq(self.frequency_penalty),
            presence_penalty: opt_seq(self.presence_penalty),
        }
    }
}

impl Clone for ResponsesRequest {
    #[verifier::spinoff_prover]
    #[verifier::rlimit(60)]
    fn clone(&self) -> (r: Self)
        ensures
            r@ == self@,
    {
        let c_model = self.model.clone();
        let c_input = match &self.input { Some(x18) => { let x19 = clone_vec_ResponsesInputItem(&(*x18)); Some(x19) }, None => None };
        let c_instructions = match &self.instructions { Some(x20) => { let x21 = (*x20).clone(); Some(x21) }, None => None };
        let c_stream = self.stream.clone();
        let c_max_output_tokens = self.max_output_tokens.clone();
        let c_temperature = self.temperature.clone();
        let c_top_p = self.top_p.clone();
        let c_tools = match &self.tools { Some(x22) => { let x23 = clone_vec_ResponsesTool(&(*x22)); Some(x23) }, None => None };
        let c_tool_choice = self.tool_choice.clone();
        let c_reasoning = match &self.reasoning { Some(x24) => { let x25 = (*x24).clone(); Some(x25) }, None => None };
        let c_text = match &self.text { Some(x26) => { let x27 = (*x26).clone(); Some(x27) }, None => None };
        let c_truncation = self.truncation.clone();
        let c_store = self.store.clone();
        let c_metadata = self.metadata.clone();
        let c_previous_response_id = self.previous_response_id.clone();
        let c_session_id = self.session_id.clone();
        let c_user = self.user.clone();
        let c_service_tier = self.service_tier.clone();
        let c_parallel_tool_calls = self.parallel_tool_calls.clone();
        let c_top_logprobs = self.top_logprobs.clone();
        let c_frequency_penalty = self.frequency_penalty.clone();
        let c_presence_penalty = self.presence_penalty.clone();
        ResponsesRequest { model: c_model, input: c_input, instructions: c_instructions, stream: c_stream, max_output_tokens: c_max_output_tokens, temperature: c_temperature, top_p: c_top_p, tools: c_tools, tool_choice: c_tool_choice, reasoning: c_reasoning, text: c_text, truncation: c_truncation, store: c_store, metadata: c_metadata, previous_response_id: c_previous_response_id, session_id: c_session_id, user: c_user, service_tier: c_service_tier, parallel_tool_calls: c_parallel_tool_calls, top_logprobs: c_top_logprobs, frequency_penalty: c_frequency_penalty, presence_penalty: c_presence_penalty }
    }
}

/// Details of the input token count.
pub struct InputTokensDetails {
    pub cached_tokens: Option<u32>,
}

/// Model of [`InputTokensDetails`].
pub struct InputTokensDetailsModel {
    pub cached_tokens: Option<u32>,
}

impl View for InputTokensDetails {
    type V = InputTokensDetailsModel;

    open spec fn view(&self) -> InputTokensDetailsModel {
        InputTokensDetailsModel {
            cached_tokens: self.cached_tokens,
        }
    }
}

impl Clone for InputTokensDetails {
    fn clone(&self) -> (r: Self)
        ensures
            r@ == self@,
    {
        let c_cached_tokens = self.cached_tokens.clone();
        InputTokensDetails { cached_tokens: c_cached_tokens }
    }
}

/// Details of the output token count.
pub struct OutputTokensDetails {
    pub reasoning_tokens: Option<u32>,
}

/// Model of [`OutputTokensDetails`].
pub struct OutputTokensDetailsModel {
    pub reasoning_tokens: Option<u32>,
}

impl View for OutputTokensDetails {
    type V = OutputTokensDetailsModel;

    open spec fn view(&self) -> OutputTokensDetailsModel {
        OutputTokensDetailsModel {
            reasoning_tokens: self.reasoning_tokens,
        }
    }
}

impl Clone for OutputTokensDetails {
    fn clone(&self) -> (r: Self)
        ensures
            r@ == self@,
    {
        let c_reasoning_tokens = self.reasoning_tokens.clone();
        OutputTokensDetails { reasoning_tokens: c_reasoning_tokens }
    }
}

/// Token usage of a Responses response.
pub struct ResponsesUsage {
    pub input_tokens: u32,
    pub output_tokens: u32,
    pub total_tokens: u32,
    pub input_tokens_details: Option<InputTokensDetails>,
    pub output_tokens_details: Option<OutputTokensDetails>,
}

/// Model of [`ResponsesUsage`].
pub struct ResponsesUsageModel {
    pub input_tokens: u32,
    pub output_tokens: u32,
    pub total_tokens: u32,
    pub input_tokens_details: Option<InputTokensDetailsModel>,
    pub output_tokens_details: Option<OutputTokensDetailsModel>,
}

impl View for ResponsesUsage {
    type V = ResponsesUsageModel;

    open spec fn view(&self) -> ResponsesUsageModel {
        ResponsesUsageModel {
            input_tokens: self.input_tokens,
            output_tokens: self.output_tokens,
            total_tokens: self.total_tokens,
            input_tokens_details: (match self.input_tokens_details { Some(x28) => Some(x28@), None => None }),
            output_tokens_details: (match self.output_tokens_details { Some(x29) => Some(x29@), None => None }),
        }
    }
}

impl Clone for ResponsesUsage {
    fn clone(&self) -> (r: Self)
        ensures
            r@ == self@,
    {
        let c_input_tokens = self.input_tokens;
        let c_output_tokens = self.output_tokens;
        let c_total_tokens = self.total_tokens;
        let c_input_tokens_details = match &self.input_tokens_details { Some(x30) => { let x31 = (*x30).clone(); Some(x31) }, None => None };
        let c_output_tokens_details = match &self.output_tokens_details { Some(x32) => { let x33 = (*x32).clone(); Some(x33) }, None => None };
        ResponsesUsage { input_tokens: c_input_tokens, output_tokens: c_output_tokens, total_tokens: c_total_tokens, input_tokens_details: c_input_tokens_details, output_tokens_details: c_output_tokens_details }
    }
}

/// An output item of a Responses response.
pub enum ResponsesOutputItem {
    Message { id: String, role: Option<String>, content: Vec<ResponsesContentPart>, status: Option<String> },
    FunctionCall { id: String, call_id: String, name: String, arguments: String, status: Option<String> },
    Reasoning { id: String, content: Option<Vec<ResponsesContentPart>>, summary: Option<Vec<ResponsesContentPart>>, status: Option<String> },
}

/// Model of [`ResponsesOutputItem`].
pub enum ResponsesOutputItemModel {
    Message { id: Seq<char>, role: Option<Seq<char>>, content: Seq<ResponsesContentPartModel>, status: Option<Seq<char>> },
    FunctionCall { id: Seq<char>, call_id: Seq<char>, name: Seq<char>, arguments: Seq<char>, status: Option<Seq<char>> },
    Reasoning { id: Seq<char>, content: Option<Seq<ResponsesContentPartModel>>, summary: Option<Seq<ResponsesContentPartModel>>, status: Option<Seq<char>> },
}

impl View for ResponsesOutputItem {
    type V = ResponsesOutputItemModel;

    open spec fn view(&self) -> ResponsesOutputItemModel {
        match self {
            ResponsesOutputItem::Message { id, role, content, status } => ResponsesOutputItemModel::Message { id: (*id)@, role: opt_seq((*role)), content: (*content)@.map_values(|x34: ResponsesContentPart| x34@), status: opt_seq((*status)) },
            ResponsesOutputItem::FunctionCall { id, call_id, name, arguments, status } => ResponsesOutputItemModel::FunctionCall { id: (*id)@, call_id: (*call_id)@, name: (*name)@, arguments: (*arguments)@, status: opt_seq((*status)) },
            ResponsesOutputItem::Reasoning { id, content, summary, status } => ResponsesOutputItemModel::Reasoning { id: (*id)@, content: (match (*content) { Some(x35) => Some(x35@.map_values(|x36: ResponsesContentPart| x36@)), None => None }), summary: (match (*summary) { Some(x37) => Some(x37@.map_values(|x38: ResponsesContentPart| x38@)), None => None }), status: opt_seq((*status)) },
        }
    }
}

impl Clone for ResponsesOutputItem {
    fn clone(&self) -> (r: Self)
        ensures
            r@ == self@,
    {
        match self {
            ResponsesOutputItem::Message { id, role, content, status } => { let c_id = (*id).clone(); let c_role = (*role).clone(); let c_content = clone_vec_ResponsesContentPart(&(*content)); let c_status = (*status).clone(); ResponsesOutputItem::Message { id: c_id, role: c_role, content: c_content, status: c_status } },
            ResponsesOutputItem::FunctionCall { id, call_id, name, arguments, status } => { let c_id = (*id).clone(); let c_call_id = (*call_id).clone(); let c_name = (*name).clone(); let c_arguments = (*arguments).clone(); let c_status = (*status).clone(); ResponsesOutputItem::FunctionCall { id: c_id, call_id: c_call_id, name: c_name, arguments: c_arguments, status: c_status } },
            ResponsesOutputItem::Reasoning { id, content, summary, status } => { let c_id = (*id).clone(); let c_content = match &(*content) { Some(x39) => { let x40 = clone_vec_ResponsesContentPart(&(*x39)); Some(x40) }, None => None }; let c_summary = match &(*summary) { Some(x41) => { let x42 = clone_vec_ResponsesContentPart(&(*x41)); Some(x42) }, None => None }; let c_status = (*status).clone(); ResponsesOutputItem::Reasoning { id: c_id, content: c_content, summary: c_summary, status: c_status } },
        }
    }
}

/// An OpenAI Responses API response; `incomplete_details` and `error` are JSON text.
pub struct ResponsesResponse {
    pub id: String,
    pub object: String,
    pub output: Vec<ResponsesOutputItem>,
    pub status: Option<String>,
    pub usage: Option<ResponsesUsage>,
    pub model: Option<String>,
    pub incomplete_details: Option<String>,
    pub error: Option<String>,
    pub created_at: Option<i64>,
    pub completed_at: Option<i64>,
}

/// Model of [`ResponsesResponse`].
pub struct ResponsesResponseModel {
    pub id: Seq<char>,
    pub object: Seq<char>,
    pub output: Seq<ResponsesOutputItemModel>,
    pub status: Option<Seq<char>>,
    pub usage: Option<ResponsesUsageModel>,
    pub model: Option<Seq<char>>,
    pub incomplete_details: Option<Seq<char>>,
    pub error: Option<Seq<char>>,
    pub created_at: Option<i64>,
    pub completed_at: Option<i64>,
}

impl View for ResponsesResponse {
    type V = ResponsesResponseModel;

    open spec fn view(&self) -> ResponsesResponseModel {
        ResponsesResponseModel {
            id: self.id@,
            object: self.object@,
            output: self.output@.map_values(|x43: ResponsesOutputItem| x43@),
            status: opt_seq(self.status),
            usage: (match self.usage { Some(x44) => Some(x44@), None => None }),
            model: opt_seq(self.model),
            incomplete_details: opt_seq(self.incomplete_details),
            error: opt_seq(self.error),
            created_at: self.created_at,
            completed_at: self.completed_at,
        }
    }
}

impl Clone for ResponsesResponse {
    #[verifier::spinoff_prover]
    #[verifier::rlimit(60)]
    fn clone(&self) -> (r: Self)
        ensures
            r@ == self@,
    {
        let c_id = self.id.clone();
        let c_object = self.object.clone();
        let c_output = clone_vec_ResponsesOutputItem(&self.output);
        let c_status = self.status.clone();
        let c_usage = match &self.usage { Some(x45) => { let x46 = (*x45).clone(); Some(x46) }, None => None };
        let c_model = self.model.clone();
        let c_incomplete_details = self.incomplete_details.clone();
        let c_error = self.error.clone();
        let c_created_at = self.created_at.clone();
        let c_completed_at = self.completed_at.clone();
        ResponsesResponse { id: c_id, object: c_object, output: c_output, status: c_status, usage: c_usage, model: c_model, incomplete_details: c_incomplete_details, error: c_error, created_at: c_created_at, completed_at: c_completed_at }
    }
}

/// A server-sent event of a streamed Responses response.
pub enum ResponsesStreamEvent {
    ResponseCreated { response: ResponsesResponse, sequence_number: u32 },
    ResponseInProgress { response: ResponsesResponse, sequence_number: u32 },
    OutputItemAdded { output_index: u32, item: ResponsesOutputItem, sequence_number: u32 },
    ContentPartAdded { output_index: u32, content_index: u32, part: ResponsesContentPart, sequence_number: u32 },
    OutputTextDelta { output_index: u32, content_index: u32, delta: String, item_id: Option<String>, sequence_number: u32 },
    RefusalDelta { output_index: u32, content_index: u32, delta: String, sequence_number: u32 },
    FunctionCallArgsDelta { output_index: u32, delta: String, item_id: Option<String>, sequence_number: u32 },
    FunctionCallArgsDone { output_index: u32, arguments: String, name: String, item_id: Option<String>, sequence_number: u32 },
    ReasoningTextDelta { output_index: u32, content_index: u32, delta: String, sequence_number: u32 },
    OutputItemDone { output_index: u32, item: ResponsesOutputItem, sequence_number: u32 },
    ContentPartDone { output_index: u32, content_index: u32, part: ResponsesContentPart, sequence_number: u32 },
    OutputTextDone { output_index: u32, content_index: u32, text: String, sequence_number: u32 },
    ResponseCompleted { response: ResponsesResponse, sequence_number: u32 },
    Error { code: Option<String>, message: String, sequence_number: u32 },
}

/// Model of [`ResponsesStreamEvent`].
pub enum ResponsesStreamEventModel {
    ResponseCreated { response: ResponsesResponseModel, sequence_number: u32 },
    ResponseInProgress { response: ResponsesResponseModel, sequence_number: u32 },
    OutputItemAdded { output_index: u32, item: ResponsesOutputItemModel, sequence_number: u32 },
    ContentPartAdded { output_index: u32, content_index: u32, part: ResponsesContentPartModel, sequence_number: u32 },
    OutputTextDelta { output_index: u32, content_index: u32, delta: Seq<char>, item_id: Option<Seq<char>>, sequence_number: u32 },
    RefusalDelta { output_index: u32, content_index: u32, delta: Seq<char>, sequence_number: u32 },
    FunctionCallArgsDelta { output_index: u32, delta: Seq<char>, item_id: Option<Seq<char>>, sequence_number: u32 },
    FunctionCallArgsDone { output_index: u32, arguments: Seq<char>, name: Seq<char>, item_id: Option<Seq<char>>, sequence_number: u32 },
    ReasoningTextDelta { output_index: u32, content_index: u32, delta: Seq<char>, sequence_number: u32 },
    OutputItemDone { output_index: u32, item: ResponsesOutputItemModel, sequence_number: u32 },
    ContentPartDone { output_index: u32, content_index: u32, part: ResponsesContentPartModel, sequence_number: u32 },
    OutputTextDone { output_index: u32, content_index: u32, text: Seq<char>, sequence_number: u32 },
    ResponseCompleted { response: ResponsesResponseModel, sequence_number: u32 },
    Error { code: Option<Seq<char>>, message: Seq<char>, sequence_number: u32 },
}

impl View for ResponsesStreamEvent {
    type V = ResponsesStreamEventModel;

    open spec fn view(&self) -> ResponsesStreamEventModel {
        match self {
            ResponsesStreamEvent::ResponseCreated { response, sequence_number } => ResponsesStreamEventModel::ResponseCreated { response: (*response)@, sequence_number: (*sequence_number) },
            ResponsesStreamEvent::ResponseInProgress { response, sequence_number } => ResponsesStreamEventModel::ResponseInProgress { response: (*response)@, sequence_number: (*sequence_number) },
            ResponsesStreamEvent::OutputItemAdded { output_index, item, sequence_number } => ResponsesStreamEventModel::OutputItemAdded { output_index: (*output_index), item: (*item)@, sequence_number: (*sequence_number) },
            ResponsesStreamEvent::ContentPartAdded { output_index, content_index, part, sequence_number } => ResponsesStreamEventModel::ContentPartAdded { output_index: (*output_index), content_index: (*content_index), part: (*part)@, sequence_number: (*sequence_number) },
            ResponsesStreamEvent::OutputTextDelta { output_index, content_index, delta, item_id, sequence_number } => ResponsesStreamEventModel::OutputTextDelta { output_index: (*output_index), content_index: (*content_index), delta: (*delta)@, item_id: opt_seq((*item_id)), sequence_number: (*sequence_number) },
            ResponsesStreamEvent::RefusalDelta { output_index, content_index, delta, sequence_number } => ResponsesStreamEventModel::RefusalDelta { output_index: (*output_index), content_index: (*content_index), delta: (*delta)@, sequence_number: (*sequence_number) },
            ResponsesStreamEvent::FunctionCallArgsDelta { output_index, delta, item_id, sequence_number } => ResponsesStreamEventModel::FunctionCallArgsDelta { output_index: (*output_index), delta: (*delta)@, item_id: opt_seq((*item_id)), sequence_number: (*sequence_number) },
            ResponsesStreamEvent::FunctionCallArgsDone { output_index, arguments, name, item_id, sequence_number } => ResponsesStreamEventModel::FunctionCallArgsDone { output_index: (*output_index), arguments: (*arguments)@, name: (*name)@, item_id: opt_seq((*item_id)), sequence_number: (*sequence_number) },
            ResponsesStreamEvent::ReasoningTextDelta { output_index, content_index, delta, sequence_number } => ResponsesStreamEventModel::ReasoningTextDelta { output_index: (*output_index), content_index: (*content_index), delta: (*delta)@, sequence_number: (*sequence_number) },
            ResponsesStreamEvent::OutputItemDone { output_index, item, sequence_number } => ResponsesStreamEventModel::OutputItemDone { output_index: (*output_index), item: (*item)@, sequence_number: (*sequence_number) },
            ResponsesStreamEvent::ContentPartDone { output_index, content_index, part, sequence_number } => ResponsesStreamEventModel::ContentPartDone { output_index: (*output_index), content_index: (*content_index), part: (*part)@, sequence_number: (*sequence_number) },
            ResponsesStreamEvent::OutputTextDone { output_index, content_index, text, sequence_number } => ResponsesStreamEventModel::OutputTextDone { output_index: (*output_index), content_index: (*content_index), text: (*text)@, sequence_number: (*sequence_number) },
            ResponsesStreamEvent::ResponseCompleted { response, sequence_number } => ResponsesStreamEventModel::ResponseCompleted { response: (*response)@, sequence_number: (*sequence_number) },
            ResponsesStreamEvent::Error { code, message, sequence_number } => ResponsesStreamEventModel::Error { code: opt_seq((*code)), message: (*message)@, sequence_number: (*sequence_number) },
        }
    }
}

impl Clone for ResponsesStreamEvent {
    fn clone(&self) -> (r: Self)
        ensures
            r@ == self@,
    {
        match self {
            ResponsesStreamEvent::ResponseCreated { response, sequence_number } => { let c_response = (*response).clone(); let c_sequence_number = (*sequence_number); ResponsesStreamEvent::ResponseCreated { response: c_response, sequence_number: c_sequence_number } },
            ResponsesStreamEvent::ResponseInProgress { response, sequence_number } => { let c_response = (*response).clone(); let c_sequence_number = (*sequence_number); ResponsesStreamEvent::ResponseInProgress { response: c_response, sequence_number: c_sequence_number } },
            ResponsesStreamEvent::OutputItemAdded { output_index, item, sequence_number } => { let c_output_index = (*output_index); let c_item = (*item).clone(); let c_sequence_number = (*sequence_number); ResponsesStreamEvent::OutputItemAdded { output_index: c_output_index, item: c_item, sequence_number: c_sequence_number } },
            ResponsesStreamEvent::ContentPartAdded { output_index, content_index, part, sequence_number } => { let c_output_index = (*output_index); let c_content_index = (*content_index); let c_part = (*part).clone(); let c_sequence_number = (*sequence_number); ResponsesStreamEvent::ContentPartAdded { output_index: c_output_index, content_index: c_content_index, part: c_part, sequence_number: c_sequence_number } },
            ResponsesStreamEvent::OutputTextDelta { output_index, content_index, delta, item_id, sequence_number } => { let c_output_index = (*output_index); let c_content_index = (*content_index); let c_delta = (*delta).clone(); let c_item_id = (*item_id).clone(); let c_sequence_number = (*sequence_number); ResponsesStreamEvent::OutputTextDelta { output_index: c_output_index, content_index: c_content_index, delta: c_delta, item_id: c_item_id, sequence_number: c_sequence_number } },
            ResponsesStreamEvent::RefusalDelta { output_index, content_index, delta, sequence_number } => { let c_output_index = (*output_index); let c_content_index = (*content_index); let c_delta = (*delta).clone(); let c_sequence_number = (*sequence_number); ResponsesStreamEvent::RefusalDelta { output_index: c_output_index, content_index: c_content_index, delta: c_delta, sequence_number: c_sequence_number } },
            ResponsesStreamEvent::FunctionCallArgsDelta { output_index, delta, item_id, sequence_number } => { let c_output_index = (*output_index); let c_delta = (*delta).clone(); let c_item_id = (*item_id).clone(); let c_sequence_number = (*sequence_number); ResponsesStreamEvent::FunctionCallArgsDelta { output_index: c_output_index, delta: c_delta, item_id: c_item_id, sequence_number: c_sequence_number } },
            ResponsesStreamEvent::FunctionCallArgsDone { output_index, arguments, name, item_id, sequence_number } => { let c_output_index = (*output_index); let c_arguments = (*arguments).clone(); let c_name = (*name).clone(); let c_item_id = (*item_id).clone(); let c_sequence_number = (*sequence_number); ResponsesStreamEvent::FunctionCallArgsDone { output_index: c_output_index, arguments: c_arguments, name: c_name, item_id: c_item_id, sequence_number: c_sequence_number } },
            ResponsesStreamEvent::ReasoningTextDelta { output_index, content_index, delta, sequence_number } => { let c_output_index = (*output_index); let c_content_index = (*content_index); let c_delta = (*delta).clone(); let c_sequence_number = (*sequence_number); ResponsesStreamEvent::ReasoningTextDelta { output_index: c_output_index, content_index: c_content_index, delta: c_delta, sequence_number: c_sequence_number } },
            ResponsesStreamEvent::OutputItemDone { output_index, item, sequence_number } => { let c_output_index = (*output_index); let c_item = (*item).clone(); let c_sequence_number = (*sequence_number); ResponsesStreamEvent::OutputItemDone { output_index: c_output_index, item: c_item, sequence_number: c_sequence_number } },
            ResponsesStreamEvent::ContentPartDone { output_index, content_index, part, sequence_number } => { let c_output_index = (*output_index); let c_content_index = (*content_index); let c_part = (*part).clone(); let c_sequence_number = (*sequence_number); ResponsesStreamEvent::ContentPartDone { output_index: c_output_index, content_index: c_content_index, part: c_part, sequence_number: c_sequence_number } },
            ResponsesStreamEvent::OutputTextDone { output_index, content_index, text, sequence_number } => { let c_output_index = (*output_index); let c_content_index = (*content_index); let c_text = (*text).clone(); let c_sequence_number = (*sequence_number); ResponsesStreamEvent::OutputTextDone { output_index: c_output_index, content_index: c_content_index, text: c_text, sequence_number: c_sequence_number } },
            ResponsesStreamEvent::ResponseCompleted { response, sequence_number } => { let c_response = (*response).clone(); let c_sequence_number = (*sequence_number); ResponsesStreamEvent::ResponseCompleted { response: c_response, sequence_number: c_sequence_number } },
            ResponsesStreamEvent::Error { code, message, sequence_number } => { let c_code = (*code).clone(); let c_message = (*message).clone(); let c_sequence_number = (*sequence_number); ResponsesStreamEvent::Error { code: c_code, message: c_message, sequence_number: c_sequence_number } },
        }
    }
}

/// A `POST /v1/responses/compact` request.
pub struct CompactRequest {
    pub input: Vec<ResponsesInputItem>,
    pub instructions: Option<Instructions>,
    pub model: Option<String>,
}

/// Model of [`CompactRequest`].
pub struct CompactRequestModel {
    pub input: Seq<ResponsesInputItemModel>,
    pub instructions: Option<InstructionsModel>,
    pub model: Option<Seq<char>>,
}

impl View for CompactRequest {
    type V = CompactRequestModel;

    open spec fn view(&self) -> CompactRequestModel {
        CompactRequestModel {
            input: self.input@.map_values(|x47: ResponsesInputItem| x47@),
            instructions: (match self.instructions { Some(x48) => Some(x48@), None => None }),
            model: opt_seq(self.model),
        }
    }
}

impl Clone for CompactRequest {
    fn clone(&self) -> (r: Self)
        ensures
            r@ == self@,
    {
        let c_input = clone_vec_ResponsesInputItem(&self.input);
        let c_instructions = match &self.instructions { Some(x49) => { let x50 = (*x49).clone(); Some(x50) }, None => None };
        let c_model = self.model.clone();
        CompactRequest { input: c_input, instructions: c_instructions, model: c_model }
    }
}

/// An output item of a compaction response.
pub enum ResponsesOutputCompactItem {
    Message { id: String, role: String, content: Vec<ResponsesContentPart>, status: String },
}

/// Model of [`ResponsesOutputCompactItem`].
pub enum ResponsesOutputCompactItemModel {
    Message { id: Seq<char>, role: Seq<char>, content: Seq<ResponsesContentPartModel>, status: Seq<char> },
}

impl View for ResponsesOutputCompactItem {
    type V = ResponsesOutputCompactItemModel;

    open spec fn view(&self) -> ResponsesOutputCompactItemModel {
        match self {
            ResponsesOutputCompactItem::Message { id, role, content, status } => ResponsesOutputCompactItemModel::Message { id: (*id)@, role: (*role)@, content: (*content)@.map_values(|x51: ResponsesContentPart| x51@), status: (*status)@ },
        }
    }
}

impl Clone for ResponsesOutputCompactItem {
    fn clone(&self) -> (r: Self)
        ensures
            r@ == self@,
    {
        match self {
            ResponsesOutputCompactItem::Message { id, role, content, status } => { let c_id = (*id).clone(); let c_role = (*role).clone(); let c_content = clone_vec_ResponsesContentPart(&(*content)); let c_status = (*status).clone(); ResponsesOutputCompactItem::Message { id: c_id, role: c_role, content: c_content, status: c_status } },
        }
    }
}

/// A `POST /v1/responses/compact` response.
pub struct CompactResponse {
    pub id: String,
    pub object: String,
    pub output: Vec<ResponsesOutputCompactItem>,
    pub status: String,
}

/// Model of [`CompactResponse`].
pub struct CompactResponseModel {
    pub id: Seq<char>,
    pub object: Seq<char>,
    pub output: Seq<ResponsesOutputCompactItemModel>,
    pub status: Seq<char>,
}

impl View for CompactResponse {
    type V = CompactResponseModel;

    open spec fn view(&self) -> CompactResponseModel {
        CompactResponseModel {
            id: self.id@,
            object: self.object@,
            output: self.output@.map_values(|x52: ResponsesOutputCompactItem| x52@),
            status: self.status@,
        }
    }
}

impl Clone for CompactResponse {
    fn clone(&self) -> (r: Self)
        ensures
            r@ == self@,
    {
        let c_id = self.id.clone();
        let c_object = self.object.clone();
        let c_output = clone_vec_ResponsesOutputCompactItem(&self.output);
        let c_status = self.status.clone();
        CompactResponse { id: c_id, object: c_object, output: c_output, status: c_status }
    }
}

/// A copy of a vector of [`ResponsesContentPart`].
pub fn clone_vec_ResponsesContentPart(v: &Vec<ResponsesContentPart>) -> (r: Vec<ResponsesContentPart>)
    ensures
        r@.map_values(|x53: ResponsesContentPart| x53@) == v@.map_values(|x54: ResponsesContentPart| x54@),
{
    let mut r: Vec<ResponsesContentPart> = Vec::new();
    let mut i: usize = 0;
    while i < v.len()
        invariant
            i <= v.len(),
            r@.len() == i,
            forall|j: int| 0 <= j < i ==> r@[j]@ == v@[j]@,
        decreases v.len() - i,
    {
        r.push(v[i].clone());
        i += 1;
    }
    assert(r@.map_values(|x55: ResponsesContentPart| x55@) =~= v@.map_values(|x56: ResponsesContentPart| x56@));
    r
}

/// A copy of a vector of [`ResponsesInputItem`].
pub fn clone_vec_ResponsesInputItem(v: &Vec<ResponsesInputItem>) -> (r: Vec<ResponsesInputItem>)
    ensures
        r@.map_values(|x57: ResponsesInputItem| x57@) == v@.map_values(|x58: ResponsesInputItem| x58@),
{
    let mut r: Vec<ResponsesInputItem> = Vec::new();
    let mut i: usize = 0;
    while i < v.len()
        invariant
            i <= v.len(),
            r@.len() == i,
            forall|j: int| 0 <= j < i ==> r@[j]@ == v@[j]@,
        decreases v.len() - i,
    {
        r.push(v[i].clone());
        i += 1;
    }
    assert(r@.map_values(|x59: ResponsesInputItem| x59@) =~= v@.map_values(|x60: ResponsesInputItem| x60@));
    r
}

/// A copy of a vector of [`ResponsesOutputCompactItem`].
pub fn clone_vec_ResponsesOutputCompactItem(v: &Vec<ResponsesOutputCompactItem>) -> (r: Vec<ResponsesOutputCompactItem>)
    ensures
        r@.map_values(|x61: ResponsesOutputCompactItem| x61@) == v@.map_values(|x62: ResponsesOutputCompactItem| x62@),
{
    let mut r: Vec<ResponsesOutputCompactItem> = Vec::new();
    let mut i: usize = 0;
    while i < v.len()
        invariant
            i <= v.len(),
            r@.len() == i,
            forall|j: int| 0 <= j < i ==> r@[j]@ == v@[j]@,
        decreases v.len() - i,
    {
        r.push(v[i].clone());
        i += 1;
    }
    assert(r@.map_values(|x63: ResponsesOutputCompactItem| x63@) =~= v@.map_values(|x64: ResponsesOutputCompactItem| x64@));
    r
}

/// A copy of a vector of [`ResponsesOutputItem`].
pub fn clone_vec_ResponsesOutputItem(v: &Vec<ResponsesOutputItem>) -> (r: Vec<ResponsesOutputItem>)
    ensures
        r@.map_values(|x65: ResponsesOutputItem| x65@) == v@.map_values(|x66: ResponsesOutputItem| x66@),
{
    let mut r: Vec<ResponsesOutputItem> = Vec::new();
    let mut i: usize = 0;
    while i < v.len()
        invariant
            i <= v.len(),
            r@.len() == i,
            forall|j: int| 0 <= j < i ==> r@[j]@ == v@[j]@,
        decreases v.len() - i,
    {
        r.push(v[i].clone());
        i += 1;
    }
    assert(r@.map_values(|x67: ResponsesOutputItem| x67@) =~= v@.map_values(|x68: ResponsesOutputItem| x68@));
    r
}

/// A copy of a vector of [`ResponsesTool`].
pub fn clone_vec_ResponsesTool(v: &Vec<ResponsesTool>) -> (r: Vec<ResponsesTool>)
    ensures
        r@.map_values(|x69: ResponsesTool| x69@) == v@.map_values(|x70: ResponsesTool| x70@),
{
    let mut r: Vec<ResponsesTool> = Vec::new();
    let mut i: usize = 0;
    while i < v.len()
        invariant
            i <= v.len(),
            r@.len() == i,
            forall|j: int| 0 <= j < i ==> r@[j]@ == v@[j]@,
        decreases v.len() - i,
    {
        r.push(v[i].clone());
        i += 1;
    }
    assert(r@.map_values(|x71: ResponsesTool| x71@) =~= v@.map_values(|x72: ResponsesTool| x72@));
    r
}


// ---------------------------------------------------------------------------
// Functions
// ---------------------------------------------------------------------------

/// The function definition a tool describes, in either form: the nested
/// `function` when present, otherwise one built from the flat `name`,
/// `description` and `parameters` when `name` is present.
pub open spec fn tool_function(t: ResponsesToolModel) -> Option<FunctionDefinitionModel> {
    if t.function is Some {
        t.function
    } else if t.name is Some {
        Some(FunctionDefinitionModel { name: t.name.unwrap(), description: t.description, parameters: t.parameters })
    } else {
        None
    }
}

impl ResponsesTool {
    /// Get the function definition regardless of whether the tool uses the
    /// nested or the flat format.
    pub fn get_function(&self) -> (r: Option<FunctionDefinition>)
        ensures
            match r {
                Some(f) => tool_function(self@) == Some(f@),
                None => tool_function(self@) is None,
            },
    {
        if let Some(f) = &self.function {
            return Some(f.clone());
        }
        match &self.name {
            Some(n) => Some(FunctionDefinition {
                name: n.clone(),
                description: self.description.clone(),
                parameters: self.parameters.clone(),
            }),
            None => None,
        }
    }
}

/// The text a content part contributes to a plain-text rendering: the text
/// of text parts and the output of tool results.
pub open spec fn part_text(p: ResponsesContentPartModel) -> Option<Seq<char>> {
    match p {
        ResponsesContentPartModel::InputText { text } => Some(text),
        ResponsesContentPartModel::OutputText { text } => Some(text),
        ResponsesContentPartModel::Text { text } => Some(text),
        ResponsesContentPartModel::ToolResult { output, .. } => Some(output),
        _ => None,
    }
}

/// The texts of the parts that have one, in order.
pub open spec fn part_texts(parts: Seq<ResponsesContentPartModel>) -> Seq<Seq<char>>
    decreases parts.len(),
{
    if parts.len() == 0 {
        seq![]
    } else {
        let rest = part_texts(parts.drop_last());
        match part_text(parts.last()) {
            Some(t) => rest.push(t),
            None => rest,
        }
    }
}

/// Models of a slice of content parts.
pub open spec fn parts_model(parts: Seq<ResponsesContentPart>) -> Seq<ResponsesContentPartModel> {
    parts.map_values(|p: ResponsesContentPart| p@)
}

proof fn lemma_part_texts_append(a: Seq<ResponsesContentPartModel>, b: Seq<ResponsesContentPartModel>)
    ensures
        part_texts(a + b) == part_texts(a) + part_texts(b),
    decreases b.len(),
{
    if b.len() == 0 {
        assert(a + b =~= a);
        assert(part_texts(a) + part_texts(b) =~= part_texts(a));
    } else {
        lemma_part_texts_append(a, b.drop_last());
        assert((a + b).drop_last() =~= a + b.drop_last());
        assert((a + b).last() == b.last());
        match part_text(b.last()) {
            Some(t) => {
                assert(part_texts(a) + part_texts(b) =~= (part_texts(a) + part_texts(b.drop_last())).push(t));
            },
            None => {},
        }
    }
}

proof fn lemma_join_append(x: Seq<Seq<char>>, y: Seq<Seq<char>>, sep: Seq<char>)
    requires
        x.len() > 0,
        y.len() > 0,
    ensures
        join_seqs(x + y, sep) == join_seqs(x, sep) + sep + join_seqs(y, sep),
    decreases y.len(),
{
    if y.len() == 1 {
        assert((x + y).drop_last() =~= x);
        assert((x + y).last() == y[0]);
    } else {
        lemma_join_append(x, y.drop_last(), sep);
        assert((x + y).drop_last() =~= x + y.drop_last());
        assert((x + y).last() == y.last());
        assert(join_seqs(x, sep) + sep + join_seqs(y, sep) =~= join_seqs(x, sep) + sep + join_seqs(y.drop_last(), sep)
            + sep + y.last());
    }
}

/// The text of two lists of parts put together: the two texts joined by a
/// line break, or just the one that has text when the other has none.
pub proof fn law_parts_text_append(a: Seq<ResponsesContentPartModel>, b: Seq<ResponsesContentPartModel>)
    ensures
        join_seqs(part_texts(a + b), "\n"@) == if part_texts(a).len() == 0 {
            join_seqs(part_texts(b), "\n"@)
        } else if part_texts(b).len() == 0 {
            join_seqs(part_texts(a), "\n"@)
        } else {
            join_seqs(part_texts(a), "\n"@) + "\n"@ + join_seqs(part_texts(b), "\n"@)
        },
{
    lemma_part_texts_append(a, b);
    if part_texts(a).len() == 0 {
        assert(part_texts(a) + part_texts(b) =~= part_texts(b));
    } else if part_texts(b).len() == 0 {
        assert(part_texts(a) + part_texts(b) =~= part_texts(a));
    } else {
        lemma_join_append(part_texts(a), part_texts(b), "\n"@);
    }
}

/// Extract the text of content parts, one line per part that has text.
pub fn content_parts_to_text(parts: &[ResponsesContentPart]) -> (r: String)
    ensures
        r@ == join_seqs(part_texts(parts_model(parts@)), "\n"@),
{
    let ghost ps = parts_model(parts@);
    let mut texts: Vec<String> = Vec::new();
    let mut i: usize = 0;
    while i < parts.len()
        invariant
            i <= parts.len(),
            ps == parts_model(parts@),
            string_seqs(texts@) == part_texts(ps.take(i as int)),
        decreases parts.len() - i,
    {
        proof {
            assert(ps.take(i + 1).drop_last() =~= ps.take(i as int));
        }
        match &parts[i] {
            ResponsesContentPart::InputText { text }
            | ResponsesContentPart::OutputText { text }
            | ResponsesContentPart::Text { text } => {
                texts.push(text.clone());
                assert(string_seqs(texts@) =~= part_texts(ps.take(i + 1)));
            },
            ResponsesContentPart::ToolResult { output, .. } => {
                texts.push(output.clone());
                assert(string_seqs(texts@) =~= part_texts(ps.take(i + 1)));
            },
            _ => {},
        }
        i += 1;
    }
    assert(ps.take(parts.len() as int) =~= ps);
    join(&texts, "\n")
}

impl Instructions {
    /// Instructions sent as an array: the pieces (strings, or the `text` of
    /// objects) joined by a blank line.
    pub fn from_pieces(pieces: &Vec<String>) -> (r: Instructions)
        ensures
            r@ == join_seqs(string_seqs(pieces@), "\n\n"@),
    {
        Instructions(join(pieces, "\n\n"))
    }
}

/// A function-call output sent as an array: the pieces (strings, or the
/// `text` of objects) joined by a line break.
pub fn output_from_pieces(pieces: &Vec<String>) -> (r: String)
    ensures
        r@ == join_seqs(string_seqs(pieces@), "\n"@),
{
    join(pieces, "\n")
}

} // verus!

