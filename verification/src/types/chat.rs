//! Types of the OpenAI Chat Completions API.

use vstd::prelude::*;
use crate::json::opt_seq;

verus! {

/// An image reference of a chat content part.
pub struct ChatImageUrl {
    pub url: String,
    pub detail: Option<String>,
}

/// Model of [`ChatImageUrl`].
pub struct ChatImageUrlModel {
    pub url: Seq<char>,
    pub detail: Option<Seq<char>>,
}

impl View for ChatImageUrl {
    type V = ChatImageUrlModel;

    open spec fn view(&self) -> ChatImageUrlModel {
        ChatImageUrlModel {
            url: self.url@,
            detail: opt_seq(self.detail),
        }
    }
}

impl Clone for ChatImageUrl {
    fn clone(&self) -> (r: Self)
        ensures
            r@ == self@,
    {
        let c_url = self.url.clone();
        let c_detail = self.detail.clone();
        ChatImageUrl { url: c_url, detail: c_detail }
    }
}

/// A part of multi-part chat content.
pub enum ChatContentPart {
    Text { text: String },
    ImageUrl { image_url: ChatImageUrl },
    /// Audio input; JSON text.
    InputAudio { input_audio: String },
    Refusal { refusal: String },
}

/// Model of [`ChatContentPart`].
pub enum ChatContentPartModel {
    Text { text: Seq<char> },
    ImageUrl { image_url: ChatImageUrlModel },
    InputAudio { input_audio: Seq<char> },
    Refusal { refusal: Seq<char> },
}

impl View for ChatContentPart {
    type V = ChatContentPartModel;

    open spec fn view(&self) -> ChatContentPartModel {
        match self {
            ChatContentPart::Text { text } => ChatContentPartModel::Text { text: (*text)@ },
            ChatContentPart::ImageUrl { image_url } => ChatContentPartModel::ImageUrl { image_url: (*image_url)@ },
            ChatContentPart::InputAudio { input_audio } => ChatContentPartModel::InputAudio { input_audio: (*input_audio)@ },
            ChatContentPart::Refusal { refusal } => ChatContentPartModel::Refusal { refusal: (*refusal)@ },
        }
    }
}

impl Clone for ChatContentPart {
    fn clone(&self) -> (r: Self)
        ensures
            r@ == self@,
    {
        match self {
            ChatContentPart::Text { text } => { let c_text = (*text).clone(); ChatContentPart::Text { text: c_text } },
            ChatContentPart::ImageUrl { image_url } => { let c_image_url = (*image_url).clone(); ChatContentPart::ImageUrl { image_url: c_image_url } },
            ChatContentPart::InputAudio { input_audio } => { let c_input_audio = (*input_audio).clone(); ChatContentPart::InputAudio { input_audio: c_input_audio } },
            ChatContentPart::Refusal { refusal } => { let c_refusal = (*refusal).clone(); ChatContentPart::Refusal { refusal: c_refusal } },
        }
    }
}

/// The content of a chat message.
pub enum ChatContent {
    String(String),
    Parts(Vec<ChatContentPart>),
}

/// Model of [`ChatContent`].
pub enum ChatContentModel {
    String(Seq<char>),
    Parts(Seq<ChatContentPartModel>),
}

impl View for ChatContent {
    type V = ChatContentModel;

    open spec fn view(&self) -> ChatContentModel {
        match self {
            ChatContent::String(a) => ChatContentModel::String((*a)@),
            ChatContent::Parts(a) => ChatContentModel::Parts((*a)@.map_values(|x1: ChatContentPart| x1@)),
        }
    }
}

impl Clone for ChatContent {
    fn clone(&self) -> (r: Self)
        ensures
            r@ == self@,
    {
        match self {
            ChatContent::String(a) => { let c = (*a).clone(); ChatContent::String(c) },
            ChatContent::Parts(a) => { let c = clone_vec_ChatContentPart(&(*a)); ChatContent::Parts(c) },
        }
    }
}

/// The function of a tool call.
pub struct FunctionCall {
    pub name: String,
    /// JSON text.
    pub arguments: String,
}

/// Model of [`FunctionCall`].
pub struct FunctionCallModel {
    pub name: Seq<char>,
    pub arguments: Seq<char>,
}

impl View for FunctionCall {
    type V = FunctionCallModel;

    open spec fn view(&self) -> FunctionCallModel {
        FunctionCallModel {
            name: self.name@,
            arguments: self.arguments@,
        }
    }
}

impl Clone for FunctionCall {
    fn clone(&self) -> (r: Self)
        ensures
            r@ == self@,
    {
        let c_name = self.name.clone();
        let c_arguments = self.arguments.clone();
        FunctionCall { name: c_name, arguments: c_arguments }
    }
}

/// A tool call of a chat message.
pub struct ToolCall {
    pub id: String,
    /// The `type` field.
    pub tool_type: String,
    pub function: FunctionCall,
    pub index: Option<u32>,
}

/// Model of [`ToolCall`].
pub struct ToolCallModel {
    pub id: Seq<char>,
    pub tool_type: Seq<char>,
    pub function: FunctionCallModel,
    pub index: Option<u32>,
}

impl View for ToolCall {
    type V = ToolCallModel;

    open spec fn view(&self) -> ToolCallModel {
        ToolCallModel {
            id: self.id@,
            tool_type: self.tool_type@,
            function: self.function@,
            index: self.index,
        }
    }
}

impl Clone for ToolCall {
    fn clone(&self) -> (r: Self)
        ensures
            r@ == self@,
    {
        let c_id = self.id.clone();
        let c_tool_type = self.tool_type.clone();
        let c_function = self.function.clone();
        let c_index = self.index.clone();
        ToolCall { id: c_id, tool_type: c_tool_type, function: c_function, index: c_index }
    }
}

/// A Chat Completions message.
pub struct ChatMessage {
    pub role: String,
    pub content: Option<ChatContent>,
    pub name: Option<String>,
    pub tool_calls: Option<Vec<ToolCall>>,
    pub tool_call_id: Option<String>,
    pub refusal: Option<String>,
    pub reasoning_content: Option<String>,
}

/// Model of [`ChatMessage`].
pub struct ChatMessageModel {
    pub role: Seq<char>,
    pub content: Option<ChatContentModel>,
    pub name: Option<Seq<char>>,
    pub tool_calls: Option<Seq<ToolCallModel>>,
    pub tool_call_id: Option<Seq<char>>,
    pub refusal: Option<Seq<char>>,
    pub reasoning_content: Option<Seq<char>>,
}

impl View for ChatMessage {
    type V = ChatMessageModel;

    open spec fn view(&self) -> ChatMessageModel {
        ChatMessageModel {
            role: self.role@,
            content: (match self.content { Some(x2) => Some(x2@), None => None }),
            name: opt_seq(self.name),
            tool_calls: (match self.tool_calls { Some(x3) => Some(x3@.map_values(|x4: ToolCall| x4@)), None => None }),
            tool_call_id: opt_seq(self.tool_call_id),
            refusal: opt_seq(self.refusal),
            reasoning_content: opt_seq(self.reasoning_content),
        }
    }
}

impl Clone for ChatMessage {
    fn clone(&self) -> (r: Self)
        ensures
            r@ == self@,
    {
        let c_role = self.role.clone();
        let c_content = match &self.content { Some(x5) => { let x6 = (*x5).clone(); Some(x6) }, None => None };
        let c_name = self.name.clone();
        let c_tool_calls = match &self.tool_calls { Some(x7) => { let x8 = clone_vec_ToolCall(&(*x7)); Some(x8) }, None => None };
        let c_tool_call_id = self.tool_call_id.clone();
        let c_refusal = self.refusal.clone();
        let c_reasoning_content = self.reasoning_content.clone();
        ChatMessage { role: c_role, content: c_content, name: c_name, tool_calls: c_tool_calls, tool_call_id: c_tool_call_id, refusal: c_refusal, reasoning_content: c_reasoning_content }
    }
}

/// The function of a chat tool.
pub struct ChatFunction {
    pub name: String,
    pub description: Option<String>,
    /// JSON text.
    pub parameters: Option<String>,
}

/// Model of [`ChatFunction`].
pub struct ChatFunctionModel {
    pub name: Seq<char>,
    pub description: Option<Seq<char>>,
    pub parameters: Option<Seq<char>>,
}

impl View for ChatFunction {
    type V = ChatFunctionModel;

    open spec fn view(&self) -> ChatFunctionModel {
        ChatFunctionModel {
            name: self.name@,
            description: opt_seq(self.description),
            parameters: opt_seq(self.parameters),
        }
    }
}

impl Clone for ChatFunction {
    fn clone(&self) -> (r: Self)
        ensures
            r@ == self@,
    {
        let c_name = self.name.clone();
        let c_description = self.description.clone();
        let c_parameters = self.parameters.clone();
        ChatFunction { name: c_name, description: c_description, parameters: c_parameters }
    }
}

/// A tool of a chat request.
pub struct ChatTool {
    /// The `type` field.
    pub tool_type: String,
    pub function: ChatFunction,
}

/// Model of [`ChatTool`].
pub struct ChatToolModel {
    pub tool_type: Seq<char>,
    pub function: ChatFunctionModel,
}

impl View for ChatTool {
    type V = ChatToolModel;

    open spec fn view(&self) -> ChatToolModel {
        ChatToolModel {
            tool_type: self.tool_type@,
            function: self.function@,
        }
    }
}

impl Clone for ChatTool {
    fn clone(&self) -> (r: Self)
        ensures
            r@ == self@,
    {
        let c_tool_type = self.tool_type.clone();
        let c_function = self.function.clone();
        ChatTool { tool_type: c_tool_type, function: c_function }
    }
}

/// A JSON schema response format.
pub struct JsonSchemaDef {
    pub name: String,
    /// JSON text.
    pub schema: String,
    pub strict: Option<bool>,
}

/// Model of [`JsonSchemaDef`].
pub struct JsonSchemaDefModel {
    pub name: Seq<char>,
    pub schema: Seq<char>,
    pub strict: Option<bool>,
}

impl View for JsonSchemaDef {
    type V = JsonSchemaDefModel;

    open spec fn view(&self) -> JsonSchemaDefModel {
        JsonSchemaDefModel {
            name: self.name@,
            schema: self.schema@,
            strict: self.strict,
        }
    }
}

impl Clone for JsonSchemaDef {
    fn clone(&self) -> (r: Self)
        ensures
            r@ == self@,
    {
        let c_name = self.name.clone();
        let c_schema = self.schema.clone();
        let c_strict = self.strict.clone();
        JsonSchemaDef { name: c_name, schema: c_schema, strict: c_strict }
    }
}

/// The `response_format` of a chat request.
pub enum ResponseFormat {
    Text,
    JsonObject,
    JsonSchema { json_schema: JsonSchemaDef },
}

/// Model of [`ResponseFormat`].
pub enum ResponseFormatModel {
    Text,
    JsonObject,
    JsonSchema { json_schema: JsonSchemaDefModel },
}

impl View for ResponseFormat {
    type V = ResponseFormatModel;

    open spec fn view(&self) -> ResponseFormatModel {
        match self {
            ResponseFormat::Text => ResponseFormatModel::Text,
            ResponseFormat::JsonObject => ResponseFormatModel::JsonObject,
            ResponseFormat::JsonSchema { json_schema } => ResponseFormatModel::JsonSchema { json_schema: (*json_schema)@ },
        }
    }
}

impl Clone for ResponseFormat {
    fn clone(&self) -> (r: Self)
        ensures
            r@ == self@,
    {
        match self {
            ResponseFormat::Text => ResponseFormat::Text,
            ResponseFormat::JsonObject => ResponseFormat::JsonObject,
            ResponseFormat::JsonSchema { json_schema } => { let c_json_schema = (*json_schema).clone(); ResponseFormat::JsonSchema { json_schema: c_json_schema } },
        }
    }
}

/// Streaming options of a chat request.
pub struct StreamOptions {
    pub include_usage: Option<bool>,
}

/// Model of [`StreamOptions`].
pub struct StreamOptionsModel {
    pub include_usage: Option<bool>,
}

impl View for StreamOptions {
    type V = StreamOptionsModel;

    open spec fn view(&self) -> StreamOptionsModel {
        StreamOptionsModel {
            include_usage: self.include_usage,
        }
    }
}

impl Clone for StreamOptions {
    fn clone(&self) -> (r: Self)
        ensures
            r@ == self@,
    {
        let c_include_usage = self.include_usage.clone();
        StreamOptions { include_usage: c_include_usage }
    }
}

/// The vendor `thinking` switch of a chat request.
pub struct ThinkingConfig {
    /// The `type` field.
    pub thinking_type: String,
}

/// Model of [`ThinkingConfig`].
pub struct ThinkingConfigModel {
    pub thinking_type: Seq<char>,
}

impl View for ThinkingConfig {
    type V = ThinkingConfigModel;

    open spec fn view(&self) -> ThinkingConfigModel {
        ThinkingConfigModel {
            thinking_type: self.thinking_type@,
        }
    }
}

impl Clone for ThinkingConfig {
    fn clone(&self) -> (r: Self)
        ensures
            r@ == self@,
    {
        let c_thinking_type = self.thinking_type.clone();
        ThinkingConfig { thinking_type: c_thinking_type }
    }
}

/// A Chat Completions request; floating-point numbers are decimal text, `tool_choice`, `stop` and `metadata` JSON text.
pub struct ChatCompletionsRequest {
    pub model: String,
    pub messages: Vec<ChatMessage>,
    pub stream: Option<bool>,
    pub max_tokens: Option<u32>,
    pub max_completion_tokens: Option<u32>,
    pub temperature: Option<String>,
    pub top_p: Option<String>,
    pub frequency_penalty: Option<String>,
    pub presence_penalty: Option<String>,
    pub tools: Option<Vec<ChatTool>>,
    pub tool_choice: Option<String>,
    pub parallel_tool_calls: Option<bool>,
    pub stop: Option<String>,
    pub n: Option<u32>,
    pub seed: Option<i64>,
    pub stream_options: Option<StreamOptions>,
    pub user: Option<String>,
    pub response_format: Option<ResponseFormat>,
    pub logprobs: Option<bool>,
    pub top_logprobs: Option<u32>,
    pub reasoning_effort: Option<String>,
    pub service_tier: Option<String>,
    pub store: Option<bool>,
    pub metadata: Option<String>,
    pub thinking: Option<ThinkingConfig>,
}

/// Model of [`ChatCompletionsRequest`].
pub struct ChatCompletionsRequestModel {
    pub model: Seq<char>,
    pub messages: Seq<ChatMessageModel>,
    pub stream: Option<bool>,
    pub max_tokens: Option<u32>,
    pub max_completion_tokens: Option<u32>,
    pub temperature: Option<Seq<char>>,
    pub top_p: Option<Seq<char>>,
    pub frequency_penalty: Option<Seq<char>>,
    pub presence_penalty: Option<Seq<char>>,
    pub tools: Option<Seq<ChatToolModel>>,
    pub tool_choice: Option<Seq<char>>,
    pub parallel_tool_calls: Option<bool>,
    pub stop: Option<Seq<char>>,
    pub n: Option<u32>,
    pub seed: Option<i64>,
    pub stream_options: Option<StreamOptionsModel>,
    pub user: Option<Seq<char>>,
    pub response_format: Option<ResponseFormatModel>,
    pub logprobs: Option<bool>,
    pub top_logprobs: Option<u32>,
    pub reasoning_effort: Option<Seq<char>>,
    pub service_tier: Option<Seq<char>>,
    pub store: Option<bool>,
    pub metadata: Option<Seq<char>>,
    pub thinking: Option<ThinkingConfigModel>,
}

impl View for ChatCompletionsRequest {
    type V = ChatCompletionsRequestModel;

    open spec fn view(&self) -> ChatCompletionsRequestModel {
        ChatCompletionsRequestModel {
            model: self.model@,
            messages: self.messages@.map_values(|x9: ChatMessage| x9@),
            stream: self.stream,
            max_tokens: self.max_tokens,
            max_completion_tokens: self.max_completion_tokens,
            temperature: opt_seq(self.temperature),
            top_p: opt_seq(self.top_p),
            frequency_penalty: opt_seq(self.frequency_penalty),
            presence_penalty: opt_seq(self.presence_penalty),
            tools: (match self.tools { Some(x10) => Some(x10@.map_values(|x11: ChatTool| x11@)), None => None }),
            tool_choice: opt_seq(self.tool_choice),
            parallel_tool_calls: self.parallel_tool_calls,
            stop: opt_seq(self.stop),
            n: self.n,
            seed: self.seed,
            stream_options: (match self.stream_options { Some(x12) => Some(x12@), None => None }),
            user: opt_seq(self.user),
            response_format: (match self.response_format { Some(x13) => Some(x13@), None => None }),
            logprobs: self.logprobs,
            top_logprobs: self.top_logprobs,
            reasoning_effort: opt_seq(self.reasoning_effort),
            service_tier: opt_seq(self.service_tier),
            store: self.store,
            metadata: opt_seq(self.metadata),
            thinking: (match self.thinking { Some(x14) => Some(x14@), None => None }),
        }
    }
}

impl Clone for ChatCompletionsRequest {
    #[verifier::spinoff_prover]
    #[verifier::rlimit(60)]
    fn clone(&self) -> (r: Self)
        ensures
            r@ == self@,
    {
        let c_model = self.model.clone();
        let c_messages = clone_vec_ChatMessage(&self.messages);
        let c_stream = self.stream.clone();
        let c_max_tokens = self.max_tokens.clone();
        let c_max_completion_tokens = self.max_completion_tokens.clone();
        let c_temperature = self.temperature.clone();
        let c_top_p = self.top_p.clone();
        let c_frequency_penalty = self.frequency_penalty.clone();
        let c_presence_penalty = self.presence_penalty.clone();
        let c_tools = match &self.tools { Some(x15) => { let x16 = clone_vec_ChatTool(&(*x15)); Some(x16) }, None => None };
        let c_tool_choice = self.tool_choice.clone();
        let c_parallel_tool_calls = self.parallel_tool_calls.clone();
        let c_stop = self.stop.clone();
        let c_n = self.n.clone();
        let c_seed = self.seed.clone();
        let c_stream_options = match &self.stream_options { Some(x17) => { let x18 = (*x17).clone(); Some(x18) }, None => None };
        let c_user = self.user.clone();
        let c_response_format = match &self.response_format { Some(x19) => { let x20 = (*x19).clone(); Some(x20) }, None => None };
        let c_logprobs = self.logprobs.clone();
        let c_top_logprobs = self.top_logprobs.clone();
        let c_reasoning_effort = self.reasoning_effort.clone();
        let c_service_tier = self.service_tier.clone();
        let c_store = self.store.clone();
        let c_metadata = self.metadata.clone();
        let c_thinking = match &self.thinking { Some(x21) => { let x22 = (*x21).clone(); Some(x22) }, None => None };
        ChatCompletionsRequest { model: c_model, messages: c_messages, stream: c_stream, max_tokens: c_max_tokens, max_completion_tokens: c_max_completion_tokens, temperature: c_temperature, top_p: c_top_p, frequency_penalty: c_frequency_penalty, presence_penalty: c_presence_penalty, tools: c_tools, tool_choice: c_tool_choice, parallel_tool_calls: c_parallel_tool_calls, stop: c_stop, n: c_n, seed: c_seed, stream_options: c_stream_options, user: c_user, response_format: c_response_format, logprobs: c_logprobs, top_logprobs: c_top_logprobs, reasoning_effort: c_reasoning_effort, service_tier: c_service_tier, store: c_store, metadata: c_metadata, thinking: c_thinking }
    }
}

/// The function part of a streamed tool call.
pub struct FunctionCallDelta {
    pub name: Option<String>,
    pub arguments: Option<String>,
}

/// Model of [`FunctionCallDelta`].
pub struct FunctionCallDeltaModel {
    pub name: Option<Seq<char>>,
    pub arguments: Option<Seq<char>>,
}

impl View for FunctionCallDelta {
    type V = FunctionCallDeltaModel;

    open spec fn view(&self) -> FunctionCallDeltaModel {
        FunctionCallDeltaModel {
            name: opt_seq(self.name),
            arguments: opt_seq(self.arguments),
        }
    }
}

impl Clone for FunctionCallDelta {
    fn clone(&self) -> (r: Self)
        ensures
            r@ == self@,
    {
        let c_name = self.name.clone();
        let c_arguments = self.arguments.clone();
        FunctionCallDelta { name: c_name, arguments: c_arguments }
    }
}

/// A streamed tool call.
pub struct ToolCallDelta {
    pub index: u32,
    pub id: Option<String>,
    /// The `type` field.
    pub tool_type: Option<String>,
    pub function: Option<FunctionCallDelta>,
}

/// Model of [`ToolCallDelta`].
pub struct ToolCallDeltaModel {
    pub index: u32,
    pub id: Option<Seq<char>>,
    pub tool_type: Option<Seq<char>>,
    pub function: Option<FunctionCallDeltaModel>,
}

impl View for ToolCallDelta {
    type V = ToolCallDeltaModel;

    open spec fn view(&self) -> ToolCallDeltaModel {
        ToolCallDeltaModel {
            index: self.index,
            id: opt_seq(self.id),
            tool_type: opt_seq(self.tool_type),
            function: (match self.function { Some(x23) => Some(x23@), None => None }),
        }
    }
}

impl Clone for ToolCallDelta {
    fn clone(&self) -> (r: Self)
        ensures
            r@ == self@,
    {
        let c_index = self.index;
        let c_id = self.id.clone();
        let c_tool_type = self.tool_type.clone();
        let c_function = match &self.function { Some(x24) => { let x25 = (*x24).clone(); Some(x25) }, None => None };
        ToolCallDelta { index: c_index, id: c_id, tool_type: c_tool_type, function: c_function }
    }
}

/// The delta of a streamed chat chunk.
pub struct ChatDelta {
    pub role: Option<String>,
    pub content: Option<ChatContent>,
    pub tool_calls: Option<Vec<ToolCallDelta>>,
    pub refusal: Option<String>,
    pub reasoning_content: Option<String>,
}

/// Model of [`ChatDelta`].
pub struct ChatDeltaModel {
    pub role: Option<Seq<char>>,
    pub content: Option<ChatContentModel>,
    pub tool_calls: Option<Seq<ToolCallDeltaModel>>,
    pub refusal: Option<Seq<char>>,
    pub reasoning_content: Option<Seq<char>>,
}

impl View for ChatDelta {
    type V = ChatDeltaModel;

    open spec fn view(&self) -> ChatDeltaModel {
        ChatDeltaModel {
            role: opt_seq(self.role),
            content: (match self.content { Some(x26) => Some(x26@), None => None }),
            tool_calls: (match self.tool_calls { Some(x27) => Some(x27@.map_values(|x28: ToolCallDelta| x28@)), None => None }),
            refusal: opt_seq(self.refusal),
            reasoning_content: opt_seq(self.reasoning_content),
        }
    }
}

impl Clone for ChatDelta {
    fn clone(&self) -> (r: Self)
        ensures
            r@ == self@,
    {
        let c_role = self.role.clone();
        let c_content = match &self.content { Some(x29) => { let x30 = (*x29).clone(); Some(x30) }, None => None };
        let c_tool_calls = match &self.tool_calls { Some(x31) => { let x32 = clone_vec_ToolCallDelta(&(*x31)); Some(x32) }, None => None };
        let c_refusal = self.refusal.clone();
        let c_reasoning_content = self.reasoning_content.clone();
        ChatDelta { role: c_role, content: c_content, tool_calls: c_tool_calls, refusal: c_refusal, reasoning_content: c_reasoning_content }
    }
}

/// Details of the prompt token count.
pub struct PromptTokensDetails {
    pub cached_tokens: Option<u32>,
}

/// Model of [`PromptTokensDetails`].
pub struct PromptTokensDetailsModel {
    pub cached_tokens: Option<u32>,
}

impl View for PromptTokensDetails {
    type V = PromptTokensDetailsModel;

    open spec fn view(&self) -> PromptTokensDetailsModel {
        PromptTokensDetailsModel {
            cached_tokens: self.cached_tokens,
        }
    }
}

impl Clone for PromptTokensDetails {
    fn clone(&self) -> (r: Self)
        ensures
            r@ == self@,
    {
        let c_cached_tokens = self.cached_tokens.clone();
        PromptTokensDetails { cached_tokens: c_cached_tokens }
    }
}

/// Details of the completion token count.
pub struct CompletionTokensDetails {
    pub reasoning_tokens: Option<u32>,
}

/// Model of [`CompletionTokensDetails`].
pub struct CompletionTokensDetailsModel {
    pub reasoning_tokens: Option<u32>,
}

impl View for CompletionTokensDetails {
    type V = CompletionTokensDetailsModel;

    open spec fn view(&self) -> CompletionTokensDetailsModel {
        CompletionTokensDetailsModel {
            reasoning_tokens: self.reasoning_tokens,
        }
    }
}

impl Clone for CompletionTokensDetails {
    fn clone(&self) -> (r: Self)
        ensures
            r@ == self@,
    {
        let c_reasoning_tokens = self.reasoning_tokens.clone();
        CompletionTokensDetails { reasoning_tokens: c_reasoning_tokens }
    }
}

/// Token usage of a chat response.
pub struct ChatUsage {
    pub prompt_tokens: u32,
    pub completion_tokens: u32,
    pub total_tokens: u32,
    pub prompt_tokens_details: Option<PromptTokensDetails>,
    pub completion_tokens_details: Option<CompletionTokensDetails>,
}

/// Model of [`ChatUsage`].
pub struct ChatUsageModel {
    pub prompt_tokens: u32,
    pub completion_tokens: u32,
    pub total_tokens: u32,
    pub prompt_tokens_details: Option<PromptTokensDetailsModel>,
    pub completion_tokens_details: Option<CompletionTokensDetailsModel>,
}

impl View for ChatUsage {
    type V = ChatUsageModel;

    open spec fn view(&self) -> ChatUsageModel {
        ChatUsageModel {
            prompt_tokens: self.prompt_tokens,
            completion_tokens: self.completion_tokens,
            total_tokens: self.total_tokens,
            prompt_tokens_details: (match self.prompt_tokens_details { Some(x33) => Some(x33@), None => None }),
            completion_tokens_details: (match self.completion_tokens_details { Some(x34) => Some(x34@), None => None }),
        }
    }
}

impl Clone for ChatUsage {
    fn clone(&self) -> (r: Self)
        ensures
            r@ == self@,
    {
        let c_prompt_tokens = self.prompt_tokens;
        let c_completion_tokens = self.completion_tokens;
        let c_total_tokens = self.total_tokens;
        let c_prompt_tokens_details = match &self.prompt_tokens_details { Some(x35) => { let x36 = (*x35).clone(); Some(x36) }, None => None };
        let c_completion_tokens_details = match &self.completion_tokens_details { Some(x37) => { let x38 = (*x37).clone(); Some(x38) }, None => None };
        ChatUsage { prompt_tokens: c_prompt_tokens, completion_tokens: c_completion_tokens, total_tokens: c_total_tokens, prompt_tokens_details: c_prompt_tokens_details, completion_tokens_details: c_completion_tokens_details }
    }
}

/// A choice of a chat response.
pub struct ChatChoice {
    pub index: u32,
    pub message: Option<ChatMessage>,
    pub delta: Option<ChatDelta>,
    pub finish_reason: Option<String>,
    /// JSON text.
    pub logprobs: Option<String>,
}

/// Model of [`ChatChoice`].
pub struct ChatChoiceModel {
    pub index: u32,
    pub message: Option<ChatMessageModel>,
    pub delta: Option<ChatDeltaModel>,
    pub finish_reason: Option<Seq<char>>,
    pub logprobs: Option<Seq<char>>,
}

impl View for ChatChoice {
    type V = ChatChoiceModel;

    open spec fn view(&self) -> ChatChoiceModel {
        ChatChoiceModel {
            index: self.index,
            message: (match self.message { Some(x39) => Some(x39@), None => None }),
            delta: (match self.delta { Some(x40) => Some(x40@), None => None }),
            finish_reason: opt_seq(self.finish_reason),
            logprobs: opt_seq(self.logprobs),
        }
    }
}

impl Clone for ChatChoice {
    fn clone(&self) -> (r: Self)
        ensures
            r@ == self@,
    {
        let c_index = self.index;
        let c_message = match &self.message { Some(x41) => { let x42 = (*x41).clone(); Some(x42) }, None => None };
        let c_delta = match &self.delta { Some(x43) => { let x44 = (*x43).clone(); Some(x44) }, None => None };
        let c_finish_reason = self.finish_reason.clone();
        let c_logprobs = self.logprobs.clone();
        ChatChoice { index: c_index, message: c_message, delta: c_delta, finish_reason: c_finish_reason, logprobs: c_logprobs }
    }
}

/// A Chat Completions response.
pub struct ChatCompletionsResponse {
    pub id: String,
    pub object: String,
    pub created: u64,
    pub model: String,
    pub choices: Vec<ChatChoice>,
    pub usage: Option<ChatUsage>,
    pub system_fingerprint: Option<String>,
}

/// Model of [`ChatCompletionsResponse`].
pub struct ChatCompletionsResponseModel {
    pub id: Seq<char>,
    pub object: Seq<char>,
    pub created: u64,
    pub model: Seq<char>,
    pub choices: Seq<ChatChoiceModel>,
    pub usage: Option<ChatUsageModel>,
    pub system_fingerprint: Option<Seq<char>>,
}

impl View for ChatCompletionsResponse {
    type V = ChatCompletionsResponseModel;

    open spec fn view(&self) -> ChatCompletionsResponseModel {
        ChatCompletionsResponseModel {
            id: self.id@,
            object: self.object@,
            created: self.created,
            model: self.model@,
            choices: self.choices@.map_values(|x45: ChatChoice| x45@),
            usage: (match self.usage { Some(x46) => Some(x46@), None => None }),
            system_fingerprint: opt_seq(self.system_fingerprint),
        }
    }
}

impl Clone for ChatCompletionsResponse {
    fn clone(&self) -> (r: Self)
        ensures
            r@ == self@,
    {
        let c_id = self.id.clone();
        let c_object = self.object.clone();
        let c_created = self.created;
        let c_model = self.model.clone();
        let c_choices = clone_vec_ChatChoice(&self.choices);
        let c_usage = match &self.usage { Some(x47) => { let x48 = (*x47).clone(); Some(x48) }, None => None };
        let c_system_fingerprint = self.system_fingerprint.clone();
        ChatCompletionsResponse { id: c_id, object: c_object, created: c_created, model: c_model, choices: c_choices, usage: c_usage, system_fingerprint: c_system_fingerprint }
    }
}

/// A copy of a vector of [`ChatChoice`].
pub fn clone_vec_ChatChoice(v: &Vec<ChatChoice>) -> (r: Vec<ChatChoice>)
    ensures
        r@.map_values(|x49: ChatChoice| x49@) == v@.map_values(|x50: ChatChoice| x50@),
{
    let mut r: Vec<ChatChoice> = Vec::new();
    let mut i: usize = 0;
    while i < v.len()
        invariant
            i <= v.len(),
            r@.len() == i,
            forall|j: int| 0 <= j < i ==> r@[j]@ == v@[j]@,
        decreases v.len() - i,
    {
        r.push(v[i].clone());
        i += 1;
    }
    assert(r@.map_values(|x51: ChatChoice| x51@) =~= v@.map_values(|x52: ChatChoice| x52@));
    r
}

/// A copy of a vector of [`ChatContentPart`].
pub fn clone_vec_ChatContentPart(v: &Vec<ChatContentPart>) -> (r: Vec<ChatContentPart>)
    ensures
        r@.map_values(|x53: ChatContentPart| x53@) == v@.map_values(|x54: ChatContentPart| x54@),
{
    let mut r: Vec<ChatContentPart> = Vec::new();
    let mut i: usize = 0;
    while i < v.len()
        invariant
            i <= v.len(),
            r@.len() == i,
            forall|j: int| 0 <= j < i ==> r@[j]@ == v@[j]@,
        decreases v.len() - i,
    {
        r.push(v[i].clone());
        i += 1;
    }
    assert(r@.map_values(|x55: ChatContentPart| x55@) =~= v@.map_values(|x56: ChatContentPart| x56@));
    r
}

/// A copy of a vector of [`ChatMessage`].
pub fn clone_vec_ChatMessage(v: &Vec<ChatMessage>) -> (r: Vec<ChatMessage>)
    ensures
        r@.map_values(|x57: ChatMessage| x57@) == v@.map_values(|x58: ChatMessage| x58@),
{
    let mut r: Vec<ChatMessage> = Vec::new();
    let mut i: usize = 0;
    while i < v.len()
        invariant
            i <= v.len(),
            r@.len() == i,
            forall|j: int| 0 <= j < i ==> r@[j]@ == v@[j]@,
        decreases v.len() - i,
    {
        r.push(v[i].clone());
        i += 1;
    }
    assert(r@.map_values(|x59: ChatMessage| x59@) =~= v@.map_values(|x60: ChatMessage| x60@));
    r
}

/// A copy of a vector of [`ChatTool`].
pub fn clone_vec_ChatTool(v: &Vec<ChatTool>) -> (r: Vec<ChatTool>)
    ensures
        r@.map_values(|x61: ChatTool| x61@) == v@.map_values(|x62: ChatTool| x62@),
{
    let mut r: Vec<ChatTool> = Vec::new();
    let mut i: usize = 0;
    while i < v.len()
        invariant
            i <= v.len(),
            r@.len() == i,
            forall|j: int| 0 <= j < i ==> r@[j]@ == v@[j]@,
        decreases v.len() - i,
    {
        r.push(v[i].clone());
        i += 1;
    }
    assert(r@.map_values(|x63: ChatTool| x63@) =~= v@.map_values(|x64: ChatTool| x64@));
    r
}

/// A copy of a vector of [`ToolCall`].
pub fn clone_vec_ToolCall(v: &Vec<ToolCall>) -> (r: Vec<ToolCall>)
    ensures
        r@.map_values(|x65: ToolCall| x65@) == v@.map_values(|x66: ToolCall| x66@),
{
    let mut r: Vec<ToolCall> = Vec::new();
    let mut i: usize = 0;
    while i < v.len()
        invariant
            i <= v.len(),
            r@.len() == i,
            forall|j: int| 0 <= j < i ==> r@[j]@ == v@[j]@,
        decreases v.len() - i,
    {
        r.push(v[i].clone());
        i += 1;
    }
    assert(r@.map_values(|x67: ToolCall| x67@) =~= v@.map_values(|x68: ToolCall| x68@));
    r
}

/// A copy of a vector of [`ToolCallDelta`].
pub fn clone_vec_ToolCallDelta(v: &Vec<ToolCallDelta>) -> (r: Vec<ToolCallDelta>)
    ensures
        r@.map_values(|x69: ToolCallDelta| x69@) == v@.map_values(|x70: ToolCallDelta| x70@),
{
    let mut r: Vec<ToolCallDelta> = Vec::new();
    let mut i: usize = 0;
    while i < v.len()
        invariant
            i <= v.len(),
            r@.len() == i,
            forall|j: int| 0 <= j < i ==> r@[j]@ == v@[j]@,
        decreases v.len() - i,
    {
        r.push(v[i].clone());
        i += 1;
    }
    assert(r@.map_values(|x71: ToolCallDelta| x71@) =~= v@.map_values(|x72: ToolCallDelta| x72@));
    r
}


/// The plain text of chat content: the string itself, or the texts of the
/// text parts run together; empty when there is no content.
pub open spec fn chat_content_text(c: Option<ChatContentModel>) -> Seq<char> {
    match c {
        None => seq![],
        Some(ChatContentModel::String(s)) => s,
        Some(ChatContentModel::Parts(parts)) => chat_parts_text(parts),
    }
}

/// The texts of the text parts, run together.
pub open spec fn chat_parts_text(parts: Seq<ChatContentPartModel>) -> Seq<char>
    decreases parts.len(),
{
    if parts.len() == 0 {
        seq![]
    } else {
        chat_parts_text(parts.drop_last()) + match parts.last() {
            ChatContentPartModel::Text { text } => text,
            _ => seq![],
        }
    }
}

/// The plain text of chat content.
pub fn chat_content_to_string(content: &Option<ChatContent>) -> (r: String)
    ensures
        r@ == chat_content_text(match content { Some(c) => Some(c@), None => None }),
{
    match content {
        None => String::new(),
        Some(ChatContent::String(s)) => s.clone(),
        Some(ChatContent::Parts(parts)) => {
            let ghost ps = parts@.map_values(|p: ChatContentPart| p@);
            let mut r = String::new();
            let mut i: usize = 0;
            while i < parts.len()
                invariant
                    i <= parts.len(),
                    ps == parts@.map_values(|p: ChatContentPart| p@),
                    r@ == chat_parts_text(ps.take(i as int)),
                decreases parts.len() - i,
            {
                proof {
                    assert(ps.take(i + 1).drop_last() =~= ps.take(i as int));
                }
                if let ChatContentPart::Text { text } = &parts[i] {
                    r.append(text.as_str());
                } else {
                    assert(r@ =~= r@ + seq![]);
                }
                i += 1;
            }
            assert(ps.take(parts.len() as int) =~= ps);
            r
        },
    }
}

} // verus!

