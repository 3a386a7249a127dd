//! Types of the Anthropic Messages API.

use vstd::prelude::*;
use crate::json::opt_seq;
use crate::text::clone_vec_String;

verus! {

/// Prompt-caching marker of a block.
pub struct AnthropicCacheControl {
    /// The `type` field.
    pub cache_type: String,
}

/// Model of [`AnthropicCacheControl`].
pub struct AnthropicCacheControlModel {
    pub cache_type: Seq<char>,
}

impl View for AnthropicCacheControl {
    type V = AnthropicCacheControlModel;

    open spec fn view(&self) -> AnthropicCacheControlModel {
        AnthropicCacheControlModel {
            cache_type: self.cache_type@,
        }
    }
}

impl Clone for AnthropicCacheControl {
    fn clone(&self) -> (r: Self)
        ensures
            r@ == self@,
    {
        let c_cache_type = self.cache_type.clone();
        AnthropicCacheControl { cache_type: c_cache_type }
    }
}

/// A text block of a system prompt.
pub struct AnthropicTextBlock {
    /// The `type` field.
    pub block_type: String,
    pub text: String,
    pub cache_control: Option<AnthropicCacheControl>,
}

/// Model of [`AnthropicTextBlock`].
pub struct AnthropicTextBlockModel {
    pub block_type: Seq<char>,
    pub text: Seq<char>,
    pub cache_control: Option<AnthropicCacheControlModel>,
}

impl View for AnthropicTextBlock {
    type V = AnthropicTextBlockModel;

    open spec fn view(&self) -> AnthropicTextBlockModel {
        AnthropicTextBlockModel {
            block_type: self.block_type@,
            text: self.text@,
            cache_control: (match self.cache_control { Some(x1) => Some(x1@), None => None }),
        }
    }
}

impl Clone for AnthropicTextBlock {
    fn clone(&self) -> (r: Self)
        ensures
            r@ == self@,
    {
        let c_block_type = self.block_type.clone();
        let c_text = self.text.clone();
        let c_cache_control = match &self.cache_control { Some(x2) => { let x3 = (*x2).clone(); Some(x3) }, None => None };
        AnthropicTextBlock { block_type: c_block_type, text: c_text, cache_control: c_cache_control }
    }
}

/// The system prompt of an Anthropic request.
pub enum AnthropicSystem {
    String(String),
    Blocks(Vec<AnthropicTextBlock>),
}

/// Model of [`AnthropicSystem`].
pub enum AnthropicSystemModel {
    String(Seq<char>),
    Blocks(Seq<AnthropicTextBlockModel>),
}

impl View for AnthropicSystem {
    type V = AnthropicSystemModel;

    open spec fn view(&self) -> AnthropicSystemModel {
        match self {
            AnthropicSystem::String(a) => AnthropicSystemModel::String((*a)@),
            AnthropicSystem::Blocks(a) => AnthropicSystemModel::Blocks((*a)@.map_values(|x4: AnthropicTextBlock| x4@)),
        }
    }
}

impl Clone for AnthropicSystem {
    fn clone(&self) -> (r: Self)
        ensures
            r@ == self@,
    {
        match self {
            AnthropicSystem::String(a) => { let c = (*a).clone(); AnthropicSystem::String(c) },
            AnthropicSystem::Blocks(a) => { let c = clone_vec_AnthropicTextBlock(&(*a)); AnthropicSystem::Blocks(c) },
        }
    }
}

/// The source of an image block.
pub struct AnthropicImageSource {
    /// The `type` field.
    pub source_type: String,
    pub media_type: String,
    pub data: String,
}

/// Model of [`AnthropicImageSource`].
pub struct AnthropicImageSourceModel {
    pub source_type: Seq<char>,
    pub media_type: Seq<char>,
    pub data: Seq<char>,
}

impl View for AnthropicImageSource {
    type V = AnthropicImageSourceModel;

    open spec fn view(&self) -> AnthropicImageSourceModel {
        AnthropicImageSourceModel {
            source_type: self.source_type@,
            media_type: self.media_type@,
            data: self.data@,
        }
    }
}

impl Clone for AnthropicImageSource {
    fn clone(&self) -> (r: Self)
        ensures
            r@ == self@,
    {
        let c_source_type = self.source_type.clone();
        let c_media_type = self.media_type.clone();
        let c_data = self.data.clone();
        AnthropicImageSource { source_type: c_source_type, media_type: c_media_type, data: c_data }
    }
}

/// The content of a tool result: a string or text blocks.
pub enum AnthropicToolResultContent {
    String(String),
    Blocks(Vec<AnthropicTextBlock>),
}

/// Model of [`AnthropicToolResultContent`].
pub enum AnthropicToolResultContentModel {
    String(Seq<char>),
    Blocks(Seq<AnthropicTextBlockModel>),
}

impl View for AnthropicToolResultContent {
    type V = AnthropicToolResultContentModel;

    open spec fn view(&self) -> AnthropicToolResultContentModel {
        match self {
            AnthropicToolResultContent::String(a) => AnthropicToolResultContentModel::String((*a)@),
            AnthropicToolResultContent::Blocks(a) => AnthropicToolResultContentModel::Blocks((*a)@.map_values(|x5: AnthropicTextBlock| x5@)),
        }
    }
}

impl Clone for AnthropicToolResultContent {
    fn clone(&self) -> (r: Self)
        ensures
            r@ == self@,
    {
        match self {
            AnthropicToolResultContent::String(a) => { let c = (*a).clone(); AnthropicToolResultContent::String(c) },
            AnthropicToolResultContent::Blocks(a) => { let c = clone_vec_AnthropicTextBlock(&(*a)); AnthropicToolResultContent::Blocks(c) },
        }
    }
}

/// A content block of an Anthropic message.
pub enum AnthropicContentBlock {
    Text { text: String, cache_control: Option<AnthropicCacheControl> },
    Image { source: AnthropicImageSource },
    /// A tool call; `input` is JSON text.
    ToolUse { id: String, name: String, input: String },
    ToolResult { tool_use_id: String, content: AnthropicToolResultContent, is_error: Option<bool> },
    Thinking { thinking: String, signature: Option<String> },
    RedactedThinking { data: String },
    /// A document; `source` is JSON text.
    Document { source: String },
}

/// Model of [`AnthropicContentBlock`].
pub enum AnthropicContentBlockModel {
    Text { text: Seq<char>, cache_control: Option<AnthropicCacheControlModel> },
    Image { source: AnthropicImageSourceModel },
    ToolUse { id: Seq<char>, name: Seq<char>, input: Seq<char> },
    ToolResult { tool_use_id: Seq<char>, content: AnthropicToolResultContentModel, is_error: Option<bool> },
    Thinking { thinking: Seq<char>, signature: Option<Seq<char>> },
    RedactedThinking { data: Seq<char> },
    Document { source: Seq<char> },
}

impl View for AnthropicContentBlock {
    type V = AnthropicContentBlockModel;

    open spec fn view(&self) -> AnthropicContentBlockModel {
        match self {
            AnthropicContentBlock::Text { text, cache_control } => AnthropicContentBlockModel::Text { text: (*text)@, cache_control: (match (*cache_control) { Some(x6) => Some(x6@), None => None }) },
            AnthropicContentBlock::Image { source } => AnthropicContentBlockModel::Image { source: (*source)@ },
            AnthropicContentBlock::ToolUse { id, name, input } => AnthropicContentBlockModel::ToolUse { id: (*id)@, name: (*name)@, input: (*input)@ },
            AnthropicContentBlock::ToolResult { tool_use_id, content, is_error } => AnthropicContentBlockModel::ToolResult { tool_use_id: (*tool_use_id)@, content: (*content)@, is_error: (*is_error) },
            AnthropicContentBlock::Thinking { thinking, signature } => AnthropicContentBlockModel::Thinking { thinking: (*thinking)@, signature: opt_seq((*signature)) },
            AnthropicContentBlock::RedactedThinking { data } => AnthropicContentBlockModel::RedactedThinking { data: (*data)@ },
            AnthropicContentBlock::Document { source } => AnthropicContentBlockModel::Document { source: (*source)@ },
        }
    }
}

impl Clone for AnthropicContentBlock {
    fn clone(&self) -> (r: Self)
        ensures
            r@ == self@,
    {
        match self {
            AnthropicContentBlock::Text { text, cache_control } => { let c_text = (*text).clone(); let c_cache_control = match &(*cache_control) { Some(x7) => { let x8 = (*x7).clone(); Some(x8) }, None => None }; AnthropicContentBlock::Text { text: c_text, cache_control: c_cache_control } },
            AnthropicContentBlock::Image { source } => { let c_source = (*source).clone(); AnthropicContentBlock::Image { source: c_source } },
            AnthropicContentBlock::ToolUse { id, name, input } => { let c_id = (*id).clone(); let c_name = (*name).clone(); let c_input = (*input).clone(); AnthropicContentBlock::ToolUse { id: c_id, name: c_name, input: c_input } },
            AnthropicContentBlock::ToolResult { tool_use_id, content, is_error } => { let c_tool_use_id = (*tool_use_id).clone(); let c_content = (*content).clone(); let c_is_error = (*is_error).clone(); AnthropicContentBlock::ToolResult { tool_use_id: c_tool_use_id, content: c_content, is_error: c_is_error } },
            AnthropicContentBlock::Thinking { thinking, signature } => { let c_thinking = (*thinking).clone(); let c_signature = (*signature).clone(); AnthropicContentBlock::Thinking { thinking: c_thinking, signature: c_signature } },
            AnthropicContentBlock::RedactedThinking { data } => { let c_data = (*data).clone(); AnthropicContentBlock::RedactedThinking { data: c_data } },
            AnthropicContentBlock::Document { source } => { let c_source = (*source).clone(); AnthropicContentBlock::Document { source: c_source } },
        }
    }
}

/// The content of an Anthropic message.
pub enum AnthropicMessageContent {
    String(String),
    Blocks(Vec<AnthropicContentBlock>),
}

/// Model of [`AnthropicMessageContent`].
pub enum AnthropicMessageContentModel {
    String(Seq<char>),
    Blocks(Seq<AnthropicContentBlockModel>),
}

impl View for AnthropicMessageContent {
    type V = AnthropicMessageContentModel;

    open spec fn view(&self) -> AnthropicMessageContentModel {
        match self {
            AnthropicMessageContent::String(a) => AnthropicMessageContentModel::String((*a)@),
            AnthropicMessageContent::Blocks(a) => AnthropicMessageContentModel::Blocks((*a)@.map_values(|x9: AnthropicContentBlock| x9@)),
        }
    }
}

impl Clone for AnthropicMessageContent {
    fn clone(&self) -> (r: Self)
        ensures
            r@ == self@,
    {
        match self {
            AnthropicMessageContent::String(a) => { let c = (*a).clone(); AnthropicMessageContent::String(c) },
            AnthropicMessageContent::Blocks(a) => { let c = clone_vec_AnthropicContentBlock(&(*a)); AnthropicMessageContent::Blocks(c) },
        }
    }
}

/// An Anthropic message.
pub struct AnthropicMessage {
    pub role: String,
    pub content: AnthropicMessageContent,
}

/// Model of [`AnthropicMessage`].
pub struct AnthropicMessageModel {
    pub role: Seq<char>,
    pub content: AnthropicMessageContentModel,
}

impl View for AnthropicMessage {
    type V = AnthropicMessageModel;

    open spec fn view(&self) -> AnthropicMessageModel {
        AnthropicMessageModel {
            role: self.role@,
            content: self.content@,
        }
    }
}

impl Clone for AnthropicMessage {
    fn clone(&self) -> (r: Self)
        ensures
            r@ == self@,
    {
        let c_role = self.role.clone();
        let c_content = self.content.clone();
        AnthropicMessage { role: c_role, content: c_content }
    }
}

/// A tool of an Anthropic request.
pub struct AnthropicTool {
    pub name: String,
    pub description: Option<String>,
    /// JSON text.
    pub input_schema: String,
    pub cache_control: Option<AnthropicCacheControl>,
}

/// Model of [`AnthropicTool`].
pub struct AnthropicToolModel {
    pub name: Seq<char>,
    pub description: Option<Seq<char>>,
    pub input_schema: Seq<char>,
    pub cache_control: Option<AnthropicCacheControlModel>,
}

impl View for AnthropicTool {
    type V = AnthropicToolModel;

    open spec fn view(&self) -> AnthropicToolModel {
        AnthropicToolModel {
            name: self.name@,
            description: opt_seq(self.description),
            input_schema: self.input_schema@,
            cache_control: (match self.cache_control { Some(x10) => Some(x10@), None => None }),
        }
    }
}

impl Clone for AnthropicTool {
    fn clone(&self) -> (r: Self)
        ensures
            r@ == self@,
    {
        let c_name = self.name.clone();
        let c_description = self.description.clone();
        let c_input_schema = self.input_schema.clone();
        let c_cache_control = match &self.cache_control { Some(x11) => { let x12 = (*x11).clone(); Some(x12) }, None => None };
        AnthropicTool { name: c_name, description: c_description, input_schema: c_input_schema, cache_control: c_cache_control }
    }
}

/// The tool choice of an Anthropic request.
pub enum AnthropicToolChoice {
    Auto,
    Any,
    Tool { name: String },
}

/// Model of [`AnthropicToolChoice`].
pub enum AnthropicToolChoiceModel {
    Auto,
    Any,
    Tool { name: Seq<char> },
}

impl View for AnthropicToolChoice {
    type V = AnthropicToolChoiceModel;

    open spec fn view(&self) -> AnthropicToolChoiceModel {
        match self {
            AnthropicToolChoice::Auto => AnthropicToolChoiceModel::Auto,
            AnthropicToolChoice::Any => AnthropicToolChoiceModel::Any,
            AnthropicToolChoice::Tool { name } => AnthropicToolChoiceModel::Tool { name: (*name)@ },
        }
    }
}

impl Clone for AnthropicToolChoice {
    fn clone(&self) -> (r: Self)
        ensures
            r@ == self@,
    {
        match self {
            AnthropicToolChoice::Auto => AnthropicToolChoice::Auto,
            AnthropicToolChoice::Any => AnthropicToolChoice::Any,
            AnthropicToolChoice::Tool { name } => { let c_name = (*name).clone(); AnthropicToolChoice::Tool { name: c_name } },
        }
    }
}

/// Extended-thinking configuration.
pub enum AnthropicThinkingConfig {
    Enabled { budget_tokens: u32 },
    Disabled,
}

/// Model of [`AnthropicThinkingConfig`].
pub enum AnthropicThinkingConfigModel {
    Enabled { budget_tokens: u32 },
    Disabled,
}

impl View for AnthropicThinkingConfig {
    type V = AnthropicThinkingConfigModel;

    open spec fn view(&self) -> AnthropicThinkingConfigModel {
        match self {
            AnthropicThinkingConfig::Enabled { budget_tokens } => AnthropicThinkingConfigModel::Enabled { budget_tokens: (*budget_tokens) },
            AnthropicThinkingConfig::Disabled => AnthropicThinkingConfigModel::Disabled,
        }
    }
}

impl Clone for AnthropicThinkingConfig {
    fn clone(&self) -> (r: Self)
        ensures
            r@ == self@,
    {
        match self {
            AnthropicThinkingConfig::Enabled { budget_tokens } => { let c_budget_tokens = (*budget_tokens); AnthropicThinkingConfig::Enabled { budget_tokens: c_budget_tokens } },
            AnthropicThinkingConfig::Disabled => AnthropicThinkingConfig::Disabled,
        }
    }
}

/// An Anthropic Messages API request; `temperature` and `top_p` are decimal text, `metadata` JSON text.
pub struct AnthropicRequest {
    pub model: String,
    pub messages: Vec<AnthropicMessage>,
    pub system: Option<AnthropicSystem>,
    pub max_tokens: u32,
    pub metadata: Option<String>,
    pub stop_sequences: Option<Vec<String>>,
    pub stream: Option<bool>,
    pub temperature: Option<String>,
    pub top_p: Option<String>,
    pub top_k: Option<u32>,
    pub tools: Option<Vec<AnthropicTool>>,
    pub tool_choice: Option<AnthropicToolChoice>,
    pub thinking: Option<AnthropicThinkingConfig>,
}

/// Model of [`AnthropicRequest`].
pub struct AnthropicRequestModel {
    pub model: Seq<char>,
    pub messages: Seq<AnthropicMessageModel>,
    pub system: Option<AnthropicSystemModel>,
    pub max_tokens: u32,
    pub metadata: Option<Seq<char>>,
    pub stop_sequences: Option<Seq<Seq<char>>>,
    pub stream: Option<bool>,
    pub temperature: Option<Seq<char>>,
    pub top_p: Option<Seq<char>>,
    pub top_k: Option<u32>,
    pub tools: Option<Seq<AnthropicToolModel>>,
    pub tool_choice: Option<AnthropicToolChoiceModel>,
    pub thinking: Option<AnthropicThinkingConfigModel>,
}

impl View for AnthropicRequest {
    type V = AnthropicRequestModel;

    open spec fn view(&self) -> AnthropicRequestModel {
        AnthropicRequestModel {
            model: self.model@,
            messages: self.messages@.map_values(|x13: AnthropicMessage| x13@),
            system: (match self.system { Some(x14) => Some(x14@), None => None }),
            max_tokens: self.max_tokens,
            metadata: opt_seq(self.metadata),
            stop_sequences: (match self.stop_sequences { Some(x15) => Some(x15@.map_values(|x16: String| x16@)), None => None }),
            stream: self.stream,
            temperature: opt_seq(self.temperature),
            top_p: opt_seq(self.top_p),
            top_k: self.top_k,
            tools: (match self.tools { Some(x17) => Some(x17@.map_values(|x18: AnthropicTool| x18@)), None => None }),
            tool_choice: (match self.tool_choice { Some(x19) => Some(x19@), None => None }),
            thinking: (match self.thinking { Some(x20) => Some(x20@), None => None }),
        }
    }
}

impl Clone for AnthropicRequest {
    #[verifier::spinoff_prover]
    #[verifier::rlimit(60)]
    fn clone(&self) -> (r: Self)
        ensures
            r@ == self@,
    {
        let c_model = self.model.clone();
        let c_messages = clone_vec_AnthropicMessage(&self.messages);
        let c_system = match &self.system { Some(x21) => { let x22 = (*x21).clone(); Some(x22) }, None => None };
        let c_max_tokens = self.max_tokens;
        let c_metadata = self.metadata.clone();
        let c_stop_sequences = match &self.stop_sequences { Some(x23) => { let x24 = clone_vec_String(&(*x23)); Some(x24) }, None => None };
        let c_stream = self.stream.clone();
        let c_temperature = self.temperature.clone();
        let c_top_p = self.top_p.clone();
        let c_top_k = self.top_k.clone();
        let c_tools = match &self.tools { Some(x25) => { let x26 = clone_vec_AnthropicTool(&(*x25)); Some(x26) }, None => None };
        let c_tool_choice = match &self.tool_choice { Some(x27) => { let x28 = (*x27).clone(); Some(x28) }, None => None };
        let c_thinking = match &self.thinking { Some(x29) => { let x30 = (*x29).clone(); Some(x30) }, None => None };
        AnthropicRequest { model: c_model, messages: c_messages, system: c_system, max_tokens: c_max_tokens, metadata: c_metadata, stop_sequences: c_stop_sequences, stream: c_stream, temperature: c_temperature, top_p: c_top_p, top_k: c_top_k, tools: c_tools, tool_choice: c_tool_choice, thinking: c_thinking }
    }
}

/// Token usage of an Anthropic response.
pub struct AnthropicUsage {
    pub input_tokens: u32,
    pub output_tokens: u32,
    pub cache_read_input_tokens: Option<u32>,
    pub cache_creation_input_tokens: Option<u32>,
}

/// Model of [`AnthropicUsage`].
pub struct AnthropicUsageModel {
    pub input_tokens: u32,
    pub output_tokens: u32,
    pub cache_read_input_tokens: Option<u32>,
    pub cache_creation_input_tokens: Option<u32>,
}

impl View for AnthropicUsage {
    type V = AnthropicUsageModel;

    open spec fn view(&self) -> AnthropicUsageModel {
        AnthropicUsageModel {
            input_tokens: self.input_tokens,
            output_tokens: self.output_tokens,
            cache_read_input_tokens: self.cache_read_input_tokens,
            cache_creation_input_tokens: self.cache_creation_input_tokens,
        }
    }
}

impl Clone for AnthropicUsage {
    fn clone(&self) -> (r: Self)
        ensures
            r@ == self@,
    {
        let c_input_tokens = self.input_tokens;
        let c_output_tokens = self.output_tokens;
        let c_cache_read_input_tokens = self.cache_read_input_tokens.clone();
        let c_cache_creation_input_tokens = self.cache_creation_input_tokens.clone();
        AnthropicUsage { input_tokens: c_input_tokens, output_tokens: c_output_tokens, cache_read_input_tokens: c_cache_read_input_tokens, cache_creation_input_tokens: c_cache_creation_input_tokens }
    }
}

/// An Anthropic Messages API response.
pub struct AnthropicResponse {
    pub id: String,
    /// The `type` field.
    pub response_type: String,
    pub role: String,
    pub content: Vec<AnthropicContentBlock>,
    pub model: String,
    pub stop_reason: Option<String>,
    pub stop_sequence: Option<String>,
    pub usage: AnthropicUsage,
}

/// Model of [`AnthropicResponse`].
pub struct AnthropicResponseModel {
    pub id: Seq<char>,
    pub response_type: Seq<char>,
    pub role: Seq<char>,
    pub content: Seq<AnthropicContentBlockModel>,
    pub model: Seq<char>,
    pub stop_reason: Option<Seq<char>>,
    pub stop_sequence: Option<Seq<char>>,
    pub usage: AnthropicUsageModel,
}

impl View for AnthropicResponse {
    type V = AnthropicResponseModel;

    open spec fn view(&self) -> AnthropicResponseModel {
        AnthropicResponseModel {
            id: self.id@,
            response_type: self.response_type@,
            role: self.role@,
            content: self.content@.map_values(|x31: AnthropicContentBlock| x31@),
            model: self.model@,
            stop_reason: opt_seq(self.stop_reason),
            stop_sequence: opt_seq(self.stop_sequence),
            usage: self.usage@,
        }
    }
}

impl Clone for AnthropicResponse {
    fn clone(&self) -> (r: Self)
        ensures
            r@ == self@,
    {
        let c_id = self.id.clone();
        let c_response_type = self.response_type.clone();
        let c_role = self.role.clone();
        let c_content = clone_vec_AnthropicContentBlock(&self.content);
        let c_model = self.model.clone();
        let c_stop_reason = self.stop_reason.clone();
        let c_stop_sequence = self.stop_sequence.clone();
        let c_usage = self.usage.clone();
        AnthropicResponse { id: c_id, response_type: c_response_type, role: c_role, content: c_content, model: c_model, stop_reason: c_stop_reason, stop_sequence: c_stop_sequence, usage: c_usage }
    }
}

/// A delta of a streamed content block.
pub enum AnthropicContentBlockDelta {
    TextDelta { text: String },
    InputJsonDelta { partial_json: String },
    ThinkingDelta { thinking: String },
    SignatureDelta { signature: String },
}

/// Model of [`AnthropicContentBlockDelta`].
pub enum AnthropicContentBlockDeltaModel {
    TextDelta { text: Seq<char> },
    InputJsonDelta { partial_json: Seq<char> },
    ThinkingDelta { thinking: Seq<char> },
    SignatureDelta { signature: Seq<char> },
}

impl View for AnthropicContentBlockDelta {
    type V = AnthropicContentBlockDeltaModel;

    open spec fn view(&self) -> AnthropicContentBlockDeltaModel {
        match self {
            AnthropicContentBlockDelta::TextDelta { text } => AnthropicContentBlockDeltaModel::TextDelta { text: (*text)@ },
            AnthropicContentBlockDelta::InputJsonDelta { partial_json } => AnthropicContentBlockDeltaModel::InputJsonDelta { partial_json: (*partial_json)@ },
            AnthropicContentBlockDelta::ThinkingDelta { thinking } => AnthropicContentBlockDeltaModel::ThinkingDelta { thinking: (*thinking)@ },
            AnthropicContentBlockDelta::SignatureDelta { signature } => AnthropicContentBlockDeltaModel::SignatureDelta { signature: (*signature)@ },
        }
    }
}

impl Clone for AnthropicContentBlockDelta {
    fn clone(&self) -> (r: Self)
        ensures
            r@ == self@,
    {
        match self {
            AnthropicContentBlockDelta::TextDelta { text } => { let c_text = (*text).clone(); AnthropicContentBlockDelta::TextDelta { text: c_text } },
            AnthropicContentBlockDelta::InputJsonDelta { partial_json } => { let c_partial_json = (*partial_json).clone(); AnthropicContentBlockDelta::InputJsonDelta { partial_json: c_partial_json } },
            AnthropicContentBlockDelta::ThinkingDelta { thinking } => { let c_thinking = (*thinking).clone(); AnthropicContentBlockDelta::ThinkingDelta { thinking: c_thinking } },
            AnthropicContentBlockDelta::SignatureDelta { signature } => { let c_signature = (*signature).clone(); AnthropicContentBlockDelta::SignatureDelta { signature: c_signature } },
        }
    }
}

/// The message-level delta of a `message_delta` event.
pub struct AnthropicMessageDeltaBody {
    pub stop_reason: Option<String>,
    pub stop_sequence: Option<String>,
}

/// Model of [`AnthropicMessageDeltaBody`].
pub struct AnthropicMessageDeltaBodyModel {
    pub stop_reason: Option<Seq<char>>,
    pub stop_sequence: Option<Seq<char>>,
}

impl View for AnthropicMessageDeltaBody {
    type V = AnthropicMessageDeltaBodyModel;

    open spec fn view(&self) -> AnthropicMessageDeltaBodyModel {
        AnthropicMessageDeltaBodyModel {
            stop_reason: opt_seq(self.stop_reason),
            stop_sequence: opt_seq(self.stop_sequence),
        }
    }
}

impl Clone for AnthropicMessageDeltaBody {
    fn clone(&self) -> (r: Self)
        ensures
            r@ == self@,
    {
        let c_stop_reason = self.stop_reason.clone();
        let c_stop_sequence = self.stop_sequence.clone();
        AnthropicMessageDeltaBody { stop_reason: c_stop_reason, stop_sequence: c_stop_sequence }
    }
}

/// Usage carried by a `message_delta` event.
pub struct AnthropicDeltaUsage {
    pub output_tokens: u32,
}

/// Model of [`AnthropicDeltaUsage`].
pub struct AnthropicDeltaUsageModel {
    pub output_tokens: u32,
}

impl View for AnthropicDeltaUsage {
    type V = AnthropicDeltaUsageModel;

    open spec fn view(&self) -> AnthropicDeltaUsageModel {
        AnthropicDeltaUsageModel {
            output_tokens: self.output_tokens,
        }
    }
}

impl Clone for AnthropicDeltaUsage {
    fn clone(&self) -> (r: Self)
        ensures
            r@ == self@,
    {
        let c_output_tokens = self.output_tokens;
        AnthropicDeltaUsage { output_tokens: c_output_tokens }
    }
}

/// The error of an `error` event.
pub struct AnthropicErrorBody {
    /// The `type` field.
    pub error_type: String,
    pub message: String,
}

/// Model of [`AnthropicErrorBody`].
pub struct AnthropicErrorBodyModel {
    pub error_type: Seq<char>,
    pub message: Seq<char>,
}

impl View for AnthropicErrorBody {
    type V = AnthropicErrorBodyModel;

    open spec fn view(&self) -> AnthropicErrorBodyModel {
        AnthropicErrorBodyModel {
            error_type: self.error_type@,
            message: self.message@,
        }
    }
}

impl Clone for AnthropicErrorBody {
    fn clone(&self) -> (r: Self)
        ensures
            r@ == self@,
    {
        let c_error_type = self.error_type.clone();
        let c_message = self.message.clone();
        AnthropicErrorBody { error_type: c_error_type, message: c_message }
    }
}

/// A server-sent event of a streamed Anthropic response.
pub enum AnthropicStreamEvent {
    MessageStart { message: AnthropicResponse },
    ContentBlockStart { index: u32, content_block: AnthropicContentBlock },
    ContentBlockDelta { index: u32, delta: AnthropicContentBlockDelta },
    ContentBlockStop { index: u32 },
    MessageDelta { delta: AnthropicMessageDeltaBody, usage: AnthropicDeltaUsage },
    MessageStop,
    Ping,
    Error { error: AnthropicErrorBody },
}

/// Model of [`AnthropicStreamEvent`].
pub enum AnthropicStreamEventModel {
    MessageStart { message: AnthropicResponseModel },
    ContentBlockStart { index: u32, content_block: AnthropicContentBlockModel },
    ContentBlockDelta { index: u32, delta: AnthropicContentBlockDeltaModel },
    ContentBlockStop { index: u32 },
    MessageDelta { delta: AnthropicMessageDeltaBodyModel, usage: AnthropicDeltaUsageModel },
    MessageStop,
    Ping,
    Error { error: AnthropicErrorBodyModel },
}

impl View for AnthropicStreamEvent {
    type V = AnthropicStreamEventModel;

    open spec fn view(&self) -> AnthropicStreamEventModel {
        match self {
            AnthropicStreamEvent::MessageStart { message } => AnthropicStreamEventModel::MessageStart { message: (*message)@ },
            AnthropicStreamEvent::ContentBlockStart { index, content_block } => AnthropicStreamEventModel::ContentBlockStart { index: (*index), content_block: (*content_block)@ },
            AnthropicStreamEvent::ContentBlockDelta { index, delta } => AnthropicStreamEventModel::ContentBlockDelta { index: (*index), delta: (*delta)@ },
            AnthropicStreamEvent::ContentBlockStop { index } => AnthropicStreamEventModel::ContentBlockStop { index: (*index) },
            AnthropicStreamEvent::MessageDelta { delta, usage } => AnthropicStreamEventModel::MessageDelta { delta: (*delta)@, usage: (*usage)@ },
            AnthropicStreamEvent::MessageStop => AnthropicStreamEventModel::MessageStop,
            AnthropicStreamEvent::Ping => AnthropicStreamEventModel::Ping,
            AnthropicStreamEvent::Error { error } => AnthropicStreamEventModel::Error { error: (*error)@ },
        }
    }
}

impl Clone for AnthropicStreamEvent {
    fn clone(&self) -> (r: Self)
        ensures
            r@ == self@,
    {
        match self {
            AnthropicStreamEvent::MessageStart { message } => { let c_message = (*message).clone(); AnthropicStreamEvent::MessageStart { message: c_message } },
            AnthropicStreamEvent::ContentBlockStart { index, content_block } => { let c_index = (*index); let c_content_block = (*content_block).clone(); AnthropicStreamEvent::ContentBlockStart { index: c_index, content_block: c_content_block } },
            AnthropicStreamEvent::ContentBlockDelta { index, delta } => { let c_index = (*index); let c_delta = (*delta).clone(); AnthropicStreamEvent::ContentBlockDelta { index: c_index, delta: c_delta } },
            AnthropicStreamEvent::ContentBlockStop { index } => { let c_index = (*index); AnthropicStreamEvent::ContentBlockStop { index: c_index } },
            AnthropicStreamEvent::MessageDelta { delta, usage } => { let c_delta = (*delta).clone(); let c_usage = (*usage).clone(); AnthropicStreamEvent::MessageDelta { delta: c_delta, usage: c_usage } },
            AnthropicStreamEvent::MessageStop => AnthropicStreamEvent::MessageStop,
            AnthropicStreamEvent::Ping => AnthropicStreamEvent::Ping,
            AnthropicStreamEvent::Error { error } => { let c_error = (*error).clone(); AnthropicStreamEvent::Error { error: c_error } },
        }
    }
}

/// A copy of a vector of [`AnthropicContentBlock`].
pub fn clone_vec_AnthropicContentBlock(v: &Vec<AnthropicContentBlock>) -> (r: Vec<AnthropicContentBlock>)
    ensures
        r@.map_values(|x32: AnthropicContentBlock| x32@) == v@.map_values(|x33: AnthropicContentBlock| x33@),
{
    let mut r: Vec<AnthropicContentBlock> = Vec::new();
    let mut i: usize = 0;
    while i < v.len()
        invariant
            i <= v.len(),
            r@.len() == i,
            forall|j: int| 0 <= j < i ==> r@[j]@ == v@[j]@,
        decreases v.len() - i,
    {
        r.push(v[i].clone());
        i += 1;
    }
    assert(r@.map_values(|x34: AnthropicContentBlock| x34@) =~= v@.map_values(|x35: AnthropicContentBlock| x35@));
    r
}

/// A copy of a vector of [`AnthropicMessage`].
pub fn clone_vec_AnthropicMessage(v: &Vec<AnthropicMessage>) -> (r: Vec<AnthropicMessage>)
    ensures
        r@.map_values(|x36: AnthropicMessage| x36@) == v@.map_values(|x37: AnthropicMessage| x37@),
{
    let mut r: Vec<AnthropicMessage> = Vec::new();
    let mut i: usize = 0;
    while i < v.len()
        invariant
            i <= v.len(),
            r@.len() == i,
            forall|j: int| 0 <= j < i ==> r@[j]@ == v@[j]@,
        decreases v.len() - i,
    {
        r.push(v[i].clone());
        i += 1;
    }
    assert(r@.map_values(|x38: AnthropicMessage| x38@) =~= v@.map_values(|x39: AnthropicMessage| x39@));
    r
}

/// A copy of a vector of [`AnthropicTextBlock`].
pub fn clone_vec_AnthropicTextBlock(v: &Vec<AnthropicTextBlock>) -> (r: Vec<AnthropicTextBlock>)
    ensures
        r@.map_values(|x40: AnthropicTextBlock| x40@) == v@.map_values(|x41: AnthropicTextBlock| x41@),
{
    let mut r: Vec<AnthropicTextBlock> = Vec::new();
    let mut i: usize = 0;
    while i < v.len()
        invariant
            i <= v.len(),
            r@.len() == i,
            forall|j: int| 0 <= j < i ==> r@[j]@ == v@[j]@,
        decreases v.len() - i,
    {
        r.push(v[i].clone());
        i += 1;
    }
    assert(r@.map_values(|x42: AnthropicTextBlock| x42@) =~= v@.map_values(|x43: AnthropicTextBlock| x43@));
    r
}

/// A copy of a vector of [`AnthropicTool`].
pub fn clone_vec_AnthropicTool(v: &Vec<AnthropicTool>) -> (r: Vec<AnthropicTool>)
    ensures
        r@.map_values(|x44: AnthropicTool| x44@) == v@.map_values(|x45: AnthropicTool| x45@),
{
    let mut r: Vec<AnthropicTool> = Vec::new();
    let mut i: usize = 0;
    while i < v.len()
        invariant
            i <= v.len(),
            r@.len() == i,
            forall|j: int| 0 <= j < i ==> r@[j]@ == v@[j]@,
        decreases v.len() - i,
    {
        r.push(v[i].clone());
        i += 1;
    }
    assert(r@.map_values(|x46: AnthropicTool| x46@) =~= v@.map_values(|x47: AnthropicTool| x47@));
    r
}


} // verus!

