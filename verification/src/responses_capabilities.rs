//! Conservative capability declarations, and the admission that holds a request to
//! them. The primary candidate must support every requested feature; a fallback
//! that does not is left out of that request.
use vstd::prelude::*;

use crate::digest;
use crate::error;
use crate::error::AppError;
use crate::error::AppResult;
use crate::json;
use crate::json::Json;
use crate::json::JsonView;
use crate::models::responses::AgentMessageInputContent;
use crate::models::responses::ContentItem;
use crate::models::responses::FunctionCallOutputContent;
use crate::models::responses::ResponseItem;
use crate::models::responses::ResponsesRequest;
use crate::models::responses::ToolSpec;
use crate::models::responses;
use crate::text;

verus! {

/// Marks a request that came in on the Responses surface.
pub const ENFORCE_EXTENSION: &'static str = "llmconduit_responses_capability_validation";

/// Marks a request whose cache key goes upstream.
pub const FORWARD_PROMPT_CACHE_KEY_EXTENSION: &'static str = "llmconduit_forward_prompt_cache_key";

/// Holds the digest of the caller's cache key, never the key itself.
pub const PROMPT_CACHE_AFFINITY_EXTENSION: &'static str = "llmconduit_prompt_cache_affinity_sha256";

/// Permits the backend to read agents' encrypted content as plain text.
pub const AGENT_MESSAGE_PLAINTEXT_COMPAT_EXTENSION: &'static str =
    "llmconduit_agent_message_plaintext_compat";

/// A format of the output text.
#[derive(Debug, Clone, Copy, PartialEq, Eq, Hash, Structural)]
pub enum StructuredOutputCapability {
    /// Plain text.
    Text,
    /// Some JSON object.
    JsonObject,
    /// JSON that matches a schema.
    JsonSchema,
}

/// Who writes reasoning summaries.
#[derive(Debug, Clone, Copy, PartialEq, Eq, Structural)]
pub enum ReasoningSummaryCapability {
    /// The upstream.
    Upstream,
    /// Nobody.
    Unsupported,
}

/// What happens to encrypted reasoning.
#[derive(Debug, Clone, Copy, PartialEq, Eq, Structural)]
pub enum EncryptedReasoningCapability {
    /// It is passed through.
    Passthrough,
    /// It is refused.
    Unsupported,
}

/// What happens to encrypted content between agents.
#[derive(Debug, Clone, Copy, PartialEq, Eq, Structural)]
pub enum AgentMessageEncryptedContentCapability {
    /// It is read as plain text.
    PlaintextCompat,
    /// It is refused.
    Unsupported,
}

/// What happens to input images.
#[derive(Debug, Clone, Copy, PartialEq, Eq, Structural)]
pub enum InputImageCapability {
    /// The model sees them.
    Native,
    /// An agent describes them.
    Agent,
    /// A placeholder stands for them.
    Placeholder,
    /// They are refused.
    Reject,
}

/// What happens to input files.
#[derive(Debug, Clone, Copy, PartialEq, Eq, Structural)]
pub enum InputFileCapability {
    /// The model reads them.
    Native,
    /// They are refused.
    Unsupported,
}

/// Who truncates an overlong input.
#[derive(Debug, Clone, Copy, PartialEq, Eq, Structural)]
pub enum TruncationAutoCapability {
    /// The upstream.
    Upstream,
    /// Nobody.
    Unsupported,
}

/// Who heeds a requested verbosity.
#[derive(Debug, Clone, Copy, PartialEq, Eq, Structural)]
pub enum TextVerbosityCapability {
    /// The upstream.
    Upstream,
    /// Nobody.
    Unsupported,
}

/// What happens to a cache key.
#[derive(Debug, Clone, Copy, PartialEq, Eq, Structural)]
pub enum PromptCacheKeyCapability {
    /// The gateway keeps a digest of it.
    GatewayHash,
    /// It goes upstream.
    Upstream,
    /// It is refused.
    Unsupported,
}

impl Default for ReasoningSummaryCapability {
    fn default() -> (r: Self)
        ensures
            r == ReasoningSummaryCapability::Unsupported,
    {
        ReasoningSummaryCapability::Unsupported
    }
}

impl Default for EncryptedReasoningCapability {
    fn default() -> (r: Self)
        ensures
            r == EncryptedReasoningCapability::Unsupported,
    {
        EncryptedReasoningCapability::Unsupported
    }
}

impl Default for AgentMessageEncryptedContentCapability {
    fn default() -> (r: Self)
        ensures
            r == AgentMessageEncryptedContentCapability::Unsupported,
    {
        AgentMessageEncryptedContentCapability::Unsupported
    }
}

impl Default for InputImageCapability {
    fn default() -> (r: Self)
        ensures
            r == InputImageCapability::Reject,
    {
        InputImageCapability::Reject
    }
}

impl Default for InputFileCapability {
    fn default() -> (r: Self)
        ensures
            r == InputFileCapability::Unsupported,
    {
        InputFileCapability::Unsupported
    }
}

impl Default for TruncationAutoCapability {
    fn default() -> (r: Self)
        ensures
            r == TruncationAutoCapability::Unsupported,
    {
        TruncationAutoCapability::Unsupported
    }
}

impl Default for TextVerbosityCapability {
    fn default() -> (r: Self)
        ensures
            r == TextVerbosityCapability::Unsupported,
    {
        TextVerbosityCapability::Unsupported
    }
}

impl Default for PromptCacheKeyCapability {
    fn default() -> (r: Self)
        ensures
            r == PromptCacheKeyCapability::Unsupported,
    {
        PromptCacheKeyCapability::Unsupported
    }
}

/// A partial declaration of one layer. `None` inherits.
#[derive(Debug, Clone, PartialEq, Eq)]
pub struct ResponsesCapabilitiesConfig {
    /// Whether tools may be called side by side.
    pub parallel_tool_calls: Option<bool>,
    /// Formats of the output text.
    pub structured_outputs: Option<Vec<StructuredOutputCapability>>,
    /// Who writes reasoning summaries.
    pub reasoning_summary: Option<ReasoningSummaryCapability>,
    /// What happens to encrypted reasoning.
    pub encrypted_reasoning: Option<EncryptedReasoningCapability>,
    /// What happens to encrypted content between agents.
    pub agent_message_encrypted_content: Option<AgentMessageEncryptedContentCapability>,
    /// What happens to input images.
    pub input_image: Option<InputImageCapability>,
    /// What happens to input files.
    pub input_file: Option<InputFileCapability>,
    /// Who truncates an overlong input.
    pub truncation_auto: Option<TruncationAutoCapability>,
    /// Who heeds a requested verbosity.
    pub text_verbosity: Option<TextVerbosityCapability>,
    /// Service tiers.
    pub service_tiers: Option<Vec<String>>,
    /// What happens to a cache key.
    pub prompt_cache_key: Option<PromptCacheKeyCapability>,
    /// Cache retentions.
    pub prompt_cache_retention: Option<Vec<String>>,
}

/// The contents of a [`ResponsesCapabilitiesConfig`].
#[verifier::ext_equal]
pub struct ConfigView {
    /// Whether tools may be called side by side.
    pub parallel_tool_calls: Option<bool>,
    /// Formats of the output text.
    pub structured_outputs: Option<Seq<StructuredOutputCapability>>,
    /// Who writes reasoning summaries.
    pub reasoning_summary: Option<ReasoningSummaryCapability>,
    /// What happens to encrypted reasoning.
    pub encrypted_reasoning: Option<EncryptedReasoningCapability>,
    /// What happens to encrypted content between agents.
    pub agent_message_encrypted_content: Option<AgentMessageEncryptedContentCapability>,
    /// What happens to input images.
    pub input_image: Option<InputImageCapability>,
    /// What happens to input files.
    pub input_file: Option<InputFileCapability>,
    /// Who truncates an overlong input.
    pub truncation_auto: Option<TruncationAutoCapability>,
    /// Who heeds a requested verbosity.
    pub text_verbosity: Option<TextVerbosityCapability>,
    /// Service tiers.
    pub service_tiers: Option<Seq<Seq<char>>>,
    /// What happens to a cache key.
    pub prompt_cache_key: Option<PromptCacheKeyCapability>,
    /// Cache retentions.
    pub prompt_cache_retention: Option<Seq<Seq<char>>>,
}

impl View for ResponsesCapabilitiesConfig {
    type V = ConfigView;

    open spec fn view(&self) -> ConfigView {
        ConfigView {
            parallel_tool_calls: self.parallel_tool_calls,
            structured_outputs: match self.structured_outputs {
                Some(v) => Some(v@),
                None => None,
            },
            reasoning_summary: self.reasoning_summary,
            encrypted_reasoning: self.encrypted_reasoning,
            agent_message_encrypted_content: self.agent_message_encrypted_content,
            input_image: self.input_image,
            input_file: self.input_file,
            truncation_auto: self.truncation_auto,
            text_verbosity: self.text_verbosity,
            service_tiers: text::opt_strings_view(self.service_tiers),
            prompt_cache_key: self.prompt_cache_key,
            prompt_cache_retention: text::opt_strings_view(self.prompt_cache_retention),
        }
    }
}

/// `upper` where it declares something, else `lower`.
pub open spec fn layered<T>(lower: Option<T>, upper: Option<T>) -> Option<T> {
    match upper {
        Some(v) => Some(v),
        None => lower,
    }
}

/// `declared`, or `default` where nothing is.
pub open spec fn declared_or<T>(declared: Option<T>, default: T) -> T {
    match declared {
        Some(v) => v,
        None => default,
    }
}

impl ConfigView {
    /// This layer with the declarations of `other` on top, field by field.
    pub open spec fn overlaid(self, other: ConfigView) -> ConfigView {
        ConfigView {
            parallel_tool_calls: layered(self.parallel_tool_calls, other.parallel_tool_calls),
            structured_outputs: layered(self.structured_outputs, other.structured_outputs),
            reasoning_summary: layered(self.reasoning_summary, other.reasoning_summary),
            encrypted_reasoning: layered(self.encrypted_reasoning, other.encrypted_reasoning),
            agent_message_encrypted_content: layered(
                self.agent_message_encrypted_content,
                other.agent_message_encrypted_content,
            ),
            input_image: layered(self.input_image, other.input_image),
            input_file: layered(self.input_file, other.input_file),
            truncation_auto: layered(self.truncation_auto, other.truncation_auto),
            text_verbosity: layered(self.text_verbosity, other.text_verbosity),
            service_tiers: layered(self.service_tiers, other.service_tiers),
            prompt_cache_key: layered(self.prompt_cache_key, other.prompt_cache_key),
            prompt_cache_retention: layered(
                self.prompt_cache_retention,
                other.prompt_cache_retention,
            ),
        }
    }

    /// A layer that declares nothing.
    pub open spec fn nothing() -> ConfigView {
        ConfigView {
            parallel_tool_calls: None,
            structured_outputs: None,
            reasoning_summary: None,
            encrypted_reasoning: None,
            agent_message_encrypted_content: None,
            input_image: None,
            input_file: None,
            truncation_auto: None,
            text_verbosity: None,
            service_tiers: None,
            prompt_cache_key: None,
            prompt_cache_retention: None,
        }
    }

    /// What the layer comes to: what it does not declare is refused.
    pub open spec fn resolved(self) -> CapabilitiesView {
        CapabilitiesView {
            parallel_tool_calls: declared_or(self.parallel_tool_calls, false),
            structured_outputs: declared_or(
                self.structured_outputs,
                seq![StructuredOutputCapability::Text],
            ),
            reasoning_summary: declared_or(
                self.reasoning_summary,
                ReasoningSummaryCapability::Unsupported,
            ),
            encrypted_reasoning: declared_or(
                self.encrypted_reasoning,
                EncryptedReasoningCapability::Unsupported,
            ),
            agent_message_encrypted_content: declared_or(
                self.agent_message_encrypted_content,
                AgentMessageEncryptedContentCapability::Unsupported,
            ),
            input_image: declared_or(self.input_image, InputImageCapability::Reject),
            input_file: declared_or(self.input_file, InputFileCapability::Unsupported),
            truncation_auto: declared_or(
                self.truncation_auto,
                TruncationAutoCapability::Unsupported,
            ),
            text_verbosity: declared_or(self.text_verbosity, TextVerbosityCapability::Unsupported),
            service_tiers: declared_or(self.service_tiers, seq![]),
            prompt_cache_key: declared_or(
                self.prompt_cache_key,
                PromptCacheKeyCapability::Unsupported,
            ),
            prompt_cache_retention: declared_or(self.prompt_cache_retention, seq![]),
        }
    }
}

/// What one served model can do.
#[derive(Debug, Clone, PartialEq, Eq)]
pub struct ResponsesCapabilities {
    /// Whether tools may be called side by side.
    pub parallel_tool_calls: bool,
    /// Formats of the output text.
    pub structured_outputs: Vec<StructuredOutputCapability>,
    /// Who writes reasoning summaries.
    pub reasoning_summary: ReasoningSummaryCapability,
    /// What happens to encrypted reasoning.
    pub encrypted_reasoning: EncryptedReasoningCapability,
    /// What happens to encrypted content between agents.
    pub agent_message_encrypted_content: AgentMessageEncryptedContentCapability,
    /// What happens to input images.
    pub input_image: InputImageCapability,
    /// What happens to input files.
    pub input_file: InputFileCapability,
    /// Who truncates an overlong input.
    pub truncation_auto: TruncationAutoCapability,
    /// Who heeds a requested verbosity.
    pub text_verbosity: TextVerbosityCapability,
    /// Service tiers.
    pub service_tiers: Vec<String>,
    /// What happens to a cache key.
    pub prompt_cache_key: PromptCacheKeyCapability,
    /// Cache retentions.
    pub prompt_cache_retention: Vec<String>,
}

/// The contents of [`ResponsesCapabilities`].
#[verifier::ext_equal]
pub struct CapabilitiesView {
    /// Whether tools may be called side by side.
    pub parallel_tool_calls: bool,
    /// Formats of the output text.
    pub structured_outputs: Seq<StructuredOutputCapability>,
    /// Who writes reasoning summaries.
    pub reasoning_summary: ReasoningSummaryCapability,
    /// What happens to encrypted reasoning.
    pub encrypted_reasoning: EncryptedReasoningCapability,
    /// What happens to encrypted content between agents.
    pub agent_message_encrypted_content: AgentMessageEncryptedContentCapability,
    /// What happens to input images.
    pub input_image: InputImageCapability,
    /// What happens to input files.
    pub input_file: InputFileCapability,
    /// Who truncates an overlong input.
    pub truncation_auto: TruncationAutoCapability,
    /// Who heeds a requested verbosity.
    pub text_verbosity: TextVerbosityCapability,
    /// Service tiers.
    pub service_tiers: Seq<Seq<char>>,
    /// What happens to a cache key.
    pub prompt_cache_key: PromptCacheKeyCapability,
    /// Cache retentions.
    pub prompt_cache_retention: Seq<Seq<char>>,
}

impl View for ResponsesCapabilities {
    type V = CapabilitiesView;

    open spec fn view(&self) -> CapabilitiesView {
        CapabilitiesView {
            parallel_tool_calls: self.parallel_tool_calls,
            structured_outputs: self.structured_outputs@,
            reasoning_summary: self.reasoning_summary,
            encrypted_reasoning: self.encrypted_reasoning,
            agent_message_encrypted_content: self.agent_message_encrypted_content,
            input_image: self.input_image,
            input_file: self.input_file,
            truncation_auto: self.truncation_auto,
            text_verbosity: self.text_verbosity,
            service_tiers: text::strings_view(self.service_tiers@),
            prompt_cache_key: self.prompt_cache_key,
            prompt_cache_retention: text::strings_view(self.prompt_cache_retention@),
        }
    }
}

fn copy_outputs(v: &Vec<StructuredOutputCapability>) -> (r: Vec<StructuredOutputCapability>)
    ensures
        r@ == v@,
{
    let mut out: Vec<StructuredOutputCapability> = Vec::new();
    let mut i: usize = 0;
    while i < v.len()
        invariant
            i <= v@.len(),
            out@ == v@.take(i as int),
        decreases v@.len() - i,
    {
        out.push(v[i]);
        assert(v@.take(i + 1) =~= v@.take(i as int).push(v@[i as int]));
        i += 1;
    }
    assert(v@.take(v@.len() as int) =~= v@);
    out
}

impl Default for ResponsesCapabilitiesConfig {
    fn default() -> (r: Self)
        ensures
            r@ == ConfigView::nothing(),
    {
        ResponsesCapabilitiesConfig {
            parallel_tool_calls: None,
            structured_outputs: None,
            reasoning_summary: None,
            encrypted_reasoning: None,
            agent_message_encrypted_content: None,
            input_image: None,
            input_file: None,
            truncation_auto: None,
            text_verbosity: None,
            service_tiers: None,
            prompt_cache_key: None,
            prompt_cache_retention: None,
        }
    }
}

impl ResponsesCapabilitiesConfig {
    /// Lays what `other` declares over this layer.
    pub fn overlay(&mut self, other: &Self)
        ensures
            final(self)@ == old(self)@.overlaid(other@),
    {
        if other.parallel_tool_calls.is_some() {
            self.parallel_tool_calls = other.parallel_tool_calls;
        }
        if let Some(outputs) = &other.structured_outputs {
            self.structured_outputs = Some(copy_outputs(outputs));
        }
        if other.reasoning_summary.is_some() {
            self.reasoning_summary = other.reasoning_summary;
        }
        if other.encrypted_reasoning.is_some() {
            self.encrypted_reasoning = other.encrypted_reasoning;
        }
        if other.agent_message_encrypted_content.is_some() {
            self.agent_message_encrypted_content = other.agent_message_encrypted_content;
        }
        if other.input_image.is_some() {
            self.input_image = other.input_image;
        }
        if other.input_file.is_some() {
            self.input_file = other.input_file;
        }
        if other.truncation_auto.is_some() {
            self.truncation_auto = other.truncation_auto;
        }
        if other.text_verbosity.is_some() {
            self.text_verbosity = other.text_verbosity;
        }
        if other.service_tiers.is_some() {
            self.service_tiers = text::copy_opt_strings(&other.service_tiers);
        }
        if other.prompt_cache_key.is_some() {
            self.prompt_cache_key = other.prompt_cache_key;
        }
        if other.prompt_cache_retention.is_some() {
            self.prompt_cache_retention = text::copy_opt_strings(&other.prompt_cache_retention);
        }
    }

    /// This layer with what `other` declares on top.
    pub fn overlaid(self, other: &Self) -> (r: Self)
        ensures
            r@ == self@.overlaid(other@),
    {
        let mut layer = self;
        layer.overlay(other);
        layer
    }

    /// What the layer comes to.
    pub fn resolve(&self) -> (r: ResponsesCapabilities)
        ensures
            r@ == self@.resolved(),
    {
        ResponsesCapabilities {
            parallel_tool_calls: self.parallel_tool_calls.unwrap_or(false),
            structured_outputs: match &self.structured_outputs {
                Some(outputs) => copy_outputs(outputs),
                None => {
                    let mut outputs: Vec<StructuredOutputCapability> = Vec::new();
                    outputs.push(StructuredOutputCapability::Text);
                    assert(outputs@ =~= seq![StructuredOutputCapability::Text]);
                    outputs
                },
            },
            reasoning_summary: self.reasoning_summary.unwrap_or(
                ReasoningSummaryCapability::Unsupported,
            ),
            encrypted_reasoning: self.encrypted_reasoning.unwrap_or(
                EncryptedReasoningCapability::Unsupported,
            ),
            agent_message_encrypted_content: self.agent_message_encrypted_content.unwrap_or(
                AgentMessageEncryptedContentCapability::Unsupported,
            ),
            input_image: self.input_image.unwrap_or(InputImageCapability::Reject),
            input_file: self.input_file.unwrap_or(InputFileCapability::Unsupported),
            truncation_auto: self.truncation_auto.unwrap_or(TruncationAutoCapability::Unsupported),
            text_verbosity: self.text_verbosity.unwrap_or(TextVerbosityCapability::Unsupported),
            service_tiers: match &self.service_tiers {
                Some(tiers) => text::copy_strings(tiers),
                None => {
                    let none: Vec<String> = Vec::new();
                    assert(text::strings_view(none@) =~= seq![]);
                    none
                },
            },
            prompt_cache_key: self.prompt_cache_key.unwrap_or(
                PromptCacheKeyCapability::Unsupported,
            ),
            prompt_cache_retention: match &self.prompt_cache_retention {
                Some(values) => text::copy_strings(values),
                None => {
                    let none: Vec<String> = Vec::new();
                    assert(text::strings_view(none@) =~= seq![]);
                    none
                },
            },
        }
    }
}

impl Default for ResponsesCapabilities {
    fn default() -> (r: Self)
        ensures
            r@ == ConfigView::nothing().resolved(),
    {
        ResponsesCapabilitiesConfig::default().resolve()
    }
}


// --- Admission ------------------------------------------------------------------------

/// Stable identity of a served model.
#[derive(Debug, Clone, PartialEq, Eq, Hash)]
pub struct CapabilityTarget {
    /// Provider.
    pub provider: String,
    /// Served model.
    pub model: String,
}

/// A served model and what it can do.
#[derive(Debug, Clone)]
pub struct CapabilityCandidate {
    /// Which one.
    pub target: CapabilityTarget,
    /// What it can do.
    pub capabilities: ResponsesCapabilities,
}

/// The candidates of a request, the primary first.
#[derive(Debug, Clone)]
pub struct CapabilityPlan {
    /// The candidates.
    pub candidates: Vec<CapabilityCandidate>,
}

impl Default for CapabilityPlan {
    fn default() -> (r: Self)
        ensures
            r.candidates@.len() == 0,
    {
        CapabilityPlan { candidates: Vec::new() }
    }
}

impl View for CapabilityTarget {
    type V = (Seq<char>, Seq<char>);

    open spec fn view(&self) -> (Seq<char>, Seq<char>) {
        (self.provider@, self.model@)
    }
}

/// The request fields that no backend supports.
pub open spec fn reserved_fields() -> Seq<Seq<char>> {
    seq![
        "background"@,
        "conversation"@,
        "max_tool_calls"@,
        "prompt"@,
        "safety_identifier"@,
        "top_logprobs"@,
    ]
}

/// A field, where it is among the members `extra`.
pub open spec fn reserved_check(extra: Seq<(Seq<char>, JsonView)>) -> spec_fn(
    int,
    Seq<char>,
) -> Option<Seq<char>> {
    |i: int, field: Seq<char>|
        if json::has_member(extra, field) {
            Some(field)
        } else {
            None
        }
}

/// The first reserved field among the members `extra`.
pub open spec fn reserved_in(extra: Seq<(Seq<char>, JsonView)>) -> Option<Seq<char>> {
    text::first_some(reserved_fields(), reserved_check(extra), 0)
}

/// The output format that a text format's type asks for.
pub open spec fn format_required(kind: Seq<char>) -> Option<StructuredOutputCapability> {
    if kind == "text"@ {
        Some(StructuredOutputCapability::Text)
    } else if kind == "json_object"@ {
        Some(StructuredOutputCapability::JsonObject)
    } else if kind == "json_schema"@ {
        Some(StructuredOutputCapability::JsonSchema)
    } else {
        None
    }
}

/// The path of a text format that is not supported.
pub open spec fn format_refused(
    request: ResponsesRequest,
    caps: CapabilitiesView,
) -> Option<Seq<char>> {
    match request.text {
        Some(controls) => match controls.format {
            Some(format) => match format_required(format.kind@) {
                Some(required) => if caps.structured_outputs.contains(required) {
                    None
                } else {
                    Some("text.format"@)
                },
                None => Some("text.format.type"@),
            },
            None => None,
        },
        None => None,
    }
}

/// Whether a reasoning summary is asked for.
pub open spec fn asks_for_summary(request: ResponsesRequest) -> bool {
    match request.reasoning {
        Some(reasoning) => match reasoning.summary {
            Some(summary) => summary@ != "none"@,
            None => false,
        },
        None => false,
    }
}

/// Whether a value that a request wants brought along can be.
pub open spec fn include_supported(value: Seq<char>, caps: CapabilitiesView) -> bool {
    if value == "reasoning.encrypted_content"@ {
        caps.encrypted_reasoning == EncryptedReasoningCapability::Passthrough
    } else {
        value == "web_search_call.action.sources"@
    }
}

/// The path of a value that cannot be brought along.
pub open spec fn include_check(caps: CapabilitiesView) -> spec_fn(int, String) -> Option<
    Seq<char>,
> {
    |i: int, value: String|
        if include_supported(value@, caps) {
            None
        } else {
            Some(text::indexed("include"@, i))
        }
}

/// The path of the first value that cannot be brought along.
pub open spec fn include_refused(includes: Seq<String>, caps: CapabilitiesView) -> Option<
    Seq<char>,
> {
    text::first_some(includes, include_check(caps), 0)
}

/// Whether an item holds encrypted reasoning.
pub open spec fn holds_encrypted_reasoning(item: ResponseItem) -> bool {
    item matches ResponseItem::Reasoning { encrypted_content: Some(_), .. }
}

/// The path of encrypted reasoning.
pub open spec fn encrypted_reasoning_check(base: Seq<char>) -> spec_fn(
    int,
    ResponseItem,
) -> Option<Seq<char>> {
    |i: int, item: ResponseItem|
        if holds_encrypted_reasoning(item) {
            Some(text::indexed(base, i) + ".encrypted_content"@)
        } else {
            None
        }
}

/// The path of the first encrypted reasoning among `items`.
pub open spec fn encrypted_reasoning_in(items: Seq<ResponseItem>, base: Seq<char>) -> Option<
    Seq<char>,
> {
    text::first_some(items, encrypted_reasoning_check(base), 0)
}

/// The first of two results.
pub open spec fn or_else<T>(a: Option<T>, b: Option<T>) -> Option<T> {
    match a {
        Some(v) => Some(v),
        None => b,
    }
}

/// The path of the first encrypted reasoning of a request.
pub open spec fn encrypted_reasoning_path(request: ResponsesRequest) -> Option<Seq<char>> {
    or_else(
        encrypted_reasoning_in(
            responses::instruction_items(request.instructions),
            "instructions"@,
        ),
        encrypted_reasoning_in(request.input@, "input"@),
    )
}

/// Whether a content part is refused, in a message or in a function's output.
pub open spec fn part_refused(
    part: ContentItem,
    caps: CapabilitiesView,
    function_output: bool,
) -> bool {
    match part {
        ContentItem::InputText { .. } => false,
        ContentItem::InputImage { .. } => caps.input_image == InputImageCapability::Reject,
        ContentItem::InputFile { .. } => caps.input_file != InputFileCapability::Native,
        ContentItem::OutputText { .. } => function_output,
        ContentItem::Refusal { .. } => function_output,
        ContentItem::Other(_) => true,
    }
}

/// The path of a content part that is refused.
pub open spec fn part_check(
    base: Seq<char>,
    caps: CapabilitiesView,
    function_output: bool,
) -> spec_fn(int, ContentItem) -> Option<Seq<char>> {
    |i: int, part: ContentItem|
        if part_refused(part, caps, function_output) {
            Some(text::indexed(base, i))
        } else {
            None
        }
}

/// The path of the first content part that is refused.
pub open spec fn content_refused(
    content: Seq<ContentItem>,
    base: Seq<char>,
    caps: CapabilitiesView,
    function_output: bool,
) -> Option<Seq<char>> {
    text::first_some(content, part_check(base, caps, function_output), 0)
}

/// The index of an encrypted part.
pub open spec fn encrypted_part_check() -> spec_fn(int, AgentMessageInputContent) -> Option<int> {
    |i: int, part: AgentMessageInputContent|
        if part is EncryptedContent {
            Some(i)
        } else {
            None
        }
}

/// The index of the first encrypted part of a message between agents.
pub open spec fn encrypted_part(content: Seq<AgentMessageInputContent>) -> Option<int> {
    text::first_some(content, encrypted_part_check(), 0)
}

/// The content parts of an item, and whether they are a function's output.
pub open spec fn item_content(item: ResponseItem) -> Option<(Seq<ContentItem>, bool)> {
    match item {
        ResponseItem::Message { content, .. } => Some((content@, false)),
        ResponseItem::FunctionCallOutput {
            output: FunctionCallOutputContent::Content(content),
            ..
        } => Some((content@, true)),
        ResponseItem::CustomToolCallOutput {
            output: FunctionCallOutputContent::Content(content),
            ..
        } => Some((content@, true)),
        _ => None,
    }
}

/// The path of an item's content parts.
pub open spec fn content_path(base: Seq<char>, i: int, function_output: bool) -> Seq<char> {
    text::indexed(base, i) + (if function_output {
        ".output"@
    } else {
        ".content"@
    })
}

/// The path of what is refused in the `i`th item.
pub open spec fn item_refused(
    item: ResponseItem,
    base: Seq<char>,
    i: int,
    caps: CapabilitiesView,
) -> Option<Seq<char>> {
    match item_content(item) {
        Some((content, function_output)) => content_refused(
            content,
            content_path(base, i, function_output),
            caps,
            function_output,
        ),
        None => match item {
            ResponseItem::AgentMessage { content, .. } => match encrypted_part(content@) {
                Some(k) if caps.agent_message_encrypted_content
                    != AgentMessageEncryptedContentCapability::PlaintextCompat => Some(
                    text::indexed(text::indexed(base, i) + ".content"@, k),
                ),
                _ => None,
            },
            ResponseItem::ImageGenerationCall { .. } => Some(text::indexed(base, i)),
            _ => None,
        },
    }
}

/// The path of what is refused in an item.
pub open spec fn item_check(base: Seq<char>, caps: CapabilitiesView) -> spec_fn(
    int,
    ResponseItem,
) -> Option<Seq<char>> {
    |i: int, item: ResponseItem| item_refused(item, base, i, caps)
}

/// The path of the first thing that is refused among `items`.
pub open spec fn items_refused(
    items: Seq<ResponseItem>,
    base: Seq<char>,
    caps: CapabilitiesView,
) -> Option<Seq<char>> {
    text::first_some(items, item_check(base, caps), 0)
}

/// Whether truncation other than `disabled` is asked for.
pub open spec fn asks_for_truncation(request: ResponsesRequest) -> bool {
    match request.truncation {
        Some(mode) => mode@ != JsonView::Text("disabled"@),
        None => false,
    }
}

/// Whether a verbosity is asked for.
pub open spec fn asks_for_verbosity(request: ResponsesRequest) -> bool {
    match request.text {
        Some(controls) => controls.verbosity is Some,
        None => false,
    }
}

/// The path of an image generation tool.
pub open spec fn image_tool_check() -> spec_fn(int, ToolSpec) -> Option<Seq<char>> {
    |i: int, tool: ToolSpec|
        if tool is ImageGeneration {
            Some(text::indexed("tools"@, i))
        } else {
            None
        }
}

/// The path of the first image generation tool.
pub open spec fn image_tool_refused(tools: Seq<ToolSpec>) -> Option<Seq<char>> {
    text::first_some(tools, image_tool_check(), 0)
}

/// The first control of a web search tool: it would be accepted and not heeded.
pub open spec fn web_search_control(tool: ToolSpec) -> Option<Seq<char>> {
    match tool {
        ToolSpec::WebSearch {
            external_web_access,
            filters,
            user_location,
            search_context_size,
            search_content_types,
        } => if external_web_access is Some {
            Some(".external_web_access"@)
        } else if filters is Some {
            Some(".filters"@)
        } else if user_location is Some {
            Some(".user_location"@)
        } else if search_context_size is Some {
            Some(".search_context_size"@)
        } else if search_content_types is Some {
            Some(".search_content_types"@)
        } else {
            None
        },
        _ => None,
    }
}

/// The path of a control of a web search tool.
pub open spec fn web_search_check() -> spec_fn(int, ToolSpec) -> Option<Seq<char>> {
    |i: int, tool: ToolSpec|
        match web_search_control(tool) {
            Some(control) => Some(text::indexed("tools"@, i) + control),
            None => None,
        }
}

/// The path of the first control of a web search tool.
pub open spec fn web_search_refused(tools: Seq<ToolSpec>) -> Option<Seq<char>> {
    text::first_some(tools, web_search_check(), 0)
}

/// Whether an optional value is none of `allowed`.
pub open spec fn outside(value: Option<String>, allowed: Seq<Seq<char>>) -> bool {
    match value {
        Some(v) => !allowed.contains(v@),
        None => false,
    }
}

/// The path of the first thing in `request` that `caps` does not support.
pub open spec fn refused(request: ResponsesRequest, caps: CapabilitiesView) -> Option<Seq<char>> {
    if reserved_in(request.extra_body@) is Some {
        reserved_in(request.extra_body@)
    } else if request.parallel_tool_calls == Some(true) && !caps.parallel_tool_calls {
        Some("parallel_tool_calls"@)
    } else if format_refused(request, caps) is Some {
        format_refused(request, caps)
    } else if asks_for_summary(request) && caps.reasoning_summary
        != ReasoningSummaryCapability::Upstream {
        Some("reasoning.summary"@)
    } else if include_refused(request.includes@, caps) is Some {
        include_refused(request.includes@, caps)
    } else if encrypted_reasoning_path(request) is Some && caps.encrypted_reasoning
        != EncryptedReasoningCapability::Passthrough {
        encrypted_reasoning_path(request)
    } else if items_refused(
        responses::instruction_items(request.instructions),
        "instructions"@,
        caps,
    ) is Some {
        items_refused(
            responses::instruction_items(request.instructions),
            "instructions"@,
            caps,
        )
    } else if items_refused(request.input@, "input"@, caps) is Some {
        items_refused(request.input@, "input"@, caps)
    } else if asks_for_truncation(request) && caps.truncation_auto
        != TruncationAutoCapability::Upstream {
        Some("truncation"@)
    } else if asks_for_verbosity(request) && caps.text_verbosity
        != TextVerbosityCapability::Upstream {
        Some("text.verbosity"@)
    } else if outside(request.service_tier, caps.service_tiers) {
        Some("service_tier"@)
    } else if request.prompt_cache_key is Some && caps.prompt_cache_key
        == PromptCacheKeyCapability::Unsupported {
        Some("prompt_cache_key"@)
    } else if outside(request.prompt_cache_retention, caps.prompt_cache_retention) {
        Some("prompt_cache_retention"@)
    } else if image_tool_refused(request.tools@) is Some {
        image_tool_refused(request.tools@)
    } else {
        web_search_refused(request.tools@)
    }
}

fn reserved_field(request: &ResponsesRequest) -> (r: Option<String>)
    ensures
        text::opt_view(r) == reserved_in(request.extra_body@),
{
    proof {
        reveal_with_fuel(text::first_some, 7);
    }
    let body = &request.extra_body;
    if body.contains_key("background") {
        Some("background".to_owned())
    } else if body.contains_key("conversation") {
        Some("conversation".to_owned())
    } else if body.contains_key("max_tool_calls") {
        Some("max_tool_calls".to_owned())
    } else if body.contains_key("prompt") {
        Some("prompt".to_owned())
    } else if body.contains_key("safety_identifier") {
        Some("safety_identifier".to_owned())
    } else if body.contains_key("top_logprobs") {
        Some("top_logprobs".to_owned())
    } else {
        None
    }
}

fn holds_output(list: &Vec<StructuredOutputCapability>, x: StructuredOutputCapability) -> (r: bool)
    ensures
        r == list@.contains(x),
{
    let mut i: usize = 0;
    while i < list.len()
        invariant
            i <= list@.len(),
            forall|k: int| 0 <= k < i ==> list@[k] != x,
        decreases list@.len() - i,
    {
        if list[i] == x {
            return true;
        }
        i += 1;
    }
    false
}

fn unsupported_format(request: &ResponsesRequest, capabilities: &ResponsesCapabilities) -> (r:
    Option<String>)
    ensures
        text::opt_view(r) == format_refused(*request, capabilities@),
{
    let controls = match &request.text {
        Some(controls) => controls,
        None => {
            return None;
        },
    };
    let format = match &controls.format {
        Some(format) => format,
        None => {
            return None;
        },
    };
    let kind = format.kind.as_str();
    let required = if text::str_eq(kind, "text") {
        StructuredOutputCapability::Text
    } else if text::str_eq(kind, "json_object") {
        StructuredOutputCapability::JsonObject
    } else if text::str_eq(kind, "json_schema") {
        StructuredOutputCapability::JsonSchema
    } else {
        return Some("text.format.type".to_owned());
    };
    if holds_output(&capabilities.structured_outputs, required) {
        None
    } else {
        Some("text.format".to_owned())
    }
}

fn wants_summary(request: &ResponsesRequest) -> (r: bool)
    ensures
        r == asks_for_summary(*request),
{
    match &request.reasoning {
        Some(reasoning) => match &reasoning.summary {
            Some(summary) => !text::str_eq(summary.as_str(), "none"),
            None => false,
        },
        None => false,
    }
}

fn unsupported_include(
    includes: &Vec<String>,
    capabilities: &ResponsesCapabilities,
) -> (r: Option<String>)
    ensures
        text::opt_view(r) == include_refused(includes@, capabilities@),
{
    let mut i: usize = 0;
    while i < includes.len()
        invariant
            i <= includes@.len(),
            include_refused(includes@, capabilities@) == text::first_some(
                includes@,
                include_check(capabilities@),
                i as int,
            ),
        decreases includes@.len() - i,
    {
        let value = includes[i].as_str();
        let supported = if text::str_eq(value, "reasoning.encrypted_content") {
            capabilities.encrypted_reasoning == EncryptedReasoningCapability::Passthrough
        } else {
            text::str_eq(value, "web_search_call.action.sources")
        };
        if !supported {
            return Some(text::indexed_path("include", i));
        }
        i += 1;
    }
    None
}

fn encrypted_reasoning_path_in(items: &Vec<ResponseItem>, base: &str) -> (r: Option<String>)
    ensures
        text::opt_view(r) == encrypted_reasoning_in(items@, base@),
{
    let mut i: usize = 0;
    while i < items.len()
        invariant
            i <= items@.len(),
            encrypted_reasoning_in(items@, base@) == text::first_some(
                items@,
                encrypted_reasoning_check(base@),
                i as int,
            ),
        decreases items@.len() - i,
    {
        if let ResponseItem::Reasoning { encrypted_content, .. } = &items[i] {
            if encrypted_content.is_some() {
                let path = text::indexed_path(base, i);
                return Some(text::joined(path.as_str(), ".encrypted_content"));
            }
        }
        i += 1;
    }
    None
}

fn first_encrypted_reasoning_path(request: &ResponsesRequest) -> (r: Option<String>)
    ensures
        text::opt_view(r) == encrypted_reasoning_path(*request),
{
    if let Some(items) = request.instructions.items() {
        let path = encrypted_reasoning_path_in(items, "instructions");
        if path.is_some() {
            return path;
        }
    }
    encrypted_reasoning_path_in(&request.input, "input")
}

fn unsupported_content_parameter(
    content: &Vec<ContentItem>,
    base: &str,
    capabilities: &ResponsesCapabilities,
    function_output: bool,
) -> (r: Option<String>)
    ensures
        text::opt_view(r) == content_refused(content@, base@, capabilities@, function_output),
{
    let mut i: usize = 0;
    while i < content.len()
        invariant
            i <= content@.len(),
            content_refused(content@, base@, capabilities@, function_output) == text::first_some(
                content@,
                part_check(base@, capabilities@, function_output),
                i as int,
            ),
        decreases content@.len() - i,
    {
        let refused = match &content[i] {
            ContentItem::InputText { .. } => false,
            ContentItem::InputImage { .. } => capabilities.input_image
                == InputImageCapability::Reject,
            ContentItem::InputFile { .. } => capabilities.input_file
                != InputFileCapability::Native,
            ContentItem::OutputText { .. } => function_output,
            ContentItem::Refusal { .. } => function_output,
            ContentItem::Other(_) => true,
        };
        if refused {
            return Some(text::indexed_path(base, i));
        }
        i += 1;
    }
    None
}

fn first_encrypted_part(content: &Vec<AgentMessageInputContent>) -> (r: Option<usize>)
    ensures
        match r {
            Some(k) => encrypted_part(content@) == Some(k as int),
            None => encrypted_part(content@) is None,
        },
{
    let mut i: usize = 0;
    while i < content.len()
        invariant
            i <= content@.len(),
            encrypted_part(content@) == text::first_some(
                content@,
                encrypted_part_check(),
                i as int,
            ),
        decreases content@.len() - i,
    {
        if let AgentMessageInputContent::EncryptedContent { .. } = &content[i] {
            return Some(i);
        }
        i += 1;
    }
    None
}

fn content_base(base: &str, i: usize, function_output: bool) -> (r: String)
    ensures
        r@ == content_path(base@, i as int, function_output),
{
    let path = text::indexed_path(base, i);
    if function_output {
        text::joined(path.as_str(), ".output")
    } else {
        text::joined(path.as_str(), ".content")
    }
}

fn unsupported_item_parameter(
    item: &ResponseItem,
    base: &str,
    i: usize,
    capabilities: &ResponsesCapabilities,
) -> (r: Option<String>)
    ensures
        text::opt_view(r) == item_refused(*item, base@, i as int, capabilities@),
{
    match item {
        ResponseItem::Message { content, .. } => unsupported_content_parameter(
            content,
            content_base(base, i, false).as_str(),
            capabilities,
            false,
        ),
        ResponseItem::AgentMessage { content, .. } => {
            if capabilities.agent_message_encrypted_content
                != AgentMessageEncryptedContentCapability::PlaintextCompat {
                match first_encrypted_part(content) {
                    Some(k) => Some(
                        text::indexed_path(content_base(base, i, false).as_str(), k),
                    ),
                    None => None,
                }
            } else {
                None
            }
        },
        ResponseItem::FunctionCallOutput {
            output: FunctionCallOutputContent::Content(content),
            ..
        } => unsupported_content_parameter(
            content,
            content_base(base, i, true).as_str(),
            capabilities,
            true,
        ),
        ResponseItem::CustomToolCallOutput {
            output: FunctionCallOutputContent::Content(content),
            ..
        } => unsupported_content_parameter(
            content,
            content_base(base, i, true).as_str(),
            capabilities,
            true,
        ),
        ResponseItem::ImageGenerationCall { .. } => Some(text::indexed_path(base, i)),
        _ => None,
    }
}

fn unsupported_items_parameter(
    items: &Vec<ResponseItem>,
    base: &str,
    capabilities: &ResponsesCapabilities,
) -> (r: Option<String>)
    ensures
        text::opt_view(r) == items_refused(items@, base@, capabilities@),
{
    let mut i: usize = 0;
    while i < items.len()
        invariant
            i <= items@.len(),
            items_refused(items@, base@, capabilities@) == text::first_some(
                items@,
                item_check(base@, capabilities@),
                i as int,
            ),
        decreases items@.len() - i,
    {
        let path = unsupported_item_parameter(&items[i], base, i, capabilities);
        if path.is_some() {
            return path;
        }
        i += 1;
    }
    None
}

fn wants_truncation(request: &ResponsesRequest) -> (r: bool)
    ensures
        r == asks_for_truncation(*request),
{
    match &request.truncation {
        Some(value) => match value.as_str() {
            Some(mode) => !text::str_eq(mode, "disabled"),
            None => true,
        },
        None => false,
    }
}

fn first_image_tool(tools: &Vec<ToolSpec>) -> (r: Option<String>)
    ensures
        text::opt_view(r) == image_tool_refused(tools@),
{
    let mut i: usize = 0;
    while i < tools.len()
        invariant
            i <= tools@.len(),
            image_tool_refused(tools@) == text::first_some(tools@, image_tool_check(), i as int),
        decreases tools@.len() - i,
    {
        if let ToolSpec::ImageGeneration { .. } = &tools[i] {
            return Some(text::indexed_path("tools", i));
        }
        i += 1;
    }
    None
}

fn first_web_search_control(tools: &Vec<ToolSpec>) -> (r: Option<String>)
    ensures
        text::opt_view(r) == web_search_refused(tools@),
{
    let mut i: usize = 0;
    while i < tools.len()
        invariant
            i <= tools@.len(),
            web_search_refused(tools@) == text::first_some(tools@, web_search_check(), i as int),
        decreases tools@.len() - i,
    {
        if let ToolSpec::WebSearch {
            external_web_access,
            filters,
            user_location,
            search_context_size,
            search_content_types,
        } = &tools[i] {
            let tool = text::indexed_path("tools", i);
            if external_web_access.is_some() {
                return Some(text::joined(tool.as_str(), ".external_web_access"));
            }
            if filters.is_some() {
                return Some(text::joined(tool.as_str(), ".filters"));
            }
            if user_location.is_some() {
                return Some(text::joined(tool.as_str(), ".user_location"));
            }
            if search_context_size.is_some() {
                return Some(text::joined(tool.as_str(), ".search_context_size"));
            }
            if search_content_types.is_some() {
                return Some(text::joined(tool.as_str(), ".search_content_types"));
            }
        }
        i += 1;
    }
    None
}

fn is_outside(value: &Option<String>, allowed: &Vec<String>) -> (r: bool)
    ensures
        r == outside(*value, text::strings_view(allowed@)),
{
    match value {
        Some(v) => !text::holds_string(allowed, v.as_str()),
        None => false,
    }
}

/// The path of the first thing in `request` that `capabilities` do not support.
pub fn unsupported_parameter(
    request: &ResponsesRequest,
    capabilities: &ResponsesCapabilities,
) -> (r: Option<String>)
    ensures
        text::opt_view(r) == refused(*request, capabilities@),
{
    let reserved = reserved_field(request);
    if reserved.is_some() {
        return reserved;
    }
    if let Some(true) = request.parallel_tool_calls {
        if !capabilities.parallel_tool_calls {
            return Some("parallel_tool_calls".to_owned());
        }
    }
    let format = unsupported_format(request, capabilities);
    if format.is_some() {
        return format;
    }
    if wants_summary(request) && capabilities.reasoning_summary
        != ReasoningSummaryCapability::Upstream {
        return Some("reasoning.summary".to_owned());
    }
    let brought = unsupported_include(&request.includes, capabilities);
    if brought.is_some() {
        return brought;
    }
    if capabilities.encrypted_reasoning != EncryptedReasoningCapability::Passthrough {
        let encrypted = first_encrypted_reasoning_path(request);
        if encrypted.is_some() {
            return encrypted;
        }
    }
    if let Some(items) = request.instructions.items() {
        let param = unsupported_items_parameter(items, "instructions", capabilities);
        if param.is_some() {
            return param;
        }
    }
    let param = unsupported_items_parameter(&request.input, "input", capabilities);
    if param.is_some() {
        return param;
    }
    if wants_truncation(request) && capabilities.truncation_auto
        != TruncationAutoCapability::Upstream {
        return Some("truncation".to_owned());
    }
    if let Some(controls) = &request.text {
        if controls.verbosity.is_some() && capabilities.text_verbosity
            != TextVerbosityCapability::Upstream {
            return Some("text.verbosity".to_owned());
        }
    }
    if is_outside(&request.service_tier, &capabilities.service_tiers) {
        return Some("service_tier".to_owned());
    }
    if request.prompt_cache_key.is_some() && capabilities.prompt_cache_key
        == PromptCacheKeyCapability::Unsupported {
        return Some("prompt_cache_key".to_owned());
    }
    if is_outside(&request.prompt_cache_retention, &capabilities.prompt_cache_retention) {
        return Some("prompt_cache_retention".to_owned());
    }
    let image = first_image_tool(&request.tools);
    if image.is_some() {
        return image;
    }
    first_web_search_control(&request.tools)
}


// --- Images ---------------------------------------------------------------------------

/// The index of an input image.
pub open spec fn image_part_check() -> spec_fn(int, ContentItem) -> Option<int> {
    |i: int, part: ContentItem|
        if part is InputImage {
            Some(i)
        } else {
            None
        }
}

/// The path of the first input image of an item.
pub open spec fn item_image_check(base: Seq<char>) -> spec_fn(int, ResponseItem) -> Option<
    Seq<char>,
> {
    |i: int, item: ResponseItem|
        match item_content(item) {
            Some((content, function_output)) => match text::first_some(
                content,
                image_part_check(),
                0,
            ) {
                Some(k) => Some(text::indexed(content_path(base, i, function_output), k)),
                None => None,
            },
            None => None,
        }
}

/// The path of the first input image among `items`.
pub open spec fn image_in(items: Seq<ResponseItem>, base: Seq<char>) -> Option<Seq<char>> {
    text::first_some(items, item_image_check(base), 0)
}

/// The path of the first input image of a request.
pub open spec fn image_path(request: ResponsesRequest) -> Option<Seq<char>> {
    or_else(
        image_in(responses::instruction_items(request.instructions), "instructions"@),
        image_in(request.input@, "input"@),
    )
}

fn first_image_part(content: &Vec<ContentItem>) -> (r: Option<usize>)
    ensures
        match r {
            Some(k) => text::first_some(content@, image_part_check(), 0) == Some(k as int),
            None => text::first_some(content@, image_part_check(), 0) is None,
        },
{
    let mut i: usize = 0;
    while i < content.len()
        invariant
            i <= content@.len(),
            text::first_some(content@, image_part_check(), 0) == text::first_some(
                content@,
                image_part_check(),
                i as int,
            ),
        decreases content@.len() - i,
    {
        if let ContentItem::InputImage { .. } = &content[i] {
            return Some(i);
        }
        i += 1;
    }
    None
}

fn first_image_in_item(item: &ResponseItem, base: &str, i: usize) -> (r: Option<String>)
    ensures
        text::opt_view(r) == item_image_check(base@)(i as int, *item),
{
    let (content, function_output) = match item {
        ResponseItem::Message { content, .. } => (content, false),
        ResponseItem::FunctionCallOutput {
            output: FunctionCallOutputContent::Content(content),
            ..
        } => (content, true),
        ResponseItem::CustomToolCallOutput {
            output: FunctionCallOutputContent::Content(content),
            ..
        } => (content, true),
        _ => {
            return None;
        },
    };
    match first_image_part(content) {
        Some(k) => Some(text::indexed_path(content_base(base, i, function_output).as_str(), k)),
        None => None,
    }
}

fn first_image_in_items(items: &Vec<ResponseItem>, base: &str) -> (r: Option<String>)
    ensures
        text::opt_view(r) == image_in(items@, base@),
{
    let mut i: usize = 0;
    while i < items.len()
        invariant
            i <= items@.len(),
            image_in(items@, base@) == text::first_some(
                items@,
                item_image_check(base@),
                i as int,
            ),
        decreases items@.len() - i,
    {
        let path = first_image_in_item(&items[i], base, i);
        if path.is_some() {
            return path;
        }
        i += 1;
    }
    None
}

/// The path of the first input image of `request`.
pub fn first_input_image_parameter(request: &ResponsesRequest) -> (r: Option<String>)
    ensures
        text::opt_view(r) == image_path(*request),
{
    if let Some(items) = request.instructions.items() {
        let path = first_image_in_items(items, "instructions");
        if path.is_some() {
            return path;
        }
    }
    first_image_in_items(&request.input, "input")
}

/// Whether `request` has input images.
pub fn request_has_input_images(request: &ResponsesRequest) -> (r: bool)
    ensures
        r == (image_path(*request) is Some),
{
    first_input_image_parameter(request).is_some()
}

// --- Which fallbacks a request may use ---------------------------------------------------

/// The identities of served models.
pub open spec fn targets_view(targets: Seq<CapabilityTarget>) -> Seq<(Seq<char>, Seq<char>)> {
    targets.map_values(|t: CapabilityTarget| t@)
}

/// The served models that a request may use.
#[derive(Debug, Clone)]
pub struct CapabilityAllowlist {
    targets: Option<Vec<CapabilityTarget>>,
    input_image: Option<InputImageCapability>,
}

impl Default for CapabilityAllowlist {
    fn default() -> (r: Self)
        ensures
            r.targets() is None,
            r.image_policy() is None,
    {
        CapabilityAllowlist { targets: None, input_image: None }
    }
}

impl CapabilityAllowlist {
    /// The served models that may be used, by provider and model; `None` for all.
    pub closed spec fn targets(&self) -> Option<Set<(Seq<char>, Seq<char>)>> {
        match self.targets {
            Some(targets) => Some(targets_view(targets@).to_set()),
            None => None,
        }
    }

    /// What happens to input images.
    pub closed spec fn image_policy(&self) -> Option<InputImageCapability> {
        self.input_image
    }

    /// Every served model.
    pub fn unrestricted() -> (r: Self)
        ensures
            r.targets() is None,
            r.image_policy() is None,
    {
        CapabilityAllowlist { targets: None, input_image: None }
    }

    /// The given served models.
    pub fn from_targets(targets: Vec<CapabilityTarget>) -> (r: Self)
        ensures
            r.targets() == Some(targets_view(targets@).to_set()),
            r.image_policy() is None,
    {
        CapabilityAllowlist { targets: Some(targets), input_image: None }
    }

    fn for_responses(targets: Vec<CapabilityTarget>, input_image: InputImageCapability) -> (r: Self)
        ensures
            r.targets() == Some(targets_view(targets@).to_set()),
            r.image_policy() == Some(input_image),
    {
        CapabilityAllowlist { targets: Some(targets), input_image: Some(input_image) }
    }

    /// Whether `provider` may serve `model`.
    pub fn permits(&self, provider: &str, model: &str) -> (r: bool)
        ensures
            r == match self.targets() {
                Some(targets) => targets.contains((provider@, model@)),
                None => true,
            },
    {
        match &self.targets {
            Some(targets) => {
                let ghost all = targets_view(targets@);
                let mut i: usize = 0;
                while i < targets.len()
                    invariant
                        i <= targets@.len(),
                        all == targets_view(targets@),
                        self.targets == Some(*targets),
                        forall|k: int| 0 <= k < i ==> all[k] != (provider@, model@),
                    decreases targets@.len() - i,
                {
                    if text::str_eq(targets[i].provider.as_str(), provider) && text::str_eq(
                        targets[i].model.as_str(),
                        model,
                    ) {
                        assert(all[i as int] == (provider@, model@));
                        return true;
                    }
                    i += 1;
                }
                false
            },
            None => true,
        }
    }

    /// Whether some provider may serve `model`.
    pub fn permits_model(&self, model: &str) -> (r: bool)
        ensures
            r == match self.targets() {
                Some(targets) => exists|provider: Seq<char>|
                    #[trigger] targets.contains((provider, model@)),
                None => true,
            },
    {
        match &self.targets {
            Some(targets) => {
                let ghost all = targets_view(targets@);
                let mut i: usize = 0;
                while i < targets.len()
                    invariant
                        i <= targets@.len(),
                        all == targets_view(targets@),
                        self.targets == Some(*targets),
                        forall|k: int| 0 <= k < i ==> (#[trigger] all[k]).1 != model@,
                    decreases targets@.len() - i,
                {
                    if text::str_eq(targets[i].model.as_str(), model) {
                        assert(all[i as int] == (targets@[i as int].provider@, model@));
                        assert(self.targets()->0.contains(
                            (targets@[i as int].provider@, model@),
                        ));
                        return true;
                    }
                    i += 1;
                }
                false
            },
            None => true,
        }
    }

    /// What happens to input images, where the request came in on the Responses
    /// surface.
    pub fn input_image_policy(&self) -> (r: Option<InputImageCapability>)
        ensures
            r == self.image_policy(),
    {
        self.input_image
    }
}

/// Whether a candidate can take the request: it supports all of it, and treats
/// its images as the primary does.
pub open spec fn can_take(
    request: ResponsesRequest,
    candidate: CapabilityCandidate,
    primary_image: InputImageCapability,
) -> bool {
    &&& refused(request, candidate.capabilities@) is None
    &&& image_path(request) is Some ==> candidate.capabilities@.input_image == primary_image
}

/// The first `n` candidates that can take the request.
pub open spec fn takers(
    request: ResponsesRequest,
    candidates: Seq<CapabilityCandidate>,
    primary_image: InputImageCapability,
    n: int,
) -> Seq<(Seq<char>, Seq<char>)>
    decreases n,
{
    if n <= 0 {
        seq![]
    } else {
        let rest = takers(request, candidates, primary_image, n - 1);
        if can_take(request, candidates[n - 1], primary_image) {
            rest.push(candidates[n - 1].target@)
        } else {
            rest
        }
    }
}

/// What the primary can do; with no candidate at all, what nothing declared comes
/// to.
pub open spec fn primary_capabilities(plan: CapabilityPlan) -> CapabilitiesView {
    if plan.candidates@.len() == 0 {
        ConfigView::nothing().resolved()
    } else {
        plan.candidates@[0].capabilities@
    }
}

/// The served models that a supported request may use.
pub open spec fn plan_targets(request: ResponsesRequest, plan: CapabilityPlan) -> Option<
    Set<(Seq<char>, Seq<char>)>,
> {
    if plan.candidates@.len() == 0 {
        None
    } else {
        Some(
            takers(
                request,
                plan.candidates@,
                primary_capabilities(plan).input_image,
                plan.candidates@.len() as int,
            ).to_set(),
        )
    }
}

/// The extension members once the agent-message mark is set or cleared.
pub open spec fn with_plaintext_mark(
    extra: Seq<(Seq<char>, JsonView)>,
    caps: CapabilitiesView,
) -> Seq<(Seq<char>, JsonView)> {
    if caps.agent_message_encrypted_content
        == AgentMessageEncryptedContentCapability::PlaintextCompat {
        json::set_member(
            extra,
            AGENT_MESSAGE_PLAINTEXT_COMPAT_EXTENSION@,
            JsonView::Bool(true),
        )
    } else {
        json::without_member(extra, AGENT_MESSAGE_PLAINTEXT_COMPAT_EXTENSION@)
    }
}

/// The extension members that a request is admitted with: a cache key is
/// represented by its digest.
pub open spec fn prepared_extra(
    extra: Seq<(Seq<char>, JsonView)>,
    cache_key: Option<String>,
    caps: CapabilitiesView,
) -> Seq<(Seq<char>, JsonView)> {
    let marked = with_plaintext_mark(extra, caps);
    match cache_key {
        None => marked,
        Some(key) => {
            let hashed = json::set_member(
                marked,
                PROMPT_CACHE_AFFINITY_EXTENSION@,
                JsonView::Text(
                    digest::hex_text(digest::sha256_digest(vstd::utf8::encode_utf8(key@))),
                ),
            );
            if caps.prompt_cache_key == PromptCacheKeyCapability::Upstream {
                json::set_member(
                    hashed,
                    FORWARD_PROMPT_CACHE_KEY_EXTENSION@,
                    JsonView::Bool(true),
                )
            } else {
                hashed
            }
        },
    }
}

/// What becomes of a request that is admitted.
pub open spec fn prepared(
    before: ResponsesRequest,
    after: ResponsesRequest,
    caps: CapabilitiesView,
) -> bool {
    &&& after == (ResponsesRequest {
        parallel_tool_calls: match before.parallel_tool_calls {
            Some(b) => Some(b),
            None => Some(caps.parallel_tool_calls),
        },
        extra_body: after.extra_body,
        ..before
    })
    &&& after.extra_body@ == prepared_extra(before.extra_body@, before.prompt_cache_key, caps)
}

/// Prepares the fields whose capability asks for handling here or upstream.
pub fn prepare_capability_fields(
    request: &mut ResponsesRequest,
    capabilities: &ResponsesCapabilities,
)
    ensures
        prepared(*old(request), *final(request), capabilities@),
{
    if request.parallel_tool_calls.is_none() {
        request.parallel_tool_calls = Some(capabilities.parallel_tool_calls);
    }
    if capabilities.agent_message_encrypted_content
        == AgentMessageEncryptedContentCapability::PlaintextCompat {
        request.extra_body.insert(
            AGENT_MESSAGE_PLAINTEXT_COMPAT_EXTENSION.to_owned(),
            Json::Bool(true),
        );
    } else {
        let removed = request.extra_body.remove(AGENT_MESSAGE_PLAINTEXT_COMPAT_EXTENSION);
    }
    let hash = match &request.prompt_cache_key {
        Some(key) => Some(digest::sha256_hex(key.as_str().as_bytes())),
        None => None,
    };
    if let Some(hash) = hash {
        request.extra_body.insert(PROMPT_CACHE_AFFINITY_EXTENSION.to_owned(), Json::Text(hash));
        if capabilities.prompt_cache_key == PromptCacheKeyCapability::Upstream {
            request.extra_body.insert(
                FORWARD_PROMPT_CACHE_KEY_EXTENSION.to_owned(),
                Json::Bool(true),
            );
        }
    }
}

/// The error for a request with something that is not supported.
pub open spec fn refusal(path: Seq<char>) -> error::ErrorView {
    error::ErrorView {
        code: Some("unsupported_parameter"@),
        param: Some(path),
        ..error::shown(
            400,
            "unsupported parameter: "@ + path,
            None,
            error::FailoverDisposition::Failover,
        )
    }
}

fn copy_target(target: &CapabilityTarget) -> (r: CapabilityTarget)
    ensures
        r@ == target@,
{
    CapabilityTarget { provider: target.provider.clone(), model: target.model.clone() }
}

/// Holds `request` to the capabilities of the primary, prepares it, and says which
/// served models it may use. A request that is refused stays as it is.
pub fn validate_and_prepare(
    request: &mut ResponsesRequest,
    plan: &CapabilityPlan,
) -> (r: AppResult<CapabilityAllowlist>)
    ensures
        match refused(*old(request), primary_capabilities(*plan)) {
            Some(path) => {
                &&& r matches Err(e) && e@ == refusal(path)
                &&& *final(request) == *old(request)
            },
            None => {
                &&& r matches Ok(list) && list.targets() == plan_targets(*old(request), *plan)
                    && list.image_policy() == Some(primary_capabilities(*plan).input_image)
                &&& prepared(*old(request), *final(request), primary_capabilities(*plan))
            },
        },
{
    if plan.candidates.len() == 0 {
        let capabilities = ResponsesCapabilities::default();
        if let Some(param) = unsupported_parameter(request, &capabilities) {
            return Err(AppError::unsupported_parameter(param.as_str()));
        }
        prepare_capability_fields(request, &capabilities);
        return Ok(
            CapabilityAllowlist { targets: None, input_image: Some(capabilities.input_image) },
        );
    }
    let primary = &plan.candidates[0].capabilities;
    if let Some(param) = unsupported_parameter(request, primary) {
        return Err(AppError::unsupported_parameter(param.as_str()));
    }
    let has_input_images = request_has_input_images(request);
    let mut allowed: Vec<CapabilityTarget> = Vec::new();
    let mut i: usize = 0;
    assert(targets_view(allowed@) =~= seq![]);
    while i < plan.candidates.len()
        invariant
            i <= plan.candidates@.len(),
            plan.candidates@.len() > 0,
            *request == *old(request),
            *primary == plan.candidates@[0].capabilities,
            has_input_images == (image_path(*request) is Some),
            targets_view(allowed@) == takers(
                *request,
                plan.candidates@,
                primary@.input_image,
                i as int,
            ),
        decreases plan.candidates@.len() - i,
    {
        let candidate = &plan.candidates[i];
        if unsupported_parameter(request, &candidate.capabilities).is_none() && (!has_input_images
            || candidate.capabilities.input_image == primary.input_image) {
            let ghost before = allowed@;
            allowed.push(copy_target(&candidate.target));
            assert(targets_view(allowed@) =~= targets_view(before).push(candidate.target@));
        }
        i += 1;
    }
    prepare_capability_fields(request, primary);
    Ok(CapabilityAllowlist::for_responses(allowed, primary.input_image))
}

// --- Laws ------------------------------------------------------------------------------

/// Layers may be combined in any grouping.
pub proof fn law_overlay_is_associative(a: ConfigView, b: ConfigView, c: ConfigView)
    ensures
        a.overlaid(b).overlaid(c) == a.overlaid(b.overlaid(c)),
{
}

/// A layer that declares nothing changes nothing, above or below.
pub proof fn law_empty_layer_is_neutral(a: ConfigView)
    ensures
        a.overlaid(ConfigView::nothing()) == a,
        ConfigView::nothing().overlaid(a) == a,
{
}

/// Laying a layer over itself changes nothing.
pub proof fn law_overlay_is_idempotent(a: ConfigView)
    ensures
        a.overlaid(a) == a,
{
}

proof fn lemma_takers(
    request: ResponsesRequest,
    candidates: Seq<CapabilityCandidate>,
    primary_image: InputImageCapability,
    n: int,
    t: (Seq<char>, Seq<char>),
)
    requires
        0 <= n <= candidates.len(),
    ensures
        takers(request, candidates, primary_image, n).contains(t) <==> exists|i: int|
            0 <= i < n && (#[trigger] candidates[i]).target@ == t && can_take(
                request,
                candidates[i],
                primary_image,
            ),
    decreases n,
{
    if n > 0 {
        lemma_takers(request, candidates, primary_image, n - 1, t);
        let rest = takers(request, candidates, primary_image, n - 1);
        let last = candidates[n - 1];
        if can_take(request, last, primary_image) {
            let all = rest.push(last.target@);
            assert(all[rest.len() as int] == last.target@);
            if all.contains(t) && last.target@ != t {
                let k = choose|k: int| 0 <= k < all.len() && all[k] == t;
                assert(rest[k] == t);
            }
            if rest.contains(t) {
                let k = choose|k: int| 0 <= k < rest.len() && rest[k] == t;
                assert(all[k] == t);
            }
        }
    }
}

/// A supported request may use exactly those served models that have a candidate
/// which can take it; so a fallback that cannot is left out, and nothing else is.
pub proof fn law_only_capable_candidates_are_permitted(
    request: ResponsesRequest,
    plan: CapabilityPlan,
    t: (Seq<char>, Seq<char>),
)
    requires
        plan.candidates@.len() > 0,
    ensures
        plan_targets(request, plan)->0.contains(t) <==> exists|i: int|
            0 <= i < plan.candidates@.len() && (#[trigger] plan.candidates@[i]).target@ == t
                && can_take(request, plan.candidates@[i], primary_capabilities(plan).input_image),
{
    lemma_takers(
        request,
        plan.candidates@,
        primary_capabilities(plan).input_image,
        plan.candidates@.len() as int,
        t,
    );
}

/// A request that is admitted may use its primary.
pub proof fn law_primary_is_permitted(request: ResponsesRequest, plan: CapabilityPlan)
    requires
        plan.candidates@.len() > 0,
        refused(request, primary_capabilities(plan)) is None,
    ensures
        plan_targets(request, plan)->0.contains(plan.candidates@[0].target@),
{
    law_only_capable_candidates_are_permitted(request, plan, plan.candidates@[0].target@);
    assert(can_take(request, plan.candidates@[0], primary_capabilities(plan).input_image));
}

/// Whether `more` declares everything that `less` does.
pub open spec fn covers(more: CapabilitiesView, less: CapabilitiesView) -> bool {
    &&& less.parallel_tool_calls ==> more.parallel_tool_calls
    &&& forall|x: StructuredOutputCapability|
        less.structured_outputs.contains(x) ==> #[trigger] more.structured_outputs.contains(x)
    &&& less.reasoning_summary == ReasoningSummaryCapability::Upstream ==> more.reasoning_summary
        == ReasoningSummaryCapability::Upstream
    &&& less.encrypted_reasoning == EncryptedReasoningCapability::Passthrough
        ==> more.encrypted_reasoning == EncryptedReasoningCapability::Passthrough
    &&& less.agent_message_encrypted_content
        == AgentMessageEncryptedContentCapability::PlaintextCompat
        ==> more.agent_message_encrypted_content
        == AgentMessageEncryptedContentCapability::PlaintextCompat
    &&& less.input_image != InputImageCapability::Reject ==> more.input_image
        != InputImageCapability::Reject
    &&& less.input_file == InputFileCapability::Native ==> more.input_file
        == InputFileCapability::Native
    &&& less.truncation_auto == TruncationAutoCapability::Upstream ==> more.truncation_auto
        == TruncationAutoCapability::Upstream
    &&& less.text_verbosity == TextVerbosityCapability::Upstream ==> more.text_verbosity
        == TextVerbosityCapability::Upstream
    &&& forall|tier: Seq<char>|
        less.service_tiers.contains(tier) ==> #[trigger] more.service_tiers.contains(tier)
    &&& less.prompt_cache_key != PromptCacheKeyCapability::Unsupported ==> more.prompt_cache_key
        != PromptCacheKeyCapability::Unsupported
    &&& forall|time: Seq<char>|
        less.prompt_cache_retention.contains(time)
            ==> #[trigger] more.prompt_cache_retention.contains(time)
}

proof fn lemma_none_found<T, U>(
    s: Seq<T>,
    f: spec_fn(int, T) -> Option<U>,
    g: spec_fn(int, T) -> Option<U>,
    i: int,
)
    requires
        forall|k: int| 0 <= k < s.len() && f(k, s[k]) is None ==> #[trigger] g(k, s[k]) is None,
        text::first_some(s, f, i) is None,
    ensures
        text::first_some(s, g, i) is None,
    decreases s.len() - i,
{
    if 0 <= i < s.len() {
        assert(f(i, s[i]) is None);
        assert(g(i, s[i]) is None);
        lemma_none_found(s, f, g, i + 1);
    }
}

proof fn lemma_item_stays_supported(
    item: ResponseItem,
    base: Seq<char>,
    i: int,
    less: CapabilitiesView,
    more: CapabilitiesView,
)
    requires
        covers(more, less),
        item_refused(item, base, i, less) is None,
    ensures
        item_refused(item, base, i, more) is None,
{
    if let Some((content, function_output)) = item_content(item) {
        let path = content_path(base, i, function_output);
        lemma_none_found(
            content,
            part_check(path, less, function_output),
            part_check(path, more, function_output),
            0,
        );
    }
}

proof fn lemma_items_stay_supported(
    items: Seq<ResponseItem>,
    base: Seq<char>,
    less: CapabilitiesView,
    more: CapabilitiesView,
)
    requires
        covers(more, less),
        items_refused(items, base, less) is None,
    ensures
        items_refused(items, base, more) is None,
{
    let f = item_check(base, less);
    let g = item_check(base, more);
    assert forall|k: int| 0 <= k < items.len() && f(k, items[k]) is None implies #[trigger] g(
        k,
        items[k],
    ) is None by {
        lemma_item_stays_supported(items[k], base, k, less, more);
    }
    lemma_none_found(items, f, g, 0);
}

/// Declaring more capabilities never makes a supported request unsupported.
pub proof fn law_more_capabilities_refuse_no_more(
    request: ResponsesRequest,
    less: CapabilitiesView,
    more: CapabilitiesView,
)
    requires
        covers(more, less),
        refused(request, less) is None,
    ensures
        refused(request, more) is None,
{
    lemma_none_found(request.includes@, include_check(less), include_check(more), 0);
    lemma_items_stay_supported(
        responses::instruction_items(request.instructions),
        "instructions"@,
        less,
        more,
    );
    lemma_items_stay_supported(request.input@, "input"@, less, more);
}

} // verus!
