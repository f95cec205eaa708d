//! Detection backed by a chat model.

use crate::component_detection::component_detection_service::ChatRequest;
use crate::component_detection::component_detection_service::ChatRequestView;
use crate::component_detection::component_detection_service::ComponentionDetectionService;
use crate::error::ConfigurationError;
use crate::utils::prompt_utils::load_prompt;
use crate::utils::prompt_utils::prompt_path_spec;
use langchain_rust::chain::ChainError;
use langchain_rust::chain::LLMChain;
use langchain_rust::chain::LLMChainBuilder;
use langchain_rust::llm::OpenAI;
use langchain_rust::llm::OpenAIConfig;
use langchain_rust::llm::OpenAIModel;
use langchain_rust::prompt::HumanMessagePromptTemplate;
use langchain_rust::prompt::MessageFormatterStruct;
use langchain_rust::prompt::PromptTemplate;
use langchain_rust::prompt::TemplateFormat;
use langchain_rust::schemas::messages::Message;
use vstd::prelude::*;
use vstd::string::*;

verus! {

/// `langchain_rust::chain::LLMChain`, a prompt bound to a model client.
/// Nothing inside it is visible here; it is built once and handed on.
#[verifier::external_type_specification]
#[verifier::external_body]
pub struct ExLLMChain(langchain_rust::chain::LLMChain);

/// `langchain_rust::chain::ChainError`, the failure of building or running a
/// chain.
#[verifier::external_type_specification]
#[verifier::external_body]
pub struct ExChainError(langchain_rust::chain::ChainError);

/// The identifier of the chat model that the service talks to.
pub open spec fn model_identifier_spec() -> Seq<char> {
    "gpt-4o"@
}

/// The name under which the system prompt is stored.
pub open spec fn system_prompt_name_spec() -> Seq<char> {
    "component_detection/system.txt"@
}

/// The name of the one slot in the user message.
pub open spec fn input_variable_spec() -> Seq<char> {
    "input"@
}

/// The user message before the payload is bound: the slot and nothing else.
pub open spec fn user_template_spec() -> Seq<char> {
    "{input}"@
}

/// `OpenAIModel::Gpt4o.to_string()` of langchain_rust: the identifier that
/// the crate gives for this model, which its source spells `gpt-4o`.
#[verifier::external_body]
fn gpt4o_identifier() -> (name: String)
    ensures
        name@ == model_identifier_spec(),
{
    OpenAIModel::Gpt4o.to_string()
}

/// `LLMChainBuilder::build` of langchain_rust, on a prompt of two parts (the
/// system message `system_prompt` first, then a user message made from
/// `user_template`, an f-string whose one variable is `variable`) and a
/// default OpenAI client set to `model`.
///
/// The builder refuses only a missing prompt or a missing client, and both
/// are given here, so a chain always comes back. The client takes its
/// credentials from the process environment: they decide what the chain can
/// reach, not whether there is one, and nothing is claimed of the chain's
/// contents.
#[verifier::external_body]
fn build_chain(system_prompt: &str, user_template: &str, variable: &str, model: &str) -> (built:
    Result<LLMChain, ChainError>)
    ensures
        built is Ok,
{
    let user = PromptTemplate::new(
        user_template.to_string(),
        vec![variable.to_string()],
        TemplateFormat::FString,
    );
    let mut prompt = MessageFormatterStruct::new();
    prompt.add_message(Message::new_system_message(system_prompt));
    prompt.add_template(Box::new(HumanMessagePromptTemplate::new(user)));
    let llm = OpenAI::<OpenAIConfig>::default().with_model(model);
    LLMChainBuilder::new().prompt(prompt).llm(llm).build()
}

/// The text of a chain error as the error words it: what `to_string` gives
/// for it.
pub uninterp spec fn chain_error_text_spec(error: ChainError) -> Seq<char>;

/// The rendering of a chain error for diagnostics: its variant and fields, as
/// the `{:?}` format gives them.
pub uninterp spec fn chain_error_debug_spec(error: ChainError) -> Seq<char>;

/// `ChainError`'s `to_string` of langchain_rust, which goes through the
/// `Display` that the crate derives for the error. The text depends on the
/// error alone and is known here only by its name.
#[verifier::external_body]
fn chain_error_text(error: &ChainError) -> (text: String)
    ensures
        text@ == chain_error_text_spec(*error),
{
    error.to_string()
}

/// `ChainError`'s `Debug` of langchain_rust, which the crate derives. The
/// text depends on the error alone and is known here only by its name.
#[verifier::external_body]
fn chain_error_debug(error: &ChainError) -> (text: String)
    ensures
        text@ == chain_error_debug_spec(*error),
{
    format!("{:?}", error)
}

/// A detection service that asks a chat model. It owns the system prompt and
/// the chain built from it; neither changes after construction.
pub struct LlmComponentDetection {
    system_prompt: String,
    chain: LLMChain,
}

impl LlmComponentDetection {
    /// The system prompt that the service was built with.
    pub closed spec fn system_prompt_spec(&self) -> Seq<char> {
        self.system_prompt@
    }

    /// The result of [`conclude`](Self::conclude): the backend's reply itself.
    pub open spec fn conclude_spec(reply: Result<String, String>) -> Result<String, String> {
        reply
    }

    /// The name under which the system prompt is stored.
    pub fn system_prompt_name() -> (name: &'static str)
        ensures
            name@ == system_prompt_name_spec(),
    {
        "component_detection/system.txt"
    }

    /// The name of the slot that the payload of a call is bound to.
    pub fn input_variable() -> (name: &'static str)
        ensures
            name@ == input_variable_spec(),
    {
        "input"
    }

    /// The user message before the payload is bound.
    pub fn user_template() -> (template: &'static str)
        ensures
            template@ == user_template_spec(),
    {
        "{input}"
    }

    /// The identifier of the chat model.
    pub fn model_identifier() -> (name: String)
        ensures
            name@ == model_identifier_spec(),
    {
        gpt4o_identifier()
    }

    /// Builds the service. `prompt_contents` is what reading the system
    /// prompt's file gave, `None` if the read failed.
    ///
    /// Without a prompt there is no service: the failure names the file, and
    /// no pipeline is built. With one there always is, and it holds exactly
    /// that text, an empty one included. This is the only way to a service,
    /// so the chain of a service is always the one built from its prompt.
    pub fn new(prompt_contents: Option<String>) -> (built: Result<
        LlmComponentDetection,
        ConfigurationError,
    >)
        ensures
            prompt_contents is None ==> (built matches Err(
                ConfigurationError::PromptUnreadable { path },
            ) && path@ == prompt_path_spec(system_prompt_name_spec())),
            prompt_contents matches Some(text) ==> (built matches Ok(service)
                && service.system_prompt_spec() == text@),
    {
        match load_prompt(Self::system_prompt_name(), prompt_contents) {
            Err(error) => Err(error),
            Ok(system_prompt) => {
                let model = Self::model_identifier();
                let built = build_chain(
                    system_prompt.as_str(),
                    Self::user_template(),
                    Self::input_variable(),
                    model.as_str(),
                );
                match Self::pipeline_from_build(built) {
                    Ok(chain) => Ok(LlmComponentDetection { system_prompt, chain }),
                    Err(error) => Err(error),
                }
            },
        }
    }

    /// Judges what the pipeline builder returned. A chain is passed on as it
    /// is. A refusal is a configuration error whose reason is the refusal's
    /// diagnostic rendering, so that its message names the variant and its
    /// fields.
    pub fn pipeline_from_build(built: Result<LLMChain, ChainError>) -> (pipeline: Result<
        LLMChain,
        ConfigurationError,
    >)
        ensures
            built matches Ok(chain) ==> pipeline == Ok::<LLMChain, ConfigurationError>(chain),
            built matches Err(error) ==> (pipeline matches Err(
                ConfigurationError::PipelineBuild { reason },
            ) && reason@ == chain_error_debug_spec(error)),
    {
        match built {
            Ok(chain) => Ok(chain),
            Err(error) => Err(
                ConfigurationError::PipelineBuild { reason: chain_error_debug(&error) },
            ),
        }
    }

    /// The system prompt that the service was built with.
    pub fn system_prompt(&self) -> (text: &str)
        ensures
            text@ == self.system_prompt_spec(),
    {
        self.system_prompt.as_str()
    }

    /// The chain that carries out a request.
    #[verifier::when_used_as_spec(chain_spec)]
    pub fn chain(&self) -> (chain: &LLMChain)
        ensures
            chain == self.chain_spec(),
    {
        &self.chain
    }

    /// The chain that the service was built with.
    pub closed spec fn chain_spec(&self) -> &LLMChain {
        &self.chain
    }

    /// The request for the base64 payload `base64_image`: the system prompt
    /// of the service, and the payload itself as the user message.
    pub fn prepare(&self, base64_image: &str) -> (request: ChatRequest)
        ensures
            request@ == self.request_spec(base64_image@),
    {
        ChatRequest {
            system: self.system_prompt.clone(),
            user: String::from_str(base64_image),
        }
    }

    /// Turns the backend's reply into the result of a call: a description
    /// comes back as it is, and so does a failure message.
    pub fn conclude(reply: Result<String, String>) -> (result: Result<String, String>)
        ensures
            result == Self::conclude_spec(reply),
    {
        reply
    }

    /// Turns what the chain returned into the result of a call: a description
    /// comes back as it is, and a failure as the failure's own text.
    pub fn conclude_chain(reply: Result<String, ChainError>) -> (result: Result<String, String>)
        ensures
            reply matches Ok(text) ==> result == Ok::<String, String>(text),
            reply matches Err(error) ==> (result matches Err(message) && message@
                == chain_error_text_spec(error)),
    {
        match reply {
            Ok(text) => Self::conclude(Ok(text)),
            Err(error) => Self::conclude(Err(chain_error_text(&error))),
        }
    }
}

impl ComponentionDetectionService for LlmComponentDetection {
    open spec fn request_spec(&self, image: Seq<char>) -> ChatRequestView {
        ChatRequestView { system: self.system_prompt_spec(), user: image }
    }

    fn detect_components<B>(&self, base64_image: &str, backend: B) -> (result: Result<
        String,
        String,
    >) where B: FnOnce(ChatRequest) -> Result<String, String> {
        let request = self.prepare(base64_image);
        let reply = backend(request);
        Self::conclude(reply)
    }
}

/// Whatever the backend answered, a call ends in exactly one of a description
/// and a failure message: a description when the backend gave one, with its
/// text, and otherwise the backend's message.
pub proof fn lemma_exactly_one_outcome(reply: Result<String, String>)
    ensures
        (LlmComponentDetection::conclude_spec(reply) is Ok) != (
        LlmComponentDetection::conclude_spec(reply) is Err),
        reply matches Ok(text) ==> LlmComponentDetection::conclude_spec(reply) == Ok::<
            String,
            String,
        >(text),
        reply matches Err(message) ==> LlmComponentDetection::conclude_spec(reply) == Err::<
            String,
            String,
        >(message),
{
}

/// The payload of a call is the user message of its request, character for
/// character, beside the system prompt that the service was built with.
pub proof fn lemma_request_carries_payload(service: LlmComponentDetection, image: Seq<char>)
    ensures
        service.request_spec(image).user == image,
        service.request_spec(image).system == service.system_prompt_spec(),
{
}

/// Two calls on one service do not mix: each request carries the payload of
/// its own call, both carry the same system prompt, and requests for
/// different payloads differ.
pub proof fn lemma_calls_do_not_mix(
    service: LlmComponentDetection,
    first: Seq<char>,
    second: Seq<char>,
)
    ensures
        service.request_spec(first).user == first,
        service.request_spec(second).user == second,
        service.request_spec(first).system == service.request_spec(second).system,
        first != second ==> service.request_spec(first) != service.request_spec(second),
{
}

} // verus!
