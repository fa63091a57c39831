//! The data model of the completion client: chat messages, the completion
//! request and response, and the model catalogue.
use crate::config::Config;
use crate::errors::ClientError;
use crate::text::spec_is_zero_decimal;
use vstd::prelude::*;

verus! {

broadcast use vstd::string::group_string_axioms;

/// The role of a chat message.
#[derive(Clone, Copy, Debug, PartialEq, Eq, Structural)]
pub enum Role {
    System,
    User,
    Assistant,
}

pub open spec fn spec_role_name(role: Role) -> Seq<char> {
    match role {
        Role::System => "system"@,
        Role::User => "user"@,
        Role::Assistant => "assistant"@,
    }
}

/// The wire name of a role.
pub fn role_name(role: Role) -> (r: &'static str)
    ensures
        r@ == spec_role_name(role),
{
    match role {
        Role::System => "system",
        Role::User => "user",
        Role::Assistant => "assistant",
    }
}

/// The role a wire name denotes, if any.
pub open spec fn spec_role_of_name(s: Seq<char>) -> Option<Role> {
    if s == "system"@ {
        Some(Role::System)
    } else if s == "user"@ {
        Some(Role::User)
    } else if s == "assistant"@ {
        Some(Role::Assistant)
    } else {
        None
    }
}

/// The role a wire name denotes, if any.
pub fn role_from_name(s: &str) -> (r: Option<Role>)
    ensures
        r == spec_role_of_name(s@),
{
    proof {
        reveal_strlit("system");
        reveal_strlit("user");
        reveal_strlit("assistant");
        assert("system"@.len() == 6);
        assert("user"@.len() == 4);
        assert("assistant"@.len() == 9);
    }
    if crate::text::str_eq(s, "system") {
        Some(Role::System)
    } else if crate::text::str_eq(s, "user") {
        Some(Role::User)
    } else if crate::text::str_eq(s, "assistant") {
        Some(Role::Assistant)
    } else {
        None
    }
}

/// One chat message: a role and its text.
#[derive(Debug)]
pub struct Message {
    pub role: Role,
    pub content: String,
}

impl Message {
    /// An exact copy.
    pub fn duplicate(&self) -> (r: Message)
        ensures
            r == *self,
    {
        Message { role: self.role, content: self.content.clone() }
    }
}

/// Copies of the given messages, in order.
pub fn duplicate_messages(ms: &Vec<Message>) -> (r: Vec<Message>)
    ensures
        r@ == ms@,
{
    let n = ms.len();
    let mut r: Vec<Message> = Vec::new();
    let mut i: usize = 0;
    while i < n
        invariant
            i <= n == ms@.len(),
            r@ == ms@.take(i as int),
        decreases n - i,
    {
        r.push(ms[i].duplicate());
        i = i + 1;
        proof {
            assert(ms@.take(i as int) =~= ms@.take(i - 1).push(ms@[i - 1]));
        }
    }
    proof {
        assert(ms@.take(n as int) =~= ms@);
    }
    r
}

/// A completion request, constructed fresh per call and never mutated after
/// sending. The temperature is carried in thousandths.
#[derive(Debug)]
pub struct OpenRouterRequest {
    pub model: String,
    pub messages: Vec<Message>,
    pub max_tokens: u32,
    /// The sampling temperature, in thousandths.
    pub temperature_milli: u32,
}

/// The shape of every request sent to the service: at most one system
/// message, placed first, followed by one or more user or assistant messages.
pub open spec fn request_messages_wf(ms: Seq<Message>) -> bool {
    &&& ms.len() >= 1
    &&& forall|i: int| 1 <= i < ms.len() ==> (#[trigger] ms[i].role) != Role::System
    &&& (ms[0].role == Role::System ==> ms.len() >= 2)
}

/// The message list of a single-shot call: the prompt as a user message,
/// preceded by the system prompt when one is given.
pub fn build_messages(prompt: &str, system_prompt: Option<&str>) -> (r: Vec<Message>)
    ensures
        request_messages_wf(r@),
        match system_prompt {
            Some(sp) => r@.len() == 2 && r@[0].role == Role::System && r@[0].content@ == sp@
                && r@[1].role == Role::User && r@[1].content@ == prompt@,
            None => r@.len() == 1 && r@[0].role == Role::User && r@[0].content@ == prompt@,
        },
{
    let mut messages: Vec<Message> = Vec::new();
    if let Some(sp) = system_prompt {
        messages.push(Message { role: Role::System, content: String::from_str(sp) });
    }
    messages.push(Message { role: Role::User, content: String::from_str(prompt) });
    messages
}

/// A completion request for the given messages, taking model, token bound and
/// temperature from the resolved configuration.
pub fn build_completion_request(config: &Config, messages: Vec<Message>) -> (r: OpenRouterRequest)
    ensures
        r.model@ == config.model@,
        r.messages@ == messages@,
        r.max_tokens == config.max_tokens,
        r.temperature_milli == config.temperature_milli,
{
    OpenRouterRequest {
        model: config.model.clone(),
        messages,
        max_tokens: config.max_tokens,
        temperature_milli: config.temperature_milli,
    }
}

/// One choice of a completion response.
#[derive(Debug)]
pub struct OpenRouterChoice {
    pub message: Message,
}

/// A parsed completion response. A usable response has at least one choice;
/// the first choice's message content is the canonical answer.
#[derive(Debug)]
pub struct OpenRouterResponse {
    pub choices: Vec<OpenRouterChoice>,
}

/// The canonical answer of a response: the first choice's message content.
/// A response with zero choices is `EmptyResponse`, never a parse error.
pub fn first_choice_content(response: &OpenRouterResponse) -> (r: Result<String, ClientError>)
    ensures
        response.choices@.len() == 0 ==> (r matches Err(e) && e is EmptyResponse),
        response.choices@.len() > 0 ==> (r matches Ok(c) && c@
            == response.choices@[0].message.content@),
{
    if response.choices.len() == 0 {
        Err(ClientError::EmptyResponse)
    } else {
        Ok(response.choices[0].message.content.clone())
    }
}

// ---------------------------------------------------------------------------
// The model catalogue
// ---------------------------------------------------------------------------
/// The per-token prices of a model, kept as the decimal text the service
/// sent, so that the zero test is exact.
#[derive(Debug)]
pub struct OpenRouterPricing {
    pub prompt: String,
    pub completion: String,
}

/// One entry of the model catalogue.
#[derive(Debug)]
pub struct OpenRouterModel {
    pub id: String,
    pub context_length: Option<u32>,
    pub description: Option<String>,
    pub pricing: Option<OpenRouterPricing>,
}

/// The model catalogue.
#[derive(Debug)]
pub struct OpenRouterModelsResponse {
    pub data: Vec<OpenRouterModel>,
}

/// A model is free exactly when it carries pricing and both its prompt and
/// completion prices are exactly zero.
pub open spec fn is_free_model(m: OpenRouterModel) -> bool {
    &&& m.pricing matches Some(p)
    &&& spec_is_zero_decimal(m.pricing->0.prompt@)
    &&& spec_is_zero_decimal(m.pricing->0.completion@)
}

/// The free models of a catalogue, in order.
pub open spec fn spec_free_models(ms: Seq<OpenRouterModel>) -> Seq<OpenRouterModel>
    decreases ms.len(),
{
    if ms.len() == 0 {
        Seq::<OpenRouterModel>::empty()
    } else if is_free_model(ms.last()) {
        spec_free_models(ms.drop_last()).push(ms.last())
    } else {
        spec_free_models(ms.drop_last())
    }
}

impl OpenRouterPricing {
    /// An exact copy.
    pub fn duplicate(&self) -> (r: OpenRouterPricing)
        ensures
            r == *self,
    {
        OpenRouterPricing { prompt: self.prompt.clone(), completion: self.completion.clone() }
    }
}

impl OpenRouterModel {
    /// An exact copy.
    pub fn duplicate(&self) -> (r: OpenRouterModel)
        ensures
            r == *self,
    {
        OpenRouterModel {
            id: self.id.clone(),
            context_length: match &self.context_length {
                Some(c) => Some(*c),
                None => None,
            },
            description: match &self.description {
                Some(d) => Some(d.clone()),
                None => None,
            },
            pricing: match &self.pricing {
                Some(p) => Some(p.duplicate()),
                None => None,
            },
        }
    }

    /// Whether this model is free: it carries pricing and both prices are
    /// exactly zero.
    pub fn is_free(&self) -> (r: bool)
        ensures
            r == is_free_model(*self),
    {
        match &self.pricing {
            Some(p) => {
                let prompt_zero = crate::text::is_zero_decimal(p.prompt.as_str());
                let completion_zero = crate::text::is_zero_decimal(p.completion.as_str());
                prompt_zero && completion_zero
            },
            None => false,
        }
    }
}

/// The free-models view of a catalogue: the entries whose prompt and
/// completion prices are both exactly zero, in catalogue order.
pub fn free_models(models: &Vec<OpenRouterModel>) -> (r: Vec<OpenRouterModel>)
    ensures
        r@ == spec_free_models(models@),
{
    let n = models.len();
    let mut r: Vec<OpenRouterModel> = Vec::new();
    let mut i: usize = 0;
    proof {
        assert(models@.take(0) =~= Seq::<OpenRouterModel>::empty());
    }
    while i < n
        invariant
            i <= n == models@.len(),
            r@ == spec_free_models(models@.take(i as int)),
        decreases n - i,
    {
        proof {
            assert(models@.take(i + 1).drop_last() =~= models@.take(i as int));
            assert(models@.take(i + 1).last() == models@[i as int]);
        }
        if models[i].is_free() {
            r.push(models[i].duplicate());
        }
        i = i + 1;
    }
    proof {
        assert(models@.take(n as int) =~= models@);
    }
    r
}

} // verus!
