//! The client: how a server is reached, and what is asked of it by default.

use crate::ai::{text_view, AiRequest, ProviderCapabilities};
use crate::exchange::ExchangeState;
use crate::request::{plain_calls_read_back, translate_request, wire_request_view};
use crate::text::{contains, has_part, lowercase, to_lowercase};
use crate::tokens::{counts_of, request_texts, sum, takes_every_text};
use crate::wire::OmlxRequest;
use vstd::prelude::*;

verus! {

/// A family of models, known by a word in a model's name.
#[derive(Clone, Copy, Debug, PartialEq, Eq, Structural)]
pub enum ModelFamily {
    Qwen,
    Gemma,
    Llama,
    Mistral,
    Other,
}

/// The family of a model whose name in lowercase is given: the first whose word
/// stands in it.
pub open spec fn family_of_lowercase(name: Seq<char>) -> ModelFamily {
    if has_part(name, "qwen"@) {
        ModelFamily::Qwen
    } else if has_part(name, "gemma"@) {
        ModelFamily::Gemma
    } else if has_part(name, "llama"@) {
        ModelFamily::Llama
    } else if has_part(name, "mistral"@) {
        ModelFamily::Mistral
    } else {
        ModelFamily::Other
    }
}

impl ModelFamily {
    /// Finds the family of a model whose name in lowercase is given.
    pub fn of_lowercase(name: &str) -> (family: ModelFamily)
        ensures
            family == family_of_lowercase(name@),
    {
        if contains(name, "qwen") {
            ModelFamily::Qwen
        } else if contains(name, "gemma") {
            ModelFamily::Gemma
        } else if contains(name, "llama") {
            ModelFamily::Llama
        } else if contains(name, "mistral") {
            ModelFamily::Mistral
        } else {
            ModelFamily::Other
        }
    }

    /// Finds the family of a model.
    pub fn of(model: &str) -> (family: ModelFamily)
        ensures
            family == family_of_lowercase(lowercase(model@)),
    {
        ModelFamily::of_lowercase(to_lowercase(model).as_str())
    }
}

/// The default maximum of output tokens for a model.
pub open spec fn default_max_tokens_view(model: Seq<char>) -> u32 {
    if has_part(lowercase(model), "qwen"@) {
        16_384
    } else {
        8192
    }
}

/// How a server is reached and which model is asked.
pub struct OmlxClient {
    api_key: String,
    model: String,
    base_url: String,
    context_window_size: usize,
    max_tokens: u32,
    api_timeout_secs: u64,
}

/// What an [`OmlxClient`] holds.
pub struct OmlxClientView {
    pub api_key: Seq<char>,
    pub model: Seq<char>,
    pub base_url: Seq<char>,
    pub context_window_size: usize,
    pub max_tokens: u32,
    pub api_timeout_secs: u64,
}

impl View for OmlxClient {
    type V = OmlxClientView;

    closed spec fn view(&self) -> OmlxClientView {
        OmlxClientView {
            api_key: self.api_key@,
            model: self.model@,
            base_url: self.base_url@,
            context_window_size: self.context_window_size,
            max_tokens: self.max_tokens,
            api_timeout_secs: self.api_timeout_secs,
        }
    }
}

/// The key to use of the two that the environment may hold: the one for oMLX
/// before the one for any LLM, and the empty one where there is neither.
pub open spec fn chosen_key(omlx_key: Option<Seq<char>>, llm_key: Option<Seq<char>>) -> Seq<char> {
    match (omlx_key, llm_key) {
        (Some(key), _) => key,
        (None, Some(key)) => key,
        (None, None) => Seq::empty(),
    }
}

/// What is posted to the server.
pub struct Post<T> {
    pub url: String,
    pub bearer: Option<String>,
    pub body: OmlxRequest<T>,
}

impl OmlxClient {
    /// Makes a client. The two keys are what the environment holds under
    /// `OMLX_API_KEY` and under `LLM_API_KEY`.
    pub fn new(
        base_url: String,
        model: String,
        context_window_size: usize,
        max_tokens: u32,
        api_timeout_secs: u64,
        omlx_key: Option<String>,
        llm_key: Option<String>,
    ) -> (client: OmlxClient)
        ensures
            client@ == (OmlxClientView {
                api_key: chosen_key(text_view(omlx_key), text_view(llm_key)),
                model: model@,
                base_url: base_url@,
                context_window_size,
                max_tokens,
                api_timeout_secs,
            }),
    {
        let api_key = match (omlx_key, llm_key) {
            (Some(key), _) => key,
            (None, Some(key)) => key,
            (None, None) => String::new(),
        };
        OmlxClient {
            api_key,
            model,
            base_url,
            context_window_size,
            max_tokens,
            api_timeout_secs,
        }
    }

    /// Gives the endpoint of a server on this machine, at its usual port.
    pub fn default_base_url() -> (url: String)
        ensures
            url@ == "http://localhost:1993/v1/chat/completions"@,
    {
        "http://localhost:1993/v1/chat/completions".to_string()
    }

    /// Gives a sensible context-window size for a model: 128K for every family.
    pub fn default_context_window_for_model(model: &str) -> (size: usize)
        ensures
            size == 131_072,
    {
        match ModelFamily::of(model) {
            // Qwen 3 and 3.5.
            ModelFamily::Qwen => 131_072,
            // Gemma 4 27B.
            ModelFamily::Gemma => 131_072,
            // Llama 3.x.
            ModelFamily::Llama => 131_072,
            // Mistral and Mixtral have 32K to 128K, depending on the variant.
            ModelFamily::Mistral => 131_072,
            ModelFamily::Other => 131_072,
        }
    }

    /// Gives a sensible maximum of output tokens for a model: Qwen gives longer
    /// outputs than the others.
    pub fn default_max_tokens_for_model(model: &str) -> (tokens: u32)
        ensures
            tokens == default_max_tokens_view(model@),
    {
        match ModelFamily::of(model) {
            ModelFamily::Qwen => 16_384,
            _ => 8192,
        }
    }

    /// Gives the time in seconds after which a request is given up.
    pub fn api_timeout_secs(&self) -> (seconds: u64)
        ensures
            seconds == self@.api_timeout_secs,
    {
        self.api_timeout_secs
    }

    /// Begins an exchange: says what is to be posted, and what is waited for then.
    /// A key goes with the request if and only if it is not empty.
    pub fn begin<T>(&self, request: AiRequest<T>) -> (begun: (Post<T>, ExchangeState))
        ensures
            begun.0.url@ == self@.base_url,
            text_view(begun.0.bearer) == if self@.api_key.len() == 0 {
                None
            } else {
                Some(self@.api_key)
            },
            begun.0.body@ == wire_request_view(request@, self@.model, self@.max_tokens),
            forall|i: int|
                0 <= i < request@.messages.len() ==> plain_calls_read_back(
                    #[trigger] request@.messages[i],
                ),
            begun.1 matches ExchangeState::Sending { url } && url@ == self@.base_url,
    {
        let body = translate_request(request, self.model.as_str(), self.max_tokens);
        let bearer = if self.api_key.as_str().is_empty() {
            None
        } else {
            Some(self.api_key.clone())
        };
        (
            Post { url: self.base_url.clone(), bearer, body },
            ExchangeState::Sending { url: self.base_url.clone() },
        )
    }

    /// Estimates the tokens of a request: the sum of what the counter gives of
    /// each text that counts.
    pub fn estimate_tokens<T, F: Fn(&str) -> usize>(
        &self,
        request: &AiRequest<T>,
        counter: &F,
    ) -> (total: usize)
        requires
            takes_every_text(*counter),
            forall|counts: Seq<usize>| #[trigger]
                counts_of(*counter, request_texts(request@), counts) ==> sum(counts) <= usize::MAX,
        ensures
            exists|counts: Seq<usize>| #[trigger]
                counts_of(*counter, request_texts(request@), counts) && total == sum(counts),
    {
        crate::tokens::estimate_tokens(request, counter)
    }

    /// Says which model is asked and how much context it takes.
    pub fn get_capabilities(&self) -> (capabilities: ProviderCapabilities)
        ensures
            capabilities.model_name@ == self@.model,
            capabilities.context_window_size == self@.context_window_size,
    {
        ProviderCapabilities {
            model_name: self.model.clone(),
            context_window_size: self.context_window_size,
        }
    }
}

} // verus!
