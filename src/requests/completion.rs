use vstd::prelude::*;
use vstd::string::*;
use crate::client::{HttpPost, OpenAPIClient};
use crate::errors::Errors;
use crate::models::{Models, lemma_names_distinct};
use crate::settings::APISettings;

verus! {

/// A single-precision number held by its IEEE-754 bit pattern.
///
/// The library carries these values and never computes with them.
#[derive(Clone, Copy, PartialEq, Eq, Structural, Debug)]
pub struct Ieee32 {
    pub bits: u32,
}

/// Bit pattern of positive zero.
pub const IEEE32_ZERO_BITS: u32 = 0;

/// Bit pattern of one.
pub const IEEE32_ONE_BITS: u32 = 0x3f80_0000;

/// Tokens generated at most unless another bound is set.
pub const DEFAULT_MAX_TOKENS: u16 = 2048;

/// Path of the completion endpoint under the host.
pub open spec fn completions_path() -> Seq<char> {
    "/completions"@
}

/// Parameters of one completion call.
#[derive(PartialEq, Eq, Debug)]
pub struct CompletionRequest {
    /// ID of the model to use.
    pub engine: Models,
    /// The prompt to generate completions for.
    pub prompt: String,
    /// The suffix that comes after a completion of inserted text.
    pub suffix: Option<String>,
    /// Sampling temperature; higher values make the output more random.
    pub temperature: Ieee32,
    /// Nucleus-sampling threshold: the probability mass of the tokens considered.
    pub top_p: Ieee32,
    /// The maximum number of tokens to generate in the completion.
    pub max_token: u16,
    /// How many completions to generate for the prompt.
    pub n: u16,
    /// Whether to stream back partial progress.
    pub stream: bool,
    /// Include the log probabilities on this many most likely tokens.
    pub log_probs: Option<u16>,
    /// Echo back the prompt in addition to the completion.
    pub echo: bool,
    /// A sequence where the API stops generating further tokens.
    pub stop: Option<String>,
    /// Penalty on tokens that already appear in the text so far.
    pub presence_penalty: Ieee32,
    /// Completions generated server-side, of which the best `n` are returned.
    pub best_of: u16,
    /// Opaque identifier of the end user.
    pub user: Option<String>,
}

/// A completion request as the API names its fields on the wire.
pub struct WireCompletionRequest {
    pub model: String,
    pub prompt: String,
    pub suffix: Option<String>,
    pub temperature: Ieee32,
    pub top_p: Ieee32,
    pub max_tokens: u16,
    pub n: u16,
    pub stream: bool,
    pub logprobs: Option<u16>,
    pub echo: bool,
    pub stop: Option<String>,
    pub presence_penalty: Ieee32,
    pub best_of: u16,
    pub user: Option<String>,
}

fn copy_text(s: &Option<String>) -> (r: Option<String>)
    ensures
        r == *s,
{
    match s {
        Some(t) => Some(t.clone()),
        None => None,
    }
}

impl Clone for CompletionRequest {
    fn clone(&self) -> (r: Self)
        ensures
            r == *self,
    {
        CompletionRequest {
            engine: self.engine,
            prompt: self.prompt.clone(),
            suffix: copy_text(&self.suffix),
            temperature: self.temperature,
            top_p: self.top_p,
            max_token: self.max_token,
            n: self.n,
            stream: self.stream,
            log_probs: self.log_probs,
            echo: self.echo,
            stop: copy_text(&self.stop),
            presence_penalty: self.presence_penalty,
            best_of: self.best_of,
            user: copy_text(&self.user),
        }
    }
}

impl Default for CompletionRequest {
    fn default() -> (r: Self)
        ensures
            r.is_default(),
    {
        CompletionRequest {
            engine: Models::TextSimilarityDavinci001,
            prompt: String::new(),
            suffix: None,
            temperature: Ieee32 { bits: IEEE32_ZERO_BITS },
            top_p: Ieee32 { bits: IEEE32_ONE_BITS },
            max_token: DEFAULT_MAX_TOKENS,
            n: 1,
            stream: false,
            log_probs: None,
            echo: false,
            stop: None,
            presence_penalty: Ieee32 { bits: IEEE32_ZERO_BITS },
            best_of: 1,
            user: None,
        }
    }
}

impl CompletionRequest {
    /// The request that the default construction gives.
    pub open spec fn is_default(self) -> bool {
        &&& self.engine == Models::TextSimilarityDavinci001
        &&& self.prompt@ == Seq::<char>::empty()
        &&& self.suffix is None
        &&& self.temperature.bits == IEEE32_ZERO_BITS
        &&& self.top_p.bits == IEEE32_ONE_BITS
        &&& self.max_token == DEFAULT_MAX_TOKENS
        &&& self.n == 1
        &&& !self.stream
        &&& self.log_probs is None
        &&& !self.echo
        &&& self.stop is None
        &&& self.presence_penalty.bits == IEEE32_ZERO_BITS
        &&& self.best_of == 1
        &&& self.user is None
    }

    /// This request with its prompt replaced and every other field kept.
    pub open spec fn with_prompt(self, prompt: String) -> CompletionRequest {
        CompletionRequest { prompt, ..self }
    }

    /// `w` carries this request under the wire names.
    pub open spec fn is_wire_of(self, w: WireCompletionRequest) -> bool {
        &&& w.model@ == self.engine.spec_name()
        &&& w.prompt == self.prompt
        &&& w.suffix == self.suffix
        &&& w.temperature == self.temperature
        &&& w.top_p == self.top_p
        &&& w.max_tokens == self.max_token
        &&& w.n == self.n
        &&& w.stream == self.stream
        &&& w.logprobs == self.log_probs
        &&& w.echo == self.echo
        &&& w.stop == self.stop
        &&& w.presence_penalty == self.presence_penalty
        &&& w.best_of == self.best_of
        &&& w.user == self.user
    }

    /// The request that a wire record describes with `engine` as its model.
    pub open spec fn from_wire_with(w: WireCompletionRequest, engine: Models) -> CompletionRequest {
        CompletionRequest {
            engine,
            prompt: w.prompt,
            suffix: w.suffix,
            temperature: w.temperature,
            top_p: w.top_p,
            max_token: w.max_tokens,
            n: w.n,
            stream: w.stream,
            log_probs: w.logprobs,
            echo: w.echo,
            stop: w.stop,
            presence_penalty: w.presence_penalty,
            best_of: w.best_of,
            user: w.user,
        }
    }

    /// The request that a wire record describes; none when its model is unknown.
    pub open spec fn spec_from_wire(w: WireCompletionRequest) -> Option<CompletionRequest> {
        match Models::spec_from_name(w.model@) {
            Some(engine) => Some(CompletionRequest::from_wire_with(w, engine)),
            None => None,
        }
    }

    pub fn set_prompt(&mut self, prompt: String)
        ensures
            *final(self) == old(self).with_prompt(prompt),
    {
        self.prompt = prompt;
    }

    /// The request under the field names of the wire.
    pub fn to_wire(self) -> (r: WireCompletionRequest)
        ensures
            self.is_wire_of(r),
    {
        WireCompletionRequest {
            model: self.engine.to_name(),
            prompt: self.prompt,
            suffix: self.suffix,
            temperature: self.temperature,
            top_p: self.top_p,
            max_tokens: self.max_token,
            n: self.n,
            stream: self.stream,
            logprobs: self.log_probs,
            echo: self.echo,
            stop: self.stop,
            presence_penalty: self.presence_penalty,
            best_of: self.best_of,
            user: self.user,
        }
    }

    /// The request that a wire record describes; `None` when it names no known
    /// model.
    pub fn from_wire(w: WireCompletionRequest) -> (r: Option<CompletionRequest>)
        ensures
            r == CompletionRequest::spec_from_wire(w),
    {
        match Models::from_name(&w.model) {
            Some(engine) => Some(
                CompletionRequest {
                    engine,
                    prompt: w.prompt,
                    suffix: w.suffix,
                    temperature: w.temperature,
                    top_p: w.top_p,
                    max_token: w.max_tokens,
                    n: w.n,
                    stream: w.stream,
                    log_probs: w.logprobs,
                    echo: w.echo,
                    stop: w.stop,
                    presence_penalty: w.presence_penalty,
                    best_of: w.best_of,
                    user: w.user,
                },
            ),
            None => None,
        }
    }
}

/// A request sent under the wire names and read back is the same request, and
/// a wire record that reads back as a request is that request's record.
pub proof fn lemma_wire_round_trip(r: CompletionRequest, w: WireCompletionRequest)
    ensures
        r.is_wire_of(w) ==> CompletionRequest::spec_from_wire(w) == Some(r),
        CompletionRequest::spec_from_wire(w) == Some(r) ==> r.is_wire_of(w),
{
    if r.is_wire_of(w) {
        assert forall|m: Models| #[trigger] m.spec_name() == w.model@ implies m == r.engine by {
            if m != r.engine {
                lemma_names_distinct(m, r.engine);
            }
        }
        assert(Models::spec_from_name(w.model@) == Some(r.engine));
    }
    if CompletionRequest::spec_from_wire(w) == Some(r) {
        let e = Models::spec_from_name(w.model@)->Some_0;
        assert(e.spec_name() == w.model@);
    }
}

/// One choice among those that a completion returns.
#[derive(PartialEq, Eq, Debug)]
pub struct Choice {
    pub text: String,
    /// Position among the returned choices.
    pub index: u16,
    pub log_probs: Option<String>,
    /// Why generation stopped.
    pub finish_reason: String,
}

/// Tokens counted by the API for one call.
#[derive(Clone, Copy, PartialEq, Eq, Structural, Debug)]
pub struct Usage {
    pub prompt_tokens: u32,
    pub completion_tokens: u32,
    pub total_tokens: u32,
}

/// The decoded body of a successful completion call.
#[derive(PartialEq, Eq, Debug)]
pub struct CompletionResponse {
    pub id: String,
    /// Type tag of the returned object.
    pub object: String,
    /// Creation time, in seconds since the Unix epoch.
    pub created: i64,
    pub model: String,
    pub choices: Vec<Choice>,
    pub usage: Usage,
}

/// A completion profile: a request template of which each call varies the
/// prompt, and the transport client that carries the calls.
pub struct Completion {
    pub client: OpenAPIClient,
    pub base: CompletionRequest,
}

impl Completion {
    pub fn new(settings: APISettings) -> (r: Result<Self, Errors>)
        ensures
            r matches Ok(c) ==> c.base.is_default() && c.client.settings == settings,
            r matches Err(e) ==> e.is_transport(),
    {
        match OpenAPIClient::new(settings) {
            Ok(client) => Ok(Completion { client, base: CompletionRequest::default() }),
            Err(e) => Err(e),
        }
    }

    /// Replace the whole template.
    pub fn save_settings(&mut self, request_base: CompletionRequest)
        ensures
            final(self).base == request_base,
            final(self).client == old(self).client,
    {
        self.base = request_base;
    }

    /// Write `prompt` into the template and give the request that the call
    /// sends: the template as it now stands.
    pub fn execute(&mut self, prompt: String) -> (r: CompletionRequest)
        ensures
            final(self).base == old(self).base.with_prompt(prompt),
            final(self).client == old(self).client,
            r == final(self).base,
    {
        self.base.set_prompt(prompt);
        self.base.clone()
    }

    /// The POST that carries an encoded request to the completion endpoint.
    pub fn completions_post(&self, body: Vec<u8>) -> (r: HttpPost)
        ensures
            r.url@ == self.client.settings.host@ + completions_path(),
            r.content_type@ == "application/json"@,
            r.bearer_token == self.client.settings.secret_key,
            r.body == body,
    {
        self.client.post("/completions", body)
    }

    /// The request that a call with a fully specified `request` sends: that
    /// request as given, whatever the template holds.
    pub fn execute_with(&self, request: CompletionRequest) -> (r: CompletionRequest)
        ensures
            r == request,
    {
        request
    }
}

/// Of two calls in a row with the prompts `first` and `second`, the second
/// sends the template that preceded both with `second` as its prompt: it
/// carries the second prompt and every other field of the template.
pub proof fn lemma_execute_twice(template: CompletionRequest, first: String, second: String)
    ensures
        template.with_prompt(first).with_prompt(second) == template.with_prompt(second),
        template.with_prompt(first).with_prompt(second).prompt == second,
{
}

} // verus!
