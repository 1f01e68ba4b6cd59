use vstd::prelude::*;

use crate::wire::{
    bias_entry, check_stop, check_text, field, field_names, first_error, flag_entry, fraction_entry, opt_field,
    push_field, push_opt_field, signed_entry, stop_check, text_check, text_entry, texts_entry,
    to_bias_entry, to_flag_entry, to_fraction_entry, to_signed_entry, to_text_entry,
    to_texts_entry, to_unsigned_entry, unsigned_entry, BodyField, Decimal, FieldValue,
    ValidationError,
};

verus! {

/// Options of a text completion request.
#[derive(Debug)]
pub struct CompletionOptions {
    pub model: String,
    pub prompt: Vec<String>,
    pub suffix: Option<String>,
    pub max_tokens: Option<u32>,
    /// Sampling temperature, in thousandths (1000 is 1.0).
    pub temperature: Option<Decimal>,
    pub top_p: Option<Decimal>,
    pub n: Option<u32>,
    pub stream: Option<bool>,
    pub logprobs: Option<u32>,
    pub echo: Option<bool>,
    /// Up to `MAX_STOP_SEQUENCES` sequences that end the generation.
    pub stop: Option<Vec<String>>,
    pub presence_penalty: Option<i8>,
    pub frequency_penalty: Option<i8>,
    pub best_of: Option<u32>,
    /// Bias per token id; a token listed twice takes its last bias.
    pub logit_bias: Option<Vec<(String, i8)>>,
    pub user: Option<String>,
}

pub open spec fn widen(v: Option<u32>) -> Option<u64> {
    match v {
        Some(k) => Some(k as u64),
        None => None,
    }
}

fn to_widened(v: Option<u32>) -> (r: Option<u64>)
    ensures
        r == widen(v),
{
    match v {
        Some(k) => Some(k as u64),
        None => None,
    }
}

/// The JSON body of a completion request; unset options are left out.
pub open spec fn completion_body(o: CompletionOptions) -> Seq<BodyField> {
    seq![field("model", FieldValue::Text(o.model)), field("prompt", FieldValue::Texts(o.prompt))]
        + opt_field("suffix", text_entry(o.suffix)) + opt_field(
        "max_tokens",
        unsigned_entry(widen(o.max_tokens)),
    ) + opt_field("temperature", fraction_entry(o.temperature)) + opt_field(
        "top_p",
        fraction_entry(o.top_p),
    ) + opt_field("n", unsigned_entry(widen(o.n))) + opt_field("stream", flag_entry(o.stream))
        + opt_field("logprobs", unsigned_entry(widen(o.logprobs))) + opt_field(
        "echo",
        flag_entry(o.echo),
    ) + opt_field("stop", texts_entry(o.stop)) + opt_field(
        "presence_penalty",
        signed_entry(o.presence_penalty),
    ) + opt_field("frequency_penalty", signed_entry(o.frequency_penalty)) + opt_field(
        "best_of",
        unsigned_entry(widen(o.best_of)),
    ) + opt_field("logit_bias", bias_entry(o.logit_bias)) + opt_field("user", text_entry(o.user))
}

impl CompletionOptions {
    /// Options for `model` and `prompt` with the API's defaults: 16 tokens,
    /// temperature and top_p 1.0, one choice, no streaming, no echo, no
    /// penalties, best of one.
    pub fn default(model: &str, prompt: Vec<String>) -> (r: Self)
        ensures
            r.model@ == model@,
            r.prompt == prompt,
            r.is_default(),
    {
        CompletionOptions {
            model: model.to_owned(),
            prompt,
            suffix: None,
            max_tokens: Some(16),
            temperature: Some(Decimal::one()),
            top_p: Some(Decimal::one()),
            n: Some(1),
            stream: Some(false),
            logprobs: None,
            echo: Some(false),
            stop: None,
            presence_penalty: Some(0),
            frequency_penalty: Some(0),
            best_of: Some(1),
            logit_bias: None,
            user: None,
        }
    }

    /// The optional fields are as `default` leaves them.
    pub open spec fn is_default(&self) -> bool {
        &&& self.suffix.is_none()
        &&& self.max_tokens == Some(16u32)
        &&& self.temperature == Some(Decimal { thousandths: 1000 })
        &&& self.top_p == Some(Decimal { thousandths: 1000 })
        &&& self.n == Some(1u32)
        &&& self.stream == Some(false)
        &&& self.logprobs.is_none()
        &&& self.echo == Some(false)
        &&& self.stop.is_none()
        &&& self.presence_penalty == Some(0i8)
        &&& self.frequency_penalty == Some(0i8)
        &&& self.best_of == Some(1u32)
        &&& self.logit_bias.is_none()
        &&& self.user.is_none()
    }

    pub open spec fn check(&self) -> Result<(), ValidationError> {
        first_error(
            text_check(self.model@, ValidationError::EmptyModel),
            first_error(
                if self.prompt@.len() == 0 {
                    Err(ValidationError::EmptyPrompt)
                } else {
                    Ok(())
                },
                stop_check(self.stop),
            ),
        )
    }

    /// Rejects an empty model, then an empty prompt list, then more than
    /// four stop sequences.
    pub fn validate(&self) -> (r: Result<(), ValidationError>)
        ensures
            r == self.check(),
    {
        check_text(&self.model, ValidationError::EmptyModel)?;
        if self.prompt.len() == 0 {
            return Err(ValidationError::EmptyPrompt);
        }
        check_stop(&self.stop)
    }

    /// The JSON body of the request: model, prompt, then each option that
    /// is set.
    pub fn into_body(self) -> (r: Vec<BodyField>)
        ensures
            r@ == completion_body(self),
    {
        let ghost o = self;
        let mut body: Vec<BodyField> = Vec::new();
        push_field(&mut body, "model", FieldValue::Text(self.model));
        push_field(&mut body, "prompt", FieldValue::Texts(self.prompt));
        push_opt_field(&mut body, "suffix", to_text_entry(self.suffix));
        push_opt_field(&mut body, "max_tokens", to_unsigned_entry(to_widened(self.max_tokens)));
        push_opt_field(&mut body, "temperature", to_fraction_entry(self.temperature));
        push_opt_field(&mut body, "top_p", to_fraction_entry(self.top_p));
        push_opt_field(&mut body, "n", to_unsigned_entry(to_widened(self.n)));
        push_opt_field(&mut body, "stream", to_flag_entry(self.stream));
        push_opt_field(&mut body, "logprobs", to_unsigned_entry(to_widened(self.logprobs)));
        push_opt_field(&mut body, "echo", to_flag_entry(self.echo));
        push_opt_field(&mut body, "stop", to_texts_entry(self.stop));
        push_opt_field(&mut body, "presence_penalty", to_signed_entry(self.presence_penalty));
        push_opt_field(&mut body, "frequency_penalty", to_signed_entry(self.frequency_penalty));
        push_opt_field(&mut body, "best_of", to_unsigned_entry(to_widened(self.best_of)));
        push_opt_field(&mut body, "logit_bias", to_bias_entry(self.logit_bias));
        push_opt_field(&mut body, "user", to_text_entry(self.user));
        assert(body@ =~= completion_body(o));
        body
    }
}

/// Token counts that the API reports for a text request.
#[derive(Debug, Clone, Copy, PartialEq, Eq, Structural)]
pub struct Usage {
    pub prompt_tokens: u64,
    pub completion_tokens: u64,
    pub total_tokens: u64,
}

/// One generated completion.
#[derive(Debug)]
pub struct Choice {
    pub text: String,
    pub index: u64,
    pub logprobs: serde_json::Value,
    pub finish_reason: String,
}

/// The reply to a completion request.
#[derive(Debug)]
pub struct OpenAICompletion {
    pub id: String,
    pub object: String,
    pub created: u64,
    pub model: String,
    pub choices: Vec<Choice>,
    pub usage: Usage,
}

/// Completion options made by `default` are sent with exactly these keys,
/// in this order: none of `suffix`, `logprobs`, `stop`, `logit_bias` or
/// `user` appears, and no key is sent without a value.
pub proof fn completion_default_body_keys(o: CompletionOptions)
    requires
        o.is_default(),
    ensures
        field_names(completion_body(o)) == seq![
            "model",
            "prompt",
            "max_tokens",
            "temperature",
            "top_p",
            "n",
            "stream",
            "echo",
            "presence_penalty",
            "frequency_penalty",
            "best_of",
        ],
{
    assert(field_names(completion_body(o)) =~= seq![
            "model",
            "prompt",
            "max_tokens",
            "temperature",
            "top_p",
            "n",
            "stream",
            "echo",
            "presence_penalty",
            "frequency_penalty",
            "best_of",
        ]);
}

/// Completion options with more than four stop sequences never pass
/// validation.
pub proof fn completion_rejects_excess_stop(o: CompletionOptions)
    requires
        o.stop is Some,
        o.stop->Some_0@.len() > 4,
    ensures
        o.check() is Err,
{
}

} // verus!
