use vstd::prelude::*;

use crate::completions::Usage;
use crate::wire::{
    bias_entry, check_stop, check_text, field, field_names, first_error, flag_entry, fraction_entry, json_entry,
    opt_field, push_field, push_opt_field, signed_entry, stop_check, text_check, text_entry,
    to_bias_entry, to_flag_entry, to_fraction_entry, to_json_entry, to_signed_entry,
    to_text_entry, to_texts_entry, to_unsigned_entry, texts_entry, unsigned_entry, BodyField,
    Decimal, FieldValue, ValidationError,
};

verus! {

/// Who wrote a chat message.
#[derive(Debug, Clone, Copy, PartialEq, Eq, Structural)]
pub enum OpenAIChatRole {
    System,
    User,
    Assistant,
    Function,
}

impl OpenAIChatRole {
    pub open spec fn text(self) -> Seq<char> {
        match self {
            OpenAIChatRole::System => "system"@,
            OpenAIChatRole::User => "user"@,
            OpenAIChatRole::Assistant => "assistant"@,
            OpenAIChatRole::Function => "function"@,
        }
    }

    /// The wire form of the role, such as `system`.
    pub fn to_string(&self) -> (r: String)
        ensures
            r@ == self.text(),
    {
        match self {
            OpenAIChatRole::System => String::from_str("system"),
            OpenAIChatRole::User => String::from_str("user"),
            OpenAIChatRole::Assistant => String::from_str("assistant"),
            OpenAIChatRole::Function => String::from_str("function"),
        }
    }
}

/// One message of a chat conversation.
#[derive(Debug)]
pub struct OpenAIChatMessage {
    pub role: OpenAIChatRole,
    pub content: String,
    pub name: Option<String>,
    pub function_call: Option<serde_json::Value>,
}

/// The JSON object of a message; unset options are left out.
pub open spec fn message_body(m: OpenAIChatMessage) -> Seq<BodyField> {
    seq![field("role", FieldValue::Role(m.role)), field("content", FieldValue::Text(m.content))]
        + opt_field("name", text_entry(m.name)) + opt_field(
        "function_call",
        json_entry(m.function_call),
    )
}

impl OpenAIChatMessage {
    /// The JSON object of the message: role, content, then `name` and
    /// `function_call` when set.
    pub fn into_body(self) -> (r: Vec<BodyField>)
        ensures
            r@ == message_body(self),
    {
        let ghost m = self;
        let mut body: Vec<BodyField> = Vec::new();
        push_field(&mut body, "role", FieldValue::Role(self.role));
        push_field(&mut body, "content", FieldValue::Text(self.content));
        push_opt_field(&mut body, "name", to_text_entry(self.name));
        push_opt_field(&mut body, "function_call", to_json_entry(self.function_call));
        assert(body@ =~= message_body(m));
        body
    }
}

/// A function the model may ask to call.
#[derive(Debug)]
pub struct OpenAIChatFunction {
    pub name: String,
    pub description: Option<String>,
    pub parameters: serde_json::Value,
}

/// The JSON object of a function; an unset description is left out.
pub open spec fn function_body(f: OpenAIChatFunction) -> Seq<BodyField> {
    seq![field("name", FieldValue::Text(f.name))] + opt_field(
        "description",
        text_entry(f.description),
    ) + seq![field("parameters", FieldValue::Json(f.parameters))]
}

impl OpenAIChatFunction {
    /// The JSON object of the function: name, description when set, parameters.
    pub fn into_body(self) -> (r: Vec<BodyField>)
        ensures
            r@ == function_body(self),
    {
        let ghost f = self;
        let mut body: Vec<BodyField> = Vec::new();
        push_field(&mut body, "name", FieldValue::Text(self.name));
        push_opt_field(&mut body, "description", to_text_entry(self.description));
        push_field(&mut body, "parameters", FieldValue::Json(self.parameters));
        assert(body@ =~= function_body(f));
        body
    }
}

/// Options of a chat completion request.
#[derive(Debug)]
pub struct OpenAIChatOptions {
    pub model: String,
    pub messages: Vec<OpenAIChatMessage>,
    pub functions: Option<Vec<OpenAIChatFunction>>,
    pub function_call: Option<serde_json::Value>,
    /// Sampling temperature, in thousandths (1000 is 1.0).
    pub temperature: Option<Decimal>,
    pub top_p: Option<Decimal>,
    pub n: Option<u32>,
    pub stream: Option<bool>,
    /// Up to `MAX_STOP_SEQUENCES` sequences that end the generation.
    pub stop: Option<Vec<String>>,
    pub max_tokens: u64,
    pub presence_penalty: Option<i8>,
    pub frequency_penalty: Option<i8>,
    /// Bias per token id; a token listed twice takes its last bias.
    pub logit_bias: Option<Vec<(String, i8)>>,
    pub user: Option<String>,
}

/// The JSON body of a chat completion request; unset options are left out.
pub open spec fn chat_body(o: OpenAIChatOptions) -> Seq<BodyField> {
    seq![
        field("model", FieldValue::Text(o.model)),
        field("messages", FieldValue::Messages(o.messages)),
    ] + opt_field(
        "functions",
        match o.functions {
            Some(v) => Some(FieldValue::Functions(v)),
            None => None,
        },
    ) + opt_field("function_call", json_entry(o.function_call)) + opt_field(
        "temperature",
        fraction_entry(o.temperature),
    ) + opt_field("top_p", fraction_entry(o.top_p)) + opt_field(
        "n",
        unsigned_entry(
            match o.n {
                Some(k) => Some(k as u64),
                None => None,
            },
        ),
    ) + opt_field("stream", flag_entry(o.stream)) + opt_field("stop", texts_entry(o.stop))
        + seq![field("max_tokens", FieldValue::Unsigned(o.max_tokens))] + opt_field(
        "presence_penalty",
        signed_entry(o.presence_penalty),
    ) + opt_field("frequency_penalty", signed_entry(o.frequency_penalty)) + opt_field(
        "logit_bias",
        bias_entry(o.logit_bias),
    ) + opt_field("user", text_entry(o.user))
}

impl OpenAIChatOptions {
    /// Options for `model` and `messages` with the API's defaults:
    /// temperature and top_p 1.0, one choice, no streaming, no penalties.
    pub fn default(model: &str, messages: Vec<OpenAIChatMessage>, max_tokens: u64) -> (r: Self)
        ensures
            r.model@ == model@,
            r.messages == messages,
            r.max_tokens == max_tokens,
            r.is_default(),
    {
        Self {
            model: model.to_owned(),
            messages,
            functions: None,
            function_call: None,
            temperature: Some(Decimal::one()),
            top_p: Some(Decimal::one()),
            n: Some(1),
            stream: Some(false),
            stop: None,
            max_tokens,
            presence_penalty: Some(0),
            frequency_penalty: Some(0),
            logit_bias: None,
            user: None,
        }
    }

    /// The optional fields are as `default` leaves them.
    pub open spec fn is_default(&self) -> bool {
        &&& self.functions.is_none()
        &&& self.function_call.is_none()
        &&& self.temperature == Some(Decimal { thousandths: 1000 })
        &&& self.top_p == Some(Decimal { thousandths: 1000 })
        &&& self.n == Some(1u32)
        &&& self.stream == Some(false)
        &&& self.stop.is_none()
        &&& self.presence_penalty == Some(0i8)
        &&& self.frequency_penalty == Some(0i8)
        &&& self.logit_bias.is_none()
        &&& self.user.is_none()
    }

    pub open spec fn check(&self) -> Result<(), ValidationError> {
        first_error(
            text_check(self.model@, ValidationError::EmptyModel),
            first_error(
                if self.messages@.len() == 0 {
                    Err(ValidationError::EmptyMessages)
                } else {
                    Ok(())
                },
                stop_check(self.stop),
            ),
        )
    }

    /// Rejects an empty model, then an empty message list, then more than
    /// four stop sequences.
    pub fn validate(&self) -> (r: Result<(), ValidationError>)
        ensures
            r == self.check(),
    {
        check_text(&self.model, ValidationError::EmptyModel)?;
        if self.messages.len() == 0 {
            return Err(ValidationError::EmptyMessages);
        }
        check_stop(&self.stop)
    }

    /// The JSON body of the request: model, messages, then each option that
    /// is set, with `max_tokens` always present.
    pub fn into_body(self) -> (r: Vec<BodyField>)
        ensures
            r@ == chat_body(self),
    {
        let ghost o = self;
        let mut body: Vec<BodyField> = Vec::new();
        push_field(&mut body, "model", FieldValue::Text(self.model));
        push_field(&mut body, "messages", FieldValue::Messages(self.messages));
        push_opt_field(
            &mut body,
            "functions",
            match self.functions {
                Some(v) => Some(FieldValue::Functions(v)),
                None => None,
            },
        );
        push_opt_field(&mut body, "function_call", to_json_entry(self.function_call));
        push_opt_field(&mut body, "temperature", to_fraction_entry(self.temperature));
        push_opt_field(&mut body, "top_p", to_fraction_entry(self.top_p));
        push_opt_field(
            &mut body,
            "n",
            to_unsigned_entry(
                match self.n {
                    Some(k) => Some(k as u64),
                    None => None,
                },
            ),
        );
        push_opt_field(&mut body, "stream", to_flag_entry(self.stream));
        push_opt_field(&mut body, "stop", to_texts_entry(self.stop));
        push_field(&mut body, "max_tokens", FieldValue::Unsigned(self.max_tokens));
        push_opt_field(&mut body, "presence_penalty", to_signed_entry(self.presence_penalty));
        push_opt_field(&mut body, "frequency_penalty", to_signed_entry(self.frequency_penalty));
        push_opt_field(&mut body, "logit_bias", to_bias_entry(self.logit_bias));
        push_opt_field(&mut body, "user", to_text_entry(self.user));
        assert(body@ =~= chat_body(o));
        body
    }
}

/// The message of one chat choice.
#[derive(Debug, Clone, PartialEq, Eq)]
pub struct OpenAIChatResponseMessage {
    pub role: String,
    pub content: String,
}

/// One choice of a chat completion.
#[derive(Debug, Clone, PartialEq, Eq)]
pub struct OpenAIChatResponseChoice {
    pub index: u64,
    pub message: OpenAIChatResponseMessage,
    pub finish_reason: String,
}

/// The reply to a chat completion request.
#[derive(Debug, Clone, PartialEq, Eq)]
pub struct OpenAIChatCompletion {
    pub id: String,
    pub object: String,
    pub created: u64,
    pub model: String,
    pub choices: Vec<OpenAIChatResponseChoice>,
    pub usage: Usage,
}

/// Chat options made by `default` are sent with exactly these keys, in
/// this order: none of `functions`, `function_call`, `stop`, `logit_bias`
/// or `user` appears, and no key is sent without a value.
pub proof fn chat_default_body_keys(o: OpenAIChatOptions)
    requires
        o.is_default(),
    ensures
        field_names(chat_body(o)) == seq![
            "model",
            "messages",
            "temperature",
            "top_p",
            "n",
            "stream",
            "max_tokens",
            "presence_penalty",
            "frequency_penalty",
        ],
{
    assert(field_names(chat_body(o)) =~= seq![
        "model",
        "messages",
        "temperature",
        "top_p",
        "n",
        "stream",
        "max_tokens",
        "presence_penalty",
        "frequency_penalty",
    ]);
}

/// Chat options with more than four stop sequences never pass validation.
pub proof fn chat_rejects_excess_stop(o: OpenAIChatOptions)
    requires
        o.stop is Some,
        o.stop->Some_0@.len() > 4,
    ensures
        o.check() is Err,
{
}

} // verus!
