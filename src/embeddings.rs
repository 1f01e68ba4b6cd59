use vstd::prelude::*;

use crate::wire::{
    check_text, field, field_names, first_error, opt_field, push_field, push_opt_field, text_check,
    text_entry, to_text_entry, BodyField, FieldValue, ValidationError,
};

verus! {

/// Options of a request for the embeddings of the texts in `input`.
#[derive(Debug)]
pub struct CreateEmbeddingsOptions {
    pub model: String,
    pub input: Vec<String>,
    pub user: Option<String>,
}

/// The JSON body of an embeddings request; an unset user is left out.
pub open spec fn embeddings_body(o: CreateEmbeddingsOptions) -> Seq<BodyField> {
    seq![field("model", FieldValue::Text(o.model)), field("input", FieldValue::Texts(o.input))]
        + opt_field("user", text_entry(o.user))
}

impl CreateEmbeddingsOptions {
    /// Options for `model` and `input`, with no user.
    pub fn default(model: &str, input: Vec<String>) -> (r: Self)
        ensures
            r.model@ == model@,
            r.input == input,
            r.user.is_none(),
    {
        Self { model: model.to_owned(), input, user: None }
    }

    pub open spec fn check(&self) -> Result<(), ValidationError> {
        first_error(
            text_check(self.model@, ValidationError::EmptyModel),
            if self.input@.len() == 0 {
                Err(ValidationError::EmptyInput)
            } else {
                Ok(())
            },
        )
    }

    /// Rejects an empty model, then an empty input list.
    pub fn validate(&self) -> (r: Result<(), ValidationError>)
        ensures
            r == self.check(),
    {
        check_text(&self.model, ValidationError::EmptyModel)?;
        if self.input.len() == 0 {
            Err(ValidationError::EmptyInput)
        } else {
            Ok(())
        }
    }

    /// The JSON body of the request: model, input, then user when set.
    pub fn into_body(self) -> (r: Vec<BodyField>)
        ensures
            r@ == embeddings_body(self),
    {
        let ghost o = self;
        let mut body: Vec<BodyField> = Vec::new();
        push_field(&mut body, "model", FieldValue::Text(self.model));
        push_field(&mut body, "input", FieldValue::Texts(self.input));
        push_opt_field(&mut body, "user", to_text_entry(self.user));
        assert(body@ =~= embeddings_body(o));
        body
    }
}

/// Embeddings options without a user are sent with the keys `model` and
/// `input` only.
pub proof fn embeddings_default_body_keys(o: CreateEmbeddingsOptions)
    requires
        o.user.is_none(),
    ensures
        field_names(embeddings_body(o)) == seq!["model", "input"],
{
    assert(field_names(embeddings_body(o)) =~= seq!["model", "input"]);
}

} // verus!
