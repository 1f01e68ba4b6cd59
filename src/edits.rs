use vstd::prelude::*;

use crate::wire::{
    check_text, field, field_names, first_error, fraction_entry, opt_field, push_field, push_opt_field,
    text_check, text_entry, to_fraction_entry, to_text_entry, to_unsigned_entry, unsigned_entry,
    BodyField, Decimal, FieldValue, ValidationError,
};

verus! {

/// Options of a request to edit `input` as `instruction` says.
#[derive(Debug)]
pub struct EditOptions {
    pub model: String,
    pub input: Option<String>,
    pub instruction: String,
    pub n: Option<u64>,
    pub temperature: Option<Decimal>,
    pub top_p: Option<Decimal>,
}

/// The JSON body of an edit request; unset options are left out.
pub open spec fn edit_body(o: EditOptions) -> Seq<BodyField> {
    seq![field("model", FieldValue::Text(o.model))] + opt_field("input", text_entry(o.input))
        + seq![field("instruction", FieldValue::Text(o.instruction))] + opt_field(
        "n",
        unsigned_entry(o.n),
    ) + opt_field("temperature", fraction_entry(o.temperature)) + opt_field(
        "top_p",
        fraction_entry(o.top_p),
    )
}

impl EditOptions {
    pub open spec fn check(&self) -> Result<(), ValidationError> {
        first_error(
            text_check(self.model@, ValidationError::EmptyModel),
            text_check(self.instruction@, ValidationError::EmptyInstruction),
        )
    }

    /// Rejects an empty model, then an empty instruction.
    pub fn validate(&self) -> (r: Result<(), ValidationError>)
        ensures
            r == self.check(),
    {
        check_text(&self.model, ValidationError::EmptyModel)?;
        check_text(&self.instruction, ValidationError::EmptyInstruction)
    }

    /// The JSON body of the request: model, input when set, instruction,
    /// then each option that is set.
    pub fn into_body(self) -> (r: Vec<BodyField>)
        ensures
            r@ == edit_body(self),
    {
        let ghost o = self;
        let mut body: Vec<BodyField> = Vec::new();
        push_field(&mut body, "model", FieldValue::Text(self.model));
        push_opt_field(&mut body, "input", to_text_entry(self.input));
        push_field(&mut body, "instruction", FieldValue::Text(self.instruction));
        push_opt_field(&mut body, "n", to_unsigned_entry(self.n));
        push_opt_field(&mut body, "temperature", to_fraction_entry(self.temperature));
        push_opt_field(&mut body, "top_p", to_fraction_entry(self.top_p));
        assert(body@ =~= edit_body(o));
        body
    }
}

/// Edit options with no optional field set are sent with the keys `model`
/// and `instruction` only.
pub proof fn edit_unset_body_keys(o: EditOptions)
    requires
        o.input.is_none(),
        o.n.is_none(),
        o.temperature.is_none(),
        o.top_p.is_none(),
    ensures
        field_names(edit_body(o)) == seq!["model", "instruction"],
{
    assert(field_names(edit_body(o)) =~= seq!["model", "instruction"]);
}

} // verus!
