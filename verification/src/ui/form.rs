//! The form rendering tool: turns form parameters into a card of input
//! fields with a submit button.

use vstd::prelude::*;

use crate::strings::str_eq;
use crate::ui::schema::{
    Button, ButtonVariant, Card, Component, NumberInput, Select, SelectOption, TextInput,
    UiResponse,
};

verus! {

/// Parameters for the form rendering tool.
pub struct RenderFormParams {
    /// Title of the form.
    pub title: String,
    /// Optional description.
    pub description: Option<String>,
    /// Form fields to render.
    pub fields: Vec<FormField>,
    /// Action ID dispatched on submission.
    pub submit_action: String,
    /// Submit button label.
    pub submit_label: String,
}

/// One form field.
pub struct FormField {
    /// Field name (used as key in the submission).
    pub name: String,
    /// Label displayed to the user.
    pub label: String,
    /// Field type: `number` and `select` render their own widgets; anything
    /// else renders as a text input.
    pub field_type: String,
    /// Placeholder text.
    pub placeholder: Option<String>,
    /// Whether the field is required.
    pub required: bool,
    /// Options for select fields.
    pub options: Vec<SelectOption>,
}

/// The action ID used when the parameters name none.
pub fn default_submit_action() -> (r: String)
    ensures
        r@ == "form_submit"@,
{
    "form_submit".to_owned()
}

/// The submit label used when the parameters name none.
pub fn default_submit_label() -> (r: String)
    ensures
        r@ == "Submit"@,
{
    "Submit".to_owned()
}

/// The field type used when a field names none.
pub fn default_field_type() -> (r: String)
    ensures
        r@ == "text"@,
{
    "text".to_owned()
}

/// What the input component built for a form field must look like: a number
/// input for `number`, a select for `select`, a text input otherwise.
pub open spec fn spec_field_component(f: FormField, c: Component) -> bool {
    if f.field_type@ == "number"@ {
        c == Component::NumberInput(
            NumberInput {
                id: None,
                name: f.name,
                label: f.label,
                min: None,
                max: None,
                step: None,
                required: f.required,
                error: None,
            },
        )
    } else if f.field_type@ == "select"@ {
        c matches Component::Select(sel) && {
            &&& sel.id is None
            &&& sel.name == f.name
            &&& sel.label == f.label
            &&& sel.options@ == f.options@
            &&& sel.required == f.required
            &&& sel.error is None
        }
    } else {
        c == Component::TextInput(
            TextInput {
                id: None,
                name: f.name,
                label: f.label,
                placeholder: f.placeholder,
                required: f.required,
                default_value: None,
                error: None,
            },
        )
    }
}

/// The input component for one form field.
fn field_component(f: &FormField) -> (r: Component)
    ensures
        spec_field_component(*f, r),
{
    if str_eq(f.field_type.as_str(), "number") {
        Component::NumberInput(
            NumberInput {
                id: None,
                name: f.name.clone(),
                label: f.label.clone(),
                min: None,
                max: None,
                step: None,
                required: f.required,
                error: None,
            },
        )
    } else if str_eq(f.field_type.as_str(), "select") {
        let mut options: Vec<SelectOption> = Vec::new();
        let mut i: usize = 0;
        while i < f.options.len()
            invariant
                i <= f.options.len(),
                options@.len() == i,
                forall|j: int| 0 <= j < i ==> options@[j] == f.options@[j],
            decreases f.options.len() - i,
        {
            options.push(f.options[i].clone());
            i = i + 1;
        }
        proof {
            assert(options@ =~= f.options@);
        }
        Component::Select(
            Select {
                id: None,
                name: f.name.clone(),
                label: f.label.clone(),
                options,
                required: f.required,
                error: None,
            },
        )
    } else {
        let placeholder = match &f.placeholder {
            Some(p) => Some(p.clone()),
            None => None,
        };
        proof {
            assert(placeholder == f.placeholder);
        }
        Component::TextInput(
            TextInput {
                id: None,
                name: f.name.clone(),
                label: f.label.clone(),
                placeholder,
                required: f.required,
                default_value: None,
                error: None,
            },
        )
    }
}

/// Tool for rendering forms that collect structured input.
pub struct RenderFormTool;

impl RenderFormTool {
    pub fn new() -> Self {
        RenderFormTool
    }

    /// The tool's name.
    pub fn name(&self) -> (r: &'static str)
        ensures
            r@ == "render_form"@,
    {
        "render_form"
    }

    /// Build the response for the given parameters: one card titled with
    /// the form title, holding one input component per field (in order)
    /// followed by a primary submit button dispatching the submit action.
    pub fn render(&self, params: RenderFormParams) -> (r: UiResponse)
        ensures
            r.components@.len() == 1,
            r.components@[0] matches Component::Card(card) && {
                &&& card.id is None
                &&& card.title == Some(params.title)
                &&& card.description == params.description
                &&& card.footer is None
                &&& card.content@.len() == params.fields@.len() + 1
                &&& forall|i: int|
                    0 <= i < params.fields@.len() ==> spec_field_component(
                        #[trigger] params.fields@[i],
                        card.content@[i],
                    )
                &&& card.content@.last() == Component::Button(
                    Button {
                        id: None,
                        label: params.submit_label,
                        action_id: params.submit_action,
                        variant: ButtonVariant::Primary,
                        disabled: false,
                    },
                )
            },
    {
        let mut form_content: Vec<Component> = Vec::new();
        let mut i: usize = 0;
        while i < params.fields.len()
            invariant
                i <= params.fields.len(),
                form_content@.len() == i,
                forall|j: int| 0 <= j < i ==> spec_field_component(
                    #[trigger] params.fields@[j],
                    form_content@[j],
                ),
            decreases params.fields.len() - i,
        {
            form_content.push(field_component(&params.fields[i]));
            i = i + 1;
        }

        form_content.push(
            Component::Button(
                Button {
                    id: None,
                    label: params.submit_label,
                    action_id: params.submit_action,
                    variant: ButtonVariant::Primary,
                    disabled: false,
                },
            ),
        );

        let components = vec![
            Component::Card(
                Card {
                    id: None,
                    title: Some(params.title),
                    description: params.description,
                    content: form_content,
                    footer: None,
                },
            ),
        ];
        UiResponse::new(components)
    }
}

impl Default for RenderFormTool {
    fn default() -> Self {
        Self::new()
    }
}

} // verus!
