//! The UI component model: the JSON-shaped widgets that render tools build.
//!
//! Data cells are opaque JSON values carried through untouched; everything
//! the builders decide on — titles, labels, kinds, variants — is a plain
//! value.

use std::collections::HashMap;

use vstd::prelude::*;

verus! {

/// A UI response: an ordered list of components to render.
pub struct UiResponse {
    pub components: Vec<Component>,
}

impl UiResponse {
    /// A response rendering the given components, in order.
    pub fn new(components: Vec<Component>) -> (r: Self)
        ensures
            r.components == components,
    {
        UiResponse { components }
    }
}

/// One renderable component.
pub enum Component {
    Text(Text),
    Chart(Chart),
    Table(Table),
    Card(Card),
    Alert(Alert),
    Button(Button),
    TextInput(TextInput),
    NumberInput(NumberInput),
    Select(Select),
}

/// Text style.
#[derive(Debug, Clone, Copy, PartialEq, Eq, Structural)]
pub enum TextVariant {
    H1,
    H2,
    H3,
    Body,
    Caption,
}

/// A block of text.
pub struct Text {
    pub id: Option<String>,
    pub content: String,
    pub variant: TextVariant,
}

/// Chart style.
#[derive(Debug, Clone, Copy, PartialEq, Eq, Structural)]
pub enum ChartKind {
    Bar,
    Line,
    Area,
    Pie,
}

/// A chart over rows of keyed values.
pub struct Chart {
    pub id: Option<String>,
    pub title: Option<String>,
    pub kind: ChartKind,
    pub data: Vec<HashMap<String, serde_json::Value>>,
    pub x_key: String,
    pub y_keys: Vec<String>,
}

/// One column of a table: header text and the key that selects the cell
/// from each row.
pub struct TableColumn {
    pub header: String,
    pub accessor_key: String,
}

/// A data table.
pub struct Table {
    pub id: Option<String>,
    pub columns: Vec<TableColumn>,
    pub data: Vec<HashMap<String, serde_json::Value>>,
}

/// A card grouping other components.
pub struct Card {
    pub id: Option<String>,
    pub title: Option<String>,
    pub description: Option<String>,
    pub content: Vec<Component>,
    pub footer: Option<String>,
}

/// Alert style.
#[derive(Debug, Clone, Copy, PartialEq, Eq, Structural)]
pub enum AlertVariant {
    Info,
    Success,
    Warning,
    Error,
}

/// A callout with a severity-colored style.
pub struct Alert {
    pub id: Option<String>,
    pub title: String,
    pub description: Option<String>,
    pub variant: AlertVariant,
}

/// Button style.
#[derive(Debug, Clone, Copy, PartialEq, Eq, Structural)]
pub enum ButtonVariant {
    Primary,
    Secondary,
    Destructive,
}

/// A button dispatching an action.
pub struct Button {
    pub id: Option<String>,
    pub label: String,
    pub action_id: String,
    pub variant: ButtonVariant,
    pub disabled: bool,
}

/// A single-line text input field.
pub struct TextInput {
    pub id: Option<String>,
    pub name: String,
    pub label: String,
    pub placeholder: Option<String>,
    pub required: bool,
    pub default_value: Option<String>,
    pub error: Option<String>,
}

/// A numeric input field.
pub struct NumberInput {
    pub id: Option<String>,
    pub name: String,
    pub label: String,
    pub min: Option<i64>,
    pub max: Option<i64>,
    pub step: Option<i64>,
    pub required: bool,
    pub error: Option<String>,
}

/// One option of a select field.
#[verifier::ext_equal]
pub struct SelectOption {
    pub label: String,
    pub value: String,
}

/// A select field.
pub struct Select {
    pub id: Option<String>,
    pub name: String,
    pub label: String,
    pub options: Vec<SelectOption>,
    pub required: bool,
    pub error: Option<String>,
}

impl Clone for SelectOption {
    fn clone(&self) -> (r: Self)
        ensures
            r == *self,
    {
        let r = SelectOption { label: self.label.clone(), value: self.value.clone() };
        proof {
            assert(r =~= *self);
        }
        r
    }
}

} // verus!
