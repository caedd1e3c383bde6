//! The table rendering tool: turns table parameters into a response with an
//! optional title and one data table.

use std::collections::HashMap;

use vstd::prelude::*;

use crate::ui::schema::{Component, Table, TableColumn, Text, TextVariant, UiResponse};

verus! {

/// Parameters for the table rendering tool.
pub struct RenderTableParams {
    /// Table title.
    pub title: Option<String>,
    /// Column definitions.
    pub columns: Vec<ColumnDef>,
    /// Row data: one keyed row per line, keys matching `accessor_key`.
    pub data: Vec<HashMap<String, serde_json::Value>>,
}

/// One column: header text and the key that selects the cell from each row.
pub struct ColumnDef {
    pub header: String,
    pub accessor_key: String,
}

/// The table column a column definition turns into.
pub open spec fn spec_table_column(c: ColumnDef) -> TableColumn {
    TableColumn { header: c.header, accessor_key: c.accessor_key }
}

/// Tool for rendering data tables.
pub struct RenderTableTool;

impl RenderTableTool {
    pub fn new() -> Self {
        RenderTableTool
    }

    /// The tool's name.
    pub fn name(&self) -> (r: &'static str)
        ensures
            r@ == "render_table"@,
    {
        "render_table"
    }

    /// Build the response for the given parameters: a title heading if one
    /// was given, then one table whose columns mirror the definitions and
    /// whose rows pass through unchanged.
    pub fn render(&self, params: RenderTableParams) -> (r: UiResponse)
        ensures
            ({
                let table_at = if params.title is Some {
                    1int
                } else {
                    0int
                };
                &&& r.components@.len() == table_at + 1
                &&& params.title matches Some(title) ==> r.components@[0] == Component::Text(
                    Text { id: None, content: title, variant: TextVariant::H3 },
                )
                &&& (r.components@[table_at] matches Component::Table(table) && {
                    &&& table.id is None
                    &&& table.columns@ == params.columns@.map_values(
                        |c: ColumnDef| spec_table_column(c),
                    )
                    &&& table.data == params.data
                })
            }),
    {
        let mut columns: Vec<TableColumn> = Vec::new();
        let mut i: usize = 0;
        while i < params.columns.len()
            invariant
                i <= params.columns.len(),
                columns@.len() == i,
                forall|j: int| 0 <= j < i ==> columns@[j] == spec_table_column(
                    #[trigger] params.columns@[j],
                ),
            decreases params.columns.len() - i,
        {
            columns.push(
                TableColumn {
                    header: params.columns[i].header.clone(),
                    accessor_key: params.columns[i].accessor_key.clone(),
                },
            );
            i = i + 1;
        }
        proof {
            assert(columns@ =~= params.columns@.map_values(|c: ColumnDef| spec_table_column(c)));
        }

        let mut components: Vec<Component> = Vec::new();
        match params.title {
            Some(title) => {
                components.push(
                    Component::Text(Text { id: None, content: title, variant: TextVariant::H3 }),
                );
            },
            None => {},
        }
        components.push(Component::Table(Table { id: None, columns, data: params.data }));
        UiResponse::new(components)
    }
}

impl Default for RenderTableTool {
    fn default() -> Self {
        Self::new()
    }
}

} // verus!
