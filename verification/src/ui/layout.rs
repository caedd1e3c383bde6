//! The layout rendering tool: turns a dashboard description — a titled list
//! of sections — into a component tree.

use std::collections::HashMap;

use vstd::prelude::*;
use vstd::string::StringExecFns;

use crate::strings::str_eq;
use crate::ui::schema::{
    Alert, AlertVariant, Card, Component, Table, TableColumn, Text, TextVariant, UiResponse,
};
use crate::ui::table::{spec_table_column, ColumnDef};

verus! {

/// A section in a dashboard layout.
pub struct DashboardSection {
    /// Section title.
    pub title: String,
    /// Type of content: `stats`, `table`, `chart`, `alert` or `text`.
    pub section_type: String,
    /// For stats sections: list of label/value pairs.
    pub stats: Option<Vec<StatItem>>,
    /// For text sections: the text content.
    pub text: Option<String>,
    /// For alert sections: the message.
    pub message: Option<String>,
    /// For alert sections: the severity (`info`, `success`, `warning`,
    /// `error`).
    pub severity: Option<String>,
    /// For table sections: the columns.
    pub columns: Option<Vec<ColumnDef>>,
    /// For table sections: the rows.
    pub rows: Option<Vec<HashMap<String, serde_json::Value>>>,
    /// For chart sections: the chart type.
    pub chart_type: Option<String>,
    /// For chart sections: the data rows.
    pub data: Option<Vec<HashMap<String, serde_json::Value>>>,
    /// For chart sections: the x-axis key.
    pub x_key: Option<String>,
    /// For chart sections: the y-axis keys.
    pub y_keys: Option<Vec<String>>,
}

/// One statistic of a stats section.
pub struct StatItem {
    pub label: String,
    pub value: String,
    /// Optional status: `operational`, `degraded`, `down` and synonyms.
    pub status: Option<String>,
}

/// Parameters for the layout rendering tool.
pub struct RenderLayoutParams {
    /// Dashboard title.
    pub title: String,
    /// Optional description.
    pub description: Option<String>,
    /// Sections to display.
    pub sections: Vec<DashboardSection>,
}

/// The status indicator shown before a statistic: a traffic light for known
/// statuses, nothing otherwise.
pub open spec fn spec_status_indicator(status: Option<String>) -> Seq<char> {
    match status {
        Some(s) => if s@ == "operational"@ || s@ == "ok"@ || s@ == "success"@ {
            "\u{1F7E2} "@
        } else if s@ == "degraded"@ || s@ == "warning"@ {
            "\u{1F7E1} "@
        } else if s@ == "down"@ || s@ == "error"@ || s@ == "outage"@ {
            "\u{1F534} "@
        } else {
            Seq::empty()
        },
        None => Seq::empty(),
    }
}

/// The text line shown for one statistic: indicator, label, colon, value.
pub open spec fn spec_stat_line(stat: StatItem) -> Seq<char> {
    spec_status_indicator(stat.status) + stat.label@ + ": "@ + stat.value@
}

/// The alert style a severity string selects; unknown strings fall back to
/// an informational alert.
pub open spec fn spec_alert_variant(severity: Option<String>) -> AlertVariant {
    match severity {
        Some(s) => if s@ == "success"@ {
            AlertVariant::Success
        } else if s@ == "warning"@ {
            AlertVariant::Warning
        } else if s@ == "error"@ {
            AlertVariant::Error
        } else {
            AlertVariant::Info
        },
        None => AlertVariant::Info,
    }
}

/// What the component built for a section must look like.
///
/// An `alert` section becomes a bare alert.  Every other section becomes a
/// card titled with the section title; its content is one text line per
/// statistic for `stats`, the text for `text`, a table for `table` (when
/// both columns and rows are present), a chart for `chart` (when data and
/// both axis keys are present), a fallback line naming the unknown type
/// otherwise — and a placeholder when all of that produced nothing.
pub open spec fn spec_section_component(section: DashboardSection, c: Component) -> bool {
    if section.section_type@ == "alert"@ {
        c == Component::Alert(
            Alert {
                id: None,
                title: section.title,
                description: section.message,
                variant: spec_alert_variant(section.severity),
            },
        )
    } else {
        c matches Component::Card(card) && {
            &&& card.id is None
            &&& card.title == Some(section.title)
            &&& card.description is None
            &&& card.footer is None
            &&& spec_card_content(section, card.content@)
        }
    }
}

/// What the content of a non-alert section card must hold.
pub open spec fn spec_card_content(section: DashboardSection, content: Seq<Component>) -> bool {
    if section.section_type@ == "stats"@ && section.stats is Some && section.stats->0@.len()
        > 0 {
        &&& content.len() == section.stats->0@.len()
        &&& forall|i: int|
            0 <= i < content.len() ==> (#[trigger] content[i] matches Component::Text(t) && {
                &&& t.id is None
                &&& t.content@ == spec_stat_line(section.stats->0@[i])
                &&& t.variant == TextVariant::Body
            })
    } else if section.section_type@ == "text"@ && section.text is Some {
        content.len() == 1 && (content[0] matches Component::Text(t) && {
            &&& t.id is None
            &&& t.content@ == section.text->0@
            &&& t.variant == TextVariant::Body
        })
    } else if section.section_type@ == "table"@ && section.columns is Some && section.rows
        is Some {
        content.len() == 1 && (content[0] matches Component::Table(table) && {
            &&& table.id is None
            &&& table.columns@ == section.columns->0@.map_values(
                |col: ColumnDef| spec_table_column(col),
            )
            &&& table.data == section.rows->0
        })
    } else if section.section_type@ == "chart"@ && section.data is Some && section.x_key is Some
        && section.y_keys is Some {
        content.len() == 1 && (content[0] matches Component::Chart(chart) && {
            &&& chart.id is None
            &&& chart.title is None
            &&& chart.kind == crate::ui::chart::spec_chart_kind(
                match section.chart_type {
                    Some(t) => t@,
                    None => Seq::empty(),
                },
            )
            &&& chart.data == section.data->0
            &&& chart.x_key == section.x_key->0
            &&& chart.y_keys == section.y_keys->0
        })
    } else if section.section_type@ == "stats"@ || section.section_type@ == "text"@
        || section.section_type@ == "table"@ || section.section_type@ == "chart"@ {
        // A known type whose payload is missing or empty: the placeholder.
        content.len() == 1 && (content[0] matches Component::Text(t) && {
            &&& t.content@ == "(No content)"@
            &&& t.variant == TextVariant::Caption
        })
    } else {
        // Unknown type: a fallback line naming it.
        content.len() == 1 && (content[0] matches Component::Text(t) && {
            &&& t.content@ == "Unknown section type: "@ + section.section_type@
            &&& t.variant == TextVariant::Caption
        })
    }
}

/// A section card: titled with the section title, no description, no
/// footer, holding the given content — with the placeholder where the
/// content is empty.
fn section_card(title: String, content: Vec<Component>) -> (r: Component)
    ensures
        r matches Component::Card(card) && {
            &&& card.id is None
            &&& card.title == Some(title)
            &&& card.description is None
            &&& card.footer is None
            &&& if content@.len() == 0 {
                card.content@.len() == 1 && (card.content@[0] matches Component::Text(t) && {
                    &&& t.content@ == "(No content)"@
                    &&& t.variant == TextVariant::Caption
                })
            } else {
                card.content == content
            }
        },
{
    let mut content = content;
    if content.len() == 0 {
        content.push(
            Component::Text(
                Text {
                    id: None,
                    content: "(No content)".to_owned(),
                    variant: TextVariant::Caption,
                },
            ),
        );
    }
    Component::Card(
        Card { id: None, title: Some(title), description: None, content, footer: None },
    )
}

/// The component built for one dashboard section.
pub fn build_section_component(section: DashboardSection) -> (r: Component)
    ensures
        spec_section_component(section, r),
{
    proof {
        broadcast use vstd::string::group_string_axioms;

        reveal_strlit("alert");
        reveal_strlit("stats");
        reveal_strlit("text");
        reveal_strlit("table");
        reveal_strlit("chart");
        assert("alert"@.len() == 5 && "stats"@.len() == 5 && "text"@.len() == 4
            && "table"@.len() == 5 && "chart"@.len() == 5);
        assert("alert"@[0] == 'a' && "stats"@[0] == 's' && "text"@[0] == 't' && "table"@[0]
            == 't' && "chart"@[0] == 'c');
        assert("stats"@ != "text"@);
        assert("stats"@ != "table"@);
        assert("stats"@ != "chart"@);
        assert("text"@ != "table"@);
        assert("text"@ != "chart"@);
        assert("table"@ != "chart"@);
    }
    if str_eq(section.section_type.as_str(), "alert") {
        return Component::Alert(
            Alert {
                id: None,
                title: section.title,
                description: section.message,
                variant: alert_variant_of(&section.severity),
            },
        );
    }

    if str_eq(section.section_type.as_str(), "stats") {
        let mut card_content: Vec<Component> = Vec::new();
        match &section.stats {
            Some(stats) => {
                let mut i: usize = 0;
                while i < stats.len()
                    invariant
                        i <= stats.len(),
                        card_content@.len() == i,
                        forall|j: int|
                            0 <= j < i ==> (#[trigger] card_content@[j] matches Component::Text(
                                t,
                            ) && t.id is None && t.content@ == spec_stat_line(stats@[j])
                                && t.variant == TextVariant::Body),
                    decreases stats.len() - i,
                {
                    let stat = &stats[i];
                    let mut line = status_indicator_of(&stat.status).to_owned();
                    line.append(stat.label.as_str());
                    line.append(": ");
                    line.append(stat.value.as_str());
                    proof {
                        assert(line@ =~= spec_stat_line(stats@[i as int]));
                    }
                    card_content.push(
                        Component::Text(
                            Text { id: None, content: line, variant: TextVariant::Body },
                        ),
                    );
                    i = i + 1;
                }
            },
            None => {},
        }
        return section_card(section.title, card_content);
    }

    if str_eq(section.section_type.as_str(), "text") {
        let mut card_content: Vec<Component> = Vec::new();
        match section.text {
            Some(text) => {
                card_content.push(
                    Component::Text(Text { id: None, content: text, variant: TextVariant::Body }),
                );
            },
            None => {},
        }
        return section_card(section.title, card_content);
    }

    if str_eq(section.section_type.as_str(), "table") {
        let mut card_content: Vec<Component> = Vec::new();
        if section.columns.is_some() && section.rows.is_some() {
            let cols = match section.columns {
                Some(cols) => cols,
                None => Vec::new(),
            };
            let rows = match section.rows {
                Some(rows) => rows,
                None => Vec::new(),
            };
            let mut table_columns: Vec<TableColumn> = Vec::new();
            let mut i: usize = 0;
            while i < cols.len()
                invariant
                    i <= cols.len(),
                    table_columns@.len() == i,
                    forall|j: int| 0 <= j < i ==> table_columns@[j] == spec_table_column(
                        #[trigger] cols@[j],
                    ),
                decreases cols.len() - i,
            {
                table_columns.push(
                    TableColumn {
                        header: cols[i].header.clone(),
                        accessor_key: cols[i].accessor_key.clone(),
                    },
                );
                i = i + 1;
            }
            proof {
                assert(table_columns@ =~= cols@.map_values(|col: ColumnDef| spec_table_column(
                    col,
                )));
            }
            card_content.push(
                Component::Table(Table { id: None, columns: table_columns, data: rows }),
            );
        }
        return section_card(section.title, card_content);
    }

    if str_eq(section.section_type.as_str(), "chart") {
        let mut card_content: Vec<Component> = Vec::new();
        if section.data.is_some() && section.x_key.is_some() && section.y_keys.is_some() {
            let kind = match &section.chart_type {
                Some(t) => crate::ui::chart::chart_kind_of(t.as_str()),
                None => crate::ui::chart::chart_kind_of(""),
            };
            proof {
                reveal_strlit("");
                assert(""@ =~= Seq::<char>::empty());
            }
            let data = match section.data {
                Some(data) => data,
                None => Vec::new(),
            };
            let x_key = match section.x_key {
                Some(x_key) => x_key,
                None => String::new(),
            };
            let y_keys = match section.y_keys {
                Some(y_keys) => y_keys,
                None => Vec::new(),
            };
            card_content.push(
                Component::Chart(
                    crate::ui::schema::Chart { id: None, title: None, kind, data, x_key, y_keys },
                ),
            );
        }
        return section_card(section.title, card_content);
    }

    // Unknown section type: a fallback line naming it.
    let mut line = "Unknown section type: ".to_owned();
    line.append(section.section_type.as_str());
    proof {
        assert(line@ =~= "Unknown section type: "@ + section.section_type@);
    }
    let card_content = vec![
        Component::Text(Text { id: None, content: line, variant: TextVariant::Caption }),
    ];
    section_card(section.title, card_content)
}

/// The status indicator for one statistic.
fn status_indicator_of(status: &Option<String>) -> (r: &'static str)
    ensures
        r@ == spec_status_indicator(*status),
{
    let r: &'static str = match status {
        Some(s) => {
            if str_eq(s.as_str(), "operational") || str_eq(s.as_str(), "ok") || str_eq(
                s.as_str(),
                "success",
            ) {
                "\u{1F7E2} "
            } else if str_eq(s.as_str(), "degraded") || str_eq(s.as_str(), "warning") {
                "\u{1F7E1} "
            } else if str_eq(s.as_str(), "down") || str_eq(s.as_str(), "error") || str_eq(
                s.as_str(),
                "outage",
            ) {
                "\u{1F534} "
            } else {
                ""
            }
        },
        None => "",
    };
    proof {
        reveal_strlit("");
        assert(""@ =~= Seq::<char>::empty());
    }
    r
}

/// The alert style for a severity string.
fn alert_variant_of(severity: &Option<String>) -> (r: AlertVariant)
    ensures
        r == spec_alert_variant(*severity),
{
    match severity {
        Some(s) => {
            if str_eq(s.as_str(), "success") {
                AlertVariant::Success
            } else if str_eq(s.as_str(), "warning") {
                AlertVariant::Warning
            } else if str_eq(s.as_str(), "error") {
                AlertVariant::Error
            } else {
                AlertVariant::Info
            }
        },
        None => AlertVariant::Info,
    }
}

/// Tool for rendering dashboard layouts with several sections.
pub struct RenderLayoutTool;

impl RenderLayoutTool {
    pub fn new() -> Self {
        RenderLayoutTool
    }

    /// The tool's name.
    pub fn name(&self) -> (r: &'static str)
        ensures
            r@ == "render_layout"@,
    {
        "render_layout"
    }

    /// Build the response for the given parameters: a title heading, the
    /// description if one was given, then one component per section.
    pub fn render(&self, params: RenderLayoutParams) -> (r: UiResponse)
        ensures
            ({
                let lead: int = if params.description is Some {
                    2
                } else {
                    1
                };
                &&& r.components@.len() == lead + params.sections@.len()
                &&& r.components@[0] == Component::Text(
                    Text { id: None, content: params.title, variant: TextVariant::H2 },
                )
                &&& params.description matches Some(description) ==> r.components@[1]
                    == Component::Text(
                    Text { id: None, content: description, variant: TextVariant::Caption },
                )
                &&& forall|i: int|
                    0 <= i < params.sections@.len() ==> spec_section_component(
                        #[trigger] params.sections@[i],
                        r.components@[lead + i],
                    )
            }),
    {
        let ghost title_g = params.title;
        let ghost desc_g = params.description;
        let mut components: Vec<Component> = Vec::new();
        components.push(
            Component::Text(Text { id: None, content: params.title, variant: TextVariant::H2 }),
        );
        match params.description {
            Some(description) => {
                components.push(
                    Component::Text(
                        Text { id: None, content: description, variant: TextVariant::Caption },
                    ),
                );
            },
            None => {},
        }
        let ghost lead = components@.len() as int;

        let mut sections = params.sections;
        let total = sections.len();
        let ghost all_sections = sections@;
        let mut i: usize = 0;
        proof {
            assert(sections@ =~= all_sections.skip(0));
        }
        while sections.len() > 0
            invariant
                i + sections@.len() == total,
                total == all_sections.len(),
                sections@ == all_sections.skip(i as int),
                components@.len() == lead + i,
                lead == if desc_g is Some {
                    2int
                } else {
                    1int
                },
                components@[0] == Component::Text(
                    Text { id: None, content: title_g, variant: TextVariant::H2 },
                ),
                desc_g matches Some(d) ==> components@[1] == Component::Text(
                    Text { id: None, content: d, variant: TextVariant::Caption },
                ),
                forall|j: int|
                    0 <= j < i ==> spec_section_component(
                        #[trigger] all_sections[j],
                        components@[lead + j],
                    ),
            decreases sections@.len(),
        {
            let section = sections.remove(0);
            proof {
                assert(section == all_sections[i as int]);
                assert(sections@ =~= all_sections.skip(i + 1));
            }
            components.push(build_section_component(section));
            i = i + 1;
        }
        UiResponse::new(components)
    }
}

impl Default for RenderLayoutTool {
    fn default() -> Self {
        Self::new()
    }
}

} // verus!
