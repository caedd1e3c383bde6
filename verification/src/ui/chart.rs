//! The chart rendering tool: turns chart parameters into a one-component
//! response.

use std::collections::HashMap;

use vstd::prelude::*;

use crate::strings::str_eq;
use crate::ui::schema::{Chart, ChartKind, Component, UiResponse};

verus! {

/// Parameters for the chart rendering tool.
pub struct RenderChartParams {
    /// Chart title.
    pub title: Option<String>,
    /// Chart type: `bar`, `line`, `area` or `pie`; anything else renders as
    /// a bar chart.
    pub chart_type: String,
    /// Data points: one keyed row per point.
    pub data: Vec<HashMap<String, serde_json::Value>>,
    /// Key for x-axis values.
    pub x_key: String,
    /// Keys for y-axis values (several for a multi-series chart).
    pub y_keys: Vec<String>,
}

/// The chart type used when the parameters name none.
pub fn default_chart_type() -> (r: String)
    ensures
        r@ == "bar"@,
{
    "bar".to_owned()
}

/// The chart kind a type string selects: unknown strings fall back to a bar
/// chart.
pub open spec fn spec_chart_kind(chart_type: Seq<char>) -> ChartKind {
    if chart_type == "line"@ {
        ChartKind::Line
    } else if chart_type == "area"@ {
        ChartKind::Area
    } else if chart_type == "pie"@ {
        ChartKind::Pie
    } else {
        ChartKind::Bar
    }
}

/// The chart kind the given type string selects.
pub fn chart_kind_of(chart_type: &str) -> (r: ChartKind)
    ensures
        r == spec_chart_kind(chart_type@),
{
    if str_eq(chart_type, "line") {
        ChartKind::Line
    } else if str_eq(chart_type, "area") {
        ChartKind::Area
    } else if str_eq(chart_type, "pie") {
        ChartKind::Pie
    } else {
        ChartKind::Bar
    }
}

/// Tool for rendering charts and visualizations.
pub struct RenderChartTool;

impl RenderChartTool {
    pub fn new() -> Self {
        RenderChartTool
    }

    /// The tool's name.
    pub fn name(&self) -> (r: &'static str)
        ensures
            r@ == "render_chart"@,
    {
        "render_chart"
    }

    /// Build the response for the given parameters: exactly one chart,
    /// carrying the data and keys through unchanged, with the kind the type
    /// string selects.
    pub fn render(&self, params: RenderChartParams) -> (r: UiResponse)
        ensures
            r.components@.len() == 1,
            r.components@[0] == Component::Chart(
                Chart {
                    id: None,
                    title: params.title,
                    kind: spec_chart_kind(params.chart_type@),
                    data: params.data,
                    x_key: params.x_key,
                    y_keys: params.y_keys,
                },
            ),
    {
        let kind = chart_kind_of(params.chart_type.as_str());
        let components = vec![
            Component::Chart(
                Chart {
                    id: None,
                    title: params.title,
                    kind,
                    data: params.data,
                    x_key: params.x_key,
                    y_keys: params.y_keys,
                },
            ),
        ];
        UiResponse::new(components)
    }
}

impl Default for RenderChartTool {
    fn default() -> Self {
        Self::new()
    }
}

} // verus!
