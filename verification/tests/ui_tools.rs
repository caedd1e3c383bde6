//! Tests of the UI rendering tools.

use std::collections::HashMap;

use adk::ui::chart::{default_chart_type, RenderChartParams, RenderChartTool};
use adk::ui::form::{
    default_field_type, default_submit_action, default_submit_label, FormField, RenderFormParams,
    RenderFormTool,
};
use adk::ui::layout::{DashboardSection, RenderLayoutParams, RenderLayoutTool, StatItem};
use adk::ui::schema::{AlertVariant, ButtonVariant, ChartKind, Component, SelectOption, TextVariant};
use adk::ui::table::{ColumnDef, RenderTableParams, RenderTableTool};

fn row(key: &str, value: i64) -> HashMap<String, serde_json::Value> {
    let mut m = HashMap::new();
    m.insert(key.to_string(), serde_json::Value::from(value));
    m
}

fn empty_section(title: &str, section_type: &str) -> DashboardSection {
    DashboardSection {
        title: title.to_string(),
        section_type: section_type.to_string(),
        stats: None,
        text: None,
        message: None,
        severity: None,
        columns: None,
        rows: None,
        chart_type: None,
        data: None,
        x_key: None,
        y_keys: None,
    }
}

#[test]
fn test_render_chart_kind_mapping() {
    let tool = RenderChartTool::new();
    assert_eq!(tool.name(), "render_chart");
    for (type_str, kind) in [
        ("bar", ChartKind::Bar),
        ("line", ChartKind::Line),
        ("area", ChartKind::Area),
        ("pie", ChartKind::Pie),
        ("mystery", ChartKind::Bar),
    ] {
        let params = RenderChartParams {
            title: Some("Sales".to_string()),
            chart_type: type_str.to_string(),
            data: vec![row("month", 1)],
            x_key: "month".to_string(),
            y_keys: vec!["total".to_string()],
        };
        let response = tool.render(params);
        assert_eq!(response.components.len(), 1);
        match &response.components[0] {
            Component::Chart(chart) => {
                assert_eq!(chart.kind, kind);
                assert_eq!(chart.title, Some("Sales".to_string()));
                assert_eq!(chart.x_key, "month");
                assert_eq!(chart.y_keys, vec!["total".to_string()]);
                assert_eq!(chart.data.len(), 1);
            }
            _ => panic!("expected a chart"),
        }
    }
    assert_eq!(default_chart_type(), "bar");
}

#[test]
fn test_render_form_field_mapping() {
    let tool = RenderFormTool::new();
    assert_eq!(tool.name(), "render_form");
    let params = RenderFormParams {
        title: "Sign up".to_string(),
        description: Some("Create an account".to_string()),
        fields: vec![
            FormField {
                name: "age".to_string(),
                label: "Age".to_string(),
                field_type: "number".to_string(),
                placeholder: None,
                required: true,
                options: vec![],
            },
            FormField {
                name: "color".to_string(),
                label: "Color".to_string(),
                field_type: "select".to_string(),
                placeholder: None,
                required: false,
                options: vec![SelectOption {
                    label: "Red".to_string(),
                    value: "red".to_string(),
                }],
            },
            FormField {
                name: "nick".to_string(),
                label: "Nickname".to_string(),
                field_type: "text".to_string(),
                placeholder: Some("anything".to_string()),
                required: false,
                options: vec![],
            },
        ],
        submit_action: default_submit_action(),
        submit_label: default_submit_label(),
    };
    let response = tool.render(params);
    assert_eq!(response.components.len(), 1);
    match &response.components[0] {
        Component::Card(card) => {
            assert_eq!(card.title, Some("Sign up".to_string()));
            assert_eq!(card.description, Some("Create an account".to_string()));
            assert_eq!(card.content.len(), 4);
            match &card.content[0] {
                Component::NumberInput(input) => {
                    assert_eq!(input.name, "age");
                    assert!(input.required);
                }
                _ => panic!("expected a number input"),
            }
            match &card.content[1] {
                Component::Select(select) => {
                    assert_eq!(select.name, "color");
                    assert_eq!(select.options.len(), 1);
                    assert_eq!(select.options[0].value, "red");
                }
                _ => panic!("expected a select"),
            }
            match &card.content[2] {
                Component::TextInput(input) => {
                    assert_eq!(input.name, "nick");
                    assert_eq!(input.placeholder, Some("anything".to_string()));
                }
                _ => panic!("expected a text input"),
            }
            match &card.content[3] {
                Component::Button(button) => {
                    assert_eq!(button.label, "Submit");
                    assert_eq!(button.action_id, "form_submit");
                    assert_eq!(button.variant, ButtonVariant::Primary);
                    assert!(!button.disabled);
                }
                _ => panic!("expected a button"),
            }
        }
        _ => panic!("expected a card"),
    }
    assert_eq!(default_field_type(), "text");
}

#[test]
fn test_render_table_with_title() {
    let tool = RenderTableTool::new();
    assert_eq!(tool.name(), "render_table");
    let params = RenderTableParams {
        title: Some("People".to_string()),
        columns: vec![ColumnDef {
            header: "Name".to_string(),
            accessor_key: "name".to_string(),
        }],
        data: vec![row("name", 1)],
    };
    let response = tool.render(params);
    assert_eq!(response.components.len(), 2);
    match &response.components[0] {
        Component::Text(text) => {
            assert_eq!(text.content, "People");
            assert_eq!(text.variant, TextVariant::H3);
        }
        _ => panic!("expected a text heading"),
    }
    match &response.components[1] {
        Component::Table(table) => {
            assert_eq!(table.columns.len(), 1);
            assert_eq!(table.columns[0].header, "Name");
            assert_eq!(table.columns[0].accessor_key, "name");
            assert_eq!(table.data.len(), 1);
        }
        _ => panic!("expected a table"),
    }
}

#[test]
fn test_render_table_without_title() {
    let tool = RenderTableTool::new();
    let params = RenderTableParams {
        title: None,
        columns: vec![],
        data: vec![],
    };
    let response = tool.render(params);
    assert_eq!(response.components.len(), 1);
    assert!(matches!(&response.components[0], Component::Table(_)));
}

#[test]
fn test_render_layout_sections() {
    let tool = RenderLayoutTool::new();
    assert_eq!(tool.name(), "render_layout");

    let mut stats_section = empty_section("Status", "stats");
    stats_section.stats = Some(vec![StatItem {
        label: "API".to_string(),
        value: "up".to_string(),
        status: Some("operational".to_string()),
    }]);

    let mut text_section = empty_section("Notes", "text");
    text_section.text = Some("All systems go".to_string());

    let mut alert_section = empty_section("Watch out", "alert");
    alert_section.message = Some("Disk almost full".to_string());
    alert_section.severity = Some("warning".to_string());

    let params = RenderLayoutParams {
        title: "Dashboard".to_string(),
        description: Some("Today".to_string()),
        sections: vec![stats_section, text_section, alert_section],
    };
    let response = tool.render(params);
    assert_eq!(response.components.len(), 5);
    match &response.components[0] {
        Component::Text(text) => {
            assert_eq!(text.content, "Dashboard");
            assert_eq!(text.variant, TextVariant::H2);
        }
        _ => panic!("expected the title"),
    }
    match &response.components[1] {
        Component::Text(text) => {
            assert_eq!(text.content, "Today");
            assert_eq!(text.variant, TextVariant::Caption);
        }
        _ => panic!("expected the description"),
    }
    match &response.components[2] {
        Component::Card(card) => {
            assert_eq!(card.title, Some("Status".to_string()));
            assert_eq!(card.content.len(), 1);
            match &card.content[0] {
                Component::Text(text) => {
                    assert_eq!(text.content, "\u{1F7E2} API: up");
                }
                _ => panic!("expected a stat line"),
            }
        }
        _ => panic!("expected the stats card"),
    }
    match &response.components[3] {
        Component::Card(card) => {
            assert_eq!(card.title, Some("Notes".to_string()));
            match &card.content[0] {
                Component::Text(text) => assert_eq!(text.content, "All systems go"),
                _ => panic!("expected the note text"),
            }
        }
        _ => panic!("expected the text card"),
    }
    match &response.components[4] {
        Component::Alert(alert) => {
            assert_eq!(alert.title, "Watch out");
            assert_eq!(alert.description, Some("Disk almost full".to_string()));
            assert_eq!(alert.variant, AlertVariant::Warning);
        }
        _ => panic!("expected the alert"),
    }
}

#[test]
fn test_render_layout_unknown_and_empty_sections() {
    let tool = RenderLayoutTool::new();
    let params = RenderLayoutParams {
        title: "Odd".to_string(),
        description: None,
        sections: vec![empty_section("Mystery", "hologram"), empty_section("Void", "text")],
    };
    let response = tool.render(params);
    assert_eq!(response.components.len(), 3);
    match &response.components[1] {
        Component::Card(card) => match &card.content[0] {
            Component::Text(text) => {
                assert_eq!(text.content, "Unknown section type: hologram");
                assert_eq!(text.variant, TextVariant::Caption);
            }
            _ => panic!("expected the fallback line"),
        },
        _ => panic!("expected a card"),
    }
    match &response.components[2] {
        Component::Card(card) => match &card.content[0] {
            Component::Text(text) => assert_eq!(text.content, "(No content)"),
            _ => panic!("expected the placeholder"),
        },
        _ => panic!("expected a card"),
    }
}

#[test]
fn test_render_layout_table_and_chart_sections() {
    let tool = RenderLayoutTool::new();
    let mut table_section = empty_section("Data", "table");
    table_section.columns = Some(vec![ColumnDef {
        header: "N".to_string(),
        accessor_key: "n".to_string(),
    }]);
    table_section.rows = Some(vec![row("n", 42)]);

    let mut chart_section = empty_section("Trend", "chart");
    chart_section.chart_type = Some("line".to_string());
    chart_section.data = Some(vec![row("x", 1)]);
    chart_section.x_key = Some("x".to_string());
    chart_section.y_keys = Some(vec!["y".to_string()]);

    let params = RenderLayoutParams {
        title: "Report".to_string(),
        description: None,
        sections: vec![table_section, chart_section],
    };
    let response = tool.render(params);
    assert_eq!(response.components.len(), 3);
    match &response.components[1] {
        Component::Card(card) => match &card.content[0] {
            Component::Table(table) => {
                assert_eq!(table.columns[0].header, "N");
                assert_eq!(table.data.len(), 1);
            }
            _ => panic!("expected the table"),
        },
        _ => panic!("expected a card"),
    }
    match &response.components[2] {
        Component::Card(card) => match &card.content[0] {
            Component::Chart(chart) => {
                assert_eq!(chart.kind, ChartKind::Line);
                assert_eq!(chart.x_key, "x");
            }
            _ => panic!("expected the chart"),
        },
        _ => panic!("expected a card"),
    }
}
