//! The fifth version of the dashboard schema.
//!
//! These are plain records: what a stored dashboard holds, field by field.

use vstd::prelude::*;
use crate::dashboards::{FixedDateTime, OrdF64};
use crate::stream::StreamType;

verus! {

/// A dashboard in the fifth schema version: its identity, its owner, its tabs
/// and what its variables and its time range default to.
#[derive(Debug, Clone, PartialEq, Hash)]
pub struct Dashboard {
    pub version: i32,
    pub dashboard_id: String,
    pub title: String,
    pub description: String,
    pub role: String,
    pub owner: String,
    pub created: FixedDateTime,
    pub tabs: Vec<Tab>,
    pub variables: Option<Variables>,
    pub default_datetime_duration: Option<DateTimeOptions>,
    pub updated_at: i64,
}

/// Where a panel sits on the grid, and its size.
#[derive(Debug, Clone, PartialEq, Hash)]
pub struct Layout {
    pub x: i64,
    pub y: i64,
    pub w: i64,
    pub h: i64,
    pub i: i64,
}

/// A tab of a dashboard, with the panels on it.
#[derive(Debug, Clone, PartialEq, Hash)]
pub struct Tab {
    pub tab_id: String,
    pub name: String,
    pub panels: Vec<Panel>,
}

/// A panel: one chart, table or piece of content, with the queries behind it.
#[derive(Debug, Clone, PartialEq, Hash)]
pub struct Panel {
    pub id: String,
    pub typ: String,
    pub title: String,
    pub description: String,
    pub config: PanelConfig,
    pub query_type: String,
    pub queries: Vec<Query>,
    pub layout: Layout,
    pub html_content: Option<String>,
    pub markdown_content: Option<String>,
    pub custom_chart_content: Option<String>,
}

/// A query of a panel, written by hand or built from the chosen fields.
#[derive(Debug, Clone, PartialEq, Hash)]
pub struct Query {
    pub query: Option<String>,
    pub vrl_function_query: Option<String>,
    pub custom_query: bool,
    pub fields: PanelFields,
    pub config: QueryConfig,
}

/// The stream that a query reads, what it puts on each axis, and its filter.
#[derive(Debug, Clone, PartialEq, Hash)]
pub struct PanelFields {
    pub stream: String,
    pub stream_type: StreamType,
    pub x: Vec<AxisItem>,
    pub y: Vec<AxisItem>,
    pub z: Option<Vec<AxisItem>>,
    pub breakdown: Option<Vec<AxisItem>>,
    pub latitude: Option<AxisItem>,
    pub longitude: Option<AxisItem>,
    pub weight: Option<AxisItem>,
    pub name: Option<AxisItem>,
    pub value_for_maps: Option<AxisItem>,
    pub source: Option<AxisItem>,
    pub target: Option<AxisItem>,
    pub value: Option<AxisItem>,
    pub filter: PanelFilter,
}

/// A column put on an axis, with its label and how it is aggregated.
#[derive(Debug, Clone, PartialEq, Hash)]
pub struct AxisItem {
    pub label: String,
    pub alias: String,
    pub column: String,
    pub color: Option<String>,
    pub aggregation_function: Option<AggregationFunc>,
    pub sort_by: Option<String>,
    pub args: Option<Vec<AxisArg>>,
    pub is_derived: Option<bool>,
    pub having_conditions: Option<Vec<HavingConditions>>,
}

/// A condition on an aggregated value.
#[derive(Debug, Clone, PartialEq, Hash)]
pub struct HavingConditions {
    pub value: Option<OrdF64>,
    pub operator: Option<String>,
}

/// An argument of the function applied to an axis item.
#[derive(Debug, Clone, PartialEq, Hash)]
pub struct AxisArg {
    pub value: Option<String>,
}

/// The function by which the values of a column are aggregated.
#[derive(Debug, Clone, Copy, PartialEq, Hash)]
pub enum AggregationFunc {
    Count,
    CountDistinct,
    Histogram,
    Sum,
    Min,
    Max,
    Avg,
    Median,
    P50,
    P90,
    P95,
    P99,
}

/// A filter: one condition, or a group of filters.
#[derive(Debug, PartialEq, Hash)]
pub enum PanelFilter {
    Condition(FilterCondition),
    Group(GroupType),
}

/// A group of filters, joined by one logical operator.
#[derive(Debug, PartialEq, Hash)]
pub struct GroupType {
    pub filter_type: String,
    pub logical_operator: String,
    pub conditions: Vec<PanelFilter>,
}

impl Clone for PanelFilter {
    fn clone(&self) -> (res: PanelFilter) {
        copy_filter(self)
    }
}

impl Clone for GroupType {
    fn clone(&self) -> (res: GroupType) {
        copy_group(self)
    }
}

/// Copies a filter, with the filters below it.
fn copy_filter(filter: &PanelFilter) -> (res: PanelFilter)
    ensures
        res is Group <==> filter is Group,
        res matches PanelFilter::Group(group) ==> group.conditions.len()
            == filter->Group_0.conditions.len(),
    decreases filter,
{
    match filter {
        PanelFilter::Condition(condition) => PanelFilter::Condition(condition.clone()),
        PanelFilter::Group(group) => PanelFilter::Group(copy_group(group)),
    }
}

/// Copies a group, filter by filter, in their order.
fn copy_group(group: &GroupType) -> (res: GroupType)
    ensures
        res.filter_type == group.filter_type,
        res.logical_operator == group.logical_operator,
        res.conditions.len() == group.conditions.len(),
    decreases group,
{
    let mut conditions: Vec<PanelFilter> = Vec::new();
    let mut i: usize = 0;
    while i < group.conditions.len()
        invariant
            i <= group.conditions.len(),
            conditions.len() == i,
        decreases group.conditions.len() - i,
    {
        proof {
            vstd::std_specs::vec::axiom_vec_index_decreases(group.conditions, i as int);
        }
        conditions.push(copy_filter(&group.conditions[i]));
        i += 1;
    }
    GroupType {
        filter_type: group.filter_type.clone(),
        logical_operator: group.logical_operator.clone(),
        conditions,
    }
}

/// The background of a panel.
#[derive(Debug, Clone, PartialEq, Hash)]
pub struct Background {
    pub typ: String,
    pub value: Option<BackgroundValue>,
}

/// The colour of a background.
#[derive(Debug, Clone, PartialEq, Hash)]
pub struct BackgroundValue {
    pub color: String,
}

/// One condition of a filter, on one column.
#[derive(Debug, Clone, PartialEq, Hash)]
pub struct FilterCondition {
    pub typ: String,
    pub values: Vec<String>,
    pub column: String,
    pub operator: Option<String>,
    pub value: Option<String>,
    pub logical_operator: String,
    pub filter_type: String,
}

/// How a panel is drawn.
#[derive(Debug, Clone, PartialEq, Hash)]
pub struct PanelConfig {
    pub show_legends: bool,
    pub legends_position: Option<String>,
    pub unit: Option<String>,
    pub unit_custom: Option<String>,
    pub decimals: Option<OrdF64>,
    pub line_thickness: Option<OrdF64>,
    pub step_value: Option<String>,
    pub top_results: Option<OrdF64>,
    pub y_axis_min: Option<OrdF64>,
    pub y_axis_max: Option<OrdF64>,
    pub top_results_others: Option<bool>,
    pub axis_width: Option<OrdF64>,
    pub axis_border_show: Option<bool>,
    pub label_option: Option<LabelOption>,
    pub show_symbol: Option<bool>,
    pub line_interpolation: Option<LineInterpolation>,
    pub legend_width: Option<LegendWidth>,
    pub base_map: Option<BaseMap>,
    pub map_type: Option<MapType>,
    pub map_view: Option<MapView>,
    pub map_symbol_style: Option<MapSymbolStyle>,
    pub drilldown: Option<Vec<DrillDown>>,
    pub mark_line: Option<Vec<MarkLine>>,
    pub override_config: Option<Vec<OverrideConfig>>,
    pub connect_nulls: Option<bool>,
    pub no_value_replacement: Option<String>,
    pub wrap_table_cells: Option<bool>,
    pub table_transpose: Option<bool>,
    pub table_dynamic_columns: Option<bool>,
    pub mappings: Option<Vec<Mapping>>,
    pub color: Option<ColorCfg>,
    pub background: Option<Background>,
    pub trellis: Option<Trellis>,
}

/// How the series of a panel are coloured.
#[derive(Debug, Clone, PartialEq, Hash)]
pub struct ColorCfg {
    pub mode: Option<String>,
    pub fixed_color: Option<Vec<String>>,
    pub series_by: Option<String>,
}

/// A rule that shows a value, a range or a pattern as a text or in a colour.
#[derive(Debug, Clone, PartialEq, Hash)]
pub struct Mapping {
    pub typee: Option<String>,
    pub value: Option<String>,
    pub from: Option<String>,
    pub to: Option<String>,
    pub pattern: Option<String>,
    pub matchh: Option<String>,
    pub color: Option<String>,
    pub text: Option<String>,
}

/// A link from a panel to another dashboard, to the logs or to a URL.
#[derive(Debug, Clone, PartialEq, Hash)]
pub struct DrillDown {
    pub name: Option<String>,
    pub type_field: Option<String>,
    pub target_blank: Option<bool>,
    pub find_by: Option<String>,
    pub data: Option<DrillDownData>,
}

/// A line drawn across a chart at a value.
#[derive(Debug, Clone, PartialEq, Hash)]
pub struct MarkLine {
    pub name: Option<String>,
    pub typee: Option<String>,
    pub value: Option<String>,
}

/// Settings that replace the panel's own for one field.
#[derive(Debug, Clone, PartialEq, Hash)]
pub struct OverrideConfig {
    pub field: Option<Field>,
    pub config: Option<Vec<Config>>,
}

/// The field that an override applies to.
#[derive(Debug, Clone, PartialEq, Hash)]
pub struct Field {
    pub match_by: String,
    pub value: String,
}

/// One setting of an override.
#[derive(Debug, Clone, PartialEq, Hash)]
pub struct Config {
    pub typee: String,
    pub value: Option<UnitValue>,
}

/// The unit that an override sets.
#[derive(Debug, Clone, PartialEq, Hash)]
pub struct UnitValue {
    pub unit: String,
    pub custom_unit: String,
}

/// Where a drill-down leads, and what it takes along.
#[derive(Debug, Clone, PartialEq, Hash)]
pub struct DrillDownData {
    pub url: Option<String>,
    pub folder: Option<String>,
    pub dashboard: Option<String>,
    pub tab: Option<String>,
    pub pass_all_variables: Option<bool>,
    pub variables: Option<Vec<DrillDownVariables>>,
    pub logs_mode: Option<String>,
    pub logs_query: Option<String>,
}

/// A variable handed on by a drill-down.
#[derive(Debug, Clone, PartialEq, Hash)]
pub struct DrillDownVariables {
    pub name: Option<String>,
    pub value: Option<String>,
}

/// Settings of one query of a panel.
#[derive(Debug, Clone, PartialEq, Hash)]
pub struct QueryConfig {
    pub promql_legend: String,
    pub layer_type: Option<String>,
    pub weight_fixed: Option<OrdF64>,
    pub limit: Option<OrdF64>,
    pub min: Option<OrdF64>,
    pub max: Option<OrdF64>,
    pub time_shift: Option<Vec<TimeShift>>,
}

/// A shift of the time range for which a query is run once more.
#[derive(Debug, Clone, PartialEq, Hash)]
pub struct TimeShift {
    pub off_set: Option<String>,
}

/// The variables of a dashboard.
#[derive(Default, Debug, Clone, PartialEq, Hash)]
pub struct Variables {
    pub list: Vec<VariableList>,
    pub show_dynamic_filters: Option<bool>,
}

/// The time range that a dashboard opens with.
#[derive(Default, Debug, Clone, PartialEq, Hash)]
pub struct DateTimeOptions {
    pub typee: String,
    pub relative_time_period: Option<String>,
    pub start_time: Option<i64>,
    pub end_time: Option<i64>,
}

/// One variable of a dashboard, and where its values come from.
#[derive(Default, Debug, Clone, PartialEq, Hash)]
pub struct VariableList {
    pub type_field: String,
    pub name: String,
    pub label: String,
    pub query_data: Option<QueryData>,
    pub value: Option<String>,
    pub options: Option<Vec<CustomFieldsOption>>,
    pub multi_select: Option<bool>,
    pub hide_on_dashboard: Option<bool>,
    pub select_all_value_for_multi_select: Option<String>,
    pub custom_multi_select_value: Option<Vec<String>>,
    pub escape_single_quotes: Option<bool>,
}

/// The stream and field from which a variable takes its values.
#[derive(Default, Debug, Clone, PartialEq, Hash)]
pub struct QueryData {
    pub stream_type: StreamType,
    pub stream: String,
    pub field: String,
    pub max_record_size: Option<i64>,
    pub filter: Option<Vec<Filters>>,
}

/// A filter on the values that a variable offers.
#[derive(Debug, Clone, PartialEq, Hash)]
pub struct Filters {
    pub name: Option<String>,
    pub operator: Option<String>,
    pub value: String,
}

/// One value that a variable offers.
#[derive(Default, Debug, Clone, PartialEq, Hash)]
pub struct CustomFieldsOption {
    pub label: String,
    pub value: String,
    pub selected: Option<bool>,
}

/// The base map under a map panel.
#[derive(Debug, Clone, PartialEq, Hash)]
pub struct BaseMap {
    pub type_field: Option<String>,
}

/// The kind of map that a map panel draws.
#[derive(Debug, Clone, PartialEq, Hash)]
pub struct MapType {
    pub type_field: Option<String>,
}

/// The part of the map that a map panel shows at first.
#[derive(Debug, Clone, PartialEq, Hash)]
pub struct MapView {
    pub zoom: OrdF64,
    pub lat: OrdF64,
    pub lng: OrdF64,
}

/// How a panel is split into a grid of small charts.
#[derive(Debug, Clone, PartialEq, Hash)]
pub struct Trellis {
    pub layout: Option<String>,
    pub num_of_columns: i64,
    pub group_by_y_axis: Option<bool>,
}

/// The size of the symbols on a map.
#[derive(Debug, Clone, PartialEq, Hash)]
pub struct MapSymbolStyle {
    pub size: String,
    pub size_by_value: Option<SizeByValue>,
    pub size_fixed: OrdF64,
}

/// The range of symbol sizes when the size follows the value.
#[derive(Debug, Clone, PartialEq, Hash)]
pub struct SizeByValue {
    pub min: OrdF64,
    pub max: OrdF64,
}

/// The width of the legend.
#[derive(Debug, Clone, PartialEq, Hash)]
pub struct LegendWidth {
    pub value: Option<OrdF64>,
    pub unit: Option<String>,
}

/// Where the labels of the values stand, and how they are turned.
#[derive(Debug, Clone, PartialEq, Hash)]
pub struct LabelOption {
    pub position: Option<LabelPosition>,
    pub rotate: Option<OrdF64>,
}

/// How the points of a line are joined.
#[derive(Debug, Clone, PartialEq, Hash)]
pub enum LineInterpolation {
    Smooth,
    Linear,
    StepStart,
    StepEnd,
    StepMiddle,
}

/// Where a label stands relative to its value.
#[derive(Debug, Clone, PartialEq, Hash)]
pub enum LabelPosition {
    Top,
    Left,
    Right,
    Bottom,
    Inside,
    InsideLeft,
    InsideRight,
    InsideTop,
    InsideBottom,
    InsideTopLeft,
    InsideBottomLeft,
    InsideTopRight,
    InsideBottomRight,
    Outside,
}

} // verus!
