//! The charts of the report: the numbers they show, read from what the
//! device printed, and the data handed to the chart library as JSON.

use vstd::prelude::*;
use vstd::string::*;
use crate::report::json::{
    ints_of, json_list, json_numbers, json_strings, push_number_list, push_string_list,
};
use crate::report::text::views_of;
use crate::report::number::{i32_value, parse_i32};
use crate::report::pattern::{
    captures_of, find_groups, group, group_text, pattern_compiles, Found, PatternError,
};

verus! {

/// The pattern that finds the size of the data partition and how much of
/// it is used.
pub const STORAGE_PATTERN: &'static str = r"/data\s+(\d+)\s+(\d+)";

/// The pattern that finds the charge of the battery.
pub const BATTERY_PATTERN: &'static str = r"level: (\d+)";

/// The pattern that finds the size of the memory and how much of it is free.
pub const MEMORY_PATTERN: &'static str = r"MemTotal:\s+(\d+).*?MemFree:\s+(\d+)";

/// The data of a chart of shares: one value, one label and one colour for
/// each share.
#[derive(Clone, Debug, PartialEq, Eq)]
pub struct DoughnutData {
    /// The names of the shares.
    pub labels: Vec<String>,
    /// The sizes of the shares.
    pub values: Vec<i64>,
    /// The colours of the shares.
    pub colors: Vec<String>,
}

/// The data of a chart of shares by its mathematical content.
pub struct DoughnutView {
    pub labels: Seq<Seq<char>>,
    pub values: Seq<int>,
    pub colors: Seq<Seq<char>>,
}

impl View for DoughnutData {
    type V = DoughnutView;

    open spec fn view(&self) -> DoughnutView {
        DoughnutView {
            labels: views_of(self.labels@),
            values: ints_of(self.values@),
            colors: views_of(self.colors@),
        }
    }
}

/// The two texts as a list.
fn pair(first: &str, second: &str) -> (texts: Vec<String>)
    ensures
        views_of(texts@) == seq![first@, second@],
{
    let mut texts: Vec<String> = Vec::new();
    texts.push(String::from_str(first));
    texts.push(String::from_str(second));
    assert(views_of(texts@) =~= seq![first@, second@]);
    texts
}

/// The number that a captured text writes; 0 where nothing was captured
/// or the text writes no number of 32 bits.
pub open spec fn count_of(text: Option<Seq<char>>) -> int {
    match text {
        Some(digits) => match i32_value(digits) {
            Some(value) => value,
            None => 0,
        },
        None => 0,
    }
}

/// The number that a captured text writes, or 0.
pub fn number_or_zero(text: Option<&String>) -> (number: i64)
    ensures
        number == count_of(text.deep_view()),
        i32::MIN <= number <= i32::MAX,
{
    match text {
        Some(digits) => match parse_i32(digits.as_str()) {
            Some(value) => value as i64,
            None => 0,
        },
        None => 0,
    }
}

/// The chart of the storage: what is used of the data partition and what is
/// free, from what the storage pattern found.
pub open spec fn storage_view(found: Option<Seq<Option<Seq<char>>>>) -> DoughnutView {
    DoughnutView {
        labels: seq!["Used"@, "Free"@],
        values: seq![
            count_of(group_text(found, 2)),
            count_of(group_text(found, 1)) - count_of(group_text(found, 2)),
        ],
        colors: seq!["#FF6384"@, "#36A2EB"@],
    }
}

/// The chart of the storage: what is used of the data partition and what is
/// free, from what the storage pattern found.
pub fn storage_chart(found: &Found) -> (chart: DoughnutData)
    ensures
        chart@ == storage_view(found.deep_view()),
{
    let total = number_or_zero(group(found, 1));
    let used = number_or_zero(group(found, 2));
    let mut values: Vec<i64> = Vec::new();
    values.push(used);
    values.push(total - used);
    let chart = DoughnutData {
        labels: pair("Used", "Free"),
        values,
        colors: pair("#FF6384", "#36A2EB"),
    };
    assert(chart@.values =~= storage_view(found.deep_view()).values);
    chart
}

/// Reads the chart of the storage from what `df` printed.
pub fn parse_storage_info(storage_info: &str) -> (chart: Result<DoughnutData, PatternError>)
    ensures
        chart is Ok <==> pattern_compiles(STORAGE_PATTERN@),
        chart matches Ok(data) ==> data@ == storage_view(captures_of(STORAGE_PATTERN@, storage_info@)),
{
    match find_groups(STORAGE_PATTERN, storage_info) {
        Ok(found) => Ok(storage_chart(&found)),
        Err(refused) => Err(refused),
    }
}

/// The chart of the battery: its charge and what is missing to a hundred,
/// from what the battery pattern found.
pub open spec fn battery_view(found: Option<Seq<Option<Seq<char>>>>) -> DoughnutView {
    DoughnutView {
        labels: seq!["Battery"@, "Remaining"@],
        values: seq![
            count_of(group_text(found, 1)),
            100 - count_of(group_text(found, 1)),
        ],
        colors: seq!["#FFCE56"@, "#E7E9ED"@],
    }
}

/// The chart of the battery: its charge and what is missing to a hundred,
/// from what the battery pattern found.
pub fn battery_chart(found: &Found) -> (chart: DoughnutData)
    ensures
        chart@ == battery_view(found.deep_view()),
{
    let level = number_or_zero(group(found, 1));
    let mut values: Vec<i64> = Vec::new();
    values.push(level);
    values.push(100 - level);
    let chart = DoughnutData {
        labels: pair("Battery", "Remaining"),
        values,
        colors: pair("#FFCE56", "#E7E9ED"),
    };
    assert(chart@.values =~= battery_view(found.deep_view()).values);
    chart
}

/// Reads the chart of the battery from what the device printed.
pub fn parse_battery_info(device_info: &str) -> (chart: Result<DoughnutData, PatternError>)
    ensures
        chart is Ok <==> pattern_compiles(BATTERY_PATTERN@),
        chart matches Ok(data) ==> data@ == battery_view(captures_of(BATTERY_PATTERN@, device_info@)),
{
    match find_groups(BATTERY_PATTERN, device_info) {
        Ok(found) => Ok(battery_chart(&found)),
        Err(refused) => Err(refused),
    }
}

/// The chart of the memory: what is used and what is free, from what the
/// memory pattern found.
pub open spec fn memory_view(found: Option<Seq<Option<Seq<char>>>>) -> DoughnutView {
    DoughnutView {
        labels: seq!["Used"@, "Free"@],
        values: seq![
            count_of(group_text(found, 1)) - count_of(group_text(found, 2)),
            count_of(group_text(found, 2)),
        ],
        colors: seq!["#4BC0C0"@, "#9966FF"@],
    }
}

/// The chart of the memory: what is used and what is free, from what the
/// memory pattern found.
pub fn memory_chart(found: &Found) -> (chart: DoughnutData)
    ensures
        chart@ == memory_view(found.deep_view()),
{
    let total = number_or_zero(group(found, 1));
    let free = number_or_zero(group(found, 2));
    let mut values: Vec<i64> = Vec::new();
    values.push(total - free);
    values.push(free);
    let chart = DoughnutData {
        labels: pair("Used", "Free"),
        values,
        colors: pair("#4BC0C0", "#9966FF"),
    };
    assert(chart@.values =~= memory_view(found.deep_view()).values);
    chart
}

/// Reads the chart of the memory from what the device printed.
pub fn parse_memory_info(device_info: &str) -> (chart: Result<DoughnutData, PatternError>)
    ensures
        chart is Ok <==> pattern_compiles(MEMORY_PATTERN@),
        chart matches Ok(data) ==> data@ == memory_view(captures_of(MEMORY_PATTERN@, device_info@)),
{
    match find_groups(MEMORY_PATTERN, device_info) {
        Ok(found) => Ok(memory_chart(&found)),
        Err(refused) => Err(refused),
    }
}

/// The data of a chart of shares as JSON, members in the order of their
/// names.
pub open spec fn doughnut_json(data: DoughnutView) -> Seq<char> {
    "{\"datasets\":[{\"backgroundColor\":"@ + json_list(json_strings(data.colors))
        + ",\"data\":"@ + json_list(json_numbers(data.values)) + "}],\"labels\":"@ + json_list(
        json_strings(data.labels),
    ) + "}"@
}

/// Writes the data of a chart of shares as JSON.
pub fn render_doughnut(data: &DoughnutData) -> (json: String)
    ensures
        json@ == doughnut_json(data@),
{
    let mut json = String::from_str("{\"datasets\":[{\"backgroundColor\":");
    push_string_list(&mut json, &data.colors);
    json.append(",\"data\":");
    push_number_list(&mut json, &data.values);
    json.append("}],\"labels\":");
    push_string_list(&mut json, &data.labels);
    json.append("}");
    json
}

} // verus!
