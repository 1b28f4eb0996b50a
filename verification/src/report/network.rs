//! The chart of the network: for each line of what the device printed
//! that holds two counters, one point for the bytes received and one for
//! the bytes sent.

use vstd::prelude::*;
use vstd::string::*;
use crate::report::json::{joined, json_list, json_string, push_json_string};
use crate::report::number::{nat_decimal, parse_u64, push_u64, u64_value};
use crate::report::pattern::{
    captures_in_each, find_groups_in_each, found_views, group, group_text, pattern_compiles,
    text_views, Found, PatternError,
};
use crate::report::text::{pad_left, padded_left, split_lines, text_lines, views_of};

verus! {

/// The pattern that finds two counters in a line.
pub const NETWORK_PATTERN: &'static str = r"(\d+) +(\d+)";

/// One point of a chart over time.
#[derive(Clone, Debug, PartialEq, Eq)]
pub struct SeriesPoint {
    /// The moment of the point, as the chart library reads it.
    pub x: String,
    /// The value at that moment.
    pub y: u64,
}

/// A point by its mathematical content.
pub struct PointView {
    pub x: Seq<char>,
    pub y: int,
}

impl View for SeriesPoint {
    type V = PointView;

    open spec fn view(&self) -> PointView {
        PointView { x: self.x@, y: self.y as int }
    }
}

/// The points by their mathematical content.
pub open spec fn point_views(points: Seq<SeriesPoint>) -> Seq<PointView> {
    Seq::new(points.len(), |i: int| points[i]@)
}

/// The data of the chart of the network.
#[derive(Clone, Debug, PartialEq, Eq)]
pub struct LineData {
    /// The bytes received, line by line.
    pub received: Vec<SeriesPoint>,
    /// The bytes sent, line by line.
    pub transmitted: Vec<SeriesPoint>,
}

/// The data of the chart of the network by its mathematical content.
pub struct LineView {
    pub received: Seq<PointView>,
    pub transmitted: Seq<PointView>,
}

impl View for LineData {
    type V = LineView;

    open spec fn view(&self) -> LineView {
        LineView {
            received: point_views(self.received@),
            transmitted: point_views(self.transmitted@),
        }
    }
}

/// The chart of the network for what the pattern found in each line.
pub open spec fn network_view(found: Seq<Option<Seq<Option<Seq<char>>>>>) -> LineView {
    LineView { received: series_points(found, 1), transmitted: series_points(found, 2) }
}

/// The moment that stands for line `index`: that many minutes into a
/// fixed day, written with at least two digits.
pub open spec fn minute_mark(index: nat) -> Seq<char> {
    "2023-01-01T00:"@ + padded_left(nat_decimal(index), 2, '0') + ":00"@
}

/// The moment that stands for line `index`.
pub fn minute_of(index: usize) -> (mark: String)
    ensures
        mark@ == minute_mark(index as nat),
{
    let mut digits = String::new();
    push_u64(&mut digits, index as u64);
    let padded = pad_left(digits.as_str(), 2, '0');
    let mut mark = String::from_str("2023-01-01T00:");
    mark.append(padded.as_str());
    mark.append(":00");
    mark
}

/// The number that a captured text writes; 0 where nothing was captured
/// or the text writes no number of 64 bits without a sign.
pub open spec fn counter_of(text: Option<Seq<char>>) -> int {
    match text {
        Some(digits) => match u64_value(digits) {
            Some(value) => value,
            None => 0,
        },
        None => 0,
    }
}

/// The number that a captured text writes, or 0.
pub fn counter_or_zero(text: Option<&String>) -> (number: u64)
    ensures
        number == counter_of(text.deep_view()),
{
    match text {
        Some(digits) => match parse_u64(digits.as_str()) {
            Some(value) => value,
            None => 0,
        },
        None => 0,
    }
}

/// The points of one series: for each line in which the pattern matched,
/// in order, the moment of that line and the counter that group `group`
/// captured. A line without a match has no point, but counts as a line.
pub open spec fn series_points(
    found: Seq<Option<Seq<Option<Seq<char>>>>>,
    group: int,
) -> Seq<PointView>
    decreases found.len(),
{
    if found.len() == 0 {
        Seq::empty()
    } else if found.last() is Some {
        series_points(found.drop_last(), group).push(
            PointView {
                x: minute_mark((found.len() - 1) as nat),
                y: counter_of(group_text(found.last(), group)),
            },
        )
    } else {
        series_points(found.drop_last(), group)
    }
}

/// The chart of the network, from what the network pattern found in each
/// line.
pub fn network_chart(found: &Vec<Found>) -> (chart: LineData)
    ensures
        chart@ == network_view(found_views(found@)),
{
    let mut received: Vec<SeriesPoint> = Vec::new();
    let mut transmitted: Vec<SeriesPoint> = Vec::new();
    let ghost all = found_views(found@);
    let mut at: usize = 0;
    assert(all.take(0) == Seq::<Option<Seq<Option<Seq<char>>>>>::empty());
    while at < found.len()
        invariant
            at <= found@.len(),
            all == found_views(found@),
            point_views(received@) == series_points(all.take(at as int), 1),
            point_views(transmitted@) == series_points(all.take(at as int), 2),
        decreases found@.len() - at,
    {
        let ghost longer = all.take(at as int + 1);
        proof {
            assert(longer.drop_last() == all.take(at as int));
            assert(longer.last() == found@[at as int].deep_view());
        }
        if found[at].is_some() {
            let ghost before_received = point_views(received@);
            let ghost before_transmitted = point_views(transmitted@);
            let rx = SeriesPoint { x: minute_of(at), y: counter_or_zero(group(&found[at], 1)) };
            let tx = SeriesPoint { x: minute_of(at), y: counter_or_zero(group(&found[at], 2)) };
            received.push(rx);
            transmitted.push(tx);
            assert(point_views(received@) == before_received.push(rx@));
            assert(point_views(transmitted@) == before_transmitted.push(tx@));
        }
        at += 1;
    }
    assert(all.take(at as int) == all);
    LineData { received, transmitted }
}

/// Reads the chart of the network from what the device printed, line by
/// line.
pub fn parse_network_info(network_info: &str) -> (chart: Result<LineData, PatternError>)
    ensures
        chart is Ok <==> pattern_compiles(NETWORK_PATTERN@),
        chart matches Ok(data) ==> data@ == network_view(
            captures_in_each(NETWORK_PATTERN@, text_lines(network_info@)),
        ),
{
    let lines = split_lines(network_info);
    let mut texts: Vec<&str> = Vec::new();
    let mut at: usize = 0;
    while at < lines.len()
        invariant
            at <= lines@.len(),
            text_views(texts@) == views_of(lines@).take(at as int),
        decreases lines@.len() - at,
    {
        let ghost before = text_views(texts@);
        texts.push(lines[at].as_str());
        assert(text_views(texts@) == before.push(lines@[at as int]@));
        at += 1;
    }
    assert(views_of(lines@).take(at as int) == views_of(lines@));
    match find_groups_in_each(NETWORK_PATTERN, &texts) {
        Ok(found) => Ok(network_chart(&found)),
        Err(refused) => Err(refused),
    }
}

/// One point as JSON.
pub open spec fn point_json(point: PointView) -> Seq<char> {
    "{\"x\":"@ + json_string(point.x) + ",\"y\":"@ + nat_decimal(point.y as nat) + "}"@
}

/// Each point as JSON.
pub open spec fn point_jsons(points: Seq<PointView>) -> Seq<Seq<char>> {
    Seq::new(points.len(), |i: int| point_json(points[i]))
}

/// One series as JSON, members in the order of their names.
pub open spec fn series_json(label: Seq<char>, color: Seq<char>, points: Seq<PointView>) -> Seq<
    char,
> {
    "{\"borderColor\":"@ + json_string(color) + ",\"data\":"@ + json_list(point_jsons(points))
        + ",\"fill\":false,\"label\":"@ + json_string(label) + "}"@
}

/// The data of the chart of the network as JSON.
pub open spec fn line_data_json(data: LineView) -> Seq<char> {
    "{\"datasets\":["@ + series_json("Received Bytes"@, "#36A2EB"@, data.received) + ","@
        + series_json("Transmitted Bytes"@, "#FF6384"@, data.transmitted) + "]}"@
}

/// Appends one series, written as JSON, to `out`.
fn push_series(out: &mut String, label: &str, color: &str, points: &Vec<SeriesPoint>)
    ensures
        final(out)@ == old(out)@ + series_json(label@, color@, point_views(points@)),
{
    let ghost items = point_jsons(point_views(points@));
    out.append("{\"borderColor\":");
    push_json_string(out, color);
    out.append(",\"data\":");
    let ghost head = out@;
    out.append("[");
    let mut at: usize = 0;
    while at < points.len()
        invariant
            at <= points@.len(),
            items == point_jsons(point_views(points@)),
            out@ == head + "["@ + joined(items.take(at as int), ","@),
        decreases points@.len() - at,
    {
        if at > 0 {
            out.append(",");
        }
        out.append("{\"x\":");
        push_json_string(out, points[at].x.as_str());
        out.append(",\"y\":");
        push_u64(out, points[at].y);
        out.append("}");
        proof {
            let done = items.take(at as int + 1);
            assert(done.drop_last() == items.take(at as int));
            assert(done.last() == point_json(points@[at as int]@));
        }
        at += 1;
    }
    proof {
        assert(items.take(at as int) == items);
    }
    out.append("]");
    out.append(",\"fill\":false,\"label\":");
    push_json_string(out, label);
    out.append("}");
    assert(out@ =~= old(out)@ + series_json(label@, color@, point_views(points@)));
}

/// Writes the data of the chart of the network as JSON.
pub fn render_line_data(data: &LineData) -> (json: String)
    ensures
        json@ == line_data_json(data@),
{
    let mut json = String::from_str("{\"datasets\":[");
    push_series(&mut json, "Received Bytes", "#36A2EB", &data.received);
    json.append(",");
    push_series(&mut json, "Transmitted Bytes", "#FF6384", &data.transmitted);
    json.append("]}");
    json
}

} // verus!
