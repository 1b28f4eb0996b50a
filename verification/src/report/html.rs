//! The parts of the HTML page.

use vstd::prelude::*;
use vstd::string::*;
use crate::report::pattern::{captures_of, extract_info, info_text, pattern_compiles, PatternError};
use crate::report::text::{
    chars_of, find_char, line_at, position, push_chars, text_lines, trim_bounds, trimmed,
};

verus! {

/// The table row of one line of a section: the text before the first colon
/// as the property and the text behind it as the value, each without the
/// white space around it. A line without a colon has no row.
pub open spec fn table_row(line: Seq<char>) -> Seq<char> {
    if position(line, ':') < line.len() {
        "<tr><td>"@ + trimmed(line.take(position(line, ':'))) + "</td><td>"@ + trimmed(
            line.skip(position(line, ':') + 1),
        ) + "</td></tr>\n"@
    } else {
        Seq::empty()
    }
}

/// The table rows of `lines`, in order.
pub open spec fn table_rows(lines: Seq<Seq<char>>) -> Seq<char>
    decreases lines.len(),
{
    if lines.len() == 0 {
        Seq::empty()
    } else {
        table_row(lines.first()) + table_rows(lines.drop_first())
    }
}

/// A section of the page that can be folded: a button with the title, and
/// under it a table with one row for each line of `content` that holds a
/// colon.
pub open spec fn collapsible_section(title: Seq<char>, content: Seq<char>) -> Seq<char> {
    "<button class=\"collapsible\">"@ + title + "</button>\n"@
        + "<div class=\"content\">\n<table>\n"@ + "<tr><th>Property</th><th>Value</th></tr>\n"@
        + table_rows(text_lines(content)) + "</table>\n</div>\n"@
}

/// Appends the table row of the line `chars[from..to]` to `html`.
fn push_table_row(html: &mut String, chars: &Vec<char>, from: usize, to: usize)
    requires
        from <= to <= chars@.len(),
    ensures
        final(html)@ == old(html)@ + table_row(chars@.subrange(from as int, to as int)),
{
    let ghost line = chars@.subrange(from as int, to as int);
    let colon = find_char(chars, from, to, ':');
    if colon < to {
        let key = trim_bounds(chars, from, colon);
        let value = trim_bounds(chars, colon + 1, to);
        proof {
            assert(line.take(colon - from) == chars@.subrange(from as int, colon as int));
            assert(line.skip(colon - from + 1) == chars@.subrange(colon as int + 1, to as int));
        }
        html.append("<tr><td>");
        push_chars(html, chars, key.0, key.1);
        html.append("</td><td>");
        push_chars(html, chars, value.0, value.1);
        html.append("</td></tr>\n");
    } else {
        assert(html@ + Seq::<char>::empty() == html@);
    }
}

/// Appends to `html` the table rows of all lines of `chars`.
fn push_table_rows(html: &mut String, chars: &Vec<char>)
    ensures
        final(html)@ == old(html)@ + table_rows(text_lines(chars@)),
{
    let ghost target = old(html)@ + table_rows(text_lines(chars@));
    let mut at: usize = 0;
    assert(chars@.skip(0) == chars@);
    while at < chars.len()
        invariant
            at <= chars@.len(),
            html@ + table_rows(text_lines(chars@.skip(at as int))) == target,
        decreases chars@.len() - at,
    {
        let ghost before = html@;
        let line = line_at(chars, at);
        push_table_row(html, chars, at, line.end);
        proof {
            let row = table_row(chars@.subrange(at as int, line.end as int));
            let lines = text_lines(chars@.skip(at as int));
            let rest = text_lines(chars@.skip(line.next as int));
            assert(lines.first() == chars@.subrange(at as int, line.end as int));
            assert(lines.drop_first() == rest);
            assert((before + row) + table_rows(rest) == before + (row + table_rows(rest)));
        }
        at = line.next;
    }
    proof {
        assert(chars@.skip(at as int) == Seq::<char>::empty());
        assert(text_lines(Seq::<char>::empty()) == Seq::<Seq<char>>::empty());
        assert(html@ + Seq::<char>::empty() == html@);
    }
}

/// Appends a section that can be folded to the page: a button with the
/// title, and a table of the lines of `content` that hold a colon.
pub fn add_collapsible_section(html: &mut String, title: &str, content: &str)
    ensures
        final(html)@ == old(html)@ + collapsible_section(title@, content@),
{
    let chars = chars_of(content);
    html.append("<button class=\"collapsible\">");
    html.append(title);
    html.append("</button>\n");
    html.append("<div class=\"content\">\n<table>\n");
    html.append("<tr><th>Property</th><th>Value</th></tr>\n");
    push_table_rows(html, &chars);
    html.append("</table>\n</div>\n");
    assert(html@ =~= old(html)@ + collapsible_section(title@, content@));
}

/// The pattern that finds the model of the device among its properties.
pub const MODEL_PATTERN: &'static str = r"ro.product.model\s*:\s*(.+)";

/// The pattern that finds the Android version among the properties.
pub const ANDROID_VERSION_PATTERN: &'static str = r"ro.build.version.release\s*:\s*(.+)";

/// The pattern that finds the size of the memory, in kilobytes.
pub const TOTAL_RAM_PATTERN: &'static str = r"MemTotal:\s*(\d+)";

/// The pattern that finds the size of the data partition.
pub const TOTAL_STORAGE_PATTERN: &'static str = r"/data\s+(\d+)";

/// The card with the four quick facts about the device.
pub open spec fn quick_stats(
    model: Seq<char>,
    android_version: Seq<char>,
    total_ram: Seq<char>,
    total_storage: Seq<char>,
) -> Seq<char> {
    "<div class=\"card\">\n<h2>Quick Stats</h2>\n<ul>\n"@ + "<li>Model: "@ + model + "</li>\n"@
        + "<li>Android Version: "@ + android_version + "</li>\n"@ + "<li>Total RAM: "@ + total_ram
        + " KB</li>\n"@ + "<li>Total Storage: "@ + total_storage + " KB</li>\n"@
        + "</ul>\n</div>\n"@
}

/// Appends the card with the four quick facts to the page.
pub fn push_quick_stats(
    html: &mut String,
    model: &str,
    android_version: &str,
    total_ram: &str,
    total_storage: &str,
)
    ensures
        final(html)@ == old(html)@ + quick_stats(
            model@,
            android_version@,
            total_ram@,
            total_storage@,
        ),
{
    html.append("<div class=\"card\">\n<h2>Quick Stats</h2>\n<ul>\n");
    html.append("<li>Model: ");
    html.append(model);
    html.append("</li>\n");
    html.append("<li>Android Version: ");
    html.append(android_version);
    html.append("</li>\n");
    html.append("<li>Total RAM: ");
    html.append(total_ram);
    html.append(" KB</li>\n");
    html.append("<li>Total Storage: ");
    html.append(total_storage);
    html.append(" KB</li>\n");
    html.append("</ul>\n</div>\n");
    assert(html@ =~= old(html)@ + quick_stats(
        model@,
        android_version@,
        total_ram@,
        total_storage@,
    ));
}

/// Whether the `regex` crate accepts the four patterns of the quick facts.
pub open spec fn quick_stats_patterns_compile() -> bool {
    &&& pattern_compiles(MODEL_PATTERN@)
    &&& pattern_compiles(ANDROID_VERSION_PATTERN@)
    &&& pattern_compiles(TOTAL_RAM_PATTERN@)
    &&& pattern_compiles(TOTAL_STORAGE_PATTERN@)
}

/// Appends the card with the quick facts to the page: model, Android
/// version and memory size looked up in `device_info`, and the size of the
/// data partition looked up in `storage_info`. A fact that is not found
/// shows as `N/A`. The page is left as it was if a pattern is refused.
pub fn add_quick_stats(html: &mut String, device_info: &str, storage_info: &str) -> (done: Result<
    (),
    PatternError,
>)
    ensures
        done is Ok <==> quick_stats_patterns_compile(),
        done is Ok ==> final(html)@ == old(html)@ + quick_stats(
            info_text(captures_of(MODEL_PATTERN@, device_info@)),
            info_text(captures_of(ANDROID_VERSION_PATTERN@, device_info@)),
            info_text(captures_of(TOTAL_RAM_PATTERN@, device_info@)),
            info_text(captures_of(TOTAL_STORAGE_PATTERN@, storage_info@)),
        ),
        done is Err ==> final(html)@ == old(html)@,
{
    let model = match extract_info(device_info, MODEL_PATTERN) {
        Ok(text) => text,
        Err(refused) => { return Err(refused); },
    };
    let android_version = match extract_info(device_info, ANDROID_VERSION_PATTERN) {
        Ok(text) => text,
        Err(refused) => { return Err(refused); },
    };
    let total_ram = match extract_info(device_info, TOTAL_RAM_PATTERN) {
        Ok(text) => text,
        Err(refused) => { return Err(refused); },
    };
    let total_storage = match extract_info(storage_info, TOTAL_STORAGE_PATTERN) {
        Ok(text) => text,
        Err(refused) => { return Err(refused); },
    };
    push_quick_stats(
        html,
        model.as_str(),
        android_version.as_str(),
        total_ram.as_str(),
        total_storage.as_str(),
    );
    Ok(())
}

/// The card of a chart, up to its title.
pub const CARD_HEAD: &'static str = "<div class=\"card\">\n<h2>";

/// The card of a chart, between its title and the name of its canvas.
pub const CARD_CANVAS: &'static str = "</h2>\n<div class=\"chart\"><canvas id=\"";

/// The card of a chart, behind the name of its canvas.
pub const CARD_TAIL: &'static str = "\"></canvas></div>\n</div>\n";

/// The script of a chart, up to the name of its canvas.
pub const SCRIPT_HEAD: &'static str = "\n        new Chart(document.getElementById('";

/// The script of a chart of shares, between the name of its canvas and
/// its data.
pub const DOUGHNUT_TYPE: &'static str = "').getContext('2d'), {\n            type: 'doughnut',\n            data: ";

/// The script of a chart, between its data and its title.
pub const SCRIPT_OPTIONS: &'static str = ",\n            options: {\n                responsive: true,\n                plugins: {\n                    legend: {\n                        position: 'top',\n                    },\n                    title: {\n                        display: true,\n                        text: '";

/// The end of the script of a chart of shares.
pub const DOUGHNUT_TAIL: &'static str = "'\n                    }\n                }\n            }\n        });\n    ";

/// The script of a chart over time, between the name of its canvas and
/// its data.
pub const LINE_TYPE: &'static str = "').getContext('2d'), {\n            type: 'line',\n            data: ";

/// The end of the script of a chart over time, with its scales.
pub const LINE_TAIL: &'static str = "'\n                    }\n                },\n                scales: {\n                    x: {\n                        type: 'time',\n                        time: {\n                            unit: 'minute'\n                        }\n                    },\n                    y: {\n                        beginAtZero: true\n                    }\n                }\n            }\n        });\n    ";

/// The card that shows a chart: its title and the canvas it is drawn on.
pub open spec fn chart_card(chart_id: Seq<char>, title: Seq<char>) -> Seq<char> {
    CARD_HEAD@ + title + CARD_CANVAS@ + chart_id + CARD_TAIL@
}

/// A chart of shares: its card, and the script that draws `data` on the
/// canvas of the card.
pub open spec fn doughnut_chart(chart_id: Seq<char>, title: Seq<char>, data: Seq<char>) -> Seq<
    char,
> {
    chart_card(chart_id, title) + "<script>\n"@ + SCRIPT_HEAD@ + chart_id + DOUGHNUT_TYPE@ + data
        + SCRIPT_OPTIONS@ + title + DOUGHNUT_TAIL@ + "</script>\n"@
}

/// A chart over time: its card, and the script that draws `data` on the
/// canvas of the card.
pub open spec fn line_chart(chart_id: Seq<char>, title: Seq<char>, data: Seq<char>) -> Seq<char> {
    chart_card(chart_id, title) + "<script>\n"@ + SCRIPT_HEAD@ + chart_id + LINE_TYPE@ + data
        + SCRIPT_OPTIONS@ + title + LINE_TAIL@ + "</script>\n"@
}

/// Appends the card of a chart to the page.
fn push_chart_card(html: &mut String, chart_id: &str, title: &str)
    ensures
        final(html)@ == old(html)@ + chart_card(chart_id@, title@),
{
    html.append(CARD_HEAD);
    html.append(title);
    html.append(CARD_CANVAS);
    html.append(chart_id);
    html.append(CARD_TAIL);
    assert(html@ =~= old(html)@ + chart_card(chart_id@, title@));
}

/// Appends a chart of shares to the page. `data` is the data of the
/// chart, written as JSON.
pub fn add_chart(html: &mut String, chart_id: &str, title: &str, data: &str)
    ensures
        final(html)@ == old(html)@ + doughnut_chart(chart_id@, title@, data@),
{
    push_chart_card(html, chart_id, title);
    html.append("<script>\n");
    html.append(SCRIPT_HEAD);
    html.append(chart_id);
    html.append(DOUGHNUT_TYPE);
    html.append(data);
    html.append(SCRIPT_OPTIONS);
    html.append(title);
    html.append(DOUGHNUT_TAIL);
    html.append("</script>\n");
    assert(html@ =~= old(html)@ + doughnut_chart(chart_id@, title@, data@));
}

/// Appends a chart over time to the page. `data` is the data of the
/// chart, written as JSON.
pub fn add_network_chart(html: &mut String, chart_id: &str, title: &str, data: &str)
    ensures
        final(html)@ == old(html)@ + line_chart(chart_id@, title@, data@),
{
    push_chart_card(html, chart_id, title);
    html.append("<script>\n");
    html.append(SCRIPT_HEAD);
    html.append(chart_id);
    html.append(LINE_TYPE);
    html.append(data);
    html.append(SCRIPT_OPTIONS);
    html.append(title);
    html.append(LINE_TAIL);
    html.append("</script>\n");
    assert(html@ =~= old(html)@ + line_chart(chart_id@, title@, data@));
}

} // verus!
