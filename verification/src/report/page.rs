//! The report as one HTML page.

use vstd::prelude::*;
use vstd::string::*;
use crate::report::chart::{
    battery_view, doughnut_json, memory_view, parse_battery_info, parse_memory_info,
    parse_storage_info, render_doughnut, storage_view, BATTERY_PATTERN, MEMORY_PATTERN,
    STORAGE_PATTERN,
};
use crate::report::html::{
    add_chart, add_collapsible_section, add_network_chart, add_quick_stats, collapsible_section,
    doughnut_chart, line_chart, quick_stats, quick_stats_patterns_compile,
    ANDROID_VERSION_PATTERN, MODEL_PATTERN, TOTAL_RAM_PATTERN, TOTAL_STORAGE_PATTERN,
};
use crate::report::network::{
    line_data_json, network_view, parse_network_info, render_line_data, NETWORK_PATTERN,
};
use crate::report::pattern::{
    captures_in_each, captures_of, info_text, pattern_compiles, PatternError,
};
use crate::report::text::text_lines;

verus! {

/// The page up to the name of the device in its title.
pub const PAGE_OPEN: &'static str = "<!DOCTYPE html>\n<html lang=\"en\">\n<head>\n<meta charset=\"UTF-8\">\n<meta name=\"viewport\" content=\"width=device-width, initial-scale=1.0\">\n<title>Device Dashboard - ";

/// What stands between the name of the device and the time in the title.
pub const TITLE_JOIN: &'static str = " - ";

/// The page from the end of its title to the name of the device in its
/// heading: the styles, and the scripts it loads.
pub const PAGE_STYLE: &'static str = "</title>\n<style>\n\n        body { font-family: Arial, sans-serif; line-height: 1.6; color: #333; margin: 0; padding: 0; background-color: #f4f4f4; }\n        .container { max-width: 1200px; margin: 0 auto; padding: 20px; }\n        h1, h2 { color: #2c3e50; }\n        .dashboard { display: grid; grid-template-columns: repeat(auto-fit, minmax(300px, 1fr)); gap: 20px; }\n        .card { background-color: #fff; border-radius: 5px; box-shadow: 0 2px 5px rgba(0,0,0,0.1); padding: 20px; }\n        .chart { width: 100%; height: 300px; }\n        table { border-collapse: collapse; width: 100%; }\n        th, td { border: 1px solid #ddd; padding: 8px; text-align: left; }\n        th { background-color: #f2f2f2; }\n        .collapsible { background-color: #777; color: white; cursor: pointer; padding: 18px; width: 100%; border: none; text-align: left; outline: none; font-size: 15px; }\n        .active, .collapsible:hover { background-color: #555; }\n        .content { padding: 0 18px; max-height: 0; overflow: hidden; transition: max-height 0.2s ease-out; background-color: #f1f1f1; }\n        #searchInput { width: 100%; font-size: 16px; padding: 12px 20px 12px 40px; border: 1px solid #ddd; margin-bottom: 12px; }\n    </style>\n<script src=\"https://cdn.jsdelivr.net/npm/chart.js\"></script>\n<script src=\"https://cdnjs.cloudflare.com/ajax/libs/moment.js/2.29.1/moment.min.js\"></script>\n</head>\n<body>\n<div class=\"container\">\n<h1>Device Dashboard - ";

/// The page between the name of the device and the time in its heading.
pub const PAGE_GENERATED: &'static str = "</h1>\n<p>Generated on: ";

/// The page between its heading and the cards.
pub const PAGE_DASHBOARD: &'static str = "</p>\n<div class=\"dashboard\">\n";

/// The page between the cards and the sections.
pub const PAGE_DETAILS: &'static str = "</div>\n<h2>Detailed Information</h2>\n<input type=\"text\" id=\"searchInput\" onkeyup=\"searchTables()\" placeholder=\"Search for information...\">\n";

/// The end of the page, with the script that folds and searches sections.
pub const PAGE_CLOSE: &'static str = "</div>\n<script>\n\n        var coll = document.getElementsByClassName(\"collapsible\");\n        var i;\n\n        for (i = 0; i < coll.length; i++) {\n            coll[i].addEventListener(\"click\", function() {\n                this.classList.toggle(\"active\");\n                var content = this.nextElementSibling;\n                if (content.style.maxHeight){\n                    content.style.maxHeight = null;\n                } else {\n                    content.style.maxHeight = content.scrollHeight + \"px\";\n                } \n            });\n        }\n\n        function searchTables() {\n            var input, filter, tables, tr, td, i, j, txtValue;\n            input = document.getElementById(\"searchInput\");\n            filter = input.value.toUpperCase();\n            tables = document.getElementsByTagName(\"table\");\n            for (i = 0; i < tables.length; i++) {\n                tr = tables[i].getElementsByTagName(\"tr\");\n                for (j = 0; j < tr.length; j++) {\n                    td = tr[j].getElementsByTagName(\"td\");\n                    for (var k = 0; k < td.length; k++) {\n                        if (td[k]) {\n                            txtValue = td[k].textContent || td[k].innerText;\n                            if (txtValue.toUpperCase().indexOf(filter) > -1) {\n                                tr[j].style.display = \"\";\n                                break;\n                            } else {\n                                tr[j].style.display = \"none\";\n                            }\n                        }\n                    }\n                }\n            }\n        }\n    </script>\n</body>\n</html>";

/// What the device printed, section by section.
pub struct DeviceDump<'a> {
    /// The device section.
    pub device_info: &'a str,
    /// The network section.
    pub network_info: &'a str,
    /// The storage section.
    pub storage_info: &'a str,
    /// The security section.
    pub security_info: &'a str,
    /// The settings section.
    pub system_settings: &'a str,
    /// The section on processes and services.
    pub processes_and_services: &'a str,
}

/// Whether the `regex` crate accepts every pattern that the page uses.
pub open spec fn page_patterns_compile() -> bool {
    &&& quick_stats_patterns_compile()
    &&& pattern_compiles(STORAGE_PATTERN@)
    &&& pattern_compiles(BATTERY_PATTERN@)
    &&& pattern_compiles(MEMORY_PATTERN@)
    &&& pattern_compiles(NETWORK_PATTERN@)
}

/// The cards of the page: the quick facts and the five charts.
pub open spec fn page_cards(dump: DeviceDump, cpu_data: Seq<char>) -> Seq<char> {
    quick_stats(
        info_text(captures_of(MODEL_PATTERN@, dump.device_info@)),
        info_text(captures_of(ANDROID_VERSION_PATTERN@, dump.device_info@)),
        info_text(captures_of(TOTAL_RAM_PATTERN@, dump.device_info@)),
        info_text(captures_of(TOTAL_STORAGE_PATTERN@, dump.storage_info@)),
    ) + doughnut_chart(
        "storageChart"@,
        "Storage Usage"@,
        doughnut_json(storage_view(captures_of(STORAGE_PATTERN@, dump.storage_info@))),
    ) + doughnut_chart(
        "batteryChart"@,
        "Battery Status"@,
        doughnut_json(battery_view(captures_of(BATTERY_PATTERN@, dump.device_info@))),
    ) + doughnut_chart(
        "memoryChart"@,
        "Memory Usage"@,
        doughnut_json(memory_view(captures_of(MEMORY_PATTERN@, dump.device_info@))),
    ) + doughnut_chart("cpuChart"@, "CPU Usage"@, cpu_data) + line_chart(
        "networkChart"@,
        "Network Usage"@,
        line_data_json(
            network_view(captures_in_each(NETWORK_PATTERN@, text_lines(dump.network_info@))),
        ),
    )
}

/// The six sections of the page, each as a table that can be folded.
pub open spec fn page_sections(dump: DeviceDump) -> Seq<char> {
    collapsible_section("Device Information"@, dump.device_info@) + collapsible_section(
        "Network Information"@,
        dump.network_info@,
    ) + collapsible_section("Storage Information"@, dump.storage_info@) + collapsible_section(
        "Security Information"@,
        dump.security_info@,
    ) + collapsible_section("System Settings"@, dump.system_settings@) + collapsible_section(
        "Processes and Services"@,
        dump.processes_and_services@,
    )
}

/// The whole page.
pub open spec fn report_page(
    device_name: Seq<char>,
    timestamp: Seq<char>,
    dump: DeviceDump,
    cpu_data: Seq<char>,
) -> Seq<char> {
    PAGE_OPEN@ + device_name + TITLE_JOIN@ + timestamp + PAGE_STYLE@ + device_name
        + PAGE_GENERATED@ + timestamp + PAGE_DASHBOARD@ + page_cards(dump, cpu_data)
        + PAGE_DETAILS@ + page_sections(dump) + PAGE_CLOSE@
}

/// Appends the cards of the page.
fn push_cards(html: &mut String, dump: &DeviceDump, cpu_data: &str) -> (done: Result<
    (),
    PatternError,
>)
    ensures
        done is Ok <==> page_patterns_compile(),
        done is Ok ==> final(html)@ == old(html)@ + page_cards(*dump, cpu_data@),
{
    let storage = match parse_storage_info(dump.storage_info) {
        Ok(data) => render_doughnut(&data),
        Err(refused) => { return Err(refused); },
    };
    let battery = match parse_battery_info(dump.device_info) {
        Ok(data) => render_doughnut(&data),
        Err(refused) => { return Err(refused); },
    };
    let memory = match parse_memory_info(dump.device_info) {
        Ok(data) => render_doughnut(&data),
        Err(refused) => { return Err(refused); },
    };
    let network = match parse_network_info(dump.network_info) {
        Ok(data) => render_line_data(&data),
        Err(refused) => { return Err(refused); },
    };
    let ghost before = html@;
    let ghost facts = quick_stats(
        info_text(captures_of(MODEL_PATTERN@, dump.device_info@)),
        info_text(captures_of(ANDROID_VERSION_PATTERN@, dump.device_info@)),
        info_text(captures_of(TOTAL_RAM_PATTERN@, dump.device_info@)),
        info_text(captures_of(TOTAL_STORAGE_PATTERN@, dump.storage_info@)),
    );
    let ghost first = doughnut_chart("storageChart"@, "Storage Usage"@, storage@);
    let ghost second = doughnut_chart("batteryChart"@, "Battery Status"@, battery@);
    let ghost third = doughnut_chart("memoryChart"@, "Memory Usage"@, memory@);
    let ghost fourth = doughnut_chart("cpuChart"@, "CPU Usage"@, cpu_data@);
    let ghost fifth = line_chart("networkChart"@, "Network Usage"@, network@);
    match add_quick_stats(html, dump.device_info, dump.storage_info) {
        Ok(()) => {},
        Err(refused) => { return Err(refused); },
    }
    add_chart(html, "storageChart", "Storage Usage", storage.as_str());
    proof {
        lemma_join(before, facts, first);
    }
    add_chart(html, "batteryChart", "Battery Status", battery.as_str());
    proof {
        lemma_join(before, facts + first, second);
    }
    add_chart(html, "memoryChart", "Memory Usage", memory.as_str());
    proof {
        lemma_join(before, facts + first + second, third);
    }
    add_chart(html, "cpuChart", "CPU Usage", cpu_data);
    proof {
        lemma_join(before, facts + first + second + third, fourth);
    }
    add_network_chart(html, "networkChart", "Network Usage", network.as_str());
    proof {
        lemma_join(before, facts + first + second + third + fourth, fifth);
    }
    Ok(())
}

/// Putting three texts together does not depend on which two are joined
/// first.
proof fn lemma_join(head: Seq<char>, middle: Seq<char>, tail: Seq<char>)
    ensures
        (head + middle) + tail == head + (middle + tail),
{
    assert((head + middle) + tail =~= head + (middle + tail));
}

/// Appends the six sections of the page.
fn push_sections(html: &mut String, dump: &DeviceDump)
    ensures
        final(html)@ == old(html)@ + page_sections(*dump),
{
    let ghost before = html@;
    let ghost first = collapsible_section("Device Information"@, dump.device_info@);
    let ghost second = collapsible_section("Network Information"@, dump.network_info@);
    let ghost third = collapsible_section("Storage Information"@, dump.storage_info@);
    let ghost fourth = collapsible_section("Security Information"@, dump.security_info@);
    let ghost fifth = collapsible_section("System Settings"@, dump.system_settings@);
    let ghost sixth = collapsible_section(
        "Processes and Services"@,
        dump.processes_and_services@,
    );
    add_collapsible_section(html, "Device Information", dump.device_info);
    add_collapsible_section(html, "Network Information", dump.network_info);
    proof {
        lemma_join(before, first, second);
    }
    add_collapsible_section(html, "Storage Information", dump.storage_info);
    proof {
        lemma_join(before, first + second, third);
    }
    add_collapsible_section(html, "Security Information", dump.security_info);
    proof {
        lemma_join(before, first + second + third, fourth);
    }
    add_collapsible_section(html, "System Settings", dump.system_settings);
    proof {
        lemma_join(before, first + second + third + fourth, fifth);
    }
    add_collapsible_section(html, "Processes and Services", dump.processes_and_services);
    proof {
        lemma_join(before, first + second + third + fourth + fifth, sixth);
    }
}

/// Lays out the report: a heading with the name of the device and the
/// time, the cards with the quick facts and the charts, and the six
/// sections. `cpu_data` is the data of the processor chart, written as
/// JSON.
pub fn generate_html_report(
    device_name: &str,
    timestamp: &str,
    dump: &DeviceDump,
    cpu_data: &str,
) -> (page: Result<String, PatternError>)
    ensures
        page is Ok <==> page_patterns_compile(),
        page matches Ok(html) ==> html@ == report_page(
            device_name@,
            timestamp@,
            *dump,
            cpu_data@,
        ),
{
    let mut html = String::from_str(PAGE_OPEN);
    html.append(device_name);
    html.append(TITLE_JOIN);
    html.append(timestamp);
    html.append(PAGE_STYLE);
    html.append(device_name);
    html.append(PAGE_GENERATED);
    html.append(timestamp);
    html.append(PAGE_DASHBOARD);
    match push_cards(&mut html, dump, cpu_data) {
        Ok(()) => {},
        Err(refused) => { return Err(refused); },
    }
    html.append(PAGE_DETAILS);
    push_sections(&mut html, dump);
    html.append(PAGE_CLOSE);
    Ok(html)
}

/// The directory that takes the report of a device at a time.
pub fn dump_directory(device_name: &str, timestamp: &str) -> (dir: String)
    ensures
        dir@ == "./dump/"@ + device_name@ + "_"@ + timestamp@,
{
    let mut dir = String::from_str("./dump/");
    dir.append(device_name);
    dir.append("_");
    dir.append(timestamp);
    dir
}

} // verus!
