use monolog::report::chart::{
    battery_chart, memory_chart, number_or_zero, parse_battery_info, parse_memory_info,
    parse_storage_info, render_doughnut, storage_chart, DoughnutData,
};
use monolog::report::html::{add_chart, add_network_chart};
use monolog::report::json::{push_json_string, push_number_list, push_string_list};
use monolog::report::network::{
    counter_or_zero, minute_of, network_chart, parse_network_info, render_line_data, LineData,
    SeriesPoint,
};
use monolog::report::pattern::{find_groups, find_groups_in_each, group, PatternError};

fn texts(items: &[&str]) -> Vec<String> {
    items.iter().map(|s| s.to_string()).collect()
}

fn found(groups: &[Option<&str>]) -> Option<Vec<Option<String>>> {
    Some(groups.iter().map(|g| g.map(|s| s.to_string())).collect())
}

#[test]
fn storage_chart_shows_used_and_free() {
    let chart = parse_storage_info("Filesystem\n/dev/x /data   1000   250 750\n").unwrap();
    assert_eq!(
        chart,
        DoughnutData {
            labels: texts(&["Used", "Free"]),
            values: vec![250, 750],
            colors: texts(&["#FF6384", "#36A2EB"]),
        }
    );
    assert_eq!(
        render_doughnut(&chart),
        "{\"datasets\":[{\"backgroundColor\":[\"#FF6384\",\"#36A2EB\"],\"data\":[250,750]}],\"labels\":[\"Used\",\"Free\"]}"
    );
    assert_eq!(parse_storage_info("no match").unwrap().values, vec![0, 0]);
    assert_eq!(parse_storage_info("/data 5 9").unwrap().values, vec![9, -4]);
    assert_eq!(parse_storage_info("/data 99999999999 7").unwrap().values, vec![7, -7]);
}

#[test]
fn storage_chart_of_given_groups() {
    assert_eq!(storage_chart(&None).values, vec![0, 0]);
    assert_eq!(storage_chart(&found(&[Some("w"), Some("10"), Some("4")])).values, vec![4, 6]);
    assert_eq!(storage_chart(&found(&[Some("w"), None, Some("4")])).values, vec![4, -4]);
    assert_eq!(storage_chart(&found(&[Some("w"), Some("10")])).values, vec![0, 10]);
    assert_eq!(
        storage_chart(&found(&[Some("w"), Some("-2147483648"), Some("2147483647")])).values,
        vec![2147483647, -4294967295]
    );
}

#[test]
fn battery_chart_shows_level_and_rest() {
    let chart = parse_battery_info("Current Battery Service state:\n  level: 85\n  scale: 100")
        .unwrap();
    assert_eq!(chart.labels, texts(&["Battery", "Remaining"]));
    assert_eq!(chart.values, vec![85, 15]);
    assert_eq!(chart.colors, texts(&["#FFCE56", "#E7E9ED"]));
    assert_eq!(parse_battery_info("level:85").unwrap().values, vec![0, 100]);
    assert_eq!(battery_chart(&found(&[Some("level: 130"), Some("130")])).values, vec![130, -30]);
}

#[test]
fn memory_chart_needs_both_counters_in_one_line() {
    let chart = parse_memory_info("MemTotal:  8000 kB MemFree:  3000 kB").unwrap();
    assert_eq!(chart.labels, texts(&["Used", "Free"]));
    assert_eq!(chart.values, vec![5000, 3000]);
    assert_eq!(chart.colors, texts(&["#4BC0C0", "#9966FF"]));
    let apart = parse_memory_info("MemTotal:  8000 kB\nMemFree:  3000 kB").unwrap();
    assert_eq!(apart.values, vec![0, 0]);
    assert_eq!(memory_chart(&found(&[Some("w"), Some("7"), Some("9")])).values, vec![-2, 9]);
}

#[test]
fn numbers_that_are_not_numbers_count_as_zero() {
    assert_eq!(number_or_zero(None), 0);
    assert_eq!(number_or_zero(Some(&"12".to_string())), 12);
    assert_eq!(number_or_zero(Some(&"2147483647".to_string())), 2147483647);
    assert_eq!(number_or_zero(Some(&"2147483648".to_string())), 0);
    assert_eq!(number_or_zero(Some(&"\u{663}".to_string())), 0);
    assert_eq!(counter_or_zero(None), 0);
    assert_eq!(counter_or_zero(Some(&"18446744073709551615".to_string())), u64::MAX);
    assert_eq!(counter_or_zero(Some(&"18446744073709551616".to_string())), 0);
    assert_eq!(counter_or_zero(Some(&"-1".to_string())), 0);
}

#[test]
fn network_chart_has_a_point_for_each_line_with_counters() {
    let dump = "eth0 rx tx\n  120   80\nnothing here\n  7 9 11\r\n";
    let chart = parse_network_info(dump).unwrap();
    assert_eq!(
        chart,
        LineData {
            received: vec![
                SeriesPoint { x: "2023-01-01T00:01:00".to_string(), y: 120 },
                SeriesPoint { x: "2023-01-01T00:03:00".to_string(), y: 7 },
            ],
            transmitted: vec![
                SeriesPoint { x: "2023-01-01T00:01:00".to_string(), y: 80 },
                SeriesPoint { x: "2023-01-01T00:03:00".to_string(), y: 9 },
            ],
        }
    );
    assert_eq!(
        render_line_data(&chart),
        "{\"datasets\":[{\"borderColor\":\"#36A2EB\",\"data\":[{\"x\":\"2023-01-01T00:01:00\",\"y\":120},{\"x\":\"2023-01-01T00:03:00\",\"y\":7}],\"fill\":false,\"label\":\"Received Bytes\"},{\"borderColor\":\"#FF6384\",\"data\":[{\"x\":\"2023-01-01T00:01:00\",\"y\":80},{\"x\":\"2023-01-01T00:03:00\",\"y\":9}],\"fill\":false,\"label\":\"Transmitted Bytes\"}]}"
    );
    let empty = parse_network_info("").unwrap();
    assert_eq!(
        render_line_data(&empty),
        "{\"datasets\":[{\"borderColor\":\"#36A2EB\",\"data\":[],\"fill\":false,\"label\":\"Received Bytes\"},{\"borderColor\":\"#FF6384\",\"data\":[],\"fill\":false,\"label\":\"Transmitted Bytes\"}]}"
    );
}

#[test]
fn network_chart_of_given_groups() {
    let all = vec![
        None,
        found(&[Some("1 2"), Some("1"), Some("2")]),
        found(&[Some("x"), None]),
    ];
    let chart = network_chart(&all);
    assert_eq!(
        chart.received,
        vec![
            SeriesPoint { x: "2023-01-01T00:01:00".to_string(), y: 1 },
            SeriesPoint { x: "2023-01-01T00:02:00".to_string(), y: 0 },
        ]
    );
    assert_eq!(
        chart.transmitted,
        vec![
            SeriesPoint { x: "2023-01-01T00:01:00".to_string(), y: 2 },
            SeriesPoint { x: "2023-01-01T00:02:00".to_string(), y: 0 },
        ]
    );
}

#[test]
fn minutes_are_written_with_two_digits_at_least() {
    assert_eq!(minute_of(0), "2023-01-01T00:00:00");
    assert_eq!(minute_of(9), "2023-01-01T00:09:00");
    assert_eq!(minute_of(10), "2023-01-01T00:10:00");
    assert_eq!(minute_of(123), "2023-01-01T00:123:00");
}

#[test]
fn json_texts_are_escaped_as_serde_json_does() {
    let mut out = String::from(">");
    push_json_string(&mut out, "a\"b\\c\n\u{1}\u{e9}");
    assert_eq!(out, ">\"a\\\"b\\\\c\\n\\u0001\u{e9}\"");
    assert_eq!(out[1..], serde_json::Value::String("a\"b\\c\n\u{1}\u{e9}".to_string()).to_string());
    let mut list = String::new();
    push_string_list(&mut list, &texts(&["x", "", "\t"]));
    assert_eq!(list, "[\"x\",\"\",\"\\t\"]");
    let mut none = String::new();
    push_string_list(&mut none, &vec![]);
    assert_eq!(none, "[]");
    let mut numbers = String::new();
    push_number_list(&mut numbers, &vec![0, -1, i64::MAX, i64::MIN]);
    assert_eq!(numbers, "[0,-1,9223372036854775807,-9223372036854775808]");
}

#[test]
fn groups_of_the_leftmost_match() {
    assert_eq!(
        find_groups(r"(\d+)-(\w+)?", "a 12- b 34-cd"),
        Ok(found(&[Some("12-"), Some("12"), None]))
    );
    assert_eq!(find_groups(r"z", "abc"), Ok(None));
    assert_eq!(find_groups(r"(", "abc"), Err(PatternError::Refused));
    let all = find_groups_in_each(r"(b)(c)?", &vec!["abc", "", "xb"]).unwrap();
    assert_eq!(
        all,
        vec![found(&[Some("bc"), Some("b"), Some("c")]), None, found(&[Some("b"), Some("b"), None])]
    );
    assert_eq!(find_groups_in_each(r"[", &vec!["a"]), Err(PatternError::Refused));
    assert_eq!(find_groups_in_each(r"a", &vec![]), Ok(vec![]));
    let groups = found(&[Some("w"), None, Some("x")]);
    assert_eq!(group(&groups, 0), Some(&"w".to_string()));
    assert_eq!(group(&groups, 1), None);
    assert_eq!(group(&groups, 2), Some(&"x".to_string()));
    assert_eq!(group(&groups, 3), None);
    assert_eq!(group(&None, 0), None);
}

#[test]
fn chart_cards_and_scripts() {
    let mut html = String::new();
    add_chart(&mut html, "storageChart", "Storage Usage", "{\"k\":1}");
    let expected = format!(
        "<div class=\"card\">\n<h2>{}</h2>\n<div class=\"chart\"><canvas id=\"{}\"></canvas></div>\n</div>\n<script>\n{}</script>\n",
        "Storage Usage",
        "storageChart",
        format!(
            r#"
        new Chart(document.getElementById('{}').getContext('2d'), {{
            type: 'doughnut',
            data: {},
            options: {{
                responsive: true,
                plugins: {{
                    legend: {{
                        position: 'top',
                    }},
                    title: {{
                        display: true,
                        text: '{}'
                    }}
                }}
            }}
        }});
    "#,
            "storageChart", "{\"k\":1}", "Storage Usage"
        )
    );
    assert_eq!(html, expected);
    let mut line = String::from("x");
    add_network_chart(&mut line, "networkChart", "Network Usage", "[]");
    let expected_line = format!(
        "x<div class=\"card\">\n<h2>{}</h2>\n<div class=\"chart\"><canvas id=\"{}\"></canvas></div>\n</div>\n<script>\n{}</script>\n",
        "Network Usage",
        "networkChart",
        format!(
            r#"
        new Chart(document.getElementById('{}').getContext('2d'), {{
            type: 'line',
            data: {},
            options: {{
                responsive: true,
                plugins: {{
                    legend: {{
                        position: 'top',
                    }},
                    title: {{
                        display: true,
                        text: '{}'
                    }}
                }},
                scales: {{
                    x: {{
                        type: 'time',
                        time: {{
                            unit: 'minute'
                        }}
                    }},
                    y: {{
                        beginAtZero: true
                    }}
                }}
            }}
        }});
    "#,
            "networkChart", "[]", "Network Usage"
        )
    );
    assert_eq!(line, expected_line);
}
