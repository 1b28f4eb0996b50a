use monolog::report::html::{add_collapsible_section, add_quick_stats};
use monolog::report::page::{generate_html_report, DeviceDump};

const STYLES: &str = r#"
        body { font-family: Arial, sans-serif; line-height: 1.6; color: #333; margin: 0; padding: 0; background-color: #f4f4f4; }
        .container { max-width: 1200px; margin: 0 auto; padding: 20px; }
        h1, h2 { color: #2c3e50; }
        .dashboard { display: grid; grid-template-columns: repeat(auto-fit, minmax(300px, 1fr)); gap: 20px; }
        .card { background-color: #fff; border-radius: 5px; box-shadow: 0 2px 5px rgba(0,0,0,0.1); padding: 20px; }
        .chart { width: 100%; height: 300px; }
        table { border-collapse: collapse; width: 100%; }
        th, td { border: 1px solid #ddd; padding: 8px; text-align: left; }
        th { background-color: #f2f2f2; }
        .collapsible { background-color: #777; color: white; cursor: pointer; padding: 18px; width: 100%; border: none; text-align: left; outline: none; font-size: 15px; }
        .active, .collapsible:hover { background-color: #555; }
        .content { padding: 0 18px; max-height: 0; overflow: hidden; transition: max-height 0.2s ease-out; background-color: #f1f1f1; }
        #searchInput { width: 100%; font-size: 16px; padding: 12px 20px 12px 40px; border: 1px solid #ddd; margin-bottom: 12px; }
    "#;

const SCRIPT: &str = r#"
        var coll = document.getElementsByClassName("collapsible");
        var i;

        for (i = 0; i < coll.length; i++) {
            coll[i].addEventListener("click", function() {
                this.classList.toggle("active");
                var content = this.nextElementSibling;
                if (content.style.maxHeight){
                    content.style.maxHeight = null;
                } else {
                    content.style.maxHeight = content.scrollHeight + "px";
                } 
            });
        }

        function searchTables() {
            var input, filter, tables, tr, td, i, j, txtValue;
            input = document.getElementById("searchInput");
            filter = input.value.toUpperCase();
            tables = document.getElementsByTagName("table");
            for (i = 0; i < tables.length; i++) {
                tr = tables[i].getElementsByTagName("tr");
                for (j = 0; j < tr.length; j++) {
                    td = tr[j].getElementsByTagName("td");
                    for (var k = 0; k < td.length; k++) {
                        if (td[k]) {
                            txtValue = td[k].textContent || td[k].innerText;
                            if (txtValue.toUpperCase().indexOf(filter) > -1) {
                                tr[j].style.display = "";
                                break;
                            } else {
                                tr[j].style.display = "none";
                            }
                        }
                    }
                }
            }
        }
    "#;

fn chart(kind_tail: &str, kind: &str, id: &str, title: &str, data: &str) -> String {
    let mut html = format!(
        "<div class=\"card\">\n<h2>{}</h2>\n<div class=\"chart\"><canvas id=\"{}\"></canvas></div>\n</div>\n",
        title, id
    );
    html.push_str("<script>\n");
    html.push_str(&format!(
        "\n        new Chart(document.getElementById('{}').getContext('2d'), {{\n            type: '{}',\n            data: {},\n            options: {{\n                responsive: true,\n                plugins: {{\n                    legend: {{\n                        position: 'top',\n                    }},\n                    title: {{\n                        display: true,\n                        text: '{}'\n                    }}\n                }}{}\n            }}\n        }});\n    ",
        id, kind, data, title, kind_tail
    ));
    html.push_str("</script>\n");
    html
}

#[test]
fn page_holds_heading_cards_and_sections() {
    let dump = DeviceDump {
        device_info: "ro.product.model: Pixel 7\nro.build.version.release: 14\nlevel: 85\nMemTotal:  8000 kB MemFree:  3000 kB\n",
        network_info: "iface\n  120   80\n",
        storage_info: "/dev/x /data 1000 250\n",
        security_info: "ro.boot.flash.locked: 1",
        system_settings: "",
        processes_and_services: "User 5%, System 3%\nname: value",
    };
    let cpu = "{\"labels\":[\"User\",\"System\",\"Idle\"],\"datasets\":[]}";
    let page = generate_html_report("Pixel_7", "20240102_030405", &dump, cpu).unwrap();

    let mut expected = String::new();
    expected.push_str("<!DOCTYPE html>\n<html lang=\"en\">\n<head>\n");
    expected.push_str("<meta charset=\"UTF-8\">\n");
    expected.push_str("<meta name=\"viewport\" content=\"width=device-width, initial-scale=1.0\">\n");
    expected.push_str(&format!("<title>Device Dashboard - {} - {}</title>\n", "Pixel_7", "20240102_030405"));
    expected.push_str("<style>\n");
    expected.push_str(STYLES);
    expected.push_str("</style>\n");
    expected.push_str("<script src=\"https://cdn.jsdelivr.net/npm/chart.js\"></script>\n");
    expected.push_str("<script src=\"https://cdnjs.cloudflare.com/ajax/libs/moment.js/2.29.1/moment.min.js\"></script>\n");
    expected.push_str("</head>\n<body>\n");
    expected.push_str("<div class=\"container\">\n");
    expected.push_str(&format!("<h1>Device Dashboard - {}</h1>\n", "Pixel_7"));
    expected.push_str(&format!("<p>Generated on: {}</p>\n", "20240102_030405"));
    expected.push_str("<div class=\"dashboard\">\n");
    add_quick_stats(&mut expected, dump.device_info, dump.storage_info).unwrap();
    expected.push_str(&chart("", "doughnut", "storageChart", "Storage Usage",
        "{\"datasets\":[{\"backgroundColor\":[\"#FF6384\",\"#36A2EB\"],\"data\":[250,750]}],\"labels\":[\"Used\",\"Free\"]}"));
    expected.push_str(&chart("", "doughnut", "batteryChart", "Battery Status",
        "{\"datasets\":[{\"backgroundColor\":[\"#FFCE56\",\"#E7E9ED\"],\"data\":[85,15]}],\"labels\":[\"Battery\",\"Remaining\"]}"));
    expected.push_str(&chart("", "doughnut", "memoryChart", "Memory Usage",
        "{\"datasets\":[{\"backgroundColor\":[\"#4BC0C0\",\"#9966FF\"],\"data\":[5000,3000]}],\"labels\":[\"Used\",\"Free\"]}"));
    expected.push_str(&chart("", "doughnut", "cpuChart", "CPU Usage", cpu));
    expected.push_str(&chart(
        ",\n                scales: {\n                    x: {\n                        type: 'time',\n                        time: {\n                            unit: 'minute'\n                        }\n                    },\n                    y: {\n                        beginAtZero: true\n                    }\n                }",
        "line", "networkChart", "Network Usage",
        "{\"datasets\":[{\"borderColor\":\"#36A2EB\",\"data\":[{\"x\":\"2023-01-01T00:01:00\",\"y\":120}],\"fill\":false,\"label\":\"Received Bytes\"},{\"borderColor\":\"#FF6384\",\"data\":[{\"x\":\"2023-01-01T00:01:00\",\"y\":80}],\"fill\":false,\"label\":\"Transmitted Bytes\"}]}"));
    expected.push_str("</div>\n");
    expected.push_str("<h2>Detailed Information</h2>\n");
    expected.push_str("<input type=\"text\" id=\"searchInput\" onkeyup=\"searchTables()\" placeholder=\"Search for information...\">\n");
    add_collapsible_section(&mut expected, "Device Information", dump.device_info);
    add_collapsible_section(&mut expected, "Network Information", dump.network_info);
    add_collapsible_section(&mut expected, "Storage Information", dump.storage_info);
    add_collapsible_section(&mut expected, "Security Information", dump.security_info);
    add_collapsible_section(&mut expected, "System Settings", dump.system_settings);
    add_collapsible_section(&mut expected, "Processes and Services", dump.processes_and_services);
    expected.push_str("</div>\n");
    expected.push_str("<script>\n");
    expected.push_str(SCRIPT);
    expected.push_str("</script>\n");
    expected.push_str("</body>\n</html>");
    assert_eq!(page, expected);
    assert!(page.contains("<li>Model: Pixel 7</li>"));
    assert!(page.contains("<tr><td>ro.boot.flash.locked</td><td>1</td></tr>"));
    assert!(page.ends_with("</body>\n</html>"));
}
