use monolog::bridge::{
    check_device_status, check_monodeamon_status, check_root_status, get_device_name,
    install_as_service, install_monodeamon, remove_monodeamon, text_contains, AdbCommand,
    SERVICE_SCRIPT,
};
use monolog::report::page::dump_directory;
use monolog::toolchain::{
    cargo_config, find_highest_version, find_ndk_path, find_or_download_ndk,
    linker_command, log_error, log_message, ndk_candidates, tool_path, Entry, NdkStep, NDK_URL,
};

fn adb(args: &[&str]) -> AdbCommand {
    AdbCommand { args: args.iter().map(|a| a.to_string()).collect() }
}

fn entry(name: &str, is_dir: bool) -> Entry {
    Entry { name: name.to_string(), is_dir }
}

#[test]
fn device_name_is_trimmed_and_underscored() {
    assert_eq!(get_device_name(b"  Pixel 7 Pro\r\n"), "Pixel_7_Pro");
    assert_eq!(get_device_name(b""), "");
    assert_eq!(get_device_name(b"\n"), "");
    assert_eq!(get_device_name(b"SM-G991B\n"), "SM-G991B");
    assert_eq!(get_device_name(&[b'a', 0xff, b' ', b'b']), "a\u{fffd}_b");
}

#[test]
fn root_is_read_from_the_answer_of_id() {
    assert!(check_root_status(b"uid=0(root) gid=0(root) groups=0(root)\n"));
    assert!(!check_root_status(b"uid=2000(shell) gid=2000(shell)\n"));
    assert!(!check_root_status(b"/system/bin/sh: su: not found\n"));
    assert!(!check_root_status(b""));
    assert!(!check_root_status(b"uid=0(roo"));
}

#[test]
fn the_agent_runs_if_anything_is_printed() {
    assert!(check_monodeamon_status(b"root 123 monodeamon\n"));
    assert!(check_monodeamon_status(b" "));
    assert!(!check_monodeamon_status(b""));
}

#[test]
fn text_is_found_anywhere() {
    assert!(text_contains("abc", ""));
    assert!(text_contains("", ""));
    assert!(!text_contains("", "a"));
    assert!(text_contains("abc", "abc"));
    assert!(text_contains("xabc", "abc"));
    assert!(text_contains("aab", "ab"));
    assert!(!text_contains("ab", "abc"));
    assert!(text_contains("gr\u{fc}n", "\u{fc}n"));
}

#[test]
fn status_is_reported_in_two_lines() {
    assert_eq!(
        check_device_status(true, false),
        vec!["[INFO] Device is rooted.", "[INFO] monodeamon is not running."]
    );
    assert_eq!(
        check_device_status(false, true),
        vec!["[INFO] Device is not rooted.", "[INFO] monodeamon is running."]
    );
}

#[test]
fn install_pushes_installs_the_service_and_starts() {
    let plan = install_monodeamon(false, "../monodeamon/target/release/monodeamon");
    assert!(plan.build_first);
    assert_eq!(
        plan.commands,
        vec![
            adb(&["push", "../monodeamon/target/release/monodeamon", "/data/local/tmp/"]),
            adb(&["shell", "chmod", "+x", "/data/local/tmp/monodeamon"]),
            adb(&["push", "/tmp/monodeamon_service.sh", "/data/local/tmp/monodeamon_service.sh"]),
            adb(&["shell", "chmod", "+x", "/data/local/tmp/monodeamon_service.sh"]),
            adb(&["shell", "su -c 'cp /data/local/tmp/monodeamon_service.sh /etc/init.d/'"]),
            adb(&["shell", "nohup /data/local/tmp/monodeamon &"]),
        ]
    );
    assert!(!install_monodeamon(true, "x").build_first);
    assert_eq!(install_as_service(), plan.commands[2..5].to_vec());
    assert_eq!(
        SERVICE_SCRIPT,
        "\n#!/system/bin/sh\nwhile true; do\n    /data/local/tmp/monodeamon\n    sleep 10\ndone\n"
    );
}

#[test]
fn remove_stops_and_deletes() {
    assert_eq!(
        remove_monodeamon(),
        vec![
            adb(&["shell", "pkill -f /data/local/tmp/monodeamon"]),
            adb(&["shell", "rm /data/local/tmp/monodeamon"]),
            adb(&["shell", "rm /data/local/tmp/monodeamon_service.sh"]),
            adb(&["shell", "su -c 'rm /etc/init.d/monodeamon_service.sh'"]),
        ]
    );
}

#[test]
fn the_last_version_listed_is_taken() {
    assert_eq!(find_highest_version(&vec![]), None);
    let entries = vec![
        entry("21.4.7075529", true),
        entry("readme.txt", false),
        entry("25.1.8937393", true),
        entry("23.0.1", false),
        entry("ndk-bundle", true),
    ];
    assert_eq!(find_highest_version(&entries), Some(2));
    assert_eq!(find_highest_version(&vec![entry("x", true), entry("9", false)]), None);
    assert_eq!(find_highest_version(&vec![entry("", true)]), Some(0));
    assert_eq!(find_highest_version(&vec![entry("\u{2460}a", true)]), Some(0));
    assert_eq!(find_highest_version(&vec![entry("3", true), entry("1", true)]), Some(1));
}

#[test]
fn the_first_candidate_with_a_version_is_taken() {
    assert_eq!(find_ndk_path(&vec![]), None);
    assert_eq!(find_ndk_path(&vec![None, None]), None);
    let listings = vec![
        None,
        Some(vec![entry("docs", true)]),
        Some(vec![entry("a", false), entry("21", true), entry("22", true)]),
        Some(vec![entry("25", true)]),
    ];
    assert_eq!(find_ndk_path(&listings), Some((2, 2)));
    assert_eq!(find_ndk_path(&vec![Some(vec![entry("7", true)])]), Some((0, 0)));
}

#[test]
fn candidates_are_four_directories() {
    assert_eq!(
        ndk_candidates("ada"),
        vec![
            r"C:\Users\ada\AppData\Local\Android\Sdk\ndk",
            r"C:\Program Files\Android\Android Studio\ndk",
            r"C:\Android\Sdk\ndk",
            r"C:\Users\ada\AppData\Local\Android\Sdk\ndk-bundle",
        ]
    );
    assert_eq!(ndk_candidates("")[0], r"C:\Users\\AppData\Local\Android\Sdk\ndk");
    assert_eq!(
        ndk_candidates("%USERNAME%")[3],
        r"C:\Users\%USERNAME%\AppData\Local\Android\Sdk\ndk-bundle"
    );
}

#[test]
fn a_missing_toolchain_is_downloaded() {
    assert_eq!(
        find_or_download_ndk(Some("C:\\ndk\\25".to_string())),
        NdkStep::Use { path: "C:\\ndk\\25".to_string() }
    );
    assert_eq!(
        find_or_download_ndk(None),
        NdkStep::Download {
            notice: "NDK not found. Attempting to download...".to_string(),
            url: "https://dl.google.com/android/repository/android-ndk-r21e-windows-x86_64.zip"
                .to_string(),
        }
    );
    assert_eq!(
        NDK_URL,
        "https://dl.google.com/android/repository/android-ndk-r21e-windows-x86_64.zip"
    );
}

#[test]
fn the_build_is_set_up_with_the_linker() {
    let linker = linker_command(r"C:\ndk\25\toolchains\llvm\prebuilt\windows-x86_64\bin");
    assert_eq!(
        linker,
        "C:/ndk/25/toolchains/llvm/prebuilt/windows-x86_64/bin/x86_64-linux-android21-clang.cmd"
    );
    assert_eq!(
        cargo_config(&linker),
        format!(
            "[target.x86_64-linux-android]\nar = \"x86_64-linux-android-ar\"\nlinker = \"{}\"\n",
            linker
        )
    );
    assert_eq!(tool_path(r"C:\bin", r"C:\Windows;C:\x"), r"C:\bin;C:\Windows;C:\x");
}

#[test]
fn names_and_log_lines() {
    assert_eq!(dump_directory("Pixel_7", "20240102_030405"), "./dump/Pixel_7_20240102_030405");
    assert_eq!(log_message("NDK downloaded successfully."), "[INFO] NDK downloaded successfully.");
    assert_eq!(log_error("Failed to build monodeamon. Exiting."), "[ERROR] Failed to build monodeamon. Exiting.");
}
