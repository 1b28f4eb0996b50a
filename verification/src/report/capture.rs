//! The sections of the report: which shell commands each one runs on the
//! device, and how what they print is put together.
//!
//! Running a command is the caller's part. It runs the commands of a
//! section in their order and hands over what each one printed.

use std::borrow::Cow;
use vstd::prelude::*;
use vstd::string::*;
use vstd::utf8::*;

verus! {

/// The text that `String::from_utf8_lossy` of `std` makes of `bytes`: the
/// text they encode, with a replacement character for each part that is
/// not UTF-8.
pub uninterp spec fn lossy_text(bytes: Seq<u8>) -> Seq<char>;

/// `String::from_utf8_lossy` of `std`: of well-formed UTF-8 it returns the
/// text unchanged; what it returns otherwise is `lossy_text`.
pub assume_specification<'a>[ String::from_utf8_lossy ](v: &'a [u8]) -> (text: Cow<'a, str>)
    ensures
        text@ == lossy_text(v@),
        valid_utf8(v@) ==> text@ == decode_utf8(v@),
;

/// The text of what a command printed.
pub fn printed_text(output: &[u8]) -> (text: String)
    ensures
        text@ == lossy_text(output@),
        valid_utf8(output@) ==> text@ == decode_utf8(output@),
{
    match String::from_utf8_lossy(output) {
        Cow::Borrowed(text) => String::from_str(text),
        Cow::Owned(text) => text,
    }
}

/// The report of one command: a heading that names it, then what it
/// printed.
pub open spec fn command_report(command: Seq<char>, output: Seq<u8>) -> Seq<char> {
    "### Output of "@ + command + " ###\n"@ + lossy_text(output)
}

/// The report of a run of commands: the report of each, in order, with an
/// empty line between one and the next.
pub open spec fn section_report(commands: Seq<Seq<char>>, outputs: Seq<Seq<u8>>) -> Seq<char>
    decreases commands.len(),
{
    if commands.len() == 0 {
        Seq::empty()
    } else if commands.len() == 1 {
        command_report(commands[0], outputs[0])
    } else {
        section_report(commands.drop_last(), outputs.drop_last()) + "\n\n"@ + command_report(
            commands.last(),
            outputs.last(),
        )
    }
}

/// The commands by their characters.
pub open spec fn command_texts(commands: Seq<&'static str>) -> Seq<Seq<char>> {
    Seq::new(commands.len(), |i: int| commands[i]@)
}

/// The outputs by their bytes.
pub open spec fn output_bytes(outputs: Seq<Vec<u8>>) -> Seq<Seq<u8>> {
    Seq::new(outputs.len(), |i: int| outputs[i]@)
}

/// Appends the report of one command to `report`.
fn push_command_report(report: &mut String, command: &str, output: &[u8])
    ensures
        final(report)@ == old(report)@ + command_report(command@, output@),
{
    let printed = printed_text(output);
    report.append("### Output of ");
    report.append(command);
    report.append(" ###\n");
    report.append(printed.as_str());
}

/// Puts together the report of a section from what its commands printed.
pub fn capture_section(commands: &Vec<&'static str>, outputs: &Vec<Vec<u8>>) -> (report: String)
    requires
        outputs@.len() == commands@.len(),
    ensures
        report@ == section_report(command_texts(commands@), output_bytes(outputs@)),
{
    let mut report = String::new();
    let ghost all_commands = command_texts(commands@);
    let ghost all_outputs = output_bytes(outputs@);
    let mut at: usize = 0;
    while at < commands.len()
        invariant
            at <= commands@.len(),
            outputs@.len() == commands@.len(),
            all_commands == command_texts(commands@),
            all_outputs == output_bytes(outputs@),
            report@ == section_report(all_commands.take(at as int), all_outputs.take(at as int)),
        decreases commands@.len() - at,
    {
        if at > 0 {
            report.append("\n\n");
        }
        push_command_report(&mut report, commands[at], outputs[at].as_slice());
        proof {
            let done = all_commands.take(at as int + 1);
            let printed = all_outputs.take(at as int + 1);
            assert(done.drop_last() == all_commands.take(at as int));
            assert(printed.drop_last() == all_outputs.take(at as int));
            assert(done.last() == commands@[at as int]@);
            assert(printed.last() == outputs@[at as int]@);
        }
        at += 1;
    }
    proof {
        assert(all_commands.take(at as int) == all_commands);
        assert(all_outputs.take(at as int) == all_outputs);
    }
    report
}

/// The commands of the device section.
pub open spec fn device_info_command_list() -> Seq<Seq<char>> {
    seq![
        "getprop"@,
        "dumpsys battery"@,
        "pm list packages -f"@,
        "cat /proc/cpuinfo"@,
        "cat /proc/meminfo"@,
        "dumpsys window"@,
        "dumpsys activity"@,
        "dumpsys power"@,
        "dumpsys bluetooth_manager"@,
        "dumpsys location"@,
        "dumpsys sensor_service"@,
        "dumpsys audio"@,
        "dumpsys camera"@,
        "dumpsys display"@,
    ]
}

/// The commands of the device section, in the order in which they run.
pub fn device_info_commands() -> (commands: Vec<&'static str>)
    ensures
        command_texts(commands@) == device_info_command_list(),
{
    let mut commands: Vec<&'static str> = Vec::new();
    commands.push("getprop");
    commands.push("dumpsys battery");
    commands.push("pm list packages -f");
    commands.push("cat /proc/cpuinfo");
    commands.push("cat /proc/meminfo");
    commands.push("dumpsys window");
    commands.push("dumpsys activity");
    commands.push("dumpsys power");
    commands.push("dumpsys bluetooth_manager");
    commands.push("dumpsys location");
    commands.push("dumpsys sensor_service");
    commands.push("dumpsys audio");
    commands.push("dumpsys camera");
    commands.push("dumpsys display");
    assert(command_texts(commands@) =~= device_info_command_list());
    commands
}

/// The device section of the report, from what its commands printed.
pub fn capture_device_info(outputs: &Vec<Vec<u8>>) -> (report: String)
    requires
        outputs@.len() == device_info_command_list().len(),
    ensures
        report@ == section_report(device_info_command_list(), output_bytes(outputs@)),
{
    let commands = device_info_commands();
    assert(command_texts(commands@).len() == commands@.len());
    capture_section(&commands, outputs)
}

/// The commands of the network section.
pub open spec fn network_info_command_list() -> Seq<Seq<char>> {
    seq![
        "ifconfig"@,
        "ip addr"@,
        "netstat -tuln"@,
        "dumpsys wifi"@,
        "dumpsys telephony.registry"@,
        "settings get global airplane_mode_on"@,
    ]
}

/// The commands of the network section, in the order in which they run.
pub fn network_info_commands() -> (commands: Vec<&'static str>)
    ensures
        command_texts(commands@) == network_info_command_list(),
{
    let mut commands: Vec<&'static str> = Vec::new();
    commands.push("ifconfig");
    commands.push("ip addr");
    commands.push("netstat -tuln");
    commands.push("dumpsys wifi");
    commands.push("dumpsys telephony.registry");
    commands.push("settings get global airplane_mode_on");
    assert(command_texts(commands@) =~= network_info_command_list());
    commands
}

/// The network section of the report, from what its commands printed.
pub fn capture_network_info(outputs: &Vec<Vec<u8>>) -> (report: String)
    requires
        outputs@.len() == network_info_command_list().len(),
    ensures
        report@ == section_report(network_info_command_list(), output_bytes(outputs@)),
{
    let commands = network_info_commands();
    assert(command_texts(commands@).len() == commands@.len());
    capture_section(&commands, outputs)
}

/// The commands of the storage section.
pub open spec fn storage_info_command_list() -> Seq<Seq<char>> {
    seq![
        "df -h"@,
        "mount"@,
        "ls -lR /sdcard"@,
        "dumpsys mount"@,
    ]
}

/// The commands of the storage section, in the order in which they run.
pub fn storage_info_commands() -> (commands: Vec<&'static str>)
    ensures
        command_texts(commands@) == storage_info_command_list(),
{
    let mut commands: Vec<&'static str> = Vec::new();
    commands.push("df -h");
    commands.push("mount");
    commands.push("ls -lR /sdcard");
    commands.push("dumpsys mount");
    assert(command_texts(commands@) =~= storage_info_command_list());
    commands
}

/// The storage section of the report, from what its commands printed.
pub fn capture_storage_info(outputs: &Vec<Vec<u8>>) -> (report: String)
    requires
        outputs@.len() == storage_info_command_list().len(),
    ensures
        report@ == section_report(storage_info_command_list(), output_bytes(outputs@)),
{
    let commands = storage_info_commands();
    assert(command_texts(commands@).len() == commands@.len());
    capture_section(&commands, outputs)
}

/// The commands of the security section.
pub open spec fn security_info_command_list() -> Seq<Seq<char>> {
    seq![
        "getprop ro.boot.verifiedbootstate"@,
        "getprop ro.boot.flash.locked"@,
        "getprop ro.boot.vbmeta.device_state"@,
        "getprop ro.oem_unlock_supported"@,
        "settings get global development_settings_enabled"@,
        "pm list permissions -g -d"@,
    ]
}

/// The commands of the security section, in the order in which they run.
pub fn security_info_commands() -> (commands: Vec<&'static str>)
    ensures
        command_texts(commands@) == security_info_command_list(),
{
    let mut commands: Vec<&'static str> = Vec::new();
    commands.push("getprop ro.boot.verifiedbootstate");
    commands.push("getprop ro.boot.flash.locked");
    commands.push("getprop ro.boot.vbmeta.device_state");
    commands.push("getprop ro.oem_unlock_supported");
    commands.push("settings get global development_settings_enabled");
    commands.push("pm list permissions -g -d");
    assert(command_texts(commands@) =~= security_info_command_list());
    commands
}

/// The security section of the report, from what its commands printed.
pub fn capture_security_info(outputs: &Vec<Vec<u8>>) -> (report: String)
    requires
        outputs@.len() == security_info_command_list().len(),
    ensures
        report@ == section_report(security_info_command_list(), output_bytes(outputs@)),
{
    let commands = security_info_commands();
    assert(command_texts(commands@).len() == commands@.len());
    capture_section(&commands, outputs)
}

/// The commands of the settings section.
pub open spec fn system_settings_command_list() -> Seq<Seq<char>> {
    seq![
        "settings list global"@,
        "settings list system"@,
        "settings list secure"@,
    ]
}

/// The commands of the settings section, in the order in which they run.
pub fn system_settings_commands() -> (commands: Vec<&'static str>)
    ensures
        command_texts(commands@) == system_settings_command_list(),
{
    let mut commands: Vec<&'static str> = Vec::new();
    commands.push("settings list global");
    commands.push("settings list system");
    commands.push("settings list secure");
    assert(command_texts(commands@) =~= system_settings_command_list());
    commands
}

/// The settings section of the report, from what its commands printed.
pub fn capture_system_settings(outputs: &Vec<Vec<u8>>) -> (report: String)
    requires
        outputs@.len() == system_settings_command_list().len(),
    ensures
        report@ == section_report(system_settings_command_list(), output_bytes(outputs@)),
{
    let commands = system_settings_commands();
    assert(command_texts(commands@).len() == commands@.len());
    capture_section(&commands, outputs)
}

/// The commands of the section on processes and services.
pub open spec fn processes_and_services_command_list() -> Seq<Seq<char>> {
    seq![
        "ps -ef"@,
        "top -n 1"@,
        "service list"@,
        "dumpsys activity services"@,
    ]
}

/// The commands of the section on processes and services, in the order in which they run.
pub fn processes_and_services_commands() -> (commands: Vec<&'static str>)
    ensures
        command_texts(commands@) == processes_and_services_command_list(),
{
    let mut commands: Vec<&'static str> = Vec::new();
    commands.push("ps -ef");
    commands.push("top -n 1");
    commands.push("service list");
    commands.push("dumpsys activity services");
    assert(command_texts(commands@) =~= processes_and_services_command_list());
    commands
}

/// The section on processes and services of the report, from what its commands printed.
pub fn capture_processes_and_services(outputs: &Vec<Vec<u8>>) -> (report: String)
    requires
        outputs@.len() == processes_and_services_command_list().len(),
    ensures
        report@ == section_report(processes_and_services_command_list(), output_bytes(outputs@)),
{
    let commands = processes_and_services_commands();
    assert(command_texts(commands@).len() == commands@.len());
    capture_section(&commands, outputs)
}

} // verus!
