//! The device bridge: what is asked of a device over `adb`, and what is
//! read from its answers.
//!
//! Running `adb` is the caller's part. This module says which arguments
//! each step takes, in which order the steps run, and what an answer
//! means.

use vstd::prelude::*;
use vstd::string::*;
use crate::report::capture::{lossy_text, printed_text};
use crate::report::text::{chars_of, trim_bounds, trimmed, views_of};

verus! {

/// Where the agent lies on the device.
pub const AGENT_PATH: &'static str = "/data/local/tmp/monodeamon";

/// The directory on the device into which the agent is pushed.
pub const AGENT_DIR: &'static str = "/data/local/tmp/";

/// Where the respawn script lies on the device.
pub const SERVICE_SCRIPT_PATH: &'static str = "/data/local/tmp/monodeamon_service.sh";

/// Where the respawn script is written before it is pushed.
pub const LOCAL_SERVICE_SCRIPT_PATH: &'static str = "/tmp/monodeamon_service.sh";

/// The respawn script: it starts the agent again whenever it ends.
pub const SERVICE_SCRIPT: &'static str =
    "\n#!/system/bin/sh\nwhile true; do\n    /data/local/tmp/monodeamon\n    sleep 10\ndone\n";

/// The command that asks the device for its model.
pub const DEVICE_NAME_COMMAND: &'static str = "getprop ro.product.model";

/// The command that asks the device who the super user is.
pub const ROOT_CHECK_COMMAND: &'static str = "su -c id";

/// The command that looks for the agent among the processes.
pub const AGENT_CHECK_COMMAND: &'static str = "ps | grep monodeamon";

/// `text` with an underscore in place of every space.
pub open spec fn underscored(text: Seq<char>) -> Seq<char> {
    Seq::new(
        text.len(),
        |i: int|
            if text[i] == ' ' {
                '_'
            } else {
                text[i]
            },
    )
}

/// The name of the device, from what it printed as its model: without the
/// white space around it, and with underscores for spaces.
pub fn get_device_name(output: &[u8]) -> (name: String)
    ensures
        name@ == underscored(trimmed(lossy_text(output@))),
{
    let printed = printed_text(output);
    let chars = chars_of(printed.as_str());
    let bounds = trim_bounds(&chars, 0, chars.len());
    assert(chars@.subrange(0, chars@.len() as int) == chars@);
    let ghost kept = chars@.subrange(bounds.0 as int, bounds.1 as int);
    let mut name = String::new();
    let mut at = bounds.0;
    while at < bounds.1
        invariant
            bounds.0 <= at <= bounds.1 <= chars@.len(),
            kept == chars@.subrange(bounds.0 as int, bounds.1 as int),
            name@ == underscored(kept).take(at - bounds.0),
        decreases bounds.1 - at,
    {
        let ch = chars[at];
        let shown = if ch == ' ' {
            '_'
        } else {
            ch
        };
        name.push(shown);
        at += 1;
        assert(underscored(kept).take(at - bounds.0) == underscored(kept).take(
            at - bounds.0 - 1,
        ).push(shown));
    }
    assert(underscored(kept).take(at - bounds.0) == underscored(kept));
    name
}

/// `needle` stands somewhere in `text`.
pub open spec fn contains_text(text: Seq<char>, needle: Seq<char>) -> bool {
    exists|at: int| occurs_at(text, needle, at)
}

/// `needle` stands in `text` at index `at`.
pub open spec fn occurs_at(text: Seq<char>, needle: Seq<char>, at: int) -> bool {
    0 <= at <= text.len() - needle.len() && text.subrange(at, at + needle.len()) == needle
}

/// Whether `needle` stands in `chars` at index `at`.
fn matches_at(chars: &Vec<char>, needle: &Vec<char>, at: usize) -> (found: bool)
    requires
        at + needle@.len() <= chars@.len(),
    ensures
        found == occurs_at(chars@, needle@, at as int),
{
    let total = chars.len();
    let mut k: usize = 0;
    while k < needle.len()
        invariant
            k <= needle@.len(),
            at + needle@.len() <= chars@.len() == total,
            forall|i: int| 0 <= i < k ==> chars@[at + i] == needle@[i],
        decreases needle@.len() - k,
    {
        if chars[at + k] != needle[k] {
            assert(chars@.subrange(at as int, at + needle@.len())[k as int] != needle@[k as int]);
            return false;
        }
        k += 1;
    }
    assert(chars@.subrange(at as int, at + needle@.len()) =~= needle@);
    true
}

/// Whether `needle` stands somewhere in `text`.
pub fn text_contains(text: &str, needle: &str) -> (found: bool)
    ensures
        found == contains_text(text@, needle@),
{
    let chars = chars_of(text);
    let wanted = chars_of(needle);
    if wanted.len() > chars.len() {
        return false;
    }
    let last = chars.len() - wanted.len();
    let mut at: usize = 0;
    while at <= last
        invariant
            at <= last + 1,
            last == chars@.len() - wanted@.len(),
            chars@ == text@,
            wanted@ == needle@,
            forall|i: int| 0 <= i < at ==> !occurs_at(chars@, wanted@, i),
        decreases last + 1 - at,
    {
        if matches_at(&chars, &wanted, at) {
            assert(occurs_at(text@, needle@, at as int));
            return true;
        }
        if at == last {
            return false;
        }
        at += 1;
    }
    false
}

/// Whether the device is rooted, from what it printed when asked who the
/// super user is.
pub fn check_root_status(output: &[u8]) -> (rooted: bool)
    ensures
        rooted == contains_text(lossy_text(output@), "uid=0(root)"@),
{
    let printed = printed_text(output);
    text_contains(printed.as_str(), "uid=0(root)")
}

/// Whether the agent runs on the device, from what the search among its
/// processes printed: anything at all means that it runs.
pub fn check_monodeamon_status(output: &[u8]) -> (running: bool)
    ensures
        running == (lossy_text(output@).len() > 0),
{
    let printed = printed_text(output);
    !printed.as_str().is_empty()
}

/// What is reported of a device: whether it is rooted, then whether the
/// agent runs on it.
pub open spec fn status_report(rooted: bool, running: bool) -> Seq<Seq<char>> {
    seq![
        if rooted {
            "[INFO] Device is rooted."@
        } else {
            "[INFO] Device is not rooted."@
        },
        if running {
            "[INFO] monodeamon is running."@
        } else {
            "[INFO] monodeamon is not running."@
        },
    ]
}

/// The two lines that report the state of a device.
pub fn check_device_status(rooted: bool, running: bool) -> (report: Vec<String>)
    ensures
        views_of(report@) == status_report(rooted, running),
{
    let mut report: Vec<String> = Vec::new();
    if rooted {
        report.push(String::from_str("[INFO] Device is rooted."));
    } else {
        report.push(String::from_str("[INFO] Device is not rooted."));
    }
    if running {
        report.push(String::from_str("[INFO] monodeamon is running."));
    } else {
        report.push(String::from_str("[INFO] monodeamon is not running."));
    }
    assert(views_of(report@) =~= status_report(rooted, running));
    report
}

/// The arguments of one run of `adb`.
#[derive(Clone, Debug, PartialEq, Eq)]
pub struct AdbCommand {
    /// The arguments, in order.
    pub args: Vec<String>,
}

impl View for AdbCommand {
    type V = Seq<Seq<char>>;

    open spec fn view(&self) -> Seq<Seq<char>> {
        views_of(self.args@)
    }
}

/// The commands by their arguments.
pub open spec fn command_views(commands: Seq<AdbCommand>) -> Seq<Seq<Seq<char>>> {
    Seq::new(commands.len(), |i: int| commands[i]@)
}

/// A run of `adb` with two arguments.
fn adb2(first: &str, second: &str) -> (command: AdbCommand)
    ensures
        command@ == seq![first@, second@],
{
    let mut args: Vec<String> = Vec::new();
    args.push(String::from_str(first));
    args.push(String::from_str(second));
    let command = AdbCommand { args };
    assert(command@ =~= seq![first@, second@]);
    command
}

/// A run of `adb` with three arguments.
fn adb3(first: &str, second: &str, third: &str) -> (command: AdbCommand)
    ensures
        command@ == seq![first@, second@, third@],
{
    let mut args: Vec<String> = Vec::new();
    args.push(String::from_str(first));
    args.push(String::from_str(second));
    args.push(String::from_str(third));
    let command = AdbCommand { args };
    assert(command@ =~= seq![first@, second@, third@]);
    command
}

/// A run of `adb` with four arguments.
fn adb4(first: &str, second: &str, third: &str, fourth: &str) -> (command: AdbCommand)
    ensures
        command@ == seq![first@, second@, third@, fourth@],
{
    let mut args: Vec<String> = Vec::new();
    args.push(String::from_str(first));
    args.push(String::from_str(second));
    args.push(String::from_str(third));
    args.push(String::from_str(fourth));
    let command = AdbCommand { args };
    assert(command@ =~= seq![first@, second@, third@, fourth@]);
    command
}

/// The runs of `adb` that make the agent come back after it ends: the
/// respawn script is pushed, made executable, and copied to where the
/// device looks for scripts to start.
pub open spec fn service_commands() -> Seq<Seq<Seq<char>>> {
    seq![
        seq!["push"@, LOCAL_SERVICE_SCRIPT_PATH@, SERVICE_SCRIPT_PATH@],
        seq!["shell"@, "chmod"@, "+x"@, SERVICE_SCRIPT_PATH@],
        seq!["shell"@, "su -c 'cp /data/local/tmp/monodeamon_service.sh /etc/init.d/'"@],
    ]
}

/// The runs of `adb` that install the respawn script, in order. Before the
/// first of them the script `SERVICE_SCRIPT` is to be written to
/// `LOCAL_SERVICE_SCRIPT_PATH`.
pub fn install_as_service() -> (commands: Vec<AdbCommand>)
    ensures
        command_views(commands@) == service_commands(),
{
    let mut commands: Vec<AdbCommand> = Vec::new();
    commands.push(adb3("push", LOCAL_SERVICE_SCRIPT_PATH, SERVICE_SCRIPT_PATH));
    commands.push(adb4("shell", "chmod", "+x", SERVICE_SCRIPT_PATH));
    commands.push(adb2("shell", "su -c 'cp /data/local/tmp/monodeamon_service.sh /etc/init.d/'"));
    assert(command_views(commands@) =~= service_commands());
    commands
}

/// What installing the agent takes.
#[derive(Clone, Debug, PartialEq, Eq)]
pub struct InstallPlan {
    /// Whether the agent has to be built first.
    pub build_first: bool,
    /// The runs of `adb`, in order.
    pub commands: Vec<AdbCommand>,
}

/// The runs of `adb` that install the agent: it is pushed and made
/// executable, the respawn script is installed, and the agent is started.
pub open spec fn install_commands(binary_path: Seq<char>) -> Seq<Seq<Seq<char>>> {
    seq![
        seq!["push"@, binary_path, AGENT_DIR@],
        seq!["shell"@, "chmod"@, "+x"@, AGENT_PATH@],
    ] + service_commands() + seq![seq!["shell"@, "nohup /data/local/tmp/monodeamon &"@]]
}

/// Plans the installation of the agent from the file at `binary_path`,
/// which is built first where it does not exist yet.
pub fn install_monodeamon(binary_exists: bool, binary_path: &str) -> (plan: InstallPlan)
    ensures
        plan.build_first == !binary_exists,
        command_views(plan.commands@) == install_commands(binary_path@),
{
    let mut commands: Vec<AdbCommand> = Vec::new();
    commands.push(adb3("push", binary_path, AGENT_DIR));
    commands.push(adb4("shell", "chmod", "+x", AGENT_PATH));
    commands.push(adb3("push", LOCAL_SERVICE_SCRIPT_PATH, SERVICE_SCRIPT_PATH));
    commands.push(adb4("shell", "chmod", "+x", SERVICE_SCRIPT_PATH));
    commands.push(adb2("shell", "su -c 'cp /data/local/tmp/monodeamon_service.sh /etc/init.d/'"));
    commands.push(adb2("shell", "nohup /data/local/tmp/monodeamon &"));
    assert(command_views(commands@) =~= install_commands(binary_path@));
    InstallPlan { build_first: !binary_exists, commands }
}

/// The runs of `adb` that remove the agent: it is stopped, the agent and
/// the respawn script are deleted, and so is the copy of the script.
pub open spec fn removal_commands() -> Seq<Seq<Seq<char>>> {
    seq![
        seq!["shell"@, "pkill -f /data/local/tmp/monodeamon"@],
        seq!["shell"@, "rm /data/local/tmp/monodeamon"@],
        seq!["shell"@, "rm /data/local/tmp/monodeamon_service.sh"@],
        seq!["shell"@, "su -c 'rm /etc/init.d/monodeamon_service.sh'"@],
    ]
}

/// The runs of `adb` that remove the agent from the device, in order.
pub fn remove_monodeamon() -> (commands: Vec<AdbCommand>)
    ensures
        command_views(commands@) == removal_commands(),
{
    let mut commands: Vec<AdbCommand> = Vec::new();
    commands.push(adb2("shell", "pkill -f /data/local/tmp/monodeamon"));
    commands.push(adb2("shell", "rm /data/local/tmp/monodeamon"));
    commands.push(adb2("shell", "rm /data/local/tmp/monodeamon_service.sh"));
    commands.push(adb2("shell", "su -c 'rm /etc/init.d/monodeamon_service.sh'"));
    assert(command_views(commands@) =~= removal_commands());
    commands
}

} // verus!
