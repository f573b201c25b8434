//! The weekly schedule: what to do on each system to install it, to remove it, and to see
//! whether it is installed. The steps are carried out by the caller.

use crate::text::{arguments, owned, texts};
use vstd::prelude::*;
use vstd::string::StringExecFns;

verus! {

/// The name of the scheduled task on Windows.
pub const TASK_NAME: &'static str = "LifeInWeeksWallpaper";

/// The label of the launch agent on macOS.
pub const LAUNCHD_LABEL: &'static str = "com.lifeinweeks.wallpaper";

/// The name of the systemd timer on Linux.
pub const TIMER_NAME: &'static str = "liw-wallpaper.timer";

/// The property list of the launch agent, up to the label.
pub const PLIST_HEAD: &'static str = r#"<?xml version="1.0" encoding="UTF-8"?>
<!DOCTYPE plist PUBLIC "-//Apple//DTD PLIST 1.0//EN" "http://www.apple.com/DTDs/PropertyList-1.0.dtd">
<plist version="1.0">
<dict>
    <key>Label</key>
    <string>"#;

/// The property list of the launch agent, from the label to the program.
pub const PLIST_MIDDLE: &'static str = r#"</string>
    <key>ProgramArguments</key>
    <array>
        <string>"#;

/// The property list of the launch agent, after the program: every Monday at 6:00.
pub const PLIST_TAIL: &'static str = r#"</string>
        <string>generate</string>
    </array>
    <key>StartCalendarInterval</key>
    <dict>
        <key>Weekday</key>
        <integer>1</integer>
        <key>Hour</key>
        <integer>6</integer>
        <key>Minute</key>
        <integer>0</integer>
    </dict>
    <key>RunAtLoad</key>
    <false/>
</dict>
</plist>
"#;

/// The systemd service unit, up to the program.
pub const SERVICE_HEAD: &'static str = r#"[Unit]
Description=Life in Weeks Wallpaper Generator

[Service]
Type=oneshot
ExecStart="#;

/// The systemd service unit, after the program.
pub const SERVICE_TAIL: &'static str = r#" generate
"#;

/// The systemd timer unit: every Monday at 6:00.
pub const TIMER_UNIT: &'static str = r#"[Unit]
Description=Weekly Life in Weeks Wallpaper Update

[Timer]
OnCalendar=Mon *-*-* 06:00:00
Persistent=true

[Install]
WantedBy=timers.target
"#;

/// Printed when the schedule is installed.
pub const INSTALLED: &'static str = "Weekly schedule installed successfully.";

/// Printed with [`INSTALLED`].
pub const EVERY_MONDAY: &'static str = "The wallpaper will update every Monday at 6:00 AM.";

/// Printed when the schedule is removed.
pub const REMOVED: &'static str = "Weekly schedule removed successfully.";

/// Printed when there was no schedule to remove.
pub const NOT_INSTALLED: &'static str = "Schedule was not installed.";

/// The error on a system without a scheduler that is known here.
pub const UNSUPPORTED: &'static str = "Scheduling not supported on this platform";

/// The scheduler of the system, with the paths that its files go to.
#[derive(Debug, Clone, PartialEq, Eq)]
pub enum Target {
    /// The Task Scheduler of Windows.
    Windows,
    /// launchd of macOS: the directory of the launch agents, and the property list in it.
    MacOs { agents_dir: String, plist_path: String },
    /// systemd of Linux: the directory of the user's units, and the two units in it.
    Linux { unit_dir: String, service_path: String, timer_path: String },
    /// A system without a scheduler that is known here.
    Unsupported,
}

/// What is asked of a program that a step runs.
#[derive(Debug, Clone, PartialEq, Eq)]
pub enum Check {
    /// Nothing: the plan goes on whatever happens.
    Nothing,
    /// That it can be started; else the plan fails with the error of the start.
    Started,
    /// That it can be started, else the plan fails with `context`; and that it ends well,
    /// else the plan fails with `failure` followed by what the program wrote as errors.
    Succeeded { context: String, failure: String },
    /// As `Succeeded`; but where the program ends badly and what it wrote as errors holds
    /// `excuse`, the line `instead` is printed and the plan ends well there.
    SucceededUnless { context: String, failure: String, excuse: String, instead: String },
}

/// One step of a plan.
#[derive(Debug, Clone, PartialEq, Eq)]
#[allow(inconsistent_fields)]
pub enum Step {
    /// Where no file is at `path`: print `instead`, and end the plan well there.
    UnlessExists { path: String, instead: String },
    /// Create the directory and those above it; a failure fails the plan with its error.
    CreateDir { path: String },
    /// Write the file; a failure fails the plan with `context`.
    WriteFile { path: String, contents: String, context: String },
    /// Remove the file; a failure fails the plan with `context`, and is passed over where
    /// there is none.
    RemoveFile { path: String, context: Option<String> },
    /// Run the program with the arguments.
    Run { program: String, args: Vec<String>, check: Check },
    /// Print the line.
    Say { line: String },
}

/// How to see whether the schedule is installed.
#[derive(Debug, Clone, PartialEq, Eq)]
pub enum Probe {
    /// It is installed if the program, run with the arguments, ends well.
    Succeeds { program: String, args: Vec<String> },
    /// It is installed if there is a file at the path.
    Exists { path: String },
    /// It is never installed.
    Never,
}

/// A [`Target`] with its texts as sequences of characters.
pub enum TargetModel {
    Windows,
    MacOs { agents_dir: Seq<char>, plist_path: Seq<char> },
    Linux { unit_dir: Seq<char>, service_path: Seq<char>, timer_path: Seq<char> },
    Unsupported,
}

/// A [`Check`] with its texts as sequences of characters.
pub enum CheckModel {
    Nothing,
    Started,
    Succeeded { context: Seq<char>, failure: Seq<char> },
    SucceededUnless { context: Seq<char>, failure: Seq<char>, excuse: Seq<char>, instead: Seq<char> },
}

/// A [`Step`] with its texts as sequences of characters.
#[allow(inconsistent_fields)]
pub enum StepModel {
    UnlessExists { path: Seq<char>, instead: Seq<char> },
    CreateDir { path: Seq<char> },
    WriteFile { path: Seq<char>, contents: Seq<char>, context: Seq<char> },
    RemoveFile { path: Seq<char>, context: Option<Seq<char>> },
    Run { program: Seq<char>, args: Seq<Seq<char>>, check: CheckModel },
    Say { line: Seq<char> },
}

/// A [`Probe`] with its texts as sequences of characters.
pub enum ProbeModel {
    Succeeds { program: Seq<char>, args: Seq<Seq<char>> },
    Exists { path: Seq<char> },
    Never,
}

/// The models of some steps.
pub open spec fn steps(plan: Seq<Step>) -> Seq<StepModel> {
    Seq::new(plan.len(), |i: int| plan[i]@)
}

impl View for Target {
    type V = TargetModel;

    open spec fn view(&self) -> TargetModel {
        match *self {
            Target::Windows => TargetModel::Windows,
            Target::MacOs { agents_dir, plist_path } => TargetModel::MacOs {
                agents_dir: agents_dir@,
                plist_path: plist_path@,
            },
            Target::Linux { unit_dir, service_path, timer_path } => TargetModel::Linux {
                unit_dir: unit_dir@,
                service_path: service_path@,
                timer_path: timer_path@,
            },
            Target::Unsupported => TargetModel::Unsupported,
        }
    }
}

impl View for Check {
    type V = CheckModel;

    open spec fn view(&self) -> CheckModel {
        match *self {
            Check::Nothing => CheckModel::Nothing,
            Check::Started => CheckModel::Started,
            Check::Succeeded { context, failure } => CheckModel::Succeeded {
                context: context@,
                failure: failure@,
            },
            Check::SucceededUnless { context, failure, excuse, instead } => CheckModel::SucceededUnless {
                context: context@,
                failure: failure@,
                excuse: excuse@,
                instead: instead@,
            },
        }
    }
}

impl View for Step {
    type V = StepModel;

    open spec fn view(&self) -> StepModel {
        match *self {
            Step::UnlessExists { path, instead } => StepModel::UnlessExists {
                path: path@,
                instead: instead@,
            },
            Step::CreateDir { path } => StepModel::CreateDir { path: path@ },
            Step::WriteFile { path, contents, context } => StepModel::WriteFile {
                path: path@,
                contents: contents@,
                context: context@,
            },
            Step::RemoveFile { path, context } => StepModel::RemoveFile {
                path: path@,
                context: match context {
                    Some(text) => Some(text@),
                    None => None,
                },
            },
            Step::Run { program, args, check } => StepModel::Run {
                program: program@,
                args: texts(args@),
                check: check@,
            },
            Step::Say { line } => StepModel::Say { line: line@ },
        }
    }
}

impl View for Probe {
    type V = ProbeModel;

    open spec fn view(&self) -> ProbeModel {
        match *self {
            Probe::Succeeds { program, args } => ProbeModel::Succeeds {
                program: program@,
                args: texts(args@),
            },
            Probe::Exists { path } => ProbeModel::Exists { path: path@ },
            Probe::Never => ProbeModel::Never,
        }
    }
}

/// A step that prints `line`.
pub open spec fn say(line: Seq<char>) -> StepModel {
    StepModel::Say { line }
}

/// A step that runs `systemctl` for the user with the arguments `args` after `--user`.
pub open spec fn systemctl(args: Seq<Seq<char>>, check: CheckModel) -> StepModel {
    StepModel::Run { program: "systemctl"@, args: seq!["--user"@] + args, check }
}

/// The property list of the launch agent that runs `exe` with `generate`.
pub open spec fn plist_text(exe: Seq<char>) -> Seq<char> {
    PLIST_HEAD@ + LAUNCHD_LABEL@ + PLIST_MIDDLE@ + exe + PLIST_TAIL@
}

/// The systemd service unit that runs `exe` with `generate`.
pub open spec fn service_text(exe: Seq<char>) -> Seq<char> {
    SERVICE_HEAD@ + exe + SERVICE_TAIL@
}

/// The steps that install the weekly schedule for the program at `exe`; none on a system
/// without a scheduler that is known here.
pub open spec fn install_steps(target: TargetModel, exe: Seq<char>) -> Option<Seq<StepModel>> {
    match target {
        TargetModel::Windows => Some(
            seq![
                StepModel::Run {
                    program: "schtasks"@,
                    args: seq![
                        "/Create"@,
                        "/SC"@,
                        "WEEKLY"@,
                        "/D"@,
                        "MON"@,
                        "/TN"@,
                        TASK_NAME@,
                        "/TR"@,
                        "\""@ + exe + "\" generate"@,
                        "/ST"@,
                        "06:00"@,
                        "/F"@,
                    ],
                    check: CheckModel::Succeeded {
                        context: "Failed to execute schtasks"@,
                        failure: "Failed to create scheduled task: "@,
                    },
                },
                say(INSTALLED@),
                say(EVERY_MONDAY@),
            ],
        ),
        TargetModel::MacOs { agents_dir, plist_path } => Some(
            seq![
                StepModel::CreateDir { path: agents_dir },
                StepModel::WriteFile {
                    path: plist_path,
                    contents: plist_text(exe),
                    context: "Failed to write plist file"@,
                },
                StepModel::Run {
                    program: "launchctl"@,
                    args: seq!["load"@, plist_path],
                    check: CheckModel::Succeeded {
                        context: "Failed to execute launchctl"@,
                        failure: "Failed to load launch agent: "@,
                    },
                },
                say(INSTALLED@),
                say(EVERY_MONDAY@),
            ],
        ),
        TargetModel::Linux { unit_dir, service_path, timer_path } => Some(
            seq![
                StepModel::CreateDir { path: unit_dir },
                StepModel::WriteFile {
                    path: service_path,
                    contents: service_text(exe),
                    context: "Failed to write service file"@,
                },
                StepModel::WriteFile {
                    path: timer_path,
                    contents: TIMER_UNIT@,
                    context: "Failed to write timer file"@,
                },
                systemctl(seq!["daemon-reload"@], CheckModel::Started),
                systemctl(
                    seq!["enable"@, "--now"@, TIMER_NAME@],
                    CheckModel::Succeeded {
                        context: "Failed to enable timer"@,
                        failure: "Failed to enable timer: "@,
                    },
                ),
                say(INSTALLED@),
                say(EVERY_MONDAY@),
            ],
        ),
        TargetModel::Unsupported => None,
    }
}

/// The steps that remove the weekly schedule; none on a system without a scheduler that
/// is known here.
pub open spec fn uninstall_steps(target: TargetModel) -> Option<Seq<StepModel>> {
    match target {
        TargetModel::Windows => Some(
            seq![
                StepModel::Run {
                    program: "schtasks"@,
                    args: seq!["/Delete"@, "/TN"@, TASK_NAME@, "/F"@],
                    check: CheckModel::SucceededUnless {
                        context: "Failed to execute schtasks"@,
                        failure: "Failed to remove scheduled task: "@,
                        excuse: "does not exist"@,
                        instead: NOT_INSTALLED@,
                    },
                },
                say(REMOVED@),
            ],
        ),
        TargetModel::MacOs { agents_dir, plist_path } => Some(
            seq![
                StepModel::UnlessExists { path: plist_path, instead: NOT_INSTALLED@ },
                StepModel::Run {
                    program: "launchctl"@,
                    args: seq!["unload"@, plist_path],
                    check: CheckModel::Nothing,
                },
                StepModel::RemoveFile {
                    path: plist_path,
                    context: Some("Failed to remove plist file"@),
                },
                say(REMOVED@),
            ],
        ),
        TargetModel::Linux { unit_dir, service_path, timer_path } => Some(
            seq![
                systemctl(seq!["disable"@, "--now"@, TIMER_NAME@], CheckModel::Nothing),
                StepModel::RemoveFile { path: service_path, context: None },
                StepModel::RemoveFile { path: timer_path, context: None },
                systemctl(seq!["daemon-reload"@], CheckModel::Nothing),
                say(REMOVED@),
            ],
        ),
        TargetModel::Unsupported => None,
    }
}

/// How to see whether the weekly schedule is installed.
pub open spec fn installed_probe(target: TargetModel) -> ProbeModel {
    match target {
        TargetModel::Windows => ProbeModel::Succeeds {
            program: "schtasks"@,
            args: seq!["/Query"@, "/TN"@, TASK_NAME@],
        },
        TargetModel::MacOs { agents_dir, plist_path } => ProbeModel::Exists { path: plist_path },
        TargetModel::Linux { unit_dir, service_path, timer_path } => ProbeModel::Succeeds {
            program: "systemctl"@,
            args: seq!["--user"@, "is-enabled"@, TIMER_NAME@],
        },
        TargetModel::Unsupported => ProbeModel::Never,
    }
}

/// Whether `result` is the plan `wanted`, or the error of a system that is not supported
/// where there is no plan.
pub open spec fn is_plan(result: Result<Vec<Step>, String>, wanted: Option<Seq<StepModel>>) -> bool {
    match result {
        Ok(plan) => wanted == Some(steps(plan@)),
        Err(message) => wanted is None && message@ == UNSUPPORTED@,
    }
}

/// A step that runs `program` with the arguments `first`, and after it `rest`.
fn run(program: &str, first: &str, rest: Vec<&str>, check: Check) -> (step: Step)
    ensures
        step@ == (StepModel::Run {
            program: program@,
            args: seq![first@] + Seq::new(rest@.len(), |i: int| rest@[i]@),
            check: check@,
        }),
{
    Step::Run { program: owned(program), args: arguments(first, &rest), check }
}

/// A step that prints `line`.
fn print(line: &str) -> (step: Step)
    ensures
        step@ == say(line@),
{
    Step::Say { line: owned(line) }
}

/// A step that writes a file.
fn write(path: &str, contents: String, context: &str) -> (step: Step)
    ensures
        step@ == (StepModel::WriteFile { path: path@, contents: contents@, context: context@ }),
{
    Step::WriteFile { path: owned(path), contents, context: owned(context) }
}

/// A check that the program ends well.
fn succeeded(context: &str, failure: &str) -> (check: Check)
    ensures
        check@ == (CheckModel::Succeeded { context: context@, failure: failure@ }),
{
    Check::Succeeded { context: owned(context), failure: owned(failure) }
}

/// A plan of the given steps.
fn plan_of(list: Vec<Step>) -> (result: Result<Vec<Step>, String>)
    ensures
        result == Ok::<Vec<Step>, String>(list),
{
    Ok(list)
}

/// The steps that install the weekly schedule, which runs the program at `exe_path` with
/// `generate` every Monday at 6:00. Fails on a system without a scheduler that is known
/// here.
pub fn install_schedule(target: &Target, exe_path: &str) -> (result: Result<Vec<Step>, String>)
    ensures
        is_plan(result, install_steps(target@, exe_path@)),
{
    match target {
        Target::Windows => {
            let mut command = owned("\"");
            command.append(exe_path);
            command.append("\" generate");
            let list = vec![
                run(
                    "schtasks",
                    "/Create",
                    vec![
                        "/SC",
                        "WEEKLY",
                        "/D",
                        "MON",
                        "/TN",
                        TASK_NAME,
                        "/TR",
                        command.as_str(),
                        "/ST",
                        "06:00",
                        "/F",
                    ],
                    succeeded("Failed to execute schtasks", "Failed to create scheduled task: "),
                ),
                print(INSTALLED),
                print(EVERY_MONDAY),
            ];
            assert(steps(list@) =~= install_steps(target@, exe_path@)->0) by {
                let wanted = install_steps(target@, exe_path@)->0;
                assert(list@[0]@->Run_args =~= wanted[0]->Run_args);
            }
            plan_of(list)
        },
        Target::MacOs { agents_dir, plist_path } => {
            let mut contents = owned(PLIST_HEAD);
            contents.append(LAUNCHD_LABEL);
            contents.append(PLIST_MIDDLE);
            contents.append(exe_path);
            contents.append(PLIST_TAIL);
            let list = vec![
                Step::CreateDir { path: agents_dir.clone() },
                write(plist_path.as_str(), contents, "Failed to write plist file"),
                run(
                    "launchctl",
                    "load",
                    vec![plist_path.as_str()],
                    succeeded("Failed to execute launchctl", "Failed to load launch agent: "),
                ),
                print(INSTALLED),
                print(EVERY_MONDAY),
            ];
            assert(steps(list@) =~= install_steps(target@, exe_path@)->0) by {
                let wanted = install_steps(target@, exe_path@)->0;
                assert(list@[2]@->Run_args =~= wanted[2]->Run_args);
            }
            plan_of(list)
        },
        Target::Linux { unit_dir, service_path, timer_path } => {
            let mut service = owned(SERVICE_HEAD);
            service.append(exe_path);
            service.append(SERVICE_TAIL);
            let list = vec![
                Step::CreateDir { path: unit_dir.clone() },
                write(service_path.as_str(), service, "Failed to write service file"),
                write(timer_path.as_str(), owned(TIMER_UNIT), "Failed to write timer file"),
                run("systemctl", "--user", vec!["daemon-reload"], Check::Started),
                run(
                    "systemctl",
                    "--user",
                    vec!["enable", "--now", TIMER_NAME],
                    succeeded("Failed to enable timer", "Failed to enable timer: "),
                ),
                print(INSTALLED),
                print(EVERY_MONDAY),
            ];
            assert(steps(list@) =~= install_steps(target@, exe_path@)->0) by {
                let wanted = install_steps(target@, exe_path@)->0;
                assert(list@[3]@->Run_args =~= wanted[3]->Run_args);
                assert(list@[4]@->Run_args =~= wanted[4]->Run_args);
            }
            plan_of(list)
        },
        Target::Unsupported => Err(owned(UNSUPPORTED)),
    }
}

/// The steps that remove the weekly schedule. Fails on a system without a scheduler that
/// is known here.
pub fn uninstall_schedule(target: &Target) -> (result: Result<Vec<Step>, String>)
    ensures
        is_plan(result, uninstall_steps(target@)),
{
    match target {
        Target::Windows => {
            let list = vec![
                run(
                    "schtasks",
                    "/Delete",
                    vec!["/TN", TASK_NAME, "/F"],
                    Check::SucceededUnless {
                        context: owned("Failed to execute schtasks"),
                        failure: owned("Failed to remove scheduled task: "),
                        excuse: owned("does not exist"),
                        instead: owned(NOT_INSTALLED),
                    },
                ),
                print(REMOVED),
            ];
            assert(steps(list@) =~= uninstall_steps(target@)->0) by {
                let wanted = uninstall_steps(target@)->0;
                assert(list@[0]@->Run_args =~= wanted[0]->Run_args);
            }
            plan_of(list)
        },
        Target::MacOs { agents_dir, plist_path } => {
            let list = vec![
                Step::UnlessExists { path: plist_path.clone(), instead: owned(NOT_INSTALLED) },
                run("launchctl", "unload", vec![plist_path.as_str()], Check::Nothing),
                Step::RemoveFile {
                    path: plist_path.clone(),
                    context: Some(owned("Failed to remove plist file")),
                },
                print(REMOVED),
            ];
            assert(steps(list@) =~= uninstall_steps(target@)->0) by {
                let wanted = uninstall_steps(target@)->0;
                assert(list@[1]@->Run_args =~= wanted[1]->Run_args);
            }
            plan_of(list)
        },
        Target::Linux { unit_dir, service_path, timer_path } => {
            let list = vec![
                run("systemctl", "--user", vec!["disable", "--now", TIMER_NAME], Check::Nothing),
                Step::RemoveFile { path: service_path.clone(), context: None },
                Step::RemoveFile { path: timer_path.clone(), context: None },
                run("systemctl", "--user", vec!["daemon-reload"], Check::Nothing),
                print(REMOVED),
            ];
            assert(steps(list@) =~= uninstall_steps(target@)->0) by {
                let wanted = uninstall_steps(target@)->0;
                assert(list@[0]@->Run_args =~= wanted[0]->Run_args);
                assert(list@[3]@->Run_args =~= wanted[3]->Run_args);
            }
            plan_of(list)
        },
        Target::Unsupported => Err(owned(UNSUPPORTED)),
    }
}

/// How to see whether the weekly schedule is installed.
pub fn is_schedule_installed(target: &Target) -> (probe: Probe)
    ensures
        probe@ == installed_probe(target@),
{
    match target {
        Target::Windows => {
            let args = arguments("/Query", &vec!["/TN", TASK_NAME]);
            assert(texts(args@) =~= seq!["/Query"@, "/TN"@, TASK_NAME@]);
            Probe::Succeeds { program: owned("schtasks"), args }
        },
        Target::MacOs { agents_dir, plist_path } => Probe::Exists { path: plist_path.clone() },
        Target::Linux { unit_dir, service_path, timer_path } => {
            let args = arguments("--user", &vec!["is-enabled", TIMER_NAME]);
            assert(texts(args@) =~= seq!["--user"@, "is-enabled"@, TIMER_NAME@]);
            Probe::Succeeds { program: owned("systemctl"), args }
        },
        Target::Unsupported => Probe::Never,
    }
}

} // verus!
