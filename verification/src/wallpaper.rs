//! Setting the desktop background: what to do on each system to show an image that has
//! been saved. The plan is carried out by the caller.

use crate::text::{arguments, contains, has_substring, owned, texts};
use vstd::prelude::*;
use vstd::string::StringExecFns;

verus! {

/// The AppleScript that sets the picture of every desktop, up to the path.
pub const APPLE_SCRIPT_HEAD: &'static str = r#"
        tell application "System Events"
            tell every desktop
                set picture to POSIX file ""#;

/// The AppleScript that sets the picture of every desktop, after the path.
pub const APPLE_SCRIPT_TAIL: &'static str = r#""
            end tell
        end tell
        "#;

/// The Plasma script that sets the image of every desktop, up to the path.
pub const PLASMA_SCRIPT_HEAD: &'static str = r#"
            var allDesktops = desktops();
            for (var i = 0; i < allDesktops.length; i++) {
                var d = allDesktops[i];
                d.wallpaperPlugin = "org.kde.image";
                d.currentConfigGroup = ["Wallpaper", "org.kde.image", "General"];
                d.writeConfig("Image", "file://"#;

/// The Plasma script that sets the image of every desktop, after the path.
pub const PLASMA_SCRIPT_TAIL: &'static str = r#"");
            }
            "#;

/// The error on a system whose desktop is not known here.
pub const UNSUPPORTED: &'static str = "Wallpaper setting not supported on this platform";

/// The desktop of the system. On Linux it is told by two variables of the environment,
/// `XDG_CURRENT_DESKTOP` and `DESKTOP_SESSION`, each empty where it is not set.
#[derive(Debug, Clone, PartialEq, Eq)]
pub enum Desktop {
    Windows,
    MacOs,
    Linux { desktop: String, session: String },
    Unsupported,
}

/// A program to run, with its arguments.
#[derive(Debug, Clone, PartialEq, Eq)]
pub struct Command {
    pub program: String,
    pub args: Vec<String>,
}

/// How to set the desktop background.
#[derive(Debug, Clone, PartialEq, Eq)]
pub enum Setter {
    /// Hand the path to the system's own call for the desktop background.
    SystemCall { path: String },
    /// Run the script; it has to start and to end well.
    Script { command: Command },
    /// Run the commands in order, as long as each can be started; the last one run has to
    /// end well. Where the first cannot be started and there is a `fallback`, that is run
    /// in its place.
    Chain { commands: Vec<Command>, fallback: Option<Command> },
}

/// A [`Desktop`] with its texts as sequences of characters.
pub enum DesktopModel {
    Windows,
    MacOs,
    Linux { desktop: Seq<char>, session: Seq<char> },
    Unsupported,
}

/// A [`Command`] with its texts as sequences of characters.
pub struct CommandModel {
    pub program: Seq<char>,
    pub args: Seq<Seq<char>>,
}

/// A [`Setter`] with its texts as sequences of characters.
pub enum SetterModel {
    SystemCall { path: Seq<char> },
    Script { command: CommandModel },
    Chain { commands: Seq<CommandModel>, fallback: Option<CommandModel> },
}

impl View for Desktop {
    type V = DesktopModel;

    open spec fn view(&self) -> DesktopModel {
        match *self {
            Desktop::Windows => DesktopModel::Windows,
            Desktop::MacOs => DesktopModel::MacOs,
            Desktop::Linux { desktop, session } => DesktopModel::Linux {
                desktop: desktop@,
                session: session@,
            },
            Desktop::Unsupported => DesktopModel::Unsupported,
        }
    }
}

impl View for Command {
    type V = CommandModel;

    open spec fn view(&self) -> CommandModel {
        CommandModel { program: self.program@, args: texts(self.args@) }
    }
}

/// The models of some commands.
pub open spec fn commands(list: Seq<Command>) -> Seq<CommandModel> {
    Seq::new(list.len(), |i: int| list[i]@)
}

impl View for Setter {
    type V = SetterModel;

    open spec fn view(&self) -> SetterModel {
        match *self {
            Setter::SystemCall { path } => SetterModel::SystemCall { path: path@ },
            Setter::Script { command } => SetterModel::Script { command: command@ },
            Setter::Chain { commands: list, fallback } => SetterModel::Chain {
                commands: commands(list@),
                fallback: match fallback {
                    Some(command) => Some(command@),
                    None => None,
                },
            },
        }
    }
}

/// The command that runs `program` with the arguments `first`, and after it `rest`.
pub open spec fn command(program: Seq<char>, first: Seq<char>, rest: Seq<Seq<char>>) -> CommandModel {
    CommandModel { program, args: seq![first] + rest }
}

/// The address of the file at `path`.
pub open spec fn file_uri(path: Seq<char>) -> Seq<char> {
    "file://"@ + path
}

/// The command that sets the key `key` of the settings `schema` to `value`.
pub open spec fn gsettings(schema: Seq<char>, key: Seq<char>, value: Seq<char>) -> CommandModel {
    command("gsettings"@, "set"@, seq![schema, key, value])
}

/// How to set the image at `path` as the desktop background of a Linux desktop. The
/// desktop is told by the first of these names that `desktop` or `session` holds: GNOME,
/// KDE Plasma, XFCE, MATE, Cinnamon. Any other desktop is tried with `feh`, and with
/// `nitrogen` where `feh` cannot be started.
pub open spec fn linux_setter(desktop: Seq<char>, session: Seq<char>, path: Seq<char>) -> SetterModel {
    if has_substring(desktop, "GNOME"@) || has_substring(session, "gnome"@) {
        SetterModel::Chain {
            commands: seq![
                gsettings("org.gnome.desktop.background"@, "picture-uri"@, file_uri(path)),
                gsettings("org.gnome.desktop.background"@, "picture-uri-dark"@, file_uri(path)),
            ],
            fallback: None,
        }
    } else if has_substring(desktop, "KDE"@) || has_substring(session, "plasma"@) {
        SetterModel::Chain {
            commands: seq![
                command(
                    "qdbus"@,
                    "org.kde.plasmashell"@,
                    seq![
                        "/PlasmaShell"@,
                        "org.kde.PlasmaShell.evaluateScript"@,
                        PLASMA_SCRIPT_HEAD@ + path + PLASMA_SCRIPT_TAIL@,
                    ],
                ),
            ],
            fallback: None,
        }
    } else if has_substring(desktop, "XFCE"@) || has_substring(session, "xfce"@) {
        SetterModel::Chain {
            commands: seq![
                command(
                    "xfconf-query"@,
                    "-c"@,
                    seq![
                        "xfce4-desktop"@,
                        "-p"@,
                        "/backdrop/screen0/monitor0/workspace0/last-image"@,
                        "-s"@,
                        path,
                    ],
                ),
            ],
            fallback: None,
        }
    } else if has_substring(desktop, "MATE"@) {
        SetterModel::Chain {
            commands: seq![gsettings("org.mate.background"@, "picture-filename"@, path)],
            fallback: None,
        }
    } else if has_substring(desktop, "Cinnamon"@) {
        SetterModel::Chain {
            commands: seq![
                gsettings("org.cinnamon.desktop.background"@, "picture-uri"@, file_uri(path)),
            ],
            fallback: None,
        }
    } else {
        SetterModel::Chain {
            commands: seq![command("feh"@, "--bg-fill"@, seq![path])],
            fallback: Some(command("nitrogen"@, "--set-zoom-fill"@, seq![path])),
        }
    }
}

/// How to set the image at `path` as the desktop background; nothing on a system whose
/// desktop is not known here.
pub open spec fn setter(desktop: DesktopModel, path: Seq<char>) -> Option<SetterModel> {
    match desktop {
        DesktopModel::Windows => Some(SetterModel::SystemCall { path }),
        DesktopModel::MacOs => Some(
            SetterModel::Script {
                command: command(
                    "osascript"@,
                    "-e"@,
                    seq![APPLE_SCRIPT_HEAD@ + path + APPLE_SCRIPT_TAIL@],
                ),
            },
        ),
        DesktopModel::Linux { desktop, session } => Some(linux_setter(desktop, session, path)),
        DesktopModel::Unsupported => None,
    }
}

/// The command that runs `program` with the arguments `first`, and after it `rest`.
fn run(program: &str, first: &str, rest: Vec<&str>) -> (result: Command)
    ensures
        result@ == command(program@, first@, Seq::new(rest@.len(), |i: int| rest@[i]@)),
{
    Command { program: owned(program), args: arguments(first, &rest) }
}

/// The command that sets the key `key` of the settings `schema` to `value`.
fn set_key(schema: &str, key: &str, value: &str) -> (result: Command)
    ensures
        result@ == gsettings(schema@, key@, value@),
{
    let result = run("gsettings", "set", vec![schema, key, value]);
    assert(result@.args =~= gsettings(schema@, key@, value@).args);
    result
}

/// A chain of one command, without a fallback.
fn single(only: Command) -> (result: Setter)
    ensures
        result@ == (SetterModel::Chain { commands: seq![only@], fallback: None }),
{
    let list = vec![only];
    assert(commands(list@) =~= seq![only@]);
    Setter::Chain { commands: list, fallback: None }
}

/// How to set the image at `path` as the desktop background. Fails on a system whose
/// desktop is not known here.
pub fn set_wallpaper(desktop: &Desktop, path: &str) -> (result: Result<Setter, String>)
    ensures
        match result {
            Ok(plan) => setter(desktop@, path@) == Some(plan@),
            Err(message) => setter(desktop@, path@) is None && message@ == UNSUPPORTED@,
        },
{
    match desktop {
        Desktop::Windows => Ok(Setter::SystemCall { path: owned(path) }),
        Desktop::MacOs => {
            let mut script = owned(APPLE_SCRIPT_HEAD);
            script.append(path);
            script.append(APPLE_SCRIPT_TAIL);
            let command = run("osascript", "-e", vec![script.as_str()]);
            assert(command@.args =~= setter(desktop@, path@)->0->Script_command.args);
            Ok(Setter::Script { command })
        },
        Desktop::Linux { desktop: current, session } => Ok(
            set_wallpaper_linux(current.as_str(), session.as_str(), path),
        ),
        Desktop::Unsupported => Err(owned(UNSUPPORTED)),
    }
}

/// How to set the image at `path` as the desktop background of a Linux desktop.
pub fn set_wallpaper_linux(desktop: &str, session: &str, path: &str) -> (plan: Setter)
    ensures
        plan@ == linux_setter(desktop@, session@, path@),
{
    let mut uri = owned("file://");
    uri.append(path);
    if contains(desktop, "GNOME") || contains(session, "gnome") {
        let list = vec![
            set_key("org.gnome.desktop.background", "picture-uri", uri.as_str()),
            set_key("org.gnome.desktop.background", "picture-uri-dark", uri.as_str()),
        ];
        assert(commands(list@) =~= linux_setter(desktop@, session@, path@)->Chain_commands);
        Setter::Chain { commands: list, fallback: None }
    } else if contains(desktop, "KDE") || contains(session, "plasma") {
        let mut script = owned(PLASMA_SCRIPT_HEAD);
        script.append(path);
        script.append(PLASMA_SCRIPT_TAIL);
        let command = run(
            "qdbus",
            "org.kde.plasmashell",
            vec!["/PlasmaShell", "org.kde.PlasmaShell.evaluateScript", script.as_str()],
        );
        assert(command@.args =~= linux_setter(desktop@, session@, path@)->Chain_commands[0].args);
        single(command)
    } else if contains(desktop, "XFCE") || contains(session, "xfce") {
        let command = run(
            "xfconf-query",
            "-c",
            vec![
                "xfce4-desktop",
                "-p",
                "/backdrop/screen0/monitor0/workspace0/last-image",
                "-s",
                path,
            ],
        );
        assert(command@.args =~= linux_setter(desktop@, session@, path@)->Chain_commands[0].args);
        single(command)
    } else if contains(desktop, "MATE") {
        single(set_key("org.mate.background", "picture-filename", path))
    } else if contains(desktop, "Cinnamon") {
        single(set_key("org.cinnamon.desktop.background", "picture-uri", uri.as_str()))
    } else {
        let first = run("feh", "--bg-fill", vec![path]);
        let second = run("nitrogen", "--set-zoom-fill", vec![path]);
        assert(first@.args =~= command("feh"@, "--bg-fill"@, seq![path@]).args);
        assert(second@.args =~= command("nitrogen"@, "--set-zoom-fill"@, seq![path@]).args);
        let list = vec![first];
        assert(commands(list@) =~= seq![first@]);
        Setter::Chain { commands: list, fallback: Some(second) }
    }
}

} // verus!
