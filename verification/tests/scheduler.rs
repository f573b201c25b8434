use liw_core::scheduler::{
    install_schedule, is_schedule_installed, uninstall_schedule, Check, Probe, Step, Target,
};

fn strings(list: &[&str]) -> Vec<String> {
    list.iter().map(|s| s.to_string()).collect()
}

fn linux() -> Target {
    Target::Linux {
        unit_dir: "/home/u/.config/systemd/user".to_string(),
        service_path: "/home/u/.config/systemd/user/liw-wallpaper.service".to_string(),
        timer_path: "/home/u/.config/systemd/user/liw-wallpaper.timer".to_string(),
    }
}

fn macos() -> Target {
    Target::MacOs {
        agents_dir: "/Users/u/Library/LaunchAgents".to_string(),
        plist_path: "/Users/u/Library/LaunchAgents/com.lifeinweeks.wallpaper.plist".to_string(),
    }
}

#[test]
fn install_on_linux_writes_two_units_and_enables_the_timer() {
    let plan = install_schedule(&linux(), "/usr/bin/liw").unwrap();
    assert_eq!(plan.len(), 7);
    assert_eq!(plan[0], Step::CreateDir { path: "/home/u/.config/systemd/user".to_string() });
    assert_eq!(
        plan[1],
        Step::WriteFile {
            path: "/home/u/.config/systemd/user/liw-wallpaper.service".to_string(),
            contents: "[Unit]\nDescription=Life in Weeks Wallpaper Generator\n\n[Service]\nType=oneshot\nExecStart=/usr/bin/liw generate\n".to_string(),
            context: "Failed to write service file".to_string(),
        }
    );
    assert_eq!(
        plan[2],
        Step::WriteFile {
            path: "/home/u/.config/systemd/user/liw-wallpaper.timer".to_string(),
            contents: "[Unit]\nDescription=Weekly Life in Weeks Wallpaper Update\n\n[Timer]\nOnCalendar=Mon *-*-* 06:00:00\nPersistent=true\n\n[Install]\nWantedBy=timers.target\n".to_string(),
            context: "Failed to write timer file".to_string(),
        }
    );
    assert_eq!(
        plan[3],
        Step::Run {
            program: "systemctl".to_string(),
            args: strings(&["--user", "daemon-reload"]),
            check: Check::Started,
        }
    );
    assert_eq!(
        plan[4],
        Step::Run {
            program: "systemctl".to_string(),
            args: strings(&["--user", "enable", "--now", "liw-wallpaper.timer"]),
            check: Check::Succeeded {
                context: "Failed to enable timer".to_string(),
                failure: "Failed to enable timer: ".to_string(),
            },
        }
    );
    assert_eq!(plan[5], Step::Say { line: "Weekly schedule installed successfully.".to_string() });
    assert_eq!(
        plan[6],
        Step::Say { line: "The wallpaper will update every Monday at 6:00 AM.".to_string() }
    );
}

#[test]
fn install_on_windows_creates_a_weekly_task() {
    let plan = install_schedule(&Target::Windows, "C:\\liw.exe").unwrap();
    assert_eq!(plan.len(), 3);
    assert_eq!(
        plan[0],
        Step::Run {
            program: "schtasks".to_string(),
            args: strings(&[
                "/Create",
                "/SC",
                "WEEKLY",
                "/D",
                "MON",
                "/TN",
                "LifeInWeeksWallpaper",
                "/TR",
                "\"C:\\liw.exe\" generate",
                "/ST",
                "06:00",
                "/F",
            ]),
            check: Check::Succeeded {
                context: "Failed to execute schtasks".to_string(),
                failure: "Failed to create scheduled task: ".to_string(),
            },
        }
    );
}

#[test]
fn install_on_macos_writes_and_loads_a_launch_agent() {
    let plan = install_schedule(&macos(), "/Applications/liw").unwrap();
    assert_eq!(plan.len(), 5);
    assert_eq!(plan[0], Step::CreateDir { path: "/Users/u/Library/LaunchAgents".to_string() });
    match &plan[1] {
        Step::WriteFile { path, contents, context } => {
            assert_eq!(path, "/Users/u/Library/LaunchAgents/com.lifeinweeks.wallpaper.plist");
            assert_eq!(context, "Failed to write plist file");
            assert!(contents.starts_with("<?xml version=\"1.0\" encoding=\"UTF-8\"?>\n<!DOCTYPE plist"));
            assert!(contents.contains("    <key>Label</key>\n    <string>com.lifeinweeks.wallpaper</string>\n"));
            assert!(contents.contains("        <string>/Applications/liw</string>\n        <string>generate</string>\n"));
            assert!(contents.contains("        <key>Weekday</key>\n        <integer>1</integer>\n        <key>Hour</key>\n        <integer>6</integer>\n"));
            assert!(contents.ends_with("    <key>RunAtLoad</key>\n    <false/>\n</dict>\n</plist>\n"));
        }
        other => panic!("not a write: {:?}", other),
    }
    assert_eq!(
        plan[2],
        Step::Run {
            program: "launchctl".to_string(),
            args: strings(&["load", "/Users/u/Library/LaunchAgents/com.lifeinweeks.wallpaper.plist"]),
            check: Check::Succeeded {
                context: "Failed to execute launchctl".to_string(),
                failure: "Failed to load launch agent: ".to_string(),
            },
        }
    );
}

#[test]
fn nothing_is_planned_where_no_scheduler_is_known() {
    assert_eq!(
        install_schedule(&Target::Unsupported, "liw"),
        Err("Scheduling not supported on this platform".to_string())
    );
    assert_eq!(
        uninstall_schedule(&Target::Unsupported),
        Err("Scheduling not supported on this platform".to_string())
    );
    assert_eq!(is_schedule_installed(&Target::Unsupported), Probe::Never);
}

#[test]
fn uninstall_plans() {
    let plan = uninstall_schedule(&Target::Windows).unwrap();
    assert_eq!(
        plan,
        vec![
            Step::Run {
                program: "schtasks".to_string(),
                args: strings(&["/Delete", "/TN", "LifeInWeeksWallpaper", "/F"]),
                check: Check::SucceededUnless {
                    context: "Failed to execute schtasks".to_string(),
                    failure: "Failed to remove scheduled task: ".to_string(),
                    excuse: "does not exist".to_string(),
                    instead: "Schedule was not installed.".to_string(),
                },
            },
            Step::Say { line: "Weekly schedule removed successfully.".to_string() },
        ]
    );
    let plist = "/Users/u/Library/LaunchAgents/com.lifeinweeks.wallpaper.plist".to_string();
    assert_eq!(
        uninstall_schedule(&macos()).unwrap(),
        vec![
            Step::UnlessExists {
                path: plist.clone(),
                instead: "Schedule was not installed.".to_string()
            },
            Step::Run {
                program: "launchctl".to_string(),
                args: vec!["unload".to_string(), plist.clone()],
                check: Check::Nothing,
            },
            Step::RemoveFile {
                path: plist,
                context: Some("Failed to remove plist file".to_string())
            },
            Step::Say { line: "Weekly schedule removed successfully.".to_string() },
        ]
    );
    assert_eq!(
        uninstall_schedule(&linux()).unwrap(),
        vec![
            Step::Run {
                program: "systemctl".to_string(),
                args: strings(&["--user", "disable", "--now", "liw-wallpaper.timer"]),
                check: Check::Nothing,
            },
            Step::RemoveFile {
                path: "/home/u/.config/systemd/user/liw-wallpaper.service".to_string(),
                context: None
            },
            Step::RemoveFile {
                path: "/home/u/.config/systemd/user/liw-wallpaper.timer".to_string(),
                context: None
            },
            Step::Run {
                program: "systemctl".to_string(),
                args: strings(&["--user", "daemon-reload"]),
                check: Check::Nothing,
            },
            Step::Say { line: "Weekly schedule removed successfully.".to_string() },
        ]
    );
}

#[test]
fn probes() {
    assert_eq!(
        is_schedule_installed(&Target::Windows),
        Probe::Succeeds {
            program: "schtasks".to_string(),
            args: strings(&["/Query", "/TN", "LifeInWeeksWallpaper"]),
        }
    );
    assert_eq!(
        is_schedule_installed(&macos()),
        Probe::Exists {
            path: "/Users/u/Library/LaunchAgents/com.lifeinweeks.wallpaper.plist".to_string()
        }
    );
    assert_eq!(
        is_schedule_installed(&linux()),
        Probe::Succeeds {
            program: "systemctl".to_string(),
            args: strings(&["--user", "is-enabled", "liw-wallpaper.timer"]),
        }
    );
}
