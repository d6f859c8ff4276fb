use screenshit::hotkey::{
    advance, choose_desktop, desktop_label, gnome_list_query, hotkey_command, install_gnome,
    install_xfce, invocation_at, manual_instructions, start, Desktop, Progress, GNOME_KB_PATH,
    GNOME_MEDIA_KEYS,
};
use screenshit::gsettings::parse_string_array;

fn args(a: &[&str]) -> Vec<String> {
    a.iter().map(|s| s.to_string()).collect()
}

#[test]
fn gnome_plan_registers_and_binds() {
    let plan = install_gnome("/usr/bin/screenshit", "['/x/']");
    assert_eq!(plan.steps.len(), 5);
    let list = format!("['/x/', '{}']", GNOME_KB_PATH);
    let schema = format!("{}.custom-keybinding:{}", GNOME_MEDIA_KEYS, GNOME_KB_PATH);
    let expected: Vec<Vec<String>> = vec![
        args(&["set", GNOME_MEDIA_KEYS, "custom-keybindings", &list]),
        args(&["set", &schema, "name", "screenshit"]),
        args(&["set", &schema, "command", "/usr/bin/screenshit"]),
        args(&["set", &schema, "binding", "Print"]),
        args(&["set", "org.gnome.shell.keybindings", "show-screenshot-ui", "[]"]),
    ];
    for (step, want) in plan.steps.iter().zip(expected.iter()) {
        assert_eq!(step.run.program, "gsettings");
        assert_eq!(&step.run.args, want);
        assert!(step.fallback.is_none());
    }
    assert_eq!(
        plan.success,
        "PrintScreen now launches: /usr/bin/screenshit\n\
         (GNOME's built-in screenshot UI was unbound from Print; restore it with\n\
         gsettings reset org.gnome.shell.keybindings show-screenshot-ui\n\
         and remove ours with\n\
         gsettings reset org.gnome.settings-daemon.plugins.media-keys custom-keybindings)"
    );
}

#[test]
fn gnome_reinstall_keeps_one_entry() {
    let first = install_gnome("cmd", "@as []");
    let written = first.steps[0].run.args[3].clone();
    assert_eq!(written, format!("['{}']", GNOME_KB_PATH));
    let second = install_gnome("cmd", &written);
    assert_eq!(second.steps[0].run.args[3], written);
    assert_eq!(parse_string_array(&written), vec![GNOME_KB_PATH.to_string()]);
}

#[test]
fn gnome_query_reads_the_list() {
    let q = gnome_list_query();
    assert_eq!(q.program, "gsettings");
    assert_eq!(q.args, args(&["get", GNOME_MEDIA_KEYS, "custom-keybindings"]));
}

#[test]
fn xfce_plan_creates_or_updates() {
    let plan = install_xfce("screenshit --region");
    assert_eq!(plan.steps.len(), 1);
    let st = &plan.steps[0];
    assert_eq!(st.run.program, "xfconf-query");
    assert_eq!(
        st.run.args,
        args(&[
            "-c", "xfce4-keyboard-shortcuts", "-p", "/commands/custom/Print", "-n", "-t",
            "string", "-s", "screenshit --region"
        ])
    );
    let fb = st.fallback.as_ref().unwrap();
    assert_eq!(fb.program, "xfconf-query");
    assert_eq!(
        fb.args,
        args(&["-c", "xfce4-keyboard-shortcuts", "-p", "/commands/custom/Print", "-s", "screenshit --region"])
    );
    assert_eq!(
        plan.success,
        "PrintScreen now launches: screenshit --region\n\
         (remove it with: xfconf-query -c xfce4-keyboard-shortcuts -p /commands/custom/Print -r)"
    );
}

#[test]
fn manual_instructions_text() {
    let t = manual_instructions("/bin/s", "KDE");
    assert_eq!(
        t,
        "Automatic hotkey setup is not supported for your desktop (KDE).\n\
         Bind the Print key to this command yourself:\n\n\
         \x20   /bin/s\n\n\
         - KDE Plasma: System Settings -> Shortcuts -> Add Command\n\
         - sway/i3:    bindsym Print exec /bin/s\n\
         - Hyprland:   bind = , Print, exec, /bin/s"
    );
    assert!(manual_instructions("c", "").contains("your desktop (unknown)."));
}

#[test]
fn desktop_detection() {
    assert_eq!(desktop_label("ubuntu:GNOME"), "UBUNTU:GNOME");
    assert_eq!(desktop_label("xfce"), "XFCE");
    assert_eq!(choose_desktop(&desktop_label("ubuntu:gnome")), Desktop::Gnome);
    assert_eq!(choose_desktop(&desktop_label("XFCE")), Desktop::Xfce);
    assert_eq!(choose_desktop(&desktop_label("GNOME-XFCE")), Desktop::Gnome);
    assert_eq!(choose_desktop(&desktop_label("KDE")), Desktop::Other);
    assert_eq!(choose_desktop(""), Desktop::Other);
}

#[test]
fn hotkey_command_with_region() {
    assert_eq!(hotkey_command("/usr/bin/screenshit", true), "/usr/bin/screenshit --region");
    assert_eq!(hotkey_command("/usr/bin/screenshit", false), "/usr/bin/screenshit");
}

#[test]
fn plan_run_stops_at_first_failure() {
    let plan = install_gnome("c", "[]");
    let p = start(&plan);
    let (step, fb) = match p {
        Progress::Running { step, fallback } => (step, fallback),
        _ => panic!("plan has steps"),
    };
    assert_eq!((step, fb), (0, false));
    assert_eq!(invocation_at(&plan, 0, false).args[0], "set");
    match advance(&plan, 0, false, Ok(())) {
        Progress::Running { step, fallback } => assert_eq!((step, fallback), (1, false)),
        _ => panic!("second step expected"),
    }
    match advance(&plan, 1, false, Err("boom".to_string())) {
        Progress::Finished(Err(e)) => assert_eq!(e, "boom"),
        _ => panic!("failure expected"),
    }
    match advance(&plan, 4, false, Ok(())) {
        Progress::Finished(Ok(m)) => assert_eq!(m, plan.success),
        _ => panic!("success expected"),
    }
}

#[test]
fn plan_run_tries_the_fallback() {
    let plan = install_xfce("c");
    match advance(&plan, 0, false, Err("exists".to_string())) {
        Progress::Running { step, fallback } => assert_eq!((step, fallback), (0, true)),
        _ => panic!("fallback expected"),
    }
    assert_eq!(invocation_at(&plan, 0, true).args.len(), 6);
    match advance(&plan, 0, true, Err("no xfconf".to_string())) {
        Progress::Finished(Err(e)) => assert_eq!(e, "no xfconf"),
        _ => panic!("failure expected"),
    }
    match advance(&plan, 0, true, Ok(())) {
        Progress::Finished(Ok(m)) => assert!(m.starts_with("PrintScreen now launches: c\n")),
        _ => panic!("success expected"),
    }
}
