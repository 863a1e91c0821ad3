use lan_session::bus::{handle_client_message, invoke_new_connection, DbusError, MethodCall};
use lan_session::display::{
    is_screen_locked, reblank_display, reblank_display_if_still_locked,
    set_display_power_save_mode, wake_display, wake_display_if_locked, DisplayAction, DisplayEvent,
    DisplayRun,
};
use lan_session::event::url_event;
use lan_session::text::{push_decimal, push_signed_decimal};
use lan_session::window::{
    activate_main_window_workaround, activate_via_kwin_script, ActivationAction, ActivationEvent,
    KwinAction, KwinActivation, KwinEvent,
};

fn call(
    destination: &str,
    path: &str,
    interface: &str,
    member: &str,
    arguments: &[&str],
) -> MethodCall {
    MethodCall {
        destination: destination.to_owned(),
        path: path.to_owned(),
        interface: interface.to_owned(),
        member: member.to_owned(),
        arguments: arguments.iter().map(|argument| argument.to_string()).collect(),
    }
}

#[test]
fn new_connection_goes_to_the_running_process() {
    let request = invoke_new_connection("rustdesk://peer".to_owned());
    assert_eq!(
        request.call,
        call(
            "org.rustdesk.rustdesk",
            "/dbus",
            "org.rustdesk.rustdesk",
            "NewConnection",
            &["rustdesk://peer"],
        )
    );
    assert_eq!(request.complete("ok".to_owned()), Ok(()));
}

#[test]
fn other_replies_are_no_success() {
    for ret in ["", "OK", "ok ", "not ok"] {
        let error = invoke_new_connection(String::new()).complete(ret.to_owned()).unwrap_err();
        assert_eq!(error, DbusError("not success".to_owned()));
        assert_eq!(error.message(), "SubnetDesk DBus Error: not success");
    }
}

#[test]
fn handled_request_succeeds() {
    let handled = handle_client_message("rustdesk://peer");
    assert_eq!(handled.reply, "ok");
    let request = invoke_new_connection("rustdesk://peer".to_owned());
    assert!(request.complete(handled.reply).is_ok());
}

fn is_event(event: &str, url_json: &str) -> bool {
    let name = r#""name":"on_url_scheme_received""#;
    event == format!("{{{name},\"url\":{url_json}}}")
        || event == format!("{{\"url\":{url_json},{name}}}")
}

#[test]
fn event_names_the_link() {
    let handled = handle_client_message("rustdesk://peer?a=b");
    assert!(is_event(&handled.event, r#""rustdesk://peer?a=b""#));
}

#[test]
fn event_escapes_the_link() {
    let event = url_event("\"\\/\u{8}\t\n\u{c}\r\u{0}\u{1f}\u{7f} \u{e4}\u{1f600}");
    assert!(is_event(
        &event,
        "\"\\\"\\\\/\\b\\t\\n\\f\\r\\u0000\\u001f\u{7f} \u{e4}\u{1f600}\""
    ));
    assert!(is_event(&url_event(""), "\"\""));
}

#[test]
fn event_is_json_that_holds_the_link() {
    let link = "x\",\"url\":\"y\u{1}\u{1b}";
    let value: serde_json::Value = serde_json::from_str(&url_event(link)).unwrap();
    assert_eq!(value["url"], link);
    assert_eq!(value["name"], "on_url_scheme_received");
    assert_eq!(value.as_object().unwrap().len(), 2);
}

#[test]
fn event_tells_its_link() {
    let event = url_event("a\",\"url\":\"b");
    assert_ne!(event, url_event("a"));
    assert_ne!(event, url_event("b"));
    assert_ne!(event, url_event("a\\\",\\\"url\\\":\\\"b"));
}

#[test]
fn numbers_are_told_apart() {
    let mut one = String::new();
    let mut other = String::new();
    push_decimal(&mut one, 1_000);
    push_decimal(&mut other, 100);
    assert_ne!(one, other);
    assert!(!other.is_empty());
}

#[test]
fn numbers_are_written_in_base_ten() {
    for n in [0, 7, 10, 99, 100, 1_234_567_890, u32::MAX] {
        let mut out = "n".to_owned();
        push_decimal(&mut out, n);
        assert_eq!(out, format!("n{n}"));
    }
    for n in [0, -1, 10, i32::MAX, i32::MIN] {
        let mut out = String::new();
        push_signed_decimal(&mut out, n);
        assert_eq!(out, n.to_string());
    }
}

fn written(path: &str) -> KwinEvent {
    KwinEvent::Written(Some(path.to_owned()))
}

fn kwin_step(activation: &mut KwinActivation, event: KwinEvent) -> KwinAction {
    assert!(activation.expects(&event));
    activation.step(event)
}

#[test]
fn kwin_script_activates_the_process() {
    let (mut activation, action) = activate_via_kwin_script(4321);
    let lines = [
        "var wins = (typeof workspace.windowList === 'function') ? workspace.windowList() : workspace.windows;",
        "for (var i = 0; i < wins.length; i++) {",
        "\tif (wins[i].pid == 4321) {",
        "\t\twins[i].minimized = false;",
        "\t\tworkspace.activeWindow = wins[i];",
        "\t}",
        "}",
        "",
    ];
    assert_eq!(
        action,
        KwinAction::WriteScript {
            file_name: "subnetdesk-kwin-activate-4321.js".to_owned(),
            script: lines.join("\n"),
        }
    );
    assert_eq!(
        kwin_step(&mut activation, written("/tmp/script.js")),
        KwinAction::LoadScript(call(
            "org.kde.KWin",
            "/Scripting",
            "org.kde.kwin.Scripting",
            "loadScript",
            &["/tmp/script.js", "subnetdesk-activate-4321"],
        ))
    );
    assert_eq!(
        kwin_step(&mut activation, KwinEvent::Loaded(12)),
        KwinAction::RunScript(call(
            "org.kde.KWin",
            "/Scripting/Script12",
            "org.kde.kwin.Script",
            "run",
            &[],
        ))
    );
    assert_eq!(
        kwin_step(&mut activation, KwinEvent::Ran(true)),
        KwinAction::UnloadScript(call(
            "org.kde.KWin",
            "/Scripting",
            "org.kde.kwin.Scripting",
            "unloadScript",
            &["subnetdesk-activate-4321"],
        ))
    );
    assert_eq!(
        kwin_step(&mut activation, KwinEvent::Unloaded(true)),
        KwinAction::RemoveScript
    );
    assert_eq!(
        kwin_step(&mut activation, KwinEvent::Removed),
        KwinAction::Finish { activated: true }
    );
    assert!(!activation.expects(&KwinEvent::Removed));
}

#[test]
fn desktop_without_kwin_is_left_as_it_was() {
    for error in ["ServiceUnknown", "NameHasNoOwner"] {
        let (mut activation, _) = activate_via_kwin_script(7);
        kwin_step(&mut activation, written("/tmp/script.js"));
        let nobody = format!("org.freedesktop.DBus.Error.{error}");
        assert_eq!(
            kwin_step(&mut activation, KwinEvent::LoadFailed(Some(nobody))),
            KwinAction::RemoveScript
        );
        assert_eq!(
            kwin_step(&mut activation, KwinEvent::Removed),
            KwinAction::Finish { activated: false }
        );
    }
}

#[test]
fn other_failure_to_load_ends_the_activation() {
    for error in [None, Some("org.freedesktop.DBus.Error.NoReply"), Some("")] {
        let (mut activation, _) = activate_via_kwin_script(7);
        kwin_step(&mut activation, written("/tmp/script.js"));
        let failed = KwinEvent::LoadFailed(error.map(str::to_owned));
        assert_eq!(
            kwin_step(&mut activation, failed),
            KwinAction::Finish { activated: false }
        );
    }
}

#[test]
fn kwin_that_fails_ends_the_activation() {
    let over = KwinAction::Finish { activated: false };
    let (mut activation, _) = activate_via_kwin_script(7);
    assert_eq!(kwin_step(&mut activation, KwinEvent::Written(None)), over);

    let (mut activation, _) = activate_via_kwin_script(7);
    kwin_step(&mut activation, written("/tmp/script.js"));
    match kwin_step(&mut activation, KwinEvent::Loaded(-1)) {
        KwinAction::RunScript(call) => assert_eq!(call.path, "/Scripting/Script-1"),
        action => panic!("{action:?}"),
    }
    assert_eq!(kwin_step(&mut activation, KwinEvent::Ran(false)), over);

    let (mut activation, _) = activate_via_kwin_script(7);
    kwin_step(&mut activation, written("/tmp/script.js"));
    kwin_step(&mut activation, KwinEvent::Loaded(0));
    kwin_step(&mut activation, KwinEvent::Ran(true));
    assert_eq!(kwin_step(&mut activation, KwinEvent::Unloaded(false)), over);
}

#[test]
fn kwin_script_takes_its_course() {
    let (mut activation, _) = activate_via_kwin_script(7);
    assert!(!activation.expects(&KwinEvent::Loaded(1)));
    assert!(!activation.expects(&KwinEvent::Removed));
    kwin_step(&mut activation, written("/tmp/script.js"));
    assert!(!activation.expects(&KwinEvent::Ran(true)));
    assert!(!activation.expects(&KwinEvent::Unloaded(true)));
}

#[test]
fn activations_are_told_apart() {
    let (mut one, write_one) = activate_via_kwin_script(1);
    let (mut other, write_other) = activate_via_kwin_script(11);
    match (write_one, write_other) {
        (
            KwinAction::WriteScript { file_name, script },
            KwinAction::WriteScript {
                file_name: other_name,
                script: other_script,
            },
        ) => {
            assert_ne!(file_name, other_name);
            assert_ne!(script, other_script);
        }
        actions => panic!("{actions:?}"),
    }
    assert_ne!(
        kwin_step(&mut one, written("/tmp/script.js")),
        kwin_step(&mut other, written("/tmp/script.js"))
    );
}

fn attempts(ran: &[bool]) -> Vec<ActivationAction> {
    let (mut activation, first) = activate_main_window_workaround(42);
    let mut actions = vec![first];
    for ran in ran {
        for event in [
            ActivationEvent::Slept,
            ActivationEvent::KwinTried,
            ActivationEvent::CommandRun(*ran),
        ] {
            assert!(activation.expects(event));
            actions.push(activation.step(event));
        }
    }
    actions
}

#[test]
fn window_is_activated_five_times() {
    let actions = attempts(&[true; 5]);
    let command = ActivationAction::RunCommand("xdotool search --pid 42 windowactivate".to_owned());
    assert_eq!(actions.len(), 16);
    for round in 0..5 {
        assert_eq!(actions[3 * round], ActivationAction::Sleep { millis: 200 });
        assert_eq!(actions[3 * round + 1], ActivationAction::ActivateViaKwin);
        assert_eq!(actions[3 * round + 2], command);
    }
    assert_eq!(actions[15], ActivationAction::Stop);
}

#[test]
fn missing_command_stops_the_activation() {
    let actions = attempts(&[true, false]);
    assert_eq!(actions[3], ActivationAction::Sleep { millis: 200 });
    assert_eq!(actions[6], ActivationAction::Stop);
    let (activation, _) = activate_main_window_workaround(42);
    assert!(!activation.expects(ActivationEvent::KwinTried));
    assert!(!activation.expects(ActivationEvent::CommandRun(true)));
}

#[test]
fn only_a_locked_display_is_touched() {
    assert_eq!(wake_display_if_locked(false), None);
    assert_eq!(reblank_display_if_still_locked(false), None);
    assert_eq!(wake_display_if_locked(true), Some(set_display_power_save_mode(0)));
    assert_eq!(reblank_display_if_still_locked(true), Some(set_display_power_save_mode(3)));
}

#[test]
fn display_is_reached_through_gnome() {
    assert_eq!(
        is_screen_locked(),
        call(
            "org.gnome.ScreenSaver",
            "/org/gnome/ScreenSaver",
            "org.gnome.ScreenSaver",
            "GetActive",
            &[],
        )
    );
    let change = set_display_power_save_mode(3);
    assert_eq!(change.destination, "org.gnome.Mutter.DisplayConfig");
    assert_eq!(change.path, "/org/gnome/Mutter/DisplayConfig");
    assert_eq!(change.interface, "org.gnome.Mutter.DisplayConfig");
    assert_eq!(change.property, "PowerSaveMode");
    assert_eq!(change.value, 3);
}

fn display_step(run: &mut DisplayRun, event: DisplayEvent) -> DisplayAction {
    assert!(run.expects(event));
    run.step(event)
}

#[test]
fn display_is_blanked_behind_the_grace() {
    let (mut run, action) = reblank_display();
    assert_eq!(action, DisplayAction::Sleep { millis: 5_000 });
    assert!(!run.expects(DisplayEvent::Locked(Some(true))));
    assert_eq!(
        display_step(&mut run, DisplayEvent::Slept),
        DisplayAction::AskLocked(is_screen_locked())
    );
    assert_eq!(
        display_step(&mut run, DisplayEvent::Locked(Some(true))),
        DisplayAction::Change(set_display_power_save_mode(3))
    );
    assert_eq!(display_step(&mut run, DisplayEvent::Changed), DisplayAction::Stop);
    assert!(!run.expects(DisplayEvent::Slept));
}

#[test]
fn display_is_woken_at_once() {
    let (mut run, action) = wake_display();
    assert_eq!(action, DisplayAction::AskLocked(is_screen_locked()));
    assert_eq!(
        display_step(&mut run, DisplayEvent::Locked(Some(true))),
        DisplayAction::Change(set_display_power_save_mode(0))
    );
}

#[test]
fn display_of_an_open_or_unknown_screen_is_left_alone() {
    for reply in [Some(false), None] {
        let (mut run, _) = wake_display();
        assert_eq!(
            display_step(&mut run, DisplayEvent::Locked(reply)),
            DisplayAction::Stop
        );
        let (mut run, _) = reblank_display();
        display_step(&mut run, DisplayEvent::Slept);
        assert_eq!(
            display_step(&mut run, DisplayEvent::Locked(reply)),
            DisplayAction::Stop
        );
    }
}

#[test]
fn bus_traffic_is_bounded() {
    assert_eq!(is_screen_locked().timeout_millis(), 5_000);
    assert_eq!(set_display_power_save_mode(0).timeout_millis(), 5_000);
}
