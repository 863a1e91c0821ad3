//! What holds of everything that is said to the desktop: to the session bus, to the window manager
//! and to the display.

use crate::bus::{
    is_success, new_connection_call, new_connection_reply, MethodCall, PropertyChange,
};
use crate::display::{
    lock_query, mode_for, power_save_change, DisplayAction, DisplayActionView, DisplayEvent,
    DisplayPhase, DisplayRun, Occasion,
};
use crate::event::{is_url_event, json_chars, json_object, json_string};
use crate::text::{
    decimal, decimal_reads_back, sign_stands_in_front_of_the_magnitude, signed_decimal,
};
use crate::window::{
    is_nobody_there, kwin_load, kwin_run, kwin_script, kwin_script_file_name, kwin_unload,
    xdotool_command, ActivationAction, ActivationActionView, ActivationEvent, ActivationPhase,
    KwinAction, KwinActionView, KwinActivation, KwinEvent, KwinEventView, KwinPhase,
    WindowActivation,
};
use vstd::prelude::*;

verus! {

/// A call is seen as it is: where it goes, and its arguments one for one.
pub proof fn call_is_seen_as_it_is(call: MethodCall)
    ensures
        call@.destination == call.destination@,
        call@.path == call.path@,
        call@.interface == call.interface@,
        call@.member == call.member@,
        call@.arguments.len() == call.arguments@.len(),
        forall|i: int|
            0 <= i < call.arguments@.len() ==> #[trigger] call@.arguments[i]
                == call.arguments@[i]@,
{
}

/// A change is seen as it is.
pub proof fn change_is_seen_as_it_is(change: PropertyChange)
    ensures
        change@.destination == change.destination@,
        change@.path == change.path@,
        change@.interface == change.interface@,
        change@.property == change.property@,
        change@.value == change.value,
{
}

/// A link goes, whole and alone, to the method that takes links, on the running process.
pub proof fn link_goes_to_the_running_process(uni_links: Seq<char>)
    ensures
        new_connection_call(uni_links).destination == "org.rustdesk.rustdesk"@,
        new_connection_call(uni_links).path == "/dbus"@,
        new_connection_call(uni_links).interface == "org.rustdesk.rustdesk"@,
        new_connection_call(uni_links).member == "NewConnection"@,
        new_connection_call(uni_links).arguments.len() == 1,
        new_connection_call(uni_links).arguments[0] == uni_links,
{
}

/// One reply stands for success, and that is the one that is given.
pub proof fn one_reply_stands_for_success(ret: Seq<char>)
    ensures
        is_success(ret) <==> ret == "ok"@,
        new_connection_reply() == "ok"@,
{
}

/// JSON text is made character by character: the text of two strings is that of the one behind that
/// of the other.
pub proof fn json_text_is_made_piece_by_piece(a: Seq<char>, b: Seq<char>)
    ensures
        json_chars(a + b) == json_chars(a) + json_chars(b),
        json_chars(Seq::empty()) == Seq::<char>::empty(),
    decreases a.len(),
{
    if a.len() == 0 {
        assert(a + b =~= b);
        assert(json_chars(a) + json_chars(b) =~= json_chars(b));
    } else {
        assert((a + b).drop_first() =~= a.drop_first() + b);
        assert((a + b)[0] == a[0]);
        json_text_is_made_piece_by_piece(a.drop_first(), b);
        assert(json_chars(a + b) =~= json_chars(a) + json_chars(b));
    }
}

/// The value of a lower-case hexadecimal digit.
pub open spec fn hex_value(c: char) -> int {
    if '0' <= c <= '9' {
        c as int - '0' as int
    } else if 'a' <= c <= 'f' {
        c as int - 'a' as int + 10
    } else {
        -1
    }
}

/// A character stands for itself, but for the quotation mark and the backslash, which stand behind
/// a backslash, and for those below the space: five of them have a letter, and the others stand as
/// the four hexadecimal digits of their number.
pub proof fn json_text_of_a_character(c: char)
    ensures
        ({
            let text = json_chars(seq![c]);
            &&& c == '"' ==> text == seq!['\\', '"']
            &&& c == '\\' ==> text == seq!['\\', '\\']
            &&& c as int == 0x08 ==> text == seq!['\\', 'b']
            &&& c as int == 0x09 ==> text == seq!['\\', 't']
            &&& c as int == 0x0a ==> text == seq!['\\', 'n']
            &&& c as int == 0x0c ==> text == seq!['\\', 'f']
            &&& c as int == 0x0d ==> text == seq!['\\', 'r']
            &&& c as int >= 0x20 && c != '"' && c != '\\' ==> text == seq![c]
            &&& (c as int) < 0x20 && c as int != 0x08 && c as int != 0x09 && c as int != 0x0a
                && c as int != 0x0c && c as int != 0x0d ==> {
                &&& text.len() == 6
                &&& text.take(4) == seq!['\\', 'u', '0', '0']
                &&& 0 <= hex_value(text[4]) && 0 <= hex_value(text[5])
                &&& 16 * hex_value(text[4]) + hex_value(text[5]) == c as int
            }
        }),
{
    reveal_with_fuel(json_chars, 2);
    let text = json_chars(seq![c]);
    assert(seq![c].drop_first() =~= Seq::empty());
    assert(text =~= crate::event::json_char(c));
    if text.len() == 6 {
        assert(text.take(4) =~= seq!['\\', 'u', '0', '0']);
    }
}

/// A JSON string is its text between quotation marks, and an object of two members is made of their
/// names and values in this order.
pub proof fn json_object_is_made_of_its_members(
    first: (Seq<char>, Seq<char>),
    second: (Seq<char>, Seq<char>),
    text: Seq<char>,
)
    ensures
        json_string(text).len() == json_chars(text).len() + 2,
        json_string(text).first() == '"',
        json_string(text).last() == '"',
        json_string(text).subrange(1, json_string(text).len() - 1) == json_chars(text),
        json_object(first, second) == seq!['{'] + json_string(first.0) + seq![':'] + json_string(
            first.1,
        ) + seq![','] + json_string(second.0) + seq![':'] + json_string(second.1) + seq!['}'],
{
    assert(json_string(text).subrange(1, json_string(text).len() - 1) =~= json_chars(text));
}

/// The event for a link is an object of two members, in one order or the other: its name, and the
/// whole link.
pub proof fn event_holds_its_name_and_the_link(event: Seq<char>, url: Seq<char>)
    ensures
        is_url_event(event, url) <==> event == json_object(
            ("name"@, "on_url_scheme_received"@),
            ("url"@, url),
        ) || event == json_object(("url"@, url), ("name"@, "on_url_scheme_received"@)),
{
}

/// Whatever the mode, the change sets the power-save mode of the display to that mode, and nothing
/// else; so two modes make two changes.
pub proof fn change_sets_the_mode_that_was_asked_for(mode: i32, other: i32)
    ensures
        power_save_change(mode).value == mode,
        power_save_change(mode).property == "PowerSaveMode"@,
        power_save_change(mode).destination == "org.gnome.Mutter.DisplayConfig"@,
        power_save_change(mode).path == "/org/gnome/Mutter/DisplayConfig"@,
        power_save_change(mode).interface == "org.gnome.Mutter.DisplayConfig"@,
        mode != other ==> power_save_change(mode) != power_save_change(other),
{
}

/// The question whether the screen is locked goes to the screen saver, and brings nothing along.
pub proof fn screen_saver_is_asked_for_the_lock()
    ensures
        lock_query().destination == "org.gnome.ScreenSaver"@,
        lock_query().path == "/org/gnome/ScreenSaver"@,
        lock_query().interface == "org.gnome.ScreenSaver"@,
        lock_query().member == "GetActive"@,
        lock_query().arguments.len() == 0,
{
}

/// For a viewer who connects, the display of a locked screen is set to mode 0, which is on; behind
/// the last viewer it is set to mode 3, which is off.
pub proof fn locked_display_is_on_for_a_viewer_and_off_without(run: DisplayRun)
    ensures
        ({
            let next = run.after(DisplayEvent::Locked(Some(true)));
            &&& next.1 matches DisplayActionView::Change(change) && change.property
                == "PowerSaveMode"@ && change.value == match run.occasion {
                Occasion::Viewer => 0i32,
                Occasion::NoViewer => 3i32,
            }
            &&& mode_for(Occasion::Viewer) == 0
            &&& mode_for(Occasion::NoViewer) == 3
        }),
{
}

/// A display that is not locked, or cannot be asked about, is left alone; behind a change there is
/// nothing more to do; and behind the grace it is asked whether the screen is locked. The occasion
/// stays what it is.
pub proof fn display_is_looked_after_step_by_step(run: DisplayRun, event: DisplayEvent)
    requires
        run.awaits(event),
    ensures
        ({
            let next = run.after(event);
            &&& next.0.occasion == run.occasion
            &&& event is Slept ==> (next.1 matches DisplayActionView::AskLocked(call) && call
                == lock_query())
            &&& event == DisplayEvent::Locked(Some(true)) ==> next.1 is Change
            &&& event == DisplayEvent::Locked(Some(false)) ==> next.1 is Stop
            &&& event == DisplayEvent::Locked(None) ==> next.1 is Stop
            &&& event is Changed ==> next.1 is Stop
        }),
{
}

/// What looks after the display then awaits what can come of the action that it asked for.
pub proof fn display_awaits_what_it_asked_for(
    run: DisplayRun,
    event: DisplayEvent,
    other: DisplayEvent,
)
    requires
        run.awaits(event),
    ensures
        match run.after(event).1 {
            DisplayActionView::Sleep { .. } => false,
            DisplayActionView::AskLocked(_) => run.after(event).0.awaits(other)
                <==> other is Locked,
            DisplayActionView::Change(_) => run.after(event).0.awaits(other) <==> other is Changed,
            DisplayActionView::Stop => !run.after(event).0.awaits(other),
        },
        (DisplayRun { occasion: run.occasion, phase: DisplayPhase::Sleeping }).awaits(other)
            <==> other is Slept,
        (DisplayRun { occasion: run.occasion, phase: DisplayPhase::Asking }).awaits(other)
            <==> other is Locked,
{
}

/// Actions on the display are seen as they are.
pub proof fn display_actions_are_seen_as_they_are(action: DisplayAction)
    ensures
        match action {
            DisplayAction::Sleep { millis } => action@ == (DisplayActionView::Sleep { millis }),
            DisplayAction::AskLocked(call) => action@ == DisplayActionView::AskLocked(call@),
            DisplayAction::Change(change) => action@ == DisplayActionView::Change(change@),
            DisplayAction::Stop => action@ is Stop,
        },
{
}

/// The script is run on the object whose path ends with its number as people write it: a minus sign
/// only where the number is negative, then digits, of which the first is no zero unless it is the
/// only one, and which read in base ten give the magnitude.
pub proof fn script_is_run_under_its_number(script_id: i32)
    ensures
        ({
            let call = kwin_run(script_id);
            let number = call.path.skip(17);
            let digits = if script_id < 0 {
                number.skip(1)
            } else {
                number
            };
            let magnitude = if script_id < 0 {
                -(script_id as int)
            } else {
                script_id as int
            };
            &&& call.path.take(17) == "/Scripting/Script"@
            &&& number.len() > 0
            &&& number[0] == '-' <==> script_id < 0
            &&& digits.len() > 0
            &&& forall|i: int| 0 <= i < digits.len() ==> '0' <= #[trigger] digits[i] <= '9'
            &&& digits.len() > 1 ==> digits[0] != '0'
            &&& digits.fold_left(
                0int,
                |value: int, c: char| 10 * value + (c as int - '0' as int),
            ) == magnitude
            &&& call.destination == "org.kde.KWin"@
            &&& call.interface == "org.kde.kwin.Script"@
            &&& call.member == "run"@
            &&& call.arguments.len() == 0
        }),
{
    reveal_strlit("/Scripting/Script");
    let id = script_id as int;
    let path = kwin_run(script_id).path;
    let magnitude = if id < 0 {
        -id
    } else {
        id
    };
    sign_stands_in_front_of_the_magnitude(id);
    decimal_reads_back(magnitude as nat);
    assert(path.take(17) =~= "/Scripting/Script"@);
    assert(path.skip(17) =~= signed_decimal(id));
}

/// The script of a process is loaded from the file that it was written to, under a name with the
/// process's number in it, and unloaded under that same name.
pub proof fn script_is_unloaded_as_it_was_loaded(pid: u32, script_path: Seq<char>)
    ensures
        ({
            let load = kwin_load(pid, script_path);
            let unload = kwin_unload(pid);
            &&& load.arguments.len() == 2
            &&& load.arguments[0] == script_path
            &&& load.arguments[1] == "subnetdesk-activate-"@ + decimal(pid as nat)
            &&& unload.arguments.len() == 1
            &&& unload.arguments[0] == load.arguments[1]
            &&& load.destination == "org.kde.KWin"@ && unload.destination == "org.kde.KWin"@
            &&& load.path == "/Scripting"@ && unload.path == "/Scripting"@
            &&& load.interface == "org.kde.kwin.Scripting"@ && unload.interface
                == "org.kde.kwin.Scripting"@
            &&& load.member == "loadScript"@
            &&& unload.member == "unloadScript"@
        }),
{
}

/// The script looks for the windows of the very process that it is for, shows them and activates
/// them; and its file has the process's number in its name.
pub proof fn script_is_for_its_process(pid: u32)
    ensures
        kwin_script(pid)
            == "var wins = (typeof workspace.windowList === 'function') ? workspace.windowList() : workspace.windows;\nfor (var i = 0; i < wins.length; i++) {\n\tif (wins[i].pid == "@
            + decimal(pid as nat)
            + ") {\n\t\twins[i].minimized = false;\n\t\tworkspace.activeWindow = wins[i];\n\t}\n}\n"@,
        kwin_script_file_name(pid) == "subnetdesk-kwin-activate-"@ + decimal(pid as nat) + ".js"@,
{
}

/// Two kinds of error say that nobody has the name that a call went to, and no others do.
pub proof fn two_errors_say_that_nobody_is_there(error: Seq<char>)
    ensures
        is_nobody_there(error) <==> error == "org.freedesktop.DBus.Error.ServiceUnknown"@ || error
            == "org.freedesktop.DBus.Error.NameHasNoOwner"@,
{
}

/// The activation by KWin goes on as long as things go well: what was written is loaded, what was
/// loaded is run, what was run is unloaded, and then the file is removed. Where there is nobody to
/// load it, the file is removed too. Where anything else goes wrong it is over, without success. It
/// stays with its process.
pub proof fn kwin_activation_goes_on_as_long_as_it_can(
    activation: KwinActivation,
    event: KwinEventView,
)
    requires
        activation.awaits(event),
    ensures
        ({
            let next = activation.after(event);
            &&& next.0.pid == activation.pid
            &&& match event {
                KwinEventView::Written(Some(script_path)) => next.1 matches
                    KwinActionView::LoadScript(call) && call == kwin_load(
                    activation.pid,
                    script_path,
                ),
                KwinEventView::Loaded(script_id) => next.1 matches KwinActionView::RunScript(call)
                    && call == kwin_run(script_id),
                KwinEventView::LoadFailed(Some(error)) => if error
                    == "org.freedesktop.DBus.Error.ServiceUnknown"@ || error
                    == "org.freedesktop.DBus.Error.NameHasNoOwner"@ {
                    next.1 is RemoveScript
                } else {
                    next.1 == (KwinActionView::Finish { activated: false })
                },
                KwinEventView::Ran(true) => next.1 matches KwinActionView::UnloadScript(call)
                    && call == kwin_unload(activation.pid),
                KwinEventView::Unloaded(true) => next.1 is RemoveScript,
                KwinEventView::Removed => next.1 == (KwinActionView::Finish {
                    activated: activation.phase == (KwinPhase::Removing { activated: true }),
                }),
                _ => next.1 == (KwinActionView::Finish { activated: false }),
            }
            &&& next.1 is RemoveScript ==> next.0.phase == (KwinPhase::Removing {
                activated: event is Unloaded,
            })
        }),
{
}

/// The activation by KWin then awaits what can come of the action that it asked for.
pub proof fn kwin_activation_awaits_what_it_asked_for(
    activation: KwinActivation,
    event: KwinEventView,
    other: KwinEventView,
)
    requires
        activation.awaits(event),
    ensures
        match activation.after(event).1 {
            KwinActionView::WriteScript { .. } => false,
            KwinActionView::LoadScript(_) => activation.after(event).0.awaits(other)
                <==> other is Loaded || other is LoadFailed,
            KwinActionView::RunScript(_) => activation.after(event).0.awaits(other)
                <==> other is Ran,
            KwinActionView::UnloadScript(_) => activation.after(event).0.awaits(other)
                <==> other is Unloaded,
            KwinActionView::RemoveScript => activation.after(event).0.awaits(other)
                <==> other is Removed,
            KwinActionView::Finish { .. } => !activation.after(event).0.awaits(other),
        },
        (KwinActivation { pid: activation.pid, phase: KwinPhase::Writing }).awaits(other)
            <==> other is Written,
{
}

/// Actions and events of the activation by KWin are seen as they are.
pub proof fn kwin_actions_and_events_are_seen_as_they_are(action: KwinAction, event: KwinEvent)
    ensures
        match action {
            KwinAction::WriteScript { file_name, script } => action@ == (
            KwinActionView::WriteScript { file_name: file_name@, script: script@ }),
            KwinAction::LoadScript(call) => action@ == KwinActionView::LoadScript(call@),
            KwinAction::RunScript(call) => action@ == KwinActionView::RunScript(call@),
            KwinAction::UnloadScript(call) => action@ == KwinActionView::UnloadScript(call@),
            KwinAction::RemoveScript => action@ is RemoveScript,
            KwinAction::Finish { activated } => action@ == (KwinActionView::Finish { activated }),
        },
        match event {
            KwinEvent::Written(Some(script_path)) => event@ == KwinEventView::Written(
                Some(script_path@),
            ),
            KwinEvent::Written(None) => event@ == KwinEventView::Written(None),
            KwinEvent::Loaded(script_id) => event@ == KwinEventView::Loaded(script_id),
            KwinEvent::LoadFailed(Some(error)) => event@ == KwinEventView::LoadFailed(
                Some(error@),
            ),
            KwinEvent::LoadFailed(None) => event@ == KwinEventView::LoadFailed(None),
            KwinEvent::Ran(ran) => event@ == KwinEventView::Ran(ran),
            KwinEvent::Unloaded(unloaded) => event@ == KwinEventView::Unloaded(unloaded),
            KwinEvent::Removed => event@ is Removed,
        },
{
}

/// The command names the whole number of the process, as people write it, between fixed words; so
/// the windows of one process are never activated by the command of another.
pub proof fn command_is_for_its_process(pid: u32, other: u32)
    ensures
        ({
            let command = xdotool_command(pid);
            let number = command.subrange(21, command.len() - 15);
            &&& command.len() > 36
            &&& command.take(21) == "xdotool search --pid "@
            &&& command.skip(command.len() - 15) == " windowactivate"@
            &&& forall|i: int| 0 <= i < number.len() ==> '0' <= #[trigger] number[i] <= '9'
            &&& number.len() > 1 ==> number[0] != '0'
            &&& number.fold_left(
                0int,
                |value: int, c: char| 10 * value + (c as int - '0' as int),
            ) == pid
        }),
        pid != other ==> xdotool_command(pid) != xdotool_command(other),
{
    command_frames_the_number(pid);
    command_frames_the_number(other);
    if xdotool_command(pid) == xdotool_command(other) {
        crate::text::decimal_is_injective(pid as nat, other as nat);
    }
}

/// What stands in the command between its fixed words is the number.
proof fn command_frames_the_number(pid: u32)
    ensures
        xdotool_command(pid).len() > 36,
        xdotool_command(pid).take(21) == "xdotool search --pid "@,
        xdotool_command(pid).skip(xdotool_command(pid).len() - 15) == " windowactivate"@,
        xdotool_command(pid).subrange(21, xdotool_command(pid).len() - 15) == decimal(pid as nat),
        forall|i: int|
            0 <= i < decimal(pid as nat).len() ==> '0' <= #[trigger] decimal(pid as nat)[i] <= '9',
        decimal(pid as nat).len() > 1 ==> decimal(pid as nat)[0] != '0',
        decimal(pid as nat).fold_left(
            0int,
            |value: int, c: char| 10 * value + (c as int - '0' as int),
        ) == pid,
{
    reveal_strlit("xdotool search --pid ");
    reveal_strlit(" windowactivate");
    let command = xdotool_command(pid);
    decimal_reads_back(pid as nat);
    assert(command.take(21) =~= "xdotool search --pid "@);
    assert(command.skip(command.len() - 15) =~= " windowactivate"@);
    assert(command.subrange(21, command.len() - 15) =~= decimal(pid as nat));
}

/// Each attempt tries KWin behind its pause, and behind KWin runs the command for the process that
/// the activation was begun with. A command that was run leads to the next attempt, behind a pause
/// of 200 milliseconds, as long as there is one left; a command that could not be run ends it.
pub proof fn window_activation_goes_by_attempts(
    activation: WindowActivation,
    event: ActivationEvent,
)
    requires
        activation.awaits(event),
    ensures
        ({
            let next = activation.after(event);
            &&& next.0.pid == activation.pid
            &&& event is Slept ==> next.1 is ActivateViaKwin
            &&& event is KwinTried ==> next.1 == ActivationActionView::RunCommand(
                xdotool_command(activation.pid),
            )
            &&& event == ActivationEvent::CommandRun(false) ==> next.1 is Stop
            &&& event == ActivationEvent::CommandRun(true) && activation.attempts_left == 0
                ==> next.1 is Stop
            &&& event == ActivationEvent::CommandRun(true) && activation.attempts_left > 0
                ==> next.1 == (ActivationActionView::Sleep { millis: 200 })
                && next.0.attempts_left == activation.attempts_left - 1
            &&& event !is CommandRun ==> next.0.attempts_left == activation.attempts_left
        }),
{
}

/// The activation of the window then awaits what can come of the action that it asked for. It
/// begins with a pause, for its process, and has four attempts behind the first.
pub proof fn window_activation_awaits_what_it_asked_for(
    activation: WindowActivation,
    event: ActivationEvent,
    other: ActivationEvent,
    pid: u32,
)
    requires
        activation.awaits(event),
    ensures
        match activation.after(event).1 {
            ActivationActionView::Sleep { .. } => activation.after(event).0.awaits(other)
                <==> other is Slept,
            ActivationActionView::ActivateViaKwin => activation.after(event).0.awaits(other)
                <==> other is KwinTried,
            ActivationActionView::RunCommand(_) => activation.after(event).0.awaits(other)
                <==> other is CommandRun,
            ActivationActionView::Stop => !activation.after(event).0.awaits(other),
        },
        WindowActivation::begun(pid).pid == pid,
        WindowActivation::begun(pid).attempts_left == 4,
        WindowActivation::begun(pid).phase == ActivationPhase::Sleeping,
        WindowActivation::begun(pid).awaits(other) <==> other is Slept,
{
}

/// Actions of the activation of the window are seen as they are.
pub proof fn activation_actions_are_seen_as_they_are(action: ActivationAction)
    ensures
        match action {
            ActivationAction::Sleep { millis } => action@ == (ActivationActionView::Sleep {
                millis,
            }),
            ActivationAction::ActivateViaKwin => action@ is ActivateViaKwin,
            ActivationAction::RunCommand(command) => action@ == ActivationActionView::RunCommand(
                command@,
            ),
            ActivationAction::Stop => action@ is Stop,
        },
{
}

} // verus!
