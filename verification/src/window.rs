//! Bringing the main window to the front where the window manager would not let it.
//!
//! A window that is raised in answer to a call over the bus carries no timestamp of a user's
//! input, and window managers hold such a raise back. KWin takes it from a script of its own;
//! others take it from `xdotool`. The window may not be mapped yet, so both are tried a few times.

use crate::bus::{plain_call, MethodCall, MethodCallView};
use crate::text::{decimal, push_decimal, push_signed_decimal, signed_decimal};
use vstd::prelude::*;
use vstd::string::*;

verus! {

/// The error of a call to a name that nobody has and nobody can be started for.
pub const DBUS_ERROR_SERVICE_UNKNOWN: &'static str = "org.freedesktop.DBus.Error.ServiceUnknown";

/// The error of a call to a name that nobody has.
pub const DBUS_ERROR_NAME_HAS_NO_OWNER: &'static str = "org.freedesktop.DBus.Error.NameHasNoOwner";

/// How often the window is brought to the front.
pub const ACTIVATION_ATTEMPTS: u32 = 5;

/// The pause before each attempt.
pub const ACTIVATION_PAUSE_MILLIS: u64 = 200;

/// The KWin script that shows and activates the windows of the process `pid`.
///
/// KWin 5 has `windowList()` where KWin 6 has `windows`. A minimized window has to be restored
/// before it can become the active one.
pub open spec fn kwin_script(pid: u32) -> Seq<char> {
    "var wins = (typeof workspace.windowList === 'function') ? workspace.windowList() : workspace.windows;\nfor (var i = 0; i < wins.length; i++) {\n\tif (wins[i].pid == "@
        + decimal(pid as nat)
        + ") {\n\t\twins[i].minimized = false;\n\t\tworkspace.activeWindow = wins[i];\n\t}\n}\n"@
}

/// The name of the file, in the directory for temporary files, that holds the script.
pub open spec fn kwin_script_file_name(pid: u32) -> Seq<char> {
    "subnetdesk-kwin-activate-"@ + decimal(pid as nat) + ".js"@
}

/// The name under which KWin loads the script.
pub open spec fn kwin_plugin_name(pid: u32) -> Seq<char> {
    "subnetdesk-activate-"@ + decimal(pid as nat)
}

/// A call to KWin.
pub open spec fn kwin_call(
    path: Seq<char>,
    interface: Seq<char>,
    member: Seq<char>,
    arguments: Seq<Seq<char>>,
) -> MethodCallView {
    MethodCallView { destination: "org.kde.KWin"@, path, interface, member, arguments }
}

/// What the activation by KWin asks for.
#[derive(Debug, PartialEq, Eq)]
pub enum KwinAction {
    /// Write the script to a file of this name in the directory for temporary files.
    WriteScript { file_name: String, script: String },
    /// Make the call that loads the script. It returns the script's number.
    LoadScript(MethodCall),
    /// Make the call that runs the script.
    RunScript(MethodCall),
    /// Make the call that unloads the script. It returns whether there was one.
    UnloadScript(MethodCall),
    /// Remove the script's file.
    RemoveScript,
    /// It is over. `activated` says whether it went through.
    Finish { activated: bool },
}

/// What a `KwinAction` says.
pub enum KwinActionView {
    WriteScript { file_name: Seq<char>, script: Seq<char> },
    LoadScript(MethodCallView),
    RunScript(MethodCallView),
    UnloadScript(MethodCallView),
    RemoveScript,
    Finish { activated: bool },
}

impl View for KwinAction {
    type V = KwinActionView;

    open spec fn view(&self) -> KwinActionView {
        match self {
            KwinAction::WriteScript { file_name, script } => KwinActionView::WriteScript {
                file_name: file_name@,
                script: script@,
            },
            KwinAction::LoadScript(call) => KwinActionView::LoadScript(call@),
            KwinAction::RunScript(call) => KwinActionView::RunScript(call@),
            KwinAction::UnloadScript(call) => KwinActionView::UnloadScript(call@),
            KwinAction::RemoveScript => KwinActionView::RemoveScript,
            KwinAction::Finish { activated } => KwinActionView::Finish { activated: *activated },
        }
    }
}

/// What came of the last action.
#[derive(Debug, PartialEq, Eq)]
pub enum KwinEvent {
    /// The script was written to the file at this path, or could not be written.
    Written(Option<String>),
    /// The script was loaded under this number.
    Loaded(i32),
    /// The call that loads the script failed with the error of this name, or could not be made
    /// because there was no bus to make it on.
    LoadFailed(Option<String>),
    /// The call that runs the script went through, or failed.
    Ran(bool),
    /// The call that unloads the script went through, whatever it returned, or failed.
    Unloaded(bool),
    /// The script's file was removed, if it was there.
    Removed,
}

/// What a `KwinEvent` says.
pub enum KwinEventView {
    Written(Option<Seq<char>>),
    Loaded(i32),
    LoadFailed(Option<Seq<char>>),
    Ran(bool),
    Unloaded(bool),
    Removed,
}

impl View for KwinEvent {
    type V = KwinEventView;

    open spec fn view(&self) -> KwinEventView {
        match self {
            KwinEvent::Written(Some(script_path)) => KwinEventView::Written(Some(script_path@)),
            KwinEvent::Written(None) => KwinEventView::Written(None),
            KwinEvent::Loaded(script_id) => KwinEventView::Loaded(*script_id),
            KwinEvent::LoadFailed(Some(error)) => KwinEventView::LoadFailed(Some(error@)),
            KwinEvent::LoadFailed(None) => KwinEventView::LoadFailed(None),
            KwinEvent::Ran(ran) => KwinEventView::Ran(*ran),
            KwinEvent::Unloaded(unloaded) => KwinEventView::Unloaded(*unloaded),
            KwinEvent::Removed => KwinEventView::Removed,
        }
    }
}

/// Which action the activation by KWin waits on.
#[derive(Debug, Clone, Copy, PartialEq, Eq, Structural)]
pub enum KwinPhase {
    Writing,
    Loading,
    Running,
    Unloading,
    /// The file is being removed; behind that, it is over.
    Removing { activated: bool },
    Finished { activated: bool },
}

/// The activation of the windows of the process `pid` by a KWin script, in progress.
#[derive(Debug, Clone, Copy, PartialEq, Eq, Structural)]
pub struct KwinActivation {
    pub pid: u32,
    pub phase: KwinPhase,
}

/// The call that loads the script of the process `pid` from `script_path`.
pub open spec fn kwin_load(pid: u32, script_path: Seq<char>) -> MethodCallView {
    kwin_call(
        "/Scripting"@,
        "org.kde.kwin.Scripting"@,
        "loadScript"@,
        seq![script_path, kwin_plugin_name(pid)],
    )
}

/// The call that runs the script with the number `script_id`.
pub open spec fn kwin_run(script_id: i32) -> MethodCallView {
    kwin_call(
        "/Scripting/Script"@ + signed_decimal(script_id as int),
        "org.kde.kwin.Script"@,
        "run"@,
        Seq::empty(),
    )
}

/// The call that unloads the script of the process `pid`.
pub open spec fn kwin_unload(pid: u32) -> MethodCallView {
    kwin_call(
        "/Scripting"@,
        "org.kde.kwin.Scripting"@,
        "unloadScript"@,
        seq![kwin_plugin_name(pid)],
    )
}

/// Whether a call that fails with `error` failed because nobody on the bus has the name that it went
/// to.
pub open spec fn is_nobody_there(error: Seq<char>) -> bool {
    error == DBUS_ERROR_SERVICE_UNKNOWN@ || error == DBUS_ERROR_NAME_HAS_NO_OWNER@
}

/// Whether a call that fails with `error` failed because nobody on the bus has the name that it went
/// to.
fn nobody_is_there(error: &String) -> (yes: bool)
    ensures
        yes == is_nobody_there(error@),
{
    *error == DBUS_ERROR_SERVICE_UNKNOWN.to_owned() || *error
        == DBUS_ERROR_NAME_HAS_NO_OWNER.to_owned()
}

/// The name under which KWin loads the script of the process `pid`.
fn plugin_name(pid: u32) -> (name: String)
    ensures
        name@ == kwin_plugin_name(pid),
{
    let mut name = "subnetdesk-activate-".to_owned();
    push_decimal(&mut name, pid);
    name
}

/// Begins the activation of the windows of the process `pid`: a script is written to a file, which
/// KWin loads, runs and unloads again. Where there is no KWin on the bus, the file is removed and
/// nothing else is done. Where anything else fails, it ends there.
pub fn activate_via_kwin_script(pid: u32) -> (begun: (KwinActivation, KwinAction))
    ensures
        begun.0 == (KwinActivation { pid, phase: KwinPhase::Writing }),
        begun.1@ == (KwinActionView::WriteScript {
            file_name: kwin_script_file_name(pid),
            script: kwin_script(pid),
        }),
{
    let mut file_name = "subnetdesk-kwin-activate-".to_owned();
    push_decimal(&mut file_name, pid);
    file_name.append(".js");
    let mut script =
        "var wins = (typeof workspace.windowList === 'function') ? workspace.windowList() : workspace.windows;\nfor (var i = 0; i < wins.length; i++) {\n\tif (wins[i].pid == ".to_owned();
    push_decimal(&mut script, pid);
    script.append(
        ") {\n\t\twins[i].minimized = false;\n\t\tworkspace.activeWindow = wins[i];\n\t}\n}\n",
    );
    (
        KwinActivation { pid, phase: KwinPhase::Writing },
        KwinAction::WriteScript { file_name, script },
    )
}

impl KwinActivation {
    /// Whether `event` can come of the action that the activation waits on.
    pub open spec fn awaits(self, event: KwinEventView) -> bool {
        match self.phase {
            KwinPhase::Writing => event is Written,
            KwinPhase::Loading => event is Loaded || event is LoadFailed,
            KwinPhase::Running => event is Ran,
            KwinPhase::Unloading => event is Unloaded,
            KwinPhase::Removing { .. } => event is Removed,
            KwinPhase::Finished { .. } => false,
        }
    }

    /// It is over.
    pub open spec fn finished(self, activated: bool) -> (KwinActivation, KwinActionView) {
        (
            KwinActivation { phase: KwinPhase::Finished { activated }, ..self },
            KwinActionView::Finish { activated },
        )
    }

    /// The file is to be removed, and then it is over.
    pub open spec fn cleared(self, activated: bool) -> (KwinActivation, KwinActionView) {
        (
            KwinActivation { phase: KwinPhase::Removing { activated }, ..self },
            KwinActionView::RemoveScript,
        )
    }

    /// The activation after `event`, and the action that it then asks for.
    pub open spec fn after(self, event: KwinEventView) -> (KwinActivation, KwinActionView) {
        match event {
            KwinEventView::Written(Some(script_path)) => (
                KwinActivation { phase: KwinPhase::Loading, ..self },
                KwinActionView::LoadScript(kwin_load(self.pid, script_path)),
            ),
            KwinEventView::Loaded(script_id) => (
                KwinActivation { phase: KwinPhase::Running, ..self },
                KwinActionView::RunScript(kwin_run(script_id)),
            ),
            KwinEventView::LoadFailed(Some(error)) => if is_nobody_there(error) {
                self.cleared(false)
            } else {
                self.finished(false)
            },
            KwinEventView::LoadFailed(None) => self.finished(false),
            KwinEventView::Ran(true) => (
                KwinActivation { phase: KwinPhase::Unloading, ..self },
                KwinActionView::UnloadScript(kwin_unload(self.pid)),
            ),
            KwinEventView::Unloaded(true) => self.cleared(true),
            KwinEventView::Written(None) | KwinEventView::Ran(false) | KwinEventView::Unloaded(
                false,
            ) => self.finished(false),
            KwinEventView::Removed => self.finished(
                self.phase == (KwinPhase::Removing { activated: true }),
            ),
        }
    }

    /// Whether `event` can come of the action that the activation waits on.
    pub fn expects(&self, event: &KwinEvent) -> (yes: bool)
        ensures
            yes == self.awaits(event@),
    {
        match (self.phase, event) {
            (KwinPhase::Writing, KwinEvent::Written(_)) => true,
            (KwinPhase::Loading, KwinEvent::Loaded(_)) => true,
            (KwinPhase::Loading, KwinEvent::LoadFailed(_)) => true,
            (KwinPhase::Running, KwinEvent::Ran(_)) => true,
            (KwinPhase::Unloading, KwinEvent::Unloaded(_)) => true,
            (KwinPhase::Removing { .. }, KwinEvent::Removed) => true,
            _ => false,
        }
    }

    fn finish(&mut self, activated: bool) -> (action: KwinAction)
        ensures
            (*final(self), action@) == old(self).finished(activated),
    {
        self.phase = KwinPhase::Finished { activated };
        KwinAction::Finish { activated }
    }

    fn clear(&mut self, activated: bool) -> (action: KwinAction)
        ensures
            (*final(self), action@) == old(self).cleared(activated),
    {
        self.phase = KwinPhase::Removing { activated };
        KwinAction::RemoveScript
    }

    /// Takes what came of the last action, and says what to do next.
    pub fn step(&mut self, event: KwinEvent) -> (action: KwinAction)
        requires
            old(self).awaits(event@),
        ensures
            (*final(self), action@) == old(self).after(event@),
    {
        match event {
            KwinEvent::Written(Some(script_path)) => {
                self.phase = KwinPhase::Loading;
                let call = plain_call(
                    "org.kde.KWin",
                    "/Scripting",
                    "org.kde.kwin.Scripting",
                    "loadScript",
                ).with_argument(script_path).with_argument(plugin_name(self.pid));
                assert(call@ =~= kwin_load(self.pid, script_path@));
                KwinAction::LoadScript(call)
            },
            KwinEvent::Written(None) => self.finish(false),
            KwinEvent::Loaded(script_id) => {
                self.phase = KwinPhase::Running;
                let mut path = "/Scripting/Script".to_owned();
                push_signed_decimal(&mut path, script_id);
                KwinAction::RunScript(
                    plain_call("org.kde.KWin", path.as_str(), "org.kde.kwin.Script", "run"),
                )
            },
            KwinEvent::LoadFailed(Some(error)) => if nobody_is_there(&error) {
                self.clear(false)
            } else {
                self.finish(false)
            },
            KwinEvent::LoadFailed(None) => self.finish(false),
            KwinEvent::Ran(ran) => if ran {
                self.phase = KwinPhase::Unloading;
                let call = plain_call(
                    "org.kde.KWin",
                    "/Scripting",
                    "org.kde.kwin.Scripting",
                    "unloadScript",
                ).with_argument(plugin_name(self.pid));
                assert(call@ =~= kwin_unload(self.pid));
                KwinAction::UnloadScript(call)
            } else {
                self.finish(false)
            },
            KwinEvent::Unloaded(unloaded) => if unloaded {
                self.clear(true)
            } else {
                self.finish(false)
            },
            KwinEvent::Removed => {
                let activated = match self.phase {
                    KwinPhase::Removing { activated } => activated,
                    _ => false,
                };
                self.finish(activated)
            },
        }
    }
}

/// The activation by KWin after `events`.
pub open spec fn kwin_after(pid: u32, events: Seq<KwinEventView>) -> KwinActivation
    decreases events.len(),
{
    if events.len() == 0 {
        KwinActivation { pid, phase: KwinPhase::Writing }
    } else {
        kwin_after(pid, events.drop_last()).after(events.last()).0
    }
}

/// Each of `events` is one that the activation was waiting for.
pub open spec fn kwin_possible(pid: u32, events: Seq<KwinEventView>) -> bool
    decreases events.len(),
{
    events.len() == 0 || {
        &&& kwin_possible(pid, events.drop_last())
        &&& kwin_after(pid, events.drop_last()).awaits(events.last())
    }
}

/// The action that the last of `events` leads to.
pub open spec fn kwin_asked(pid: u32, events: Seq<KwinEventView>) -> KwinActionView
    recommends
        events.len() > 0,
{
    kwin_after(pid, events.drop_last()).after(events.last()).1
}

/// A script is written, loaded, run and unloaded in this order, and its file removed: a script is
/// loaded only from the file that was just written, run only under the number that it was just
/// loaded under, and unloaded only once it has run; its file is removed only once it has been
/// unloaded, or where there was no KWin. The activation went through exactly where all of this did.
pub proof fn kwin_script_takes_its_course(pid: u32, events: Seq<KwinEventView>)
    requires
        events.len() > 0,
        kwin_possible(pid, events),
    ensures
        match kwin_asked(pid, events) {
            KwinActionView::WriteScript { .. } => false,
            KwinActionView::LoadScript(call) => {
                &&& events.len() == 1
                &&& events[0] matches KwinEventView::Written(Some(script_path))
                &&& call == kwin_load(pid, script_path)
            },
            KwinActionView::RunScript(call) => {
                &&& events.len() == 2
                &&& events[1] matches KwinEventView::Loaded(script_id)
                &&& call == kwin_run(script_id)
            },
            KwinActionView::UnloadScript(call) => events.len() == 3 && events[2]
                == KwinEventView::Ran(true) && call == kwin_unload(pid),
            KwinActionView::RemoveScript => {
                ||| events.len() == 2 && (events[1] matches KwinEventView::LoadFailed(Some(error))
                    && is_nobody_there(error))
                ||| events.len() == 4 && events[3] == KwinEventView::Unloaded(true)
            },
            KwinActionView::Finish { activated } => activated <==> events.len() == 5,
        },
{
    reveal_with_fuel(kwin_after, 6);
    reveal_with_fuel(kwin_possible, 6);
    kwin_activation_is_short(pid, events);
}

/// At each event the activation is one phase further, so there are five at most.
proof fn kwin_activation_is_short(pid: u32, events: Seq<KwinEventView>)
    requires
        kwin_possible(pid, events),
    ensures
        events.len() <= 5,
        kwin_after(pid, events).pid == pid,
        match kwin_after(pid, events).phase {
            KwinPhase::Writing => events.len() == 0,
            KwinPhase::Loading => events.len() == 1,
            KwinPhase::Running => events.len() == 2,
            KwinPhase::Unloading => events.len() == 3,
            KwinPhase::Removing { activated } => events.len() == if activated {
                4nat
            } else {
                2nat
            },
            KwinPhase::Finished { .. } => true,
        },
    decreases events.len(),
{
    if events.len() > 0 {
        kwin_activation_is_short(pid, events.drop_last());
    }
}

/// A desktop without KWin is left as it was: all that was done is that the script's file was
/// written; it is removed, and it is over. Nothing is run or unloaded.
pub proof fn desktop_without_kwin_is_left_as_it_was(
    pid: u32,
    script_path: Seq<char>,
    error: Seq<char>,
)
    requires
        is_nobody_there(error),
    ensures
        ({
            let written = seq![KwinEventView::Written(Some(script_path))];
            let refused = written.push(KwinEventView::LoadFailed(Some(error)));
            let removed = refused.push(KwinEventView::Removed);
            &&& kwin_possible(pid, removed)
            &&& kwin_asked(pid, written) == KwinActionView::LoadScript(kwin_load(pid, script_path))
            &&& kwin_asked(pid, refused) == KwinActionView::RemoveScript
            &&& kwin_asked(pid, removed) == (KwinActionView::Finish { activated: false })
            &&& forall|event: KwinEventView| !#[trigger] kwin_possible(pid, removed.push(event))
        }),
{
    reveal_with_fuel(kwin_after, 5);
    reveal_with_fuel(kwin_possible, 5);
    let written = seq![KwinEventView::Written(Some(script_path))];
    let refused = written.push(KwinEventView::LoadFailed(Some(error)));
    let removed = refused.push(KwinEventView::Removed);
    assert(written.drop_last() =~= Seq::empty());
    assert(refused.drop_last() =~= written);
    assert(removed.drop_last() =~= refused);
    assert forall|event: KwinEventView| !#[trigger] kwin_possible(pid, removed.push(event)) by {
        assert(removed.push(event).drop_last() =~= removed);
    }
}

/// Processes do not get in each other's way: each has its own script, file and plugin name.
pub proof fn activations_are_told_apart(a: u32, b: u32)
    requires
        a != b,
    ensures
        kwin_script(a) != kwin_script(b),
        kwin_script_file_name(a) != kwin_script_file_name(b),
        kwin_plugin_name(a) != kwin_plugin_name(b),
{
    let head =
        "var wins = (typeof workspace.windowList === 'function') ? workspace.windowList() : workspace.windows;\nfor (var i = 0; i < wins.length; i++) {\n\tif (wins[i].pid == "@;
    let tail =
        ") {\n\t\twins[i].minimized = false;\n\t\tworkspace.activeWindow = wins[i];\n\t}\n}\n"@;
    framed_numbers_are_told_apart(head, tail, a, b);
    framed_numbers_are_told_apart("subnetdesk-kwin-activate-"@, ".js"@, a, b);
    framed_numbers_are_told_apart("subnetdesk-activate-"@, Seq::empty(), a, b);
    assert(kwin_plugin_name(a) =~= "subnetdesk-activate-"@ + decimal(a as nat) + Seq::empty());
    assert(kwin_plugin_name(b) =~= "subnetdesk-activate-"@ + decimal(b as nat) + Seq::empty());
}

/// Two texts that differ in a number between the same head and tail are different texts.
proof fn framed_numbers_are_told_apart(head: Seq<char>, tail: Seq<char>, a: u32, b: u32)
    requires
        a != b,
    ensures
        head + decimal(a as nat) + tail != head + decimal(b as nat) + tail,
{
    let x = head + decimal(a as nat) + tail;
    let y = head + decimal(b as nat) + tail;
    if x == y {
        let start = head.len() as int;
        assert(x.subrange(start, x.len() - tail.len()) =~= decimal(a as nat));
        assert(y.subrange(start, y.len() - tail.len()) =~= decimal(b as nat));
        crate::text::decimal_is_injective(a as nat, b as nat);
    }
}

/// What the activation of the main window asks for.
#[derive(Debug, PartialEq, Eq)]
pub enum ActivationAction {
    Sleep { millis: u64 },
    /// Try KWin; where it is not there, nothing is lost.
    ActivateViaKwin,
    RunCommand(String),
    Stop,
}

/// What an `ActivationAction` says.
pub enum ActivationActionView {
    Sleep { millis: u64 },
    ActivateViaKwin,
    RunCommand(Seq<char>),
    Stop,
}

impl View for ActivationAction {
    type V = ActivationActionView;

    open spec fn view(&self) -> ActivationActionView {
        match self {
            ActivationAction::Sleep { millis } => ActivationActionView::Sleep { millis: *millis },
            ActivationAction::ActivateViaKwin => ActivationActionView::ActivateViaKwin,
            ActivationAction::RunCommand(command) => ActivationActionView::RunCommand(command@),
            ActivationAction::Stop => ActivationActionView::Stop,
        }
    }
}

/// What came of the last action.
#[derive(Debug, Clone, Copy, PartialEq, Eq, Structural)]
pub enum ActivationEvent {
    Slept,
    /// KWin was tried, with or without success.
    KwinTried,
    /// The command was run, or could not be run.
    CommandRun(bool),
}

/// Which action the activation waits on.
#[derive(Debug, Clone, Copy, PartialEq, Eq, Structural)]
pub enum ActivationPhase {
    Sleeping,
    TryingKwin,
    RunningCommand,
    Stopped,
}

/// The activation of the main window, in progress.
#[derive(Debug, Clone, Copy, PartialEq, Eq, Structural)]
pub struct WindowActivation {
    pub pid: u32,
    /// The attempts that follow on the present one.
    pub attempts_left: u32,
    pub phase: ActivationPhase,
}

/// The command that activates the windows of the process `pid`.
pub open spec fn xdotool_command(pid: u32) -> Seq<char> {
    "xdotool search --pid "@ + decimal(pid as nat) + " windowactivate"@
}

impl WindowActivation {
    /// An activation before its first attempt.
    pub open spec fn begun(pid: u32) -> WindowActivation {
        WindowActivation {
            pid,
            attempts_left: (ACTIVATION_ATTEMPTS - 1) as u32,
            phase: ActivationPhase::Sleeping,
        }
    }

    /// Whether `event` can come of the action that the activation waits on.
    pub open spec fn awaits(self, event: ActivationEvent) -> bool {
        match self.phase {
            ActivationPhase::Sleeping => event is Slept,
            ActivationPhase::TryingKwin => event is KwinTried,
            ActivationPhase::RunningCommand => event is CommandRun,
            ActivationPhase::Stopped => false,
        }
    }

    /// The activation after `event`, and the action that it then asks for.
    pub open spec fn after(self, event: ActivationEvent) -> (
        WindowActivation,
        ActivationActionView,
    ) {
        match event {
            ActivationEvent::Slept => (
                WindowActivation { phase: ActivationPhase::TryingKwin, ..self },
                ActivationActionView::ActivateViaKwin,
            ),
            ActivationEvent::KwinTried => (
                WindowActivation { phase: ActivationPhase::RunningCommand, ..self },
                ActivationActionView::RunCommand(xdotool_command(self.pid)),
            ),
            ActivationEvent::CommandRun(ran) => if ran && self.attempts_left > 0 {
                (
                    WindowActivation {
                        attempts_left: (self.attempts_left - 1) as u32,
                        phase: ActivationPhase::Sleeping,
                        ..self
                    },
                    ActivationActionView::Sleep { millis: ACTIVATION_PAUSE_MILLIS },
                )
            } else {
                (
                    WindowActivation { phase: ActivationPhase::Stopped, ..self },
                    ActivationActionView::Stop,
                )
            },
        }
    }

    /// Whether `event` can come of the action that the activation waits on.
    pub fn expects(&self, event: ActivationEvent) -> (yes: bool)
        ensures
            yes == self.awaits(event),
    {
        match (self.phase, event) {
            (ActivationPhase::Sleeping, ActivationEvent::Slept) => true,
            (ActivationPhase::TryingKwin, ActivationEvent::KwinTried) => true,
            (ActivationPhase::RunningCommand, ActivationEvent::CommandRun(_)) => true,
            _ => false,
        }
    }

    /// Takes what came of the last action, and says what to do next.
    pub fn step(&mut self, event: ActivationEvent) -> (action: ActivationAction)
        requires
            old(self).awaits(event),
        ensures
            (*final(self), action@) == old(self).after(event),
    {
        match event {
            ActivationEvent::Slept => {
                self.phase = ActivationPhase::TryingKwin;
                ActivationAction::ActivateViaKwin
            },
            ActivationEvent::KwinTried => {
                self.phase = ActivationPhase::RunningCommand;
                let mut command = "xdotool search --pid ".to_owned();
                push_decimal(&mut command, self.pid);
                command.append(" windowactivate");
                ActivationAction::RunCommand(command)
            },
            ActivationEvent::CommandRun(ran) => if ran && self.attempts_left > 0 {
                self.attempts_left = self.attempts_left - 1;
                self.phase = ActivationPhase::Sleeping;
                ActivationAction::Sleep { millis: ACTIVATION_PAUSE_MILLIS }
            } else {
                self.phase = ActivationPhase::Stopped;
                ActivationAction::Stop
            },
        }
    }
}

/// Begins to bring the main window of the process `pid` to the front. Each attempt pauses, tries
/// KWin and then `xdotool`; the first `xdotool` that cannot be run ends it.
pub fn activate_main_window_workaround(pid: u32) -> (begun: (WindowActivation, ActivationAction))
    ensures
        begun.0 == WindowActivation::begun(pid),
        begun.1@ == (ActivationActionView::Sleep { millis: ACTIVATION_PAUSE_MILLIS }),
        begun.1 == (ActivationAction::Sleep { millis: 200 }),
{
    (
        WindowActivation {
            pid,
            attempts_left: ACTIVATION_ATTEMPTS - 1,
            phase: ActivationPhase::Sleeping,
        },
        ActivationAction::Sleep { millis: ACTIVATION_PAUSE_MILLIS },
    )
}

/// The activation after one attempt from its pause on, and the action that it then asks for.
pub open spec fn attempt(activation: WindowActivation, command_ran: bool) -> (
    WindowActivation,
    ActivationActionView,
) {
    activation.after(ActivationEvent::Slept).0.after(ActivationEvent::KwinTried).0.after(
        ActivationEvent::CommandRun(command_ran),
    )
}

/// The activation after `count` attempts in each of which the command could be run.
pub open spec fn after_attempts(pid: u32, count: nat) -> WindowActivation
    decreases count,
{
    if count == 0 {
        WindowActivation::begun(pid)
    } else {
        attempt(after_attempts(pid, (count - 1) as nat), true).0
    }
}

/// There are as many attempts as were to be made, and no more: each waits for its turn, the last
/// one stops whatever came of it, and a command that cannot be run stops at once.
pub proof fn attempts_are_bounded(pid: u32, count: nat, command_ran: bool)
    requires
        count < ACTIVATION_ATTEMPTS,
    ensures
        after_attempts(pid, count).phase == ActivationPhase::Sleeping,
        attempt(after_attempts(pid, count), command_ran).1 == if command_ran && count + 1
            < ACTIVATION_ATTEMPTS {
            ActivationActionView::Sleep { millis: ACTIVATION_PAUSE_MILLIS }
        } else {
            ActivationActionView::Stop
        },
        after_attempts(pid, count).pid == pid,
        after_attempts(pid, count).attempts_left == ACTIVATION_ATTEMPTS - 1 - count,
    decreases count,
{
    if count > 0 {
        attempts_are_bounded(pid, (count - 1) as nat, true);
    }
}

} // verus!
