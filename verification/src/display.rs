//! Waking a locked host's display for a viewer, and blanking it again behind the last one.
//!
//! A host may power its monitor off when its screen locks. A viewer that connects then would wait
//! for an image forever, so the display is woken; once the last viewer has left and the screen is
//! still locked, it is blanked again. A screen that is not locked is left alone.

use crate::bus::{plain_call, MethodCall, MethodCallView, PropertyChange, PropertyChangeView};
use vstd::prelude::*;
use vstd::string::*;

verus! {

/// How long after the last viewer has left it is looked whether the display is to be blanked.
pub const REBLANK_GRACE_MILLIS: u64 = 5_000;

/// The power-save mode of a display that is on.
pub const POWER_SAVE_ON: i32 = 0;

/// The power-save mode of a display that is off.
pub const POWER_SAVE_OFF: i32 = 3;

/// The question whether the screen is locked.
pub open spec fn lock_query() -> MethodCallView {
    MethodCallView {
        destination: "org.gnome.ScreenSaver"@,
        path: "/org/gnome/ScreenSaver"@,
        interface: "org.gnome.ScreenSaver"@,
        member: "GetActive"@,
        arguments: Seq::empty(),
    }
}

/// The change of the display to the power-save mode `mode`.
pub open spec fn power_save_change(mode: i32) -> PropertyChangeView {
    PropertyChangeView {
        destination: "org.gnome.Mutter.DisplayConfig"@,
        path: "/org/gnome/Mutter/DisplayConfig"@,
        interface: "org.gnome.Mutter.DisplayConfig"@,
        property: "PowerSaveMode"@,
        value: mode,
    }
}

/// The call that asks whether the screen is locked. It returns the answer.
pub fn is_screen_locked() -> (call: MethodCall)
    ensures
        call@ == lock_query(),
{
    plain_call(
        "org.gnome.ScreenSaver",
        "/org/gnome/ScreenSaver",
        "org.gnome.ScreenSaver",
        "GetActive",
    )
}

/// The change that puts the display into a power-save mode.
pub fn set_display_power_save_mode(mode: i32) -> (change: PropertyChange)
    ensures
        change@ == power_save_change(mode),
        change.value == mode,
{
    PropertyChange {
        destination: "org.gnome.Mutter.DisplayConfig".to_owned(),
        path: "/org/gnome/Mutter/DisplayConfig".to_owned(),
        interface: "org.gnome.Mutter.DisplayConfig".to_owned(),
        property: "PowerSaveMode".to_owned(),
        value: mode,
    }
}

/// What to do for a viewer who connects: a locked screen's display is woken.
pub fn wake_display_if_locked(locked: bool) -> (change: Option<PropertyChange>)
    ensures
        change is Some <==> locked,
        change matches Some(change) ==> change@ == power_save_change(POWER_SAVE_ON)
            && change.value == 0,
{
    if locked {
        Some(set_display_power_save_mode(POWER_SAVE_ON))
    } else {
        None
    }
}

/// What to do `REBLANK_GRACE_MILLIS` after the last viewer has left: the display of a screen that
/// is still locked is blanked again.
pub fn reblank_display_if_still_locked(locked: bool) -> (change: Option<PropertyChange>)
    ensures
        change is Some <==> locked,
        change matches Some(change) ==> change@ == power_save_change(POWER_SAVE_OFF)
            && change.value == 3,
{
    if locked {
        Some(set_display_power_save_mode(POWER_SAVE_OFF))
    } else {
        None
    }
}

/// What happened that the display is to be looked after for.
#[derive(Debug, Clone, Copy, PartialEq, Eq, Structural)]
pub enum Occasion {
    /// A viewer has connected.
    Viewer,
    /// The last viewer has left.
    NoViewer,
}

/// What the handling of an occasion asks for.
#[derive(Debug, PartialEq, Eq)]
pub enum DisplayAction {
    Sleep { millis: u64 },
    /// Make the call that asks whether the screen is locked.
    AskLocked(MethodCall),
    Change(PropertyChange),
    Stop,
}

/// What a `DisplayAction` says.
pub enum DisplayActionView {
    Sleep { millis: u64 },
    AskLocked(MethodCallView),
    Change(PropertyChangeView),
    Stop,
}

impl View for DisplayAction {
    type V = DisplayActionView;

    open spec fn view(&self) -> DisplayActionView {
        match self {
            DisplayAction::Sleep { millis } => DisplayActionView::Sleep { millis: *millis },
            DisplayAction::AskLocked(call) => DisplayActionView::AskLocked(call@),
            DisplayAction::Change(change) => DisplayActionView::Change(change@),
            DisplayAction::Stop => DisplayActionView::Stop,
        }
    }
}

/// What came of the last action.
#[derive(Debug, Clone, Copy, PartialEq, Eq, Structural)]
pub enum DisplayEvent {
    Slept,
    /// Whether the screen is locked, or that it could not be asked.
    Locked(Option<bool>),
    /// The change was made, or could not be made.
    Changed,
}

/// Which action the handling of an occasion waits on.
#[derive(Debug, Clone, Copy, PartialEq, Eq, Structural)]
pub enum DisplayPhase {
    Sleeping,
    Asking,
    Changing,
    Stopped,
}

/// The handling of an occasion, in progress.
#[derive(Debug, Clone, Copy, PartialEq, Eq, Structural)]
pub struct DisplayRun {
    pub occasion: Occasion,
    pub phase: DisplayPhase,
}

/// The power-save mode that a locked screen's display is put into on an occasion.
pub open spec fn mode_for(occasion: Occasion) -> i32 {
    match occasion {
        Occasion::Viewer => POWER_SAVE_ON,
        Occasion::NoViewer => POWER_SAVE_OFF,
    }
}

impl DisplayRun {
    /// Whether `event` can come of the action that the handling waits on.
    pub open spec fn awaits(self, event: DisplayEvent) -> bool {
        match self.phase {
            DisplayPhase::Sleeping => event is Slept,
            DisplayPhase::Asking => event is Locked,
            DisplayPhase::Changing => event is Changed,
            DisplayPhase::Stopped => false,
        }
    }

    /// The handling after `event`, and the action that it then asks for.
    pub open spec fn after(self, event: DisplayEvent) -> (DisplayRun, DisplayActionView) {
        match event {
            DisplayEvent::Slept => (
                DisplayRun { phase: DisplayPhase::Asking, ..self },
                DisplayActionView::AskLocked(lock_query()),
            ),
            DisplayEvent::Locked(Some(true)) => (
                DisplayRun { phase: DisplayPhase::Changing, ..self },
                DisplayActionView::Change(power_save_change(mode_for(self.occasion))),
            ),
            _ => (
                DisplayRun { phase: DisplayPhase::Stopped, ..self },
                DisplayActionView::Stop,
            ),
        }
    }

    /// Whether `event` can come of the action that the handling waits on.
    pub fn expects(&self, event: DisplayEvent) -> (yes: bool)
        ensures
            yes == self.awaits(event),
    {
        match (self.phase, event) {
            (DisplayPhase::Sleeping, DisplayEvent::Slept) => true,
            (DisplayPhase::Asking, DisplayEvent::Locked(_)) => true,
            (DisplayPhase::Changing, DisplayEvent::Changed) => true,
            _ => false,
        }
    }

    /// Takes what came of the last action, and says what to do next.
    pub fn step(&mut self, event: DisplayEvent) -> (action: DisplayAction)
        requires
            old(self).awaits(event),
        ensures
            (*final(self), action@) == old(self).after(event),
    {
        let change = match event {
            DisplayEvent::Slept => {
                self.phase = DisplayPhase::Asking;
                return DisplayAction::AskLocked(is_screen_locked());
            },
            DisplayEvent::Locked(Some(locked)) => match self.occasion {
                Occasion::Viewer => wake_display_if_locked(locked),
                Occasion::NoViewer => reblank_display_if_still_locked(locked),
            },
            _ => None,
        };
        match change {
            Some(change) => {
                self.phase = DisplayPhase::Changing;
                DisplayAction::Change(change)
            },
            None => {
                self.phase = DisplayPhase::Stopped;
                DisplayAction::Stop
            },
        }
    }
}

/// Begins to wake the display for a viewer who has connected: it is asked at once whether the
/// screen is locked.
pub fn wake_display() -> (begun: (DisplayRun, DisplayAction))
    ensures
        begun.0 == (DisplayRun { occasion: Occasion::Viewer, phase: DisplayPhase::Asking }),
        begun.1@ == DisplayActionView::AskLocked(lock_query()),
{
    (
        DisplayRun { occasion: Occasion::Viewer, phase: DisplayPhase::Asking },
        DisplayAction::AskLocked(is_screen_locked()),
    )
}

/// Begins to blank the display behind the last viewer: it is asked only after a grace whether the
/// screen is still locked.
pub fn reblank_display() -> (begun: (DisplayRun, DisplayAction))
    ensures
        begun.0 == (DisplayRun { occasion: Occasion::NoViewer, phase: DisplayPhase::Sleeping }),
        begun.1@ == (DisplayActionView::Sleep { millis: REBLANK_GRACE_MILLIS }),
        begun.1 == (DisplayAction::Sleep { millis: 5_000 }),
{
    (
        DisplayRun { occasion: Occasion::NoViewer, phase: DisplayPhase::Sleeping },
        DisplayAction::Sleep { millis: REBLANK_GRACE_MILLIS },
    )
}

/// The display is changed only where the screen was found locked: behind any other answer, and
/// where there was none, the handling of an occasion stops. Behind a change it stops too, whatever
/// came of it.
pub proof fn only_a_locked_display_is_changed(occasion: Occasion, reply: Option<bool>)
    ensures
        ({
            let asking = DisplayRun { occasion, phase: DisplayPhase::Asking };
            let asked = asking.after(DisplayEvent::Locked(reply));
            &&& asked.1 == if reply == Some(true) {
                DisplayActionView::Change(power_save_change(mode_for(occasion)))
            } else {
                DisplayActionView::Stop
            }
            &&& reply == Some(true) ==> asked.0.awaits(DisplayEvent::Changed) && asked.0.after(
                DisplayEvent::Changed,
            ).1 == DisplayActionView::Stop
        }),
{
}

/// A display is blanked by way of the grace alone: what follows on it is the question whether the
/// screen is still locked.
pub proof fn grace_comes_before_the_question(event: DisplayEvent)
    requires
        (DisplayRun { occasion: Occasion::NoViewer, phase: DisplayPhase::Sleeping }).awaits(event),
    ensures
        event == DisplayEvent::Slept,
        (DisplayRun { occasion: Occasion::NoViewer, phase: DisplayPhase::Sleeping }).after(event)
            == (
            DisplayRun { occasion: Occasion::NoViewer, phase: DisplayPhase::Asking },
            DisplayActionView::AskLocked(lock_query()),
        ),
{
}

} // verus!
