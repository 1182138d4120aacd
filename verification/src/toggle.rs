//! The shortcut-driven window-visibility toggle.
//!
//! Visibility is owned by the OS window manager and queried live on each
//! trigger, never cached here.  A visible window is hidden; a hidden window is
//! shown and focused.  When the visibility query fails the window is treated
//! as hidden, so the action biases toward making the window appear rather
//! than disappear.

use vstd::prelude::*;

verus! {

/// The primary modifier of the toggle shortcut; which one is used depends on
/// the platform family.
#[derive(Clone, Copy, PartialEq, Eq, Structural, Debug)]
pub enum PrimaryModifier {
    Super,
    Control,
}

/// The one global key combination registered at setup: primary modifier plus
/// Shift plus a letter key.  Fixed at build time, not persisted or
/// user-configurable.
pub struct ShortcutBinding {
    pub primary: PrimaryModifier,
    pub shift: bool,
    pub key: char,
}

/// The binding to register for the platform the host runs on: Super+Shift+P
/// on Apple platforms, Control+Shift+P elsewhere.  A failure to register it is
/// the one fatal error of the coordinator: the host stops startup.
pub fn shortcut_binding(apple_platform: bool) -> (b: ShortcutBinding)
    ensures
        b.primary == (if apple_platform {
            PrimaryModifier::Super
        } else {
            PrimaryModifier::Control
        }),
        b.shift,
        b.key == 'P',
{
    ShortcutBinding {
        primary: if apple_platform {
            PrimaryModifier::Super
        } else {
            PrimaryModifier::Control
        },
        shift: true,
        key: 'P',
    }
}

/// The window manager's answer to a visibility query.
#[derive(Clone, Copy, PartialEq, Eq, Structural, Debug)]
pub enum WindowVisibility {
    Visible,
    Hidden,
}

/// What the host must do to the main window for one shortcut trigger.
#[derive(Clone, Copy, PartialEq, Eq, Structural, Debug)]
pub enum ToggleAction {
    Hide,
    ShowAndFocus,
}

/// The action a trigger calls for, given the queried visibility; a failed
/// query (`None`) is treated as hidden.
pub open spec fn toggle_decision(observed: Option<WindowVisibility>) -> ToggleAction {
    match observed {
        Some(WindowVisibility::Visible) => ToggleAction::Hide,
        _ => ToggleAction::ShowAndFocus,
    }
}

/// The visibility the window ends in once an action is carried out.
pub open spec fn visibility_after(a: ToggleAction) -> WindowVisibility {
    match a {
        ToggleAction::Hide => WindowVisibility::Hidden,
        ToggleAction::ShowAndFocus => WindowVisibility::Visible,
    }
}

/// Decides the action for one shortcut trigger from the queried visibility.
pub fn toggle_action(observed: Option<WindowVisibility>) -> (a: ToggleAction)
    ensures
        a == toggle_decision(observed),
{
    match observed {
        Some(WindowVisibility::Visible) => ToggleAction::Hide,
        _ => ToggleAction::ShowAndFocus,
    }
}

/// The toggle state machine: a visible window ends hidden, a hidden window
/// ends visible, and a failed visibility query yields a show action.
pub proof fn lemma_toggle_state_machine(observed: Option<WindowVisibility>)
    ensures
        observed == Some(WindowVisibility::Visible) ==> visibility_after(toggle_decision(observed))
            == WindowVisibility::Hidden,
        observed == Some(WindowVisibility::Hidden) ==> visibility_after(toggle_decision(observed))
            == WindowVisibility::Visible,
        observed is None ==> toggle_decision(observed) == ToggleAction::ShowAndFocus,
{
}

/// Rapid repeated triggers simply alternate: carrying out the decided action
/// and triggering again decides the opposite action.
pub proof fn lemma_toggle_alternates(v: WindowVisibility)
    ensures
        toggle_decision(Some(visibility_after(toggle_decision(Some(v))))) != toggle_decision(
            Some(v),
        ),
{
}

} // verus!
