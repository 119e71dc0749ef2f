//! How the map view answers pointer input: which camera action a drag or a
//! scroll performs under the held modifier keys, and the hints that the
//! status bar shows for it.
use vstd::prelude::*;

verus! {

/// The pointer inputs that move the camera.
#[derive(Debug, Clone, Copy, PartialEq, Eq, Structural)]
pub enum NavInput {
    PrimaryDrag,
    MiddleDrag,
    Scroll,
}

/// What an input does to the camera.
#[derive(Debug, Clone, Copy, PartialEq, Eq, Structural)]
pub enum NavAction {
    Pan,
    Zoom,
    Rotate,
}

/// A primary drag rotates with Alt and zooms with Ctrl; a middle drag
/// zooms with Ctrl; a scroll zooms with Ctrl and rotates with Alt. Without
/// those keys a primary drag or a scroll pans and a middle drag rotates.
pub open spec fn spec_nav_action(input: NavInput, alt: bool, ctrl: bool) -> NavAction {
    match input {
        NavInput::PrimaryDrag => if alt {
            NavAction::Rotate
        } else if ctrl {
            NavAction::Zoom
        } else {
            NavAction::Pan
        },
        NavInput::MiddleDrag => if ctrl {
            NavAction::Zoom
        } else {
            NavAction::Rotate
        },
        NavInput::Scroll => if ctrl {
            NavAction::Zoom
        } else if alt {
            NavAction::Rotate
        } else {
            NavAction::Pan
        },
    }
}

/// The camera action of an input under the held modifiers.
pub fn nav_action(input: NavInput, alt: bool, ctrl: bool) -> (a: NavAction)
    ensures
        a == spec_nav_action(input, alt, ctrl),
{
    match input {
        NavInput::PrimaryDrag => if alt {
            NavAction::Rotate
        } else if ctrl {
            NavAction::Zoom
        } else {
            NavAction::Pan
        },
        NavInput::MiddleDrag => if ctrl {
            NavAction::Zoom
        } else {
            NavAction::Rotate
        },
        NavInput::Scroll => if ctrl {
            NavAction::Zoom
        } else if alt {
            NavAction::Rotate
        } else {
            NavAction::Pan
        },
    }
}

pub open spec fn spec_action_label(a: NavAction) -> Seq<char> {
    match a {
        NavAction::Pan => "Pan"@,
        NavAction::Zoom => "Zoom"@,
        NavAction::Rotate => "Rotate"@,
    }
}

/// The word the status bar shows for an action.
pub fn action_label(a: NavAction) -> (s: &'static str)
    ensures
        s@ == spec_action_label(a),
{
    match a {
        NavAction::Pan => "Pan",
        NavAction::Zoom => "Zoom",
        NavAction::Rotate => "Rotate",
    }
}

pub open spec fn spec_input_key(input: NavInput) -> Seq<char> {
    match input {
        NavInput::PrimaryDrag => "LMB"@,
        NavInput::MiddleDrag => "MMB"@,
        NavInput::Scroll => "Scroll"@,
    }
}

/// The key name the status bar shows for an input.
pub fn input_key(input: NavInput) -> (s: &'static str)
    ensures
        s@ == spec_input_key(input),
{
    match input {
        NavInput::PrimaryDrag => "LMB",
        NavInput::MiddleDrag => "MMB",
        NavInput::Scroll => "Scroll",
    }
}

/// Whether the status bar highlights an input's hint: the primary drag
/// and the scroll under Alt or Ctrl, the middle drag under Ctrl.
pub open spec fn spec_hint_active(input: NavInput, alt: bool, ctrl: bool) -> bool {
    match input {
        NavInput::PrimaryDrag => alt || ctrl,
        NavInput::MiddleDrag => ctrl,
        NavInput::Scroll => alt || ctrl,
    }
}

pub fn hint_active(input: NavInput, alt: bool, ctrl: bool) -> (b: bool)
    ensures
        b == spec_hint_active(input, alt, ctrl),
{
    match input {
        NavInput::PrimaryDrag => alt || ctrl,
        NavInput::MiddleDrag => ctrl,
        NavInput::Scroll => alt || ctrl,
    }
}

/// A hint is highlighted exactly when the held keys change what its input
/// does from what it does with no key held.
pub proof fn law_hint_marks_changed_action(input: NavInput, alt: bool, ctrl: bool)
    ensures
        spec_hint_active(input, alt, ctrl) <==> spec_nav_action(input, alt, ctrl)
            != spec_nav_action(input, false, false),
{
}

/// What each input does under the held keys. Ctrl makes a scroll and a
/// middle drag zoom, whatever Alt is. Alt makes a primary drag rotate,
/// whatever Ctrl is; Ctrl alone makes it zoom. Alt alone makes a scroll
/// rotate. With no key held a primary drag or a scroll pans and a middle
/// drag rotates; a middle drag never pans.
pub proof fn law_nav_actions(alt: bool, ctrl: bool)
    ensures
        spec_nav_action(NavInput::Scroll, alt, true) == NavAction::Zoom,
        spec_nav_action(NavInput::MiddleDrag, alt, true) == NavAction::Zoom,
        spec_nav_action(NavInput::PrimaryDrag, true, ctrl) == NavAction::Rotate,
        spec_nav_action(NavInput::PrimaryDrag, false, true) == NavAction::Zoom,
        spec_nav_action(NavInput::Scroll, true, false) == NavAction::Rotate,
        spec_nav_action(NavInput::PrimaryDrag, false, false) == NavAction::Pan,
        spec_nav_action(NavInput::Scroll, false, false) == NavAction::Pan,
        spec_nav_action(NavInput::MiddleDrag, alt, false) == NavAction::Rotate,
        spec_nav_action(NavInput::MiddleDrag, alt, ctrl) != NavAction::Pan,
{
}

/// The status bar names each action by its word and each input by its key:
/// `LMB`, `MMB` and `Scroll`; and no two actions share a word.
pub proof fn law_hint_words(a: NavAction, b: NavAction)
    ensures
        a is Pan ==> spec_action_label(a) == "Pan"@,
        a is Zoom ==> spec_action_label(a) == "Zoom"@,
        a is Rotate ==> spec_action_label(a) == "Rotate"@,
        a != b ==> spec_action_label(a) != spec_action_label(b),
        spec_input_key(NavInput::PrimaryDrag) == "LMB"@,
        spec_input_key(NavInput::MiddleDrag) == "MMB"@,
        spec_input_key(NavInput::Scroll) == "Scroll"@,
{
    reveal_strlit("Pan");
    reveal_strlit("Zoom");
    reveal_strlit("Rotate");
    assert("Pan"@.len() == 3 && "Zoom"@.len() == 4 && "Rotate"@.len() == 6);
}

} // verus!
