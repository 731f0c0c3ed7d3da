//! The binding registry: which key code each logical action listens to.
use vstd::prelude::*;

verus! {

/// The fixed set of logical actions.
#[derive(Clone, Copy, Debug, PartialEq, Eq, Structural)]
pub enum Action {
    Pause,
    TransposeUp,
    TransposeDown,
    NextPreset,
    PreviousPreset,
    ScrollDown,
}

/// The action that a bind request names, by its wire name.
pub open spec fn action_named(name: Seq<char>) -> Option<Action> {
    if name == "pause"@ {
        Some(Action::Pause)
    } else if name == "transpose_up"@ {
        Some(Action::TransposeUp)
    } else if name == "transpose_down"@ {
        Some(Action::TransposeDown)
    } else if name == "next_transpose"@ {
        Some(Action::NextPreset)
    } else if name == "previous_transpose"@ {
        Some(Action::PreviousPreset)
    } else if name == "scroll_down"@ {
        Some(Action::ScrollDown)
    } else {
        None
    }
}

fn same_text(a: &str, b: &str) -> (r: bool)
    ensures
        r == (a@ == b@),
{
    a.to_owned() == b.to_owned()
}

impl Action {
    /// Reads an action's wire name; an unknown name gives `None`.
    pub fn from_name(name: &str) -> (r: Option<Action>)
        ensures
            r == action_named(name@),
    {
        if same_text(name, "pause") {
            Some(Action::Pause)
        } else if same_text(name, "transpose_up") {
            Some(Action::TransposeUp)
        } else if same_text(name, "transpose_down") {
            Some(Action::TransposeDown)
        } else if same_text(name, "next_transpose") {
            Some(Action::NextPreset)
        } else if same_text(name, "previous_transpose") {
            Some(Action::PreviousPreset)
        } else if same_text(name, "scroll_down") {
            Some(Action::ScrollDown)
        } else {
            None
        }
    }
}

/// The key code bound to each action; an unbound action never fires.
#[derive(Clone, Copy, Debug, PartialEq, Eq, Structural)]
pub struct Bindings {
    pub pause: Option<u64>,
    pub transpose_up: Option<u64>,
    pub transpose_down: Option<u64>,
    pub next_transpose: Option<u64>,
    pub previous_transpose: Option<u64>,
    pub scroll_down: Option<u64>,
}

impl Bindings {
    pub open spec fn binding(self, action: Action) -> Option<u64> {
        match action {
            Action::Pause => self.pause,
            Action::TransposeUp => self.transpose_up,
            Action::TransposeDown => self.transpose_down,
            Action::NextPreset => self.next_transpose,
            Action::PreviousPreset => self.previous_transpose,
            Action::ScrollDown => self.scroll_down,
        }
    }

    /// Pause, next and previous are bound: the listener handles keys at all.
    pub open spec fn listening(self) -> bool {
        self.pause is Some && self.next_transpose is Some && self.previous_transpose is Some
    }

    /// The bindings with `action` bound to `keycode`.
    pub open spec fn with_binding(self, action: Action, keycode: u64) -> Bindings {
        match action {
            Action::Pause => Bindings { pause: Some(keycode), ..self },
            Action::TransposeUp => Bindings { transpose_up: Some(keycode), ..self },
            Action::TransposeDown => Bindings { transpose_down: Some(keycode), ..self },
            Action::NextPreset => Bindings { next_transpose: Some(keycode), ..self },
            Action::PreviousPreset => Bindings { previous_transpose: Some(keycode), ..self },
            Action::ScrollDown => Bindings { scroll_down: Some(keycode), ..self },
        }
    }

    /// All four navigation actions are bound: pausing may be toggled, and
    /// a transposition has keys to press.
    pub open spec fn navigation_complete(self) -> bool {
        &&& self.transpose_up is Some
        &&& self.transpose_down is Some
        &&& self.next_transpose is Some
        &&& self.previous_transpose is Some
    }

    /// No action bound.
    pub open spec fn new_model() -> Bindings {
        Bindings {
            pause: None,
            transpose_up: None,
            transpose_down: None,
            next_transpose: None,
            previous_transpose: None,
            scroll_down: None,
        }
    }

    pub fn new() -> (r: Bindings)
        ensures
            r == Bindings::new_model(),
            forall|a: Action| r.binding(a) is None,
    {
        Bindings {
            pause: None,
            transpose_up: None,
            transpose_down: None,
            next_transpose: None,
            previous_transpose: None,
            scroll_down: None,
        }
    }

    pub fn get_binding(&self, action: Action) -> (r: Option<u64>)
        ensures
            r == self.binding(action),
    {
        match action {
            Action::Pause => self.pause,
            Action::TransposeUp => self.transpose_up,
            Action::TransposeDown => self.transpose_down,
            Action::NextPreset => self.next_transpose,
            Action::PreviousPreset => self.previous_transpose,
            Action::ScrollDown => self.scroll_down,
        }
    }

    /// Binds `action` to `keycode`, replacing its previous binding and
    /// leaving the others as they were.
    pub fn set_binding(&mut self, action: Action, keycode: u64)
        ensures
            *final(self) == old(self).with_binding(action, keycode),
            final(self).binding(action) == Some(keycode),
            forall|a: Action| a != action ==> final(self).binding(a) == old(self).binding(a),
    {
        match action {
            Action::Pause => self.pause = Some(keycode),
            Action::TransposeUp => self.transpose_up = Some(keycode),
            Action::TransposeDown => self.transpose_down = Some(keycode),
            Action::NextPreset => self.next_transpose = Some(keycode),
            Action::PreviousPreset => self.previous_transpose = Some(keycode),
            Action::ScrollDown => self.scroll_down = Some(keycode),
        }
    }
}

} // verus!
