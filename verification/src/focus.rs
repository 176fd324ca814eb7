//! Focus of interface elements and the virtual keyboard decision that follows it.

use vstd::prelude::*;

verus! {

/// Whether an element currently has the focus.
#[derive(Copy, Clone, PartialEq, Eq, Structural, Debug)]
pub struct Focus {
    pub focused: bool,
}

impl Focus {
    pub fn new() -> (r: Focus)
        ensures
            !r.focused,
    {
        Focus { focused: false }
    }

    pub fn focus(&mut self)
        ensures
            final(self).focused,
    {
        self.focused = true;
    }

    pub fn blur(&mut self)
        ensures
            !final(self).focused,
    {
        self.focused = false;
    }

    pub fn focused(&self) -> (r: bool)
        ensures
            r == self.focused,
    {
        self.focused
    }
}

impl Default for Focus {
    fn default() -> (r: Focus)
        ensures
            !r.focused,
    {
        Focus::new()
    }
}

/// Marks an element that opens the virtual keyboard when it gets the focus.
#[derive(Copy, Clone, PartialEq, Eq, Structural, Debug, Default)]
pub struct FocusInputListener {}

/// Registers the focus systems with an application.
#[derive(Copy, Clone, PartialEq, Eq, Structural, Debug, Default)]
pub struct FocusAttachment {}

/// Which entity (by its id bits) is currently focused, if any.
#[derive(Copy, Clone, PartialEq, Eq, Structural, Debug)]
pub struct FocusedEntity {
    pub entity: Option<u64>,
}

impl FocusedEntity {
    pub fn new(entity: Option<u64>) -> (r: FocusedEntity)
        ensures
            r.entity == entity,
    {
        FocusedEntity { entity }
    }
}

/// What to do with the virtual keyboard after a focus change.
#[derive(Copy, Clone, PartialEq, Eq, Structural, Debug)]
pub enum VirtualKeyboardAction {
    Open,
    Close,
    Keep,
}

/// An element that can take the focus, with its entity id bits.
#[derive(Copy, Clone, PartialEq, Eq, Structural, Debug)]
pub struct FocusListener {
    pub entity: u64,
    pub focus: Focus,
}

/// The focus state of `listener` once `focused` is the focused entity: focused exactly
/// when it is that entity.
pub open spec fn refocused(listener: FocusListener, focused: Option<u64>) -> FocusListener {
    FocusListener {
        entity: listener.entity,
        focus: Focus { focused: focused == Some(listener.entity) },
    }
}

/// Applies a change of the focused entity to every focus listener. When the focused entity
/// did not change, nothing happens. Otherwise every listener is focused exactly when it is
/// the focused entity, and the virtual keyboard opens when the focused entity listens for
/// input (`focused_listens_input`) and closes in every other case.
pub fn set_focused(
    focus_listeners: &mut Vec<FocusListener>,
    focused_entity: Option<u64>,
    focused_changed: bool,
    focused_listens_input: bool,
) -> (r: VirtualKeyboardAction)
    ensures
        !focused_changed ==> r == VirtualKeyboardAction::Keep && final(focus_listeners)@ == old(
            focus_listeners,
        )@,
        focused_changed ==> {
            &&& r == if focused_entity is Some && focused_listens_input {
                VirtualKeyboardAction::Open
            } else {
                VirtualKeyboardAction::Close
            }
            &&& final(focus_listeners)@.len() == old(focus_listeners)@.len()
            &&& forall|i: int|
                0 <= i < old(focus_listeners)@.len() ==> #[trigger] final(focus_listeners)@[i]
                    == refocused(old(focus_listeners)@[i], focused_entity)
        },
{
    if !focused_changed {
        return VirtualKeyboardAction::Keep;
    }
    let action = match focused_entity {
        Some(_) => if focused_listens_input {
            VirtualKeyboardAction::Open
        } else {
            VirtualKeyboardAction::Close
        },
        None => VirtualKeyboardAction::Close,
    };
    let n = focus_listeners.len();
    let mut i: usize = 0;
    while i < n
        invariant
            n == old(focus_listeners)@.len(),
            focus_listeners@.len() == n,
            0 <= i <= n,
            forall|j: int|
                0 <= j < i ==> #[trigger] focus_listeners@[j] == refocused(
                    old(focus_listeners)@[j],
                    focused_entity,
                ),
            forall|j: int| i <= j < n ==> #[trigger] focus_listeners@[j] == old(focus_listeners)@[j],
        decreases n - i,
    {
        let mut listener = focus_listeners[i];
        match focused_entity {
            Some(f_entity) => {
                if f_entity == listener.entity {
                    listener.focus.focus();
                } else if listener.focus.focused() {
                    listener.focus.blur();
                }
            },
            None => {
                if listener.focus.focused() {
                    listener.focus.blur();
                }
            },
        }
        focus_listeners.set(i, listener);
        i = i + 1;
    }
    action
}

/// After a focus change, a listener is focused exactly when it is the focused entity.
pub proof fn lemma_refocused_exactly_focused(listener: FocusListener, focused: Option<u64>)
    ensures
        refocused(listener, focused).focus.focused <==> (focused == Some(listener.entity)),
        refocused(listener, focused).entity == listener.entity,
{
}

} // verus!
