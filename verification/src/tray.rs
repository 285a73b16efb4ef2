//! Tray events and what they stand for.
//!
//! Which identifiers the tray menu offers is the application's business.
//! The controller is handed the menu as a list of bindings and treats every
//! identifier it does not find there as nothing to do.

use vstd::prelude::*;

verus! {

/// What a tray event can ask the controller for.
#[derive(Clone, Copy, Debug, PartialEq, Eq, Structural)]
pub enum TrayAction {
    /// Hide the window if it is on screen, bring it back otherwise.
    ToggleVisibility,
    /// End the process.
    Quit,
}

/// An event from the tray: a click on the icon or on one of its menu items,
/// told apart by an identifier.
#[derive(Debug, PartialEq, Eq)]
pub struct TrayEvent {
    pub id: String,
}

impl View for TrayEvent {
    type V = Seq<char>;

    open spec fn view(&self) -> Seq<char> {
        self.id@
    }
}

/// One entry of the tray menu: the identifier the runtime reports and what
/// it means.
#[derive(Debug, PartialEq, Eq)]
pub struct TrayBinding {
    pub id: String,
    pub action: TrayAction,
}

/// The mathematical content of a [`TrayBinding`].
pub struct TrayBindingView {
    pub id: Seq<char>,
    pub action: TrayAction,
}

impl View for TrayBinding {
    type V = TrayBindingView;

    open spec fn view(&self) -> TrayBindingView {
        TrayBindingView { id: self.id@, action: self.action }
    }
}

/// The meaning of an identifier under a list of bindings: that of the first
/// binding that carries it, if there is one.
pub open spec fn bound_action(bindings: Seq<TrayBindingView>, id: Seq<char>) -> Option<TrayAction>
    decreases bindings.len(),
{
    if bindings.len() == 0 {
        None
    } else if bindings[0].id == id {
        Some(bindings[0].action)
    } else {
        bound_action(bindings.drop_first(), id)
    }
}

/// The tray menu as the controller knows it.
#[derive(Debug, PartialEq, Eq)]
pub struct TrayMenu {
    pub bindings: Vec<TrayBinding>,
}

impl View for TrayMenu {
    type V = Seq<TrayBindingView>;

    open spec fn view(&self) -> Seq<TrayBindingView> {
        self.bindings@.map_values(|b: TrayBinding| b@)
    }
}

impl TrayMenu {
    /// A menu with the given bindings. Where two carry the same identifier,
    /// the earlier one counts.
    pub fn new(bindings: Vec<TrayBinding>) -> (menu: TrayMenu)
        ensures
            menu@ == bindings@.map_values(|b: TrayBinding| b@),
    {
        TrayMenu { bindings }
    }

    /// Maps a tray event to what it asks for. An identifier that
    /// the menu does not bind asks for nothing.
    pub fn resolve(&self, event: &TrayEvent) -> (action: Option<TrayAction>)
        ensures
            action == bound_action(self@, event@),
    {
        let mut i: usize = 0;
        assert(self@.skip(0) =~= self@);
        while i < self.bindings.len()
            invariant
                i <= self.bindings.len(),
                bound_action(self@, event@) == bound_action(self@.skip(i as int), event@),
            decreases self.bindings.len() - i,
        {
            proof {
                let rest = self@.skip(i as int);
                assert(rest[0] == self.bindings@[i as int]@);
                assert(rest.drop_first() =~= self@.skip(i + 1));
            }
            if self.bindings[i].id == event.id {
                return Some(self.bindings[i].action);
            }
            i = i + 1;
        }
        None
    }
}

/// Where an identifier is bound, some binding carries it, the first such
/// binding gives its meaning, and no earlier binding carries it.
pub proof fn lemma_bound(bindings: Seq<TrayBindingView>, id: Seq<char>) -> (at: int)
    requires
        bound_action(bindings, id) is Some,
    ensures
        0 <= at < bindings.len(),
        bindings[at].id == id,
        bound_action(bindings, id) == Some(bindings[at].action),
        forall|j: int| 0 <= j < at ==> (#[trigger] bindings[j]).id != id,
    decreases bindings.len(),
{
    if bindings[0].id == id {
        0
    } else {
        let rest = bindings.drop_first();
        let below = lemma_bound(rest, id);
        assert(rest[below] == bindings[below + 1]);
        assert forall|j: int| 0 <= j < below + 1 implies (#[trigger] bindings[j]).id != id by {
            if j > 0 {
                assert(rest[j - 1] == bindings[j]);
            }
        }
        below + 1
    }
}

/// Where an identifier is not bound, no binding carries it.
pub proof fn lemma_unbound(bindings: Seq<TrayBindingView>, id: Seq<char>, at: int)
    requires
        bound_action(bindings, id) is None,
        0 <= at < bindings.len(),
    ensures
        bindings[at].id != id,
    decreases bindings.len(),
{
    if at > 0 {
        let rest = bindings.drop_first();
        lemma_unbound(rest, id, at - 1);
        assert(rest[at - 1] == bindings[at]);
    }
}

/// An identifier asks for nothing exactly when no binding carries it.
pub proof fn law_unknown_identifiers_ignored(bindings: Seq<TrayBindingView>, id: Seq<char>)
    ensures
        bound_action(bindings, id) is None <==> forall|i: int|
            0 <= i < bindings.len() ==> (#[trigger] bindings[i]).id != id,
{
    if bound_action(bindings, id) is None {
        assert forall|i: int| 0 <= i < bindings.len() implies (#[trigger] bindings[i]).id != id by {
            lemma_unbound(bindings, id, i);
        }
    } else {
        let at = lemma_bound(bindings, id);
    }
}

} // verus!
