//! Attachment registry: turning a window with a parent link into an attached
//! child window, and installing each parent's interaction hooks exactly once.
//!
//! On every host tick, each window still waiting for attachment is retried:
//! as long as either native handle is unresolved nothing happens and the
//! window simply waits. Once both handles resolve, the registry decides the
//! one-time attachment — the OS-level parent/child link, the static window
//! chrome from the window's declared configuration — and, only the first
//! time a given parent is seen, the installation of that parent's interaction
//! hooks. Hook installation is not idempotent at the OS level, so the
//! hooked-parent set kept here is the single source of truth preventing
//! double installation; entries are added once and never removed (the design
//! accepts leaking one hook per ever-seen parent for the process lifetime,
//! since removal could race with in-flight callbacks).

use vstd::prelude::*;
use std::collections::HashMap;
use std::collections::HashSet;
use crate::ParentWindow;

verus! {

broadcast use vstd::std_specs::hash::group_hash_axioms;

/// How far a window with a parent link has come. The state never regresses:
/// a window is `Attaching` from the instant its parent link is observed and
/// `Attached` once the OS-level link and chrome have been applied.
#[derive(Clone, Copy, Debug, PartialEq, Eq, Structural)]
pub enum AttachmentState {
    Unattached,
    Attaching,
    Attached,
}

/// The declarative window configuration the host supplies for a child.
#[derive(Clone, Copy, Debug, PartialEq, Eq, Structural)]
pub struct WindowConfig {
    pub resizable: bool,
    pub titlebar_shown: bool,
    pub titlebar_show_title: bool,
    pub titlebar_show_buttons: bool,
}

/// The static style flags applied to a child window's chrome.
#[derive(Clone, Copy, Debug, PartialEq, Eq, Structural)]
pub struct StyleMask {
    pub resizable: bool,
    pub titled: bool,
    pub closable: bool,
}

/// The style mask a configuration calls for: resizable exactly when declared
/// so; title bar and close button only when the title bar is shown at all and
/// its buttons are requested.
pub open spec fn style_mask_of(window: WindowConfig) -> StyleMask {
    StyleMask {
        resizable: window.resizable,
        titled: window.titlebar_shown && window.titlebar_show_buttons,
        closable: window.titlebar_shown && window.titlebar_show_buttons,
    }
}

/// Computes the style flags for a child window's chrome: [`style_mask_of`].
pub fn style_mask(window: &WindowConfig) -> (m: StyleMask)
    ensures
        m == style_mask_of(*window),
{
    let mut mask = StyleMask { resizable: false, titled: false, closable: false };
    if window.resizable {
        mask.resizable = true;
    }
    if !window.titlebar_shown {
        return mask;
    }
    if window.titlebar_show_buttons {
        mask.titled = true;
        mask.closable = true;
    }
    mask
}

/// Everything the host must apply to the native windows when a child's
/// attachment completes: which child to link under which parent, the chrome
/// to set, and whether this parent's interaction hooks must be installed now
/// (true only the first time the parent is seen).
#[derive(Clone, Copy, Debug, PartialEq, Eq, Structural)]
pub struct AttachAction {
    pub child: u64,
    pub parent: u64,
    pub style: StyleMask,
    pub title_visible: bool,
    pub install_hook: bool,
}

/// The per-process attachment registry: the attachment state of every window
/// identifier and the set of parents whose interaction hooks are installed.
pub struct ChildWindowPlugin {
    states: HashMap<u64, AttachmentState>,
    hooked_parents: HashSet<u64>,
}

impl ChildWindowPlugin {
    /// The registry never records `Unattached` explicitly: absence means it.
    pub closed spec fn wf(self) -> bool {
        forall|w: u64|
            self.states@.contains_key(w) ==> self.states@[w] != AttachmentState::Unattached
    }

    /// The recorded attachment states, by window identifier; identifiers
    /// absent from the map are unattached.
    pub closed spec fn states_map(self) -> Map<u64, AttachmentState> {
        self.states@
    }

    /// The attachment state of one window identifier.
    pub closed spec fn state_of(self, window: u64) -> AttachmentState {
        if self.states@.contains_key(window) {
            self.states@[window]
        } else {
            AttachmentState::Unattached
        }
    }

    /// The parents whose interaction hooks are installed.
    pub closed spec fn hooked(self) -> Set<u64> {
        self.hooked_parents@
    }

    /// A fresh registry: every window unattached, no parent hooked.
    pub fn new() -> (r: ChildWindowPlugin)
        ensures
            r.wf(),
            forall|w: u64| r.state_of(w) == AttachmentState::Unattached,
            r.hooked() == Set::<u64>::empty(),
    {
        ChildWindowPlugin { states: HashMap::new(), hooked_parents: HashSet::new() }
    }

    /// A parent link was added to `child`: mark the window `Attaching` so the
    /// per-tick scan picks it up. A window already attaching or attached is
    /// left as it is — the state never regresses.
    pub fn observe_parent_link(&mut self, child: u64)
        requires
            old(self).wf(),
        ensures
            final(self).wf(),
            final(self).state_of(child) == if old(self).state_of(child)
                == AttachmentState::Unattached {
                AttachmentState::Attaching
            } else {
                old(self).state_of(child)
            },
            forall|w: u64| w != child ==> final(self).state_of(w) == old(self).state_of(w),
            final(self).hooked() == old(self).hooked(),
    {
        if !self.states.contains_key(&child) {
            self.states.insert(child, AttachmentState::Attaching);
        }
    }

    /// Whether `parent`'s interaction hooks are already installed.
    pub fn is_hooked(&self, parent: u64) -> (r: bool)
        ensures
            r == self.hooked().contains(parent),
    {
        self.hooked_parents.contains(&parent)
    }

    /// The attachment state of one window identifier.
    pub fn attachment_state(&self, window: u64) -> (r: AttachmentState)
        ensures
            r == self.state_of(window),
    {
        match self.states.get(&window) {
            Some(state) => *state,
            None => AttachmentState::Unattached,
        }
    }

    /// One per-tick attempt to complete `child`'s attachment under the parent
    /// its link names. Nothing happens — no action, no state change — unless
    /// the window is `Attaching` and both native handles have resolved; the
    /// attempt is retried on a later tick. When both have resolved, the
    /// window becomes `Attached`, the returned action carries the chrome from
    /// its configuration, the action asks for hook installation exactly when
    /// the parent was not hooked yet, and the parent is in the hooked set
    /// afterwards.
    pub fn tick_window(
        &mut self,
        child: u64,
        link: &ParentWindow,
        config: &WindowConfig,
        child_resolved: bool,
        parent_resolved: bool,
    ) -> (r: Option<AttachAction>)
        requires
            old(self).wf(),
        ensures
            final(self).wf(),
            r is Some <==> old(self).state_of(child) == AttachmentState::Attaching && child_resolved
                && parent_resolved,
            r is None ==> {
                &&& forall|w: u64| final(self).state_of(w) == old(self).state_of(w)
                &&& final(self).states_map() == old(self).states_map()
                &&& final(self).hooked() == old(self).hooked()
            },
            r matches Some(action) ==> {
                &&& action.child == child
                &&& action.parent == link.0
                &&& action.style == style_mask_of(*config)
                &&& action.title_visible == config.titlebar_show_title
                &&& (action.install_hook <==> !old(self).hooked().contains(link.0))
                &&& final(self).state_of(child) == AttachmentState::Attached
                &&& forall|w: u64| w != child ==> final(self).state_of(w) == old(self).state_of(w)
                &&& final(self).states_map() == old(self).states_map().insert(
                    child,
                    AttachmentState::Attached,
                )
                &&& final(self).hooked() == old(self).hooked().insert(link.0)
            },
    {
        if !(child_resolved && parent_resolved) {
            return None;
        }
        let attaching = match self.states.get(&child) {
            Some(AttachmentState::Attaching) => true,
            _ => false,
        };
        if !attaching {
            return None;
        }
        self.states.insert(child, AttachmentState::Attached);
        let install_hook = !self.hooked_parents.contains(&link.0);
        self.hooked_parents.insert(link.0);
        Some(
            AttachAction {
                child,
                parent: link.0,
                style: style_mask(config),
                title_visible: config.titlebar_show_title,
                install_hook,
            },
        )
    }
}

/// One window still carrying the pending marker, as the host's per-tick scan
/// collects it: the window, its parent link and configuration, and whether
/// each of the two native handles resolved this tick.
#[derive(Clone, Copy, Debug, PartialEq, Eq, Structural)]
pub struct PendingWindow {
    pub window: u64,
    pub parent: ParentWindow,
    pub config: WindowConfig,
    pub child_resolved: bool,
    pub parent_resolved: bool,
}

/// What one pending window does to the registry: nothing unless it is
/// attaching and both handles resolved; otherwise it becomes attached, its
/// parent becomes hooked, and the action carries the chrome and whether the
/// parent was hooked only now.
pub open spec fn tick_step(
    states: Map<u64, AttachmentState>,
    hooked: Set<u64>,
    p: PendingWindow,
) -> (Map<u64, AttachmentState>, Set<u64>, Option<AttachAction>) {
    let ready = states.contains_key(p.window) && states[p.window] == AttachmentState::Attaching
        && p.child_resolved && p.parent_resolved;
    if ready {
        (
            states.insert(p.window, AttachmentState::Attached),
            hooked.insert(p.parent.0),
            Some(
                AttachAction {
                    child: p.window,
                    parent: p.parent.0,
                    style: style_mask_of(p.config),
                    title_visible: p.config.titlebar_show_title,
                    install_hook: !hooked.contains(p.parent.0),
                },
            ),
        )
    } else {
        (states, hooked, None)
    }
}

/// The registry and actions one whole tick leaves, folding [`tick_step`] over
/// the pending windows in order.
pub open spec fn ticked(
    states: Map<u64, AttachmentState>,
    hooked: Set<u64>,
    pending: Seq<PendingWindow>,
) -> (Map<u64, AttachmentState>, Set<u64>, Seq<AttachAction>)
    decreases pending.len(),
{
    if pending.len() == 0 {
        (states, hooked, Seq::empty())
    } else {
        let step = tick_step(states, hooked, pending[0]);
        let rest = ticked(step.0, step.1, pending.drop_first());
        (
            rest.0,
            rest.1,
            match step.2 {
                Some(action) => seq![action] + rest.2,
                None => rest.2,
            },
        )
    }
}

/// The host's per-tick scan: attempts every window still carrying the pending
/// marker, in the order given, and collects the attach actions to apply —
/// exactly the fold of [`tick_step`] over the scan.
pub fn convert_to_child_window(
    registry: &mut ChildWindowPlugin,
    pending: &Vec<PendingWindow>,
) -> (actions: Vec<AttachAction>)
    requires
        old(registry).wf(),
    ensures
        final(registry).wf(),
        ({
            let outcome = ticked(old(registry).states_map(), old(registry).hooked(), pending@);
            &&& final(registry).states_map() == outcome.0
            &&& final(registry).hooked() == outcome.1
            &&& actions@ == outcome.2
        }),
{
    let mut actions: Vec<AttachAction> = Vec::new();
    let mut i: usize = 0;
    proof {
        assert(pending@.skip(0) =~= pending@);
        assert(actions@ + ticked(registry.states_map(), registry.hooked(), pending@).2 =~= ticked(
            registry.states_map(),
            registry.hooked(),
            pending@,
        ).2);
    }
    while i < pending.len()
        invariant
            i <= pending@.len(),
            registry.wf(),
            ({
                let outcome = ticked(old(registry).states_map(), old(registry).hooked(), pending@);
                let remaining = ticked(
                    registry.states_map(),
                    registry.hooked(),
                    pending@.skip(i as int),
                );
                &&& outcome.0 == remaining.0
                &&& outcome.1 == remaining.1
                &&& outcome.2 == actions@ + remaining.2
            }),
        decreases pending@.len() - i,
    {
        let ghost states_before = registry.states_map();
        let ghost hooked_before = registry.hooked();
        let ghost actions_before = actions@;
        let p = pending[i];
        let r = registry.tick_window(
            p.window,
            &p.parent,
            &p.config,
            p.child_resolved,
            p.parent_resolved,
        );
        if let Some(action) = r {
            actions.push(action);
        }
        proof {
            assert(pending@.skip(i as int)[0] == pending@[i as int]);
            assert(pending@.skip(i as int).drop_first() =~= pending@.skip(i as int + 1));
            let step = tick_step(states_before, hooked_before, pending@[i as int]);
            assert(registry.states_map() == step.0);
            assert(registry.hooked() == step.1);
            assert(r == step.2);
            let remaining = ticked(registry.states_map(), registry.hooked(), pending@.skip(
                i as int + 1,
            ));
            assert(actions@ + remaining.2 =~= actions_before + ticked(
                states_before,
                hooked_before,
                pending@.skip(i as int),
            ).2);
        }
        i = i + 1;
    }
    proof {
        assert(pending@.skip(i as int).len() == 0);
        assert(actions@ + Seq::<AttachAction>::empty() =~= actions@);
    }
    actions
}

/// How many of the actions ask to install `parent`'s interaction hooks.
pub open spec fn installs_in(actions: Seq<AttachAction>, parent: u64) -> nat
    decreases actions.len(),
{
    if actions.len() == 0 {
        0
    } else {
        (if actions[0].install_hook && actions[0].parent == parent {
            1nat
        } else {
            0nat
        }) + installs_in(actions.drop_first(), parent)
    }
}

/// Install counts add up over concatenated action lists.
pub proof fn lemma_installs_in_concat(a: Seq<AttachAction>, b: Seq<AttachAction>, parent: u64)
    ensures
        installs_in(a + b, parent) == installs_in(a, parent) + installs_in(b, parent),
    decreases a.len(),
{
    if a.len() == 0 {
        assert(a + b =~= b);
    } else {
        assert((a + b).drop_first() =~= a.drop_first() + b);
        lemma_installs_in_concat(a.drop_first(), b, parent);
    }
}

/// Within one tick: the hooked set only grows; a parent hooked at the start
/// gets no install action; at most one install action is emitted per parent;
/// and a parent an install was emitted for is hooked afterwards.
pub proof fn lemma_ticked_installs(
    states: Map<u64, AttachmentState>,
    hooked: Set<u64>,
    pending: Seq<PendingWindow>,
    parent: u64,
)
    ensures
        ({
            let outcome = ticked(states, hooked, pending);
            &&& forall|q: u64| hooked.contains(q) ==> outcome.1.contains(q)
            &&& hooked.contains(parent) ==> installs_in(outcome.2, parent) == 0
            &&& installs_in(outcome.2, parent) <= 1
            &&& installs_in(outcome.2, parent) == 1 ==> outcome.1.contains(parent)
        }),
    decreases pending.len(),
{
    if pending.len() > 0 {
        let step = tick_step(states, hooked, pending[0]);
        let rest = ticked(step.0, step.1, pending.drop_first());
        let outcome = ticked(states, hooked, pending);
        lemma_ticked_installs(step.0, step.1, pending.drop_first(), parent);
        assert forall|q: u64| hooked.contains(q) implies outcome.1.contains(q) by {
            assert(step.1.contains(q));
        }
        match step.2 {
            Some(act) => {
                assert((seq![act] + rest.2)[0] == act);
                assert((seq![act] + rest.2).drop_first() =~= rest.2);
                assert(installs_in(outcome.2, parent) == (if act.install_hook && act.parent
                    == parent {
                    1nat
                } else {
                    0nat
                }) + installs_in(rest.2, parent));
                if act.install_hook && act.parent == parent {
                    assert(!hooked.contains(parent));
                    assert(step.1.contains(parent));
                }
            },
            None => {
                assert(outcome.2 == rest.2);
            },
        }
    }
}

/// The registry and actions a whole sequence of ticks leaves, each tick's
/// scan folded in turn.
pub open spec fn ticked_all(
    states: Map<u64, AttachmentState>,
    hooked: Set<u64>,
    scans: Seq<Seq<PendingWindow>>,
) -> (Map<u64, AttachmentState>, Set<u64>, Seq<AttachAction>)
    decreases scans.len(),
{
    if scans.len() == 0 {
        (states, hooked, Seq::empty())
    } else {
        let first = ticked(states, hooked, scans[0]);
        let rest = ticked_all(first.0, first.1, scans.drop_first());
        (rest.0, rest.1, first.2 + rest.2)
    }
}

/// Law (attachment idempotence): over any sequence of ticks, however many
/// children attach under it in whatever order, each distinct parent's
/// interaction hooks are installed at most once — and never if the parent was
/// already hooked at the start.
pub proof fn lemma_hook_install_at_most_once(
    states: Map<u64, AttachmentState>,
    hooked: Set<u64>,
    scans: Seq<Seq<PendingWindow>>,
    parent: u64,
)
    ensures
        installs_in(ticked_all(states, hooked, scans).2, parent) <= 1,
        hooked.contains(parent) ==> installs_in(ticked_all(states, hooked, scans).2, parent) == 0,
    decreases scans.len(),
{
    if scans.len() > 0 {
        let first = ticked(states, hooked, scans[0]);
        lemma_ticked_installs(states, hooked, scans[0], parent);
        lemma_hook_install_at_most_once(first.0, first.1, scans.drop_first(), parent);
        lemma_installs_in_concat(
            first.2,
            ticked_all(first.0, first.1, scans.drop_first()).2,
            parent,
        );
    }
}

} // verus!
