//! The X11 placement strategy.
//!
//! Three coordinated interactions with the window manager:
//!
//! * *Hint initialization*, once, at the window's first realize: the fixed
//!   atom table is resolved in one batched round trip and cached for the rest
//!   of the window's lifetime, then three properties are replaced on the
//!   window (window type, allowed actions, bypass-compositor).
//! * *State assertion*, once, at the window's first map: two client messages
//!   are sent, one asserting the pair {above, sticky} and one the pair
//!   {skip-taskbar, skip-pager}, each with action ADD and source-indication
//!   APPLICATION.  Both pairs go out together, never partially.
//! * *Geometry placement*: a configure request carrying `(x, y)`.  While the
//!   window surface is not yet realized the request is held back; the realize
//!   event releases it exactly once, with no further retries.
//!
//! The placer only decides; the surrounding process owns the protocol
//! connection, resolves atoms when told to, and performs the requests it is
//! handed.  A failed round trip is logged there and is never fatal: the
//! window stays shown, merely unstyled or unpositioned.

use vstd::prelude::*;

use crate::placement::PlacementCall;

verus! {

/// A `_NET_WM_STATE` client message asks to ADD the named states.
pub const WM_STATE_ADD: u32 = 1;

/// Source indication: the request comes from a normal application.
pub const WM_STATE_SOURCE_APPLICATION: u32 = 1;

/// Property value for `_NET_WM_BYPASS_COMPOSITOR` asking the compositor to
/// never bypass.
pub const BYPASS_COMPOSITOR_DISABLE: u32 = 2;

/// The fixed table of resolved atom identifiers this strategy needs, cached
/// after one batched round trip per window lifetime.
#[derive(Clone, Copy, Debug, PartialEq, Eq, Structural)]
pub struct AtomTable {
    pub net_wm_state: u32,
    pub state_above: u32,
    pub state_skip_pager: u32,
    pub state_skip_taskbar: u32,
    pub state_sticky: u32,
    pub window_type: u32,
    pub window_type_utility: u32,
    pub bypass_compositor: u32,
    pub allowed_actions: u32,
    pub action_close: u32,
    pub action_above: u32,
}

/// The value type of a property change, as the core protocol names them.
#[derive(Clone, Copy, Debug, PartialEq, Eq, Structural)]
pub enum PropertyKind {
    Atom,
    Cardinal,
}

/// A request to replace one property on a window.
#[derive(Debug)]
pub struct PropertyChange {
    pub window: u32,
    pub property: u32,
    pub kind: PropertyKind,
    pub values: Vec<u32>,
}

/// A `_NET_WM_STATE` client message: `data` carries the five 32-bit words of
/// the message body.  The protocol's shape allows two state values per
/// message, which is why states are asserted in pairs.
#[derive(Debug)]
pub struct WmStateMessage {
    pub window: u32,
    pub message_type: u32,
    pub data: Vec<u32>,
}

/// What the first realize hands back: the property changes to perform, and a
/// deferred placement released by the realize, if one was held back.
pub struct RealizePlan {
    pub properties: Vec<PropertyChange>,
    pub deferred_move: Option<PlacementCall>,
}

/// The five data words of a state-assertion message for the pair `(s1, s2)`.
pub open spec fn spec_wm_state_data(s1: u32, s2: u32) -> Seq<u32> {
    seq![WM_STATE_ADD, s1, s2, WM_STATE_SOURCE_APPLICATION, 0u32]
}

/// The X11 placer: owns the once-per-lifetime decisions (atom resolution,
/// hint initialization, state assertion) and the deferred-placement state.
pub struct X11Placer {
    atoms: Option<AtomTable>,
    resolutions: u32,
    hints_applied: bool,
    wm_state_sent: bool,
    realized: bool,
    pending_move: Option<(i32, i32)>,
}

impl X11Placer {
    /// The cached atom table, if the one batched round trip happened already.
    pub closed spec fn atoms(self) -> Option<AtomTable> {
        self.atoms
    }

    /// How many atom-resolution round trips this placer has asked for.
    pub closed spec fn resolution_count(self) -> int {
        self.resolutions as int
    }

    /// Whether the three window-manager hint properties were set already.
    pub closed spec fn hints_applied(self) -> bool {
        self.hints_applied
    }

    /// Whether the two state-assertion messages went out already.
    pub closed spec fn wm_state_sent(self) -> bool {
        self.wm_state_sent
    }

    /// Whether the window surface is realized.
    pub closed spec fn realized(self) -> bool {
        self.realized
    }

    /// The placement held back until the surface is realized.
    pub closed spec fn pending_move(self) -> Option<(i32, i32)> {
        self.pending_move
    }

    /// The placer's invariant.  In particular the resolution count equals one
    /// exactly when the table is cached, so it can never pass one: the table
    /// is never re-resolved.
    pub closed spec fn wf(self) -> bool {
        &&& self.resolutions == if self.atoms is Some {
            1int
        } else {
            0int
        }
        &&& self.hints_applied ==> self.atoms is Some
        &&& self.wm_state_sent ==> self.hints_applied
        &&& self.realized ==> self.pending_move is None
    }

    /// A fresh placer: nothing resolved, nothing applied, nothing pending.
    pub fn new() -> (r: X11Placer)
        ensures
            r.wf(),
            r.atoms() is None,
            r.resolution_count() == 0,
            !r.hints_applied(),
            !r.wm_state_sent(),
            !r.realized(),
            r.pending_move() is None,
    {
        X11Placer {
            atoms: None,
            resolutions: 0,
            hints_applied: false,
            wm_state_sent: false,
            realized: false,
            pending_move: None,
        }
    }

    /// Whether the atom table still has to be resolved.  The surrounding
    /// process asks this before realizing the window and performs the batched
    /// round trip only when told to.
    pub fn needs_atom_resolution(&self) -> (r: bool)
        ensures
            r == (self.atoms() is None),
    {
        match self.atoms {
            Option::None => true,
            Option::Some(_) => false,
        }
    }

    /// Whether the hint properties were applied already; the state-assertion
    /// step presupposes it.
    pub fn hints_are_applied(&self) -> (r: bool)
        ensures
            r == self.hints_applied(),
    {
        self.hints_applied
    }

    /// Caches the atom table that one batched round trip resolved.  Callable
    /// only while no table is cached, so the count can never exceed one.
    pub fn provide_atoms(&mut self, table: AtomTable)
        requires
            old(self).wf(),
            old(self).atoms() is None,
        ensures
            final(self).wf(),
            final(self).atoms() == Some(table),
            final(self).resolution_count() == old(self).resolution_count() + 1,
            final(self).hints_applied() == old(self).hints_applied(),
            final(self).wm_state_sent() == old(self).wm_state_sent(),
            final(self).realized() == old(self).realized(),
            final(self).pending_move() == old(self).pending_move(),
    {
        self.atoms = Some(table);
        self.resolutions = self.resolutions + 1;
    }

    /// The window's first realize: hands back the three hint properties to
    /// replace on the window — window type UTILITY, allowed actions
    /// {close, above}, bypass-compositor — and releases a placement that was
    /// held back for the surface, exactly once.  A later realize applies no
    /// hints again and has nothing left to release.
    pub fn on_realize(&mut self, xid: u32) -> (r: RealizePlan)
        requires
            old(self).wf(),
            old(self).atoms() is Some,
        ensures
            final(self).wf(),
            final(self).atoms() == old(self).atoms(),
            final(self).resolution_count() == old(self).resolution_count(),
            final(self).hints_applied(),
            final(self).wm_state_sent() == old(self).wm_state_sent(),
            final(self).realized(),
            final(self).pending_move() is None,
            ({
                let t = old(self).atoms()->0;
                if old(self).hints_applied() {
                    r.properties@.len() == 0
                } else {
                    &&& r.properties@.len() == 3
                    &&& r.properties@[0].window == xid
                    &&& r.properties@[0].property == t.window_type
                    &&& r.properties@[0].kind is Atom
                    &&& r.properties@[0].values@ == seq![t.window_type_utility]
                    &&& r.properties@[1].window == xid
                    &&& r.properties@[1].property == t.allowed_actions
                    &&& r.properties@[1].kind is Atom
                    &&& r.properties@[1].values@ == seq![t.action_close, t.action_above]
                    &&& r.properties@[2].window == xid
                    &&& r.properties@[2].property == t.bypass_compositor
                    &&& r.properties@[2].kind is Cardinal
                    &&& r.properties@[2].values@ == seq![BYPASS_COMPOSITOR_DISABLE]
                }
            }),
            ({
                match old(self).pending_move() {
                    Some((x, y)) => r.deferred_move == Some(
                        PlacementCall::ConfigurePosition { window: xid, x, y },
                    ),
                    None => r.deferred_move is None,
                }
            }),
    {
        let properties: Vec<PropertyChange> = if self.hints_applied {
            Vec::new()
        } else {
            let t = match self.atoms {
                Option::Some(t) => t,
                Option::None => unreached(),
            };
            let mut props: Vec<PropertyChange> = Vec::new();
            let mut type_values: Vec<u32> = Vec::new();
            type_values.push(t.window_type_utility);
            props.push(PropertyChange {
                window: xid,
                property: t.window_type,
                kind: PropertyKind::Atom,
                values: type_values,
            });
            let mut action_values: Vec<u32> = Vec::new();
            action_values.push(t.action_close);
            action_values.push(t.action_above);
            props.push(PropertyChange {
                window: xid,
                property: t.allowed_actions,
                kind: PropertyKind::Atom,
                values: action_values,
            });
            let mut bypass_values: Vec<u32> = Vec::new();
            bypass_values.push(BYPASS_COMPOSITOR_DISABLE);
            props.push(PropertyChange {
                window: xid,
                property: t.bypass_compositor,
                kind: PropertyKind::Cardinal,
                values: bypass_values,
            });
            props
        };
        self.hints_applied = true;
        self.realized = true;
        let deferred_move: Option<PlacementCall> = match self.pending_move {
            Option::Some((x, y)) => Some(PlacementCall::ConfigurePosition { window: xid, x, y }),
            Option::None => None,
        };
        self.pending_move = None;
        RealizePlan { properties, deferred_move }
    }

    /// The window's first map: hands back the two state-assertion client
    /// messages, `(above, sticky)` then `(skip-taskbar, skip-pager)`, both in
    /// one plan.  Any later map hands back nothing: the pairs are asserted
    /// exactly once, and never partially.
    pub fn on_map(&mut self, xid: u32) -> (r: Vec<WmStateMessage>)
        requires
            old(self).wf(),
            old(self).hints_applied(),
        ensures
            final(self).wf(),
            final(self).atoms() == old(self).atoms(),
            final(self).resolution_count() == old(self).resolution_count(),
            final(self).hints_applied(),
            final(self).wm_state_sent(),
            final(self).realized() == old(self).realized(),
            final(self).pending_move() == old(self).pending_move(),
            ({
                let t = old(self).atoms()->0;
                if old(self).wm_state_sent() {
                    r@.len() == 0
                } else {
                    &&& r@.len() == 2
                    &&& r@[0].window == xid
                    &&& r@[0].message_type == t.net_wm_state
                    &&& r@[0].data@ == spec_wm_state_data(t.state_above, t.state_sticky)
                    &&& r@[1].window == xid
                    &&& r@[1].message_type == t.net_wm_state
                    &&& r@[1].data@ == spec_wm_state_data(
                        t.state_skip_taskbar,
                        t.state_skip_pager,
                    )
                }
            }),
    {
        if self.wm_state_sent {
            Vec::new()
        } else {
            let t = match self.atoms {
                Option::Some(t) => t,
                Option::None => unreached(),
            };
            self.wm_state_sent = true;
            let mut messages: Vec<WmStateMessage> = Vec::new();
            messages.push(wm_state_message(xid, t.net_wm_state, t.state_above, t.state_sticky));
            messages.push(
                wm_state_message(xid, t.net_wm_state, t.state_skip_taskbar, t.state_skip_pager),
            );
            messages
        }
    }

    /// Asks to move the window to `(x, y)`.  On a realized surface the
    /// configure request goes out now (deferred onto the event loop's idle
    /// queue by the surrounding process); otherwise it is held back for the
    /// realize event, the newest coordinates winning.
    pub fn request_move(&mut self, xid: u32, x: i32, y: i32) -> (r: Option<PlacementCall>)
        requires
            old(self).wf(),
        ensures
            final(self).wf(),
            final(self).atoms() == old(self).atoms(),
            final(self).resolution_count() == old(self).resolution_count(),
            final(self).hints_applied() == old(self).hints_applied(),
            final(self).wm_state_sent() == old(self).wm_state_sent(),
            final(self).realized() == old(self).realized(),
            old(self).realized() ==> {
                &&& r == Some(PlacementCall::ConfigurePosition { window: xid, x, y })
                &&& final(self).pending_move() is None
            },
            !old(self).realized() ==> {
                &&& r is None
                &&& final(self).pending_move() == Some((x, y))
            },
    {
        if self.realized {
            Some(PlacementCall::ConfigurePosition { window: xid, x, y })
        } else {
            self.pending_move = Some((x, y));
            None
        }
    }

    /// Atom resolution happens at most once per window lifetime: a direct
    /// consequence of the invariant tying the count to the cached table.
    pub proof fn lemma_atom_resolution_at_most_once(self)
        requires
            self.wf(),
        ensures
            self.resolution_count() <= 1,
    {
    }
}

/// Builds the state-assertion message for one pair of states.
fn wm_state_message(xid: u32, net_wm_state: u32, s1: u32, s2: u32) -> (r: WmStateMessage)
    ensures
        r.window == xid,
        r.message_type == net_wm_state,
        r.data@ == spec_wm_state_data(s1, s2),
{
    let mut data: Vec<u32> = Vec::new();
    data.push(WM_STATE_ADD);
    data.push(s1);
    data.push(s2);
    data.push(WM_STATE_SOURCE_APPLICATION);
    data.push(0);
    proof {
        assert(data@ =~= spec_wm_state_data(s1, s2));
    }
    WmStateMessage { window: xid, message_type: net_wm_state, data }
}

} // verus!
