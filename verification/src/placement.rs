//! The window-placement call alphabet shared by the two backend strategies.
//!
//! A placer never talks to a display server itself: it emits a plan, a
//! sequence of `PlacementCall` values, and the surrounding process performs
//! each call against the real connection.  Keeping both strategies in one
//! alphabet lets the contracts say not only what a placer does, but also what
//! it never does.

use vstd::prelude::*;

use crate::backend::DisplayType;

verus! {

/// A fixed desktop layer of the layer-shell protocol.
#[derive(Clone, Copy, Debug, PartialEq, Eq, Structural)]
pub enum Layer {
    Background,
    Bottom,
    Top,
    Overlay,
}

/// An edge of the output, as the layer-shell protocol names them.
#[derive(Clone, Copy, Debug, PartialEq, Eq, Structural)]
pub enum LayerEdge {
    Left,
    Right,
    Top,
    Bottom,
}

/// One call against the windowing system that places or pins the popup.
#[derive(Clone, Copy, Debug, PartialEq, Eq, Structural)]
pub enum PlacementCall {
    /// Turn the window into a layer-shell surface.
    InitLayerShell,
    /// Assign the surface to a fixed desktop layer.
    SetLayer(Layer),
    /// Enable an automatically sized exclusive zone.
    AutoExclusiveZone,
    /// Set the margin from one edge, in device pixels.
    SetMargin(LayerEdge, i32),
    /// Pin (or release) the surface to one edge.
    SetAnchor(LayerEdge, bool),
    /// Move the window with id `window` to the absolute position `(x, y)`.
    ConfigurePosition { window: u32, x: i32, y: i32 },
}

/// The placement engine's entry point: positions the popup for an activation
/// at `(x, y)` under the strategy the classified backend selects.
///
/// Under Wayland the result is the fixed layer-shell plan and the X11 placer
/// is untouched.  Under X11 the result is one absolute configure request for
/// the window `xid` when its surface is realized, or nothing yet — the
/// request is then held back in the placer until the realize event.
pub fn place_popup(
    backend: DisplayType,
    placer: &mut crate::x11::X11Placer,
    xid: u32,
    x: i32,
    y: i32,
) -> (r: Vec<PlacementCall>)
    requires
        old(placer).wf(),
    ensures
        final(placer).wf(),
        backend == DisplayType::Wayland ==> {
            &&& r@ == crate::wayland::spec_wayland_placement()
            &&& *final(placer) == *old(placer)
        },
        backend == DisplayType::X11 && old(placer).realized() ==> {
            &&& r@ == seq![PlacementCall::ConfigurePosition { window: xid, x, y }]
            &&& final(placer).pending_move() is None
        },
        backend == DisplayType::X11 && !old(placer).realized() ==> {
            &&& r@ == Seq::<PlacementCall>::empty()
            &&& final(placer).pending_move() == Some((x, y))
        },
        backend == DisplayType::X11 ==> {
            &&& final(placer).atoms() == old(placer).atoms()
            &&& final(placer).resolution_count() == old(placer).resolution_count()
            &&& final(placer).hints_applied() == old(placer).hints_applied()
            &&& final(placer).wm_state_sent() == old(placer).wm_state_sent()
            &&& final(placer).realized() == old(placer).realized()
        },
{
    match backend {
        DisplayType::Wayland => crate::wayland::wayland_placement_calls(x, y),
        DisplayType::X11 => {
            let mut calls: Vec<PlacementCall> = Vec::new();
            match placer.request_move(xid, x, y) {
                Option::Some(call) => {
                    calls.push(call);
                },
                Option::None => {},
            }
            proof {
                if old(placer).realized() {
                    assert(calls@ =~= seq![
                        PlacementCall::ConfigurePosition { window: xid, x, y },
                    ]);
                } else {
                    assert(calls@ =~= Seq::<PlacementCall>::empty());
                }
            }
            calls
        },
    }
}

} // verus!
