//! The Wayland placement strategy.
//!
//! Layer-shell positioning is anchor- and margin-relative only: the popup is
//! assigned to the overlay layer, given fixed margins from the top-right
//! corner, and anchored there.  Absolute coordinates have no meaning under
//! this protocol, so the supplied pointer position is ignored by design.

use vstd::prelude::*;

use crate::placement::Layer;
use crate::placement::LayerEdge;
use crate::placement::PlacementCall;

verus! {

/// The margin, in device pixels, between the popup and the anchored edges.
pub const WAYLAND_MARGIN: i32 = 32;

/// The plan a Wayland placer issues: overlay layer, an exclusive zone, fixed
/// margins right and top, anchors pinned top and right, left and bottom free.
/// It takes no coordinates: no placement under this strategy depends on them.
pub open spec fn spec_wayland_placement() -> Seq<PlacementCall> {
    seq![
        PlacementCall::InitLayerShell,
        PlacementCall::SetLayer(Layer::Overlay),
        PlacementCall::AutoExclusiveZone,
        PlacementCall::SetMargin(LayerEdge::Right, WAYLAND_MARGIN),
        PlacementCall::SetMargin(LayerEdge::Top, WAYLAND_MARGIN),
        PlacementCall::SetAnchor(LayerEdge::Left, false),
        PlacementCall::SetAnchor(LayerEdge::Right, true),
        PlacementCall::SetAnchor(LayerEdge::Top, true),
        PlacementCall::SetAnchor(LayerEdge::Bottom, false),
    ]
}

/// Emits the layer-shell plan for showing the popup.  The `(x, y)` activation
/// coordinates are accepted for interface parity with the other strategy and
/// are ignored: the result is the same for every pair.
pub fn wayland_placement_calls(x: i32, y: i32) -> (r: Vec<PlacementCall>)
    ensures
        r@ == spec_wayland_placement(),
{
    let mut calls: Vec<PlacementCall> = Vec::new();
    calls.push(PlacementCall::InitLayerShell);
    calls.push(PlacementCall::SetLayer(Layer::Overlay));
    calls.push(PlacementCall::AutoExclusiveZone);
    calls.push(PlacementCall::SetMargin(LayerEdge::Right, WAYLAND_MARGIN));
    calls.push(PlacementCall::SetMargin(LayerEdge::Top, WAYLAND_MARGIN));
    calls.push(PlacementCall::SetAnchor(LayerEdge::Left, false));
    calls.push(PlacementCall::SetAnchor(LayerEdge::Right, true));
    calls.push(PlacementCall::SetAnchor(LayerEdge::Top, true));
    calls.push(PlacementCall::SetAnchor(LayerEdge::Bottom, false));
    proof {
        assert(calls@ =~= spec_wayland_placement());
    }
    calls
}

/// The Wayland strategy never issues an absolute-position call: every call in
/// its plan is a layer, margin or anchor call, whatever coordinates the
/// activation supplied.
pub proof fn lemma_wayland_never_positions_absolutely()
    ensures
        forall|i: int|
            0 <= i < spec_wayland_placement().len()
                ==> !(#[trigger] spec_wayland_placement()[i] is ConfigurePosition),
{
}

} // verus!
