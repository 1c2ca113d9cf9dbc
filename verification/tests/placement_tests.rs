use volctl::backend::DisplayType;
use volctl::controller::{PopupAction, PopupController, WindowVisibility};
use volctl::placement::{place_popup, Layer, LayerEdge, PlacementCall};
use volctl::wayland::wayland_placement_calls;
use volctl::x11::{AtomTable, PropertyKind, X11Placer, BYPASS_COMPOSITOR_DISABLE};

fn test_atoms() -> AtomTable {
    AtomTable {
        net_wm_state: 101,
        state_above: 102,
        state_skip_pager: 103,
        state_skip_taskbar: 104,
        state_sticky: 105,
        window_type: 106,
        window_type_utility: 107,
        bypass_compositor: 108,
        allowed_actions: 109,
        action_close: 110,
        action_above: 111,
    }
}

#[test]
fn toggle_alternates_and_places_exactly_once() {
    let mut c = PopupController::new();
    assert_eq!(c.get_visibility(), WindowVisibility::Hidden);
    // Two activations while hidden then visible: one placement, one hide.
    let mut placements = 0;
    let first = c.toggle_or_move(12, 34);
    assert_eq!(first, PopupAction::Place { x: 12, y: 34 });
    if let PopupAction::Place { .. } = first {
        placements += 1;
    }
    assert_eq!(c.get_visibility(), WindowVisibility::Visible);
    let second = c.toggle_or_move(5000, -7);
    assert_eq!(second, PopupAction::Hide);
    if let PopupAction::Place { .. } = second {
        placements += 1;
    }
    assert_eq!(placements, 1);
    assert_eq!(c.get_visibility(), WindowVisibility::Hidden);
}

#[test]
fn wayland_plan_is_the_same_for_any_coordinates() {
    let a = wayland_placement_calls(12, 34);
    let b = wayland_placement_calls(-5000, 99999);
    assert_eq!(a, b);
}

#[test]
fn wayland_plan_issues_only_layer_margin_and_anchor_calls() {
    let calls = wayland_placement_calls(12, 34);
    assert_eq!(calls.len(), 9);
    for call in &calls {
        assert!(!matches!(call, PlacementCall::ConfigurePosition { .. }));
    }
    assert_eq!(calls[0], PlacementCall::InitLayerShell);
    assert_eq!(calls[1], PlacementCall::SetLayer(Layer::Overlay));
    assert_eq!(calls[2], PlacementCall::AutoExclusiveZone);
    assert_eq!(calls[3], PlacementCall::SetMargin(LayerEdge::Right, 32));
    assert_eq!(calls[4], PlacementCall::SetMargin(LayerEdge::Top, 32));
    assert_eq!(calls[5], PlacementCall::SetAnchor(LayerEdge::Left, false));
    assert_eq!(calls[6], PlacementCall::SetAnchor(LayerEdge::Right, true));
    assert_eq!(calls[7], PlacementCall::SetAnchor(LayerEdge::Top, true));
    assert_eq!(calls[8], PlacementCall::SetAnchor(LayerEdge::Bottom, false));
}

#[test]
fn atom_resolution_happens_once_per_window_lifetime() {
    // The test doubles the protocol connection and counts its round trips.
    let mut placer = X11Placer::new();
    let mut round_trips = 0;
    let xid = 77;

    // First realize: the placer asks for one batched resolution.
    if placer.needs_atom_resolution() {
        round_trips += 1;
        placer.provide_atoms(test_atoms());
    }
    let plan = placer.on_realize(xid);
    assert_eq!(plan.properties.len(), 3);

    // The window is unrealized and realized again: no new round trip.
    if placer.needs_atom_resolution() {
        round_trips += 1;
        placer.provide_atoms(test_atoms());
    }
    let again = placer.on_realize(xid);
    assert_eq!(again.properties.len(), 0);

    assert_eq!(round_trips, 1);
}

#[test]
fn first_realize_sets_the_three_wm_hints() {
    let mut placer = X11Placer::new();
    let t = test_atoms();
    placer.provide_atoms(t);
    let plan = placer.on_realize(42);
    assert_eq!(plan.properties.len(), 3);

    assert_eq!(plan.properties[0].window, 42);
    assert_eq!(plan.properties[0].property, t.window_type);
    assert_eq!(plan.properties[0].kind, PropertyKind::Atom);
    assert_eq!(plan.properties[0].values, vec![t.window_type_utility]);

    assert_eq!(plan.properties[1].window, 42);
    assert_eq!(plan.properties[1].property, t.allowed_actions);
    assert_eq!(plan.properties[1].kind, PropertyKind::Atom);
    assert_eq!(plan.properties[1].values, vec![t.action_close, t.action_above]);

    assert_eq!(plan.properties[2].window, 42);
    assert_eq!(plan.properties[2].property, t.bypass_compositor);
    assert_eq!(plan.properties[2].kind, PropertyKind::Cardinal);
    assert_eq!(plan.properties[2].values, vec![BYPASS_COMPOSITOR_DISABLE]);
    assert_eq!(plan.properties[2].values, vec![2]);
}

#[test]
fn first_map_sends_both_state_pairs_together_and_only_once() {
    let mut placer = X11Placer::new();
    let t = test_atoms();
    placer.provide_atoms(t);
    let _ = placer.on_realize(42);

    let messages = placer.on_map(42);
    assert_eq!(messages.len(), 2);
    assert_eq!(messages[0].window, 42);
    assert_eq!(messages[0].message_type, t.net_wm_state);
    assert_eq!(messages[0].data, vec![1, t.state_above, t.state_sticky, 1, 0]);
    assert_eq!(messages[1].window, 42);
    assert_eq!(messages[1].message_type, t.net_wm_state);
    assert_eq!(messages[1].data, vec![1, t.state_skip_taskbar, t.state_skip_pager, 1, 0]);

    // A later map asserts nothing again.
    assert_eq!(placer.on_map(42).len(), 0);
}

#[test]
fn a_move_before_realize_is_deferred_and_released_exactly_once() {
    let mut placer = X11Placer::new();
    placer.provide_atoms(test_atoms());

    // Not realized yet: the request is held back.
    assert_eq!(placer.request_move(42, 10, 20), None);
    // Newer coordinates replace the held-back ones.
    assert_eq!(placer.request_move(42, 30, 40), None);

    let plan = placer.on_realize(42);
    assert_eq!(
        plan.deferred_move,
        Some(PlacementCall::ConfigurePosition { window: 42, x: 30, y: 40 })
    );

    // Realized now: requests go out directly, nothing is held back.
    assert_eq!(
        placer.request_move(42, 1, 2),
        Some(PlacementCall::ConfigurePosition { window: 42, x: 1, y: 2 })
    );
}

#[test]
fn the_engine_selects_the_strategy_by_backend() {
    let mut placer = X11Placer::new();
    let wayland = place_popup(DisplayType::Wayland, &mut placer, 42, 10, 20);
    assert_eq!(wayland, wayland_placement_calls(10, 20));

    // X11 before realize: nothing yet, the request waits for the surface.
    let early = place_popup(DisplayType::X11, &mut placer, 42, 10, 20);
    assert!(early.is_empty());

    placer.provide_atoms(test_atoms());
    let plan = placer.on_realize(42);
    assert_eq!(
        plan.deferred_move,
        Some(PlacementCall::ConfigurePosition { window: 42, x: 10, y: 20 })
    );

    // X11 after realize: exactly the one absolute configure request.
    let late = place_popup(DisplayType::X11, &mut placer, 42, 7, 8);
    assert_eq!(late, vec![PlacementCall::ConfigurePosition { window: 42, x: 7, y: 8 }]);
}
