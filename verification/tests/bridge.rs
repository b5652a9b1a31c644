use xwm_bridge::focus::FocusTarget;
use xwm_bridge::lifecycle::{get_x11_surface_id, MapEvent, ProtocolAction, ServerState};
use xwm_bridge::messages::{Geometry, Notification};
use xwm_bridge::selection::{SelectionOwner, SelectionTarget};

fn plain_map_event(legacy_id: u32, native_handle: u64, native_surface_id: u64) -> MapEvent {
    MapEvent {
        legacy_id,
        native_handle: Some(native_handle),
        native_surface_id,
        geometry: Geometry { x: 0, y: 0, w: 640, h: 480 },
        transient_for: None,
        title: None,
        window_class: None,
        instance: None,
        startup_id: None,
        focus: None,
    }
}

#[test]
fn register_returns_stable_id() {
    let mut s = ServerState::new();
    let (_, n1) = s.new_window(7, Geometry { x: 1, y: 2, w: 3, h: 4 });
    let (_, n2) = s.new_window(7, Geometry { x: 9, y: 9, w: 9, h: 9 });
    assert_eq!(n1, Notification::NewX11Surface { x11_surface_id: 1 });
    assert_eq!(n2, Notification::NewX11Surface { x11_surface_id: 1 });
    assert_eq!(get_x11_surface_id(&s.registry, 7), Some(1));
}

#[test]
fn evicted_id_is_never_reused() {
    let mut s = ServerState::new();
    let (_, n1) = s.new_window(7, Geometry { x: 0, y: 0, w: 1, h: 1 });
    assert_eq!(n1, Notification::NewX11Surface { x11_surface_id: 1 });
    let d = s.destroyed_window(7);
    assert_eq!(d, Some(Notification::DestroyX11Surface { x11_surface_id: 1 }));
    // The same legacy id comes back as a fresh, distinct window.
    let (_, n2) = s.new_window(7, Geometry { x: 0, y: 0, w: 1, h: 1 });
    assert_eq!(n2, Notification::NewX11Surface { x11_surface_id: 2 });
}

#[test]
fn outgoing_geometry_origin_is_always_zero() {
    let mut s = ServerState::new();
    let (g, _) = s.new_window(7, Geometry { x: 123, y: -45, w: 300, h: 200 });
    assert_eq!(g, Geometry { x: 0, y: 0, w: 300, h: 200 });
    let cfg = s.configure_request(
        Geometry { x: 0, y: 0, w: 300, h: 200 },
        Some(50),
        Some(60),
        Some(800),
        None,
    );
    assert_eq!(cfg, Geometry { x: 0, y: 0, w: 800, h: 200 });
    let mut ev = plain_map_event(7, 100, 11);
    ev.geometry = Geometry { x: 77, y: 88, w: 640, h: 480 };
    let n = s.map_x11_surface(ev).unwrap();
    match n {
        Notification::MapX11Surface { geometry, .. } => {
            assert_eq!(geometry, Geometry { x: 0, y: 0, w: 640, h: 480 });
        }
        other => panic!("unexpected notification {:?}", other),
    }
}

#[test]
fn configure_request_clamps_oversized_dimensions() {
    let mut s = ServerState::new();
    let cfg = s.configure_request(
        Geometry { x: 0, y: 0, w: 10, h: 20 },
        None,
        None,
        Some(u32::MAX),
        Some(i32::MAX as u32),
    );
    assert_eq!(cfg, Geometry { x: 0, y: 0, w: i32::MAX, h: i32::MAX });
}

#[test]
fn parent_of_override_redirect_with_known_transient_for() {
    let mut s = ServerState::new();
    s.new_window(7, Geometry { x: 0, y: 0, w: 1, h: 1 });
    s.new_override_redirect_window(8);
    let mut ev = plain_map_event(8, 200, 21);
    ev.transient_for = Some(7);
    let n = s.map_x11_surface(ev).unwrap();
    match n {
        Notification::MapX11Surface { x11_surface_id, parent, override_redirect, .. } => {
            assert_eq!(x11_surface_id, 2);
            assert_eq!(parent, Some(1));
            assert!(override_redirect);
        }
        other => panic!("unexpected notification {:?}", other),
    }
}

#[test]
fn parent_of_override_redirect_falls_back_to_focus() {
    let mut s = ServerState::new();
    s.new_window(7, Geometry { x: 0, y: 0, w: 1, h: 1 });
    s.map_x11_surface(plain_map_event(7, 100, 11));
    s.new_override_redirect_window(8);
    let mut ev = plain_map_event(8, 200, 21);
    ev.transient_for = Some(99); // unknown declared owner
    ev.focus = Some(FocusTarget::Legacy { xwm_id: 1, handle: Some(100) });
    let n = s.map_x11_surface(ev).unwrap();
    match n {
        Notification::MapX11Surface { parent, .. } => assert_eq!(parent, Some(1)),
        other => panic!("unexpected notification {:?}", other),
    }
}

#[test]
fn parent_of_override_redirect_without_usable_focus_is_none() {
    let mut s = ServerState::new();
    s.new_override_redirect_window(8);
    let mut ev = plain_map_event(8, 200, 21);
    ev.focus = Some(FocusTarget::Native { handle: 555 }); // not a legacy surface
    let n = s.map_x11_surface(ev).unwrap();
    match n {
        Notification::MapX11Surface { parent, .. } => assert_eq!(parent, None),
        other => panic!("unexpected notification {:?}", other),
    }
}

#[test]
fn regular_window_never_uses_focus_fallback() {
    let mut s = ServerState::new();
    s.new_window(7, Geometry { x: 0, y: 0, w: 1, h: 1 });
    s.map_x11_surface(plain_map_event(7, 100, 11));
    s.new_window(9, Geometry { x: 0, y: 0, w: 1, h: 1 });
    let mut ev = plain_map_event(9, 300, 31);
    ev.focus = Some(FocusTarget::Legacy { xwm_id: 1, handle: Some(100) });
    let n = s.map_x11_surface(ev).unwrap();
    match n {
        Notification::MapX11Surface { parent, override_redirect, .. } => {
            assert_eq!(parent, None);
            assert!(!override_redirect);
        }
        other => panic!("unexpected notification {:?}", other),
    }
}

#[test]
fn unmap_then_destroy_emit_exactly_once_in_order() {
    let mut s = ServerState::new();
    s.new_window(7, Geometry { x: 0, y: 0, w: 1, h: 1 });
    s.map_x11_surface(plain_map_event(7, 100, 11));
    let (u1, force1) = s.unmapped_window(7);
    assert_eq!(u1, Some(Notification::UnmapX11Surface { x11_surface_id: 1 }));
    assert!(force1);
    let (u2, force2) = s.unmapped_window(7);
    assert_eq!(u2, None);
    assert!(!force2);
    let d1 = s.destroyed_window(7);
    assert_eq!(d1, Some(Notification::DestroyX11Surface { x11_surface_id: 1 }));
    let d2 = s.destroyed_window(7);
    assert_eq!(d2, None);
}

#[test]
fn unmap_of_override_redirect_window_is_never_forced() {
    let mut s = ServerState::new();
    s.new_override_redirect_window(8);
    s.map_x11_surface(plain_map_event(8, 200, 21));
    let (u, force) = s.unmapped_window(8);
    assert_eq!(u, Some(Notification::UnmapX11Surface { x11_surface_id: 1 }));
    assert!(!force);
}

#[test]
fn events_for_unknown_windows_are_ignored() {
    let mut s = ServerState::new();
    assert_eq!(s.map_x11_surface(plain_map_event(42, 100, 11)), None);
    assert_eq!(s.unmapped_window(42), (None, false));
    assert_eq!(s.destroyed_window(42), None);
    assert_eq!(get_x11_surface_id(&s.registry, 42), None);
}

#[test]
fn map_without_native_surface_is_ignored() {
    let mut s = ServerState::new();
    s.new_window(7, Geometry { x: 0, y: 0, w: 1, h: 1 });
    let mut ev = plain_map_event(7, 0, 0);
    ev.native_handle = None;
    assert_eq!(s.map_x11_surface(ev), None);
}

#[test]
fn map_window_request_grants_map_and_activation() {
    let mut s = ServerState::new();
    let acts = s.map_window_request();
    assert_eq!(
        acts,
        vec![
            ProtocolAction::SetMapped { mapped: true },
            ProtocolAction::SetActivated { activated: true },
        ]
    );
}

#[test]
fn map_window_notify_requests_activation_for_regular_windows_only() {
    let mut s = ServerState::new();
    s.new_window(7, Geometry { x: 0, y: 0, w: 1, h: 1 });
    let (n, acts) = s.map_window_notify(plain_map_event(7, 100, 11));
    assert!(n.is_some());
    assert_eq!(acts, vec![ProtocolAction::SetActivated { activated: true }]);
    s.new_override_redirect_window(8);
    let (n2, acts2) = s.map_window_notify(plain_map_event(8, 200, 21));
    assert!(n2.is_some());
    assert!(acts2.is_empty());
}

#[test]
fn end_to_end_create_and_map_first_window() {
    let mut s = ServerState::new();
    let (_, created) = s.new_window(7, Geometry { x: 10, y: 10, w: 640, h: 480 });
    assert_eq!(created, Notification::NewX11Surface { x11_surface_id: 1 });
    let mapped = s.map_x11_surface(plain_map_event(7, 100, 11)).unwrap();
    assert_eq!(
        mapped,
        Notification::MapX11Surface {
            x11_surface_id: 1,
            surface_id: 11,
            override_redirect: false,
            geometry: Geometry { x: 0, y: 0, w: 640, h: 480 },
            parent: None,
            title: None,
            window_class: None,
            instance: None,
            startup_id: None,
        }
    );
}

#[test]
fn end_to_end_override_redirect_child_of_first_window() {
    let mut s = ServerState::new();
    s.new_window(7, Geometry { x: 0, y: 0, w: 640, h: 480 });
    s.map_x11_surface(plain_map_event(7, 100, 11));
    let created = s.new_override_redirect_window(8);
    assert_eq!(created, Notification::NewX11Surface { x11_surface_id: 2 });
    let mut ev = plain_map_event(8, 200, 21);
    ev.transient_for = Some(7);
    let mapped = s.mapped_override_redirect_window(ev).unwrap();
    match mapped {
        Notification::MapX11Surface { x11_surface_id, parent, override_redirect, .. } => {
            assert_eq!(x11_surface_id, 2);
            assert_eq!(parent, Some(1));
            assert!(override_redirect);
        }
        other => panic!("unexpected notification {:?}", other),
    }
}

#[test]
fn selection_access_gate_requires_focused_legacy_window_of_same_instance() {
    let s = ServerState::new();
    let focus_ours = Some(FocusTarget::Legacy { xwm_id: 3, handle: Some(100) });
    let focus_other = Some(FocusTarget::Legacy { xwm_id: 4, handle: None });
    let focus_native = Some(FocusTarget::Native { handle: 9 });
    assert!(s.allow_selection_access(3, &focus_ours));
    assert!(!s.allow_selection_access(3, &focus_other));
    assert!(!s.allow_selection_access(3, &focus_native));
    assert!(!s.allow_selection_access(3, &None));
}

#[test]
fn end_to_end_clipboard_offer_then_clear() {
    let mut s = ServerState::new();
    s.new_window(7, Geometry { x: 0, y: 0, w: 1, h: 1 });
    s.map_x11_surface(plain_map_event(7, 100, 11));
    let focus = Some(FocusTarget::Legacy { xwm_id: 3, handle: Some(100) });
    assert!(s.allow_selection_access(3, &focus));
    s.new_selection(SelectionTarget::Clipboard, vec![String::from("text/plain")]);
    let mime = String::from("text/plain");
    assert!(s.fetch_legacy_offer(SelectionTarget::Clipboard, &mime));
    s.cleared_selection(SelectionTarget::Clipboard);
    assert!(!s.fetch_legacy_offer(SelectionTarget::Clipboard, &mime));
}

#[test]
fn fetch_requires_matching_offer() {
    let mut s = ServerState::new();
    s.new_selection(
        SelectionTarget::Primary,
        vec![String::from("text/plain"), String::from("text/html")],
    );
    assert!(s.fetch_legacy_offer(SelectionTarget::Primary, &String::from("text/html")));
    assert!(!s.fetch_legacy_offer(SelectionTarget::Primary, &String::from("image/png")));
    // The clipboard slot is independent of the primary slot.
    assert!(!s.fetch_legacy_offer(SelectionTarget::Clipboard, &String::from("text/plain")));
}

#[test]
fn cleared_selection_twice_is_idempotent() {
    let mut s = ServerState::new();
    s.new_selection(SelectionTarget::Clipboard, vec![String::from("text/plain")]);
    s.cleared_selection(SelectionTarget::Clipboard);
    let owner_after_first = s.clipboard.owner;
    let offers_after_first = s.clipboard.offers.clone();
    s.cleared_selection(SelectionTarget::Clipboard);
    assert_eq!(s.clipboard.owner, owner_after_first);
    assert_eq!(s.clipboard.offers, offers_after_first);
    assert_eq!(s.clipboard.owner, SelectionOwner::NoOwner);
}

#[test]
fn clear_from_legacy_side_spares_a_newer_native_owner() {
    let mut s = ServerState::new();
    s.new_selection(SelectionTarget::Clipboard, vec![String::from("text/plain")]);
    // A newer native-side owner supersedes the legacy offer...
    s.set_native_selection(SelectionTarget::Clipboard);
    // ...so a stale clear from the legacy side must not wipe it.
    s.cleared_selection(SelectionTarget::Clipboard);
    assert_eq!(s.clipboard.owner, SelectionOwner::NativeOwned);
}

#[test]
fn send_selection_routes_request_verbatim() {
    let s = ServerState::new();
    let r = s.send_selection(SelectionTarget::Primary, String::from("text/plain"));
    assert_eq!(r.target, SelectionTarget::Primary);
    assert_eq!(r.mime_type, String::from("text/plain"));
}

#[test]
fn ignored_events_change_nothing() {
    let mut s = ServerState::new();
    s.new_window(7, Geometry { x: 0, y: 0, w: 1, h: 1 });
    s.configure_notify(Geometry { x: 5, y: 5, w: 9, h: 9 });
    s.resize_request(1);
    s.move_request(2);
    assert_eq!(get_x11_surface_id(&s.registry, 7), Some(1));
    assert_eq!(s.clipboard.owner, SelectionOwner::NoOwner);
}

#[test]
fn remap_after_unmap_keeps_the_same_id() {
    let mut s = ServerState::new();
    s.new_window(7, Geometry { x: 0, y: 0, w: 1, h: 1 });
    s.map_x11_surface(plain_map_event(7, 100, 11));
    s.unmapped_window(7);
    let n = s.map_x11_surface(plain_map_event(7, 101, 12)).unwrap();
    match n {
        Notification::MapX11Surface { x11_surface_id, surface_id, .. } => {
            assert_eq!(x11_surface_id, 1);
            assert_eq!(surface_id, 12);
        }
        other => panic!("unexpected notification {:?}", other),
    }
}
