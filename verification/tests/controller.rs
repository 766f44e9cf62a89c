use notch_panel::geometry::{GeometryPlan, LogicalPoint, LogicalSize};
use notch_panel::panel::{
    fade_opacity_permille, CollapseActions, ExpandActions, Panel, PanelConfig, ToggleActions,
};

fn expanded_panel(cfg: PanelConfig) -> Panel {
    let mut p = Panel::new(cfg);
    let r = p.expand(false, true, 1000);
    assert!(r.is_some());
    assert!(p.visible);
    p
}

#[test]
fn starts_collapsed_with_clear_counter() {
    let p = Panel::new(PanelConfig::default());
    assert!(!p.visible);
    assert_eq!(p.outside_count, 0);
}

#[test]
fn expand_centers_the_card() {
    let mut p = Panel::new(PanelConfig::default());
    let r = p.expand(true, true, 1000);
    assert!(p.visible);
    assert_eq!(
        r,
        Some(ExpandActions {
            geometry: GeometryPlan {
                size: LogicalSize { width: 350, height: 50 },
                position: LogicalPoint { x: 325, y: 0 },
            },
            focus: true,
        })
    );
}

#[test]
fn expand_while_expanded_keeps_visible_and_clears_counter() {
    let mut p = expanded_panel(PanelConfig::default());
    p.increment_outside();
    p.increment_outside();
    assert_eq!(p.outside_count, 2);
    let r = p.expand(false, true, 1000);
    assert!(p.visible);
    assert_eq!(p.outside_count, 0);
    assert!(r.is_some());
}

#[test]
fn hysteresis_fires_on_the_third_outside_call() {
    let mut p = expanded_panel(PanelConfig::default());
    assert!(!p.increment_outside());
    assert!(!p.increment_outside());
    assert!(p.increment_outside());
    assert_eq!(p.outside_count, 3);
}

#[test]
fn an_inside_classification_restarts_the_streak() {
    let mut p = expanded_panel(PanelConfig::default());
    assert!(!p.increment_outside());
    assert!(!p.increment_outside());
    p.reset_outside_count();
    assert_eq!(p.outside_count, 0);
    assert!(!p.increment_outside());
    assert!(!p.increment_outside());
    assert!(p.increment_outside());
}

#[test]
fn deferred_collapse_then_shrink_after_delay() {
    let mut p = expanded_panel(PanelConfig::default());
    let r = p.collapse(false, true);
    assert_eq!(r, CollapseActions::ShrinkAfterDelay { delay_ms: 200 });
    assert!(!p.visible);
    // No re-expand during the delay: the shrink applies the pill geometry.
    let shrink = p.deferred_shrink(true, 1000);
    assert_eq!(
        shrink,
        Some(GeometryPlan {
            size: LogicalSize { width: 300, height: 37 },
            position: LogicalPoint { x: 350, y: 0 },
        })
    );
}

#[test]
fn deferred_shrink_skips_after_reentry() {
    let mut p = expanded_panel(PanelConfig::default());
    let r = p.collapse(false, true);
    assert_eq!(r, CollapseActions::ShrinkAfterDelay { delay_ms: 200 });
    // Re-expand within the delay window: the expanded geometry is applied...
    let again = p.expand(true, true, 1000);
    assert!(again.is_some());
    assert!(p.visible);
    // ...and the deferred worker, re-checking, must skip the shrink.
    assert_eq!(p.deferred_shrink(true, 1000), None);
}

#[test]
fn immediate_collapse_shrinks_now() {
    let mut p = expanded_panel(PanelConfig::default());
    let r = p.collapse(true, true);
    assert_eq!(r, CollapseActions::ShrinkNow);
    assert!(!p.visible);
    assert!(p.deferred_shrink(true, 1000).is_some());
}

#[test]
fn collapse_while_collapsed_is_a_no_op() {
    let mut p = Panel::new(PanelConfig::default());
    let r = p.collapse(false, true);
    assert_eq!(r, CollapseActions::Nothing);
    assert!(!p.visible);
}

#[test]
fn operations_without_a_surface_succeed_and_change_nothing() {
    let mut p = expanded_panel(PanelConfig::default());
    assert_eq!(p.expand(true, false, 1000), None);
    assert!(p.visible);
    assert_eq!(p.collapse(false, false), CollapseActions::Nothing);
    assert!(p.visible);
    assert_eq!(p.resize(500, false), None);
    assert!(p.visible);

    let mut q = Panel::new(PanelConfig::default());
    assert_eq!(q.expand(true, false, 1000), None);
    assert!(!q.visible);
    assert_eq!(q.collapse(true, false), CollapseActions::Nothing);
    assert!(!q.visible);
    assert_eq!(q.deferred_shrink(false, 1000), None);
}

#[test]
fn toggle_alternates() {
    let mut p = Panel::new(PanelConfig::default());
    match p.toggle(true, true, 1000) {
        ToggleActions::Expand(Some(a)) => {
            assert!(a.focus);
            assert_eq!(a.geometry.size.width, 350);
        }
        other => panic!("expected an expand, got {:?}", other),
    }
    assert!(p.visible);
    assert_eq!(p.toggle(true, true, 1000), ToggleActions::Collapse(CollapseActions::ShrinkNow));
    assert!(!p.visible);
}

#[test]
fn resize_clamps_into_bounds() {
    let mut p = expanded_panel(PanelConfig::default());
    assert_eq!(p.resize(44, true), Some(45));
    assert_eq!(p.resize(45, true), Some(45));
    assert_eq!(p.resize(300, true), Some(300));
    assert_eq!(p.resize(600, true), Some(600));
    assert_eq!(p.resize(601, true), Some(600));
    assert_eq!(p.resize(-20, true), Some(45));
    assert!(p.visible);
}

#[test]
fn resize_clears_the_outside_counter() {
    let mut p = expanded_panel(PanelConfig::default());
    p.increment_outside();
    p.increment_outside();
    let _ = p.resize(120, true);
    assert_eq!(p.outside_count, 0);
}

#[test]
fn fade_aborts_when_the_state_reverses() {
    let mut p = expanded_panel(PanelConfig::default());
    // A show fade runs while expanded...
    assert!(p.fade_step_allowed(true));
    assert!(!p.fade_step_allowed(false));
    // ...and aborts once a collapse lands mid-flight.
    let _ = p.collapse(true, true);
    assert!(!p.fade_step_allowed(true));
    assert!(p.fade_step_allowed(false));
}

#[test]
fn fade_ladder_interpolates_in_equal_steps() {
    assert_eq!(fade_opacity_permille(0, 6), 0);
    assert_eq!(fade_opacity_permille(3, 6), 500);
    assert_eq!(fade_opacity_permille(6, 6), 1000);
    assert_eq!(fade_opacity_permille(1, 3), 333);
    assert_eq!(fade_opacity_permille(2, 3), 666);
}
