//! The visibility controller: the single source of truth for the panel's
//! collapsed/expanded state and for the choreography of a transition.
//!
//! The controller itself performs no window-system call.  Each operation
//! updates the logical state synchronously and returns the actions the caller
//! must apply to the surface (geometry, focus, the deferred shrink).  When the
//! surface is absent — not yet created, or already destroyed — every operation
//! succeeds as a no-op and leaves `visible` as it was, so a transient absence
//! of the visual surface never fails a caller.

use vstd::prelude::*;
use crate::geometry::{centered_position, centered_x, clamp, clamped, GeometryPlan, LogicalPoint,
    LogicalSize};

verus! {

/// Tunable constants of the visibility controller.
#[derive(Clone, Copy, PartialEq, Eq, Debug)]
pub struct PanelConfig {
    /// Consecutive outside classifications required before auto-collapse fires.
    pub outside_threshold: u32,
    /// Geometry of the collapsed pill.
    pub collapsed_size: LogicalSize,
    /// Geometry of the expanded card.
    pub expanded_size: LogicalSize,
    /// Lower bound a requested resize height is clamped to.
    pub min_height: i32,
    /// Upper bound a requested resize height is clamped to.
    pub max_height: i32,
    /// Delay, in milliseconds, between a deferred collapse and its geometry
    /// shrink, left for the cosmetic collapse animation to play out.
    pub collapse_delay_ms: u32,
    /// Number of discrete opacity steps in a cosmetic fade.
    pub fade_steps: u32,
    /// Interval, in milliseconds, between two opacity steps of a fade.
    pub fade_step_ms: u32,
}

impl PanelConfig {
    /// The tunables make sense: a positive threshold, non-negative sizes,
    /// ordered clamp bounds, at least one fade step.
    pub open spec fn wf(&self) -> bool {
        &&& 1 <= self.outside_threshold
        &&& 0 <= self.collapsed_size.width
        &&& 0 <= self.collapsed_size.height
        &&& 0 <= self.expanded_size.width
        &&& 0 <= self.expanded_size.height
        &&& 0 <= self.min_height <= self.max_height
        &&& 1 <= self.fade_steps
    }
}

impl Default for PanelConfig {
    /// The stock tuning: collapse after 3 consecutive outside ticks, a
    /// 300 x 37 pill, a 350 x 50 card, heights clamped to 45..600, a 200 ms
    /// shrink delay, and a 6-step fade at 16 ms.
    fn default() -> (c: PanelConfig)
        ensures
            c.wf(),
            c == (PanelConfig {
                outside_threshold: 3,
                collapsed_size: LogicalSize { width: 300, height: 37 },
                expanded_size: LogicalSize { width: 350, height: 50 },
                min_height: 45,
                max_height: 600,
                collapse_delay_ms: 200,
                fade_steps: 6,
                fade_step_ms: 16,
            }),
    {
        PanelConfig {
            outside_threshold: 3,
            collapsed_size: LogicalSize { width: 300, height: 37 },
            expanded_size: LogicalSize { width: 350, height: 50 },
            min_height: 45,
            max_height: 600,
            collapse_delay_ms: 200,
            fade_steps: 6,
            fade_step_ms: 16,
        }
    }
}

/// What a successful expansion asks of the caller: apply the geometry, emit
/// the expand notification, and request input focus if `focus` holds.
#[derive(Clone, Copy, PartialEq, Eq, Debug)]
pub struct ExpandActions {
    pub geometry: GeometryPlan,
    pub focus: bool,
}

/// What a collapse asks of the caller.
#[derive(Clone, Copy, PartialEq, Eq, Debug)]
pub enum CollapseActions {
    /// The panel was already collapsed, or there is no surface: nothing to
    /// apply.
    Nothing,
    /// An immediate collapse: emit the collapse notification and apply the
    /// geometry [`Panel::deferred_shrink`] yields, right away.
    ShrinkNow,
    /// A deferred collapse: emit the collapse notification now, and after the
    /// delay apply whatever [`Panel::deferred_shrink`] yields then.
    ShrinkAfterDelay { delay_ms: u32 },
}

/// The outcome of a toggle: which transition ran, with its actions.
#[derive(Clone, Copy, PartialEq, Eq, Debug)]
pub enum ToggleActions {
    /// The panel was collapsed, so it expanded.
    Expand(Option<ExpandActions>),
    /// The panel was expanded, so it collapsed immediately.
    Collapse(CollapseActions),
}

/// The geometry a surface of size `size` takes when centered at the top edge
/// of a screen `screen_width` logical units wide.
pub open spec fn placement(size: LogicalSize, screen_width: i32) -> GeometryPlan {
    GeometryPlan {
        size,
        position: LogicalPoint { x: centered_x(screen_width, size.width) as i32, y: 0 },
    }
}

/// Compute [`placement`] of a surface.
fn place(size: LogicalSize, screen_width: i32) -> (g: GeometryPlan)
    requires
        0 <= screen_width,
        0 <= size.width,
    ensures
        g == placement(size, screen_width),
{
    GeometryPlan { size, position: LogicalPoint { x: centered_position(screen_width, size.width), y: 0 } }
}

/// The visibility controller's state.  `visible` is true iff the panel is
/// logically expanded; `outside_count` is the number of consecutive poll
/// ticks on which the pointer was classified outside while expanded, cleared
/// on every inside classification and on every transition.
#[derive(Clone, Copy, PartialEq, Eq, Debug)]
pub struct Panel {
    pub config: PanelConfig,
    pub visible: bool,
    pub outside_count: u32,
}

impl Panel {
    /// The controller is well-formed iff its tunables are.
    pub open spec fn wf(&self) -> bool {
        self.config.wf()
    }

    /// A fresh controller: collapsed, counter clear.
    pub fn new(config: PanelConfig) -> (p: Panel)
        ensures
            p == (Panel { config, visible: false, outside_count: 0 }),
    {
        Panel { config, visible: false, outside_count: 0 }
    }

    /// The state after an expand: the counter is cleared, and the panel is
    /// expanded iff a surface was there to expand (otherwise `visible` keeps
    /// its old value).
    pub open spec fn expand_transition(self, surface_present: bool) -> Panel {
        Panel { visible: self.visible || surface_present, outside_count: 0, ..self }
    }

    /// The state after a collapse: the counter is cleared, and the panel is
    /// collapsed iff a surface was there to collapse (otherwise `visible`
    /// keeps its old value).
    pub open spec fn collapse_transition(self, surface_present: bool) -> Panel {
        Panel { visible: self.visible && !surface_present, outside_count: 0, ..self }
    }

    /// A deferred geometry shrink may be applied iff the panel is still
    /// collapsed and the surface is there.
    pub open spec fn deferred_shrink_due(self, surface_present: bool) -> bool {
        !self.visible && surface_present
    }

    /// Expand the panel: clear the outside counter and, if the surface is
    /// present, mark the panel expanded and return the geometry (the expanded
    /// size, re-centered on the screen) and focus request to apply.  Expanding
    /// an already-expanded panel changes no state beyond the counter; the
    /// geometry is still handed back so the caller may re-center.  Without a
    /// surface the call is a successful no-op.
    pub fn expand(&mut self, focus: bool, surface_present: bool, screen_width: i32) -> (r: Option<
        ExpandActions,
    >)
        requires
            old(self).wf(),
            0 <= screen_width,
        ensures
            *final(self) == old(self).expand_transition(surface_present),
            r is Some <==> surface_present,
            surface_present ==> r == Some(ExpandActions {
                geometry: placement(old(self).config.expanded_size, screen_width),
                focus,
            }),
    {
        self.outside_count = 0;
        if surface_present {
            self.visible = true;
            Some(ExpandActions { geometry: place(self.config.expanded_size, screen_width), focus })
        } else {
            None
        }
    }

    /// Collapse the panel: clear the outside counter and, if the panel is
    /// expanded and the surface present, mark it collapsed and say how the
    /// geometry shrink is to be applied — right away when `immediate`, else
    /// after the configured delay, re-checked through
    /// [`Panel::deferred_shrink`] so a re-expand during the delay cancels it.
    /// Collapsing an already-collapsed panel, or one without a surface, is a
    /// successful no-op.
    pub fn collapse(&mut self, immediate: bool, surface_present: bool) -> (r: CollapseActions)
        requires
            old(self).wf(),
        ensures
            *final(self) == old(self).collapse_transition(surface_present),
            r == (if old(self).visible && surface_present {
                if immediate {
                    CollapseActions::ShrinkNow
                } else {
                    CollapseActions::ShrinkAfterDelay { delay_ms: old(self).config.collapse_delay_ms }
                }
            } else {
                CollapseActions::Nothing
            }),
    {
        self.outside_count = 0;
        if self.visible && surface_present {
            self.visible = false;
            if immediate {
                CollapseActions::ShrinkNow
            } else {
                CollapseActions::ShrinkAfterDelay { delay_ms: self.config.collapse_delay_ms }
            }
        } else {
            CollapseActions::Nothing
        }
    }

    /// The deferred tail of a collapse: yields the collapsed geometry
    /// (re-centered on the screen) only while the panel is still collapsed
    /// and the surface is there.  A re-expand during the delay window makes
    /// this yield nothing, which cancels the pending shrink.
    pub fn deferred_shrink(&self, surface_present: bool, screen_width: i32) -> (r: Option<
        GeometryPlan,
    >)
        requires
            self.wf(),
            0 <= screen_width,
        ensures
            r is Some <==> self.deferred_shrink_due(surface_present),
            self.deferred_shrink_due(surface_present) ==> r == Some(
                placement(self.config.collapsed_size, screen_width),
            ),
    {
        if !self.visible && surface_present {
            Some(place(self.config.collapsed_size, screen_width))
        } else {
            None
        }
    }

    /// Toggle: expand when collapsed, collapse immediately when expanded.
    pub fn toggle(&mut self, focus: bool, surface_present: bool, screen_width: i32) -> (r:
        ToggleActions)
        requires
            old(self).wf(),
            0 <= screen_width,
        ensures
            old(self).visible ==> {
                &&& *final(self) == old(self).collapse_transition(surface_present)
                &&& r == ToggleActions::Collapse(
                    if surface_present {
                        CollapseActions::ShrinkNow
                    } else {
                        CollapseActions::Nothing
                    },
                )
            },
            !old(self).visible ==> {
                &&& *final(self) == old(self).expand_transition(surface_present)
                &&& surface_present ==> r == ToggleActions::Expand(Some(ExpandActions {
                    geometry: placement(old(self).config.expanded_size, screen_width),
                    focus,
                }))
                &&& !surface_present ==> r == ToggleActions::Expand(None)
            },
    {
        if self.visible {
            ToggleActions::Collapse(self.collapse(true, surface_present))
        } else {
            ToggleActions::Expand(self.expand(focus, surface_present, screen_width))
        }
    }

    /// Clamp a requested height into the configured bounds and return the
    /// height to apply, or nothing when there is no surface to resize.  An
    /// out-of-range request is silently clamped, never an error.  The outside
    /// counter is cleared so a resize does not feed the auto-collapse; the
    /// visibility is untouched.
    pub fn resize(&mut self, target_height: i32, surface_present: bool) -> (r: Option<i32>)
        requires
            old(self).wf(),
        ensures
            *final(self) == (Panel { outside_count: 0, ..*old(self) }),
            r is Some <==> surface_present,
            surface_present ==> r == Some(
                clamped(target_height, old(self).config.min_height, old(self).config.max_height),
            ),
    {
        self.outside_count = 0;
        if surface_present {
            Some(clamp(target_height, self.config.min_height, self.config.max_height))
        } else {
            None
        }
    }

    /// The state after one outside classification: the counter one higher,
    /// saturating at its type's maximum so the count never wraps back below
    /// the threshold.
    pub open spec fn outside_transition(self) -> Panel {
        Panel {
            outside_count: if self.outside_count < u32::MAX {
                (self.outside_count + 1) as u32
            } else {
                u32::MAX
            },
            ..self
        }
    }

    /// Whether the outside classification now being noted reaches the
    /// threshold, so auto-collapse should fire.
    pub open spec fn outside_fires(self) -> bool {
        self.outside_transition().outside_count >= self.config.outside_threshold
    }

    /// Note one more consecutive outside classification; true iff the new
    /// count reaches the threshold, signalling the caller to fire
    /// auto-collapse now.
    pub fn increment_outside(&mut self) -> (fire: bool)
        ensures
            *final(self) == old(self).outside_transition(),
            fire == old(self).outside_fires(),
    {
        if self.outside_count < u32::MAX {
            self.outside_count = self.outside_count + 1;
        }
        self.outside_count >= self.config.outside_threshold
    }

    /// Note an inside classification: clear the outside counter.
    pub fn reset_outside_count(&mut self)
        ensures
            *final(self) == (Panel { outside_count: 0, ..*old(self) }),
    {
        self.outside_count = 0;
    }

    /// Whether the next step of a cosmetic fade may proceed.  A fade towards
    /// opaque (`showing`) runs only while the panel is still expanded, a fade
    /// towards transparent only while it is still collapsed: a transition
    /// reversed mid-flight makes the worker abort instead of forcing a final
    /// opacity that contradicts the logical state.
    pub fn fade_step_allowed(&self, showing: bool) -> (b: bool)
        ensures
            b == (self.visible == showing),
    {
        self.visible == showing
    }
}

/// Opacity, in thousandths, after `step` of `steps` equal increments of a
/// fade from fully transparent to fully opaque; a fade the other way uses the
/// complement.
pub fn fade_opacity_permille(step: u32, steps: u32) -> (r: u32)
    requires
        1 <= steps,
        step <= steps,
    ensures
        r == step as int * 1000 / steps as int,
        r <= 1000,
        step == steps ==> r == 1000,
        step == 0 ==> r == 0,
{
    proof {
        lemma_permille_bounds(step, steps);
    }
    ((step as u64 * 1000) / (steps as u64)) as u32
}

/// The panel state after `k` consecutive outside classifications, none of
/// them answered by an inside classification or a transition.
pub open spec fn outside_iter(p: Panel, k: nat) -> Panel
    decreases k,
{
    if k == 0 {
        p
    } else {
        outside_iter(p, (k - 1) as nat).outside_transition()
    }
}

/// Hysteresis: starting from a clear counter, `k` consecutive outside
/// classifications raise the counter to exactly `k`, and the `k`-th of them —
/// and no earlier one — signals auto-collapse exactly when `k` reaches the
/// threshold.  With a threshold of 3, the third consecutive call fires and
/// the first two do not.
pub proof fn lemma_hysteresis(p: Panel, k: nat)
    requires
        p.outside_count == 0,
        1 <= k < u32::MAX,
    ensures
        outside_iter(p, k).outside_count == k,
        outside_iter(p, k).config == p.config,
        outside_iter(p, (k - 1) as nat).outside_fires() <==> k >= p.config.outside_threshold,
    decreases k,
{
    let prev = (k - 1) as nat;
    assert(outside_iter(p, k) == outside_iter(p, prev).outside_transition());
    if k == 1 {
        assert(outside_iter(p, prev) == p);
    } else {
        lemma_hysteresis(p, prev);
    }
}

/// Idempotence: expanding an already-expanded panel leaves `visible`
/// unchanged (still expanded) and clears the outside counter.
pub proof fn lemma_expand_idempotent(p: Panel, surface_present: bool)
    requires
        p.visible,
    ensures
        p.expand_transition(surface_present).visible == p.visible,
        p.expand_transition(surface_present).outside_count == 0,
{
}

/// Cancel-on-reentry: after a deferred collapse of an expanded panel, an
/// expand within the delay window makes the deferred shrink observe
/// `visible == true` and yield nothing, so the surface keeps the expanded
/// geometry the expand applied; without the re-expand the shrink is due.
pub proof fn lemma_cancel_on_reentry(p: Panel, surface_present: bool)
    requires
        p.visible,
    ensures
        !p.collapse_transition(true).expand_transition(true).deferred_shrink_due(surface_present),
        p.collapse_transition(true).expand_transition(true).visible,
        p.collapse_transition(true).deferred_shrink_due(true),
{
}

/// Absent surface: expand and collapse (and resize, which never touches
/// `visible`) return successfully and leave `visible` exactly as it was.
pub proof fn lemma_no_surface_no_change(p: Panel)
    ensures
        p.expand_transition(false).visible == p.visible,
        p.collapse_transition(false).visible == p.visible,
{
}

/// The permille ladder stays within 0..=1000 and hits its endpoints.
proof fn lemma_permille_bounds(step: u32, steps: u32)
    requires
        1 <= steps,
        step <= steps,
    ensures
        0 <= step as int * 1000 / steps as int <= 1000,
        step == steps ==> step as int * 1000 / steps as int == 1000,
{
    assert(0 <= step as int * 1000 / steps as int <= 1000) by (nonlinear_arith)
        requires 1 <= steps, step <= steps
    ;
    assert(steps as int * 1000 / steps as int == 1000) by (nonlinear_arith)
        requires 1 <= steps
    ;
}

} // verus!
