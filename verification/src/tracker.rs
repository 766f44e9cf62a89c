//! The pointer tracker: classifies each poll sample against the trigger and
//! occupied zones and drives the visibility controller with debounced
//! hysteresis.
//!
//! The long-lived polling loop itself — sleeping between ticks, sampling the
//! pointer and the display, querying the surface — stays with the caller.
//! Each tick it hands the sample in logical coordinates to [`poll_tick`],
//! which owns every decision: the trigger-zone cadence while collapsed, the
//! inside/outside classification while expanded, the hysteresis counter, and
//! the defensive collapse after a streak of failed samples.  The returned
//! [`TickAction`] is all the caller has to apply.

use vstd::prelude::*;
use crate::geometry::{LogicalPoint, LogicalRect, TriggerZone};
use crate::panel::{placement, CollapseActions, ExpandActions, Panel};

verus! {

/// Tunable constants of the pointer tracker.
#[derive(Clone, Copy, PartialEq, Eq, Debug)]
pub struct TrackerConfig {
    /// While collapsed, the trigger zone is tested once every this many
    /// ticks, to save CPU.
    pub trigger_interval: u32,
    /// Margin, in logical units, by which the surface's rectangle is grown
    /// for the still-inside test while expanded, absorbing pointer jitter at
    /// the edges.
    pub margin: i32,
    /// The hover region that expands the collapsed panel.
    pub trigger: TriggerZone,
    /// A looser top-edge region treated as still inside while expanded, so a
    /// quick re-entry near the trigger does not count as leaving.
    pub reentry: TriggerZone,
    /// Consecutive failed pointer samples tolerated before an expanded panel
    /// is collapsed defensively.
    pub failure_bound: u32,
}

impl TrackerConfig {
    /// The tunables make sense: positive cadence and failure bound, a
    /// non-negative margin.
    pub open spec fn wf(&self) -> bool {
        &&& 1 <= self.trigger_interval
        &&& 1 <= self.failure_bound
        &&& 0 <= self.margin
    }
}

impl Default for TrackerConfig {
    /// The stock tuning: trigger test every 2nd tick, an 8-unit margin, a
    /// trigger zone matching the 300-wide pill, a looser 200-by-45 re-entry
    /// zone, and a defensive collapse after 5 failed samples in a row.
    fn default() -> (c: TrackerConfig)
        ensures
            c.wf(),
            c == (TrackerConfig {
                trigger_interval: 2,
                margin: 8,
                trigger: TriggerZone { half_width: 150, height: 37 },
                reentry: TriggerZone { half_width: 200, height: 45 },
                failure_bound: 5,
            }),
    {
        TrackerConfig {
            trigger_interval: 2,
            margin: 8,
            trigger: TriggerZone { half_width: 150, height: 37 },
            reentry: TriggerZone { half_width: 200, height: 45 },
            failure_bound: 5,
        }
    }
}

/// The tracker's own state between ticks.
#[derive(Clone, Copy, PartialEq, Eq, Debug)]
pub struct Tracker {
    pub config: TrackerConfig,
    /// Ticks left until the next trigger-zone test while collapsed.
    pub ticks_until_trigger: u32,
    /// Consecutive ticks on which pointer sampling failed.
    pub failure_streak: u32,
}

/// What the polling loop must do after a tick.
#[derive(Clone, Copy, PartialEq, Eq, Debug)]
pub enum TickAction {
    /// Nothing to apply this tick.
    Idle,
    /// The pointer entered the trigger zone while collapsed: an expand ran,
    /// with these actions to apply (none when the surface is absent).
    Expand(Option<ExpandActions>),
    /// Auto-collapse fired — the outside streak reached the threshold, or
    /// pointer sampling failed for too long while expanded: a deferred
    /// collapse ran, with these actions to apply.
    Collapse(CollapseActions),
}

/// A counter one higher, saturating at its type's maximum.
pub open spec fn bumped(c: u32) -> u32 {
    if c < u32::MAX {
        (c + 1) as u32
    } else {
        u32::MAX
    }
}

/// The still-inside test while expanded: within the surface's rectangle
/// grown by the margin, or within the looser top-edge re-entry zone.  With
/// the surface gone nothing counts as inside, so the panel drifts towards a
/// collapse.
pub open spec fn inside_occupied_zone(
    config: TrackerConfig,
    cursor: LogicalPoint,
    screen_width: i32,
    surface: Option<LogicalRect>,
) -> bool {
    match surface {
        Some(rect) => rect.contains_with_margin_spec(config.margin, cursor)
            || config.reentry.hit_spec(screen_width, cursor),
        None => false,
    }
}

impl Tracker {
    /// The tracker is well-formed iff its tunables are and the countdown sits
    /// within the cadence.
    pub open spec fn wf(&self) -> bool {
        &&& self.config.wf()
        &&& 1 <= self.ticks_until_trigger <= self.config.trigger_interval
    }

    /// A fresh tracker: no failures yet, the first trigger test one full
    /// cadence away.
    pub fn new(config: TrackerConfig) -> (t: Tracker)
        requires
            config.wf(),
        ensures
            t == (Tracker {
                config,
                ticks_until_trigger: config.trigger_interval,
                failure_streak: 0,
            }),
            t.wf(),
    {
        Tracker { config, ticks_until_trigger: config.trigger_interval, failure_streak: 0 }
    }
}

/// One tick of the polling loop.
///
/// `cursor` is the sampled pointer position and `screen_width` the primary
/// display's width, both already in logical units, either absent when the
/// sample failed this tick; `surface` is the panel surface's current bounds,
/// absent when the surface does not exist (or could not be queried).
///
/// Per tick: a failed pointer sample is skipped, except that a streak of them
/// reaching the bound while expanded collapses the panel defensively; a
/// failed display sample is skipped; while collapsed, the trigger zone is
/// tested on the configured cadence and a hit expands the panel without
/// focus; while expanded, an inside classification clears the hysteresis
/// counter and an outside one raises it, firing a deferred collapse when it
/// reaches the threshold.
pub fn poll_tick(
    tracker: &mut Tracker,
    panel: &mut Panel,
    cursor: Option<LogicalPoint>,
    screen_width: Option<i32>,
    surface: Option<LogicalRect>,
) -> (action: TickAction)
    requires
        old(tracker).wf(),
        old(panel).wf(),
        screen_width matches Some(w) ==> 0 <= w,
    ensures
        final(tracker).wf(),
        final(panel).wf(),
        final(tracker).config == old(tracker).config,
        final(panel).config == old(panel).config,
        // A failed pointer sample below the failure bound, or while
        // collapsed: only the streak grows; the tick is skipped.
        cursor is None && !(old(panel).visible && bumped(old(tracker).failure_streak)
            >= old(tracker).config.failure_bound) ==> {
            &&& *final(tracker) == (Tracker {
                failure_streak: bumped(old(tracker).failure_streak),
                ..*old(tracker)
            })
            &&& *final(panel) == *old(panel)
            &&& action == TickAction::Idle
        },
        // A streak of failed samples reaching the bound while expanded: the
        // panel is collapsed defensively, and the streak starts over.
        cursor is None && old(panel).visible && bumped(old(tracker).failure_streak)
            >= old(tracker).config.failure_bound ==> {
            &&& *final(tracker) == (Tracker { failure_streak: 0, ..*old(tracker) })
            &&& *final(panel) == old(panel).collapse_transition(surface is Some)
            &&& action == TickAction::Collapse(
                if surface is Some {
                    CollapseActions::ShrinkAfterDelay {
                        delay_ms: old(panel).config.collapse_delay_ms,
                    }
                } else {
                    CollapseActions::Nothing
                },
            )
        },
        // A good pointer sample ends the failure streak; a failed display
        // sample skips the rest of the tick.
        cursor is Some && screen_width is None ==> {
            &&& *final(tracker) == (Tracker { failure_streak: 0, ..*old(tracker) })
            &&& *final(panel) == *old(panel)
            &&& action == TickAction::Idle
        },
        // Collapsed, the trigger test not due yet: the countdown just drops.
        cursor is Some && screen_width is Some && !old(panel).visible
            && old(tracker).ticks_until_trigger > 1 ==> {
            &&& *final(tracker) == (Tracker {
                failure_streak: 0,
                ticks_until_trigger: (old(tracker).ticks_until_trigger - 1) as u32,
                ..*old(tracker)
            })
            &&& *final(panel) == *old(panel)
            &&& action == TickAction::Idle
        },
        // Collapsed, the trigger test due: the countdown restarts, and a
        // pointer inside the trigger zone expands the panel without focus.
        cursor is Some && screen_width is Some && !old(panel).visible
            && old(tracker).ticks_until_trigger <= 1 ==> {
            &&& *final(tracker) == (Tracker {
                failure_streak: 0,
                ticks_until_trigger: old(tracker).config.trigger_interval,
                ..*old(tracker)
            })
            &&& old(tracker).config.trigger.hit_spec(screen_width->0, cursor->0) ==> {
                &&& *final(panel) == old(panel).expand_transition(surface is Some)
                &&& action == TickAction::Expand(
                    if surface is Some {
                        Some(ExpandActions {
                            geometry: placement(old(panel).config.expanded_size, screen_width->0),
                            focus: false,
                        })
                    } else {
                        None
                    },
                )
            }
            &&& !old(tracker).config.trigger.hit_spec(screen_width->0, cursor->0) ==> {
                &&& *final(panel) == *old(panel)
                &&& action == TickAction::Idle
            }
        },
        // Expanded, the pointer still inside the occupied zone: the
        // hysteresis counter is cleared.
        cursor is Some && screen_width is Some && old(panel).visible
            && inside_occupied_zone(old(tracker).config, cursor->0, screen_width->0, surface) ==> {
            &&& *final(tracker) == (Tracker { failure_streak: 0, ..*old(tracker) })
            &&& *final(panel) == (Panel { outside_count: 0, ..*old(panel) })
            &&& action == TickAction::Idle
        },
        // Expanded, the pointer outside: the counter rises, and a deferred
        // collapse fires exactly when it reaches the threshold.
        cursor is Some && screen_width is Some && old(panel).visible
            && !inside_occupied_zone(old(tracker).config, cursor->0, screen_width->0, surface) ==> {
            &&& *final(tracker) == (Tracker { failure_streak: 0, ..*old(tracker) })
            &&& old(panel).outside_fires() ==> {
                &&& *final(panel) == old(panel).outside_transition().collapse_transition(
                    surface is Some,
                )
                &&& action == TickAction::Collapse(
                    if surface is Some {
                        CollapseActions::ShrinkAfterDelay {
                            delay_ms: old(panel).config.collapse_delay_ms,
                        }
                    } else {
                        CollapseActions::Nothing
                    },
                )
            }
            &&& !old(panel).outside_fires() ==> {
                &&& *final(panel) == old(panel).outside_transition()
                &&& action == TickAction::Idle
            }
        },
{
    let cursor = match cursor {
        Some(c) => c,
        None => {
            // A transient sampling failure skips the tick, but a long streak
            // of them while expanded means the pointer backend has likely
            // lost permission or availability: collapse defensively rather
            // than stay expanded blind.
            if tracker.failure_streak < u32::MAX {
                tracker.failure_streak = tracker.failure_streak + 1;
            }
            if panel.visible && tracker.failure_streak >= tracker.config.failure_bound {
                tracker.failure_streak = 0;
                return TickAction::Collapse(panel.collapse(false, surface.is_some()));
            }
            return TickAction::Idle;
        },
    };
    tracker.failure_streak = 0;

    let screen_width = match screen_width {
        Some(w) => w,
        None => { return TickAction::Idle; },
    };

    if !panel.visible {
        // Trigger test on a reduced cadence, to save CPU.
        if tracker.ticks_until_trigger > 1 {
            tracker.ticks_until_trigger = tracker.ticks_until_trigger - 1;
            return TickAction::Idle;
        }
        tracker.ticks_until_trigger = tracker.config.trigger_interval;
        if tracker.config.trigger.hit(screen_width, cursor) {
            return TickAction::Expand(panel.expand(false, surface.is_some(), screen_width));
        }
        return TickAction::Idle;
    }

    let inside = match surface {
        Some(rect) => rect.contains_with_margin(tracker.config.margin, cursor)
            || tracker.config.reentry.hit(screen_width, cursor),
        None => false,
    };
    if inside {
        panel.reset_outside_count();
        return TickAction::Idle;
    }
    if panel.increment_outside() {
        return TickAction::Collapse(panel.collapse(false, surface.is_some()));
    }
    TickAction::Idle
}

} // verus!
