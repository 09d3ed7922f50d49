//! The controller: owns at most one active animation, an enable flag, and a
//! monotonically increasing epoch that invalidates stale scheduled wake-ups.
//!
//! The host's side effects are returned as data: starting an animation or
//! ticking it yields the frame request (epoch tag plus delay) that the host
//! should schedule, and a tick says whether a repaint is owed. A wake-up whose
//! epoch no longer matches the controller's is a no-op, which is the sole
//! mechanism by which superseded animation chains die out.

use vstd::prelude::*;

verus! {

use crate::easing::ANIMATION_DURATION_MS;
use crate::interpolator::AnimatedCursorPosition;
use crate::interpolator::Point;
use crate::interpolator::lemma_position_at_start;

/// Milliseconds between successive animation wake-ups.
pub const FRAME_INTERVAL_MS: u64 = 8;

/// A wake-up the host is asked to schedule: call `update_animation` with this
/// epoch once `delay_ms` milliseconds have passed.
#[derive(Clone, Copy, Debug, PartialEq, Eq, Structural)]
pub struct FrameRequest {
    pub epoch: usize,
    pub delay_ms: u64,
}

/// What one wake-up decided.
#[derive(Clone, Copy, Debug, PartialEq, Eq, Structural)]
pub enum TickAction {
    /// The wake-up was stale (superseded epoch, disabled feature, or no active
    /// animation); nothing changed and nothing is owed.
    Inert,
    /// The animation had run its full duration and was retired; no repaint and
    /// no further wake-up is owed.
    Finished,
    /// The animation is still in flight: request a repaint and schedule the
    /// carried wake-up.
    RequestFrame(FrameRequest),
}

/// Long-lived owner of all animation state for one UI context.
pub struct CursorAnimationManager {
    animation_epoch: usize,
    enabled: bool,
    active_animation: Option<AnimatedCursorPosition>,
}

impl CursorAnimationManager {
    pub closed spec fn spec_epoch(self) -> usize {
        self.animation_epoch
    }

    pub closed spec fn spec_enabled(self) -> bool {
        self.enabled
    }

    pub closed spec fn spec_active(self) -> Option<AnimatedCursorPosition> {
        self.active_animation
    }

    /// An animation is held only while the feature is enabled, and always with
    /// the fixed duration.
    pub open spec fn wf(self) -> bool {
        match self.spec_active() {
            Some(a) => self.spec_enabled() && a.wf(),
            None => true,
        }
    }

    /// Enabled, holding an animation, and that animation still in flight.
    pub open spec fn spec_animating(self, now: u64) -> bool {
        match self.spec_active() {
            Some(a) => self.spec_enabled() && !a.spec_complete(now),
            None => false,
        }
    }

    /// A fresh controller: disabled, idle, at epoch zero.
    pub fn new() -> (r: Self)
        ensures
            r.wf(),
            r.spec_epoch() == 0,
            !r.spec_enabled(),
            r.spec_active() is None,
    {
        CursorAnimationManager { animation_epoch: 0, enabled: false, active_animation: None }
    }

    /// The epoch of the most recently started animation.
    pub fn current_epoch(&self) -> (epoch: usize)
        ensures
            epoch == self.spec_epoch(),
    {
        self.animation_epoch
    }

    fn next_animation_epoch(&mut self) -> (epoch: usize)
        requires
            old(self).spec_epoch() < usize::MAX,
        ensures
            final(self).spec_epoch() == old(self).spec_epoch() + 1,
            epoch == final(self).spec_epoch(),
            final(self).spec_enabled() == old(self).spec_enabled(),
            final(self).spec_active() == old(self).spec_active(),
    {
        self.animation_epoch = self.animation_epoch + 1;
        self.animation_epoch
    }

    /// The wake-up to schedule for the given epoch, or none while the feature
    /// is disabled.
    fn schedule_animation_frame(&self, epoch: usize) -> (frame: Option<FrameRequest>)
        ensures
            self.spec_enabled() ==> frame == (Some(
                FrameRequest { epoch, delay_ms: FRAME_INTERVAL_MS },
            )),
            !self.spec_enabled() ==> frame is None,
    {
        if !self.enabled {
            return None;
        }
        Some(FrameRequest { epoch, delay_ms: FRAME_INTERVAL_MS })
    }

    /// Begins animating from `start_position` to `end_position` at time `now`.
    ///
    /// A no-op while disabled or when the two positions are equal; otherwise
    /// it replaces any active animation, bumps the epoch, and returns the
    /// wake-up the host must schedule. In-flight wake-ups of the superseded
    /// animation carry the old epoch and will be inert.
    pub fn start_animation(&mut self, start_position: Point, end_position: Point, now: u64) -> (frame: Option<
        FrameRequest,
    >)
        requires
            old(self).wf(),
            old(self).spec_epoch() < usize::MAX,
        ensures
            final(self).wf(),
            (!old(self).spec_enabled() || start_position == end_position) ==> (*final(self)
                == *old(self) && frame is None),
            (old(self).spec_enabled() && start_position != end_position) ==> {
                &&& final(self).spec_epoch() == old(self).spec_epoch() + 1
                &&& final(self).spec_enabled()
                &&& final(self).spec_active() == (Some(
                    AnimatedCursorPosition {
                        start_point: start_position,
                        end_point: end_position,
                        start_time: now,
                        duration: ANIMATION_DURATION_MS,
                    },
                ))
                &&& frame == (Some(
                    FrameRequest {
                        epoch: (old(self).spec_epoch() + 1) as usize,
                        delay_ms: FRAME_INTERVAL_MS,
                    },
                ))
            },
    {
        if !self.enabled {
            return None;
        }
        if start_position == end_position {
            return None;
        }
        self.active_animation = Some(
            AnimatedCursorPosition::new(start_position, end_position, now),
        );
        let epoch: usize = self.next_animation_epoch();
        self.schedule_animation_frame(epoch)
    }

    /// One wake-up of the frame loop, tagged with the epoch it was scheduled
    /// for. Stale or disabled wake-ups change nothing; a completed animation
    /// is retired; an in-flight one asks for a repaint and the next wake-up.
    pub fn update_animation(&mut self, epoch: usize, now: u64) -> (action: TickAction)
        requires
            old(self).wf(),
        ensures
            final(self).wf(),
            final(self).spec_epoch() == old(self).spec_epoch(),
            final(self).spec_enabled() == old(self).spec_enabled(),
            (epoch != old(self).spec_epoch() || !old(self).spec_enabled()) ==> (*final(self)
                == *old(self) && action == TickAction::Inert),
            (epoch == old(self).spec_epoch() && old(self).spec_enabled()) ==> (match old(
                self,
            ).spec_active() {
                None => *final(self) == *old(self) && action == TickAction::Inert,
                Some(a) => if a.spec_complete(now) {
                    &&& final(self).spec_active() is None
                    &&& action == TickAction::Finished
                } else {
                    &&& *final(self) == *old(self)
                    &&& action == (TickAction::RequestFrame(
                        FrameRequest { epoch, delay_ms: FRAME_INTERVAL_MS },
                    ))
                },
            }),
    {
        if epoch != self.animation_epoch || !self.enabled {
            return TickAction::Inert;
        }
        match self.active_animation {
            None => TickAction::Inert,
            Some(animation) => {
                if animation.is_complete(now) {
                    self.active_animation = None;
                    TickAction::Finished
                } else {
                    let frame: FrameRequest = self.schedule_animation_frame(epoch).unwrap();
                    TickAction::RequestFrame(frame)
                }
            },
        }
    }

    /// The position to render at time `now`: the in-flight animation's eased
    /// position, or `static_position` unchanged while disabled, idle, or
    /// already settled. A pure read, safe at any frequency.
    pub fn current_cursor_position(&self, static_position: Point, now: u64) -> (r: Point)
        requires
            self.wf(),
        ensures
            !self.spec_animating(now) ==> r == static_position,
            self.spec_animating(now) ==> (match self.spec_active() {
                Some(a) => r.x as int == a.spec_position_x(now) && r.y as int
                    == a.spec_position_y(now),
                None => false,
            }),
    {
        if !self.enabled {
            return static_position;
        }
        match &self.active_animation {
            Some(animation) => {
                if !animation.is_complete(now) {
                    animation.current_position(now)
                } else {
                    static_position
                }
            },
            None => static_position,
        }
    }

    /// True while an active animation has not yet run its full duration.
    pub fn is_animating(&self, now: u64) -> (r: bool)
        ensures
            r == self.spec_animating(now),
    {
        self.enabled && (match &self.active_animation {
            Some(animation) => !animation.is_complete(now),
            None => false,
        })
    }

    /// Mirrors the external settings flag. Disabling abandons any active
    /// animation immediately; enabling starts nothing by itself.
    pub fn set_enabled(&mut self, enabled: bool)
        requires
            old(self).wf(),
        ensures
            final(self).wf(),
            final(self).spec_enabled() == enabled,
            final(self).spec_epoch() == old(self).spec_epoch(),
            enabled ==> final(self).spec_active() == old(self).spec_active(),
            !enabled ==> final(self).spec_active() is None,
    {
        self.enabled = enabled;
        if !enabled {
            self.active_animation = None;
        }
    }
}

/// A disabled controller is never animating, whatever its other state.
pub proof fn lemma_disabled_is_idle(m: CursorAnimationManager, now: u64)
    requires
        !m.spec_enabled(),
    ensures
        !m.spec_animating(now),
{
}

/// At the instant an animation was started the controller is animating and
/// would render exactly the animation's start point, whatever static position
/// the caller passes.
pub proof fn lemma_fresh_animation_shows_start(
    m: CursorAnimationManager,
    a: AnimatedCursorPosition,
)
    requires
        m.wf(),
        m.spec_enabled(),
        m.spec_active() == Some(a),
    ensures
        m.spec_animating(a.start_time),
        a.spec_position_x(a.start_time) == a.start_point.x as int,
        a.spec_position_y(a.start_time) == a.start_point.y as int,
{
    lemma_position_at_start(a);
}

} // verus!
