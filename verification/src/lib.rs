//! Smooth cursor animation core: an eased, time-parameterized interpolation
//! between two screen positions, and a controller that drives a
//! generation-tagged frame loop for it.
//!
//! All time is carried explicitly as a millisecond timestamp (`now`), and all
//! host effects (waiting out a frame interval, requesting a repaint, observing
//! the settings flag) are returned to the caller as data, so every decision the
//! core makes is a verified function of its state and the clock value it is
//! handed.

pub mod easing;
pub mod interpolator;
pub mod manager;

pub use easing::ANIMATION_DURATION_MS;
pub use interpolator::AnimatedCursorPosition;
pub use interpolator::Point;
pub use manager::CursorAnimationManager;
pub use manager::FrameRequest;
pub use manager::TickAction;
pub use manager::FRAME_INTERVAL_MS;
