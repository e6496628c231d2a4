//! The frame pipeline of a camera viewer: decoded RGB frames are packed into
//! display words, resampled to the display's resolution where the two differ,
//! presented at a bounded rate, and the last frame is kept for a snapshot.

pub mod capture;
pub mod display;
pub mod frame;
pub mod loop_laws;
pub mod pacing;
pub mod pixel;
pub mod render_loop;
pub mod resample;
pub mod snapshot;
pub mod transform;
