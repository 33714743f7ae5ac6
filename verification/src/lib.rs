//! A timer on a kernel event queue, for event loops that poll descriptors.
//!
//! The crate holds every decision the timer makes and none of its system
//! calls. It says which call to make on the queue, and what the queue's
//! answer means; the caller makes the call and hands the answer back:
//!
//! - to create a timer, create an event queue and give [`Timer::new`] what
//!   the creation returned;
//! - to arm it, make the call that [`Request::arm`] builds for a
//!   [`TimeSpec`], and give [`Timer::set`] the answer;
//! - to ask whether it has fired, make the call that [`Request::poll`]
//!   builds, and give [`Timer::check`] the answer.
//!
//! The module [`laws`] holds what is proved of these steps taken together.

pub mod error;
pub mod event;
pub mod laws;
pub mod time;
pub mod timer;

pub use crate::error::TimerError;
pub use crate::event::{Change, EventFlags, Filter, Request, Retrieval, TIMER_SLOT};
pub use crate::time::{Duration, TimeSpec};
pub use crate::timer::Timer;
