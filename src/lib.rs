//! A terminal Pomodoro timer's logic: the countdown, the frames that show it, the
//! decisions of one session's poll loop and the work/break cycle around it.

pub mod cycle;
pub mod render;
pub mod session;
pub mod timer;
