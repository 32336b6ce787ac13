pub mod clock;
pub mod timers;
