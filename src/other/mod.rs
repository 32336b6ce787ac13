pub mod joypad;
pub mod mode;
