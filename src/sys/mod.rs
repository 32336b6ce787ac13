pub mod init;
pub mod speed;
pub mod sys;
