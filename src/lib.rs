pub mod bot;
pub mod repo;
pub mod tencent;
pub mod watch;
