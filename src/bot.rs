pub mod change;
pub mod cmd;
pub mod logic;
