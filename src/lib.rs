pub mod text;
pub mod coords;
pub mod keywords;
pub mod fishing;
pub mod tray;
pub mod control;
