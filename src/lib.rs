//! Native shell of a desktop application: the tray menu and its dispatch,
//! the start-up sequence that builds the tray, and the system-info query
//! that the front end may invoke.
pub mod menu;
pub mod shell;
pub mod system_info;
pub mod text;
