//! State and presentation model of a terminal dashboard that shows the load
//! of the local machine next to the status of a fixed set of game servers.
//!
//! The library holds no clock, reads no device and talks to no network.
//! Its caller runs the control loop: it asks [`app::App::tick`] which
//! refreshes are due, starts them, hands in what they bring when it has
//! arrived ([`app::App::record_system`], [`app::App::update_server`]),
//! passes on the keys that were pressed ([`app::App::handle_events`]) and
//! paints what [`app::App::render`] composes.
//!
//! - [`usage`]: usage readings in hundredths of a percent, and their colour
//! - [`text`]: decimal numerals
//! - [`cpu`], [`mem`], [`stats`]: the readings of the machine's load
//! - [`json`], [`server`]: status documents and what is known of a server
//! - [`registry`]: the monitored servers in their fixed order
//! - [`selection`]: the highlighted row of the list of servers
//! - [`cadence`]: when each refresh fires again
//! - [`sweep`]: which sweep an answer stems from
//! - [`frame`]: what one draw of the screen shows
//! - [`app`]: the dashboard as a whole

pub mod app;
pub mod cadence;
pub mod cpu;
pub mod frame;
pub mod json;
pub mod mem;
pub mod registry;
pub mod selection;
pub mod server;
pub mod stats;
pub mod sweep;
pub mod text;
pub mod usage;
