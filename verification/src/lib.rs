//! Decision logic of the vpnctl admin pages.
pub mod activity;
pub mod drift;
pub mod fleet;
pub mod grants;
pub mod json;
pub mod laws;
pub mod lists;
pub mod locale;
pub mod lookup;
pub mod notes;
pub mod numbers;
pub mod order;
pub mod origins;
pub mod ports;
pub mod presence;
pub mod protocols;
pub mod redeploy;
pub mod server_config;
pub mod server_page;
pub mod sessions;
pub mod settings;
pub mod share_links;
pub mod shell;
pub mod telemetry;
pub mod text;
pub mod time;
pub mod traffic;
pub mod traffic_laws;
pub mod wizard;
