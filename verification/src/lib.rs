pub mod text;
pub mod headers;
pub mod uri;
pub mod message;
pub mod error;
pub mod target;
pub mod server;
pub mod widgets;
pub mod input;
pub mod requests_screen;
pub mod formatter;
pub mod modals;
pub mod app;
pub mod http_client_screen;
pub mod store;
pub mod config;
pub mod certs;
pub mod navigation;
pub mod waiting_screen;
pub mod logs;
