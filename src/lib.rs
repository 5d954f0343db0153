pub mod app_state;
pub mod channel;
pub mod json;
pub mod monitor;
pub mod orchestrator;
pub mod playlist;
pub mod renderer;
pub mod retry;
pub mod soap;
pub mod text;
pub mod timefmt;
pub mod transport;
