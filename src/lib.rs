//! Request handlers, configuration, routing and the startup sequence of a
//! small HTTP service that reports liveness and a row count of a store.
mod text;

pub mod config;
pub mod handlers;
pub mod routing;
pub mod startup;

pub use config::{resolve_config, ConnectionTarget, StartupConfig};
pub use handlers::{health_check, stats, HealthResponse, QueryError, StatsResponse};
pub use routing::{route, Endpoint};
pub use startup::{advance, Action, Phase, StartupError};
