//! Building blocks for bootstrapping an application: selecting the runtime
//! environment, and turning a declarative logging configuration into a
//! validated, ordered set of logging layers that is installed exactly once.
pub mod app_config;
pub mod app_tracing;
pub mod text;
