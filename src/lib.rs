//! An OCI container monitor: logging driver resolution, handshake pipe
//! handling, configuration checks and the monitor's start-up sequence.
pub mod config;
pub mod container_logging;
pub mod monitor;
pub mod pipes;

pub use config::Config;
pub use container_logging::{ContainerFields, ContainerLogging, Driver};
pub use monitor::Conmon;
