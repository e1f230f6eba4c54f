use vstd::prelude::*;

pub mod config;
pub mod process;
pub mod pump;
pub mod relay;
pub mod state;

pub use config::{config_source, default_host, default_port, example_config, merge_env_vars, prepare_config, validate_config, Config, ConfigError, ConfigSource, EnvOverrides, ServerConfig};
pub use process::ProcessManager;
pub use pump::{after_delivery, frame_line, read_step, should_stop, stdin_step, Flow, LineAction, StdinAction};
pub use relay::{egress_step, ingress_step, EgressAction, Inbound, IngressAction};
pub use state::{advance, AttemptEvent, AttemptPhase, RuntimeFlags};

verus! {

/// Capacity of each bounded channel between a connection and its backend.
pub const MESSAGE_BUFFER_SIZE: usize = 100;

} // verus!
