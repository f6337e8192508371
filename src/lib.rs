//! Supervision of a locally spawned backend worker: the published port, the
//! exclusively owned process handle, the start/stop state machine and the
//! credential-vault reset decisions.

pub mod commands;
pub mod port;
pub mod registry;
pub mod supervisor;
pub mod vault;

pub use registry::{BackendPort, NotSetError, SidecarProcess};
pub use commands::{get_backend_port, lock_failure_message};
pub use port::{parse_port, port_from_first_line, DEFAULT_BACKEND_PORT};
pub use supervisor::{Phase, SidecarSupervisor, SupervisorState};
pub use vault::{finish_vault_reset, locate_failure_message, plan_vault_reset, vault_file_name};
