//! Client-side coordination for ledger smart contracts: gas estimation and
//! adjustment, supervised monitoring of contract activity, and the joining of
//! concurrently scheduled gas computations.

pub mod abi;
pub mod address;
pub mod config;
pub mod contract_update;
pub mod deploy;
pub mod gas;
pub mod interaction;
pub mod logging;
pub mod monitor;
pub mod optimize;
pub mod orchestrator;
pub mod watch;

pub use abi::AbiFunction;
pub use address::is_valid_address;
pub use config::{effective_config, AppConfig};
pub use contract_update::{update_contract, UpdateError};
pub use deploy::{deploy_contract, DeployError};
pub use gas::{
    check_gas_limit, estimate_gas, estimate_gas_from_limit, optimize_gas_by_price,
    optimize_gas_dynamically, GasEstimate, GasOptimizationError,
};
pub use interaction::{call_contract_function, fetch_contract_data, InteractionError};
pub use logging::{log_debug, log_error, log_info, log_warn};
pub use monitor::{
    run_monitor, start_monitor, MonitorError, MonitorReport, MonitorSession, MonitorStep,
    PollOutcome,
};
pub use optimize::optimize_gas_usage;
pub use orchestrator::{join_operations, OrchestrationError, OrchestrationResult, TaskError};
pub use watch::{watch_contract_events, WatchError};
