//! The requests to the client, as flows.

pub mod decisions;
pub mod disable_tun;
pub mod hooks;
pub mod load_configs;
pub mod loading;
pub mod mobile_connection;
pub mod post_run;
pub mod pre_run;
pub mod remove_instance;
pub mod restart;
pub mod rpc_connection;
pub mod run_instance;
pub mod save_config;
pub mod storage_writes;
pub mod tun_fd;
pub mod update_state;
pub mod web_client;
