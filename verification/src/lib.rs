//! The decisions of the EasyTier desktop and mobile client: which networks may
//! run, when a request has gone stale, what is stored about each network, and
//! in which order the work around the core is done.

pub mod config;
pub mod connection_intent;
pub mod desktop;
pub mod effect;
pub mod error;
pub mod events;
pub mod flows;
pub mod instance_id;
pub mod manager;
pub mod models;
pub mod platform;
pub mod requests;
pub mod rpc_portal;
pub mod service;
pub mod storage;
pub mod text;
pub mod vpn_portal;
pub mod world;
