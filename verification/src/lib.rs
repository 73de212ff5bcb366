//! Domain manager core: DNS record models and conversions, the Aliyun and
//! Cloudflare clients' calls and answer checks, the agent registry and hub
//! protocol, provider forms and rows, console log buffers, configuration
//! helpers, record write-through steps, and the decision logic of the GUI
//! event handlers, managers and windows.

pub mod text;
pub mod dns_record;
pub mod dns_api;
pub mod cloudflare;
pub mod agent;
pub mod gui_model;
pub mod credential;
pub mod console;
pub mod configs;
pub mod components;
pub mod help;
pub mod app_state;
pub mod datastore_handler;
pub mod domain_handler;
pub mod dns_handler;
pub mod provider_handler;
pub mod sync_handler;
pub mod ui_handler;
pub mod message_handler;
pub mod window_handler;
pub mod domain_query;
pub mod aliyun_client;
pub mod dns_client;
pub mod manager;
pub mod error;
pub mod dns_manager;
pub mod agent_hub;
pub mod record_sync;
pub mod provider_page;
pub mod classic_manager;
