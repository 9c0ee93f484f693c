//! A dynamically reconfigurable reverse proxy core: route matching, admission,
//! load balancing, and the reconciliation of running listeners against the
//! desired configuration.

pub mod allow_deny_ip;
pub mod api_service_manager;
pub mod app_config;
pub mod app_config_controller;
pub mod app_config_service;
pub mod constants;
pub mod http_proxy;
pub mod ratelimit;
pub mod route;
pub mod tcp_proxy;
pub mod text;
