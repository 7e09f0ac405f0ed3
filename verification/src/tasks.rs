//! All checks: the shared task trait, the dispatch enum and one module per
//! check implementation.

pub mod kernel;
pub mod rukinia_cmd;
pub mod rukinia_false;
pub mod rukinia_group;
pub mod rukinia_http_request;
pub mod rukinia_kthread;
pub mod rukinia_netif_has_ip;
pub mod rukinia_network_is_up;
pub mod rukinia_symlink;
pub mod rukinia_true;
pub mod rukinia_user;
pub mod rukinia_user_memberof;
pub mod task;
