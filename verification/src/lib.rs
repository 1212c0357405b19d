//! Verified core of a small virtual-machine manager: request validation,
//! an in-memory VM store, libvirt XML documents and the decision logic
//! that drives a libvirt hypervisor.

pub mod application;
pub mod config;
pub mod domain;
pub mod http;
pub mod hypervisor;
pub mod ids;
pub mod libvirt;
pub mod listing;
pub mod text;
