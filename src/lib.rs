//! Control core of an e-paper display appliance: status indication, the
//! transport and content clients, panel sequencing, boot and the main cycle.
pub mod boot;
pub mod command;
pub mod cycle;
pub mod epaper;
pub mod http;
pub mod status;
pub mod trmnl;
pub mod wifi;
