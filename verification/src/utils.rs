//! Provisioning worker machines on DigitalOcean: configuration, request
//! bodies and the reading of responses.

pub mod config;
pub mod digital_ocean_api;
