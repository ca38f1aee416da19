//! Resource services: the capability contract, the registry and the container
//! registry service.

pub mod ecr;
pub mod manager;
pub mod traits;
