pub mod capability;
pub mod permissions;
pub mod audit;
pub mod session;
pub mod laws;
pub mod launch;
pub mod guest;
