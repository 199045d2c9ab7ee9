pub mod applications;
pub mod laws;
pub mod middleware;
pub mod services;
pub mod store;
pub mod templates;
pub mod types;
pub mod users;
