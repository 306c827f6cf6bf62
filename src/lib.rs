pub mod user;
pub mod service;
pub mod machine;
pub mod world;
