pub mod dashboard;
pub mod fetch;
pub mod governor;
pub mod job;
pub mod models;
pub mod sink;
pub mod store;
pub mod text;
pub mod time;
pub mod window;
