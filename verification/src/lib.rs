pub mod chrome;
pub mod controller;
pub mod page;
pub mod paginator;
