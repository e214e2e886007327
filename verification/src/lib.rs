pub mod aggregate;
pub mod article;
pub mod errors;
pub mod feed;
pub mod publisher;
pub mod thumb;
