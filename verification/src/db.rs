pub mod dev;
pub mod fts;
pub mod logs;
