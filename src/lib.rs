//! Detects PHP projects and formats the version that `php -v` reports,
//! for display as one segment of a shell prompt.

pub mod project;
pub mod segment;
pub mod version;
