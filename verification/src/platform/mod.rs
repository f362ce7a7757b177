//! Operating-system readings: the shapes every platform produces and the
//! parsers of each platform's text sources.
pub mod api;
pub mod linux;
pub mod macos;
pub mod windows;
pub mod mount_map;
pub mod windows_disks;
pub mod pressure;
