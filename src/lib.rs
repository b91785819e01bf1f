//! Power-management control plane for AMD handhelds: capability profiles,
//! their detection, the per-subsystem settings model, the coordination of the
//! shared forced-performance-level mode, the apply/commit worker's decisions
//! and the variant store.
pub mod limits;
pub mod detect;
pub mod text;
pub mod persist;
pub mod cpu;
pub mod settings;
pub mod fpl;
pub mod commit;
pub mod api;
pub mod catalog;
pub mod driver;
pub mod paths;
pub mod community;
pub mod led;
pub mod cli;
pub mod caps;
pub mod fclk;
pub mod amd;
