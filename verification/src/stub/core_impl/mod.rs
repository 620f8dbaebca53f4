pub mod auxv;
pub mod base;
pub mod monitor_cmd;
pub mod section_offsets;
