//! Boot-time support for a UEFI kernel: reading the firmware's memory map,
//! judging the firmware's protocol lookups, setting up the frame buffer,
//! laying text out on it, and deciding the steps that leave the boot services.
pub mod status;
pub mod memory_map;
pub mod vram;
pub mod protocol;
pub mod text;
pub mod boot;
