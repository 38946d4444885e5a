//! The core of a terminal dashboard for storage pools, their datasets and
//! their snapshots: parsing the storage tools' listings, a snapshot cache
//! with prefetch progress, sorting, and the navigation state machine that
//! key presses drive. Running the tools, timing, the terminal and background
//! tasks are left to the program around this library, which hands the
//! outcomes back in as plain values.

pub mod app;
pub mod cache;
pub mod config;
pub mod data;
pub mod navigation;
pub mod order;
pub mod sorting;
pub mod state;
pub mod text;
pub mod theme;
pub mod ui;
pub mod zfs;
