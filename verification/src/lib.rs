//! A cross-platform micro-VM manager that runs video-summarisation agents.
pub mod agents;
pub mod api;
pub mod bytes;
pub mod cli;
pub mod config;
pub mod crawler;
pub mod daemon;
pub mod devices;
pub mod error;
pub mod guest_control;
pub mod gui;
pub mod hypervisor;
pub mod image;
pub mod ipc;
pub mod network;
pub mod summarizer;
pub mod text;
pub mod utils;
pub mod vmm;
