pub mod accelerator;
pub mod ai;
pub mod cli;
pub mod coalescing_channel;
pub mod commands;
pub mod config;
pub mod drag_handler;
pub mod drag_tracker;
pub mod event_loop;
pub mod event_loop_main;
pub mod event_handlers;
pub mod geometry;
pub mod handle_tracker;
pub mod input;
pub mod keybind;
pub mod layouts;
pub mod logging;
pub mod menu;
pub mod platform;
pub mod resize_handle;
pub mod text;
