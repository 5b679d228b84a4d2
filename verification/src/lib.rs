//! Core of a bridge that brings web content and native GPU frames into
//! `wgpu`-based host applications.
//!
//! The library holds the decisions of the bridge: which import route a frame
//! takes, what a platform can offer, in which order platform calls are made,
//! when a captured texture is new to its consumer, and how a host reacts to its
//! window. The calls themselves (GPU, COM, windowing) are made by the host
//! program, which feeds their results back in.

pub mod geometry;
pub mod text;
pub mod texture;
pub mod error;
pub mod interop;
pub mod platform;
pub mod sync;
pub mod web_surface;
pub mod webkitgtk_producer;
pub mod wkwebview_producer;
pub mod platform_call;
pub mod windows_capture;
pub mod webview2_script;
pub mod webview2_composition_producer;
pub mod webview2_navigation;
pub mod webview2_acquisition;
pub mod surfman_gl;
pub mod servo_adapter;
pub mod readback;
pub mod render_plan;
pub mod servo_demo;
pub mod wry_demo;
pub mod windows_probe;
