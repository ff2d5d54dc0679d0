//! Decisions of the Vulkan backend.

pub mod binding_order;
pub mod buffers;
pub mod codes;
pub mod compute_probe;
pub mod cx_vulkan;
pub mod descriptors;
pub mod device_pick;
pub mod draw_list;
pub mod draw_packet;
pub mod failure;
pub mod field_force_probe;
pub mod flags;
pub mod frame_resources;
pub mod geometry;
pub mod init;
pub mod mesh_sdf_buffers;
pub mod mesh_sdf_probe;
pub mod offscreen;
pub mod pass_state;
pub mod pending;
pub mod pipeline;
pub mod pipeline_build;
pub mod pipeline_key;
pub mod power;
pub mod present;
pub mod probe_program;
pub mod programs;
pub mod readback;
pub mod render_pass;
pub mod retained;
pub mod script;
pub mod script_order;
pub mod serials;
pub mod skinning_probe;
pub mod swapchain;
pub mod swapchain_run;
pub mod teardown;
pub mod vertex_input;
pub mod video_report;
pub mod xr_frames;
pub mod xr_session;
pub mod xr_view;
