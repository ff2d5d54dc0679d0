# makepad_platform

The decisions of a Vulkan backend and of the Android side of a user interface platform,
as a verified library, and the code that carries them out.

The library talks to no device. What the backend does is written as plans, scripts and
state machines over plain values: handles are numbers, formats and flags are the numbers
of Vulkan, floating-point numbers are their bits. Every function has a contract, and
what holds across functions is proved beside them, in the functions whose names start
with `law_`.

## Layout

- `src/vulkan` is the backend.
  - Start and end: `init`, `device_pick`, `cx_vulkan`, `teardown`.
  - The window: `swapchain`, `swapchain_run`, `present`, `readback`.
  - Passes: `pass_state`.
  - Textures that are drawn to: `offscreen`, `render_pass`.
  - Draw lists and what they are made of: `draw_list`, `draw_packet`, `geometry`,
    `frame_resources`, `buffers`, `power`.
  - Pipelines: `pipeline`, `pipeline_build`, `pipeline_key`, `vertex_input`,
    `descriptors`, `binding_order`.
  - What is reported of devices and shaders: `video_report`.
  - OpenXR sessions: `xr_session`, `xr_frames`, `xr_view`.
  - Compute probes: `script`, `script_order`, `serials`, `retained`, `pending`, `programs`,
    `probe_program`, `compute_probe`, `field_force_probe`, `skinning_probe`, `mesh_sdf_probe`,
    `mesh_sdf_buffers`.
  - What the others share: `codes`, `flags`, `failure`.
- `src/android` handles the messages of the Java side, the camera, and MIDI.
- `src/event/video_playback.rs` and `src/display_context.rs` describe video playback and
  the display.
- `tests` runs the library on concrete values.
- `app` makes the calls that the library asks for, and tells it what came of them: Vulkan
  through `ash`, native windows, hardware buffers and the MIDI library. What belongs to
  the application around it (its passes, textures and events, the shader compiler, the
  OpenXR runtime) comes in through traits.

## What is trusted

The functions marked `external_body` ask `ash` for names and flag tests that its source
settles; their doc comments say what is taken from it.
