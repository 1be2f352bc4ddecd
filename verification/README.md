# vkbase

A small Vulkan toolkit: it chooses a physical device, plans the queues and
extensions of the logical device, sets up the swapchain, describes Vulkan
objects through create-info builders, reads the meshes, materials, nodes and
scenes of glTF files into GPU-ready buffers, lays out text, tracks keyboard
input and frame timing.

The decisions are made by the library in `src/`, which is written in Verus:
every function there carries a contract, and Verus proves that the code meets
it. The library works on plain values (integers, vectors, strings and its own
types) and never calls Vulkan itself.

`app/` is the glue that talks to the outside world through `ash`, `winit`,
`gltf`, `rusttype`, `nalgebra`, `vk-mem` and `shaderc`: it queries the device,
loads files and fonts, hands the answers to the library and turns the
library's results into Vulkan calls.

Layout of `src/`:

- `context/` — instance planning, device selection, queue requests, swapchain
  settings, validation layers.
- `ci/` — create-info builders for buffers, images, pipelines, render passes,
  descriptors, commands and synchronisation.
- `gltf/` — vertex attributes, indices, materials, meshes, the node hierarchy
  and scenes.
- `ui/` — text slots, glyph iteration and the settings of the text pipeline.
- `input.rs` — key state and window events.
- `texture.rs` — mip-level copy regions.
- `utils/` — frame counting, memory alignment and memory types, time spans,
  shader compiler options.

Laws that relate several operations stand as public proof functions next to
the operations they speak of (for example `lemma_press_then_release` in
`input.rs` and `lemma_material_read_after_add` in `gltf/material.rs`).
