//! Render-pass orchestration and pipeline specialization for a 3D core pipeline,
//! stated over plain values and verified.
//!
//! The library decides; it touches no GPU. A renderer hands it what it read
//! from its world as plain values, and carries out what comes back: the passes
//! to issue with the load and store policy of each attachment, the pipeline
//! descriptions to compile, the bind groups to create.

pub mod bind_group;
pub mod clear_color;
pub mod color;
pub mod core_3d;
pub mod encase_derive;
pub mod entity;
pub mod pipeline;
pub mod pipeline_cache;
pub mod render_graph;
pub mod render_phase;
pub mod render_resource;
pub mod skybox;
pub mod view;
