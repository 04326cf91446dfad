//! Verified core of the TechNoir wallpaper engine: plugin manifests and
//! render-pipeline descriptors, WGSL packaging, and the decisions the
//! engine takes about surfaces, screens and textures.
pub mod audio;
pub mod config;
pub mod files;
pub mod manifest;
pub mod package;
pub mod output_path;
pub mod packager;
pub mod pipelines;
pub mod screen;
pub mod surface;
pub mod text;
pub mod texture;
pub mod wallpaper;
pub mod wgsl_minifier;
pub mod windowing;

pub use config::Config;
