//! Render-loop core of an in-browser image viewer: shader uniform state,
//! image texture management, the event and present state machine, the
//! user interface's start-up check and its colour palette.

pub mod color_management;
pub mod image;
pub mod render_pipeline;
pub mod startup;
pub mod texture;
pub mod uniform;

pub use color_management::{ColorEntry, ColorList, Rgb};
pub use image::{ImageError, WebImage};
pub use render_pipeline::{FrontendEvent, LoopAction, Phase, State, SurfaceError, SurfaceSize};
pub use startup::{start, StartupFlags};
pub use texture::{DataLayout, Extent, NoImage, TextureManager, TextureUpload};
pub use uniform::{Aspect, InputUniform, EFFECT_COUNT};
