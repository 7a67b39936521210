//! Frame pacing for a shader wallpaper drawn on every output of a Wayland
//! compositor: the per-output render state machine, the frame-callback
//! tracker, the audio energy feed and the registry of outputs, together with
//! the shader-source handling that the renderer builds its pipeline from.
//!
//! The GPU, the compositor connection and audio capture live outside this
//! library; it decides what they must do and holds what they hand back.

pub mod energy;
pub mod frame_callback;
pub mod registry;
pub mod render_surface;
pub mod scheduler;
pub mod shader;
pub mod shadertoy;

pub use energy::{EnergyBands, EnergyFeed, ENERGY_ONE};
pub use frame_callback::FrameCallbackState;
pub use registry::{ConfigureAction, Background, BackgroundLayer};
pub use render_surface::{OutputSurface, UniformSnapshot};
pub use scheduler::{frame_interval_ms, FPS};
pub use shader::{format_shader_src, load_fragment_shader, load_vertex_shader};
pub use shadertoy::{addr_mode, ArgValues, FilterMode, WrapMode};
