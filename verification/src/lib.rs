//! A hot-reload shader playground core: a host feeds fragment-shader
//! source and texture bytes through an edit channel at arbitrary times;
//! the render loop swaps the active pipeline or texture in atomically on
//! success, keeps the previous one on failure, and reports exactly one
//! outcome string per edit, while recomputing the frame uniforms every
//! frame.

mod channel;
mod clock;
mod events;
mod laws;
mod playground;
mod shader;
mod texture;
mod uniforms;
mod window;

pub use channel::ChannelClosed;
pub use channel::TryRecv;
pub use events::EditEvent;
pub use events::EditView;
pub use laws::lemma_failed_compile_keeps_pipeline;
pub use laws::lemma_failed_decode_keeps_texture;
pub use laws::lemma_last_valid_shader_wins;
pub use laws::lemma_one_outcome_per_event;
pub use laws::lemma_outcome_matches_event;
pub use laws::lemma_resubmit_same_source_idempotent;
pub use laws::lemma_successful_compile_activates;
pub use laws::run_edits;
pub use playground::App;
pub use playground::DataSender;
pub use playground::EditState;
pub use playground::FrameOutput;
pub use playground::aspect_spec;
pub use playground::bump;
pub use playground::cursor_x_spec;
pub use playground::cursor_y_spec;
pub use playground::edit_step;
pub use playground::initial_edit_state;
pub use clock::MAX_INTERVAL_MS;
pub use clock::MAX_TIME_MS;
pub use clock::UpdateLoop;
pub use shader::BindingSlot;
pub use shader::BoundResource;
pub use shader::CustomShader;
pub use shader::LAYOUT_DIAG;
pub use shader::ReflectedGlobal;
pub use shader::ReflectedKind;
pub use shader::ShaderInfo;
pub use shader::ShaderInfoView;
pub use shader::VERT_SHADER;
pub use shader::binding_allowed;
pub use shader::frag_diag;
pub use shader::has_fragment_main;
pub use shader::layout_ok;
pub use shader::wgsl_compile;
pub use texture::TextureImage;
pub use texture::rgba_decode;
pub use window::WinEvent;
pub use window::WindowState;
pub use uniforms::FrameUniforms;
pub use uniforms::SCALE;
pub use uniforms::norm_coord;
pub use uniforms::normalize_coord;
