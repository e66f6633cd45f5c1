use vstd::prelude::*;

use crate::channel;
use crate::channel::ChannelClosed;
use crate::channel::TryRecv;
use crate::clock::MAX_TIME_MS;
use crate::clock::UpdateLoop;
use crate::events::EditEvent;
use crate::events::EditView;
use crate::shader::BoundResource;
use crate::shader::CustomShader;
use crate::shader::VERT_SHADER;
use crate::shader::compile_wgsl;
use crate::shader::ShaderInfoView;
use crate::shader::frag_diag;
use crate::shader::wgsl_compile;
use crate::texture::TextureImage;
use crate::texture::decode_rgba;
use crate::texture::rgba_decode;
use crate::uniforms::FrameUniforms;
use crate::uniforms::SCALE;
use crate::uniforms::norm_coord;
use crate::uniforms::normalize_coord;
use crate::window::WinEvent;
use crate::window::WindowState;

verus! {

/// The edit-facing state of the playground: which pipeline and texture are
/// bound, each with a generation counter that names the bound value, so
/// that "replaced" and "rebuilt but equal" stay tellable apart.
pub ghost struct EditState {
    /// The source of the active pipeline; `None` while the loop is idle.
    pub shader: Option<Seq<char>>,
    /// Counts successful compiles; zero exactly while `shader` is `None`.
    pub shader_generation: u64,
    /// Width, height and pixels of the bound texture.
    pub texture: (u32, u32, Seq<u8>),
    /// Counts successful texture loads; zero for the placeholder.
    pub texture_generation: u64,
}

/// The state a fresh playground starts in: no pipeline, the transparent
/// 1-by-1 placeholder texture.
pub open spec fn initial_edit_state() -> EditState {
    EditState {
        shader: None,
        shader_generation: 0,
        texture: (1u32, 1u32, seq![0u8, 0u8, 0u8, 0u8]),
        texture_generation: 0,
    }
}

/// A generation counter moved past a successful swap; it never returns to
/// zero and saturates rather than wraps.
pub open spec fn bump(g: u64) -> u64 {
    if g < u64::MAX {
        (g + 1) as u64
    } else {
        g
    }
}

/// One edit event applied to the edit-facing state: the state after the
/// event, and the one outcome string reported for it. A failed compile or
/// decode leaves the state exactly as it was and reports the diagnostic;
/// a success swaps the new value in and reports "ok".
pub open spec fn edit_step(s: EditState, e: EditView) -> (EditState, Seq<char>) {
    match e {
        EditView::Shader(src) => {
            if frag_diag(src) is None {
                (
                    EditState {
                        shader: Some(src),
                        shader_generation: bump(s.shader_generation),
                        ..s
                    },
                    "ok"@,
                )
            } else {
                (s, frag_diag(src)->0)
            }
        },
        EditView::Texture(bytes) => {
            match rgba_decode(bytes) {
                Ok(t) => (
                    EditState { texture: t, texture_generation: bump(s.texture_generation), ..s },
                    "ok"@,
                ),
                Err(d) => (s, d),
            }
        },
    }
}

/// The playground core: the render loop's whole state. All GPU-state
/// mutation goes through it, one edit event per clock tick, while the
/// embedder drives `event` and `draw` and owns the device-side objects.
pub struct App {
    ws: WindowState,
    clock: UpdateLoop,
    uniforms: FrameUniforms,
    shader: Option<CustomShader>,
    shader_generation: u64,
    texture: TextureImage,
    texture_generation: u64,
    receiver: async_channel::Receiver<EditEvent>,
    sender: async_channel::Sender<String>,
}

/// What one frame hands the embedder to realize on the device.
pub struct FrameOutput {
    /// The uniform values uploaded for this frame.
    pub uniforms: FrameUniforms,
    /// The resources to bind for the one full-screen-quad draw call,
    /// present exactly when a user pipeline is active; `None` means only
    /// the background clear happens.
    pub bind: Option<Vec<BoundResource>>,
}

/// The normalized cursor x the uniforms report: the pointer position
/// scaled into millionths of the window width while the pointer is
/// inside, the sentinel once it has left.
pub open spec fn cursor_x_spec(ws: WindowState) -> int {
    if ws.cursor_in {
        norm_coord(ws.cursor_x, ws.width)
    } else {
        -(SCALE as int)
    }
}

/// The normalized cursor y, measured from the bottom edge, or the sentinel.
pub open spec fn cursor_y_spec(ws: WindowState) -> int {
    if ws.cursor_in {
        SCALE - norm_coord(ws.cursor_y, ws.height)
    } else {
        -(SCALE as int)
    }
}

/// Width over height in millionths.
pub open spec fn aspect_spec(ws: WindowState) -> int {
    norm_coord(ws.width, ws.height)
}

impl App {
    /// The edit-facing state this value holds.
    pub closed spec fn edit_state(&self) -> EditState {
        EditState {
            shader: match self.shader {
                Some(s) => Some(s.src()),
                None => None,
            },
            shader_generation: self.shader_generation,
            texture: (self.texture.w(), self.texture.h(), self.texture.px()),
            texture_generation: self.texture_generation,
        }
    }

    /// The mirrored window state.
    pub closed spec fn window(&self) -> WindowState {
        self.ws
    }

    /// The frame clock.
    pub closed spec fn clock(&self) -> UpdateLoop {
        self.clock
    }

    /// The uniforms as last computed.
    pub closed spec fn uniforms_spec(&self) -> FrameUniforms {
        self.uniforms
    }

    /// Well-formedness: the clock schedule is sound, the bound texture
    /// holds four bytes per pixel, the active pipeline was accepted by the
    /// compiler, and the pipeline generation is zero exactly while idle.
    pub closed spec fn wf(&self) -> bool {
        &&& self.clock.wf()
        &&& self.texture.wf()
        &&& match self.shader {
            Some(s) => s.wf() && self.shader_generation > 0,
            None => self.shader_generation == 0,
        }
    }

    /// Whether a close was requested by the environment.
    pub fn should_close(&self) -> (r: bool)
        ensures
            r == self.window().should_close,
    {
        self.ws.should_close
    }

    /// The generation of the active pipeline: zero while idle, bumped by
    /// every successful compile.
    pub fn shader_generation(&self) -> (r: u64)
        ensures
            r == self.edit_state().shader_generation,
    {
        self.shader_generation
    }

    /// The generation of the bound texture: zero for the placeholder,
    /// bumped by every successful load.
    pub fn texture_generation(&self) -> (r: u64)
        ensures
            r == self.edit_state().texture_generation,
    {
        self.texture_generation
    }

    /// The source of the active pipeline, if one is bound.
    pub fn shader_source(&self) -> (r: Option<&String>)
        ensures
            match r {
                Some(s) => self.edit_state().shader == Some(s@),
                None => self.edit_state().shader is None,
            },
    {
        match &self.shader {
            Some(s) => Some(s.source()),
            None => None,
        }
    }

    /// The bound texture.
    pub fn bound_texture(&self) -> (r: &TextureImage)
        ensures
            (r.w(), r.h(), r.px()) == self.edit_state().texture,
    {
        &self.texture
    }

    /// The uniforms as last computed.
    pub fn uniforms(&self) -> (r: FrameUniforms)
        ensures
            r == self.uniforms_spec(),
    {
        self.uniforms
    }

    /// Create the playground core and its paired host handle: the built-in
    /// vertex stage is compiled once here; the pipeline starts absent, the
    /// texture as the placeholder, and the edit queue is checked once per
    /// second. Fails only if the built-in vertex stage does not compile.
    pub fn init(width: u32, height: u32) -> (r: Result<(App, DataSender), String>)
        ensures
            r is Ok <==> wgsl_compile(VERT_SHADER@) is Ok,
            r matches Ok(pair) ==> pair.0.wf() && pair.0.edit_state() == initial_edit_state()
                && pair.0.window() == WindowState::initial(width, height) && pair.0.clock().next()
                == 0 && pair.0.clock().interval() == 1000 && pair.0.uniforms_spec() == (
            FrameUniforms { aspect: 0, time_ms: 0, cursor_x: 0, cursor_y: 0 }),
            r matches Err(d) ==> wgsl_compile(VERT_SHADER@) == Err::<ShaderInfoView, Seq<char>>(d@),
    {
        match compile_wgsl(VERT_SHADER) {
            Ok(_) => {},
            Err(d) => {
                return Err(d);
            },
        }
        let edits = channel::channel_pair::<EditEvent>();
        let outcomes = channel::channel_pair::<String>();
        let app = App {
            ws: WindowState::new(width, height),
            clock: UpdateLoop::new(1000),
            uniforms: FrameUniforms::startup(),
            shader: None,
            shader_generation: 0,
            texture: TextureImage::placeholder(),
            texture_generation: 0,
            receiver: edits.1,
            sender: outcomes.0,
        };
        let handle = DataSender { data_sender: edits.0, error_receiver: outcomes.1 };
        proof {
            assert(app.edit_state().texture.2 =~= initial_edit_state().texture.2);
        }
        Ok((app, handle))
    }

    /// Apply one shader edit: compile the source; on success atomically
    /// swap the new pipeline in; on failure leave the active pipeline
    /// untouched. Returns the one outcome reported for the event.
    pub fn recompile(&mut self, source: String) -> (outcome: String)
        requires
            old(self).wf(),
        ensures
            final(self).wf(),
            final(self).edit_state() == edit_step(
                old(self).edit_state(),
                EditView::Shader(source@),
            ).0,
            outcome@ == edit_step(old(self).edit_state(), EditView::Shader(source@)).1,
            final(self).window() == old(self).window(),
            final(self).clock() == old(self).clock(),
            final(self).uniforms_spec() == old(self).uniforms_spec(),
    {
        match CustomShader::new(source) {
            Ok(shader) => {
                self.shader = Some(shader);
                self.shader_generation = bump_generation(self.shader_generation);
                "ok".to_owned()
            },
            Err(diagnostic) => diagnostic,
        }
    }

    /// Apply one texture edit: decode the bytes; on success atomically
    /// swap the new texture in; on failure leave the bound texture
    /// untouched. Returns the one outcome reported for the event.
    pub fn texture(&mut self, bytes: Vec<u8>) -> (outcome: String)
        requires
            old(self).wf(),
        ensures
            final(self).wf(),
            final(self).edit_state() == edit_step(
                old(self).edit_state(),
                EditView::Texture(bytes@),
            ).0,
            outcome@ == edit_step(old(self).edit_state(), EditView::Texture(bytes@)).1,
            final(self).window() == old(self).window(),
            final(self).clock() == old(self).clock(),
            final(self).uniforms_spec() == old(self).uniforms_spec(),
    {
        match decode_rgba(&bytes) {
            Ok(tex) => {
                self.texture = tex;
                self.texture_generation = bump_generation(self.texture_generation);
                "ok".to_owned()
            },
            Err(diagnostic) => diagnostic,
        }
    }

    /// Push one outcome onto the result channel; false once the host side
    /// is gone.
    fn send(&self, msg: String) -> (delivered: bool) {
        channel::try_send(&self.sender, msg)
    }

    /// Poll the edit queue once, without blocking: dispatch at most one
    /// pending edit and push exactly one outcome for it. `Err` means a
    /// channel has closed, which is fatal to the loop.
    pub fn update(&mut self) -> (r: Result<(), ChannelClosed>)
        requires
            old(self).wf(),
        ensures
            final(self).wf(),
            final(self).window() == old(self).window(),
            final(self).clock() == old(self).clock(),
            final(self).uniforms_spec() == old(self).uniforms_spec(),
            final(self).edit_state() == old(self).edit_state() || exists|e: EditView|
                final(self).edit_state() == edit_step(old(self).edit_state(), e).0,
    {
        match channel::try_recv(&self.receiver) {
            TryRecv::Got(ev) => {
                let ghost pre = self.edit_state();
                let ghost ev_view = ev@;
                let outcome = match ev {
                    EditEvent::ShaderSource(source) => self.recompile(source),
                    EditEvent::TextureBytes(bytes) => self.texture(bytes),
                };
                proof {
                    assert(self.edit_state() == edit_step(pre, ev_view).0);
                }
                if self.send(outcome) {
                    Ok(())
                } else {
                    Err(ChannelClosed)
                }
            },
            TryRecv::Empty => Ok(()),
            TryRecv::Closed => Err(ChannelClosed),
        }
    }

    /// Fold one window event into the mirrored state and refresh the
    /// cursor part of the uniforms: the normalized position while the
    /// pointer is inside the window, the sentinel once it has left.
    pub fn event(&mut self, e: &WinEvent)
        requires
            old(self).wf(),
        ensures
            final(self).wf(),
            final(self).window() == old(self).window().after_event(*e),
            final(self).uniforms_spec().cursor_x as int == cursor_x_spec(final(self).window()),
            final(self).uniforms_spec().cursor_y as int == cursor_y_spec(final(self).window()),
            final(self).uniforms_spec().aspect == old(self).uniforms_spec().aspect,
            final(self).uniforms_spec().time_ms == old(self).uniforms_spec().time_ms,
            final(self).edit_state() == old(self).edit_state(),
            final(self).clock() == old(self).clock(),
    {
        self.ws.event(e);
        if self.ws.cursor_in {
            self.uniforms.cursor_x = normalize_coord(self.ws.cursor_x, self.ws.width);
            let ny: i64 = normalize_coord(self.ws.cursor_y, self.ws.height);
            self.uniforms.cursor_y = SCALE - ny;
        } else {
            self.uniforms.cursor_x = -SCALE;
            self.uniforms.cursor_y = -SCALE;
        }
    }

    /// One frame, strictly ordered: on a clock tick poll the edit queue
    /// (at most one event, exactly one outcome); recompute the uniforms
    /// from the window state and the monotonic time; hand out what to
    /// bind and whether to draw the quad. `Err` ends the loop: a channel
    /// closed.
    pub fn draw(&mut self, now_ms: u64) -> (r: Result<FrameOutput, ChannelClosed>)
        requires
            old(self).wf(),
            now_ms <= MAX_TIME_MS,
        ensures
            final(self).wf(),
            final(self).window() == old(self).window(),
            final(self).edit_state() == old(self).edit_state() || exists|e: EditView|
                final(self).edit_state() == edit_step(old(self).edit_state(), e).0,
            now_ms < old(self).clock().next() ==> final(self).edit_state() == old(
                self,
            ).edit_state() && final(self).clock() == old(self).clock(),
            now_ms >= old(self).clock().next() ==> final(self).clock().next() == now_ms + old(
                self,
            ).clock().interval(),
            final(self).clock().interval() == old(self).clock().interval(),
            now_ms < old(self).clock().next() ==> r is Ok,
            r matches Ok(out) ==> {
                &&& out.uniforms == final(self).uniforms_spec()
                &&& out.uniforms.aspect as int == aspect_spec(final(self).window())
                &&& out.uniforms.time_ms == now_ms
                &&& out.uniforms.cursor_x == old(self).uniforms_spec().cursor_x
                &&& out.uniforms.cursor_y == old(self).uniforms_spec().cursor_y
                &&& (out.bind is Some <==> final(self).edit_state().shader is Some)
                &&& (out.bind matches Some(b) ==> b@ == seq![
                    BoundResource::Uniforms,
                    BoundResource::TextureView(final(self).edit_state().texture_generation),
                    BoundResource::Sampler,
                ])
            },
    {
        let ticked = self.clock.update(now_ms);
        if ticked {
            match self.update() {
                Ok(()) => {},
                Err(c) => {
                    return Err(c);
                },
            }
        }
        self.uniforms.aspect = normalize_coord(self.ws.width, self.ws.height);
        self.uniforms.time_ms = now_ms;
        let bind = match &self.shader {
            Some(s) => Some(s.bind_group(self.texture_generation)),
            None => None,
        };
        Ok(FrameOutput { uniforms: self.uniforms, bind })
    }
}

/// A generation counter moved past a successful swap.
fn bump_generation(g: u64) -> (r: u64)
    ensures
        r == bump(g),
{
    if g < u64::MAX {
        g + 1
    } else {
        g
    }
}

/// The host's handle onto the playground: it enqueues edit events and
/// collects one outcome per event, in FIFO order. Handles can be cloned;
/// all clones share the same pair of channels.
pub struct DataSender {
    data_sender: async_channel::Sender<EditEvent>,
    error_receiver: async_channel::Receiver<String>,
}

impl DataSender {
    /// Another handle sharing the same underlying channels.
    pub fn new(&self) -> (r: DataSender) {
        DataSender {
            data_sender: channel::clone_sender(&self.data_sender),
            error_receiver: channel::clone_receiver(&self.error_receiver),
        }
    }

    /// Enqueue a shader edit. `Err(ChannelClosed)` exactly when the render
    /// loop is gone; the outcome for the event arrives via `try_outcome`.
    pub fn send_shader(&self, source: String) -> (r: Result<(), ChannelClosed>) {
        if channel::try_send(&self.data_sender, EditEvent::ShaderSource(source)) {
            Ok(())
        } else {
            Err(ChannelClosed)
        }
    }

    /// Enqueue a texture edit; as `send_shader`.
    pub fn send_texture(&self, bytes: Vec<u8>) -> (r: Result<(), ChannelClosed>) {
        if channel::try_send(&self.data_sender, EditEvent::TextureBytes(bytes)) {
            Ok(())
        } else {
            Err(ChannelClosed)
        }
    }

    /// Poll, without blocking, for the outcome of the oldest edit not yet
    /// collected: `Closed` exactly when the render loop is gone.
    pub fn try_outcome(&self) -> (r: TryRecv<String>) {
        channel::try_recv(&self.error_receiver)
    }
}

} // verus!
