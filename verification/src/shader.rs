use vstd::prelude::*;

verus! {

/// The built-in vertex stage shared by every pipeline generation: it spans
/// a full-screen quad from the vertex index alone, so no vertex buffer is
/// ever bound. Compiled exactly once, at startup.
pub const VERT_SHADER: &'static str = "@vertex\nfn main(@builtin(vertex_index) i: u32) -> @builtin(position) vec4<f32> {\n    let x = f32(i32(i % 2u) * 2 - 1);\n    let y = f32(i32(i / 2u) * 2 - 1);\n    return vec4<f32>(x, y, 0.0, 1.0);\n}\n";

/// The diagnostic reported when a shader compiles but its reflected
/// interface does not fit the fixed layout.
pub const LAYOUT_DIAG: &'static str = "shader interface mismatch: expected a fragment entry point named 'main', with resources bound only in group 0 as the frame uniforms at binding 0, a texture at binding 1 and a sampler at binding 2";

/// The resource kinds the fixed layout tells apart.
#[derive(Clone, Copy, PartialEq, Eq, Structural, Debug)]
pub enum ReflectedKind {
    UniformBuffer,
    Texture,
    Sampler,
    Other,
}

/// One module-scope variable as the compiler reflects it.
#[derive(Clone, Copy, Debug)]
pub struct ReflectedGlobal {
    /// Bind group and binding index; `None` for a non-resource variable
    /// (private or workgroup storage).
    pub resource: Option<(u32, u32)>,
    /// What kind of resource the variable is.
    pub kind: ReflectedKind,
}

/// What the compiler reflects of a validated module.
pub struct ShaderInfo {
    /// One entry per entry point, in declaration order: whether its stage
    /// is `fragment`, and its name.
    pub entry_points: Vec<(bool, String)>,
    /// One entry per module-scope variable, in declaration order.
    pub globals: Vec<ReflectedGlobal>,
}

/// The mathematical image of a reflected module.
pub ghost struct ShaderInfoView {
    pub entry_points: Seq<(bool, String)>,
    pub globals: Seq<ReflectedGlobal>,
}

impl View for ShaderInfo {
    type V = ShaderInfoView;

    open spec fn view(&self) -> ShaderInfoView {
        ShaderInfoView { entry_points: self.entry_points@, globals: self.globals@ }
    }
}

/// What the native WGSL compiler yields for a source text: the reflected
/// interface of the validated module, or the compiler's diagnostic.
pub uninterp spec fn wgsl_compile(source: Seq<char>) -> Result<ShaderInfoView, Seq<char>>;

#[verifier::external_type_specification]
#[verifier::external_body]
pub struct ExModule(naga::Module);

/// Relies on naga::Module's reflected entry points, global variables and
/// types: converts them one-for-one into plain values, telling resource
/// kinds apart by type and address space.
#[verifier::external_body]
fn reflect_module(module: &naga::Module) -> (r: ShaderInfo) {
    let entry_points = module.entry_points.iter().map(
        |ep| (matches!(ep.stage, naga::ShaderStage::Fragment), ep.name.clone()),
    ).collect();
    let globals = module.global_variables.iter().map(|(_, g)| ReflectedGlobal {
        resource: g.binding.as_ref().map(|b| (b.group, b.binding)),
        kind: match &module.types[g.ty].inner {
            naga::TypeInner::Image { .. } => ReflectedKind::Texture,
            naga::TypeInner::Sampler { .. } => ReflectedKind::Sampler,
            _ => match g.space {
                naga::AddressSpace::Uniform => ReflectedKind::UniformBuffer,
                _ => ReflectedKind::Other,
            },
        },
    }).collect();
    ShaderInfo { entry_points, globals }
}

/// Relies on naga::front::wgsl::parse_str and naga::valid::Validator::validate,
/// run with full validation flags and no extra capabilities: the outcome
/// depends on the source text alone; the message is the compiler's own
/// diagnostic rendered by emit_to_string, and the reflected interface is
/// taken from the validated module by reflect_module.
#[verifier::external_body]
pub(crate) fn compile_wgsl(source: &str) -> (r: Result<ShaderInfo, String>)
    ensures
        r is Ok <==> wgsl_compile(source@) is Ok,
        r matches Ok(info) ==> info@ == wgsl_compile(source@)->Ok_0,
        r matches Err(d) ==> d@ == wgsl_compile(source@)->Err_0,
{
    let module = match naga::front::wgsl::parse_str(source) {
        Ok(m) => m,
        Err(e) => return Err(e.emit_to_string(source)),
    };
    let flags = naga::valid::ValidationFlags::all();
    let caps = naga::valid::Capabilities::empty();
    match naga::valid::Validator::new(flags, caps).validate(&module) {
        Ok(_) => Ok(reflect_module(&module)),
        Err(e) => Err(e.emit_to_string(source)),
    }
}

/// Whether the reflected module has a fragment entry point named "main".
pub open spec fn has_fragment_main(info: ShaderInfoView) -> bool {
    exists|i: int|
        0 <= i < info.entry_points.len() && (#[trigger] info.entry_points[i]).0
            && info.entry_points[i].1@ == "main"@
}

/// Whether one reflected variable fits the fixed layout: a non-resource
/// variable is free; a resource must sit in group 0, at the one slot its
/// kind owns.
pub open spec fn binding_allowed(g: ReflectedGlobal) -> bool {
    match g.resource {
        None => true,
        Some(rb) => rb.0 == 0 && ((rb.1 == 0 && g.kind is UniformBuffer) || (rb.1 == 1
            && g.kind is Texture) || (rb.1 == 2 && g.kind is Sampler)),
    }
}

/// Whether a validated module fits the fixed interface contract of the
/// playground: a fragment entry point named "main", and no resource
/// outside the fixed three slots.
pub open spec fn layout_ok(info: ShaderInfoView) -> bool {
    has_fragment_main(info) && forall|i: int|
        0 <= i < info.globals.len() ==> binding_allowed(#[trigger] info.globals[i])
}

/// The playground's acceptance verdict on fragment source: `None` when
/// the native compiler accepts the text and its reflected interface fits
/// the fixed layout; otherwise the diagnostic reported for the edit.
pub open spec fn frag_diag(source: Seq<char>) -> Option<Seq<char>> {
    match wgsl_compile(source) {
        Err(d) => Some(d),
        Ok(info) => if layout_ok(info) {
            None
        } else {
            Some(LAYOUT_DIAG@)
        },
    }
}

/// Check a reflected interface against the fixed layout.
fn layout_matches(info: &ShaderInfo) -> (r: bool)
    ensures
        r == layout_ok(info@),
{
    let main_name: String = "main".to_owned();
    let mut has_main: bool = false;
    let mut i: usize = 0;
    while i < info.entry_points.len()
        invariant
            i <= info.entry_points.len(),
            main_name@ == "main"@,
            has_main == exists|j: int|
                0 <= j < i && (#[trigger] info.entry_points@[j]).0 && info.entry_points@[j].1@
                    == "main"@,
        decreases info.entry_points.len() - i,
    {
        let ep = &info.entry_points[i];
        if ep.0 && ep.1 == main_name {
            has_main = true;
        }
        i += 1;
    }
    let mut all_allowed: bool = true;
    let mut k: usize = 0;
    while k < info.globals.len()
        invariant
            k <= info.globals.len(),
            all_allowed == forall|j: int| 0 <= j < k ==> binding_allowed(#[trigger] info.globals@[j]),
        decreases info.globals.len() - k,
    {
        let g = info.globals[k];
        let fits = match g.resource {
            None => true,
            Some(rb) => rb.0 == 0 && ((rb.1 == 0 && matches!(g.kind, ReflectedKind::UniformBuffer))
                || (rb.1 == 1 && matches!(g.kind, ReflectedKind::Texture)) || (rb.1 == 2
                && matches!(g.kind, ReflectedKind::Sampler))),
        };
        if !fits {
            all_allowed = false;
        }
        k += 1;
    }
    proof {
        if has_main {
            let j = choose|j: int|
                0 <= j < info.entry_points@.len() && (#[trigger] info.entry_points@[j]).0
                    && info.entry_points@[j].1@ == "main"@;
            assert((info@.entry_points[j]).0 && info@.entry_points[j].1@ == "main"@);
        } else if has_fragment_main(info@) {
            let j = choose|j: int|
                0 <= j < info@.entry_points.len() && (#[trigger] info@.entry_points[j]).0
                    && info@.entry_points[j].1@ == "main"@;
            assert((info.entry_points@[j]).0 && info.entry_points@[j].1@ == "main"@);
        }
        assert(has_main == has_fragment_main(info@));
        if all_allowed {
            assert forall|j: int| 0 <= j < info@.globals.len() implies binding_allowed(
                #[trigger] info@.globals[j],
            ) by {
                assert(binding_allowed(info.globals@[j]));
            }
        } else {
            let j = choose|j: int| 0 <= j < info.globals@.len() && !binding_allowed(
                #[trigger] info.globals@[j],
            );
            assert(!binding_allowed(info@.globals[j]));
        }
        assert((has_main && all_allowed) == layout_ok(info@));
    }
    has_main && all_allowed
}

/// One slot of the fixed bind-group layout that every compiled fragment
/// stage is built against.
#[derive(Clone, Copy, PartialEq, Eq, Structural, Debug)]
pub enum BindingSlot {
    /// Binding 0: the per-frame uniforms.
    UniformBuffer,
    /// Binding 1: the bound texture's view.
    Texture2d,
    /// Binding 2: the fixed clamp-to-edge, nearest-filter sampler.
    Sampler,
}

/// One resource attached for a frame, mirroring the fixed layout slot for
/// slot; the texture entry carries the generation of the texture it views.
#[derive(Clone, Copy, PartialEq, Eq, Structural, Debug)]
pub enum BoundResource {
    Uniforms,
    TextureView(u64),
    Sampler,
}

/// A fully compiled user pipeline: the fragment source it was built from,
/// which the compiler accepted against the fixed layout. Device-side
/// objects live with the embedder, keyed by the owning playground's
/// generation counter.
pub struct CustomShader {
    source: String,
}

impl CustomShader {
    /// The fragment source this pipeline was compiled from.
    pub closed spec fn src(&self) -> Seq<char> {
        self.source@
    }

    /// A pipeline only exists for source that was accepted whole: compiled
    /// and fitting the fixed layout.
    pub open spec fn wf(&self) -> bool {
        frag_diag(self.src()) is None
    }

    /// Compile a fragment stage against the fixed vertex stage, then hold
    /// its reflected interface to the fixed layout. Success yields a fully
    /// built pipeline; failure yields the compiler's diagnostic verbatim
    /// (or the fixed-layout diagnostic), and nothing else comes into being.
    pub fn new(source: String) -> (r: Result<CustomShader, String>)
        ensures
            r is Ok <==> frag_diag(source@) is None,
            r matches Ok(s) ==> s.src() == source@ && s.wf(),
            r matches Err(d) ==> frag_diag(source@) == Some(d@),
    {
        let info = match compile_wgsl(source.as_str()) {
            Ok(info) => info,
            Err(d) => {
                return Err(d);
            },
        };
        if layout_matches(&info) {
            Ok(CustomShader { source })
        } else {
            Err(LAYOUT_DIAG.to_owned())
        }
    }

    /// The source text, for display or resubmission.
    pub fn source(&self) -> (r: &String)
        ensures
            r@ == self.src(),
    {
        &self.source
    }

    /// The fixed binding layout every pipeline bakes in: uniforms, texture
    /// view, sampler — each entry's binding index is its position.
    pub fn bind_group_layout() -> (r: Vec<BindingSlot>)
        ensures
            r@ == seq![BindingSlot::UniformBuffer, BindingSlot::Texture2d, BindingSlot::Sampler],
    {
        let mut v: Vec<BindingSlot> = Vec::new();
        v.push(BindingSlot::UniformBuffer);
        v.push(BindingSlot::Texture2d);
        v.push(BindingSlot::Sampler);
        proof {
            assert(v@ =~= seq![
                BindingSlot::UniformBuffer,
                BindingSlot::Texture2d,
                BindingSlot::Sampler,
            ]);
        }
        v
    }

    /// The resources one frame binds, slot for slot against the fixed
    /// layout; `texture_generation` names the texture whose view fills
    /// binding 1.
    pub fn bind_group(&self, texture_generation: u64) -> (r: Vec<BoundResource>)
        ensures
            r@ == seq![
                BoundResource::Uniforms,
                BoundResource::TextureView(texture_generation),
                BoundResource::Sampler,
            ],
    {
        let mut v: Vec<BoundResource> = Vec::new();
        v.push(BoundResource::Uniforms);
        v.push(BoundResource::TextureView(texture_generation));
        v.push(BoundResource::Sampler);
        proof {
            assert(v@ =~= seq![
                BoundResource::Uniforms,
                BoundResource::TextureView(texture_generation),
                BoundResource::Sampler,
            ]);
        }
        v
    }
}

} // verus!
