//! Render-pipeline descriptors that plugins declare in their pipeline file.
use vstd::prelude::*;
use vstd::string::StrSliceExecFns;

verus! {

/// Whether two string slices hold the same characters.
pub(crate) fn str_equal(a: &str, b: &str) -> (r: bool)
    ensures
        r == (a@ == b@),
{
    let n = a.unicode_len();
    if n != b.unicode_len() {
        return false;
    }
    let mut i: usize = 0;
    while i < n
        invariant
            n == a@.len(),
            n == b@.len(),
            i <= n,
            forall|k: int| 0 <= k < i ==> a@[k] == b@[k],
        decreases n - i,
    {
        if a.get_char(i) != b.get_char(i) {
            return false;
        }
        i += 1;
    }
    assert(a@ =~= b@);
    true
}

// -----------------------------------------------------------------------------
// Pipelines
// -----------------------------------------------------------------------------

/// The named pipelines of a plugin: each name maps to one pipeline.
pub struct Pipelines(pub rapidhash::RapidHashMap<String, Pipeline>);

/// The pipelines a map holds, each name with its pipeline.
pub uninterp spec fn pipeline_map(pipelines: rapidhash::RapidHashMap<String, Pipeline>) -> Map<
    Seq<char>,
    Pipeline,
>;

/// `entries` lists each pipeline of `map` once, in some order: distinct
/// names, each with the pipeline the map holds for it, and every name of the
/// map among them.
pub open spec fn lists_pipelines(entries: Seq<(Seq<char>, Pipeline)>, map: Map<Seq<char>, Pipeline>) -> bool {
    &&& forall|i: int| 0 <= i < entries.len() ==> #[trigger] map.contains_key(entries[i].0) && map[entries[i].0] == entries[i].1
    &&& forall|i: int, j: int| 0 <= i < j < entries.len() ==> #[trigger] entries[i].0 != #[trigger] entries[j].0
    &&& forall|name: Seq<char>| #[trigger] map.contains_key(name) ==> exists|i: int| 0 <= i < entries.len() && #[trigger] entries[i].0 == name
}

/// The names and pipelines of a list of owned entries.
pub open spec fn entry_models(entries: Seq<(String, Pipeline)>) -> Seq<(Seq<char>, Pipeline)> {
    entries.map_values(|e: (String, Pipeline)| (e.0@, e.1))
}

/// The names and pipelines of a list of borrowed entries.
pub open spec fn borrowed_entry_models<'a>(entries: Seq<(&'a String, &'a Pipeline)>) -> Seq<(Seq<char>, Pipeline)> {
    entries.map_values(|e: (&'a String, &'a Pipeline)| ((*e.0)@, *e.1))
}

/// The pipeline called `name` (`HashMap::get`). Strings are equal keys
/// exactly when they hold the same characters.
#[verifier::external_body]
fn lookup_pipeline<'a>(map: &'a rapidhash::RapidHashMap<String, Pipeline>, name: &str) -> (r: Option<&'a Pipeline>)
    ensures
        r is Some <==> pipeline_map(*map).contains_key(name@),
        r matches Some(p) ==> *p == pipeline_map(*map)[name@],
{
    map.get(name)
}

/// Every name and pipeline of a map, in the order the map is walked
/// (`HashMap::iter`); that order is left open.
#[verifier::external_body]
fn walk_pipelines<'a>(map: &'a rapidhash::RapidHashMap<String, Pipeline>) -> (r: Vec<(&'a String, &'a Pipeline)>)
    ensures
        lists_pipelines(borrowed_entry_models(r@), pipeline_map(*map)),
{
    map.iter().collect()
}

/// Every name and pipeline of a map, taken out of it in the order the map
/// is walked (`HashMap::into_iter`); that order is left open.
#[verifier::external_body]
fn take_pipelines(map: rapidhash::RapidHashMap<String, Pipeline>) -> (r: Vec<(String, Pipeline)>)
    ensures
        lists_pipelines(entry_models(r@), pipeline_map(map)),
{
    map.into_iter().collect()
}

/// A map of pipelines made of entries with distinct names
/// (`HashMap::from_iter`).
#[verifier::external_body]
fn collect_pipelines(entries: Vec<(String, Pipeline)>) -> (r: rapidhash::RapidHashMap<String, Pipeline>)
    requires
        forall|i: int, j: int|
            0 <= i < j < entries@.len() ==> #[trigger] entries@[i].0@ != #[trigger] entries@[j].0@,
    ensures
        lists_pipelines(entry_models(entries@), pipeline_map(r)),
{
    entries.into_iter().collect()
}

impl Pipelines {
    /// The pipelines, each name with its pipeline.
    pub open spec fn view_map(&self) -> Map<Seq<char>, Pipeline> {
        pipeline_map(self.0)
    }

    /// A pipeline set made of entries with distinct names.
    pub fn from_entries(entries: Vec<(String, Pipeline)>) -> (r: Pipelines)
        requires
            forall|i: int, j: int|
                0 <= i < j < entries@.len() ==> #[trigger] entries@[i].0@ != #[trigger] entries@[j].0@,
        ensures
            lists_pipelines(entry_models(entries@), r.view_map()),
    {
        Pipelines(collect_pipelines(entries))
    }

    /// Looks a pipeline up by name.
    pub fn get(&self, name: &str) -> (r: Option<&Pipeline>)
        ensures
            r is Some <==> self.view_map().contains_key(name@),
            r matches Some(p) ==> *p == self.view_map()[name@],
    {
        lookup_pipeline(&self.0, name)
    }

    /// All pipelines with their names, in the order the map is walked.
    pub fn iter(&self) -> (r: Vec<(&String, &Pipeline)>)
        ensures
            lists_pipelines(borrowed_entry_models(r@), self.view_map()),
    {
        walk_pipelines(&self.0)
    }

    /// All pipelines with their names, taken out in the order the map is walked.
    pub fn into_entries(self) -> (r: Vec<(String, Pipeline)>)
        ensures
            lists_pipelines(entry_models(r@), self.view_map()),
    {
        take_pipelines(self.0)
    }
}

/// One render pipeline.
pub struct Pipeline {
    /// Shader path relative to the plugin's `shaders/` directory.
    pub shader: String,
    /// Explicit entry points; `None` lets the shader compiler pick the only one.
    pub entry_points: Option<EntryPoints>,
    /// Pipeline-overridable shader constants: each name with the IEEE-754 bit
    /// pattern of its `f64` value. Empty when omitted.
    pub constants: rapidhash::RapidHashMap<String, u64>,
    /// Vertex-buffer layouts; none by default.
    pub vertex_buffers: Vec<VertexBuffer>,
    /// Color target states; one opaque target by default.
    pub targets: Vec<Option<ColorTarget>>,
    /// Primitive assembly and rasterization state.
    pub primitive: PrimitiveState,
    /// Depth/stencil state; `None` means no depth/stencil attachment.
    pub depth_stencil: Option<DepthStencilState>,
    /// Multisampling state.
    pub multisample: MultisampleState,
}

/// The color targets of a pipeline whose file names none: one target with
/// opaque blending that writes every channel.
pub fn default_targets() -> (r: Vec<Option<ColorTarget>>)
    ensures
        r@.len() == 1,
        r@[0] matches Some(t) && (t.blend == BlendState::Preset(BlendPreset::Opaque)
            && t.write_mask == WriteMask::All),
{
    let mut targets = Vec::new();
    targets.push(Some(ColorTarget::default()));
    targets
}

// -----------------------------------------------------------------------------
// Entry points
// -----------------------------------------------------------------------------

/// Explicit shader entry points.
pub struct EntryPoints {
    pub vertex: Option<String>,
    pub fragment: Option<String>,
}

// -----------------------------------------------------------------------------
// Vertex buffers
// -----------------------------------------------------------------------------

/// Layout of one vertex buffer.
pub struct VertexBuffer {
    /// Vertex-buffer slot.
    pub slot: u32,
    /// Size in bytes of one vertex or instance record.
    pub array_stride: u64,
    /// Whether the buffer advances per vertex or per instance.
    pub step_mode: StepMode,
    /// Attributes contained in this buffer.
    pub attributes: Vec<VertexAttribute>,
}

#[derive(Clone, Copy, Debug, PartialEq, Eq, Structural)]
pub enum StepMode {
    Vertex,
    Instance,
}

impl Default for StepMode {
    fn default() -> (r: Self)
        ensures
            r == StepMode::Vertex,
    {
        StepMode::Vertex
    }
}

/// One attribute of a vertex buffer.
#[derive(Clone, Copy, Debug, PartialEq, Eq, Structural)]
pub struct VertexAttribute {
    /// Physical format in GPU memory.
    pub format: VertexFormat,
    /// Byte offset within one vertex or instance record.
    pub offset: u64,
    /// Shader input location.
    pub shader_location: u32,
}

#[derive(Clone, Copy, Debug, PartialEq, Eq, Structural)]
pub enum VertexFormat {
    Uint8,
    Uint8x2,
    Uint8x4,
    Sint8,
    Sint8x2,
    Sint8x4,
    Unorm8,
    Unorm8x2,
    Unorm8x4,
    Snorm8,
    Snorm8x2,
    Snorm8x4,
    Uint16,
    Uint16x2,
    Uint16x4,
    Sint16,
    Sint16x2,
    Sint16x4,
    Unorm16,
    Unorm16x2,
    Unorm16x4,
    Snorm16,
    Snorm16x2,
    Snorm16x4,
    Float16,
    Float16x2,
    Float16x4,
    Float32,
    Float32x2,
    Float32x3,
    Float32x4,
    Uint32,
    Uint32x2,
    Uint32x3,
    Uint32x4,
    Sint32,
    Sint32x2,
    Sint32x3,
    Sint32x4,
    Unorm1010102,
    Unorm8x4Bgra,
}

// -----------------------------------------------------------------------------
// Color targets
// -----------------------------------------------------------------------------

/// State of one color target.
#[derive(Clone, Debug)]
pub struct ColorTarget {
    /// Blend behavior.
    pub blend: BlendState,
    /// Channels written by the fragment shader.
    pub write_mask: WriteMask,
}

impl Default for ColorTarget {
    fn default() -> (r: Self)
        ensures
            r.blend == BlendState::Preset(BlendPreset::Opaque),
            r.write_mask == WriteMask::All,
    {
        ColorTarget { blend: BlendState::default(), write_mask: WriteMask::default() }
    }
}

/// Blending: a named preset or explicit color and alpha components.
#[derive(Clone, Copy, Debug, PartialEq, Eq, Structural)]
pub enum BlendState {
    Preset(BlendPreset),
    Custom(CustomBlendState),
}

impl Default for BlendState {
    fn default() -> (r: Self)
        ensures
            r == BlendState::Preset(BlendPreset::Opaque),
    {
        BlendState::Preset(BlendPreset::Opaque)
    }
}

#[derive(Clone, Copy, Debug, PartialEq, Eq, Structural)]
pub enum BlendPreset {
    /// Blending disabled; source replaces destination.
    Opaque,
    /// Conventional straight-alpha blending.
    Alpha,
    /// Premultiplied-alpha blending.
    PremultipliedAlpha,
    /// Add source to destination.
    Additive,
    /// Explicit replacement behavior.
    Replace,
}

impl Default for BlendPreset {
    fn default() -> (r: Self)
        ensures
            r == BlendPreset::Opaque,
    {
        BlendPreset::Opaque
    }
}

#[derive(Clone, Copy, Debug, PartialEq, Eq, Structural)]
pub struct CustomBlendState {
    pub color: BlendComponent,
    pub alpha: BlendComponent,
}

#[derive(Clone, Copy, Debug, PartialEq, Eq, Structural)]
pub struct BlendComponent {
    pub src_factor: BlendFactor,
    pub dst_factor: BlendFactor,
    pub operation: BlendOperation,
}

#[derive(Clone, Copy, Debug, PartialEq, Eq, Structural)]
pub enum BlendFactor {
    Zero,
    One,
    Src,
    OneMinusSrc,
    SrcAlpha,
    OneMinusSrcAlpha,
    Dst,
    OneMinusDst,
    DstAlpha,
    OneMinusDstAlpha,
    SrcAlphaSaturated,
    Constant,
    OneMinusConstant,
    Src1,
    OneMinusSrc1,
    Src1Alpha,
    OneMinusSrc1Alpha,
}

#[derive(Clone, Copy, Debug, PartialEq, Eq, Structural)]
pub enum BlendOperation {
    Add,
    Subtract,
    ReverseSubtract,
    Min,
    Max,
}

/// Channels a color target writes: all, none, or an explicit list.
#[derive(Clone, Debug)]
pub enum WriteMask {
    All,
    NoChannels,
    Channels(Vec<ColorChannel>),
}

impl Default for WriteMask {
    fn default() -> (r: Self)
        ensures
            r == WriteMask::All,
    {
        WriteMask::All
    }
}

#[derive(Clone, Copy, Debug, PartialEq, Eq, Structural)]
pub enum ColorChannel {
    Red,
    Green,
    Blue,
    Alpha,
}

/// How a write mask is written in a pipeline file: a preset name (`"All"` or
/// `"None"`) or a list of channels.
#[derive(Clone, Debug)]
pub enum WriteMaskRepr {
    Preset(String),
    Channels(Vec<ColorChannel>),
}

/// A write-mask preset name other than `"All"` and `"None"`.
#[derive(Clone, Debug)]
pub struct UnknownWriteMaskPreset {
    /// The name that was found.
    pub value: String,
}

/// The meaning of a write mask.
pub enum WriteMaskModel {
    All,
    NoChannels,
    Channels(Seq<ColorChannel>),
}

/// The meaning of a write mask as written in a pipeline file.
pub enum WriteMaskReprModel {
    Preset(Seq<char>),
    Channels(Seq<ColorChannel>),
}

impl View for WriteMask {
    type V = WriteMaskModel;

    open spec fn view(&self) -> WriteMaskModel {
        match self {
            WriteMask::All => WriteMaskModel::All,
            WriteMask::NoChannels => WriteMaskModel::NoChannels,
            WriteMask::Channels(channels) => WriteMaskModel::Channels(channels@),
        }
    }
}

impl View for WriteMaskRepr {
    type V = WriteMaskReprModel;

    open spec fn view(&self) -> WriteMaskReprModel {
        match self {
            WriteMaskRepr::Preset(name) => WriteMaskReprModel::Preset(name@),
            WriteMaskRepr::Channels(channels) => WriteMaskReprModel::Channels(channels@),
        }
    }
}

/// The write mask a pipeline-file entry stands for, if it stands for one.
pub open spec fn write_mask_of_repr(repr: WriteMaskReprModel) -> Option<WriteMaskModel> {
    match repr {
        WriteMaskReprModel::Preset(name) => if name == "All"@ {
            Some(WriteMaskModel::All)
        } else if name == "None"@ {
            Some(WriteMaskModel::NoChannels)
        } else {
            None
        },
        WriteMaskReprModel::Channels(channels) => Some(WriteMaskModel::Channels(channels)),
    }
}

/// `repr` is how the write mask `mask` is written to a pipeline file.
pub open spec fn is_repr_of_write_mask(repr: WriteMaskReprModel, mask: WriteMaskModel) -> bool {
    match (mask, repr) {
        (WriteMaskModel::All, WriteMaskReprModel::Preset(name)) => name == "All"@,
        (WriteMaskModel::NoChannels, WriteMaskReprModel::Preset(name)) => name == "None"@,
        (WriteMaskModel::Channels(channels), WriteMaskReprModel::Channels(listed)) => listed
            == channels,
        _ => false,
    }
}

impl WriteMask {
    /// Reads a write mask from its pipeline-file form. A preset must be `"All"`
    /// or `"None"`; any other name is refused.
    pub fn from_repr(repr: WriteMaskRepr) -> (r: Result<WriteMask, UnknownWriteMaskPreset>)
        ensures
            match r {
                Ok(mask) => write_mask_of_repr(repr@) == Some(mask@),
                Err(e) => {
                    &&& write_mask_of_repr(repr@) is None
                    &&& repr@ == WriteMaskReprModel::Preset(e.value@)
                },
            },
    {
        match repr {
            WriteMaskRepr::Preset(value) => {
                if str_equal(value.as_str(), "All") {
                    Ok(WriteMask::All)
                } else if str_equal(value.as_str(), "None") {
                    Ok(WriteMask::NoChannels)
                } else {
                    Err(UnknownWriteMaskPreset { value })
                }
            },
            WriteMaskRepr::Channels(channels) => Ok(WriteMask::Channels(channels)),
        }
    }

    /// The pipeline-file form of this write mask.
    pub fn to_repr(&self) -> (r: WriteMaskRepr)
        ensures
            is_repr_of_write_mask(r@, self@),
    {
        match self {
            WriteMask::All => WriteMaskRepr::Preset("All".to_owned()),
            WriteMask::NoChannels => WriteMaskRepr::Preset("None".to_owned()),
            WriteMask::Channels(channels) => {
                let listed = channels.clone();
                assert(listed@ == channels@);
                WriteMaskRepr::Channels(listed)
            },
        }
    }
}

/// Law: a write mask written to a pipeline file reads back as the same mask,
/// and a pipeline-file entry that reads as a mask is exactly how that mask is
/// written.
pub proof fn lemma_write_mask_round_trip(repr: WriteMaskReprModel, mask: WriteMaskModel)
    ensures
        is_repr_of_write_mask(repr, mask) <==> write_mask_of_repr(repr) == Some(mask),
{
    reveal_strlit("All");
    reveal_strlit("None");
    assert("All"@ != "None"@) by {
        assert("All"@[0] != "None"@[0]);
    }
}

// -----------------------------------------------------------------------------
// Primitive state
// -----------------------------------------------------------------------------

/// Primitive assembly and rasterization state.
#[derive(Clone, Copy, Debug, PartialEq, Eq, Structural)]
pub struct PrimitiveState {
    /// How vertices are assembled; `TriangleList` by default.
    pub topology: PrimitiveTopology,
    /// Required only for indexed strip primitives.
    pub strip_index_format: Option<IndexFormat>,
    /// Front-facing winding order; `Ccw` by default.
    pub front_face: FrontFace,
    /// Faces discarded before fragment shading; none by default.
    pub cull_mode: CullMode,
    /// Allow depth outside the normal clip range; off by default.
    pub unclipped_depth: bool,
    /// Polygon rasterization mode; `Fill` by default.
    pub polygon_mode: PolygonMode,
    /// Conservative rasterization; off by default.
    pub conservative: bool,
}

impl Default for PrimitiveState {
    fn default() -> (r: Self)
        ensures
            r == (PrimitiveState {
                topology: PrimitiveTopology::TriangleList,
                strip_index_format: None,
                front_face: FrontFace::Ccw,
                cull_mode: CullMode::NoCulling,
                unclipped_depth: false,
                polygon_mode: PolygonMode::Fill,
                conservative: false,
            }),
    {
        PrimitiveState {
            topology: PrimitiveTopology::default(),
            strip_index_format: None,
            front_face: FrontFace::default(),
            cull_mode: CullMode::default(),
            unclipped_depth: false,
            polygon_mode: PolygonMode::default(),
            conservative: false,
        }
    }
}

#[derive(Clone, Copy, Debug, PartialEq, Eq, Structural)]
pub enum PrimitiveTopology {
    PointList,
    LineList,
    LineStrip,
    TriangleList,
    TriangleStrip,
}

impl Default for PrimitiveTopology {
    fn default() -> (r: Self)
        ensures
            r == PrimitiveTopology::TriangleList,
    {
        PrimitiveTopology::TriangleList
    }
}

#[derive(Clone, Copy, Debug, PartialEq, Eq, Structural)]
pub enum IndexFormat {
    Uint16,
    Uint32,
}

#[derive(Clone, Copy, Debug, PartialEq, Eq, Structural)]
pub enum FrontFace {
    Ccw,
    Cw,
}

impl Default for FrontFace {
    fn default() -> (r: Self)
        ensures
            r == FrontFace::Ccw,
    {
        FrontFace::Ccw
    }
}

/// Which faces are culled; `NoCulling` is written `"None"` in pipeline files.
#[derive(Clone, Copy, Debug, PartialEq, Eq, Structural)]
pub enum CullMode {
    NoCulling,
    Front,
    Back,
}

impl Default for CullMode {
    fn default() -> (r: Self)
        ensures
            r == CullMode::NoCulling,
    {
        CullMode::NoCulling
    }
}

#[derive(Clone, Copy, Debug, PartialEq, Eq, Structural)]
pub enum PolygonMode {
    Fill,
    Line,
    Point,
}

impl Default for PolygonMode {
    fn default() -> (r: Self)
        ensures
            r == PolygonMode::Fill,
    {
        PolygonMode::Fill
    }
}

// -----------------------------------------------------------------------------
// Depth / stencil
// -----------------------------------------------------------------------------

/// Depth/stencil state of a pipeline that uses a depth/stencil attachment.
#[derive(Clone, Copy, Debug, PartialEq, Eq, Structural)]
pub struct DepthStencilState {
    /// Attachment format; `Depth32Float` by default.
    pub format: TextureFormat,
    /// Depth test; `None` disables depth testing.
    pub depth: Option<DepthState>,
    /// Stencil state.
    pub stencil: Option<StencilState>,
    /// Depth bias; zero when omitted.
    pub bias: DepthBiasState,
}

impl Default for DepthStencilState {
    fn default() -> (r: Self)
        ensures
            r == (DepthStencilState {
                format: TextureFormat::Depth32Float,
                depth: None,
                stencil: None,
                bias: DepthBiasState { constant: 0, slope_scale_bits: 0, clamp_bits: 0 },
            }),
    {
        DepthStencilState {
            format: TextureFormat::default(),
            depth: None,
            stencil: None,
            bias: DepthBiasState::default(),
        }
    }
}

#[derive(Clone, Copy, Debug, PartialEq, Eq, Structural)]
pub enum TextureFormat {
    Stencil8,
    Depth16Unorm,
    Depth24Plus,
    Depth24PlusStencil8,
    Depth32Float,
    Depth32FloatStencil8,
}

impl Default for TextureFormat {
    fn default() -> (r: Self)
        ensures
            r == TextureFormat::Depth32Float,
    {
        TextureFormat::Depth32Float
    }
}

/// Depth test.
#[derive(Clone, Copy, Debug, PartialEq, Eq, Structural)]
pub struct DepthState {
    /// Whether passing fragments update the depth buffer.
    pub write_enabled: bool,
    /// Depth comparison.
    pub compare: CompareFunction,
}

/// Depth writes are enabled unless the pipeline file says otherwise.
pub fn default_depth_write_enabled() -> (r: bool)
    ensures
        r,
{
    true
}

impl Default for DepthState {
    fn default() -> (r: Self)
        ensures
            r == (DepthState { write_enabled: true, compare: CompareFunction::LessEqual }),
    {
        DepthState { write_enabled: true, compare: CompareFunction::default() }
    }
}

#[derive(Clone, Copy, Debug, PartialEq, Eq, Structural)]
pub enum CompareFunction {
    Never,
    Less,
    Equal,
    LessEqual,
    Greater,
    NotEqual,
    GreaterEqual,
    Always,
}

impl Default for CompareFunction {
    fn default() -> (r: Self)
        ensures
            r == CompareFunction::LessEqual,
    {
        CompareFunction::LessEqual
    }
}

// -----------------------------------------------------------------------------
// Stencil
// -----------------------------------------------------------------------------

/// Stencil state.
#[derive(Clone, Copy, Debug, PartialEq, Eq, Structural)]
pub struct StencilState {
    /// State for front-facing primitives.
    pub front: StencilFaceState,
    /// State for back-facing primitives.
    pub back: StencilFaceState,
    /// Bits read by stencil operations.
    pub read_mask: u32,
    /// Bits written by stencil operations.
    pub write_mask: u32,
}

/// Stencil masks cover the low eight bits unless the pipeline file says otherwise.
pub fn default_stencil_mask() -> (r: u32)
    ensures
        r == 0xFF,
{
    0xFF
}

impl Default for StencilState {
    fn default() -> (r: Self)
        ensures
            r.front == StencilFaceState::spec_default(),
            r.back == StencilFaceState::spec_default(),
            r.read_mask == 0xFF,
            r.write_mask == 0xFF,
    {
        StencilState {
            front: StencilFaceState::default(),
            back: StencilFaceState::default(),
            read_mask: 0xFF,
            write_mask: 0xFF,
        }
    }
}

/// Stencil operations for one face.
#[derive(Clone, Copy, Debug, PartialEq, Eq, Structural)]
pub struct StencilFaceState {
    pub compare: CompareFunction,
    pub fail_op: StencilOperation,
    pub depth_fail_op: StencilOperation,
    pub pass_op: StencilOperation,
}

impl StencilFaceState {
    /// The face state used when none is given: always pass, keep the stencil value.
    pub open spec fn spec_default() -> Self {
        StencilFaceState {
            compare: CompareFunction::Always,
            fail_op: StencilOperation::Keep,
            depth_fail_op: StencilOperation::Keep,
            pass_op: StencilOperation::Keep,
        }
    }
}

impl Default for StencilFaceState {
    fn default() -> (r: Self)
        ensures
            r == StencilFaceState::spec_default(),
    {
        StencilFaceState {
            compare: CompareFunction::Always,
            fail_op: StencilOperation::Keep,
            depth_fail_op: StencilOperation::Keep,
            pass_op: StencilOperation::Keep,
        }
    }
}

#[derive(Clone, Copy, Debug, PartialEq, Eq, Structural)]
pub enum StencilOperation {
    Keep,
    Zero,
    Replace,
    Invert,
    IncrementClamp,
    DecrementClamp,
    IncrementWrap,
    DecrementWrap,
}

impl Default for StencilOperation {
    fn default() -> (r: Self)
        ensures
            r == StencilOperation::Keep,
    {
        StencilOperation::Keep
    }
}

// -----------------------------------------------------------------------------
// Depth bias
// -----------------------------------------------------------------------------

/// Depth bias. The two `f32` factors are held as their IEEE-754 bit patterns.
#[derive(Clone, Copy, Debug, PartialEq, Eq, Structural)]
pub struct DepthBiasState {
    /// Constant depth bias.
    pub constant: i32,
    /// Bit pattern of the slope-scaled depth bias.
    pub slope_scale_bits: u32,
    /// Bit pattern of the maximum absolute depth bias.
    pub clamp_bits: u32,
}

impl Default for DepthBiasState {
    /// Zero bias: `0.0` has the all-zero bit pattern.
    fn default() -> (r: Self)
        ensures
            r == (DepthBiasState { constant: 0, slope_scale_bits: 0, clamp_bits: 0 }),
    {
        DepthBiasState { constant: 0, slope_scale_bits: 0, clamp_bits: 0 }
    }
}

// -----------------------------------------------------------------------------
// Multisampling
// -----------------------------------------------------------------------------

/// Multisampling state.
#[derive(Clone, Copy, Debug, PartialEq, Eq, Structural)]
pub struct MultisampleState {
    /// Number of samples per pixel; one by default.
    pub count: u32,
    /// Sample coverage mask; all samples by default.
    pub mask: u64,
    /// Alpha-to-coverage; off by default.
    pub alpha_to_coverage_enabled: bool,
}

/// One sample per pixel unless the pipeline file says otherwise.
pub fn default_sample_count() -> (r: u32)
    ensures
        r == 1,
{
    1
}

/// Every sample enabled unless the pipeline file says otherwise.
pub fn default_sample_mask() -> (r: u64)
    ensures
        r == u64::MAX,
{
    u64::MAX
}

impl Default for MultisampleState {
    fn default() -> (r: Self)
        ensures
            r == (MultisampleState { count: 1, mask: u64::MAX, alpha_to_coverage_enabled: false }),
    {
        MultisampleState { count: 1, mask: u64::MAX, alpha_to_coverage_enabled: false }
    }
}

} // verus!
