//! The canonical model: one shape for every source format.
//!
//! Every scalar that a source file stores as a 32-bit IEEE-754 number is carried
//! here as its bit pattern in a `u32`. The library moves such numbers from the
//! source into the model and never computes with them, so the bit pattern is the
//! whole of what it needs, and equality of patterns is plain integer equality.

use vstd::prelude::*;
use vstd::slice::slice_to_vec;

verus! {

/// The bit pattern of the binary32 number one.
pub const ONE_BITS: u32 = 0x3F80_0000;

/// The bit pattern of the binary32 number zero.
pub const ZERO_BITS: u32 = 0;

/// The file format a model was read from.
#[derive(Clone, Copy, Debug, PartialEq, Eq, Structural)]
pub enum ModelFormat {
    /// Wavefront polygon list, `.obj`, with its companion material file.
    OBJ,
    /// glTF 2.0 scene, `.gltf` or `.glb`.
    GLTF,
    /// Triangle soup, `.stl`.
    STL,
    /// Point and face list, `.ply`.
    PLY,
}

/// Why a load ended without a model.
#[derive(Debug, PartialEq, Eq)]
pub enum ModelError {
    /// The extension is absent or names no supported format.
    UnknownFormat,
    /// The path names no file.
    FileNotExists,
    /// The file exists but could not be opened or read; holds the system's message.
    OpenFile(String),
    /// The geometry or document could not be parsed; holds the parser's message.
    ModelParsing(String),
    /// A material or its texture could not be resolved.
    MaterialLoad(String),
}

/// `ModelError` with each message as a sequence of characters.
pub enum ErrorView {
    UnknownFormat,
    FileNotExists,
    OpenFile(Seq<char>),
    ModelParsing(Seq<char>),
    MaterialLoad(Seq<char>),
}

impl View for ModelError {
    type V = ErrorView;

    open spec fn view(&self) -> ErrorView {
        match *self {
            ModelError::UnknownFormat => ErrorView::UnknownFormat,
            ModelError::FileNotExists => ErrorView::FileNotExists,
            ModelError::OpenFile(m) => ErrorView::OpenFile(m@),
            ModelError::ModelParsing(m) => ErrorView::ModelParsing(m@),
            ModelError::MaterialLoad(m) => ErrorView::MaterialLoad(m@),
        }
    }
}

/// Magnification filter of a sampler.
#[derive(Clone, Copy, Debug, PartialEq, Eq, Structural)]
pub enum MagFilter {
    Nearest,
    Linear,
}

/// Minification filter of a sampler; unlike magnification it has mipmap variants.
#[derive(Clone, Copy, Debug, PartialEq, Eq, Structural)]
pub enum MinFilter {
    Nearest,
    Linear,
    NearestMipmapNearest,
    LinearMipmapNearest,
    NearestMipmapLinear,
    LinearMipmapLinear,
}

/// How texture coordinates outside the unit square are treated.
#[derive(Clone, Copy, Debug, PartialEq, Eq, Structural)]
pub enum WrappingMode {
    ClampToEdge,
    MirroredRepeat,
    Repeat,
}

impl Default for WrappingMode {
    fn default() -> (r: WrappingMode)
        ensures
            r == WrappingMode::Repeat,
    {
        WrappingMode::Repeat
    }
}

/// How the alpha value of a material is interpreted.
#[derive(Clone, Copy, Debug, PartialEq, Eq, Structural)]
pub enum AlphaMode {
    /// Alpha is ignored; the output is fully opaque.
    Opaque,
    /// The output is opaque or transparent, decided against the alpha cutoff.
    Mask,
    /// Alpha blends the output with the background.
    Blend,
}

/// The primitive topology a mesh is drawn with.
#[derive(Clone, Copy, Debug, PartialEq, Eq, Structural)]
pub enum RenderMode {
    Points,
    Lines,
    LineLoop,
    LineStrip,
    Triangles,
    TriangleStrip,
    TriangleFan,
}

/// One vertex. An attribute is `None` exactly when the source has none for the
/// mesh; it is never a zero vector standing in for a missing one.
#[derive(Clone, Copy, Debug, PartialEq, Eq)]
pub struct Vertex {
    pub position: [u32; 3],
    /// Red, green, blue, alpha.
    pub color: Option<[u32; 4]>,
    pub tex_coord: Option<[u32; 2]>,
    pub normal: Option<[u32; 3]>,
}

/// An index buffer, in the width the source stored it in.
#[derive(Debug, PartialEq, Eq)]
pub enum Indices {
    U8(Vec<u8>),
    U16(Vec<u16>),
    U32(Vec<u32>),
}

/// `Indices` as a sequence per width.
pub enum IndicesView {
    U8(Seq<u8>),
    U16(Seq<u16>),
    U32(Seq<u32>),
}

impl IndicesView {
    /// How many indices the buffer holds.
    pub open spec fn len(self) -> nat {
        match self {
            IndicesView::U8(s) => s.len(),
            IndicesView::U16(s) => s.len(),
            IndicesView::U32(s) => s.len(),
        }
    }

    /// The index at position `i`, whatever its width.
    pub open spec fn at(self, i: int) -> int {
        match self {
            IndicesView::U8(s) => s[i] as int,
            IndicesView::U16(s) => s[i] as int,
            IndicesView::U32(s) => s[i] as int,
        }
    }

    /// Every index refers to one of `n` vertices.
    pub open spec fn below(self, n: nat) -> bool {
        forall|i: int| 0 <= i < self.len() ==> #[trigger] self.at(i) < n
    }
}

impl View for Indices {
    type V = IndicesView;

    open spec fn view(&self) -> IndicesView {
        match *self {
            Indices::U8(v) => IndicesView::U8(v@),
            Indices::U16(v) => IndicesView::U16(v@),
            Indices::U32(v) => IndicesView::U32(v@),
        }
    }
}

impl Clone for Indices {
    /// A copy of the buffer, in the same width.
    fn clone(&self) -> (r: Indices)
        ensures
            r@ == self@,
    {
        match self {
            Indices::U8(v) => Indices::U8(slice_to_vec(v.as_slice())),
            Indices::U16(v) => Indices::U16(slice_to_vec(v.as_slice())),
            Indices::U32(v) => Indices::U32(slice_to_vec(v.as_slice())),
        }
    }
}

impl Indices {
    /// Tells whether every index refers to one of `n` vertices.
    pub fn in_bounds(&self, n: usize) -> (r: bool)
        ensures
            r == self@.below(n as nat),
    {
        match self {
            Indices::U8(v) => {
                let mut i: usize = 0;
                while i < v.len()
                    invariant
                        i <= v.len(),
                        self@ == IndicesView::U8(v@),
                        forall|j: int| 0 <= j < i ==> (#[trigger] v@[j]) < n,
                    decreases v.len() - i,
                {
                    if v[i] as usize >= n {
                        assert(!(self@.at(i as int) < n));
                        return false;
                    }
                    i += 1;
                }
                assert forall|j: int| 0 <= j < self@.len() implies #[trigger] self@.at(j) < n by {
                    assert(v@[j] < n);
                }
                true
            },
            Indices::U16(v) => {
                let mut i: usize = 0;
                while i < v.len()
                    invariant
                        i <= v.len(),
                        self@ == IndicesView::U16(v@),
                        forall|j: int| 0 <= j < i ==> (#[trigger] v@[j]) < n,
                    decreases v.len() - i,
                {
                    if v[i] as usize >= n {
                        assert(!(self@.at(i as int) < n));
                        return false;
                    }
                    i += 1;
                }
                assert forall|j: int| 0 <= j < self@.len() implies #[trigger] self@.at(j) < n by {
                    assert(v@[j] < n);
                }
                true
            },
            Indices::U32(v) => {
                let mut i: usize = 0;
                while i < v.len()
                    invariant
                        i <= v.len(),
                        self@ == IndicesView::U32(v@),
                        forall|j: int| 0 <= j < i ==> (#[trigger] v@[j]) < n,
                    decreases v.len() - i,
                {
                    if v[i] as u64 >= n as u64 {
                        assert(!(self@.at(i as int) < n));
                        return false;
                    }
                    i += 1;
                }
                assert forall|j: int| 0 <= j < self@.len() implies #[trigger] self@.at(j) < n by {
                    assert(v@[j] < n);
                }
                true
            },
        }
    }
}

/// The view of an optional name or other optional text.
pub open spec fn text_view(t: Option<String>) -> Option<Seq<char>> {
    match t {
        Some(s) => Some(s@),
        None => None,
    }
}

/// Filtering and wrapping applied when a texture is read.
#[derive(Debug)]
pub struct Sampler {
    pub mag_filter: Option<MagFilter>,
    pub min_filter: Option<MinFilter>,
    pub wrap_s: WrappingMode,
    pub wrap_t: WrappingMode,
    pub name: Option<String>,
}

/// `Sampler` with its name as a sequence of characters.
pub struct SamplerView {
    pub mag_filter: Option<MagFilter>,
    pub min_filter: Option<MinFilter>,
    pub wrap_s: WrappingMode,
    pub wrap_t: WrappingMode,
    pub name: Option<Seq<char>>,
}

impl SamplerView {
    /// The sampler of a texture whose source says nothing about sampling:
    /// no filters, both axes repeating, no name.
    pub open spec fn plain() -> SamplerView {
        SamplerView {
            mag_filter: None,
            min_filter: None,
            wrap_s: WrappingMode::Repeat,
            wrap_t: WrappingMode::Repeat,
            name: None,
        }
    }
}

impl View for Sampler {
    type V = SamplerView;

    open spec fn view(&self) -> SamplerView {
        SamplerView {
            mag_filter: self.mag_filter,
            min_filter: self.min_filter,
            wrap_s: self.wrap_s,
            wrap_t: self.wrap_t,
            name: text_view(self.name),
        }
    }
}

impl Default for Sampler {
    fn default() -> (r: Sampler)
        ensures
            r@ == SamplerView::plain(),
    {
        Sampler {
            mag_filter: None,
            min_filter: None,
            wrap_s: WrappingMode::Repeat,
            wrap_t: WrappingMode::Repeat,
            name: None,
        }
    }
}

/// Where the encoded image of a texture is. The image is never decoded here.
#[derive(Debug)]
pub enum Image {
    /// The encoded bytes, held in memory.
    Memory { data: Vec<u8>, mime_type: Option<String> },
    /// A file that holds the encoded bytes; it is not opened by the loader.
    Path { path: String, mime_type: Option<String> },
}

/// `Image` over sequences.
pub enum ImageView {
    Memory { data: Seq<u8>, mime_type: Option<Seq<char>> },
    Path { path: Seq<char>, mime_type: Option<Seq<char>> },
}

impl View for Image {
    type V = ImageView;

    open spec fn view(&self) -> ImageView {
        match *self {
            Image::Memory { data, mime_type } => ImageView::Memory {
                data: data@,
                mime_type: text_view(mime_type),
            },
            Image::Path { path, mime_type } => ImageView::Path {
                path: path@,
                mime_type: text_view(mime_type),
            },
        }
    }
}

/// An image with the sampler it is read through.
#[derive(Debug)]
pub struct Texture {
    pub image: Image,
    pub sampler: Sampler,
    pub name: Option<String>,
}

/// `Texture` over views.
pub struct TextureView {
    pub image: ImageView,
    pub sampler: SamplerView,
    pub name: Option<Seq<char>>,
}

impl View for Texture {
    type V = TextureView;

    open spec fn view(&self) -> TextureView {
        TextureView { image: self.image@, sampler: self.sampler@, name: text_view(self.name) }
    }
}

/// Surface properties shared by the meshes that refer to it.
#[derive(Debug)]
pub struct Material {
    pub diffuse_texture: Option<Texture>,
    pub alpha_mode: AlphaMode,
    /// Meaningful under `AlphaMode::Mask` only.
    pub alpha_cutoff: Option<u32>,
    /// When set, back faces are drawn too.
    pub double_sided: bool,
    /// Red, green, blue, alpha; multiplies the diffuse texture.
    pub base_color: Option<[u32; 4]>,
    pub name: Option<String>,
}

/// `Material` over views.
pub struct MaterialView {
    pub diffuse_texture: Option<TextureView>,
    pub alpha_mode: AlphaMode,
    pub alpha_cutoff: Option<u32>,
    pub double_sided: bool,
    pub base_color: Option<[u32; 4]>,
    pub name: Option<Seq<char>>,
}

impl View for Material {
    type V = MaterialView;

    open spec fn view(&self) -> MaterialView {
        MaterialView {
            diffuse_texture: match self.diffuse_texture {
                Some(t) => Some(t@),
                None => None,
            },
            alpha_mode: self.alpha_mode,
            alpha_cutoff: self.alpha_cutoff,
            double_sided: self.double_sided,
            base_color: self.base_color,
            name: text_view(self.name),
        }
    }
}

/// Vertices drawn together with one material.
#[derive(Debug)]
pub struct Mesh {
    pub vertices: Vec<Vertex>,
    /// Absent when the vertices are already laid out in drawing order.
    pub indices: Option<Indices>,
    pub mode: RenderMode,
    /// A position in the materials of the model that owns the mesh; `None` means
    /// no material, not the first one.
    pub material_index: Option<usize>,
    pub name: Option<String>,
}

/// `Mesh` over views.
pub struct MeshView {
    pub vertices: Seq<Vertex>,
    pub indices: Option<IndicesView>,
    pub mode: RenderMode,
    pub material_index: Option<usize>,
    pub name: Option<Seq<char>>,
}

impl MeshView {
    /// Every index of the index buffer, if there is one, refers to a vertex of
    /// this mesh.
    pub open spec fn indices_in_bounds(self) -> bool {
        self.indices matches Some(ix) ==> ix.below(self.vertices.len())
    }

    /// The material index, if there is one, refers to one of `n` materials.
    pub open spec fn material_below(self, n: nat) -> bool {
        self.material_index matches Some(m) ==> m < n
    }
}

impl View for Mesh {
    type V = MeshView;

    open spec fn view(&self) -> MeshView {
        MeshView {
            vertices: self.vertices@,
            indices: match self.indices {
                Some(ix) => Some(ix@),
                None => None,
            },
            mode: self.mode,
            material_index: self.material_index,
            name: text_view(self.name),
        }
    }
}

/// A loaded model: its meshes, the materials they refer to by position, and the
/// format it came from.
#[derive(Debug)]
pub struct Model3D {
    pub meshes: Vec<Mesh>,
    /// Empty for formats that have no materials.
    pub materials: Vec<Material>,
    pub format: ModelFormat,
}

/// `Model3D` over views.
pub struct ModelView {
    pub meshes: Seq<MeshView>,
    pub materials: Seq<MaterialView>,
    pub format: ModelFormat,
}

impl ModelView {
    /// What every loaded model satisfies: index buffers stay inside their mesh's
    /// vertices, and material indices inside the model's materials.
    pub open spec fn wf(self) -> bool {
        forall|i: int|
            0 <= i < self.meshes.len() ==> {
                &&& (#[trigger] self.meshes[i]).indices_in_bounds()
                &&& self.meshes[i].material_below(self.materials.len())
            }
    }
}

/// The views of a list of meshes, in order.
pub open spec fn mesh_views(meshes: Seq<Mesh>) -> Seq<MeshView> {
    Seq::new(meshes.len(), |i: int| meshes[i]@)
}

/// The views of a list of materials, in order.
pub open spec fn material_views(materials: Seq<Material>) -> Seq<MaterialView> {
    Seq::new(materials.len(), |i: int| materials[i]@)
}

impl View for Model3D {
    type V = ModelView;

    open spec fn view(&self) -> ModelView {
        ModelView {
            meshes: mesh_views(self.meshes@),
            materials: material_views(self.materials@),
            format: self.format,
        }
    }
}

/// A result with its error seen through its view.
pub open spec fn seen<T>(r: Result<T, ModelError>) -> Result<T, ErrorView> {
    match r {
        Ok(t) => Ok(t),
        Err(e) => Err(e@),
    }
}

/// A loaded model, or the error, through their views.
pub open spec fn loaded(r: Result<Model3D, ModelError>) -> Result<ModelView, ErrorView> {
    match r {
        Ok(m) => Ok(m@),
        Err(e) => Err(e@),
    }
}

} // verus!
