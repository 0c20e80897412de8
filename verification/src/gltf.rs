//! The scene adapter: the materials and the flat list of mesh primitives of a
//! glTF document become materials and meshes of the model. The node hierarchy is
//! not walked.
//!
//! The adapter works on the document as plain values: what a reader of the
//! container found for each material and each primitive, with every buffer the
//! document refers to already in memory.

use vstd::prelude::*;
use vstd::slice::{slice_subrange, slice_to_vec};
use crate::model::{
    loaded, material_views, mesh_views, text_view, AlphaMode, ErrorView, Image, ImageView,
    Indices, IndicesView, MagFilter, Material, MaterialView, Mesh, MeshView, MinFilter, Model3D,
    ModelError, ModelFormat, ModelView, RenderMode, Sampler, SamplerView, Texture, TextureView,
    Vertex, WrappingMode,
};
use crate::path::{join, model_dir, model_dir_of, path_join};

verus! {

/// Magnification filter as the document declares it.
#[derive(Clone, Copy, Debug, PartialEq, Eq, Structural)]
pub enum SourceMagFilter {
    Nearest,
    Linear,
}

/// Minification filter as the document declares it.
#[derive(Clone, Copy, Debug, PartialEq, Eq, Structural)]
pub enum SourceMinFilter {
    Nearest,
    Linear,
    NearestMipmapNearest,
    LinearMipmapNearest,
    NearestMipmapLinear,
    LinearMipmapLinear,
}

/// Wrapping mode as the document declares it.
#[derive(Clone, Copy, Debug, PartialEq, Eq, Structural)]
pub enum SourceWrappingMode {
    ClampToEdge,
    MirroredRepeat,
    Repeat,
}

/// Alpha mode as the document declares it.
#[derive(Clone, Copy, Debug, PartialEq, Eq, Structural)]
pub enum SourceAlphaMode {
    Opaque,
    Mask,
    Blend,
}

/// Primitive mode as the document declares it.
#[derive(Clone, Copy, Debug, PartialEq, Eq, Structural)]
pub enum SourceMode {
    Points,
    Lines,
    LineLoop,
    LineStrip,
    Triangles,
    TriangleStrip,
    TriangleFan,
}

/// A sampler of the document.
#[derive(Debug)]
pub struct SourceSampler {
    pub mag_filter: Option<SourceMagFilter>,
    pub min_filter: Option<SourceMinFilter>,
    pub wrap_s: SourceWrappingMode,
    pub wrap_t: SourceWrappingMode,
    pub name: Option<String>,
}

/// Where the document says the encoded image of a texture is.
#[derive(Debug)]
#[allow(inconsistent_fields)]
pub enum SourceImage {
    /// `length` bytes from byte `offset` of buffer number `buffer`.
    View { buffer: usize, offset: usize, length: usize, mime_type: String },
    /// A file, named relative to the directory of the model file.
    Uri { uri: String, mime_type: Option<String> },
}

/// A texture of the document.
#[derive(Debug)]
pub struct SourceTexture {
    pub image: SourceImage,
    pub sampler: SourceSampler,
    pub name: Option<String>,
}

/// A material of the document.
#[derive(Debug)]
pub struct SourceMaterial {
    pub base_color_texture: Option<SourceTexture>,
    /// Red, green, blue, alpha.
    pub base_color_factor: [u32; 4],
    pub alpha_mode: SourceAlphaMode,
    pub alpha_cutoff: Option<u32>,
    pub double_sided: bool,
    pub name: Option<String>,
}

/// The magnification filter that stands for a declared one.
pub open spec fn mag_filter_of(filter: SourceMagFilter) -> MagFilter {
    match filter {
        SourceMagFilter::Nearest => MagFilter::Nearest,
        SourceMagFilter::Linear => MagFilter::Linear,
    }
}

/// The minification filter that stands for a declared one.
pub open spec fn min_filter_of(filter: SourceMinFilter) -> MinFilter {
    match filter {
        SourceMinFilter::Nearest => MinFilter::Nearest,
        SourceMinFilter::Linear => MinFilter::Linear,
        SourceMinFilter::NearestMipmapNearest => MinFilter::NearestMipmapNearest,
        SourceMinFilter::LinearMipmapNearest => MinFilter::LinearMipmapNearest,
        SourceMinFilter::NearestMipmapLinear => MinFilter::NearestMipmapLinear,
        SourceMinFilter::LinearMipmapLinear => MinFilter::LinearMipmapLinear,
    }
}

/// The wrapping mode that stands for a declared one.
pub open spec fn wrapping_mode_of(mode: SourceWrappingMode) -> WrappingMode {
    match mode {
        SourceWrappingMode::ClampToEdge => WrappingMode::ClampToEdge,
        SourceWrappingMode::MirroredRepeat => WrappingMode::MirroredRepeat,
        SourceWrappingMode::Repeat => WrappingMode::Repeat,
    }
}

/// The alpha mode that stands for a declared one.
pub open spec fn alpha_mode_of(mode: SourceAlphaMode) -> AlphaMode {
    match mode {
        SourceAlphaMode::Opaque => AlphaMode::Opaque,
        SourceAlphaMode::Mask => AlphaMode::Mask,
        SourceAlphaMode::Blend => AlphaMode::Blend,
    }
}

/// The topology that stands for a declared primitive mode.
pub open spec fn render_mode_of(mode: SourceMode) -> RenderMode {
    match mode {
        SourceMode::Points => RenderMode::Points,
        SourceMode::Lines => RenderMode::Lines,
        SourceMode::LineLoop => RenderMode::LineLoop,
        SourceMode::LineStrip => RenderMode::LineStrip,
        SourceMode::Triangles => RenderMode::Triangles,
        SourceMode::TriangleStrip => RenderMode::TriangleStrip,
        SourceMode::TriangleFan => RenderMode::TriangleFan,
    }
}

/// The sampler that stands for a declared one: each field converted by itself,
/// nothing filled in.
pub open spec fn sampler_of(sampler: SourceSampler) -> SamplerView {
    SamplerView {
        mag_filter: match sampler.mag_filter {
            Some(f) => Some(mag_filter_of(f)),
            None => None,
        },
        min_filter: match sampler.min_filter {
            Some(f) => Some(min_filter_of(f)),
            None => None,
        },
        wrap_s: wrapping_mode_of(sampler.wrap_s),
        wrap_t: wrapping_mode_of(sampler.wrap_t),
        name: text_view(sampler.name),
    }
}

/// The message of the error for an image that lies outside the buffers.
pub open spec fn image_outside_text() -> Seq<char> {
    "an image lies outside the buffers of the document"@
}

/// The image that stands for a declared one. Bytes embedded in a buffer are
/// sliced out by offset and length and kept with their MIME type; where the
/// buffer is missing or too short, the material cannot be loaded. A URI becomes
/// a path below the model's directory and is not opened.
pub open spec fn image_of(dir: Seq<char>, image: SourceImage, buffers: Seq<Vec<u8>>) -> Result<
    ImageView,
    ErrorView,
> {
    match image {
        SourceImage::View { buffer, offset, length, mime_type } => {
            if buffer < buffers.len() && offset + length <= buffers[buffer as int]@.len() {
                Ok(
                    ImageView::Memory {
                        data: buffers[buffer as int]@.subrange(offset as int, offset + length),
                        mime_type: Some(mime_type@),
                    },
                )
            } else {
                Err(ErrorView::MaterialLoad(image_outside_text()))
            }
        },
        SourceImage::Uri { uri, mime_type } => Ok(
            ImageView::Path { path: path_join(dir, uri@), mime_type: text_view(mime_type) },
        ),
    }
}

/// The texture that stands for a declared one.
pub open spec fn texture_of(dir: Seq<char>, texture: SourceTexture, buffers: Seq<Vec<u8>>) -> Result<
    TextureView,
    ErrorView,
> {
    match image_of(dir, texture.image, buffers) {
        Ok(image) => Ok(
            TextureView {
                image,
                sampler: sampler_of(texture.sampler),
                name: text_view(texture.name),
            },
        ),
        Err(e) => Err(e),
    }
}

/// The material that stands for a declared one. The base colour is always
/// present, the alpha cutoff only where the document gives one.
pub open spec fn material_of(dir: Seq<char>, material: SourceMaterial, buffers: Seq<Vec<u8>>) -> Result<
    MaterialView,
    ErrorView,
> {
    let rest = |diffuse_texture: Option<TextureView>|
        MaterialView {
            diffuse_texture,
            alpha_mode: alpha_mode_of(material.alpha_mode),
            alpha_cutoff: material.alpha_cutoff,
            double_sided: material.double_sided,
            base_color: Some(material.base_color_factor),
            name: text_view(material.name),
        };
    match material.base_color_texture {
        Some(texture) => match texture_of(dir, texture, buffers) {
            Ok(t) => Ok(rest(Some(t))),
            Err(e) => Err(e),
        },
        None => Ok(rest(None)),
    }
}

/// A loaded material, or the error, through their views.
pub open spec fn material_loaded(r: Result<Material, ModelError>) -> Result<
    MaterialView,
    ErrorView,
> {
    match r {
        Ok(m) => Ok(m@),
        Err(e) => Err(e@),
    }
}

/// A copy of an optional text.
pub fn copy_text(text: &Option<String>) -> (r: Option<String>)
    ensures
        text_view(r) == text_view(*text),
{
    match text {
        Some(s) => Some(s.clone()),
        None => None,
    }
}

/// Converts a declared alpha mode.
pub fn convert_alpha_mode(mode: SourceAlphaMode) -> (r: AlphaMode)
    ensures
        r == alpha_mode_of(mode),
{
    match mode {
        SourceAlphaMode::Opaque => AlphaMode::Opaque,
        SourceAlphaMode::Mask => AlphaMode::Mask,
        SourceAlphaMode::Blend => AlphaMode::Blend,
    }
}

/// Converts a declared wrapping mode.
pub fn convert_wrapping_mode(mode: SourceWrappingMode) -> (r: WrappingMode)
    ensures
        r == wrapping_mode_of(mode),
{
    match mode {
        SourceWrappingMode::ClampToEdge => WrappingMode::ClampToEdge,
        SourceWrappingMode::MirroredRepeat => WrappingMode::MirroredRepeat,
        SourceWrappingMode::Repeat => WrappingMode::Repeat,
    }
}

/// Converts a declared primitive mode.
pub fn convert_mode(mode: SourceMode) -> (r: RenderMode)
    ensures
        r == render_mode_of(mode),
{
    match mode {
        SourceMode::Points => RenderMode::Points,
        SourceMode::Lines => RenderMode::Lines,
        SourceMode::LineLoop => RenderMode::LineLoop,
        SourceMode::LineStrip => RenderMode::LineStrip,
        SourceMode::Triangles => RenderMode::Triangles,
        SourceMode::TriangleStrip => RenderMode::TriangleStrip,
        SourceMode::TriangleFan => RenderMode::TriangleFan,
    }
}

/// Converts a declared sampler field by field.
pub fn convert_sampler(sampler: &SourceSampler) -> (r: Sampler)
    ensures
        r@ == sampler_of(*sampler),
{
    let mag_filter = match sampler.mag_filter {
        Some(SourceMagFilter::Nearest) => Some(MagFilter::Nearest),
        Some(SourceMagFilter::Linear) => Some(MagFilter::Linear),
        None => None,
    };
    let min_filter = match sampler.min_filter {
        Some(SourceMinFilter::Nearest) => Some(MinFilter::Nearest),
        Some(SourceMinFilter::Linear) => Some(MinFilter::Linear),
        Some(SourceMinFilter::NearestMipmapNearest) => Some(MinFilter::NearestMipmapNearest),
        Some(SourceMinFilter::LinearMipmapNearest) => Some(MinFilter::LinearMipmapNearest),
        Some(SourceMinFilter::NearestMipmapLinear) => Some(MinFilter::NearestMipmapLinear),
        Some(SourceMinFilter::LinearMipmapLinear) => Some(MinFilter::LinearMipmapLinear),
        None => None,
    };
    let wrap_s = convert_wrapping_mode(sampler.wrap_s);
    let wrap_t = convert_wrapping_mode(sampler.wrap_t);
    Sampler { mag_filter, min_filter, wrap_s, wrap_t, name: copy_text(&sampler.name) }
}

/// Resolves the image of a texture against the buffers and the model's directory.
fn load_image(model_dir: &str, image: &SourceImage, buffer_data: &Vec<Vec<u8>>) -> (r: Result<
    Image,
    ModelError,
>)
    ensures
        match r {
            Ok(i) => image_of(model_dir@, *image, buffer_data@) == Ok::<ImageView, ErrorView>(i@),
            Err(e) => image_of(model_dir@, *image, buffer_data@) == Err::<ImageView, ErrorView>(
                e@,
            ),
        },
{
    match image {
        SourceImage::View { buffer, offset, length, mime_type } => {
            if *buffer < buffer_data.len() {
                let parent = &buffer_data[*buffer];
                if *length <= parent.len() && *offset <= parent.len() - *length {
                    let begin = *offset;
                    let end = begin + *length;
                    let encoded = slice_to_vec(slice_subrange(parent.as_slice(), begin, end));
                    return Ok(Image::Memory { data: encoded, mime_type: Some(mime_type.clone()) });
                }
            }
            Err(
                ModelError::MaterialLoad(
                    "an image lies outside the buffers of the document".to_owned(),
                ),
            )
        },
        SourceImage::Uri { uri, mime_type } => Ok(
            Image::Path { path: join(model_dir, uri.as_str()), mime_type: copy_text(mime_type) },
        ),
    }
}

/// Loads one material of the document. `model_dir` is the directory of the model
/// file and `buffer_data` holds the document's buffers in their order. The
/// material fails to load, with `MaterialLoad`, exactly where its texture's image
/// is embedded and lies outside the buffers.
pub fn load_material(
    model_dir: &str,
    material: &SourceMaterial,
    buffer_data: &Vec<Vec<u8>>,
) -> (r: Result<Material, ModelError>)
    ensures
        material_loaded(r) == material_of(model_dir@, *material, buffer_data@),
{
    let diffuse_texture = match &material.base_color_texture {
        Some(texture) => {
            match load_image(model_dir, &texture.image, buffer_data) {
                Ok(image) => Some(
                    Texture {
                        image,
                        sampler: convert_sampler(&texture.sampler),
                        name: copy_text(&texture.name),
                    },
                ),
                Err(e) => {
                    return Err(e);
                },
            }
        },
        None => None,
    };
    let alpha_mode = convert_alpha_mode(material.alpha_mode);
    Ok(
        Material {
            diffuse_texture,
            alpha_mode,
            alpha_cutoff: material.alpha_cutoff,
            double_sided: material.double_sided,
            base_color: Some(material.base_color_factor),
            name: copy_text(&material.name),
        },
    )
}

/// One primitive of a mesh: its attribute streams as the document's accessors
/// give them, each absent where the primitive has none.
#[derive(Debug)]
pub struct SourcePrimitive {
    pub positions: Option<Vec<[u32; 3]>>,
    pub normals: Option<Vec<[u32; 3]>>,
    /// The first colour set, as red, green, blue, alpha.
    pub colors: Option<Vec<[u32; 4]>>,
    /// The first set of texture coordinates.
    pub tex_coords: Option<Vec<[u32; 2]>>,
    /// The index buffer, in the width the document declares.
    pub indices: Option<Indices>,
    pub mode: SourceMode,
    /// The position of the primitive's material in the document.
    pub material: Option<usize>,
}

/// A mesh of the document.
#[derive(Debug)]
pub struct SourceMesh {
    pub name: Option<String>,
    pub primitives: Vec<SourcePrimitive>,
}

/// What the adapter reads of a document.
#[derive(Debug)]
pub struct Document {
    pub materials: Vec<SourceMaterial>,
    pub meshes: Vec<SourceMesh>,
}

/// A document with the contents of its buffers, in the document's order.
#[derive(Debug)]
pub struct Scene {
    pub document: Document,
    pub buffers: Vec<Vec<u8>>,
}

/// The message of the error for a primitive without positions.
pub open spec fn no_positions_text() -> Seq<char> {
    "a primitive has no positions"@
}

/// The message of the error for an attribute whose length is not that of the
/// positions.
pub open spec fn attribute_length_text() -> Seq<char> {
    "an attribute does not have one entry per position"@
}

/// The message of the error for an index that refers to no vertex.
pub open spec fn index_text() -> Seq<char> {
    "an index refers to no vertex of its primitive"@
}

/// The message of the error for a material index that refers to no material.
pub open spec fn material_text() -> Seq<char> {
    "a primitive refers to a material that the document does not hold"@
}

/// An attribute stream, where present, has exactly `n` entries.
pub open spec fn attribute_fits<T>(attribute: Option<Vec<T>>, n: nat) -> bool {
    attribute matches Some(a) ==> a@.len() == n
}

/// Entry `i` of an attribute stream, where the stream is present.
pub open spec fn attribute_at<T>(attribute: Option<Vec<T>>, i: int) -> Option<T> {
    match attribute {
        Some(a) => Some(a@[i]),
        None => None,
    }
}

/// Vertex `i` of a primitive: position `i` with entry `i` of every attribute
/// that the primitive has.
pub open spec fn vertex_at(primitive: SourcePrimitive, i: int) -> Vertex {
    Vertex {
        position: primitive.positions->Some_0@[i],
        color: attribute_at(primitive.colors, i),
        tex_coord: attribute_at(primitive.tex_coords, i),
        normal: attribute_at(primitive.normals, i),
    }
}

/// The view of an optional index buffer.
pub open spec fn indices_view(indices: Option<Indices>) -> Option<IndicesView> {
    match indices {
        Some(ix) => Some(ix@),
        None => None,
    }
}

/// The vertices and indices of a primitive. Positions are mandatory; every other
/// attribute must have one entry per position; the indices keep their width and
/// must refer to vertices of the primitive. Anything else is a parsing error.
pub open spec fn primitive_of(primitive: SourcePrimitive) -> Result<
    (Seq<Vertex>, Option<IndicesView>),
    ErrorView,
> {
    match primitive.positions {
        None => Err(ErrorView::ModelParsing(no_positions_text())),
        Some(positions) => {
            let n = positions@.len();
            if !(attribute_fits(primitive.normals, n) && attribute_fits(primitive.colors, n)
                && attribute_fits(primitive.tex_coords, n)) {
                Err(ErrorView::ModelParsing(attribute_length_text()))
            } else if primitive.indices matches Some(ix) && !ix@.below(n) {
                Err(ErrorView::ModelParsing(index_text()))
            } else {
                Ok((Seq::new(n, |i: int| vertex_at(primitive, i)), indices_view(primitive.indices)))
            }
        },
    }
}

/// The mesh that one primitive becomes in a document of `materials` materials,
/// under the name of the mesh it belongs to.
pub open spec fn mesh_of(name: Option<Seq<char>>, primitive: SourcePrimitive, materials: nat) -> Result<
    MeshView,
    ErrorView,
> {
    match primitive_of(primitive) {
        Err(e) => Err(e),
        Ok((vertices, indices)) => {
            if primitive.material matches Some(m) && m >= materials {
                Err(ErrorView::ModelParsing(material_text()))
            } else {
                Ok(
                    MeshView {
                        vertices,
                        indices,
                        mode: render_mode_of(primitive.mode),
                        material_index: primitive.material,
                        name,
                    },
                )
            }
        },
    }
}

/// The meshes that the primitives of one mesh become, in order, or the error of
/// the first primitive that has one.
pub open spec fn primitives_of(
    name: Option<Seq<char>>,
    primitives: Seq<SourcePrimitive>,
    materials: nat,
) -> Result<Seq<MeshView>, ErrorView>
    decreases primitives.len(),
{
    if primitives.len() == 0 {
        Ok(Seq::empty())
    } else {
        match primitives_of(name, primitives.drop_last(), materials) {
            Err(e) => Err(e),
            Ok(done) => match mesh_of(name, primitives.last(), materials) {
                Err(e) => Err(e),
                Ok(m) => Ok(done.push(m)),
            },
        }
    }
}

/// The meshes of the model: the primitives of every mesh of the document, mesh
/// after mesh, or the first error.
pub open spec fn meshes_of(meshes: Seq<SourceMesh>, materials: nat) -> Result<
    Seq<MeshView>,
    ErrorView,
>
    decreases meshes.len(),
{
    if meshes.len() == 0 {
        Ok(Seq::empty())
    } else {
        match meshes_of(meshes.drop_last(), materials) {
            Err(e) => Err(e),
            Ok(done) => match primitives_of(
                text_view(meshes.last().name),
                meshes.last().primitives@,
                materials,
            ) {
                Err(e) => Err(e),
                Ok(more) => Ok(done + more),
            },
        }
    }
}

/// The materials of the model: every material of the document, in order, or the
/// error of the first that has one.
pub open spec fn materials_of(
    dir: Seq<char>,
    materials: Seq<SourceMaterial>,
    buffers: Seq<Vec<u8>>,
) -> Result<Seq<MaterialView>, ErrorView>
    decreases materials.len(),
{
    if materials.len() == 0 {
        Ok(Seq::empty())
    } else {
        match materials_of(dir, materials.drop_last(), buffers) {
            Err(e) => Err(e),
            Ok(done) => match material_of(dir, materials.last(), buffers) {
                Err(e) => Err(e),
                Ok(m) => Ok(done.push(m)),
            },
        }
    }
}

/// The model of a scene read from the file at `path`. A document that could not
/// be read is a parsing error with the reader's message. Materials come first,
/// so that a mesh's material index can be held against their number.
pub open spec fn scene_model(path: Seq<char>, scene: Result<Scene, String>) -> Result<
    ModelView,
    ErrorView,
> {
    match scene {
        Err(e) => Err(ErrorView::ModelParsing(e@)),
        Ok(s) => match materials_of(model_dir_of(path), s.document.materials@, s.buffers@) {
            Err(e) => Err(e),
            Ok(materials) => match meshes_of(s.document.meshes@, materials.len()) {
                Err(e) => Err(e),
                Ok(meshes) => Ok(ModelView { meshes, materials, format: ModelFormat::GLTF }),
            },
        },
    }
}

/// An error among the first `k` primitives is the error of them all.
proof fn lemma_primitives_error(
    name: Option<Seq<char>>,
    primitives: Seq<SourcePrimitive>,
    materials: nat,
    k: int,
)
    requires
        0 <= k <= primitives.len(),
        primitives_of(name, primitives.take(k), materials) is Err,
    ensures
        primitives_of(name, primitives, materials) == primitives_of(
            name,
            primitives.take(k),
            materials,
        ),
    decreases primitives.len() - k,
{
    if k < primitives.len() {
        assert(primitives.take(k + 1).drop_last() =~= primitives.take(k));
        lemma_primitives_error(name, primitives, materials, k + 1);
    } else {
        assert(primitives.take(k) =~= primitives);
    }
}

/// An error among the first `k` meshes is the error of them all.
proof fn lemma_meshes_error(meshes: Seq<SourceMesh>, materials: nat, k: int)
    requires
        0 <= k <= meshes.len(),
        meshes_of(meshes.take(k), materials) is Err,
    ensures
        meshes_of(meshes, materials) == meshes_of(meshes.take(k), materials),
    decreases meshes.len() - k,
{
    if k < meshes.len() {
        assert(meshes.take(k + 1).drop_last() =~= meshes.take(k));
        lemma_meshes_error(meshes, materials, k + 1);
    } else {
        assert(meshes.take(k) =~= meshes);
    }
}

/// An error among the first `k` materials is the error of them all.
proof fn lemma_materials_error(
    dir: Seq<char>,
    materials: Seq<SourceMaterial>,
    buffers: Seq<Vec<u8>>,
    k: int,
)
    requires
        0 <= k <= materials.len(),
        materials_of(dir, materials.take(k), buffers) is Err,
    ensures
        materials_of(dir, materials, buffers) == materials_of(dir, materials.take(k), buffers),
    decreases materials.len() - k,
{
    if k < materials.len() {
        assert(materials.take(k + 1).drop_last() =~= materials.take(k));
        lemma_materials_error(dir, materials, buffers, k + 1);
    } else {
        assert(materials.take(k) =~= materials);
    }
}

/// Loaded vertices and indices, or the error, through their views.
pub open spec fn primitive_loaded(r: Result<(Vec<Vertex>, Option<Indices>), ModelError>) -> Result<
    (Seq<Vertex>, Option<IndicesView>),
    ErrorView,
> {
    match r {
        Ok((vertices, indices)) => Ok((vertices@, indices_view(indices))),
        Err(e) => Err(e@),
    }
}

/// Loaded meshes, or the error, through their views.
pub open spec fn meshes_loaded(r: Result<Vec<Mesh>, ModelError>) -> Result<
    Seq<MeshView>,
    ErrorView,
> {
    match r {
        Ok(meshes) => Ok(mesh_views(meshes@)),
        Err(e) => Err(e@),
    }
}

/// Tells whether an attribute stream, where present, has exactly `n` entries.
fn fits<T>(attribute: &Option<Vec<T>>, n: usize) -> (r: bool)
    ensures
        r == attribute_fits(*attribute, n as nat),
{
    match attribute {
        Some(a) => a.len() == n,
        None => true,
    }
}

/// Entry `i` of an attribute stream, where the stream is present.
fn entry<T: Copy>(attribute: &Option<Vec<T>>, i: usize) -> (r: Option<T>)
    requires
        attribute matches Some(a) ==> i < a@.len(),
    ensures
        r == attribute_at(*attribute, i as int),
{
    match attribute {
        Some(a) => Some(a[i]),
        None => None,
    }
}

/// Builds the vertices of a primitive and takes over its indices. Every
/// attribute is aligned with the positions entry by entry.
pub fn load_primitive(primitive: &SourcePrimitive) -> (r: Result<
    (Vec<Vertex>, Option<Indices>),
    ModelError,
>)
    ensures
        primitive_loaded(r) == primitive_of(*primitive),
{
    let positions = match &primitive.positions {
        Some(p) => p,
        None => {
            return Err(ModelError::ModelParsing("a primitive has no positions".to_owned()));
        },
    };
    let n = positions.len();
    if !(fits(&primitive.normals, n) && fits(&primitive.colors, n) && fits(
        &primitive.tex_coords,
        n,
    )) {
        return Err(
            ModelError::ModelParsing(
                "an attribute does not have one entry per position".to_owned(),
            ),
        );
    }
    let indices = match &primitive.indices {
        Some(ix) => {
            if !ix.in_bounds(n) {
                return Err(
                    ModelError::ModelParsing(
                        "an index refers to no vertex of its primitive".to_owned(),
                    ),
                );
            }
            Some(ix.clone())
        },
        None => None,
    };
    let mut vertices: Vec<Vertex> = Vec::new();
    let mut i: usize = 0;
    while i < n
        invariant
            i <= n,
            primitive.positions == Some(*positions),
            n == positions@.len(),
            attribute_fits(primitive.normals, n as nat),
            attribute_fits(primitive.colors, n as nat),
            attribute_fits(primitive.tex_coords, n as nat),
            vertices@.len() == i,
            forall|j: int| 0 <= j < i ==> vertices@[j] == vertex_at(*primitive, j),
        decreases n - i,
    {
        vertices.push(
            Vertex {
                position: positions[i],
                color: entry(&primitive.colors, i),
                tex_coord: entry(&primitive.tex_coords, i),
                normal: entry(&primitive.normals, i),
            },
        );
        i += 1;
    }
    assert(vertices@ =~= Seq::new(n as nat, |i: int| vertex_at(*primitive, i)));
    Ok((vertices, indices))
}

/// Loads the primitives of one mesh of a document that holds `materials`
/// materials. Each becomes a mesh of the model under the source mesh's name.
pub fn load_mesh(mesh: &SourceMesh, materials: usize) -> (r: Result<Vec<Mesh>, ModelError>)
    ensures
        meshes_loaded(r) == primitives_of(
            text_view(mesh.name),
            mesh.primitives@,
            materials as nat,
        ),
        r matches Ok(ms) ==> forall|i: int|
            0 <= i < ms@.len() ==> (#[trigger] ms@[i])@.indices_in_bounds()
                && ms@[i]@.material_below(materials as nat),
{
    let ghost name = text_view(mesh.name);
    let mut meshes: Vec<Mesh> = Vec::new();
    let mut i: usize = 0;
    assert(mesh.primitives@.take(0) =~= Seq::empty());
    assert(mesh_views(meshes@) =~= Seq::empty());
    while i < mesh.primitives.len()
        invariant
            i <= mesh.primitives.len(),
            name == text_view(mesh.name),
            primitives_of(name, mesh.primitives@.take(i as int), materials as nat) == Ok::<
                Seq<MeshView>,
                ErrorView,
            >(mesh_views(meshes@)),
            forall|j: int|
                0 <= j < meshes@.len() ==> (#[trigger] meshes@[j])@.indices_in_bounds()
                    && meshes@[j]@.material_below(materials as nat),
        decreases mesh.primitives.len() - i,
    {
        let primitive = &mesh.primitives[i];
        let ghost before = mesh_views(meshes@);
        proof {
            assert(mesh.primitives@.take(i + 1).drop_last() =~= mesh.primitives@.take(i as int));
            assert(mesh.primitives@.take(i + 1).last() == *primitive);
        }
        let (vertices, indices) = match load_primitive(primitive) {
            Ok(loaded) => loaded,
            Err(e) => {
                proof {
                    lemma_primitives_error(name, mesh.primitives@, materials as nat, i + 1);
                }
                return Err(e);
            },
        };
        let in_range = match primitive.material {
            Some(m) => m < materials,
            None => true,
        };
        if !in_range {
            proof {
                lemma_primitives_error(name, mesh.primitives@, materials as nat, i + 1);
            }
            return Err(
                ModelError::ModelParsing(
                    "a primitive refers to a material that the document does not hold".to_owned(),
                ),
            );
        }
        let loaded = Mesh {
            vertices,
            indices,
            mode: convert_mode(primitive.mode),
            material_index: primitive.material,
            name: copy_text(&mesh.name),
        };
        assert(mesh_of(name, *primitive, materials as nat) == Ok::<MeshView, ErrorView>(loaded@));
        meshes.push(loaded);
        assert(mesh_views(meshes@) =~= before.push(loaded@));
        i += 1;
    }
    assert(mesh.primitives@.take(i as int) =~= mesh.primitives@);
    Ok(meshes)
}

/// Loads the model of a scene that was read from the file at `path`: all of its
/// materials, then the primitives of all of its meshes. Any failure ends the
/// load; no part of a model is returned.
pub fn load(path: &str, scene: &Result<Scene, String>) -> (r: Result<Model3D, ModelError>)
    ensures
        loaded(r) == scene_model(path@, *scene),
        r matches Ok(m) ==> m@.wf(),
{
    let s = match scene {
        Ok(s) => s,
        Err(e) => {
            return Err(ModelError::ModelParsing(e.clone()));
        },
    };
    let dir = model_dir(path);
    let ghost sources = s.document.materials@;
    let mut materials: Vec<Material> = Vec::new();
    let mut i: usize = 0;
    assert(sources.take(0) =~= Seq::empty());
    assert(material_views(materials@) =~= Seq::empty());
    while i < s.document.materials.len()
        invariant
            i <= s.document.materials.len(),
            *scene == Ok::<Scene, String>(*s),
            dir@ == model_dir_of(path@),
            sources == s.document.materials@,
            materials@.len() == i,
            materials_of(dir@, sources.take(i as int), s.buffers@) == Ok::<
                Seq<MaterialView>,
                ErrorView,
            >(material_views(materials@)),
        decreases s.document.materials.len() - i,
    {
        let ghost before = material_views(materials@);
        proof {
            assert(sources.take(i + 1).drop_last() =~= sources.take(i as int));
            assert(sources.take(i + 1).last() == sources[i as int]);
        }
        match load_material(dir.as_str(), &s.document.materials[i], &s.buffers) {
            Ok(m) => {
                materials.push(m);
                assert(material_views(materials@) =~= before.push(m@));
            },
            Err(e) => {
                proof {
                    lemma_materials_error(dir@, sources, s.buffers@, i + 1);
                }
                return Err(e);
            },
        }
        i += 1;
    }
    assert(sources.take(i as int) =~= sources);
    let count = materials.len();
    let ghost groups = s.document.meshes@;
    let mut meshes: Vec<Mesh> = Vec::new();
    let mut k: usize = 0;
    assert(groups.take(0) =~= Seq::empty());
    assert(mesh_views(meshes@) =~= Seq::empty());
    while k < s.document.meshes.len()
        invariant
            k <= s.document.meshes.len(),
            *scene == Ok::<Scene, String>(*s),
            dir@ == model_dir_of(path@),
            groups == s.document.meshes@,
            count == materials@.len(),
            materials_of(dir@, s.document.materials@, s.buffers@) == Ok::<
                Seq<MaterialView>,
                ErrorView,
            >(material_views(materials@)),
            meshes_of(groups.take(k as int), count as nat) == Ok::<Seq<MeshView>, ErrorView>(
                mesh_views(meshes@),
            ),
            forall|j: int|
                0 <= j < meshes@.len() ==> (#[trigger] meshes@[j])@.indices_in_bounds()
                    && meshes@[j]@.material_below(count as nat),
        decreases s.document.meshes.len() - k,
    {
        let ghost before = meshes@;
        proof {
            assert(groups.take(k + 1).drop_last() =~= groups.take(k as int));
            assert(groups.take(k + 1).last() == groups[k as int]);
        }
        match load_mesh(&s.document.meshes[k], count) {
            Ok(mut more) => {
                let ghost added = more@;
                meshes.append(&mut more);
                assert(meshes@ == before + added);
                assert(mesh_views(meshes@) =~= mesh_views(before) + mesh_views(added));
            },
            Err(e) => {
                proof {
                    lemma_meshes_error(groups, count as nat, k + 1);
                }
                return Err(e);
            },
        }
        k += 1;
    }
    assert(groups.take(k as int) =~= groups);
    let model = Model3D { meshes, materials, format: ModelFormat::GLTF };
    assert forall|j: int| 0 <= j < model@.meshes.len() implies {
        &&& (#[trigger] model@.meshes[j]).indices_in_bounds()
        &&& model@.meshes[j].material_below(model@.materials.len())
    } by {
        assert(model@.meshes[j] == model.meshes@[j]@);
    }
    Ok(model)
}

/// Index width fidelity: the index buffer of a loaded primitive is the source's
/// own, in the width the source declares.
pub proof fn lemma_index_width_kept(primitive: SourcePrimitive)
    ensures
        primitive_of(primitive) matches Ok((_, indices)) ==> {
            &&& indices == indices_view(primitive.indices)
            &&& (primitive.indices matches Some(Indices::U8(v)) ==> indices == Some(
                IndicesView::U8(v@),
            ))
            &&& (primitive.indices matches Some(Indices::U16(v)) ==> indices == Some(
                IndicesView::U16(v@),
            ))
            &&& (primitive.indices matches Some(Indices::U32(v)) ==> indices == Some(
                IndicesView::U32(v@),
            ))
        },
{
}

/// Optionality: every vertex of a loaded primitive has a normal, a colour or a
/// texture coordinate exactly when the source has that attribute, and its value
/// is the source's entry at the vertex's position.
pub proof fn lemma_attribute_optionality(primitive: SourcePrimitive, i: int)
    requires
        primitive_of(primitive) is Ok,
        0 <= i < primitive_of(primitive)->Ok_0.0.len(),
    ensures
        primitive.positions is Some,
        primitive_of(primitive)->Ok_0.0.len() == primitive.positions->Some_0@.len(),
        primitive_of(primitive)->Ok_0.0[i].position == primitive.positions->Some_0@[i],
        primitive_of(primitive)->Ok_0.0[i].normal == attribute_at(primitive.normals, i),
        primitive_of(primitive)->Ok_0.0[i].color == attribute_at(primitive.colors, i),
        primitive_of(primitive)->Ok_0.0[i].tex_coord == attribute_at(primitive.tex_coords, i),
        primitive_of(primitive)->Ok_0.0[i].normal is Some <==> primitive.normals is Some,
        primitive_of(primitive)->Ok_0.0[i].color is Some <==> primitive.colors is Some,
        primitive_of(primitive)->Ok_0.0[i].tex_coord is Some <==> primitive.tex_coords is Some,
{
}

/// The meshes of one source mesh are as many as its primitives; each keeps its
/// indices inside its vertices and its material index below `materials`.
pub proof fn lemma_primitives_in_range(
    name: Option<Seq<char>>,
    primitives: Seq<SourcePrimitive>,
    materials: nat,
)
    ensures
        primitives_of(name, primitives, materials) matches Ok(ms) ==> {
            &&& ms.len() == primitives.len()
            &&& forall|i: int|
                0 <= i < ms.len() ==> (#[trigger] ms[i]).indices_in_bounds()
                    && ms[i].material_below(materials)
        },
    decreases primitives.len(),
{
    if primitives.len() > 0 {
        lemma_primitives_in_range(name, primitives.drop_last(), materials);
    }
}

/// Every mesh of the model keeps its indices inside its vertices and its
/// material index below `materials`.
pub proof fn lemma_meshes_in_range(meshes: Seq<SourceMesh>, materials: nat)
    ensures
        meshes_of(meshes, materials) matches Ok(ms) ==> forall|i: int|
            0 <= i < ms.len() ==> (#[trigger] ms[i]).indices_in_bounds() && ms[i].material_below(
                materials,
            ),
    decreases meshes.len(),
{
    if meshes.len() > 0 {
        lemma_meshes_in_range(meshes.drop_last(), materials);
        lemma_primitives_in_range(
            text_view(meshes.last().name),
            meshes.last().primitives@,
            materials,
        );
    }
}

/// The materials of the model are as many as those of the document.
pub proof fn lemma_materials_count(
    dir: Seq<char>,
    materials: Seq<SourceMaterial>,
    buffers: Seq<Vec<u8>>,
)
    ensures
        materials_of(dir, materials, buffers) matches Ok(ms) ==> ms.len() == materials.len(),
    decreases materials.len(),
{
    if materials.len() > 0 {
        lemma_materials_count(dir, materials.drop_last(), buffers);
    }
}

/// Referential integrity: a scene that loads gives a well-formed model. Every
/// material index of a mesh is a position in the model's materials, every index
/// of an index buffer a position in its mesh's vertices.
pub proof fn lemma_scene_model_wf(path: Seq<char>, scene: Result<Scene, String>)
    ensures
        scene_model(path, scene) matches Ok(m) ==> m.wf() && m.format == ModelFormat::GLTF,
{
    if let Ok(s) = scene {
        if let Ok(materials) = materials_of(model_dir_of(path), s.document.materials@, s.buffers@) {
            lemma_meshes_in_range(s.document.meshes@, materials.len());
        }
    }
}

/// Each declared enumeration value stands for one value of the model, and no
/// two declared values stand for the same.
pub proof fn lemma_conversions_one_to_one()
    ensures
        forall|a: SourceMode, b: SourceMode| render_mode_of(a) == render_mode_of(b) ==> a == b,
        forall|a: SourceAlphaMode, b: SourceAlphaMode|
            alpha_mode_of(a) == alpha_mode_of(b) ==> a == b,
        forall|a: SourceWrappingMode, b: SourceWrappingMode|
            wrapping_mode_of(a) == wrapping_mode_of(b) ==> a == b,
        forall|a: SourceMagFilter, b: SourceMagFilter|
            mag_filter_of(a) == mag_filter_of(b) ==> a == b,
        forall|a: SourceMinFilter, b: SourceMinFilter|
            min_filter_of(a) == min_filter_of(b) ==> a == b,
{
}

} // verus!
