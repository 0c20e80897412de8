//! The polygon list adapter: the models and materials of an OBJ file with its
//! material library become meshes and materials of the model.
//!
//! The adapter works on what a reader of the two files found, as plain values:
//! for each model the flat arrays of a layout in which one index addresses every
//! attribute of a vertex, for each material its reflectance, dissolve and texture
//! name.

use vstd::prelude::*;
use vstd::slice::slice_to_vec;
use vstd::string::StringExecFns;
use crate::model::{
    loaded, material_views, mesh_views, AlphaMode, ErrorView, Image, ImageView, Indices,
    IndicesView, Material, MaterialView, Mesh, MeshView, Model3D, ModelError, ModelFormat,
    ModelView, RenderMode, Sampler, SamplerView, Texture, TextureView, Vertex, ONE_BITS, ZERO_BITS,
};
use crate::path::{join, model_dir, model_dir_of, path_join};

verus! {

/// The geometry of one model as flat arrays. Positions, normals and colours take
/// three numbers per vertex, texture coordinates two. An empty array means that
/// the model has no such attribute.
#[derive(Debug)]
pub struct SourceMesh {
    pub positions: Vec<u32>,
    pub vertex_color: Vec<u32>,
    pub normals: Vec<u32>,
    pub texcoords: Vec<u32>,
    pub indices: Vec<u32>,
    /// The position of the model's material among the materials of the library.
    pub material_id: Option<usize>,
}

/// One named model of the file.
#[derive(Debug)]
pub struct SourceModel {
    pub mesh: SourceMesh,
    pub name: String,
}

/// One material of the library.
#[derive(Debug)]
pub struct SourceMaterial {
    pub name: String,
    /// Diffuse reflectance: red, green, blue.
    pub diffuse: Option<[u32; 3]>,
    pub dissolve: Option<u32>,
    /// The name of the diffuse texture's file, as the library writes it.
    pub diffuse_texture: Option<String>,
}

/// What reading the geometry file gave: its models, and the materials of its
/// library or the message of the failure to read that library.
#[derive(Debug)]
pub struct SourceScene {
    pub models: Vec<SourceModel>,
    pub materials: Result<Vec<SourceMaterial>, String>,
}

/// The texture that a texture file's name stands for: a path below the model's
/// directory, not opened, read through a plain sampler, named as the library
/// names it.
pub open spec fn texture_of(name: Seq<char>, dir: Seq<char>) -> TextureView {
    TextureView {
        image: ImageView::Path { path: path_join(dir, name), mime_type: None },
        sampler: SamplerView::plain(),
        name: Some(name),
    }
}

/// The material that a material of the library stands for. The base colour is
/// the diffuse reflectance with alpha one, the alpha cutoff is the dissolve; the
/// format has neither alpha mode nor sidedness, so every material is opaque and
/// single-sided.
pub open spec fn material_of(material: SourceMaterial, dir: Seq<char>) -> MaterialView {
    MaterialView {
        diffuse_texture: match material.diffuse_texture {
            Some(name) => Some(texture_of(name@, dir)),
            None => None,
        },
        alpha_mode: AlphaMode::Opaque,
        alpha_cutoff: material.dissolve,
        double_sided: false,
        base_color: match material.diffuse {
            Some(d) => Some([d[0], d[1], d[2], ONE_BITS]),
            None => None,
        },
        name: Some(material.name@),
    }
}

/// The materials of the model: those of the library, in order.
pub open spec fn materials_of(materials: Seq<SourceMaterial>, dir: Seq<char>) -> Seq<
    MaterialView,
> {
    Seq::new(materials.len(), |i: int| material_of(materials[i], dir))
}

/// The number of vertices of a model: one per three numbers of its positions.
pub open spec fn vertex_count(mesh: SourceMesh) -> nat {
    mesh.positions@.len() / 3
}

/// An attribute array is empty or holds `stride` numbers for each of `n` vertices.
pub open spec fn attribute_covers(attribute: Seq<u32>, stride: nat, n: nat) -> bool {
    attribute.len() == 0 || attribute.len() >= stride * n
}

/// Every attribute array of the model is empty or covers all of its vertices.
pub open spec fn attributes_cover(mesh: SourceMesh) -> bool {
    let n = vertex_count(mesh);
    &&& attribute_covers(mesh.normals@, 3, n)
    &&& attribute_covers(mesh.texcoords@, 2, n)
    &&& attribute_covers(mesh.vertex_color@, 3, n)
}

/// Vertex `i` of a model, read from the flat arrays at their strides. A colour
/// gets alpha zero, since the format has no alpha for vertex colours.
pub open spec fn vertex_at(mesh: SourceMesh, i: int) -> Vertex {
    Vertex {
        position: [mesh.positions@[3 * i], mesh.positions@[3 * i + 1], mesh.positions@[3 * i + 2]],
        color: if mesh.vertex_color@.len() == 0 {
            None
        } else {
            Some(
                [
                    mesh.vertex_color@[3 * i],
                    mesh.vertex_color@[3 * i + 1],
                    mesh.vertex_color@[3 * i + 2],
                    ZERO_BITS,
                ],
            )
        },
        tex_coord: if mesh.texcoords@.len() == 0 {
            None
        } else {
            Some([mesh.texcoords@[2 * i], mesh.texcoords@[2 * i + 1]])
        },
        normal: if mesh.normals@.len() == 0 {
            None
        } else {
            Some([mesh.normals@[3 * i], mesh.normals@[3 * i + 1], mesh.normals@[3 * i + 2]])
        },
    }
}

/// The message of the error for an attribute array that ends before the last
/// vertex.
pub open spec fn attribute_short_text() -> Seq<char> {
    "an attribute array is shorter than the positions ask for"@
}

/// The message of the error for an index that refers to no vertex.
pub open spec fn index_text() -> Seq<char> {
    "an index refers to no vertex of its model"@
}

/// The message of the error for a material index that refers to no material.
pub open spec fn material_text() -> Seq<char> {
    "a model refers to a material that the library does not hold"@
}

/// The vertices of a model, or a parsing error where an attribute array is too
/// short to be read for every vertex.
pub open spec fn vertices_of(mesh: SourceMesh) -> Result<Seq<Vertex>, ErrorView> {
    if attributes_cover(mesh) {
        Ok(Seq::new(vertex_count(mesh), |i: int| vertex_at(mesh, i)))
    } else {
        Err(ErrorView::ModelParsing(attribute_short_text()))
    }
}

/// The index buffer of a model: always 32 bits wide, absent where the model has
/// no indices.
pub open spec fn indices_of(mesh: SourceMesh) -> Option<IndicesView> {
    if mesh.indices@.len() == 0 {
        None
    } else {
        Some(IndicesView::U32(mesh.indices@))
    }
}

/// The mesh that one model becomes beside `materials` materials: named as the
/// model, drawn as a triangle fan, with the model's material index.
pub open spec fn mesh_of(model: SourceModel, materials: nat) -> Result<MeshView, ErrorView> {
    match vertices_of(model.mesh) {
        Err(e) => Err(e),
        Ok(vertices) => {
            if !IndicesView::U32(model.mesh.indices@).below(vertices.len()) {
                Err(ErrorView::ModelParsing(index_text()))
            } else if model.mesh.material_id matches Some(m) && m >= materials {
                Err(ErrorView::ModelParsing(material_text()))
            } else {
                Ok(
                    MeshView {
                        vertices,
                        indices: indices_of(model.mesh),
                        mode: RenderMode::TriangleFan,
                        material_index: model.mesh.material_id,
                        name: Some(model.name@),
                    },
                )
            }
        },
    }
}

/// The meshes of the model: one per model of the file, in order, or the error of
/// the first model that has one.
pub open spec fn meshes_of(models: Seq<SourceModel>, materials: nat) -> Result<
    Seq<MeshView>,
    ErrorView,
>
    decreases models.len(),
{
    if models.len() == 0 {
        Ok(Seq::empty())
    } else {
        match meshes_of(models.drop_last(), materials) {
            Err(e) => Err(e),
            Ok(done) => match mesh_of(models.last(), materials) {
                Err(e) => Err(e),
                Ok(m) => Ok(done.push(m)),
            },
        }
    }
}

/// What stands before the reader's message where the material library failed.
pub open spec fn library_failed_text() -> Seq<char> {
    "Failed to load MTL file, "@
}

/// The model of what was read of the geometry file at `path`. A failure to read
/// the geometry is `ModelParsing`; a failure to read only the material library
/// is `MaterialLoad`, whatever the geometry holds.
pub open spec fn scene_model(path: Seq<char>, parsed: Result<SourceScene, String>) -> Result<
    ModelView,
    ErrorView,
> {
    match parsed {
        Err(e) => Err(ErrorView::ModelParsing(e@)),
        Ok(scene) => match scene.materials {
            Err(e) => Err(ErrorView::MaterialLoad(library_failed_text() + e@)),
            Ok(materials) => match meshes_of(scene.models@, materials@.len()) {
                Err(e) => Err(e),
                Ok(meshes) => Ok(
                    ModelView {
                        meshes,
                        materials: materials_of(materials@, model_dir_of(path)),
                        format: ModelFormat::OBJ,
                    },
                ),
            },
        },
    }
}

/// An error among the first `k` models is the error of them all.
proof fn lemma_meshes_error(models: Seq<SourceModel>, materials: nat, k: int)
    requires
        0 <= k <= models.len(),
        meshes_of(models.take(k), materials) is Err,
    ensures
        meshes_of(models, materials) == meshes_of(models.take(k), materials),
    decreases models.len() - k,
{
    if k < models.len() {
        assert(models.take(k + 1).drop_last() =~= models.take(k));
        lemma_meshes_error(models, materials, k + 1);
    } else {
        assert(models.take(k) =~= models);
    }
}

/// Converts one material of the library. `model_dir` is the directory of the
/// geometry file, against which the texture's name is resolved.
pub fn load_material(material: &SourceMaterial, model_dir: &str) -> (r: Material)
    ensures
        r@ == material_of(*material, model_dir@),
{
    let base_color = match material.diffuse {
        Some(d) => Some([d[0], d[1], d[2], ONE_BITS]),
        None => None,
    };
    let diffuse_texture = match &material.diffuse_texture {
        Some(texture) => {
            let image = Image::Path { path: join(model_dir, texture.as_str()), mime_type: None };
            Some(Texture { image, sampler: Sampler::default(), name: Some(texture.clone()) })
        },
        None => None,
    };
    Material {
        diffuse_texture,
        alpha_mode: AlphaMode::Opaque,
        alpha_cutoff: material.dissolve,
        double_sided: false,
        base_color,
        name: Some(material.name.clone()),
    }
}

/// Tells whether an attribute array is empty or holds `stride` numbers for each
/// of `n` vertices.
fn covers(attribute: &Vec<u32>, stride: usize, n: usize) -> (r: bool)
    requires
        1 <= stride <= 3,
        3 * n <= usize::MAX,
    ensures
        r == attribute_covers(attribute@, stride as nat, n as nat),
{
    assert(stride * n <= 3 * n) by (nonlinear_arith)
        requires
            stride <= 3,
            0 <= n,
    ;
    attribute.len() == 0 || attribute.len() >= stride * n
}

/// Loaded vertices, or the error, through their views.
pub open spec fn vertices_loaded(r: Result<Vec<Vertex>, ModelError>) -> Result<
    Seq<Vertex>,
    ErrorView,
> {
    match r {
        Ok(vertices) => Ok(vertices@),
        Err(e) => Err(e@),
    }
}

/// Builds the vertices of a model from its flat arrays.
pub fn load_mesh(mesh: &SourceMesh) -> (r: Result<Vec<Vertex>, ModelError>)
    ensures
        vertices_loaded(r) == vertices_of(*mesh),
{
    let n = mesh.positions.len() / 3;
    if !(covers(&mesh.normals, 3, n) && covers(&mesh.texcoords, 2, n) && covers(
        &mesh.vertex_color,
        3,
        n,
    )) {
        return Err(
            ModelError::ModelParsing(
                "an attribute array is shorter than the positions ask for".to_owned(),
            ),
        );
    }
    let mut vertices: Vec<Vertex> = Vec::new();
    let mut i: usize = 0;
    while i < n
        invariant
            i <= n,
            n == vertex_count(*mesh),
            3 * n <= mesh.positions@.len() <= usize::MAX,
            attributes_cover(*mesh),
            vertices@.len() == i,
            forall|j: int| 0 <= j < i ==> vertices@[j] == vertex_at(*mesh, j),
        decreases n - i,
    {
        let position = [
            mesh.positions[i * 3],
            mesh.positions[i * 3 + 1],
            mesh.positions[i * 3 + 2],
        ];
        let tex_coord = if mesh.texcoords.len() == 0 {
            None
        } else {
            Some([mesh.texcoords[i * 2], mesh.texcoords[i * 2 + 1]])
        };
        let color = if mesh.vertex_color.len() == 0 {
            None
        } else {
            Some(
                [
                    mesh.vertex_color[i * 3],
                    mesh.vertex_color[i * 3 + 1],
                    mesh.vertex_color[i * 3 + 2],
                    ZERO_BITS,
                ],
            )
        };
        let normal = if mesh.normals.len() == 0 {
            None
        } else {
            Some([mesh.normals[i * 3], mesh.normals[i * 3 + 1], mesh.normals[i * 3 + 2]])
        };
        vertices.push(Vertex { position, color, tex_coord, normal });
        i += 1;
    }
    assert(vertices@ =~= Seq::new(vertex_count(*mesh), |i: int| vertex_at(*mesh, i)));
    Ok(vertices)
}

/// A loaded mesh, or the error, through their views.
pub open spec fn mesh_loaded(r: Result<Mesh, ModelError>) -> Result<MeshView, ErrorView> {
    match r {
        Ok(m) => Ok(m@),
        Err(e) => Err(e@),
    }
}

/// Builds the mesh of one model beside `materials` materials.
pub fn load_model(model: &SourceModel, materials: usize) -> (r: Result<Mesh, ModelError>)
    ensures
        mesh_loaded(r) == mesh_of(*model, materials as nat),
        r matches Ok(m) ==> m@.indices_in_bounds() && m@.material_below(materials as nat),
{
    let vertices = match load_mesh(&model.mesh) {
        Ok(v) => v,
        Err(e) => {
            return Err(e);
        },
    };
    let all = Indices::U32(slice_to_vec(model.mesh.indices.as_slice()));
    if !all.in_bounds(vertices.len()) {
        return Err(
            ModelError::ModelParsing("an index refers to no vertex of its model".to_owned()),
        );
    }
    let in_range = match model.mesh.material_id {
        Some(m) => m < materials,
        None => true,
    };
    if !in_range {
        return Err(
            ModelError::ModelParsing(
                "a model refers to a material that the library does not hold".to_owned(),
            ),
        );
    }
    let indices = if model.mesh.indices.len() == 0 {
        None
    } else {
        Some(all)
    };
    Ok(
        Mesh {
            vertices,
            indices,
            mode: RenderMode::TriangleFan,
            material_index: model.mesh.material_id,
            name: Some(model.name.clone()),
        },
    )
}

/// Loads the model of what was read of the geometry file at `path`: the
/// materials of its library, then one mesh per model. Any failure ends the load;
/// no part of a model is returned.
pub fn load(path: &str, parsed: &Result<SourceScene, String>) -> (r: Result<Model3D, ModelError>)
    ensures
        loaded(r) == scene_model(path@, *parsed),
        r matches Ok(m) ==> m@.wf(),
{
    let scene = match parsed {
        Ok(s) => s,
        Err(e) => {
            return Err(ModelError::ModelParsing(e.clone()));
        },
    };
    let dir = model_dir(path);
    let sources = match &scene.materials {
        Ok(m) => m,
        Err(e) => {
            let text = "Failed to load MTL file, ".to_owned().concat(e.as_str());
            return Err(ModelError::MaterialLoad(text));
        },
    };
    let mut materials: Vec<Material> = Vec::new();
    let mut i: usize = 0;
    while i < sources.len()
        invariant
            i <= sources.len(),
            materials@.len() == i,
            forall|j: int| 0 <= j < i ==> (#[trigger] materials@[j])@ == material_of(sources@[j], dir@),
        decreases sources.len() - i,
    {
        materials.push(load_material(&sources[i], dir.as_str()));
        i += 1;
    }
    assert(material_views(materials@) =~= materials_of(sources@, dir@));
    let count = materials.len();
    let ghost models = scene.models@;
    let mut meshes: Vec<Mesh> = Vec::new();
    let mut k: usize = 0;
    assert(models.take(0) =~= Seq::empty());
    assert(mesh_views(meshes@) =~= Seq::empty());
    while k < scene.models.len()
        invariant
            k <= scene.models.len(),
            *parsed == Ok::<SourceScene, String>(*scene),
            scene.materials == Ok::<Vec<SourceMaterial>, String>(*sources),
            models == scene.models@,
            count == sources@.len(),
            meshes_of(models.take(k as int), count as nat) == Ok::<Seq<MeshView>, ErrorView>(
                mesh_views(meshes@),
            ),
            forall|j: int|
                0 <= j < meshes@.len() ==> (#[trigger] meshes@[j])@.indices_in_bounds()
                    && meshes@[j]@.material_below(count as nat),
        decreases scene.models.len() - k,
    {
        let ghost before = mesh_views(meshes@);
        proof {
            assert(models.take(k + 1).drop_last() =~= models.take(k as int));
            assert(models.take(k + 1).last() == models[k as int]);
        }
        match load_model(&scene.models[k], count) {
            Ok(m) => {
                meshes.push(m);
                assert(mesh_views(meshes@) =~= before.push(m@));
            },
            Err(e) => {
                proof {
                    lemma_meshes_error(models, count as nat, k + 1);
                }
                return Err(e);
            },
        }
        k += 1;
    }
    assert(models.take(k as int) =~= models);
    let model = Model3D { meshes, materials, format: ModelFormat::OBJ };
    assert forall|j: int| 0 <= j < model@.meshes.len() implies {
        &&& (#[trigger] model@.meshes[j]).indices_in_bounds()
        &&& model@.meshes[j].material_below(model@.materials.len())
    } by {
        assert(model@.meshes[j] == model.meshes@[j]@);
    }
    Ok(model)
}

/// Material-file-failure isolation: where only the material library could not be
/// read, the load fails with `MaterialLoad` and the reader's message, whatever
/// the geometry holds; it never fails with `ModelParsing`.
pub proof fn lemma_library_failure_isolated(path: Seq<char>, scene: SourceScene)
    requires
        scene.materials is Err,
    ensures
        scene_model(path, Ok(scene)) == Err::<ModelView, ErrorView>(
            ErrorView::MaterialLoad(library_failed_text() + scene.materials->Err_0@),
        ),
{
}

/// Optionality: every vertex of a model has a normal, a colour or a texture
/// coordinate exactly when the model's array for that attribute is not empty.
pub proof fn lemma_attribute_optionality(mesh: SourceMesh, i: int)
    requires
        vertices_of(mesh) is Ok,
        0 <= i < vertices_of(mesh)->Ok_0.len(),
    ensures
        vertices_of(mesh)->Ok_0.len() == vertex_count(mesh),
        vertices_of(mesh)->Ok_0[i].normal is Some <==> mesh.normals@.len() > 0,
        vertices_of(mesh)->Ok_0[i].color is Some <==> mesh.vertex_color@.len() > 0,
        vertices_of(mesh)->Ok_0[i].tex_coord is Some <==> mesh.texcoords@.len() > 0,
{
}

/// Index width: a mesh's index buffer is 32 bits wide or absent.
pub proof fn lemma_indices_are_wide(model: SourceModel, materials: nat)
    ensures
        mesh_of(model, materials) matches Ok(m) ==> (m.indices matches Some(ix)
            ==> ix is U32),
{
}

/// Every mesh of the model keeps its indices inside its vertices and its
/// material index below `materials`; the meshes are as many as the models.
pub proof fn lemma_meshes_in_range(models: Seq<SourceModel>, materials: nat)
    ensures
        meshes_of(models, materials) matches Ok(ms) ==> {
            &&& ms.len() == models.len()
            &&& forall|i: int|
                0 <= i < ms.len() ==> (#[trigger] ms[i]).indices_in_bounds()
                    && ms[i].material_below(materials)
        },
    decreases models.len(),
{
    if models.len() > 0 {
        lemma_meshes_in_range(models.drop_last(), materials);
    }
}

/// Referential integrity: what loads gives a well-formed model. Every material
/// index of a mesh is a position in the model's materials, every index of an
/// index buffer a position in its mesh's vertices.
pub proof fn lemma_scene_model_wf(path: Seq<char>, parsed: Result<SourceScene, String>)
    ensures
        scene_model(path, parsed) matches Ok(m) ==> m.wf() && m.format == ModelFormat::OBJ,
{
    if let Ok(scene) = parsed {
        if let Ok(materials) = scene.materials {
            lemma_meshes_in_range(scene.models@, materials@.len());
        }
    }
}

} // verus!
