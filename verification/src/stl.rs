//! The triangle-soup adapter: every triangle of an STL file becomes three
//! vertices that share the triangle's normal.

use vstd::prelude::*;
use crate::model::{
    loaded, ErrorView, Mesh, MeshView, Model3D, ModelError, ModelFormat, ModelView, RenderMode,
    Vertex,
};

verus! {

/// One triangle: its normal, and the positions of its corners in the vertex list
/// of the mesh it belongs to.
#[derive(Clone, Copy, Debug, PartialEq, Eq)]
pub struct Triangle {
    pub normal: [u32; 3],
    pub vertices: [usize; 3],
}

/// The triangles of one STL file, with the corner positions they share.
#[derive(Debug)]
pub struct TriangleMesh {
    pub vertices: Vec<[u32; 3]>,
    pub faces: Vec<Triangle>,
}

/// `TriangleMesh` over sequences.
pub struct TriangleMeshView {
    pub vertices: Seq<[u32; 3]>,
    pub faces: Seq<Triangle>,
}

impl View for TriangleMesh {
    type V = TriangleMeshView;

    open spec fn view(&self) -> TriangleMeshView {
        TriangleMeshView { vertices: self.vertices@, faces: self.faces@ }
    }
}

impl TriangleMeshView {
    /// The three corners of face `f` are positions in the vertex list.
    pub open spec fn face_in_bounds(self, f: int) -> bool {
        &&& self.faces[f].vertices[0] < self.vertices.len()
        &&& self.faces[f].vertices[1] < self.vertices.len()
        &&& self.faces[f].vertices[2] < self.vertices.len()
    }

    /// Every face refers to vertices that the mesh holds.
    pub open spec fn in_bounds(self) -> bool {
        forall|f: int| 0 <= f < self.faces.len() ==> #[trigger] self.face_in_bounds(f)
    }

    /// Corner `k` of face `f` as a vertex of the model: the corner's position, the
    /// face's normal, and nothing else.
    pub open spec fn corner(self, f: int, k: int) -> Vertex {
        Vertex {
            position: self.vertices[self.faces[f].vertices[k] as int],
            color: None,
            tex_coord: None,
            normal: Some(self.faces[f].normal),
        }
    }

    /// The vertices of the model: three per face, face after face.
    pub open spec fn soup(self) -> Seq<Vertex> {
        Seq::new(3 * self.faces.len(), |i: int| self.corner(i / 3, i % 3))
    }
}

/// The message of the error for a face that refers to a vertex the mesh lacks.
pub open spec fn missing_vertex_text() -> Seq<char> {
    "a face refers to a vertex that the file does not hold"@
}

/// The model that a triangle mesh stands for: one unnamed mesh of triangles
/// without indices and without material, or a parsing error where a face refers
/// to a vertex that the mesh lacks.
pub open spec fn soup_model(mesh: TriangleMeshView) -> Result<ModelView, ErrorView> {
    if mesh.in_bounds() {
        Ok(
            ModelView {
                meshes: seq![
                    MeshView {
                        vertices: mesh.soup(),
                        indices: None,
                        mode: RenderMode::Triangles,
                        material_index: None,
                        name: None,
                    },
                ],
                materials: Seq::empty(),
                format: ModelFormat::STL,
            },
        )
    } else {
        Err(ErrorView::ModelParsing(missing_vertex_text()))
    }
}

/// What `stl_io::read_stl` returns for a file of these bytes: the indexed mesh,
/// each number as its bit pattern, or the text of the reader's error.
pub uninterp spec fn stl_read(bytes: Seq<u8>) -> Result<TriangleMeshView, Seq<char>>;

/// Calls `stl_io::read_stl` on the bytes. Nothing is claimed of the result but
/// that it is the function `stl_read` of the bytes; that the faces refer to
/// vertices of the mesh is tested by the caller, not assumed.
#[verifier::external_body]
fn read_stl(bytes: &[u8]) -> (r: Result<TriangleMesh, String>)
    ensures
        match r {
            Ok(m) => stl_read(bytes@) == Ok::<TriangleMeshView, Seq<char>>(m@),
            Err(e) => stl_read(bytes@) == Err::<TriangleMeshView, Seq<char>>(e@),
        },
{
    match stl_io::read_stl(&mut std::io::Cursor::new(bytes)) {
        Ok(mesh) => Ok(TriangleMesh {
            vertices: mesh.vertices.iter().map(|v| v.0.map(|c| c.to_bits())).collect(),
            faces: mesh.faces.iter().map(|f| Triangle {
                normal: f.normal.0.map(|c| c.to_bits()),
                vertices: f.vertices,
            }).collect(),
        }),
        Err(e) => Err(e.to_string()),
    }
}

/// Tells whether the three corners of `face` are positions below `n`.
fn face_below(face: &Triangle, n: usize) -> (r: bool)
    ensures
        r == (face.vertices[0] < n && face.vertices[1] < n && face.vertices[2] < n),
{
    face.vertices[0] < n && face.vertices[1] < n && face.vertices[2] < n
}

/// Builds the model of a triangle mesh.
pub fn build_model(mesh: &TriangleMesh) -> (r: Result<Model3D, ModelError>)
    ensures
        loaded(r) == soup_model(mesh@),
        r matches Ok(m) ==> m@.wf(),
{
    let n = mesh.vertices.len();
    let mut vertices: Vec<Vertex> = Vec::new();
    let mut f: usize = 0;
    while f < mesh.faces.len()
        invariant
            f <= mesh.faces.len(),
            n == mesh.vertices.len(),
            vertices@.len() == 3 * f,
            forall|g: int| 0 <= g < f ==> #[trigger] mesh@.face_in_bounds(g),
            forall|i: int| 0 <= i < 3 * f ==> vertices@[i] == mesh@.corner(i / 3, i % 3),
        decreases mesh.faces.len() - f,
    {
        let face = &mesh.faces[f];
        if !face_below(face, n) {
            assert(!mesh@.face_in_bounds(f as int));
            return Err(
                ModelError::ModelParsing(
                    "a face refers to a vertex that the file does not hold".to_owned(),
                ),
            );
        }
        assert(mesh@.face_in_bounds(f as int));
        let normal = face.normal;
        vertices.push(
            Vertex {
                position: mesh.vertices[face.vertices[0]],
                color: None,
                tex_coord: None,
                normal: Some(normal),
            },
        );
        vertices.push(
            Vertex {
                position: mesh.vertices[face.vertices[1]],
                color: None,
                tex_coord: None,
                normal: Some(normal),
            },
        );
        vertices.push(
            Vertex {
                position: mesh.vertices[face.vertices[2]],
                color: None,
                tex_coord: None,
                normal: Some(normal),
            },
        );
        f += 1;
    }
    assert(vertices@ =~= mesh@.soup());
    let soup = Mesh {
        vertices,
        indices: None,
        mode: RenderMode::Triangles,
        material_index: None,
        name: None,
    };
    let mut meshes: Vec<Mesh> = Vec::new();
    meshes.push(soup);
    let model = Model3D { meshes, materials: Vec::new(), format: ModelFormat::STL };
    assert(model@.meshes =~= seq![soup@]);
    assert(model@.materials =~= Seq::empty());
    Ok(model)
}

/// What loading a file of these bytes gives.
pub open spec fn stl_loaded(bytes: Seq<u8>) -> Result<ModelView, ErrorView> {
    match stl_read(bytes) {
        Ok(mesh) => soup_model(mesh),
        Err(e) => Err(ErrorView::ModelParsing(e)),
    }
}

/// Loads the model of an STL file from the file's bytes, ASCII or binary: the
/// model of the triangle mesh that the reader returns, or `ModelParsing` with the
/// reader's message where it fails.
pub fn load(bytes: &[u8]) -> (r: Result<Model3D, ModelError>)
    ensures
        loaded(r) == stl_loaded(bytes@),
        r matches Ok(m) ==> m@.wf(),
{
    match read_stl(bytes) {
        Ok(mesh) => build_model(&mesh),
        Err(e) => Err(ModelError::ModelParsing(e)),
    }
}

/// Flat shading: every vertex of the stream carries the normal of the triangle
/// it belongs to, and neither a texture coordinate nor a colour.
pub proof fn lemma_soup_flat_shaded(mesh: TriangleMeshView, i: int)
    requires
        0 <= i < 3 * mesh.faces.len(),
    ensures
        mesh.soup()[i].normal == Some(mesh.faces[i / 3].normal),
        mesh.soup()[i].tex_coord is None,
        mesh.soup()[i].color is None,
{
}

/// A triangle mesh loads as one mesh of three vertices per triangle, without
/// index buffer and without materials, and such a model is well formed.
pub proof fn lemma_soup_shape(mesh: TriangleMeshView)
    ensures
        soup_model(mesh) matches Ok(m) ==> {
            &&& m.wf()
            &&& m.format == ModelFormat::STL
            &&& m.materials.len() == 0
            &&& m.meshes.len() == 1
            &&& m.meshes[0].indices is None
            &&& m.meshes[0].material_index is None
            &&& m.meshes[0].vertices.len() == 3 * mesh.faces.len()
        },
{
}

} // verus!
