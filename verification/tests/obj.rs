use modelz::obj;
use modelz::obj::{SourceMaterial, SourceMesh, SourceModel, SourceScene};
use modelz::{AlphaMode, Image, Indices, Model3D, ModelError, ModelFormat, RenderMode, Source};
use std::io::Cursor;

const CUBE: &str = "mtllib cube.mtl\no Cube\nv 0 0 0\nv 1 0 0\nv 1 1 0\nv 0 1 0\nv 0 0 1\nv 1 0 1\nv 1 1 1\nv 0 1 1\nusemtl Paint\nf 1 3 2\nf 1 4 3\nf 5 6 7\nf 5 7 8\nf 1 2 6\nf 1 6 5\nf 4 8 7\nf 4 7 3\nf 1 5 8\nf 1 8 4\nf 2 3 7\nf 2 7 6\n";

const LIBRARY: &str = "newmtl Paint\nKd 1.0 0.5 0.25\nd 0.5\nmap_Kd cube.png\n";

fn bits(v: &[f32]) -> Vec<u32> {
    v.iter().map(|c| c.to_bits()).collect()
}

/// Reads geometry and library from memory and lays the result out as the
/// adapter takes it.
fn read(geometry: &str, library: &str) -> Result<SourceScene, String> {
    let (models, materials) = tobj::load_obj_buf(
        &mut Cursor::new(geometry.as_bytes()),
        &tobj::GPU_LOAD_OPTIONS,
        |_| tobj::load_mtl_buf(&mut Cursor::new(library.as_bytes())),
    )
    .map_err(|e| e.to_string())?;
    Ok(SourceScene {
        models: models
            .into_iter()
            .map(|m| SourceModel {
                name: m.name,
                mesh: SourceMesh {
                    positions: bits(&m.mesh.positions),
                    vertex_color: bits(&m.mesh.vertex_color),
                    normals: bits(&m.mesh.normals),
                    texcoords: bits(&m.mesh.texcoords),
                    indices: m.mesh.indices,
                    material_id: m.mesh.material_id,
                },
            })
            .collect(),
        materials: materials
            .map(|list| {
                list.into_iter()
                    .map(|m| SourceMaterial {
                        name: m.name,
                        diffuse: m.diffuse.map(|d| d.map(|c| c.to_bits())),
                        dissolve: m.dissolve.map(|d| d.to_bits()),
                        diffuse_texture: m.diffuse_texture,
                    })
                    .collect()
            })
            .map_err(|e| e.to_string()),
    })
}

fn plain_mesh(vertices: usize) -> SourceMesh {
    SourceMesh {
        positions: (0..3 * vertices as u32).collect(),
        vertex_color: vec![],
        normals: vec![],
        texcoords: vec![],
        indices: vec![],
        material_id: None,
    }
}

fn scene_of(mesh: SourceMesh, materials: usize) -> Result<SourceScene, String> {
    Ok(SourceScene {
        models: vec![SourceModel { mesh, name: "m".to_string() }],
        materials: Ok((0..materials)
            .map(|i| SourceMaterial {
                name: format!("mat{}", i),
                diffuse: None,
                dissolve: None,
                diffuse_texture: None,
            })
            .collect()),
    })
}

#[test]
fn load_obj() {
    let source = Source::Obj(read(CUBE, LIBRARY));
    let model = Model3D::from_format("tests/cube.obj", &ModelFormat::OBJ, &source)
        .expect("Failed to load obj model");
    assert_eq!(model.format, ModelFormat::OBJ);
    assert_eq!(model.meshes.len(), 1);
    assert_eq!(model.materials.len(), 1);
    for mesh in &model.meshes {
        println!("{}", mesh.name.clone().unwrap()); // obj meshes have always a name
        assert_eq!(mesh.vertices.len(), 8);
        match &mesh.indices {
            Some(Indices::U32(ix)) => {
                assert_eq!(ix.len(), 36);
                assert!(ix.iter().all(|i| (*i as usize) < mesh.vertices.len()));
            }
            other => panic!("{:?}", other),
        }
        assert_eq!(mesh.material_index, Some(0));
        assert_eq!(mesh.mode, RenderMode::TriangleFan);
        for vert in &mesh.vertices {
            println!("{:?}", vert);
            assert_eq!(vert.normal, None);
            assert_eq!(vert.tex_coord, None);
            assert_eq!(vert.color, None);
        }
    }
    assert_eq!(model.meshes[0].name.as_deref(), Some("Cube"));
    for material in &model.materials {
        if let Some(diffuse) = &material.diffuse_texture {
            println!("{:?}", diffuse.name)
        }
        println!("{}", material.name.clone().unwrap_or("Unknown".to_string()))
    }
    let paint = &model.materials[0];
    assert_eq!(paint.name.as_deref(), Some("Paint"));
    assert_eq!(paint.base_color, Some([1.0f32, 0.5, 0.25, 1.0].map(|c| c.to_bits())));
    assert_eq!(paint.alpha_cutoff, Some(0.5f32.to_bits()));
    assert_eq!(paint.alpha_mode, AlphaMode::Opaque);
    assert!(!paint.double_sided);
    let texture = paint.diffuse_texture.as_ref().expect("the library names a texture");
    assert_eq!(texture.name.as_deref(), Some("cube.png"));
    match &texture.image {
        Image::Path { path, mime_type } => {
            assert_eq!(std::path::Path::new(path), std::path::Path::new("tests").join("cube.png"));
            assert_eq!(*mime_type, None);
        }
        other => panic!("{:?}", other),
    }
    assert_eq!(texture.sampler.mag_filter, None);
    assert_eq!(texture.sampler.wrap_s, modelz::WrappingMode::Repeat);
}

#[test]
fn obj_broken_library_is_material_load() {
    let parsed = read(CUBE, "newmtl Paint\nKd one two three\n");
    assert!(parsed.as_ref().expect("the geometry is intact").materials.is_err());
    match obj::load("tests/cube.obj", &parsed) {
        Err(ModelError::MaterialLoad(text)) => {
            assert!(text.starts_with("Failed to load MTL file, "));
            assert!(text.len() > "Failed to load MTL file, ".len());
        }
        other => panic!("{:?}", other.map(|m| m.format)),
    }
}

#[test]
fn obj_library_failure_keeps_the_readers_message() {
    let parsed = Ok(SourceScene { models: vec![], materials: Err("no such file".to_string()) });
    assert_eq!(
        obj::load("cube.obj", &parsed).err(),
        Some(ModelError::MaterialLoad("Failed to load MTL file, no such file".to_string()))
    );
}

#[test]
fn obj_broken_geometry_is_model_parsing() {
    let parsed = read("v 1 2\nf 1 2 3\n", LIBRARY);
    assert!(parsed.is_err());
    assert!(matches!(obj::load("cube.obj", &parsed), Err(ModelError::ModelParsing(_))));
    let parsed: Result<SourceScene, String> = Err("face parse error".to_string());
    assert_eq!(
        obj::load("cube.obj", &parsed).err(),
        Some(ModelError::ModelParsing("face parse error".to_string()))
    );
}

#[test]
fn obj_load_material_without_colour_or_texture() {
    let m = SourceMaterial {
        name: "bare".to_string(),
        diffuse: None,
        dissolve: None,
        diffuse_texture: None,
    };
    let out = obj::load_material(&m, "dir");
    assert_eq!(out.base_color, None);
    assert_eq!(out.alpha_cutoff, None);
    assert!(out.diffuse_texture.is_none());
    assert_eq!(out.alpha_mode, AlphaMode::Opaque);
    assert!(!out.double_sided);
    assert_eq!(out.name.as_deref(), Some("bare"));
}

#[test]
fn obj_load_material_resolves_the_texture_below_the_directory() {
    let m = SourceMaterial {
        name: "wood".to_string(),
        diffuse: Some([1, 2, 3]),
        dissolve: Some(4),
        diffuse_texture: Some("maps/wood.png".to_string()),
    };
    let out = obj::load_material(&m, "assets/models");
    assert_eq!(out.base_color, Some([1, 2, 3, 0x3F80_0000]));
    assert_eq!(out.base_color.unwrap()[3], 1.0f32.to_bits());
    assert_eq!(out.alpha_cutoff, Some(4));
    let texture = out.diffuse_texture.expect("a texture");
    assert_eq!(texture.name.as_deref(), Some("maps/wood.png"));
    match texture.image {
        Image::Path { path, mime_type } => {
            assert_eq!(
                std::path::PathBuf::from(path),
                std::path::Path::new("assets/models").join("maps/wood.png")
            );
            assert_eq!(mime_type, None);
        }
        other => panic!("{:?}", other),
    }
}

#[test]
fn obj_load_mesh_walks_the_arrays_at_their_strides() {
    let mesh = SourceMesh {
        positions: vec![1, 2, 3, 4, 5, 6],
        vertex_color: vec![11, 12, 13, 14, 15, 16],
        normals: vec![21, 22, 23, 24, 25, 26],
        texcoords: vec![31, 32, 33, 34],
        indices: vec![],
        material_id: None,
    };
    let v = obj::load_mesh(&mesh).expect("every array covers both vertices");
    assert_eq!(v.len(), 2);
    assert_eq!(v[0].position, [1, 2, 3]);
    assert_eq!(v[1].position, [4, 5, 6]);
    assert_eq!(v[1].color, Some([14, 15, 16, 0]));
    assert_eq!(v[1].color.unwrap()[3], 0.0f32.to_bits());
    assert_eq!(v[1].normal, Some([24, 25, 26]));
    assert_eq!(v[0].tex_coord, Some([31, 32]));
    assert_eq!(v[1].tex_coord, Some([33, 34]));
}

#[test]
fn obj_load_mesh_ignores_a_trailing_partial_position() {
    let mesh = SourceMesh {
        positions: vec![1, 2, 3, 4, 5],
        vertex_color: vec![],
        normals: vec![],
        texcoords: vec![],
        indices: vec![],
        material_id: None,
    };
    let v = obj::load_mesh(&mesh).expect("one whole vertex");
    assert_eq!(v.len(), 1);
    assert_eq!(v[0].normal, None);
    assert_eq!(v[0].color, None);
    assert_eq!(v[0].tex_coord, None);
}

#[test]
fn obj_short_attribute_is_model_parsing() {
    let text = "an attribute array is shorter than the positions ask for";
    let mut mesh = plain_mesh(2);
    mesh.normals = vec![1, 2, 3];
    assert_eq!(obj::load_mesh(&mesh).err(), Some(ModelError::ModelParsing(text.to_string())));
    let mut mesh = plain_mesh(2);
    mesh.texcoords = vec![1, 2, 3];
    assert_eq!(obj::load_mesh(&mesh).err(), Some(ModelError::ModelParsing(text.to_string())));
    let mut mesh = plain_mesh(2);
    mesh.vertex_color = vec![1];
    assert_eq!(obj::load_mesh(&mesh).err(), Some(ModelError::ModelParsing(text.to_string())));
    let mut mesh = plain_mesh(2);
    mesh.texcoords = vec![1, 2, 3, 4];
    assert!(obj::load_mesh(&mesh).is_ok());
}

#[test]
fn obj_index_out_of_range_is_model_parsing() {
    let mut mesh = plain_mesh(3);
    mesh.indices = vec![0, 1, 3];
    assert_eq!(
        obj::load("m.obj", &scene_of(mesh, 0)).err(),
        Some(ModelError::ModelParsing("an index refers to no vertex of its model".to_string()))
    );
    let mut mesh = plain_mesh(3);
    mesh.indices = vec![0, 1, 2];
    let model = obj::load("m.obj", &scene_of(mesh, 0)).expect("indices in range");
    assert_eq!(model.meshes[0].indices, Some(Indices::U32(vec![0, 1, 2])));
}

#[test]
fn obj_material_index_out_of_range_is_model_parsing() {
    let mut mesh = plain_mesh(3);
    mesh.material_id = Some(2);
    assert_eq!(
        obj::load("m.obj", &scene_of(mesh, 2)).err(),
        Some(ModelError::ModelParsing(
            "a model refers to a material that the library does not hold".to_string()
        ))
    );
    let mut mesh = plain_mesh(3);
    mesh.material_id = Some(1);
    let model = obj::load("m.obj", &scene_of(mesh, 2)).expect("material in range");
    assert_eq!(model.meshes[0].material_index, Some(1));
    assert_eq!(model.materials.len(), 2);
    assert_eq!(model.materials[1].name.as_deref(), Some("mat1"));
}

#[test]
fn obj_empty_index_list_gives_no_index_buffer() {
    let model = obj::load("m.obj", &scene_of(plain_mesh(3), 0)).expect("no indices");
    assert_eq!(model.meshes[0].indices, None);
    assert_eq!(model.meshes[0].material_index, None);
    assert_eq!(model.meshes[0].name.as_deref(), Some("m"));
    assert_eq!(model.meshes[0].vertices.len(), 3);
}

#[test]
fn obj_first_failing_model_ends_the_load() {
    let mut bad_index = plain_mesh(1);
    bad_index.indices = vec![5];
    let mut bad_material = plain_mesh(1);
    bad_material.material_id = Some(0);
    let parsed = Ok(SourceScene {
        models: vec![
            SourceModel { mesh: plain_mesh(1), name: "a".to_string() },
            SourceModel { mesh: bad_material, name: "b".to_string() },
            SourceModel { mesh: bad_index, name: "c".to_string() },
        ],
        materials: Ok(vec![]),
    });
    assert_eq!(
        obj::load("m.obj", &parsed).err(),
        Some(ModelError::ModelParsing(
            "a model refers to a material that the library does not hold".to_string()
        ))
    );
}
