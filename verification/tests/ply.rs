use modelz::ply;
use modelz::ply::{Element, Face, PlyValue, Property};
use modelz::{Model3D, ModelError, ModelFormat, RenderMode, Source};

const CUBE: &str = "ply\nformat ascii 1.0\ncomment a cube\nelement vertex 8\nproperty float x\nproperty float y\nproperty float z\nproperty float nx\nproperty float ny\nproperty float nz\nproperty float s\nproperty float t\nproperty uchar red\nelement face 12\nproperty list uchar uint vertex_indices\nend_header\n0 0 0 -1 -1 -1 0.0 0.0 255\n1 0 0 1 -1 -1 0.5 0.0 255\n1 1 0 1 1 -1 0.5 0.5 255\n0 1 0 -1 1 -1 0.0 0.5 255\n0 0 1 -1 -1 1 0.0 0.0 255\n1 0 1 1 -1 1 0.5 0.0 255\n1 1 1 1 1 1 0.5 0.5 255\n0 1 1 -1 1 1 0.0 0.5 255\n3 0 2 1\n3 0 3 2\n3 4 5 6\n3 4 6 7\n3 0 1 5\n3 0 5 4\n3 3 7 6\n3 3 6 2\n3 0 4 7\n3 0 7 3\n3 1 2 6\n3 1 6 5\n";

fn float(key: &str, v: f32) -> Property {
    Property { key: key.to_string(), value: PlyValue::Float(v.to_bits()) }
}

fn corners(list: &[u32]) -> Vec<Property> {
    vec![Property { key: "vertex_indices".to_string(), value: PlyValue::ListUInt(list.to_vec()) }]
}

fn point(x: f32, y: f32, z: f32) -> Vec<Property> {
    vec![float("x", x), float("y", y), float("z", z)]
}

fn b3(v: [f32; 3]) -> [u32; 3] {
    v.map(|c| c.to_bits())
}

fn b2(v: [f32; 2]) -> [u32; 2] {
    v.map(|c| c.to_bits())
}

#[test]
fn load_ply() {
    let source = Source::Ply(CUBE.as_bytes().to_vec());
    let model = Model3D::from_format("tests/cube.ply", &ModelFormat::PLY, &source)
        .expect("Failed to load ply model");
    assert_eq!(model.format, ModelFormat::PLY);
    assert_eq!(model.meshes.len(), 1);
    assert!(model.materials.is_empty());
    let mesh = &model.meshes[0];
    assert_eq!(mesh.vertices.len(), 36);
    assert!(mesh.indices.is_none());
    assert!(mesh.material_index.is_none());
    assert_eq!(mesh.mode, RenderMode::Triangles);
    for vert in &mesh.vertices {
        println!("{:?}", vert);
    }
}

#[test]
fn ply_cube_vertices_follow_the_faces() {
    let model = ply::load(CUBE.as_bytes()).expect("the cube loads");
    let v = &model.meshes[0].vertices;
    // first face: 0 2 1
    assert_eq!(v[0].position, b3([0.0, 0.0, 0.0]));
    assert_eq!(v[1].position, b3([1.0, 1.0, 0.0]));
    assert_eq!(v[2].position, b3([1.0, 0.0, 0.0]));
    // last face: 1 6 5
    assert_eq!(v[33].position, b3([1.0, 0.0, 0.0]));
    assert_eq!(v[34].position, b3([1.0, 1.0, 1.0]));
    assert_eq!(v[35].position, b3([1.0, 0.0, 1.0]));
    // each component of the normal comes from its own property
    assert_eq!(v[1].normal, Some(b3([1.0, 1.0, -1.0])));
    assert_eq!(v[35].normal, Some(b3([1.0, -1.0, 1.0])));
    assert_eq!(v[1].tex_coord, Some(b2([0.5, 0.5])));
    assert_eq!(v[2].tex_coord, Some(b2([0.5, 0.0])));
    for vert in v {
        assert_eq!(vert.color, None);
    }
}

#[test]
fn ply_vertex_set_property_reads_known_keys() {
    let mut v = ply::Vertex::new();
    assert_eq!(v.x, 0);
    assert_eq!(v.x_norm, None);
    assert_eq!(v.tex_y, None);
    v.set_property("x", &PlyValue::Float(1));
    v.set_property("y", &PlyValue::Float(2));
    v.set_property("z", &PlyValue::Float(3));
    v.set_property("nx", &PlyValue::Float(4));
    v.set_property("ny", &PlyValue::Float(5));
    v.set_property("nz", &PlyValue::Float(6));
    v.set_property("u", &PlyValue::Float(7));
    v.set_property("v", &PlyValue::Float(8));
    assert_eq!((v.x, v.y, v.z), (1, 2, 3));
    assert_eq!((v.x_norm, v.y_norm, v.z_norm), (Some(4), Some(5), Some(6)));
    assert_eq!((v.tex_x, v.tex_y), (Some(7), Some(8)));
    let m = v.to_model();
    assert_eq!(m.position, [1, 2, 3]);
    assert_eq!(m.normal, Some([4, 5, 6]));
    assert_eq!(m.tex_coord, Some([7, 8]));
    assert_eq!(m.color, None);
}

#[test]
fn ply_vertex_accepts_every_spelling_of_texture_axes() {
    for (u, v) in [("u", "v"), ("s", "t"), ("tx", "ty"), ("texture_u", "texture_v")] {
        let mut vertex = ply::Vertex::new();
        vertex.set_property(u, &PlyValue::Float(11));
        vertex.set_property(v, &PlyValue::Float(12));
        assert_eq!(vertex.to_model().tex_coord, Some([11, 12]));
    }
}

#[test]
fn ply_vertex_ignores_unknown_keys_and_other_types() {
    let mut v = ply::Vertex::new();
    v.set_property("red", &PlyValue::Other);
    v.set_property("x", &PlyValue::Other);
    v.set_property("x", &PlyValue::ListUInt(vec![1, 2, 3]));
    v.set_property("confidence", &PlyValue::Float(9));
    v.set_property("X", &PlyValue::Float(9));
    assert_eq!(v, ply::Vertex::new());
}

#[test]
fn ply_partial_normal_or_texture_is_absent() {
    let mut v = ply::Vertex::new();
    v.set_property("nx", &PlyValue::Float(4));
    v.set_property("nz", &PlyValue::Float(6));
    v.set_property("u", &PlyValue::Float(7));
    let m = v.to_model();
    assert_eq!(m.normal, None);
    assert_eq!(m.tex_coord, None);
    v.set_property("ny", &PlyValue::Float(5));
    assert_eq!(v.to_model().normal, Some([4, 5, 6]));
    assert_eq!(v.to_model().tex_coord, None);
}

#[test]
fn ply_face_set_property_takes_the_index_list() {
    let mut f = Face::new();
    assert!(f.vertex_index.is_empty());
    f.set_property("vertex_index", &PlyValue::ListUInt(vec![3, 4, 5]));
    assert_eq!(f.vertex_index, vec![3, 4, 5]);
    f.set_property("vertex_indices", &PlyValue::ListUInt(vec![0, 1, 2, 3]));
    assert_eq!(f.vertex_index, vec![0, 1, 2, 3]);
    f.set_property("texcoord", &PlyValue::ListUInt(vec![9]));
    f.set_property("vertex_index", &PlyValue::Float(1));
    f.set_property("vertex_index", &PlyValue::Other);
    assert_eq!(f.vertex_index, vec![0, 1, 2, 3]);
}

#[test]
fn ply_build_model_duplicates_shared_vertices() {
    let elements = vec![
        Element {
            name: "vertex".to_string(),
            rows: vec![
                point(0.0, 0.0, 0.0),
                point(1.0, 0.0, 0.0),
                point(0.0, 1.0, 0.0),
                point(1.0, 1.0, 0.0),
            ],
        },
        Element { name: "face".to_string(), rows: vec![corners(&[0, 1, 2]), corners(&[2, 1, 3])] },
    ];
    let model = ply::build_model(&elements).expect("two faces");
    let v = &model.meshes[0].vertices;
    assert_eq!(v.len(), 3 * 2);
    assert!(model.meshes[0].indices.is_none());
    assert_eq!(v[1], v[4]);
    assert_eq!(v[2], v[3]);
    assert_eq!(v[5].position, b3([1.0, 1.0, 0.0]));
    assert_eq!(v[0].normal, None);
    assert_eq!(v[0].tex_coord, None);
}

#[test]
fn ply_only_the_first_three_corners_are_used() {
    let elements = vec![
        Element {
            name: "vertex".to_string(),
            rows: vec![
                point(0.0, 0.0, 0.0),
                point(1.0, 0.0, 0.0),
                point(0.0, 1.0, 0.0),
                point(1.0, 1.0, 0.0),
            ],
        },
        Element { name: "face".to_string(), rows: vec![corners(&[3, 2, 1, 0, 99])] },
    ];
    let model = ply::build_model(&elements).expect("a quad");
    let v = &model.meshes[0].vertices;
    assert_eq!(v.len(), 3);
    assert_eq!(v[0].position, b3([1.0, 1.0, 0.0]));
    assert_eq!(v[2].position, b3([1.0, 0.0, 0.0]));
}

#[test]
fn ply_faces_may_come_before_vertices() {
    let elements = vec![
        Element { name: "face".to_string(), rows: vec![corners(&[0, 1, 2])] },
        Element {
            name: "vertex".to_string(),
            rows: vec![point(0.0, 0.0, 0.0), point(1.0, 0.0, 0.0), point(0.0, 1.0, 0.0)],
        },
    ];
    let model = ply::build_model(&elements).expect("the vertex list is read whole first");
    assert_eq!(model.meshes[0].vertices.len(), 3);
}

#[test]
fn ply_bad_faces_are_parsing_errors() {
    let vertices = Element {
        name: "vertex".to_string(),
        rows: vec![point(0.0, 0.0, 0.0), point(1.0, 0.0, 0.0), point(0.0, 1.0, 0.0)],
    };
    let text = "a face has fewer than three corners or refers to a vertex that the file does not hold";
    for list in [vec![0u32, 1], vec![], vec![0, 1, 3], vec![7, 1, 2]] {
        let elements = vec![
            Element { name: "vertex".to_string(), rows: vec![point(0.0, 0.0, 0.0), point(1.0, 0.0, 0.0), point(0.0, 1.0, 0.0)] },
            Element { name: "face".to_string(), rows: vec![corners(&[0, 1, 2]), corners(&list)] },
        ];
        assert_eq!(
            ply::build_model(&elements).err(),
            Some(ModelError::ModelParsing(text.to_string()))
        );
    }
    // a face row without an index list has no corners
    let elements = vec![
        vertices,
        Element { name: "face".to_string(), rows: vec![vec![float("area", 1.0)]] },
    ];
    assert_eq!(ply::build_model(&elements).err(), Some(ModelError::ModelParsing(text.to_string())));
}

#[test]
fn ply_unexpected_element_is_a_parsing_error() {
    let elements = vec![
        Element { name: "vertex".to_string(), rows: vec![] },
        Element { name: "edge".to_string(), rows: vec![] },
        Element { name: "face".to_string(), rows: vec![corners(&[0, 1])] },
    ];
    assert_eq!(
        ply::build_model(&elements).err(),
        Some(ModelError::ModelParsing(
            "the file holds an element that is neither vertex nor face".to_string()
        ))
    );
    let text = "ply\nformat ascii 1.0\nelement edge 1\nproperty int a\nend_header\n1\n";
    assert!(matches!(ply::load(text.as_bytes()), Err(ModelError::ModelParsing(_))));
}

#[test]
fn ply_empty_file_list_is_an_empty_mesh() {
    let model = ply::build_model(&vec![]).expect("nothing to refuse");
    assert_eq!(model.meshes.len(), 1);
    assert!(model.meshes[0].vertices.is_empty());
    let text = "ply\nformat ascii 1.0\nend_header\n";
    let model = ply::load(text.as_bytes()).expect("a header alone");
    assert!(model.meshes[0].vertices.is_empty());
}

#[test]
fn ply_reader_errors_are_parsing_errors() {
    for text in ["", "plx\n", "ply\nformat ascii 1.0\nelement vertex 2\nproperty float x\nend_header\n1.0\n"] {
        match ply::load(text.as_bytes()) {
            Err(ModelError::ModelParsing(m)) => assert!(!m.is_empty()),
            other => panic!("{:?}", other.map(|m| m.format)),
        }
    }
}

const TOO_LARGE: &str = "the header holds a number that does not fit in 64 bits";

fn header(lines: &[&str]) -> String {
    let mut text = String::from("ply\nformat ascii 1.0\n");
    for line in lines {
        text.push_str(line);
        text.push('\n');
    }
    text.push_str("end_header\n");
    text
}

#[test]
fn ply_element_count_beyond_64_bits_is_refused_without_a_panic() {
    for count in ["18446744073709551616", "99999999999999999999", "000018446744073709551616"] {
        let text = header(&[&format!("element vertex {}", count), "property float x"]);
        assert!(!ply::check_header_numbers(text.as_bytes()));
        assert_eq!(
            ply::load(text.as_bytes()).err(),
            Some(ModelError::ModelParsing(TOO_LARGE.to_string()))
        );
        assert_eq!(
            ply::read(text.as_bytes()).err(),
            Some(ModelError::ModelParsing(TOO_LARGE.to_string()))
        );
    }
    let text = "element a\t 99999999999999999999\n";
    assert!(!ply::check_header_numbers(text.as_bytes()));
    assert!(matches!(ply::load(text.as_bytes()), Err(ModelError::ModelParsing(_))));
}

#[test]
fn ply_element_count_of_64_bits_goes_to_the_reader() {
    let text = header(&["element vertex 18446744073709551615", "property float x"]);
    assert!(ply::check_header_numbers(text.as_bytes()));
    // the reader finds no rows and says so
    match ply::load(text.as_bytes()) {
        Err(ModelError::ModelParsing(m)) => assert_ne!(m, TOO_LARGE),
        other => panic!("{:?}", other.map(|m| m.format)),
    }
}

#[test]
fn ply_leading_zeros_do_not_count() {
    let mut text =
        header(&["element vertex 0000000000000000000000000000001", "property float x"]);
    text.push_str("2.5\n");
    assert!(ply::check_header_numbers(text.as_bytes()));
    let elements = ply::read(text.as_bytes()).expect("one vertex");
    assert_eq!(elements.len(), 1);
    assert_eq!(elements[0].name, "vertex");
    assert_eq!(elements[0].rows.len(), 1);
    assert!(ply::load(text.as_bytes()).is_ok());
}

#[test]
fn ply_format_version_beyond_64_bits_is_refused() {
    for line in [
        "format ascii 99999999999999999999.0",
        "format ascii 1.99999999999999999999",
        "format binary_big_endian 1.18446744073709551616",
        "format  binary_little_endian\t18446744073709551616.0",
    ] {
        let text = format!("ply\n{}\nend_header\n", line);
        assert!(!ply::check_header_numbers(text.as_bytes()));
        assert_eq!(
            ply::load(text.as_bytes()).err(),
            Some(ModelError::ModelParsing(TOO_LARGE.to_string()))
        );
    }
    for line in [
        "format ascii 18446744073709551615.18446744073709551615",
        "format asciiz 99999999999999999999.0",
        "format ascii 1x99999999999999999999",
        "formats ascii 99999999999999999999.0",
    ] {
        let text = format!("ply\n{}\nend_header\n", line);
        assert!(ply::check_header_numbers(text.as_bytes()));
    }
}

#[test]
fn ply_digits_that_are_no_numbers_are_not_counted() {
    let text = header(&[
        "comment 123456789012345678901234567890",
        "obj_info 123456789012345678901234567890",
        "element vertex 1",
        "property float x99999999999999999999999",
        "property float nx",
    ]) + "1 2\n";
    assert!(ply::check_header_numbers(text.as_bytes()));
    let model = ply::load(text.as_bytes()).expect("long digits in comments are no numbers");
    assert!(model.meshes[0].vertices.is_empty());
    // the name of an element may hold digits
    let text = header(&["element v123456789012345678901234567890 0"]);
    assert!(ply::check_header_numbers(text.as_bytes()));
    assert_eq!(
        ply::load(text.as_bytes()).err(),
        Some(ModelError::ModelParsing(
            "the file holds an element that is neither vertex nor face".to_string()
        ))
    );
    for line in ["elementvertex 99999999999999999999", "element 99999999999999999999", " element v 99999999999999999999", "element v x 99999999999999999999"] {
        assert!(ply::check_header_numbers(header(&[line]).as_bytes()));
    }
}

#[test]
fn ply_partial_attributes_load_as_absent_beside_long_digits() {
    let text = header(&[
        "comment 00000000000000000000000000000000",
        "element vertex 3",
        "property float x",
        "property float y",
        "property float z",
        "property float nx",
        "property float nz",
        "property float u",
        "element face 1",
        "property list uchar uint vertex_indices",
    ]) + "0 0 0 1 1 7\n1 0 0 1 1 7\n0 1 0 1 1 7\n3 0 1 2\n";
    let model = ply::load(text.as_bytes()).expect("a valid file");
    let v = &model.meshes[0].vertices;
    assert_eq!(v.len(), 3);
    for vert in v {
        assert_eq!(vert.normal, None);
        assert_eq!(vert.tex_coord, None);
        assert_eq!(vert.color, None);
    }
    assert_eq!(v[1].position, b3([1.0, 0.0, 0.0]));
}

#[test]
fn ply_digits_of_the_payload_are_not_counted() {
    let text = "ply\nformat ascii 1.0\nelement vertex 1\nproperty double x\nend_header\nelement v 99999999999999999999\n";
    assert!(ply::check_header_numbers(text.as_bytes()));
    assert!(ply::check_header_numbers(b""));
    assert!(ply::check_header_numbers(b"end_header\nelement v 99999999999999999999"));
    assert!(!ply::check_header_numbers(b"xend_header\nelement v 99999999999999999999"));
}

#[test]
fn ply_skipped_keys_are_listed_row_by_row() {
    let elements = ply::read(CUBE.as_bytes()).expect("the cube reads");
    let skipped = ply::skipped_keys(&elements);
    // the cube declares one property that no reader takes: red, on each of 8 vertices
    assert_eq!(skipped.len(), 8);
    for s in &skipped {
        assert_eq!(s.kind, ply::Kind::Vertex);
        assert_eq!(s.key, "red");
    }
}

#[test]
fn ply_skipped_keys_follow_the_kind_of_the_row() {
    let elements = vec![
        Element {
            name: "face".to_string(),
            rows: vec![vec![
                float("x", 1.0),
                Property { key: "vertex_index".to_string(), value: PlyValue::ListUInt(vec![0]) },
                Property { key: "vertex_indices".to_string(), value: PlyValue::Other },
            ]],
        },
        Element { name: "edge".to_string(), rows: vec![vec![float("weight", 1.0)]] },
        Element {
            name: "vertex".to_string(),
            rows: vec![
                vec![float("x", 1.0), float("w", 1.0), float("texture_v", 1.0)],
                vec![Property { key: "y".to_string(), value: PlyValue::ListUInt(vec![]) }],
            ],
        },
    ];
    let skipped = ply::skipped_keys(&elements);
    let listed: Vec<(ply::Kind, &str)> = skipped.iter().map(|s| (s.kind, s.key.as_str())).collect();
    assert_eq!(
        listed,
        vec![
            (ply::Kind::Face, "x"),
            (ply::Kind::Face, "vertex_indices"),
            (ply::Kind::Vertex, "w"),
            (ply::Kind::Vertex, "y"),
        ]
    );
    assert!(ply::skipped_keys(&vec![]).is_empty());
}

#[test]
fn ply_row_takes_agrees_with_set_property() {
    assert!(ply::row_takes(ply::Kind::Vertex, "nx", &PlyValue::Float(1)));
    assert!(ply::row_takes(ply::Kind::Vertex, "ty", &PlyValue::Float(1)));
    assert!(!ply::row_takes(ply::Kind::Vertex, "nx", &PlyValue::Other));
    assert!(!ply::row_takes(ply::Kind::Vertex, "vertex_index", &PlyValue::ListUInt(vec![])));
    assert!(ply::row_takes(ply::Kind::Face, "vertex_index", &PlyValue::ListUInt(vec![])));
    assert!(!ply::row_takes(ply::Kind::Face, "vertex_index", &PlyValue::Float(1)));
    assert!(!ply::row_takes(ply::Kind::Face, "nx", &PlyValue::Float(1)));
}

#[test]
fn ply_reader_failure_on_an_empty_file_is_model_parsing() {
    for _ in 0..3 {
        assert!(matches!(ply::load(b""), Err(ModelError::ModelParsing(_))));
        assert!(matches!(ply::read(b"plx\n"), Err(ModelError::ModelParsing(_))));
    }
}

#[test]
fn ply_binary_file_loads() {
    let mut bytes = b"ply\nformat binary_little_endian 1.0\nelement vertex 3\nproperty float x\nproperty float y\nproperty float z\nelement face 1\nproperty list uchar uint vertex_index\nend_header\n".to_vec();
    for c in [0.0f32, 0.0, 0.0, 2.0, 0.0, 0.0, 0.0, 3.0, 0.0] {
        bytes.extend_from_slice(&c.to_le_bytes());
    }
    bytes.push(3);
    for i in [2u32, 1, 0] {
        bytes.extend_from_slice(&i.to_le_bytes());
    }
    let model = ply::load(&bytes).expect("a binary file loads");
    let v = &model.meshes[0].vertices;
    assert_eq!(v.len(), 3);
    assert_eq!(v[0].position, b3([0.0, 3.0, 0.0]));
    assert_eq!(v[1].position, b3([2.0, 0.0, 0.0]));
}

#[test]
fn ply_checked_headers_never_panic_the_reader() {
    let words = ["element", "format", "ply", "comment", "property", "end_headers", "elementx", ""];
    let blanks = [" ", "\t", " \t ", ""];
    let names = [
        "v",
        "_a-1",
        "9v",
        "v9",
        "ascii",
        "binary_big_endian",
        "binary_little_endian",
        "float",
    ];
    let numbers = [
        "1",
        "18446744073709551615",
        "18446744073709551616",
        "00018446744073709551616",
        "1.0",
        "1.18446744073709551616",
        "18446744073709551616.1",
        "1.00018446744073709551615",
        "x",
        "",
    ];
    let tails = ["", " 1"];
    let mut passed = 0;
    let mut refused = 0;
    for word in words {
        for first in blanks {
            for name in names {
                for second in blanks {
                    for number in numbers {
                        for tail in tails {
                            let line = format!("{word}{first}{name}{second}{number}{tail}");
                            // a property follows, so that no element is without one
                            for text in [
                                format!("{line}\nproperty float x\n"),
                                format!("ply\nformat ascii 1.0\n{line}\nproperty float x\nend_header\n"),
                            ] {
                                if ply::check_header_numbers(text.as_bytes()) {
                                    let _ = ply::load(text.as_bytes());
                                    passed += 1;
                                } else {
                                    assert!(ply::load(text.as_bytes()).is_err());
                                    refused += 1;
                                }
                            }
                        }
                    }
                }
            }
        }
    }
    assert!(passed > 1000);
    assert!(refused > 100);
}

