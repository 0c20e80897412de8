//! The point and face list adapter: the faces of a PLY file are expanded into a
//! flat stream of vertices, three per face, with no index buffer.
//!
//! The file is read by `ply_rs` into rows of named properties. What a row means
//! is decided here: a vertex row by `Vertex::set_property`, a face row by
//! `Face::set_property`.

use vstd::prelude::*;
use vstd::slice::slice_to_vec;
use crate::model;
use crate::model::{
    loaded, ErrorView, Mesh, MeshView, Model3D, ModelError, ModelFormat, ModelView, RenderMode,
};
use crate::path::same_text;

verus! {

/// The value of one property of one row, as far as the adapter reads it.
#[derive(Debug)]
pub enum PlyValue {
    /// A 32-bit floating point scalar, as its bit pattern.
    Float(u32),
    /// A list of unsigned 32-bit integers.
    ListUInt(Vec<u32>),
    /// A value of any other type.
    Other,
}

/// `PlyValue` over sequences.
pub enum PlyValueView {
    Float(u32),
    ListUInt(Seq<u32>),
    Other,
}

impl View for PlyValue {
    type V = PlyValueView;

    open spec fn view(&self) -> PlyValueView {
        match *self {
            PlyValue::Float(v) => PlyValueView::Float(v),
            PlyValue::ListUInt(v) => PlyValueView::ListUInt(v@),
            PlyValue::Other => PlyValueView::Other,
        }
    }
}

/// One property of one row: the name the header declares it under, and its value.
#[derive(Debug)]
pub struct Property {
    pub key: String,
    pub value: PlyValue,
}

/// `Property` over sequences.
pub struct PropertyView {
    pub key: Seq<char>,
    pub value: PlyValueView,
}

impl View for Property {
    type V = PropertyView;

    open spec fn view(&self) -> PropertyView {
        PropertyView { key: self.key@, value: self.value@ }
    }
}

/// The rows of one element of the file, each with its properties in the order of
/// the header.
#[derive(Debug)]
pub struct Element {
    pub name: String,
    pub rows: Vec<Vec<Property>>,
}

/// `Element` over sequences.
pub struct ElementView {
    pub name: Seq<char>,
    pub rows: Seq<Seq<PropertyView>>,
}

/// The views of the properties of a row.
pub open spec fn row_view(row: Seq<Property>) -> Seq<PropertyView> {
    Seq::new(row.len(), |i: int| row[i]@)
}

/// The views of the rows of an element.
pub open spec fn rows_view(rows: Seq<Vec<Property>>) -> Seq<Seq<PropertyView>> {
    Seq::new(rows.len(), |i: int| row_view(rows[i]@))
}

impl View for Element {
    type V = ElementView;

    open spec fn view(&self) -> ElementView {
        ElementView { name: self.name@, rows: rows_view(self.rows@) }
    }
}

/// The views of the elements of a file, in file order.
pub open spec fn element_views(elements: Seq<Element>) -> Seq<ElementView> {
    Seq::new(elements.len(), |i: int| elements[i]@)
}

/// A vertex row as it is being read: the position, and each component of the
/// normal and of the texture coordinate that the row has given so far.
#[derive(Clone, Copy, Debug, PartialEq, Eq)]
pub struct Vertex {
    pub x: u32,
    pub y: u32,
    pub z: u32,
    pub x_norm: Option<u32>,
    pub y_norm: Option<u32>,
    pub z_norm: Option<u32>,
    pub tex_x: Option<u32>,
    pub tex_y: Option<u32>,
}

/// The property names that exporters use for the first texture axis.
pub open spec fn is_u_key(key: Seq<char>) -> bool {
    key == "u"@ || key == "s"@ || key == "tx"@ || key == "texture_u"@
}

/// The property names that exporters use for the second texture axis.
pub open spec fn is_v_key(key: Seq<char>) -> bool {
    key == "v"@ || key == "t"@ || key == "ty"@ || key == "texture_v"@
}

impl Vertex {
    /// The vertex before any property is read: at the origin, with no normal and
    /// no texture coordinate.
    pub open spec fn blank() -> Vertex {
        Vertex {
            x: 0,
            y: 0,
            z: 0,
            x_norm: None,
            y_norm: None,
            z_norm: None,
            tex_x: None,
            tex_y: None,
        }
    }

    /// The vertex after one more property. A floating point scalar under a known
    /// name sets its field; any other name or type leaves the vertex as it is.
    pub open spec fn with(self, key: Seq<char>, value: PlyValueView) -> Vertex {
        match value {
            PlyValueView::Float(v) => {
                if key == "x"@ {
                    Vertex { x: v, ..self }
                } else if key == "y"@ {
                    Vertex { y: v, ..self }
                } else if key == "z"@ {
                    Vertex { z: v, ..self }
                } else if key == "nx"@ {
                    Vertex { x_norm: Some(v), ..self }
                } else if key == "ny"@ {
                    Vertex { y_norm: Some(v), ..self }
                } else if key == "nz"@ {
                    Vertex { z_norm: Some(v), ..self }
                } else if is_u_key(key) {
                    Vertex { tex_x: Some(v), ..self }
                } else if is_v_key(key) {
                    Vertex { tex_y: Some(v), ..self }
                } else {
                    self
                }
            },
            _ => self,
        }
    }

    /// The normal, present only where all three components were read.
    pub open spec fn normal(self) -> Option<[u32; 3]> {
        match (self.x_norm, self.y_norm, self.z_norm) {
            (Some(x), Some(y), Some(z)) => Some([x, y, z]),
            _ => None,
        }
    }

    /// The texture coordinate, present only where both components were read.
    pub open spec fn tex_coord(self) -> Option<[u32; 2]> {
        match (self.tex_x, self.tex_y) {
            (Some(u), Some(v)) => Some([u, v]),
            _ => None,
        }
    }

    /// The vertex of the model that this row stands for. A PLY vertex has no
    /// colour.
    pub open spec fn canonical(self) -> model::Vertex {
        model::Vertex {
            position: [self.x, self.y, self.z],
            color: None,
            tex_coord: self.tex_coord(),
            normal: self.normal(),
        }
    }

    /// A vertex with no property read yet.
    pub fn new() -> (r: Vertex)
        ensures
            r == Vertex::blank(),
    {
        Vertex {
            x: 0,
            y: 0,
            z: 0,
            x_norm: None,
            y_norm: None,
            z_norm: None,
            tex_x: None,
            tex_y: None,
        }
    }

    /// Takes one property of the row into the vertex.
    pub fn set_property(&mut self, key: &str, property: &PlyValue)
        ensures
            *final(self) == old(self).with(key@, property@),
    {
        match property {
            PlyValue::Float(v) => {
                if same_text(key, "x") {
                    self.x = *v;
                } else if same_text(key, "y") {
                    self.y = *v;
                } else if same_text(key, "z") {
                    self.z = *v;
                } else if same_text(key, "nx") {
                    self.x_norm = Some(*v);
                } else if same_text(key, "ny") {
                    self.y_norm = Some(*v);
                } else if same_text(key, "nz") {
                    self.z_norm = Some(*v);
                } else if same_text(key, "u") || same_text(key, "s") || same_text(key, "tx")
                    || same_text(key, "texture_u") {
                    self.tex_x = Some(*v);
                } else if same_text(key, "v") || same_text(key, "t") || same_text(key, "ty")
                    || same_text(key, "texture_v") {
                    self.tex_y = Some(*v);
                }
            },
            _ => {},
        }
    }

    /// The vertex of the model that this row stands for.
    pub fn to_model(&self) -> (r: model::Vertex)
        ensures
            r == self.canonical(),
    {
        let normal = match (self.x_norm, self.y_norm, self.z_norm) {
            (Some(x), Some(y), Some(z)) => Some([x, y, z]),
            _ => None,
        };
        let tex_coord = match (self.tex_x, self.tex_y) {
            (Some(u), Some(v)) => Some([u, v]),
            _ => None,
        };
        model::Vertex { position: [self.x, self.y, self.z], color: None, tex_coord, normal }
    }
}

/// A face row as it is being read: the positions of its corners in the vertex
/// list.
#[derive(Debug)]
pub struct Face {
    pub vertex_index: Vec<u32>,
}

impl View for Face {
    type V = Seq<u32>;

    open spec fn view(&self) -> Seq<u32> {
        self.vertex_index@
    }
}

/// The corners of a face after one more property. A list of unsigned integers
/// under one of the two names for the index list replaces the corners; any other
/// name or type leaves them as they are.
pub open spec fn face_with(face: Seq<u32>, key: Seq<char>, value: PlyValueView) -> Seq<u32> {
    match value {
        PlyValueView::ListUInt(list) => {
            if key == "vertex_index"@ || key == "vertex_indices"@ {
                list
            } else {
                face
            }
        },
        _ => face,
    }
}

impl Face {
    /// A face with no property read yet: no corners.
    pub fn new() -> (r: Face)
        ensures
            r@ == Seq::<u32>::empty(),
    {
        Face { vertex_index: Vec::new() }
    }

    /// Takes one property of the row into the face.
    pub fn set_property(&mut self, key: &str, property: &PlyValue)
        ensures
            final(self)@ == face_with(old(self)@, key@, property@),
    {
        match property {
            PlyValue::ListUInt(list) => {
                if same_text(key, "vertex_index") || same_text(key, "vertex_indices") {
                    self.vertex_index = slice_to_vec(list.as_slice());
                }
            },
            _ => {},
        }
    }
}

/// The vertex that a row of properties gives, read first to last.
pub open spec fn read_vertex(row: Seq<PropertyView>) -> Vertex
    decreases row.len(),
{
    if row.len() == 0 {
        Vertex::blank()
    } else {
        read_vertex(row.drop_last()).with(row.last().key, row.last().value)
    }
}

/// The corners that a row of properties gives, read first to last.
pub open spec fn read_face(row: Seq<PropertyView>) -> Seq<u32>
    decreases row.len(),
{
    if row.len() == 0 {
        Seq::empty()
    } else {
        face_with(read_face(row.drop_last()), row.last().key, row.last().value)
    }
}

/// The name of the element that holds the vertices.
pub open spec fn is_vertex(name: Seq<char>) -> bool {
    name == "vertex"@
}

/// The name of the element that holds the faces.
pub open spec fn is_face(name: Seq<char>) -> bool {
    name == "face"@
}

/// Every element of the file is the vertex list or the face list.
pub open spec fn all_known(elements: Seq<ElementView>) -> bool {
    forall|i: int|
        0 <= i < elements.len() ==> is_vertex((#[trigger] elements[i]).name) || is_face(
            elements[i].name,
        )
}

/// The rows of the vertex list: those of the last element of that name, or none.
pub open spec fn vertex_rows(elements: Seq<ElementView>) -> Seq<Seq<PropertyView>>
    decreases elements.len(),
{
    if elements.len() == 0 {
        Seq::empty()
    } else if is_vertex(elements.last().name) {
        elements.last().rows
    } else {
        vertex_rows(elements.drop_last())
    }
}

/// The rows of the face list: those of the last element of that name, or none.
pub open spec fn face_rows(elements: Seq<ElementView>) -> Seq<Seq<PropertyView>>
    decreases elements.len(),
{
    if elements.len() == 0 {
        Seq::empty()
    } else if is_face(elements.last().name) {
        elements.last().rows
    } else {
        face_rows(elements.drop_last())
    }
}

/// The vertices that the rows of the vertex list give.
pub open spec fn vertices_of(rows: Seq<Seq<PropertyView>>) -> Seq<Vertex> {
    Seq::new(rows.len(), |i: int| read_vertex(rows[i]))
}

/// The faces that the rows of the face list give.
pub open spec fn faces_of(rows: Seq<Seq<PropertyView>>) -> Seq<Seq<u32>> {
    Seq::new(rows.len(), |i: int| read_face(rows[i]))
}

/// A face can be expanded: it has three corners at least, and its first three
/// are positions in a list of `n` vertices.
pub open spec fn face_usable(face: Seq<u32>, n: nat) -> bool {
    face.len() >= 3 && face[0] < n && face[1] < n && face[2] < n
}

/// Every face can be expanded.
pub open spec fn faces_usable(faces: Seq<Seq<u32>>, n: nat) -> bool {
    forall|f: int| 0 <= f < faces.len() ==> face_usable(#[trigger] faces[f], n)
}

/// The flat stream: for every face its first three corners, each as a vertex of
/// its own, face after face. Vertices that faces share are repeated.
pub open spec fn expanded(vertices: Seq<Vertex>, faces: Seq<Seq<u32>>) -> Seq<model::Vertex> {
    Seq::new(3 * faces.len(), |i: int| vertices[faces[i / 3][i % 3] as int].canonical())
}

/// The message of the error for an element that is neither the vertex list nor
/// the face list.
pub open spec fn unexpected_element_text() -> Seq<char> {
    "the file holds an element that is neither vertex nor face"@
}

/// The message of the error for a face that cannot be expanded.
pub open spec fn face_text() -> Seq<char> {
    "a face has fewer than three corners or refers to a vertex that the file does not hold"@
}

/// The message of the error for a header with a number that does not fit in 64
/// bits.
pub open spec fn long_number_text() -> Seq<char> {
    "the header holds a number that does not fit in 64 bits"@
}

/// The model that the elements of a file stand for: one unnamed mesh of
/// triangles without indices and without material. A file with another element
/// than the two lists, or with a face that cannot be expanded, is a parsing
/// error.
pub open spec fn ply_model(elements: Seq<ElementView>) -> Result<ModelView, ErrorView> {
    let vertices = vertices_of(vertex_rows(elements));
    let faces = faces_of(face_rows(elements));
    if !all_known(elements) {
        Err(ErrorView::ModelParsing(unexpected_element_text()))
    } else if !faces_usable(faces, vertices.len()) {
        Err(ErrorView::ModelParsing(face_text()))
    } else {
        Ok(
            ModelView {
                meshes: seq![
                    MeshView {
                        vertices: expanded(vertices, faces),
                        indices: None,
                        mode: RenderMode::Triangles,
                        material_index: None,
                        name: None,
                    },
                ],
                materials: Seq::empty(),
                format: ModelFormat::PLY,
            },
        )
    }
}

/// The classes of bytes that the header's grammar tells apart.
#[derive(Clone, Copy, Debug, PartialEq, Eq, Structural)]
pub enum Class {
    /// A space or a tab.
    Blank,
    /// A letter, a digit, an underscore or a hyphen: what a name goes on with.
    NamePart,
    /// A decimal digit.
    Digit,
}

/// The byte is an ASCII decimal digit.
pub open spec fn is_digit(b: u8) -> bool {
    48 <= b <= 57
}

/// The byte can begin a name: a letter or an underscore.
pub open spec fn is_name_start(b: u8) -> bool {
    (65 <= b <= 90) || (97 <= b <= 122) || b == 95
}

/// The byte belongs to the class.
pub open spec fn in_class(b: u8, class: Class) -> bool {
    match class {
        Class::Blank => b == 32 || b == 9,
        Class::NamePart => is_name_start(b) || is_digit(b) || b == 45,
        Class::Digit => is_digit(b),
    }
}

/// Where the run of bytes of one class that begins at `i` ends.
pub open spec fn run_end(bytes: Seq<u8>, i: int, class: Class) -> int
    decreases bytes.len() - i,
{
    if 0 <= i < bytes.len() && in_class(bytes[i], class) {
        run_end(bytes, i + 1, class)
    } else {
        i
    }
}

/// The value of a decimal digit; zero for any other byte.
pub open spec fn digit_value(b: u8) -> nat {
    if is_digit(b) {
        (b - 48) as nat
    } else {
        0
    }
}

/// The number that the decimal digits from `from` up to `to` write. Leading
/// zeros do not count.
pub open spec fn number(bytes: Seq<u8>, from: int, to: int) -> nat
    decreases to - from,
{
    if to <= from {
        0
    } else {
        number(bytes, from, to - 1) * 10 + digit_value(bytes[to - 1])
    }
}

/// The bytes from `i` on begin with `word`.
pub open spec fn begins_with(bytes: Seq<u8>, i: int, word: Seq<u8>) -> bool {
    &&& 0 <= i
    &&& i + word.len() <= bytes.len()
    &&& bytes.subrange(i, i + word.len()) == word
}

/// The bytes of `end_header`.
pub open spec fn end_header_word() -> Seq<u8> {
    seq![101u8, 110u8, 100u8, 95u8, 104u8, 101u8, 97u8, 100u8, 101u8, 114u8]
}

/// The bytes of `element`.
pub open spec fn element_word() -> Seq<u8> {
    seq![101u8, 108u8, 101u8, 109u8, 101u8, 110u8, 116u8]
}

/// The bytes of `format`.
pub open spec fn format_word() -> Seq<u8> {
    seq![102u8, 111u8, 114u8, 109u8, 97u8, 116u8]
}

/// The bytes of `ascii`.
pub open spec fn ascii_word() -> Seq<u8> {
    seq![97u8, 115u8, 99u8, 105u8, 105u8]
}

/// The bytes of `binary_big_endian`.
pub open spec fn big_endian_word() -> Seq<u8> {
    seq![
        98u8, 105u8, 110u8, 97u8, 114u8, 121u8, 95u8, 98u8, 105u8, 103u8, 95u8, 101u8, 110u8,
        100u8, 105u8, 97u8, 110u8,
    ]
}

/// The bytes of `binary_little_endian`.
pub open spec fn little_endian_word() -> Seq<u8> {
    seq![
        98u8, 105u8, 110u8, 97u8, 114u8, 121u8, 95u8, 108u8, 105u8, 116u8, 116u8, 108u8, 101u8,
        95u8, 101u8, 110u8, 100u8, 105u8, 97u8, 110u8,
    ]
}

/// A stretch of the file, from its first byte up to the byte after its last, or
/// none.
pub type Span = Option<(int, int)>;

/// The digits of the count of an element line that begins at `i`: the word
/// `element`, blanks, a name, blanks, then the digits. None where the line does
/// not go so far.
pub open spec fn element_count_at(bytes: Seq<u8>, i: int) -> Span {
    let a = i + 7;
    let b = run_end(bytes, a, Class::Blank);
    let c = run_end(bytes, b + 1, Class::NamePart);
    let d = run_end(bytes, c, Class::Blank);
    let e = run_end(bytes, d, Class::Digit);
    if begins_with(bytes, i, element_word()) && a < b < bytes.len() && is_name_start(bytes[b])
        && c < d < e {
        Some((d, e))
    } else {
        None
    }
}

/// The length of the name of an encoding that stands at `i`, if one does.
pub open spec fn encoding_at(bytes: Seq<u8>, i: int) -> Option<int> {
    if begins_with(bytes, i, ascii_word()) {
        Some(5)
    } else if begins_with(bytes, i, big_endian_word()) {
        Some(17)
    } else if begins_with(bytes, i, little_endian_word()) {
        Some(20)
    } else {
        None
    }
}

/// The digits of the major version of a format line that begins at `i`: the word
/// `format`, blanks, an encoding, blanks, then the digits. None where the line
/// does not go so far.
pub open spec fn format_major_at(bytes: Seq<u8>, i: int) -> Span {
    let a = i + 6;
    let b = run_end(bytes, a, Class::Blank);
    match encoding_at(bytes, b) {
        Some(n) => {
            let c = b + n;
            let d = run_end(bytes, c, Class::Blank);
            let e = run_end(bytes, d, Class::Digit);
            if begins_with(bytes, i, format_word()) && a < b && c < d < e {
                Some((d, e))
            } else {
                None
            }
        },
        None => None,
    }
}

/// The digits of the minor version of a format line that begins at `i`: the
/// digits after the major version and a dot. None where the line does not go so
/// far.
pub open spec fn format_minor_at(bytes: Seq<u8>, i: int) -> Span {
    match format_major_at(bytes, i) {
        Some((_, e)) => {
            let f = run_end(bytes, e + 1, Class::Digit);
            if e < bytes.len() && bytes[e] == 46 && e + 1 < f {
                Some((e + 1, f))
            } else {
                None
            }
        },
        None => None,
    }
}

/// The digits of a stretch write a number that does not fit in 64 bits.
pub open spec fn too_large(bytes: Seq<u8>, span: Span) -> bool {
    span matches Some((from, to)) && number(bytes, from, to) > u64::MAX
}

/// The line that begins at `i` holds a number that the reader takes for a 64-bit
/// integer and that does not fit: the count of an element or a part of the
/// format's version. Digits anywhere else in a line are not numbers to the
/// reader.
pub open spec fn overflows_at(bytes: Seq<u8>, i: int) -> bool {
    ||| too_large(bytes, element_count_at(bytes, i))
    ||| too_large(bytes, format_major_at(bytes, i))
    ||| too_large(bytes, format_minor_at(bytes, i))
}

/// A line begins at `i`.
pub open spec fn line_begins_at(bytes: Seq<u8>, i: int) -> bool {
    i == 0 || (0 < i <= bytes.len() && bytes[i - 1] == 10)
}

/// No line from `i` on, up to the line that begins with `end_header`, holds a
/// number that does not fit.
pub open spec fn numbers_fit_from(bytes: Seq<u8>, i: int) -> bool
    decreases bytes.len() - i,
{
    if i < 0 || i >= bytes.len() {
        true
    } else if line_begins_at(bytes, i) && begins_with(bytes, i, end_header_word()) {
        true
    } else if line_begins_at(bytes, i) && overflows_at(bytes, i) {
        false
    } else {
        numbers_fit_from(bytes, i + 1)
    }
}

/// Every number of the header that the reader takes for a 64-bit integer fits in
/// 64 bits. The header ends with the first line that begins with `end_header`.
pub open spec fn header_numbers_fit(bytes: Seq<u8>) -> bool {
    numbers_fit_from(bytes, 0)
}

/// What `ply_rs::parser::Parser::read_ply` returns for a file of these bytes
/// where it succeeds: the elements of the payload in file order, each row with
/// its properties in the order of the header. `None` where it fails.
pub uninterp spec fn ply_read(bytes: Seq<u8>) -> Option<Seq<ElementView>>;

/// Calls `ply_rs::parser::Parser::read_ply` with the crate's own row type on the
/// bytes. Whether the reader succeeds, and what it returns where it does, is the
/// function `ply_read` of the bytes; nothing is claimed of the text of its
/// errors. The reader turns the count of an element and the version of the
/// format into 64-bit integers and panics where one does not fit: such files are
/// left out.
#[verifier::external_body]
fn read_ply(bytes: &[u8]) -> (r: Result<Vec<Element>, String>)
    requires
        header_numbers_fit(bytes@),
    ensures
        match r {
            Ok(elements) => ply_read(bytes@) == Some(element_views(elements@)),
            Err(_) => ply_read(bytes@) is None,
        },
{
    let parser = ply_rs::parser::Parser::<ply_rs::ply::DefaultElement>::new();
    match parser.read_ply(&mut std::io::Cursor::new(bytes)) {
        Ok(ply) => Ok(ply.payload.into_iter().map(|(name, rows)| Element {
            name,
            rows: rows.into_iter().map(|row| row.into_iter().map(|(key, p)| Property {
                key,
                value: match p {
                    ply_rs::ply::Property::Float(v) => PlyValue::Float(v.to_bits()),
                    ply_rs::ply::Property::ListUInt(v) => PlyValue::ListUInt(v),
                    _ => PlyValue::Other,
                } }).collect()).collect() }).collect()),
        Err(e) => Err(e.to_string()),
    }
}

/// Tells whether the bytes from `i` on begin with `word`.
fn begins(bytes: &[u8], i: usize, word: &[u8]) -> (r: bool)
    ensures
        r == begins_with(bytes@, i as int, word@),
{
    if i > bytes.len() || word.len() > bytes.len() - i {
        return false;
    }
    let mut k: usize = 0;
    while k < word.len()
        invariant
            k <= word@.len(),
            i + word@.len() <= bytes@.len() <= usize::MAX,
            forall|j: int| 0 <= j < k ==> bytes@[i + j] == word@[j],
        decreases word@.len() - k,
    {
        if bytes[i + k] != word[k] {
            assert(bytes@.subrange(i as int, i + word@.len())[k as int] != word@[k as int]);
            return false;
        }
        k += 1;
    }
    assert(bytes@.subrange(i as int, i + word@.len()) =~= word@);
    true
}

/// Tells whether the byte belongs to the class.
fn belongs(b: u8, class: Class) -> (r: bool)
    ensures
        r == in_class(b, class),
{
    let digit = 48 <= b && b <= 57;
    match class {
        Class::Blank => b == 32 || b == 9,
        Class::NamePart => (65 <= b && b <= 90) || (97 <= b && b <= 122) || b == 95 || digit
            || b == 45,
        Class::Digit => digit,
    }
}

/// Finds where the run of bytes of one class that begins at `i` ends.
fn find_run_end(bytes: &[u8], i: usize, class: Class) -> (r: usize)
    ensures
        r == run_end(bytes@, i as int, class),
        i <= r,
        i <= bytes@.len() ==> r <= bytes@.len(),
{
    let mut k: usize = i;
    while k < bytes.len() && belongs(bytes[k], class)
        invariant
            i <= k,
            i <= bytes@.len() ==> k <= bytes@.len(),
            run_end(bytes@, i as int, class) == run_end(bytes@, k as int, class),
        decreases bytes@.len() - k,
    {
        k += 1;
    }
    k
}

/// The number of a longer stretch of digits is no smaller.
proof fn lemma_number_grows(bytes: Seq<u8>, from: int, mid: int, to: int)
    requires
        from <= mid <= to,
    ensures
        number(bytes, from, mid) <= number(bytes, from, to),
    decreases to - mid,
{
    if mid < to {
        lemma_number_grows(bytes, from, mid, to - 1);
    }
}

/// Tells whether the digits from `from` up to `to` write a number that fits in
/// 64 bits.
fn fits(bytes: &[u8], from: usize, to: usize) -> (r: bool)
    requires
        from <= to <= bytes@.len(),
    ensures
        r == (number(bytes@, from as int, to as int) <= u64::MAX),
{
    let mut value: u64 = 0;
    let mut k: usize = from;
    while k < to
        invariant
            from <= k <= to <= bytes@.len(),
            value == number(bytes@, from as int, k as int),
        decreases to - k,
    {
        let b = bytes[k];
        let digit: u64 = if 48 <= b && b <= 57 {
            (b - 48) as u64
        } else {
            0
        };
        assert(digit == digit_value(b));
        if value > (u64::MAX - digit) / 10 {
            proof {
                assert(number(bytes@, from as int, k + 1) > u64::MAX);
                lemma_number_grows(bytes@, from as int, k + 1, to as int);
            }
            return false;
        }
        value = value * 10 + digit;
        k += 1;
    }
    true
}

/// Tells whether the digits of a stretch write a number that does not fit.
fn is_too_large(bytes: &[u8], from: usize, to: usize) -> (r: bool)
    requires
        from <= to <= bytes@.len(),
    ensures
        r == too_large(bytes@, Some((from as int, to as int))),
{
    !fits(bytes, from, to)
}

/// Tells whether the count of an element line that begins at `i` does not fit.
fn element_overflows(bytes: &[u8], i: usize) -> (r: bool)
    requires
        i < bytes@.len(),
    ensures
        r == too_large(bytes@, element_count_at(bytes@, i as int)),
{
    let word: [u8; 7] = [101, 108, 101, 109, 101, 110, 116];
    assert(word@ =~= element_word());
    if bytes.len() - i < 7 || !begins(bytes, i, &word) {
        return false;
    }
    let a = i + 7;
    let b = find_run_end(bytes, a, Class::Blank);
    if b <= a || b >= bytes.len() {
        return false;
    }
    let first = bytes[b];
    if !((65 <= first && first <= 90) || (97 <= first && first <= 122) || first == 95) {
        return false;
    }
    let c = find_run_end(bytes, b + 1, Class::NamePart);
    let d = find_run_end(bytes, c, Class::Blank);
    let e = find_run_end(bytes, d, Class::Digit);
    if d <= c || e <= d {
        return false;
    }
    is_too_large(bytes, d, e)
}

/// The length of the name of an encoding that stands at `i`, if one does.
fn find_encoding(bytes: &[u8], i: usize) -> (r: Option<usize>)
    ensures
        match r {
            Some(n) => encoding_at(bytes@, i as int) == Some(n as int),
            None => encoding_at(bytes@, i as int) is None,
        },
{
    let ascii: [u8; 5] = [97, 115, 99, 105, 105];
    let big: [u8; 17] = [
        98, 105, 110, 97, 114, 121, 95, 98, 105, 103, 95, 101, 110, 100, 105, 97, 110,
    ];
    let little: [u8; 20] = [
        98, 105, 110, 97, 114, 121, 95, 108, 105, 116, 116, 108, 101, 95, 101, 110, 100, 105, 97,
        110,
    ];
    assert(ascii@ =~= ascii_word());
    assert(big@ =~= big_endian_word());
    assert(little@ =~= little_endian_word());
    if begins(bytes, i, &ascii) {
        Some(5)
    } else if begins(bytes, i, &big) {
        Some(17)
    } else if begins(bytes, i, &little) {
        Some(20)
    } else {
        None
    }
}

/// Tells whether a part of the version of a format line that begins at `i` does
/// not fit.
fn format_overflows(bytes: &[u8], i: usize) -> (r: bool)
    requires
        i < bytes@.len(),
    ensures
        r == (too_large(bytes@, format_major_at(bytes@, i as int)) || too_large(
            bytes@,
            format_minor_at(bytes@, i as int),
        )),
{
    let word: [u8; 6] = [102, 111, 114, 109, 97, 116];
    assert(word@ =~= format_word());
    if bytes.len() - i < 6 || !begins(bytes, i, &word) {
        return false;
    }
    let a = i + 6;
    let b = find_run_end(bytes, a, Class::Blank);
    if b <= a {
        return false;
    }
    let n = match find_encoding(bytes, b) {
        Some(n) => n,
        None => {
            return false;
        },
    };
    assert(b + n <= bytes@.len());
    let c = b + n;
    let d = find_run_end(bytes, c, Class::Blank);
    let e = find_run_end(bytes, d, Class::Digit);
    if d <= c || e <= d {
        return false;
    }
    if is_too_large(bytes, d, e) {
        return true;
    }
    if e >= bytes.len() || bytes[e] != 46 {
        return false;
    }
    let f = find_run_end(bytes, e + 1, Class::Digit);
    if f <= e + 1 {
        return false;
    }
    is_too_large(bytes, e + 1, f)
}

/// Tells whether every number of the header that the reader takes for a 64-bit
/// integer fits in 64 bits.
pub fn check_header_numbers(bytes: &[u8]) -> (r: bool)
    ensures
        r == header_numbers_fit(bytes@),
{
    let end: [u8; 10] = [101, 110, 100, 95, 104, 101, 97, 100, 101, 114];
    assert(end@ =~= end_header_word());
    let mut i: usize = 0;
    while i < bytes.len()
        invariant
            i <= bytes@.len(),
            end@ == end_header_word(),
            header_numbers_fit(bytes@) == numbers_fit_from(bytes@, i as int),
        decreases bytes@.len() - i,
    {
        if i == 0 || bytes[i - 1] == 10 {
            if begins(bytes, i, &end) {
                return true;
            }
            if element_overflows(bytes, i) || format_overflows(bytes, i) {
                return false;
            }
        }
        i += 1;
    }
    true
}

/// Reads the vertex of a row.
fn vertex_from_row(row: &Vec<Property>) -> (r: Vertex)
    ensures
        r == read_vertex(row_view(row@)),
{
    let ghost view = row_view(row@);
    let mut vertex = Vertex::new();
    let mut i: usize = 0;
    assert(view.take(0) =~= Seq::empty());
    while i < row.len()
        invariant
            i <= row.len(),
            view == row_view(row@),
            vertex == read_vertex(view.take(i as int)),
        decreases row.len() - i,
    {
        proof {
            assert(view.take(i + 1).drop_last() =~= view.take(i as int));
            assert(view.take(i + 1).last() == row@[i as int]@);
        }
        vertex.set_property(row[i].key.as_str(), &row[i].value);
        i += 1;
    }
    assert(view.take(i as int) =~= view);
    vertex
}

/// Reads the face of a row.
fn face_from_row(row: &Vec<Property>) -> (r: Face)
    ensures
        r@ == read_face(row_view(row@)),
{
    let ghost view = row_view(row@);
    let mut face = Face::new();
    let mut i: usize = 0;
    assert(view.take(0) =~= Seq::empty());
    while i < row.len()
        invariant
            i <= row.len(),
            view == row_view(row@),
            face@ == read_face(view.take(i as int)),
        decreases row.len() - i,
    {
        proof {
            assert(view.take(i + 1).drop_last() =~= view.take(i as int));
            assert(view.take(i + 1).last() == row@[i as int]@);
        }
        face.set_property(row[i].key.as_str(), &row[i].value);
        i += 1;
    }
    assert(view.take(i as int) =~= view);
    face
}

/// Reads the vertices of the rows of the vertex list.
fn read_vertices(rows: &Vec<Vec<Property>>) -> (r: Vec<Vertex>)
    ensures
        r@ == vertices_of(rows_view(rows@)),
{
    let mut vertices: Vec<Vertex> = Vec::new();
    let mut i: usize = 0;
    while i < rows.len()
        invariant
            i <= rows.len(),
            vertices@.len() == i,
            forall|j: int| 0 <= j < i ==> vertices@[j] == read_vertex(rows_view(rows@)[j]),
        decreases rows.len() - i,
    {
        vertices.push(vertex_from_row(&rows[i]));
        i += 1;
    }
    assert(vertices@ =~= vertices_of(rows_view(rows@)));
    vertices
}

/// The views of a list of faces.
pub open spec fn face_views(faces: Seq<Face>) -> Seq<Seq<u32>> {
    Seq::new(faces.len(), |i: int| faces[i]@)
}

/// Reads the faces of the rows of the face list.
fn read_faces(rows: &Vec<Vec<Property>>) -> (r: Vec<Face>)
    ensures
        face_views(r@) == faces_of(rows_view(rows@)),
{
    let mut faces: Vec<Face> = Vec::new();
    let mut i: usize = 0;
    while i < rows.len()
        invariant
            i <= rows.len(),
            faces@.len() == i,
            forall|j: int| 0 <= j < i ==> faces@[j]@ == read_face(rows_view(rows@)[j]),
        decreases rows.len() - i,
    {
        faces.push(face_from_row(&rows[i]));
        i += 1;
    }
    assert(face_views(faces@) =~= faces_of(rows_view(rows@)));
    faces
}

/// Expands the faces into the flat stream, or tells that one of them cannot be
/// expanded.
fn expand(vertices: &Vec<Vertex>, faces: &Vec<Face>) -> (r: Option<Vec<model::Vertex>>)
    ensures
        match r {
            Some(flat) => faces_usable(face_views(faces@), vertices@.len()) && flat@ == expanded(
                vertices@,
                face_views(faces@),
            ),
            None => !faces_usable(face_views(faces@), vertices@.len()),
        },
{
    let ghost views = face_views(faces@);
    let n = vertices.len();
    let mut flat: Vec<model::Vertex> = Vec::new();
    let mut f: usize = 0;
    while f < faces.len()
        invariant
            f <= faces.len(),
            n == vertices@.len(),
            views == face_views(faces@),
            flat@.len() == 3 * f,
            forall|g: int| 0 <= g < f ==> face_usable(#[trigger] views[g], n as nat),
            forall|i: int|
                0 <= i < 3 * f ==> flat@[i] == vertices@[views[i / 3][i % 3] as int].canonical(),
        decreases faces.len() - f,
    {
        let corners = &faces[f].vertex_index;
        assert(corners@ == views[f as int]);
        if corners.len() < 3 {
            assert(!face_usable(views[f as int], n as nat));
            return None;
        }
        let a = corners[0] as usize;
        let b = corners[1] as usize;
        let c = corners[2] as usize;
        if a >= n || b >= n || c >= n {
            assert(!face_usable(views[f as int], n as nat));
            return None;
        }
        flat.push(vertices[a].to_model());
        flat.push(vertices[b].to_model());
        flat.push(vertices[c].to_model());
        f += 1;
    }
    assert(flat@ =~= expanded(vertices@, views));
    Some(flat)
}

/// Builds the model of the elements of a file. The vertex list is read whole
/// before any face is expanded.
pub fn build_model(elements: &Vec<Element>) -> (r: Result<Model3D, ModelError>)
    ensures
        loaded(r) == ply_model(element_views(elements@)),
        r matches Ok(m) ==> m@.wf(),
{
    let ghost views = element_views(elements@);
    let mut vertex_at: Option<usize> = None;
    let mut face_at: Option<usize> = None;
    let mut i: usize = 0;
    assert(views.take(0) =~= Seq::empty());
    while i < elements.len()
        invariant
            i <= elements.len(),
            views == element_views(elements@),
            all_known(views.take(i as int)),
            match vertex_at {
                Some(k) => k < i && vertex_rows(views.take(i as int)) == views[k as int].rows,
                None => vertex_rows(views.take(i as int)) == Seq::<Seq<PropertyView>>::empty(),
            },
            match face_at {
                Some(k) => k < i && face_rows(views.take(i as int)) == views[k as int].rows,
                None => face_rows(views.take(i as int)) == Seq::<Seq<PropertyView>>::empty(),
            },
        decreases elements.len() - i,
    {
        let name = elements[i].name.as_str();
        let vertex = same_text(name, "vertex");
        let face = same_text(name, "face");
        proof {
            reveal_strlit("vertex");
            reveal_strlit("face");
            assert("vertex"@.len() != "face"@.len());
            assert(views.take(i + 1).drop_last() =~= views.take(i as int));
            assert(views.take(i + 1).last() == views[i as int]);
            assert(views[i as int].name == name@);
        }
        if vertex {
            vertex_at = Some(i);
        } else if face {
            face_at = Some(i);
        } else {
            proof {
                assert(!(is_vertex(views[i as int].name) || is_face(views[i as int].name)));
            }
            return Err(
                ModelError::ModelParsing(
                    "the file holds an element that is neither vertex nor face".to_owned(),
                ),
            );
        }
        proof {
            let next = views.take(i + 1);
            assert forall|j: int| 0 <= j < next.len() implies is_vertex((#[trigger] next[j]).name)
                || is_face(next[j].name) by {
                if j < i {
                    assert(next[j] == views.take(i as int)[j]);
                }
            }
        }
        i += 1;
    }
    assert(views.take(i as int) =~= views);
    let vertices = match vertex_at {
        Some(k) => read_vertices(&elements[k].rows),
        None => Vec::new(),
    };
    let faces = match face_at {
        Some(k) => read_faces(&elements[k].rows),
        None => Vec::new(),
    };
    assert(vertices@ =~= vertices_of(vertex_rows(views)));
    assert(face_views(faces@) =~= faces_of(face_rows(views)));
    let flat = match expand(&vertices, &faces) {
        Some(flat) => flat,
        None => {
            return Err(
                ModelError::ModelParsing(
                    "a face has fewer than three corners or refers to a vertex that the file does not hold".to_owned(),
                ),
            );
        },
    };
    let stream = Mesh {
        vertices: flat,
        indices: None,
        mode: RenderMode::Triangles,
        material_index: None,
        name: None,
    };
    let mut meshes: Vec<Mesh> = Vec::new();
    meshes.push(stream);
    let model = Model3D { meshes, materials: Vec::new(), format: ModelFormat::PLY };
    assert(model@.meshes =~= seq![stream@]);
    assert(model@.materials =~= Seq::empty());
    Ok(model)
}

/// What a file of these bytes parses to: what the reader returns for it, where
/// the numbers of its header fit. A file with a number that does not fit parses
/// to nothing; the reader does not return on it and is not asked.
pub open spec fn ply_parsed(bytes: Seq<u8>) -> Option<Seq<ElementView>> {
    if header_numbers_fit(bytes) {
        ply_read(bytes)
    } else {
        None
    }
}

/// The error for a file that does not parse can be `e`: `ModelParsing`, with the
/// library's own message where a number of the header does not fit, and with the
/// reader's message, of which nothing more is said, where the reader fails.
pub open spec fn ply_refused(bytes: Seq<u8>, e: ErrorView) -> bool {
    if header_numbers_fit(bytes) {
        e is ModelParsing
    } else {
        e == ErrorView::ModelParsing(long_number_text())
    }
}

/// The result of reading a file of these bytes into its elements can be `r`.
pub open spec fn ply_elements(bytes: Seq<u8>, r: Result<Seq<ElementView>, ErrorView>) -> bool {
    match ply_parsed(bytes) {
        Some(elements) => r == Ok::<Seq<ElementView>, ErrorView>(elements),
        None => r matches Err(e) && ply_refused(bytes, e),
    }
}

/// The result of loading a file of these bytes can be `r`: the model of the
/// elements that the file parses to, or the error for a file that does not
/// parse.
pub open spec fn ply_loaded(bytes: Seq<u8>, r: Result<ModelView, ErrorView>) -> bool {
    match ply_parsed(bytes) {
        Some(elements) => r == ply_model(elements),
        None => r matches Err(e) && ply_refused(bytes, e),
    }
}

/// Read elements, or the error, through their views.
pub open spec fn elements_read(r: Result<Vec<Element>, ModelError>) -> Result<
    Seq<ElementView>,
    ErrorView,
> {
    match r {
        Ok(elements) => Ok(element_views(elements@)),
        Err(e) => Err(e@),
    }
}

/// Reads the elements of a PLY file from the file's bytes, ASCII or binary.
pub fn read(bytes: &[u8]) -> (r: Result<Vec<Element>, ModelError>)
    ensures
        ply_elements(bytes@, elements_read(r)),
{
    if !check_header_numbers(bytes) {
        return Err(
            ModelError::ModelParsing(
                "the header holds a number that does not fit in 64 bits".to_owned(),
            ),
        );
    }
    match read_ply(bytes) {
        Ok(elements) => Ok(elements),
        Err(e) => Err(ModelError::ModelParsing(e)),
    }
}

/// Loads the model of a PLY file from the file's bytes, ASCII or binary.
pub fn load(bytes: &[u8]) -> (r: Result<Model3D, ModelError>)
    ensures
        ply_loaded(bytes@, loaded(r)),
        r matches Ok(m) ==> m@.wf(),
{
    match read(bytes) {
        Ok(elements) => build_model(&elements),
        Err(e) => Err(e),
    }
}

/// Which of the two readers of rows an element is read by.
#[derive(Clone, Copy, Debug, PartialEq, Eq, Structural)]
pub enum Kind {
    Vertex,
    Face,
}

/// A property that the reader of its row skipped: the kind of the row, and the
/// name of the property.
#[derive(Debug, PartialEq, Eq)]
pub struct Skipped {
    pub kind: Kind,
    pub key: String,
}

/// `Skipped` over sequences.
pub struct SkippedView {
    pub kind: Kind,
    pub key: Seq<char>,
}

impl View for Skipped {
    type V = SkippedView;

    open spec fn view(&self) -> SkippedView {
        SkippedView { kind: self.kind, key: self.key@ }
    }
}

/// The views of a list of skipped properties.
pub open spec fn skipped_views(list: Seq<Skipped>) -> Seq<SkippedView> {
    Seq::new(list.len(), |i: int| list[i]@)
}

/// A vertex row takes the property: a floating point scalar under one of the
/// names for a coordinate, a component of the normal or a texture axis.
pub open spec fn vertex_takes(key: Seq<char>, value: PlyValueView) -> bool {
    value is Float && (key == "x"@ || key == "y"@ || key == "z"@ || key == "nx"@ || key == "ny"@
        || key == "nz"@ || is_u_key(key) || is_v_key(key))
}

/// A face row takes the property: a list of unsigned integers under one of the
/// two names for the index list.
pub open spec fn face_takes(key: Seq<char>, value: PlyValueView) -> bool {
    value is ListUInt && (key == "vertex_index"@ || key == "vertex_indices"@)
}

/// A row of the kind takes the property.
pub open spec fn takes(kind: Kind, key: Seq<char>, value: PlyValueView) -> bool {
    match kind {
        Kind::Vertex => vertex_takes(key, value),
        Kind::Face => face_takes(key, value),
    }
}

/// The kind of rows that an element of the name holds, if the name is known.
pub open spec fn kind_of(name: Seq<char>) -> Option<Kind> {
    if is_vertex(name) {
        Some(Kind::Vertex)
    } else if is_face(name) {
        Some(Kind::Face)
    } else {
        None
    }
}

/// The properties of a row that its reader skips, in the order of the row.
pub open spec fn skipped_in_row(kind: Kind, row: Seq<PropertyView>) -> Seq<SkippedView>
    decreases row.len(),
{
    if row.len() == 0 {
        Seq::empty()
    } else if takes(kind, row.last().key, row.last().value) {
        skipped_in_row(kind, row.drop_last())
    } else {
        skipped_in_row(kind, row.drop_last()).push(SkippedView { kind, key: row.last().key })
    }
}

/// The properties that are skipped in the rows of one element, row after row.
pub open spec fn skipped_in_rows(kind: Kind, rows: Seq<Seq<PropertyView>>) -> Seq<SkippedView>
    decreases rows.len(),
{
    if rows.len() == 0 {
        Seq::empty()
    } else {
        skipped_in_rows(kind, rows.drop_last()) + skipped_in_row(kind, rows.last())
    }
}

/// The properties that are skipped in a file: those of every row of every vertex
/// and face element, in file order. They are what a caller reports; none of
/// them keeps the file from loading.
pub open spec fn skipped_in(elements: Seq<ElementView>) -> Seq<SkippedView>
    decreases elements.len(),
{
    if elements.len() == 0 {
        Seq::empty()
    } else {
        skipped_in(elements.drop_last()) + match kind_of(elements.last().name) {
            Some(kind) => skipped_in_rows(kind, elements.last().rows),
            None => Seq::empty(),
        }
    }
}

/// Tells whether a row of the kind takes the property.
pub fn row_takes(kind: Kind, key: &str, property: &PlyValue) -> (r: bool)
    ensures
        r == takes(kind, key@, property@),
{
    match kind {
        Kind::Vertex => match property {
            PlyValue::Float(_) => same_text(key, "x") || same_text(key, "y") || same_text(key, "z")
                || same_text(key, "nx") || same_text(key, "ny") || same_text(key, "nz")
                || same_text(key, "u") || same_text(key, "s") || same_text(key, "tx")
                || same_text(key, "texture_u") || same_text(key, "v") || same_text(key, "t")
                || same_text(key, "ty") || same_text(key, "texture_v"),
            _ => false,
        },
        Kind::Face => match property {
            PlyValue::ListUInt(_) => same_text(key, "vertex_index") || same_text(
                key,
                "vertex_indices",
            ),
            _ => false,
        },
    }
}

/// Adds the skipped properties of a row to a list.
fn skip_row(kind: Kind, row: &Vec<Property>, out: &mut Vec<Skipped>)
    ensures
        skipped_views(final(out)@) == skipped_views(old(out)@) + skipped_in_row(
            kind,
            row_view(row@),
        ),
{
    let ghost before = skipped_views(out@);
    let ghost view = row_view(row@);
    let mut i: usize = 0;
    assert(view.take(0) =~= Seq::empty());
    assert(skipped_views(out@) =~= before + Seq::empty());
    while i < row.len()
        invariant
            i <= row.len(),
            view == row_view(row@),
            skipped_views(out@) == before + skipped_in_row(kind, view.take(i as int)),
        decreases row.len() - i,
    {
        let ghost so_far = skipped_in_row(kind, view.take(i as int));
        let ghost held = skipped_views(out@);
        proof {
            assert(view.take(i + 1).drop_last() =~= view.take(i as int));
            assert(view.take(i + 1).last() == row@[i as int]@);
        }
        if !row_takes(kind, row[i].key.as_str(), &row[i].value) {
            let skipped = Skipped { kind, key: row[i].key.clone() };
            out.push(skipped);
            assert(skipped_views(out@) =~= held.push(skipped@));
            assert(held.push(skipped@) =~= before + so_far.push(skipped@));
        }
        i += 1;
    }
    assert(view.take(i as int) =~= view);
}

/// Adds the skipped properties of the rows of one element to a list.
fn skip_rows(kind: Kind, rows: &Vec<Vec<Property>>, out: &mut Vec<Skipped>)
    ensures
        skipped_views(final(out)@) == skipped_views(old(out)@) + skipped_in_rows(
            kind,
            rows_view(rows@),
        ),
{
    let ghost before = skipped_views(out@);
    let ghost view = rows_view(rows@);
    let mut i: usize = 0;
    assert(view.take(0) =~= Seq::empty());
    assert(skipped_views(out@) =~= before + Seq::empty());
    while i < rows.len()
        invariant
            i <= rows.len(),
            view == rows_view(rows@),
            skipped_views(out@) == before + skipped_in_rows(kind, view.take(i as int)),
        decreases rows.len() - i,
    {
        let ghost so_far = skipped_in_rows(kind, view.take(i as int));
        proof {
            assert(view.take(i + 1).drop_last() =~= view.take(i as int));
            assert(view.take(i + 1).last() == row_view(rows@[i as int]@));
        }
        skip_row(kind, &rows[i], out);
        assert(skipped_views(out@) =~= before + (so_far + skipped_in_row(
            kind,
            row_view(rows@[i as int]@),
        )));
        i += 1;
    }
    assert(view.take(i as int) =~= view);
}

/// Lists the properties that are skipped in a file, for the caller to report.
pub fn skipped_keys(elements: &Vec<Element>) -> (r: Vec<Skipped>)
    ensures
        skipped_views(r@) == skipped_in(element_views(elements@)),
{
    let ghost view = element_views(elements@);
    let mut out: Vec<Skipped> = Vec::new();
    let mut i: usize = 0;
    assert(view.take(0) =~= Seq::empty());
    assert(skipped_views(out@) =~= Seq::empty());
    while i < elements.len()
        invariant
            i <= elements.len(),
            view == element_views(elements@),
            skipped_views(out@) == skipped_in(view.take(i as int)),
        decreases elements.len() - i,
    {
        let ghost so_far = skipped_in(view.take(i as int));
        proof {
            assert(view.take(i + 1).drop_last() =~= view.take(i as int));
            assert(view.take(i + 1).last() == elements@[i as int]@);
        }
        let name = elements[i].name.as_str();
        if same_text(name, "vertex") {
            skip_rows(Kind::Vertex, &elements[i].rows, &mut out);
        } else if same_text(name, "face") {
            skip_rows(Kind::Face, &elements[i].rows, &mut out);
        } else {
            assert(skipped_views(out@) =~= so_far + Seq::empty());
        }
        i += 1;
    }
    assert(view.take(i as int) =~= view);
    out
}

/// Skipped means untouched: a property that a row of its kind does not take
/// leaves the vertex, or the corners of the face, as they were.
pub proof fn lemma_skipped_changes_nothing(
    v: Vertex,
    face: Seq<u32>,
    key: Seq<char>,
    value: PlyValueView,
)
    ensures
        !vertex_takes(key, value) ==> v.with(key, value) == v,
        !face_takes(key, value) ==> face_with(face, key, value) == face,
{
}

/// The duplication law: a file loads as one mesh that holds exactly three
/// vertices for every face of the face list and no index buffer, and such a model
/// is well formed.
pub proof fn lemma_face_list_duplication(elements: Seq<ElementView>)
    ensures
        ply_model(elements) matches Ok(m) ==> {
            &&& m.wf()
            &&& m.format == ModelFormat::PLY
            &&& m.materials.len() == 0
            &&& m.meshes.len() == 1
            &&& m.meshes[0].indices is None
            &&& m.meshes[0].material_index is None
            &&& m.meshes[0].vertices.len() == 3 * faces_of(face_rows(elements)).len()
        },
{
}

/// The duplication law on files: a file that parses to the two lists, with
/// every face usable, loads as one mesh without index buffer that holds, for
/// every face, its first three corners as three vertices of their own.
pub proof fn lemma_file_duplication(bytes: Seq<u8>, r: Result<ModelView, ErrorView>)
    requires
        ply_loaded(bytes, r),
        ply_parsed(bytes) is Some,
        all_known(ply_parsed(bytes)->Some_0),
        faces_usable(
            faces_of(face_rows(ply_parsed(bytes)->Some_0)),
            vertices_of(vertex_rows(ply_parsed(bytes)->Some_0)).len(),
        ),
    ensures
        r matches Ok(m) && {
            let vertices = vertices_of(vertex_rows(ply_parsed(bytes)->Some_0));
            let faces = faces_of(face_rows(ply_parsed(bytes)->Some_0));
            &&& m.wf()
            &&& m.meshes.len() == 1
            &&& m.materials.len() == 0
            &&& m.meshes[0].indices is None
            &&& m.meshes[0].vertices.len() == 3 * faces.len()
            &&& forall|f: int, k: int|
                0 <= f < faces.len() && 0 <= k < 3 ==> #[trigger] m.meshes[0].vertices[3 * f + k]
                    == vertices[faces[f][k] as int].canonical()
        },
{
}

/// All or nothing: a vertex has a normal exactly when the row gave all three of
/// its components, and a texture coordinate exactly when it gave both; a vertex
/// never has a colour.
pub proof fn lemma_partial_attribute_absent(v: Vertex)
    ensures
        v.canonical().normal is Some <==> v.x_norm is Some && v.y_norm is Some && v.z_norm
            is Some,
        v.canonical().tex_coord is Some <==> v.tex_x is Some && v.tex_y is Some,
        v.canonical().color is None,
{
}

/// Every vertex of the stream is the vertex that the face names, as the vertex
/// list holds it.
pub proof fn lemma_expanded_vertex(vertices: Seq<Vertex>, faces: Seq<Seq<u32>>, f: int, k: int)
    requires
        0 <= f < faces.len(),
        0 <= k < 3,
    ensures
        expanded(vertices, faces)[3 * f + k] == vertices[faces[f][k] as int].canonical(),
{
}

} // verus!
