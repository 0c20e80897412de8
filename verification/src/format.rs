//! Picks the format of a model file from its path, and hands what was read of
//! the file to the adapter of its format.
//!
//! Nothing here touches the file system. The caller says whether the path names
//! a file and passes what it read of it as a `Source`.

use vstd::prelude::*;
use crate::gltf;
use crate::model::{loaded, seen, ErrorView, Model3D, ModelError, ModelFormat, ModelView};
use crate::obj;
use crate::path::{extension, path_extension, same_text};
use crate::ply;
use crate::stl;

verus! {

/// The format registered for an extension, compared case-sensitively.
pub open spec fn format_of_extension(ext: Seq<char>) -> Option<ModelFormat> {
    if ext == "obj"@ {
        Some(ModelFormat::OBJ)
    } else if ext == "gltf"@ || ext == "glb"@ {
        Some(ModelFormat::GLTF)
    } else if ext == "stl"@ {
        Some(ModelFormat::STL)
    } else if ext == "ply"@ {
        Some(ModelFormat::PLY)
    } else {
        None
    }
}

/// What sniffing decides from whether the file exists and from its extension: a
/// missing file is reported before the extension is looked at.
pub open spec fn sniffed(exists: bool, ext: Option<Seq<char>>) -> Result<ModelFormat, ErrorView> {
    if !exists {
        Err(ErrorView::FileNotExists)
    } else {
        match ext {
            Some(e) => match format_of_extension(e) {
                Some(f) => Ok(f),
                None => Err(ErrorView::UnknownFormat),
            },
            None => Err(ErrorView::UnknownFormat),
        }
    }
}

/// The format registered for the extension `ext`, if any.
pub fn format_for_extension(ext: &str) -> (r: Option<ModelFormat>)
    ensures
        r == format_of_extension(ext@),
{
    if same_text(ext, "obj") {
        Some(ModelFormat::OBJ)
    } else if same_text(ext, "gltf") || same_text(ext, "glb") {
        Some(ModelFormat::GLTF)
    } else if same_text(ext, "stl") {
        Some(ModelFormat::STL)
    } else if same_text(ext, "ply") {
        Some(ModelFormat::PLY)
    } else {
        None
    }
}

/// Decides from the extension which format sniffing gives an existing file.
pub fn format_for(exists: bool, ext: Option<&str>) -> (r: Result<ModelFormat, ModelError>)
    ensures
        seen(r) == sniffed(
            exists,
            match ext {
                Some(e) => Some(e@),
                None => None,
            },
        ),
{
    if !exists {
        return Err(ModelError::FileNotExists);
    }
    match ext {
        Some(e) => match format_for_extension(e) {
            Some(f) => Ok(f),
            None => Err(ModelError::UnknownFormat),
        },
        None => Err(ModelError::UnknownFormat),
    }
}

/// The format of the model file at `path`. `exists` says whether the path names
/// a file. A missing file is `FileNotExists` whatever its extension; an existing
/// one has the format registered for its extension, and is `UnknownFormat` where
/// the extension is absent or not registered.
pub fn get_format(path: &str, exists: bool) -> (r: Result<ModelFormat, ModelError>)
    ensures
        seen(r) == sniffed(exists, path_extension(path@)),
        !exists ==> seen(r) == Err::<ModelFormat, ErrorView>(ErrorView::FileNotExists),
{
    match extension(path) {
        Some(e) => format_for(exists, Some(e.as_str())),
        None => format_for(exists, None),
    }
}

/// What the caller found at the path of a model file.
#[derive(Debug)]
pub enum Source {
    /// The path names no file.
    Missing,
    /// The file exists but could not be opened or read; holds the system's
    /// message.
    Unreadable(String),
    /// What a reader of OBJ files made of the file and its material library, or
    /// the message of its failure on the geometry.
    Obj(Result<obj::SourceScene, String>),
    /// What a reader of glTF files made of the file and its buffers, or the
    /// message of its failure.
    Gltf(Result<gltf::Scene, String>),
    /// The bytes of an STL file.
    Stl(Vec<u8>),
    /// The bytes of a PLY file.
    Ply(Vec<u8>),
}

impl Source {
    /// The format whose adapter works on this source, if it holds anything to
    /// work on.
    pub open spec fn format(self) -> Option<ModelFormat> {
        match self {
            Source::Missing => None,
            Source::Unreadable(_) => None,
            Source::Obj(_) => Some(ModelFormat::OBJ),
            Source::Gltf(_) => Some(ModelFormat::GLTF),
            Source::Stl(_) => Some(ModelFormat::STL),
            Source::Ply(_) => Some(ModelFormat::PLY),
        }
    }
}

/// The result of loading a source with the adapter of `format` can be `r`. A
/// missing file is `FileNotExists` and an unreadable one `OpenFile`, before any
/// adapter is asked. A source that was read for another format has no adapter
/// under `format` and is `UnknownFormat`. Every source but one fixes the result;
/// for a PLY file that its reader refuses, the text of the error is left open.
pub open spec fn dispatched(
    path: Seq<char>,
    format: ModelFormat,
    source: Source,
    r: Result<ModelView, ErrorView>,
) -> bool {
    match source {
        Source::Missing => r == Err::<ModelView, ErrorView>(ErrorView::FileNotExists),
        Source::Unreadable(e) => r == Err::<ModelView, ErrorView>(ErrorView::OpenFile(e@)),
        Source::Obj(parsed) => if format == ModelFormat::OBJ {
            r == obj::scene_model(path, parsed)
        } else {
            r == Err::<ModelView, ErrorView>(ErrorView::UnknownFormat)
        },
        Source::Gltf(scene) => if format == ModelFormat::GLTF {
            r == gltf::scene_model(path, scene)
        } else {
            r == Err::<ModelView, ErrorView>(ErrorView::UnknownFormat)
        },
        Source::Stl(bytes) => if format == ModelFormat::STL {
            r == stl::stl_loaded(bytes@)
        } else {
            r == Err::<ModelView, ErrorView>(ErrorView::UnknownFormat)
        },
        Source::Ply(bytes) => if format == ModelFormat::PLY {
            ply::ply_loaded(bytes@, r)
        } else {
            r == Err::<ModelView, ErrorView>(ErrorView::UnknownFormat)
        },
    }
}

/// The result of loading a source by the extension of its path can be `r`: the
/// format is sniffed first, and a missing file is reported before its extension
/// is looked at.
pub open spec fn sniffed_and_dispatched(
    path: Seq<char>,
    source: Source,
    r: Result<ModelView, ErrorView>,
) -> bool {
    match sniffed(!(source is Missing), path_extension(path)) {
        Err(e) => r == Err::<ModelView, ErrorView>(e),
        Ok(format) => dispatched(path, format, source, r),
    }
}

impl Model3D {
    /// Loads the model at `path` with the adapter of its extension's format, from
    /// what the caller read of the file.
    pub fn load(path: &str, source: &Source) -> (r: Result<Model3D, ModelError>)
        ensures
            sniffed_and_dispatched(path@, *source, loaded(r)),
            source is Missing ==> loaded(r) == Err::<ModelView, ErrorView>(
                ErrorView::FileNotExists,
            ),
            r matches Ok(m) ==> m@.wf() && Some(m.format) == source.format(),
    {
        let exists = match source {
            Source::Missing => false,
            _ => true,
        };
        match get_format(path, exists) {
            Ok(format) => Model3D::from_format(path, &format, source),
            Err(e) => Err(e),
        }
    }

    /// Loads the model at `path` with the adapter of `format`, whatever the
    /// extension, from what the caller read of the file.
    pub fn from_format(path: &str, format: &ModelFormat, source: &Source) -> (r: Result<
        Model3D,
        ModelError,
    >)
        ensures
            dispatched(path@, *format, *source, loaded(r)),
            source is Missing ==> loaded(r) == Err::<ModelView, ErrorView>(
                ErrorView::FileNotExists,
            ),
            r matches Ok(m) ==> m@.wf() && m.format == *format && Some(m.format)
                == source.format(),
    {
        match source {
            Source::Missing => Err(ModelError::FileNotExists),
            Source::Unreadable(e) => Err(ModelError::OpenFile(e.clone())),
            Source::Obj(parsed) => match format {
                ModelFormat::OBJ => obj::load(path, parsed),
                _ => Err(ModelError::UnknownFormat),
            },
            Source::Gltf(scene) => match format {
                ModelFormat::GLTF => gltf::load(path, scene),
                _ => Err(ModelError::UnknownFormat),
            },
            Source::Stl(bytes) => match format {
                ModelFormat::STL => stl::load(bytes.as_slice()),
                _ => Err(ModelError::UnknownFormat),
            },
            Source::Ply(bytes) => match format {
                ModelFormat::PLY => ply::load(bytes.as_slice()),
                _ => Err(ModelError::UnknownFormat),
            },
        }
    }
}

/// The missing-file law: a path that names no file is `FileNotExists`, and
/// nothing else, under every format and every extension.
pub proof fn lemma_missing_file(path: Seq<char>, format: ModelFormat, r: Result<ModelView, ErrorView>)
    ensures
        dispatched(path, format, Source::Missing, r) <==> r == Err::<ModelView, ErrorView>(
            ErrorView::FileNotExists,
        ),
        sniffed_and_dispatched(path, Source::Missing, r) <==> r == Err::<ModelView, ErrorView>(
            ErrorView::FileNotExists,
        ),
        forall|ext: Option<Seq<char>>|
            sniffed(false, ext) == Err::<ModelFormat, ErrorView>(ErrorView::FileNotExists),
{
}

/// The unknown-extension law: an existing file whose extension is absent or not
/// registered is `UnknownFormat`. The extension `xyz` is not registered, nor is a
/// registered one in another case.
pub proof fn lemma_unknown_extension(ext: Option<Seq<char>>)
    ensures
        (ext matches Some(e) ==> format_of_extension(e) is None) ==> sniffed(true, ext) == Err::<
            ModelFormat,
            ErrorView,
        >(ErrorView::UnknownFormat),
        format_of_extension("xyz"@) is None,
        format_of_extension("OBJ"@) is None,
{
    reveal_strlit("xyz");
    reveal_strlit("OBJ");
    reveal_strlit("obj");
    reveal_strlit("gltf");
    reveal_strlit("glb");
    reveal_strlit("stl");
    reveal_strlit("ply");
    assert("xyz"@[0] == 'x');
    assert("OBJ"@[0] == 'O');
    assert("obj"@[0] == 'o');
    assert("glb"@[0] == 'g');
    assert("stl"@[0] == 's');
    assert("ply"@[0] == 'p');
}

/// The registered extensions and their formats.
pub proof fn lemma_registered_extensions()
    ensures
        format_of_extension("obj"@) == Some(ModelFormat::OBJ),
        format_of_extension("gltf"@) == Some(ModelFormat::GLTF),
        format_of_extension("glb"@) == Some(ModelFormat::GLTF),
        format_of_extension("stl"@) == Some(ModelFormat::STL),
        format_of_extension("ply"@) == Some(ModelFormat::PLY),
{
    reveal_strlit("obj");
    reveal_strlit("gltf");
    reveal_strlit("glb");
    reveal_strlit("stl");
    reveal_strlit("ply");
    assert("obj"@[0] == 'o');
    assert("gltf"@.len() == 4);
    assert("glb"@[0] == 'g');
    assert("stl"@[0] == 's');
    assert("ply"@[0] == 'p');
}

/// Referential integrity under every format: what loads is well formed and
/// carries the tag of the format it was loaded under.
pub proof fn lemma_dispatched_wf(
    path: Seq<char>,
    format: ModelFormat,
    source: Source,
    r: Result<ModelView, ErrorView>,
)
    requires
        dispatched(path, format, source, r),
    ensures
        r matches Ok(m) ==> m.wf() && m.format == format && Some(format) == source.format(),
{
    match source {
        Source::Obj(parsed) => {
            obj::lemma_scene_model_wf(path, parsed);
        },
        Source::Gltf(scene) => {
            gltf::lemma_scene_model_wf(path, scene);
        },
        Source::Stl(bytes) => {
            if let Ok(mesh) = stl::stl_read(bytes@) {
                stl::lemma_soup_shape(mesh);
            }
        },
        Source::Ply(bytes) => {
            if let Some(elements) = ply::ply_parsed(bytes@) {
                ply::lemma_face_list_duplication(elements);
            }
        },
        _ => {},
    }
}

/// One result only: what is loaded from a source is fixed by the path, the
/// format and the source, but for the text of the error of a PLY file that its
/// reader refuses.
pub proof fn lemma_dispatched_once(
    path: Seq<char>,
    format: ModelFormat,
    source: Source,
    r1: Result<ModelView, ErrorView>,
    r2: Result<ModelView, ErrorView>,
)
    requires
        dispatched(path, format, source, r1),
        dispatched(path, format, source, r2),
    ensures
        r1 != r2 ==> {
            &&& source matches Source::Ply(bytes)
            &&& ply::header_numbers_fit(bytes@)
            &&& ply::ply_parsed(bytes@) is None
            &&& r1 matches Err(ErrorView::ModelParsing(_))
            &&& r2 matches Err(ErrorView::ModelParsing(_))
        },
{
}

} // verus!
