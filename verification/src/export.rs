//! Paths of the exported files: the output folder next to the input and the
//! file names inside it. Creating folders and writing files is the caller's.

use vstd::prelude::*;
use crate::paths::{file_name_of, file_stem_of, join_path, parent_of, path_file_name, path_file_stem, path_join, path_parent};
use crate::text::push_char;

verus! {

/// Why an output path could not be built.
#[derive(Debug, Clone, Copy, PartialEq, Eq, Structural)]
pub enum ExportError {
    /// The input path has no file name to name the output folder after.
    NoInputName,
    /// The original image path has no file name.
    NoFileName,
}

impl ExportError {
    pub fn message(&self) -> (res: String)
        ensures
            *self == ExportError::NoInputName ==> res@ == "No se pudo obtener el nombre de la entrada"@,
            *self == ExportError::NoFileName ==> res@ == "No se puede obetener el nombre del archivo"@,
    {
        match self {
            ExportError::NoInputName => "No se pudo obtener el nombre de la entrada".to_string(),
            ExportError::NoFileName => "No se puede obetener el nombre del archivo".to_string(),
        }
    }
}

/// Name of the output folder of an input: its file stem, or its file name.
pub open spec fn output_name(input: Seq<char>) -> Option<Seq<char>> {
    match path_file_stem(input) {
        Some(stem) => Some(stem),
        None => path_file_name(input),
    }
}

/// Folder in which the output folder is created: the input itself when it is
/// a folder, else its parent, else `.`.
pub open spec fn output_base(input: Seq<char>, input_is_dir: bool) -> Seq<char> {
    if input_is_dir {
        input
    } else {
        match path_parent(input) {
            Some(parent) => parent,
            None => "."@,
        }
    }
}

/// The output folder for `input`: `optimized-<name>` inside the base folder.
///
/// - `foto.jpg` -> `optimized-foto`
/// - `imagenes/` -> `imagenes/optimized-imagenes`
pub fn output_dir_path(input: &str, input_is_dir: bool) -> (res: Result<String, ExportError>)
    ensures
        match output_name(input@) {
            Some(name) => res matches Ok(dir) && dir@ == path_join(
                output_base(input@, input_is_dir),
                "optimized-"@ + name,
            ),
            None => res == Err::<String, ExportError>(ExportError::NoInputName),
        },
{
    let name = match file_stem_of(input) {
        Some(stem) => stem,
        None => match file_name_of(input) {
            Some(name) => name,
            None => {
                return Err(ExportError::NoInputName);
            },
        },
    };
    let base: String = if input_is_dir {
        input.to_string()
    } else {
        match parent_of(input) {
            Some(parent) => parent,
            None => ".".to_string(),
        }
    };
    let mut folder = "optimized-".to_string();
    folder.append(name.as_str());
    Ok(join_path(base.as_str(), folder.as_str()))
}

/// The final path of an exported image: `<output_dir>/<stem>.<format>`.
///
/// `/imagenes/foto.jpg` in `/imagenes/optimized-imagenes` as `webp` gives
/// `/imagenes/optimized-imagenes/foto.webp`.
pub fn create_output_file(output_dir: &str, original_path: &str, format: &str) -> (res: Result<String, ExportError>)
    ensures
        match path_file_stem(original_path@) {
            Some(stem) => res matches Ok(file) && file@ == path_join(
                output_dir@,
                stem + seq!['.'] + format@,
            ),
            None => res == Err::<String, ExportError>(ExportError::NoFileName),
        },
{
    let stem = match file_stem_of(original_path) {
        Some(stem) => stem,
        None => {
            return Err(ExportError::NoFileName);
        },
    };
    let ghost stem_text = stem@;
    let mut name = stem;
    push_char(&mut name, '.');
    name.append(format);
    assert(name@ =~= stem_text + seq!['.'] + format@);
    Ok(join_path(output_dir, name.as_str()))
}

} // verus!
