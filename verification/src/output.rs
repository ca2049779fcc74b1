//! The paths of the files that a run writes.

use vstd::prelude::*;
use vstd::string::StringExecFns;
use crate::decimal::{decimal_text, lemma_decimal_text_digits, push_decimal};
use crate::format::SupportedImages;

verus! {

/// A borrowed path of the file system (`std::path::Path`).
#[verifier::external_type_specification]
#[verifier::external_body]
pub struct ExPath(std::path::Path);

/// An owned path of the file system (`std::path::PathBuf`).
#[verifier::external_type_specification]
#[verifier::external_body]
pub struct ExPathBuf(std::path::PathBuf);

/// The file stem of a path as text: what `Path::file_stem` finds, read as
/// UTF-8 with a replacement character for what is none, and nothing where the
/// path names no file.
pub uninterp spec fn path_stem(path: &std::path::Path) -> Option<Seq<char>>;

/// The path that `Path::join` makes of a directory and a name.
pub uninterp spec fn path_joined(dir: &std::path::Path, name: Seq<char>) -> std::path::PathBuf;

/// Calls `Path::file_stem` and hands the stem back as text. The method reads
/// the path only, not the file system: the stem depends on the path alone.
#[verifier::external_body]
fn file_stem_text(path: &std::path::Path) -> (stem: Option<String>)
    ensures
        match stem {
            Some(text) => path_stem(path) == Some(text@),
            None => path_stem(path) is None,
        },
{
    path.file_stem().map(|stem| stem.to_string_lossy().into_owned())
}

/// Calls `Path::join`. The method reads the two paths only, not the file
/// system: the result depends on them alone.
#[verifier::external_body]
fn join_path(dir: &std::path::Path, name: &str) -> (path: std::path::PathBuf)
    ensures
        path == path_joined(dir, name@),
{
    dir.join(name)
}

/// The name of the file for the entry at `index`: `{stem}_{index}.{extension}`,
/// the index in decimal and the extension that of the format.
pub open spec fn output_name(stem: Seq<char>, index: usize, format: SupportedImages) -> Seq<char> {
    stem + seq!['_'] + decimal_text(index as nat) + seq!['.'] + format.extension_spec()
}

/// The stem that names the outputs of a container: that of its path, and the
/// empty text where the path has none.
pub open spec fn stem_text(stem: Option<Seq<char>>) -> Seq<char> {
    match stem {
        Some(text) => text,
        None => Seq::empty(),
    }
}

/// The path of the file for the entry at `index` of the container at
/// `input_path`: the output name of the entry, in the output directory.
pub open spec fn output_path(
    output_dir: &std::path::Path,
    input_path: &std::path::Path,
    index: usize,
    format: SupportedImages,
) -> std::path::PathBuf {
    path_joined(output_dir, output_name(stem_text(path_stem(input_path)), index, format))
}

/// The name of the file for the entry at `index` of a container whose file
/// stem is `file_stem`.
pub fn output_file_name(file_stem: &str, index: usize, format: SupportedImages) -> (name: String)
    ensures
        name@ == output_name(file_stem@, index, format),
{
    proof {
        reveal_strlit("_");
        reveal_strlit(".");
    }
    let mut name = file_stem.to_owned();
    name.append("_");
    push_decimal(&mut name, index);
    name.append(".");
    name.append(format.extension());
    name
}

/// The path of the file for the entry at `index` of the container at
/// `input_path`.
pub fn get_output_path(
    output_dir: &std::path::Path,
    input_path: &std::path::Path,
    index: usize,
    format: SupportedImages,
) -> (path: std::path::PathBuf)
    ensures
        path == output_path(output_dir, input_path, index, format),
{
    let file_stem = match file_stem_text(input_path) {
        Some(stem) => stem,
        None => String::new(),
    };
    let name = output_file_name(file_stem.as_str(), index, format);
    join_path(output_dir, name.as_str())
}

/// The files of two different entries bear different names, so that no
/// output of a run overwrites another.
pub proof fn lemma_output_names_differ(
    stem: Seq<char>,
    first: usize,
    second: usize,
    format: SupportedImages,
)
    requires
        first != second,
    ensures
        output_name(stem, first, format) != output_name(stem, second, format),
{
    let a = decimal_text(first as nat);
    let b = decimal_text(second as nat);
    let x = output_name(stem, first, format);
    let y = output_name(stem, second, format);
    lemma_decimal_text_digits(first as nat);
    lemma_decimal_text_digits(second as nat);
    if x == y {
        assert(x.len() == stem.len() + 1 + a.len() + 1 + format.extension_spec().len());
        assert(y.len() == stem.len() + 1 + b.len() + 1 + format.extension_spec().len());
        assert forall|k: int| 0 <= k < a.len() implies a[k] == b[k] by {
            assert(x[stem.len() + 1 + k] == a[k]);
            assert(y[stem.len() + 1 + k] == b[k]);
        }
        assert(a =~= b);
    }
}

} // verus!
