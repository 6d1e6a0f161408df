//! Where the finished pictures are written: the output directory and the
//! name of each file in it. Paths are UTF-8 strings; taking them apart and
//! putting them together is left to the `camino` crate.

use camino::Utf8Path;
use vstd::prelude::*;
use vstd::string::*;

verus! {

/// `path` without the extension of its file name: what
/// `Utf8Path::with_extension` returns for the empty extension.
pub uninterp spec fn path_without_extension(path: Seq<char>) -> Seq<char>;

/// The file name of `path` up to its extension, if the path has a file
/// name: what `Utf8Path::file_stem` returns.
pub uninterp spec fn path_file_stem(path: Seq<char>) -> Option<Seq<char>>;

/// `name` adjoined to the directory `base`: what `Utf8Path::join` returns.
pub uninterp spec fn path_join(base: Seq<char>, name: Seq<char>) -> Seq<char>;

/// `Utf8Path::with_extension` for the empty extension, which takes the
/// extension off.
#[verifier::external_body]
fn without_extension(path: &str) -> (r: String)
    ensures
        r@ == path_without_extension(path@),
{
    Utf8Path::new(path).with_extension("").into_string()
}

/// `Utf8Path::file_stem`.
#[verifier::external_body]
fn file_stem(path: &str) -> (r: Option<String>)
    ensures
        text_of(r) == path_file_stem(path@),
{
    match Utf8Path::new(path).file_stem() {
        Some(stem) => Some(stem.to_string()),
        None => None,
    }
}

/// `Utf8Path::join`.
#[verifier::external_body]
fn join(base: &str, name: &str) -> (r: String)
    ensures
        r@ == path_join(base@, name@),
{
    Utf8Path::new(base).join(name).into_string()
}

/// The characters of a string that may be absent.
pub open spec fn text_of(text: Option<String>) -> Option<Seq<char>> {
    match text {
        Some(s) => Some(s@),
        None => None,
    }
}

/// How an output file is named.
#[derive(Clone, Copy, Debug, PartialEq, Eq, Structural)]
pub enum NamingScheme {
    /// `{icon_stem}.png`
    IconStem,
    /// `{profile_stem}_{icon_stem}.png`
    ProfileAndIconStem,
}

/// The name of the output file for an icon, from the file stems of the
/// profile picture's path and of the icon's path. There is no name where a
/// stem that the scheme uses is missing.
pub open spec fn output_file_name(
    scheme: NamingScheme,
    profile_stem: Option<Seq<char>>,
    icon_stem: Option<Seq<char>>,
) -> Option<Seq<char>> {
    match (scheme, profile_stem, icon_stem) {
        (NamingScheme::IconStem, _, Some(icon)) => Some(icon + ".png"@),
        (NamingScheme::ProfileAndIconStem, Some(profile), Some(icon)) => Some(
            profile + "_"@ + icon + ".png"@,
        ),
        _ => None,
    }
}

/// The directory that the output files go to: the one that was asked for,
/// or else the profile picture's path without its extension.
pub open spec fn output_directory(
    requested: Option<Seq<char>>,
    profile_picture_path: Seq<char>,
) -> Seq<char> {
    match requested {
        Some(dir) => dir,
        None => path_without_extension(profile_picture_path),
    }
}

/// The path of the output file for an icon, if it has a name.
pub open spec fn output_path(
    scheme: NamingScheme,
    out_dir: Seq<char>,
    profile_picture_path: Seq<char>,
    icon_path: Seq<char>,
) -> Option<Seq<char>> {
    match output_file_name(
        scheme,
        path_file_stem(profile_picture_path),
        path_file_stem(icon_path),
    ) {
        Some(name) => Some(path_join(out_dir, name)),
        None => None,
    }
}

/// Builds the name of the output file for an icon from the two file stems.
pub fn derived_file_name(
    scheme: NamingScheme,
    profile_stem: &Option<String>,
    icon_stem: &Option<String>,
) -> (name: Option<String>)
    ensures
        text_of(name) == output_file_name(scheme, text_of(*profile_stem), text_of(*icon_stem)),
{
    let icon = match icon_stem {
        Some(icon) => icon,
        None => {
            return None;
        },
    };
    let mut name = match scheme {
        NamingScheme::IconStem => String::from_str(icon.as_str()),
        NamingScheme::ProfileAndIconStem => match profile_stem {
            Some(profile) => {
                let mut name = String::from_str(profile.as_str());
                name.append("_");
                name.append(icon.as_str());
                name
            },
            None => {
                return None;
            },
        },
    };
    name.append(".png");
    Some(name)
}

/// Decides the output directory of a run.
pub fn resolve_output_directory(
    requested: &Option<String>,
    profile_picture_path: &str,
) -> (dir: String)
    ensures
        dir@ == output_directory(text_of(*requested), profile_picture_path@),
{
    match requested {
        Some(dir) => dir.clone(),
        None => without_extension(profile_picture_path),
    }
}

/// Decides the path that the picture with the given icon is written to.
/// There is none where the icon's path has no file stem or, under
/// [`NamingScheme::ProfileAndIconStem`], the profile picture's path has
/// none.
pub fn output_path_for(
    scheme: NamingScheme,
    out_dir: &str,
    profile_picture_path: &str,
    icon_path: &str,
) -> (path: Option<String>)
    ensures
        text_of(path) == output_path(scheme, out_dir@, profile_picture_path@, icon_path@),
{
    let profile_stem = file_stem(profile_picture_path);
    let icon_stem = file_stem(icon_path);
    match derived_file_name(scheme, &profile_stem, &icon_stem) {
        Some(name) => Some(join(out_dir, name.as_str())),
        None => None,
    }
}

} // verus!
