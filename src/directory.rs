use vstd::prelude::*;

use crate::error::SupervisorError;

verus! {

/// What `std::path::Path::parent` returns for a path: the path without its
/// final component, or nothing where the path ends in a root or a prefix.
pub uninterp spec fn parent_of(p: Seq<char>) -> Option<Seq<char>>;

/// What `std::path::Path::join` returns for a base and a relative name.
pub uninterp spec fn joined_of(base: Seq<char>, name: Seq<char>) -> Seq<char>;

/// Relies on `std::path::Path::parent`: its result depends on the path's text
/// alone, and the empty path has no parent.
#[verifier::external_body]
fn path_parent(p: &str) -> (r: Option<String>)
    ensures
        r.deep_view() == parent_of(p@),
        p@.len() == 0 ==> r is None,
{
    std::path::Path::new(p).parent().map(|d| d.to_string_lossy().into_owned())
}

/// Relies on `std::path::Path::join`: its result depends on the two texts alone.
#[verifier::external_body]
fn path_join(base: &str, name: &str) -> (r: String)
    ensures
        r@ == joined_of(base@, name@),
{
    std::path::Path::new(base).join(name).to_string_lossy().into_owned()
}

/// What `std::path::Path::is_absolute` says of a path.
pub uninterp spec fn absolute_of(p: Seq<char>) -> bool;

/// Relies on `std::path::Path::is_absolute`: its answer depends on the path's
/// text alone.
#[verifier::external_body]
fn path_is_absolute(p: &str) -> (r: bool)
    ensures
        r == absolute_of(p@),
{
    std::path::Path::new(p).is_absolute()
}

/// The file whose presence marks a correctly installed bundled application.
pub const MARKER_FILE: &'static str = "package.json";

/// `d` can serve as the base directory: it is not empty and it is absolute.
pub open spec fn is_usable(d: Seq<char>) -> bool {
    d.len() > 0 && absolute_of(d)
}

/// `d` is known and can serve as the base directory.
pub open spec fn usable(d: Option<Seq<char>>) -> bool {
    d matches Some(x) && is_usable(x)
}

/// The first of the two candidates that is known and marked usable.
pub open spec fn pick_choice(
    exe_dir: Option<Seq<char>>,
    exe_dir_usable: bool,
    cwd: Option<Seq<char>>,
    cwd_usable: bool,
) -> Option<Seq<char>> {
    if exe_dir is Some && exe_dir_usable {
        exe_dir
    } else if cwd is Some && cwd_usable {
        cwd
    } else {
        None
    }
}

/// The base directory chosen from the executable's directory and the working
/// directory: the first of the two that is known, not empty and absolute.
pub open spec fn base_dir_choice(exe_dir: Option<Seq<char>>, cwd: Option<Seq<char>>) -> Option<
    Seq<char>,
> {
    if usable(exe_dir) {
        exe_dir
    } else if usable(cwd) {
        cwd
    } else {
        None
    }
}

/// The directory of the executable at `exe_path`, if it has one.
pub open spec fn exe_dir_of(exe_path: Option<Seq<char>>) -> Option<Seq<char>> {
    match exe_path {
        Some(p) => parent_of(p),
        None => None,
    }
}

/// The executable's directory is the base wherever it is known, not empty and
/// absolute; otherwise the working directory is, wherever it is so; a chosen
/// base is never empty and always absolute.
pub proof fn lemma_base_dir_resolution(exe_path: Option<Seq<char>>, cwd: Option<Seq<char>>)
    ensures
        usable(exe_dir_of(exe_path)) ==> base_dir_choice(exe_dir_of(exe_path), cwd) == exe_dir_of(
            exe_path,
        ),
        !usable(exe_dir_of(exe_path)) && usable(cwd) ==> base_dir_choice(
            exe_dir_of(exe_path),
            cwd,
        ) == cwd,
        !usable(exe_dir_of(exe_path)) && !usable(cwd) ==> base_dir_choice(
            exe_dir_of(exe_path),
            cwd,
        ) is None,
        base_dir_choice(exe_dir_of(exe_path), cwd) is None || usable(
            base_dir_choice(exe_dir_of(exe_path), cwd),
        ),
{
}

/// Picks the base directory from the two candidates, given whether each can
/// serve as one: the executable's directory first, then the working directory.
pub fn pick_base_dir(
    exe_dir: Option<String>,
    exe_dir_usable: bool,
    cwd: Option<String>,
    cwd_usable: bool,
) -> (r: Result<String, SupervisorError>)
    ensures
        match r {
            Ok(d) => pick_choice(exe_dir.deep_view(), exe_dir_usable, cwd.deep_view(), cwd_usable)
                == Some(d@),
            Err(e) => pick_choice(
                exe_dir.deep_view(),
                exe_dir_usable,
                cwd.deep_view(),
                cwd_usable,
            ) is None && e is DirectoryResolutionFailure,
        },
{
    match exe_dir {
        Some(d) if exe_dir_usable => {
            return Ok(d);
        },
        _ => {},
    }
    match cwd {
        Some(c) if cwd_usable => Ok(c),
        _ => Err(SupervisorError::DirectoryResolutionFailure),
    }
}

fn usable_dir(d: &Option<String>) -> (r: bool)
    ensures
        r == usable(d.deep_view()),
{
    match d {
        Some(x) => !x.as_str().is_empty() && path_is_absolute(x.as_str()),
        None => false,
    }
}

/// Picks the base directory: the executable's directory where it is known,
/// not empty and absolute, else the working directory where it is so.
pub fn choose_base_dir(exe_dir: Option<String>, cwd: Option<String>) -> (r: Result<
    String,
    SupervisorError,
>)
    ensures
        match r {
            Ok(d) => base_dir_choice(exe_dir.deep_view(), cwd.deep_view()) == Some(d@),
            Err(e) => base_dir_choice(exe_dir.deep_view(), cwd.deep_view()) is None
                && e is DirectoryResolutionFailure,
        },
{
    let exe_dir_usable = usable_dir(&exe_dir);
    let cwd_usable = usable_dir(&cwd);
    pick_base_dir(exe_dir, exe_dir_usable, cwd, cwd_usable)
}

/// Resolves the base directory from the running executable's path and the
/// working directory, as far as each is known: the executable's parent
/// directory is preferred, and the result is never empty and always absolute.
pub fn resolve_base_dir(exe_path: Option<String>, cwd: Option<String>) -> (r: Result<
    String,
    SupervisorError,
>)
    ensures
        match r {
            Ok(d) => base_dir_choice(exe_dir_of(exe_path.deep_view()), cwd.deep_view()) == Some(
                d@,
            ),
            Err(e) => base_dir_choice(exe_dir_of(exe_path.deep_view()), cwd.deep_view()) is None
                && e is DirectoryResolutionFailure,
        },
        r matches Ok(d) ==> is_usable(d@),
{
    let exe_dir = match exe_path {
        Some(p) => path_parent(p.as_str()),
        None => None,
    };
    choose_base_dir(exe_dir, cwd)
}

/// The path of the marker file inside `base_dir`.
pub fn marker_path(base_dir: &str) -> (r: String)
    ensures
        r@ == joined_of(base_dir@, MARKER_FILE@),
{
    path_join(base_dir, MARKER_FILE)
}

} // verus!
