//! The directory that must hold a file's staging copy.

use vstd::prelude::*;

verus! {

/// What `std::path::Path::parent` returns for a path.
pub uninterp spec fn parent_of(p: Seq<char>) -> Option<Seq<char>>;

/// What `std::path::PathBuf::push` makes of `base` when `p` is pushed onto it.
pub uninterp spec fn pushed(base: Seq<char>, p: Seq<char>) -> Seq<char>;

/// On Unix a path is absolute when it starts at the root.
pub open spec fn is_absolute(p: Seq<char>) -> bool {
    p.len() > 0 && p[0] == '/'
}

/// Relies on `std::path::Path::parent`: the path without its last component.
#[verifier::external_body]
fn path_parent(p: &str) -> (r: Option<String>)
    ensures
        match r {
            Some(q) => parent_of(p@) == Some(q@),
            None => parent_of(p@) is None,
        },
{
    std::path::Path::new(p).parent().map(|q| q.to_string_lossy().into_owned())
}

/// Relies on `std::path::Path::is_absolute`, which on Unix holds exactly of
/// a path that begins with `/`.
#[verifier::external_body]
fn path_is_absolute(p: &str) -> (r: bool)
    ensures
        r == is_absolute(p@),
{
    std::path::Path::new(p).is_absolute()
}

/// Relies on `std::path::PathBuf::push`: `p` joined onto `base`.
#[verifier::external_body]
fn path_push(base: String, p: &str) -> (r: String)
    ensures
        r@ == pushed(base@, p@),
{
    let mut b = std::path::PathBuf::from(base);
    b.push(p);
    b.to_string_lossy().into_owned()
}

/// The absolute directory that holds `path`: the root for a path with no
/// parent, the parent itself when it is absolute, and otherwise the parent
/// joined onto the working directory, which `current_dir` is asked for in
/// that case only. `..` segments are kept as they are.
pub fn dir_of<F, E>(path: &str, current_dir: F) -> (r: Result<String, E>)
    where
        F: FnOnce() -> Result<String, E>,
    requires
        current_dir.requires(()),
    ensures
        match parent_of(path@) {
            None => r is Ok && r->Ok_0@ == seq!['/'],
            Some(p) => if is_absolute(p) {
                r is Ok && r->Ok_0@ == p
            } else {
                exists|c: Result<String, E>|
                    #[trigger] current_dir.ensures((), c) && match c {
                        Ok(d) => r is Ok && r->Ok_0@ == pushed(d@, p),
                        Err(e) => r == Err::<String, E>(e),
                    }
            },
        },
{
    match path_parent(path) {
        None => {
            let root = "/".to_owned();
            proof {
                reveal_strlit("/");
            }
            Ok(root)
        },
        Some(p) => {
            if path_is_absolute(p.as_str()) {
                Ok(p)
            } else {
                let c = current_dir();
                match c {
                    Ok(d) => Ok(path_push(d, p.as_str())),
                    Err(e) => Err(e),
                }
            }
        },
    }
}

} // verus!
