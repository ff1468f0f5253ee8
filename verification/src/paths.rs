//! What to call a document in one line.
use vstd::prelude::*;

use crate::words::optional_text;

verus! {

/// A non-empty run of consecutive characters of `whole`.
pub open spec fn part_of(whole: Seq<char>, part: Seq<char>) -> bool {
    exists|start: int, end: int|
        0 <= start < end <= whole.len() && #[trigger] whole.subrange(start, end) == part
}

/// The characters after the last `/` of a path (all of it when it has none).
pub open spec fn last_run(path: Seq<char>) -> Seq<char>
    decreases path.len(),
{
    if path.len() == 0 {
        Seq::empty()
    } else if path.last() == '/' {
        Seq::empty()
    } else {
        last_run(path.drop_last()).push(path.last())
    }
}

/// A path every platform splits the same way: only `/` separates its parts
/// (no `\`, no `:` of a drive or prefix, and no leading `//` of a network
/// share), and it ends in an ordinary name rather than a separator, `.` or
/// `..`. Its final component is then the run after its last `/`.
pub open spec fn plain_path(path: Seq<char>) -> bool {
    &&& !path.contains('\\')
    &&& !path.contains(':')
    &&& !(path.len() >= 2 && path[0] == '/' && path[1] == '/')
    &&& last_run(path).len() > 0
    &&& last_run(path) != "."@
    &&& last_run(path) != ".."@
}

/// What holds of the final component of `path`, on every platform: it is a
/// non-empty run of the path and never `..`; an empty path has none; and a
/// plain path's is the run after its last `/`.
pub open spec fn component_facts(path: Seq<char>, component: Option<Seq<char>>) -> bool {
    &&& match component {
        Some(name) => part_of(path, name) && name != ".."@,
        None => true,
    }
    &&& path.len() == 0 ==> component is None
    &&& plain_path(path) ==> component == Some(last_run(path))
}

/// Asks `std::path::Path::file_name` for the final component of `path`.
///
/// The component is a slice of the path (converted without loss, since the
/// path is valid UTF-8), and a final component is never `..` (`file_name`
/// answers `None` for a path ending in one). Which characters separate
/// components is the platform's business, so which run it is is stated only
/// for a path that every platform splits at `/` alone.
#[verifier::external_body]
fn final_component(path: &str) -> (component: Option<String>)
    ensures
        component_facts(path@, optional_text(component)),
{
    match std::path::Path::new(path).file_name() {
        Some(name) => Some(name.to_string_lossy().into_owned()),
        None => None,
    }
}

/// The final component when the path has one, and the whole path otherwise.
pub open spec fn line_name(path: Seq<char>, component: Option<Seq<char>>) -> Seq<char> {
    match component {
        Some(name) => name,
        None => path,
    }
}

/// Whether `name` is what a line may call `path`: its final component, or
/// the whole path when it has none.
pub open spec fn names_path(path: Seq<char>, name: Seq<char>) -> bool {
    exists|component: Option<Seq<char>>|
        component_facts(path, component) && name == #[trigger] line_name(path, component)
}

/// The name a line uses for `path`, given its final component if it has one.
pub fn name_in_line(path: &str, component: Option<String>) -> (name: String)
    ensures
        name@ == line_name(path@, optional_text(component)),
{
    match component {
        Some(name) => name,
        None => crate::words::text(path),
    }
}

/// What a line may call a path is a non-empty run of it (unless the path is
/// empty, when it is empty too), and for a plain path it is exactly the run
/// after the last `/`.
pub proof fn what_a_line_calls_a_path(path: Seq<char>, name: Seq<char>)
    requires
        names_path(path, name),
    ensures
        path.len() > 0 ==> part_of(path, name),
        path.len() == 0 ==> name.len() == 0,
        plain_path(path) ==> name == last_run(path),
{
    let component = choose|component: Option<Seq<char>>|
        component_facts(path, component) && name == #[trigger] line_name(path, component);
    if component is None && path.len() > 0 {
        assert(path.subrange(0, path.len() as int) =~= path);
    }
}

/// What to call a document in one line.
///
/// The file's own name rather than the path it was found at: a status line is
/// a few centimetres wide, and the part that identifies a document to the
/// person who opened it is the end of the path rather than the beginning. A
/// path with no final component is named whole.
pub fn short_name(path: &str) -> (name: String)
    ensures
        names_path(path@, name@),
        path@.len() > 0 ==> part_of(path@, name@),
        plain_path(path@) ==> name@ == last_run(path@),
{
    let component = final_component(path);
    let ghost seen = optional_text(component);
    let name = name_in_line(path, component);
    proof {
        assert(component_facts(path@, seen) && name@ == line_name(path@, seen));
        what_a_line_calls_a_path(path@, name@);
    }
    name
}

} // verus!
