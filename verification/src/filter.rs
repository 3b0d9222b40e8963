//! The filter that a call passes before it is traced.
//!
//! Two tests decide. Frames that the host makes up (module bodies,
//! comprehensions, generator expressions) bear a name that starts with `<`,
//! which no identifier does: they are left out. And only calls whose source
//! file lies under the working directory, or is the interactive input, are
//! let in.
//!
//! A file lies under a directory where the directory's name, taken as whole
//! components, starts the file's name: `/work/app.py` and `/work/pkg/mod.py`
//! lie under `/work`, `/work2/app.py` does not. Names are compared as they
//! are written; `.`, `..` and links are not resolved.

use vstd::prelude::*;
use crate::text::{equals, first_char, is_prefix_at_boundary, starts_with_at_boundary};

verus! {

/// The character that starts the name of every synthetic frame.
pub const SYNTHETIC_MARKER: char = '<';

/// The character that parts the components of a file name.
pub const PATH_SEPARATOR: char = '/';

/// Whether a name is that of a synthetic frame.
pub open spec fn is_synthetic(name: Seq<char>) -> bool {
    name.len() > 0 && name[0] == SYNTHETIC_MARKER
}

/// Whether a file name is the marker of interactive input.
pub open spec fn is_interactive(filename: Seq<char>) -> bool {
    filename == "<stdin>"@
}

/// Whether a file lies under a directory: the directory's name starts the
/// file's name and ends where a component of it ends. That is so where the
/// two names are the same, where the directory's name ends with the
/// separator, and where the separator follows it in the file's name.
pub open spec fn lies_under(filename: Seq<char>, directory: Seq<char>) -> bool {
    is_prefix_at_boundary(directory, filename, PATH_SEPARATOR)
}

/// Whether a source file is one whose calls are traced: it lies under the
/// working directory, or it is the interactive input.
pub open spec fn in_scope(filename: Seq<char>, working_dir: Seq<char>) -> bool {
    lies_under(filename, working_dir) || is_interactive(filename)
}

/// Whether a call is traced.
pub open spec fn qualifies(name: Seq<char>, filename: Seq<char>, working_dir: Seq<char>) -> bool {
    !is_synthetic(name) && in_scope(filename, working_dir)
}

/// Whether a name is that of a synthetic frame.
pub fn is_synthetic_name(name: &str) -> (r: bool)
    ensures
        r == is_synthetic(name@),
{
    match first_char(name) {
        Some(c) => c == SYNTHETIC_MARKER,
        None => false,
    }
}

/// Whether a source file is one whose calls are traced.
pub fn is_in_scope(filename: &str, working_dir: &str) -> (r: bool)
    ensures
        r == in_scope(filename@, working_dir@),
{
    starts_with_at_boundary(filename, working_dir, PATH_SEPARATOR) || equals(filename, "<stdin>")
}

/// Whether a call is traced.
pub fn call_qualifies(name: &str, filename: &str, working_dir: &str) -> (r: bool)
    ensures
        r == qualifies(name@, filename@, working_dir@),
{
    !is_synthetic_name(name) && is_in_scope(filename, working_dir)
}

/// A frame whose name starts with the marker is never traced, wherever its
/// source lies; the module-level frame `<module>` is one of them.
pub proof fn lemma_synthetic_frames_excluded(
    name: Seq<char>,
    filename: Seq<char>,
    working_dir: Seq<char>,
)
    requires
        name.len() > 0,
        name[0] == '<',
    ensures
        !qualifies(name, filename, working_dir),
        !qualifies("<module>"@, filename, working_dir),
{
    reveal_strlit("<module>");
}

/// A call from a file that does not lie under the working directory, and is
/// not the interactive input, is never traced.
pub proof fn lemma_outside_files_excluded(
    name: Seq<char>,
    filename: Seq<char>,
    working_dir: Seq<char>,
)
    requires
        !lies_under(filename, working_dir),
        filename != "<stdin>"@,
    ensures
        !qualifies(name, filename, working_dir),
{
}

/// A file whose name only starts like the working directory's does not lie
/// under it: where the directory's name does not end with the separator and
/// is followed by anything but the separator, as `/work` is in
/// `/work2/app.py`, the file is outside, and a call from it is never traced.
pub proof fn lemma_sibling_files_excluded(
    name: Seq<char>,
    working_dir: Seq<char>,
    rest: Seq<char>,
)
    requires
        !(working_dir.len() > 0 && working_dir.last() == PATH_SEPARATOR),
        rest.len() > 0,
        rest[0] != PATH_SEPARATOR,
        working_dir + rest != "<stdin>"@,
    ensures
        working_dir.is_prefix_of(working_dir + rest),
        !lies_under(working_dir + rest, working_dir),
        !qualifies(name, working_dir + rest, working_dir),
{
    let filename = working_dir + rest;
    assert(filename[working_dir.len() as int] == rest[0]);
    assert(filename.subrange(0, working_dir.len() as int) =~= working_dir);
}

/// A file lies under the working directory where its name is the
/// directory's, the separator, and anything more; and the directory lies
/// under itself. Whatever lies under the directory starts with its name.
pub proof fn lemma_files_below_lie_under(working_dir: Seq<char>, rest: Seq<char>)
    ensures
        lies_under(working_dir + seq![PATH_SEPARATOR] + rest, working_dir),
        lies_under(working_dir, working_dir),
        forall|filename: Seq<char>| #[trigger]
            lies_under(filename, working_dir) ==> working_dir.is_prefix_of(filename),
{
    let filename = working_dir + seq![PATH_SEPARATOR] + rest;
    assert(filename.subrange(0, working_dir.len() as int) =~= working_dir);
    assert(filename[working_dir.len() as int] == PATH_SEPARATOR);
    assert(working_dir.subrange(0, working_dir.len() as int) =~= working_dir);
}

/// The interactive input is in scope whatever the working directory is: a
/// call from it is traced unless its frame is synthetic.
pub proof fn lemma_interactive_input_in_scope(name: Seq<char>, working_dir: Seq<char>)
    ensures
        in_scope("<stdin>"@, working_dir),
        qualifies(name, "<stdin>"@, working_dir) == !is_synthetic(name),
{
}

} // verus!
