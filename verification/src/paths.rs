//! Paths as the layout resolver sees them: text with `/` between components.
//!
//! Joining follows the host's rule that an absolute right-hand side replaces
//! the left-hand side. Rebasing is the operation that avoids that rule: it
//! drops the leading separators first, so the result always lies under the
//! base.

use vstd::prelude::*;
use vstd::string::*;

verus! {

/// What separates the components of a path.
pub const SEPARATOR: char = '/';

/// A path is absolute when it begins with the separator.
pub open spec fn is_absolute(path: Seq<char>) -> bool {
    path.len() > 0 && path[0] == SEPARATOR
}

/// `base` is an initial part of `path`.
pub open spec fn starts_with(path: Seq<char>, base: Seq<char>) -> bool {
    base.len() <= path.len() && path.subrange(0, base.len() as int) == base
}

/// `name` appended to `base`: an absolute `name` stands alone; otherwise one
/// separator is put between the two unless `base` is empty or already ends in
/// one.
pub open spec fn spec_join(base: Seq<char>, name: Seq<char>) -> Seq<char> {
    if is_absolute(name) {
        name
    } else if base.len() > 0 && base.last() != SEPARATOR {
        base + seq![SEPARATOR] + name
    } else {
        base + name
    }
}

/// `path` without its leading separators.
pub open spec fn spec_strip_root(path: Seq<char>) -> Seq<char>
    decreases path.len(),
{
    if is_absolute(path) {
        spec_strip_root(path.drop_first())
    } else {
        path
    }
}

/// `path` placed under `base`, whether or not `path` is absolute.
pub open spec fn spec_rebase(base: Seq<char>, path: Seq<char>) -> Seq<char> {
    spec_join(base, spec_strip_root(path))
}

/// Whether `path` begins with the separator.
pub fn has_root(path: &str) -> (absolute: bool)
    ensures
        absolute == is_absolute(path@),
{
    path.unicode_len() > 0 && path.get_char(0) == SEPARATOR
}

/// Appends `name` to `base`.
pub fn join(base: &str, name: &str) -> (joined: String)
    ensures
        joined@ == spec_join(base@, name@),
{
    let base_len = base.unicode_len();
    if has_root(name) {
        name.to_owned()
    } else if base_len > 0 && base.get_char(base_len - 1) != SEPARATOR {
        let mut joined = base.to_owned();
        proof {
            reveal_strlit("/");
            assert("/"@ =~= seq![SEPARATOR]);
        }
        joined.append("/");
        joined.append(name);
        joined
    } else {
        let mut joined = base.to_owned();
        joined.append(name);
        joined
    }
}

/// Dropping `count` leading separators one by one is the same as skipping
/// them at once.
proof fn lemma_strip_root_skips(path: Seq<char>, count: int)
    requires
        0 <= count <= path.len(),
        forall|i: int| 0 <= i < count ==> path[i] == SEPARATOR,
    ensures
        spec_strip_root(path) == spec_strip_root(path.skip(count)),
    decreases count,
{
    if count == 0 {
        assert(path.skip(0) =~= path);
    } else {
        assert(is_absolute(path));
        let rest = path.drop_first();
        assert forall|i: int| 0 <= i < count - 1 implies rest[i] == SEPARATOR by {
            assert(rest[i] == path[i + 1]);
        }
        lemma_strip_root_skips(rest, count - 1);
        assert(rest.skip(count - 1) =~= path.skip(count));
    }
}

/// Removes every leading separator of `path`.
pub fn strip_root(path: &str) -> (relative: String)
    ensures
        relative@ == spec_strip_root(path@),
{
    let len = path.unicode_len();
    let mut count: usize = 0;
    while count < len && path.get_char(count) == SEPARATOR
        invariant
            count <= len,
            len == path@.len(),
            forall|i: int| 0 <= i < count ==> path@[i] == SEPARATOR,
        decreases len - count,
    {
        count += 1;
    }
    proof {
        lemma_strip_root_skips(path@, count as int);
        assert(path@.subrange(count as int, len as int) =~= path@.skip(count as int));
    }
    path.substring_char(count, len).to_owned()
}

/// Places `path` under `base`. An absolute `path` is appended like a relative
/// one, never put in place of `base`.
pub fn rebase_under(base: &str, path: &str) -> (rebased: String)
    ensures
        rebased@ == spec_rebase(base@, path@),
{
    let relative = strip_root(path);
    join(base, relative.as_str())
}

/// What is left after stripping is never absolute, and is the end of the
/// path it came from.
pub proof fn lemma_strip_root_is_relative(path: Seq<char>)
    ensures
        !is_absolute(spec_strip_root(path)),
        spec_strip_root(path).len() <= path.len(),
        spec_strip_root(path) == path.skip(path.len() - spec_strip_root(path).len()),
        forall|i: int|
            0 <= i < path.len() - spec_strip_root(path).len() ==> path[i] == SEPARATOR,
    decreases path.len(),
{
    if is_absolute(path) {
        let rest = path.drop_first();
        lemma_strip_root_is_relative(rest);
        let kept = spec_strip_root(rest);
        assert(rest.skip(rest.len() - kept.len()) =~= path.skip(path.len() - kept.len()));
        assert forall|i: int| 0 <= i < path.len() - kept.len() implies path[i] == SEPARATOR by {
            if i > 0 {
                assert(rest[i - 1] == path[i]);
            }
        }
    } else {
        assert(path.skip(0) =~= path);
    }
}

/// Joining a relative name keeps the base in front.
pub proof fn lemma_join_keeps_base(base: Seq<char>, name: Seq<char>)
    requires
        !is_absolute(name),
    ensures
        starts_with(spec_join(base, name), base),
{
    let joined = spec_join(base, name);
    assert(joined.subrange(0, base.len() as int) =~= base);
}

/// A rebased path lies under its base, whatever the path was.
pub proof fn lemma_rebase_stays_under_base(base: Seq<char>, path: Seq<char>)
    ensures
        starts_with(spec_rebase(base, path), base),
{
    lemma_strip_root_is_relative(path);
    lemma_join_keeps_base(base, spec_strip_root(path));
}

/// Rebasing a path that is already relative is joining it.
pub proof fn lemma_rebase_of_relative_is_join(base: Seq<char>, path: Seq<char>)
    requires
        !is_absolute(path),
    ensures
        spec_rebase(base, path) == spec_join(base, path),
{
}

} // verus!
