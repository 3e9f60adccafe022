//! File-system paths, held as texts with `/` between their components.

use vstd::prelude::*;
use crate::text::appended;

verus! {

/// The character that separates the components of a path.
pub const SEPARATOR: char = '/';

/// Whether a path starts at the root of the file system.
pub open spec fn is_absolute(path: Seq<char>) -> bool {
    path.len() > 0 && path[0] == SEPARATOR
}

/// The path of `child` under `base`. An absolute `child` stands for itself,
/// whatever the base. Else `child` follows `base`, after a separator where
/// `base` does not end in one already; under the empty base `child` stands
/// alone.
pub open spec fn path_join(base: Seq<char>, child: Seq<char>) -> Seq<char> {
    if is_absolute(child) {
        child
    } else if base.len() == 0 || base.last() == SEPARATOR {
        base + child
    } else {
        base + seq![SEPARATOR] + child
    }
}

/// The path of `child` under `base`.
pub fn join_path(base: &str, child: &str) -> (joined: String)
    ensures
        joined@ == path_join(base@, child@),
{
    if !child.is_empty() && child.get_char(0) == SEPARATOR {
        return child.to_owned();
    }
    let length = base.unicode_len();
    if length == 0 || base.get_char(length - 1) == SEPARATOR {
        appended(base, child)
    } else {
        proof {
            reveal_strlit("/");
            assert("/"@ =~= seq![SEPARATOR]);
        }
        let opened = appended(base, "/");
        appended(opened.as_str(), child)
    }
}

/// Under one base, relative paths that differ lead to different places.
pub proof fn lemma_join_is_injective(base: Seq<char>, first: Seq<char>, second: Seq<char>)
    requires
        !is_absolute(first),
        !is_absolute(second),
        first != second,
    ensures
        path_join(base, first) != path_join(base, second),
{
    let opening = if base.len() == 0 || base.last() == SEPARATOR {
        base
    } else {
        base + seq![SEPARATOR]
    };
    assert(path_join(base, first) =~= opening + first);
    assert(path_join(base, second) =~= opening + second);
    if opening + first == opening + second {
        assert((opening + first).subrange(opening.len() as int, (opening + first).len() as int)
            =~= first);
        assert((opening + second).subrange(
            opening.len() as int,
            (opening + second).len() as int,
        ) =~= second);
    }
}

/// A path under a base that is not empty starts as the base does, so that it
/// is absolute where the base is.
pub proof fn lemma_join_stays_under_base(base: Seq<char>, child: Seq<char>)
    requires
        !is_absolute(child),
    ensures
        base.is_prefix_of(path_join(base, child)),
        is_absolute(base) ==> is_absolute(path_join(base, child)),
{
    if base.len() == 0 || base.last() == SEPARATOR {
        assert(path_join(base, child).subrange(0, base.len() as int) =~= base);
    } else {
        assert(path_join(base, child) =~= base + (seq![SEPARATOR] + child));
        assert(path_join(base, child).subrange(0, base.len() as int) =~= base);
    }
    assert(base.is_prefix_of(path_join(base, child)));
}

/// Whether a text names one component of a path: it is not empty and holds no
/// separator.
pub open spec fn is_component(name: Seq<char>) -> bool {
    name.len() > 0 && forall|i: int| 0 <= i < name.len() ==> name[i] != SEPARATOR
}

/// The path of a file `leaf` in the directory `name` under `base`, spelled
/// out: the base, a separator where the base needs one, the name, a
/// separator, and the leaf.
pub proof fn lemma_join_twice(base: Seq<char>, name: Seq<char>, leaf: Seq<char>)
    requires
        is_component(name),
        !is_absolute(leaf),
    ensures
        path_join(path_join(base, name), leaf) == path_join(base, Seq::empty()) + name
            + seq![SEPARATOR] + leaf,
        path_join(base, name) == path_join(base, Seq::empty()) + name,
{
    let opening = path_join(base, Seq::empty());
    assert(opening =~= if base.len() == 0 || base.last() == SEPARATOR {
        base
    } else {
        base + seq![SEPARATOR]
    });
    let dir = path_join(base, name);
    assert(dir =~= opening + name);
    assert(dir.last() == name.last());
    assert(path_join(dir, leaf) =~= opening + name + seq![SEPARATOR] + leaf);
}

/// Two components that are followed by a separator each, and lead to the
/// same text, are the same component, followed by the same text.
pub proof fn lemma_component_is_determined(
    first: Seq<char>,
    first_rest: Seq<char>,
    second: Seq<char>,
    second_rest: Seq<char>,
)
    requires
        is_component(first),
        is_component(second),
        first + seq![SEPARATOR] + first_rest == second + seq![SEPARATOR] + second_rest,
    ensures
        first == second,
        first_rest == second_rest,
{
    let one = first + seq![SEPARATOR] + first_rest;
    let other = second + seq![SEPARATOR] + second_rest;
    if first.len() < second.len() {
        assert(one[first.len() as int] == SEPARATOR);
        assert(other[first.len() as int] == second[first.len() as int]);
    } else if second.len() < first.len() {
        assert(other[second.len() as int] == SEPARATOR);
        assert(one[second.len() as int] == first[second.len() as int]);
    }
    assert(first =~= one.subrange(0, first.len() as int));
    assert(second =~= other.subrange(0, second.len() as int));
    assert(first_rest =~= one.subrange(first.len() as int + 1, one.len() as int));
    assert(second_rest =~= other.subrange(second.len() as int + 1, other.len() as int));
}

} // verus!
