//! Where the records of a type are kept.
//!
//! Every record type has two files under the root of its store: one for the
//! single current record of the type, and one, named in the plural, for the
//! collection of its records. Both are named after the last segment of the
//! type's name, so two types that differ only in their module share their
//! files.

use vstd::prelude::*;
use vstd::string::*;

verus! {

/// Whether the separator `::` stands at index `i` of `name`.
pub open spec fn separator_at(name: Seq<char>, i: int) -> bool {
    0 <= i && i + 1 < name.len() && name[i] == ':' && name[i + 1] == ':'
}

/// Where the last segment of `name` starts.
///
/// The name is read from `pos` on, and `start` is where the segment that
/// holds `pos` starts. Separators are taken from left to right, each as early
/// as it can be, so of three colons in a row the first two separate and the
/// third opens the next segment.
pub open spec fn last_segment_start(name: Seq<char>, pos: int, start: int) -> int
    decreases name.len() - pos,
{
    if pos + 1 >= name.len() {
        start
    } else if separator_at(name, pos) {
        last_segment_start(name, pos + 2, pos + 2)
    } else {
        last_segment_start(name, pos + 1, start)
    }
}

/// The name of a type without its modules: what follows the last `::`.
pub open spec fn unqualified(name: Seq<char>) -> Seq<char> {
    name.skip(last_segment_start(name, 0, 0))
}

/// What a file name ends in: the store's format shows in it, so that files
/// written with and without compression never pass for one another.
pub open spec fn extension(encode: bool) -> Seq<char> {
    if encode {
        "jsondb"@
    } else {
        "json"@
    }
}

/// What is added to a type's name for the file of its collection.
pub open spec fn plural(pluralize: bool) -> Seq<char> {
    if pluralize {
        "s"@
    } else {
        Seq::<char>::empty()
    }
}

/// The path of the file that holds the records of the type `identity` in the
/// store under `root`: its collection if `pluralize`, else its single record.
pub open spec fn entity_path(
    root: Seq<char>,
    identity: Seq<char>,
    pluralize: bool,
    encode: bool,
) -> Seq<char> {
    root + "/"@ + identity + plural(pluralize) + "."@ + extension(encode)
}

/// What holds of the start of the last segment, once the name was read up to
/// `pos` and found free of separators from `start` on.
proof fn lemma_last_segment_start(name: Seq<char>, pos: int, start: int)
    requires
        0 <= start <= pos <= name.len(),
        start == 0 || separator_at(name, start - 2),
        forall|i: int| start <= i < pos ==> !separator_at(name, i),
    ensures
        ({
            let found = last_segment_start(name, pos, start);
            &&& start <= found <= name.len()
            &&& found == 0 || separator_at(name, found - 2)
            &&& forall|i: int| found <= i ==> !separator_at(name, i)
        }),
    decreases name.len() - pos,
{
    if pos + 1 >= name.len() {
    } else if separator_at(name, pos) {
        lemma_last_segment_start(name, pos + 2, pos + 2);
    } else {
        lemma_last_segment_start(name, pos + 1, start);
    }
}

/// The unqualified name is the end of the name from some index on. It holds
/// no separator, and it is the whole name or follows a separator.
pub proof fn lemma_unqualified_is_last_segment(name: Seq<char>)
    ensures
        ({
            let start = last_segment_start(name, 0, 0);
            &&& 0 <= start <= name.len()
            &&& unqualified(name) == name.subrange(start, name.len() as int)
            &&& start == 0 || separator_at(name, start - 2)
            &&& forall|i: int| !separator_at(unqualified(name), i)
        }),
{
    lemma_last_segment_start(name, 0, 0);
    let start = last_segment_start(name, 0, 0);
    assert forall|i: int| !separator_at(unqualified(name), i) by {
        if separator_at(unqualified(name), i) {
            assert(separator_at(name, start + i));
        }
    }
}

/// The unqualified name of a type, as an owned string.
pub fn type_identity(name: &str) -> (identity: String)
    ensures
        identity@ == unqualified(name@),
{
    let total = name.unicode_len();
    let mut start: usize = 0;
    let mut count: usize = 0;
    // Whether the character before `count` is a colon that no separator has
    // taken yet.
    let mut pending: bool = false;
    for c in it: name.chars()
        invariant
            it.seq() == name@,
            total == name@.len(),
            count == it.index(),
            start <= count <= total,
            pending ==> count > start && name@[count - 1] == ':',
            last_segment_start(name@, 0, 0) == last_segment_start(
                name@,
                if pending {
                    count - 1
                } else {
                    count as int
                },
                start as int,
            ),
    {
        let ghost pos = if pending {
            count - 1
        } else {
            count as int
        };
        count = count + 1;
        if pending && c == ':' {
            start = count;
            pending = false;
        } else {
            proof {
                if pending {
                    assert(last_segment_start(name@, pos, start as int) == last_segment_start(
                        name@,
                        pos + 1,
                        start as int,
                    ));
                }
                if c != ':' {
                    assert(last_segment_start(name@, count - 1, start as int)
                        == last_segment_start(name@, count as int, start as int));
                }
            }
            pending = c == ':';
        }
    }
    let identity = name.substring_char(start, total).to_owned();
    assert(identity@ =~= name@.skip(start as int));
    identity
}

/// The path of the file of a record type, as an owned string.
pub fn entity_file(root: &str, type_path: &str, pluralize: bool, encode: bool) -> (path: String)
    ensures
        path@ == entity_path(root@, unqualified(type_path@), pluralize, encode),
{
    let identity = type_identity(type_path);
    let mut path = root.to_owned();
    path.append("/");
    path.append(identity.as_str());
    if pluralize {
        path.append("s");
    }
    path.append(".");
    path.append(
        if encode {
            "jsondb"
        } else {
            "json"
        },
    );
    assert(path@ =~= entity_path(root@, unqualified(type_path@), pluralize, encode));
    path
}

/// Two files of one store are the same only if their types' names, with the
/// plural ending where it applies, are the same.
///
/// So the files of two types with different names never coincide, but for
/// one case: the collection of a type and the single record of the type whose
/// name is the first one's with an `s` added.
pub proof fn lemma_entity_paths_differ(
    root: Seq<char>,
    first: Seq<char>,
    first_plural: bool,
    second: Seq<char>,
    second_plural: bool,
    encode: bool,
)
    requires
        first != second,
        !(first_plural && !second_plural && first + "s"@ == second),
        !(!first_plural && second_plural && first == second + "s"@),
    ensures
        entity_path(root, first, first_plural, encode) != entity_path(
            root,
            second,
            second_plural,
            encode,
        ),
{
    let a = first + plural(first_plural);
    let b = second + plural(second_plural);
    let head = root + "/"@;
    let tail = "."@ + extension(encode);
    let p = entity_path(root, first, first_plural, encode);
    let q = entity_path(root, second, second_plural, encode);
    assert(p =~= head + a + tail);
    assert(q =~= head + b + tail);
    if p == q {
        assert(a.len() == b.len()) by {
            assert(p.len() == head.len() + a.len() + tail.len());
            assert(q.len() == head.len() + b.len() + tail.len());
        }
        assert(a =~= b) by {
            assert forall|i: int| 0 <= i < a.len() implies a[i] == b[i] by {
                assert(p[head.len() + i] == a[i]);
                assert(q[head.len() + i] == b[i]);
            }
        }
        if first_plural == second_plural {
            assert(first =~= a.subrange(0, first.len() as int));
            assert(second =~= b.subrange(0, second.len() as int));
            assert(first.len() == second.len());
        } else if first_plural {
            assert(b =~= second);
        } else {
            assert(a =~= first);
        }
    }
}

/// The files of a store that compresses and of one that does not are never
/// the same, whatever the types.
pub proof fn lemma_extension_separates(
    root: Seq<char>,
    first: Seq<char>,
    first_plural: bool,
    second: Seq<char>,
    second_plural: bool,
)
    ensures
        entity_path(root, first, first_plural, true) != entity_path(
            root,
            second,
            second_plural,
            false,
        ),
{
    reveal_strlit("jsondb");
    reveal_strlit("json");
    reveal_strlit(".");
    let p = entity_path(root, first, first_plural, true);
    let q = entity_path(root, second, second_plural, false);
    // The fifth character from the end is `.` in one and `s` in the other.
    assert(p[p.len() - 5] == 's');
    assert(q[q.len() - 5] == '.');
}

} // verus!
