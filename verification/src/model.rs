//! The files of a store as a map from path to content, and what the
//! operations of a store promise over it.
//!
//! Whoever drives a store reads a file, hands what it read to the store, and
//! writes or removes what the store answers. The functions here say what
//! that does to the files, and the lemmas what a later read then finds.

use crate::drop_request;
use crate::error::StoreError;
use crate::json_io::{
    collection_of, empty_collection, held, lemma_frames_are_not_text, saves, zstd_content,
    FileContent,
};
use crate::path::{entity_path, lemma_entity_paths_differ};
use vstd::prelude::*;
use vstd::utf8::*;

verus! {

broadcast use vstd::utf8::group_utf8_lib;

/// The files under the root of a store: the content of each, by its path.
pub type Disk = Map<Seq<char>, Seq<u8>>;

/// What reading the file at `path` yields, on a disk that can be read.
pub open spec fn read_file(disk: Disk, path: Seq<char>) -> FileContent {
    if disk.dom().contains(path) {
        FileContent::Found(disk[path])
    } else {
        FileContent::Missing
    }
}

/// The files once `content` has replaced whatever the file at `path` held.
pub open spec fn write_file(disk: Disk, path: Seq<char>, content: Seq<u8>) -> Disk {
    disk.insert(path, content)
}

/// The files once the file at `path` is gone.
pub open spec fn remove_file(disk: Disk, path: Seq<char>) -> Disk {
    disk.remove(path)
}

/// The files once the outcome of a save has been carried out: the content is
/// written where there is one, and nothing is touched where the save failed.
pub open spec fn after_save(
    disk: Disk,
    path: Seq<char>,
    outcome: Result<Seq<u8>, StoreError>,
) -> Disk {
    match outcome {
        Ok(content) => write_file(disk, path, content),
        Err(_) => disk,
    }
}

/// The files once the records at `path` have been dropped: the store is told
/// whether the file exists, and what it asks to remove is removed.
pub open spec fn after_drop(disk: Disk, path: Seq<char>) -> Disk {
    match drop_request(path, disk.dom().contains(path)) {
        Some(file) => remove_file(disk, file),
        None => disk,
    }
}

/// Content that text was saved as holds that text.
///
/// The text of a record, or of a collection, is never empty.
pub proof fn lemma_saved_content_holds_text(json: Seq<char>, encode: bool, content: Seq<u8>)
    requires
        json.len() > 0,
        saves(Some(json), encode, Ok(content)),
    ensures
        held(FileContent::Found(content), encode) == Ok::<Option<Seq<char>>, StoreError>(
            Some(json),
        ),
{
    let plain = encode_utf8(json);
    assert(plain.len() > 0) by {
        if plain.len() == 0 {
            assert(decode_utf8(plain) =~= Seq::<char>::empty());
        }
    }
}

/// A record that is saved and then loaded comes back as it was, with
/// compression and without.
pub proof fn lemma_saved_is_loaded(
    disk: Disk,
    path: Seq<char>,
    encode: bool,
    json: Seq<char>,
    saved: Result<Seq<u8>, StoreError>,
)
    requires
        json.len() > 0,
        saves(Some(json), encode, saved),
        saved is Ok,
    ensures
        held(read_file(after_save(disk, path, saved), path), encode) == Ok::<
            Option<Seq<char>>,
            StoreError,
        >(Some(json)),
{
    lemma_saved_content_holds_text(json, encode, saved->Ok_0);
}

/// A collection that is saved and then loaded comes back as it was.
pub proof fn lemma_saved_collection_is_loaded(
    disk: Disk,
    path: Seq<char>,
    encode: bool,
    json: Seq<char>,
    saved: Result<Seq<u8>, StoreError>,
)
    requires
        json.len() > 0,
        saves(Some(json), encode, saved),
        saved is Ok,
    ensures
        collection_of(held(read_file(after_save(disk, path, saved), path), encode)) == Ok::<
            Seq<char>,
            StoreError,
        >(json),
{
    lemma_saved_content_holds_text(json, encode, saved->Ok_0);
}

/// After a drop nothing is stored: the single record loads as none and the
/// collection as empty. The same holds of a file that is there but holds no
/// bytes.
pub proof fn lemma_dropped_is_empty(disk: Disk, path: Seq<char>, encode: bool)
    ensures
        ({
            let gone = read_file(after_drop(disk, path), path);
            let blank = read_file(write_file(disk, path, Seq::<u8>::empty()), path);
            &&& held(gone, encode) == Ok::<Option<Seq<char>>, StoreError>(None)
            &&& held(blank, encode) == Ok::<Option<Seq<char>>, StoreError>(None)
            &&& collection_of(held(gone, encode)) == Ok::<Seq<char>, StoreError>(
                empty_collection(),
            )
            &&& collection_of(held(blank, encode)) == Ok::<Seq<char>, StoreError>(
                empty_collection(),
            )
        }),
{
}

/// A second drop finds nothing to remove, so it has nothing to fail on, and
/// leaves the files as the first drop left them.
pub proof fn lemma_drop_twice(disk: Disk, path: Seq<char>)
    ensures
        drop_request(path, after_drop(disk, path).dom().contains(path)) is None,
        after_drop(after_drop(disk, path), path) == after_drop(disk, path),
{
}

/// What is written or dropped for one type leaves the files of every type
/// with another name as they were.
///
/// One pair of names is left out, because there the two files are one: the
/// collection of a type is the single record of the type whose name is the
/// first one's with an `s` added.
pub proof fn lemma_other_type_untouched(
    disk: Disk,
    root: Seq<char>,
    encode: bool,
    changed: Seq<char>,
    changed_plural: bool,
    saved: Result<Seq<u8>, StoreError>,
    other: Seq<char>,
    other_plural: bool,
)
    requires
        changed != other,
        !(changed_plural && !other_plural && changed + "s"@ == other),
        !(!changed_plural && other_plural && changed == other + "s"@),
    ensures
        ({
            let target = entity_path(root, changed, changed_plural, encode);
            let kept = entity_path(root, other, other_plural, encode);
            &&& read_file(after_save(disk, target, saved), kept) == read_file(disk, kept)
            &&& read_file(after_drop(disk, target), kept) == read_file(disk, kept)
        }),
{
    lemma_entity_paths_differ(root, changed, changed_plural, other, other_plural, encode);
}

/// A store that compresses and one that does not hold the same text once the
/// same text was saved to both, in files that are not the same and with
/// content that is not the same: the one holds the bytes of the text, the
/// other frames that were made from them.
pub proof fn lemma_compression_keeps_content(
    root: Seq<char>,
    identity: Seq<char>,
    pluralize: bool,
    json: Seq<char>,
    plain: Seq<u8>,
    compressed: Seq<u8>,
)
    requires
        json.len() > 0,
        saves(Some(json), false, Ok(plain)),
        saves(Some(json), true, Ok(compressed)),
    ensures
        held(FileContent::Found(plain), false) == held(FileContent::Found(compressed), true),
        held(FileContent::Found(plain), false) == Ok::<Option<Seq<char>>, StoreError>(
            Some(json),
        ),
        zstd_content(compressed) == Some(plain),
        compressed != plain,
        entity_path(root, identity, pluralize, false) != entity_path(
            root,
            identity,
            pluralize,
            true,
        ),
{
    lemma_saved_content_holds_text(json, false, plain);
    lemma_saved_content_holds_text(json, true, compressed);
    lemma_frames_are_not_text(compressed, json);
    crate::path::lemma_extension_separates(root, identity, pluralize, identity, pluralize);
}

/// Whether `write` and `read` are the two directions of one serializer:
/// every collection is written as text that is read back as that collection,
/// and the text of the empty collection is read as the empty collection.
pub open spec fn faithful<E>(
    write: spec_fn(Seq<E>) -> Seq<char>,
    read: spec_fn(Seq<char>) -> Option<Seq<E>>,
) -> bool {
    &&& read(empty_collection()) == Some(Seq::<E>::empty())
    &&& forall|all: Seq<E>| #[trigger] write(all).len() > 0
    &&& forall|all: Seq<E>| read(#[trigger] write(all)) == Some(all)
}

/// The records of the collection in the file at `path`: none where the file
/// does not hold the text of a collection.
pub open spec fn records_at<E>(
    disk: Disk,
    path: Seq<char>,
    encode: bool,
    read: spec_fn(Seq<char>) -> Option<Seq<E>>,
) -> Option<Seq<E>> {
    match collection_of(held(read_file(disk, path), encode)) {
        Ok(text) => read(text),
        Err(_) => None,
    }
}

/// Whether `after` are the files that a push of `entities` onto the
/// collection at `path` leaves when every step of it goes through and the
/// save comes out as `content`: the collection is loaded and read, the
/// entities are added at its end, and the whole is written and saved over
/// the file.
pub open spec fn pushed_as<E>(
    before: Disk,
    path: Seq<char>,
    encode: bool,
    write: spec_fn(Seq<E>) -> Seq<char>,
    read: spec_fn(Seq<char>) -> Option<Seq<E>>,
    entities: Seq<E>,
    content: Seq<u8>,
    after: Disk,
) -> bool {
    &&& records_at(before, path, encode, read) matches Some(all)
    &&& saves(Some(write(all + entities)), encode, Ok(content))
    &&& after == write_file(before, path, content)
}

/// Whether `after` are the files that a push of `entities` onto the
/// collection at `path` leaves when every step of it goes through.
pub open spec fn pushed<E>(
    before: Disk,
    path: Seq<char>,
    encode: bool,
    write: spec_fn(Seq<E>) -> Seq<char>,
    read: spec_fn(Seq<char>) -> Option<Seq<E>>,
    entities: Seq<E>,
    after: Disk,
) -> bool {
    exists|content: Seq<u8>|
        pushed_as(before, path, encode, write, read, entities, content, after)
}

/// Whether `after` are the files that pushing each of `entities` in turn,
/// one push for each, leaves when every push goes through.
pub open spec fn pushed_each<E>(
    before: Disk,
    path: Seq<char>,
    encode: bool,
    write: spec_fn(Seq<E>) -> Seq<char>,
    read: spec_fn(Seq<char>) -> Option<Seq<E>>,
    entities: Seq<E>,
    after: Disk,
) -> bool
    decreases entities.len(),
{
    if entities.len() == 0 {
        after == before
    } else {
        exists|between: Disk|
            {
                &&& #[trigger] pushed(before, path, encode, write, read, seq![entities[0]], between)
                &&& pushed_each(between, path, encode, write, read, entities.drop_first(), after)
            }
    }
}

/// A push adds its records at the end of the collection, in their order, and
/// keeps what was there.
pub proof fn lemma_push_appends<E>(
    before: Disk,
    path: Seq<char>,
    encode: bool,
    write: spec_fn(Seq<E>) -> Seq<char>,
    read: spec_fn(Seq<char>) -> Option<Seq<E>>,
    entities: Seq<E>,
    after: Disk,
)
    requires
        faithful(write, read),
        pushed(before, path, encode, write, read, entities, after),
    ensures
        records_at(before, path, encode, read) is Some,
        records_at(after, path, encode, read) == Some(
            records_at(before, path, encode, read)->Some_0 + entities,
        ),
{
    let all = records_at(before, path, encode, read)->Some_0;
    let content = choose|content: Seq<u8>|
        pushed_as(before, path, encode, write, read, entities, content, after);
    lemma_saved_content_holds_text(write(all + entities), encode, content);
}

/// Records pushed one by one are stored in the order of the pushes, after
/// what was stored before, and so is a batch pushed at once: both ways leave
/// the same collection.
pub proof fn lemma_push_order<E>(
    before: Disk,
    path: Seq<char>,
    encode: bool,
    write: spec_fn(Seq<E>) -> Seq<char>,
    read: spec_fn(Seq<char>) -> Option<Seq<E>>,
    entities: Seq<E>,
    one_by_one: Disk,
    at_once: Disk,
)
    requires
        faithful(write, read),
        records_at(before, path, encode, read) is Some,
        pushed_each(before, path, encode, write, read, entities, one_by_one),
        pushed(before, path, encode, write, read, entities, at_once),
    ensures
        records_at(one_by_one, path, encode, read) == Some(
            records_at(before, path, encode, read)->Some_0 + entities,
        ),
        records_at(at_once, path, encode, read) == records_at(one_by_one, path, encode, read),
{
    lemma_push_appends(before, path, encode, write, read, entities, at_once);
    lemma_push_each_appends(before, path, encode, write, read, entities, one_by_one);
}

/// Records pushed one by one are stored in the order of the pushes, after
/// what was stored before.
pub proof fn lemma_push_each_appends<E>(
    before: Disk,
    path: Seq<char>,
    encode: bool,
    write: spec_fn(Seq<E>) -> Seq<char>,
    read: spec_fn(Seq<char>) -> Option<Seq<E>>,
    entities: Seq<E>,
    after: Disk,
)
    requires
        faithful(write, read),
        records_at(before, path, encode, read) is Some,
        pushed_each(before, path, encode, write, read, entities, after),
    ensures
        records_at(after, path, encode, read) == Some(
            records_at(before, path, encode, read)->Some_0 + entities,
        ),
    decreases entities.len(),
{
    let all = records_at(before, path, encode, read)->Some_0;
    if entities.len() == 0 {
        assert(all + entities =~= all);
    } else {
        let between = choose|between: Disk|
            {
                &&& #[trigger] pushed(before, path, encode, write, read, seq![entities[0]], between)
                &&& pushed_each(between, path, encode, write, read, entities.drop_first(), after)
            };
        lemma_push_appends(before, path, encode, write, read, seq![entities[0]], between);
        lemma_push_each_appends(
            between,
            path,
            encode,
            write,
            read,
            entities.drop_first(),
            after,
        );
        assert(all + seq![entities[0]] + entities.drop_first() =~= all + entities);
    }
}

/// Pushes that go through one after another, in whatever order they come,
/// lose no record: the collection then holds what it held before and every
/// pushed record once more.
pub proof fn lemma_pushes_in_any_order_keep_all<E>(
    before: Disk,
    path: Seq<char>,
    encode: bool,
    write: spec_fn(Seq<E>) -> Seq<char>,
    read: spec_fn(Seq<char>) -> Option<Seq<E>>,
    entities: Seq<E>,
    order: Seq<E>,
    after: Disk,
)
    requires
        faithful(write, read),
        records_at(before, path, encode, read) is Some,
        order.to_multiset() == entities.to_multiset(),
        pushed_each(before, path, encode, write, read, order, after),
    ensures
        records_at(after, path, encode, read) is Some,
        records_at(after, path, encode, read)->Some_0.to_multiset() == records_at(
            before,
            path,
            encode,
            read,
        )->Some_0.to_multiset().add(entities.to_multiset()),
{
    lemma_push_each_appends(before, path, encode, write, read, order, after);
    let all = records_at(before, path, encode, read)->Some_0;
    vstd::seq_lib::lemma_multiset_commutative(all, order);
}

} // verus!
