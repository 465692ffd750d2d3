//! A store that keeps the records of each type in a file of their own.
//!
//! The records of a type live as JSON text in two files under the root of the
//! store: one holds the single current record of the type, the other the
//! collection of its records, and both are replaced as a whole whenever they
//! change. A store may compress what it writes.
//!
//! Nothing here touches a file. Every operation is given what was read and
//! answers what to write, so that whoever drives a store reads, writes and
//! removes the files, and turns records into JSON text and back.

pub mod error;
pub mod guard;
pub mod json_io;
pub mod model;
pub mod path;

pub use crate::error::StoreError;
pub use crate::guard::get_lock;
pub use crate::json_io::FileRead;

use crate::json_io::{
    collection_of, collection_view, held, load_json, load_json_vec, loaded_view, save_json,
    saved_view, saves, serialized_view,
};
use crate::path::{entity_file, entity_path, unqualified};
use std::sync::{LockResult, Mutex, MutexGuard};
use vstd::prelude::*;

verus! {

/// The root of a store that was given none.
pub const DEFAULT_FILE_PATH: &'static str = "db";

/// A store of records under one directory.
#[derive(Debug)]
pub struct JsonDatabase {
    fs_mutex: Mutex<()>,
    transaction_mutex: Mutex<()>,
    path: String,
    encode: bool,
}

/// The path of the file to remove when a type's records are dropped: none
/// where there is no such file.
pub open spec fn drop_request(path: Seq<char>, exists: bool) -> Option<Seq<char>> {
    if exists {
        Some(path)
    } else {
        None
    }
}

/// The path that a drop asks to remove, as a sequence of characters.
pub open spec fn request_view(request: Option<String>) -> Option<Seq<char>> {
    match request {
        Some(path) => Some(path@),
        None => None,
    }
}

/// A loaded or merged collection, with its records as a sequence.
pub open spec fn collection_records<E>(collection: Result<Vec<E>, StoreError>) -> Result<
    Seq<E>,
    StoreError,
> {
    match collection {
        Ok(all) => Ok(all@),
        Err(e) => Err(e),
    }
}

/// What a push of `entities` makes of what was loaded: the loaded records
/// and then the entities, or the failure of the load.
pub open spec fn pushed_onto<E>(loaded: Result<Seq<E>, StoreError>, entities: Seq<E>) -> Result<
    Seq<E>,
    StoreError,
> {
    match loaded {
        Ok(all) => Ok(all + entities),
        Err(e) => Err(e),
    }
}

impl JsonDatabase {
    /// The directory under which the store keeps its files.
    pub closed spec fn root(&self) -> Seq<char> {
        self.path@
    }

    /// Whether the store compresses what it writes.
    pub closed spec fn compresses(&self) -> bool {
        self.encode
    }

    /// The lock under which the store's files are changed.
    pub closed spec fn files_lock(&self) -> Mutex<()> {
        self.fs_mutex
    }

    /// The lock under which the transactions of the store run.
    pub closed spec fn transactions_lock(&self) -> Mutex<()> {
        self.transaction_mutex
    }

    /// Where the store keeps the records of the type `type_path`: its
    /// collection if `pluralize`, else its single record.
    pub open spec fn file_of(&self, type_path: Seq<char>, pluralize: bool) -> Seq<char> {
        entity_path(self.root(), unqualified(type_path), pluralize, self.compresses())
    }

    /// A store under `path` that compresses what it writes.
    pub fn new_with_path(path: &str) -> (db: Self)
        ensures
            db.root() == path@,
            db.compresses(),
    {
        Self {
            path: path.to_owned(),
            fs_mutex: Mutex::new(()),
            transaction_mutex: Mutex::new(()),
            encode: true,
        }
    }

    /// Switches compression on or off for what the store reads and writes
    /// from now on.
    pub fn set_encode(&mut self, flag: bool)
        ensures
            final(self).compresses() == flag,
            final(self).root() == old(self).root(),
            final(self).files_lock() == old(self).files_lock(),
            final(self).transactions_lock() == old(self).transactions_lock(),
    {
        self.encode = flag;
    }

    /// The directory under which the store keeps its files.
    pub fn root_path(&self) -> (root: &str)
        ensures
            root@ == self.root(),
    {
        self.path.as_str()
    }

    /// Whether the store compresses what it writes.
    pub fn encodes(&self) -> (flag: bool)
        ensures
            flag == self.compresses(),
    {
        self.encode
    }

    /// The path of the file that holds the records of a type, named by the
    /// last segment of `type_path`.
    pub fn path_to_entity(&self, type_path: &str, pluralize: bool) -> (path: String)
        ensures
            path@ == self.file_of(type_path@, pluralize),
    {
        entity_file(self.path.as_str(), type_path, pluralize, self.encode)
    }

    /// The lock under which the store's files are changed. Whoever changes a
    /// file takes it before reading the file and holds its guard until the
    /// file is written.
    pub fn fs_mutex(&self) -> (lock: &Mutex<()>)
        ensures
            *lock == self.files_lock(),
    {
        &self.fs_mutex
    }

    /// The lock under which the transactions of the store run. Whoever runs
    /// one takes it first and hands what came of that to
    /// [`JsonDatabase::transaction`].
    pub fn transaction_mutex(&self) -> (lock: &Mutex<()>)
        ensures
            *lock == self.transactions_lock(),
    {
        &self.transaction_mutex
    }

    /// Runs `func` under the guard in `locked`, which is what came of taking
    /// the store's transaction lock, poisoned or not, and lets the lock go
    /// once `func` is done.
    ///
    /// A transaction keeps other transactions out, and nothing else: changes
    /// made outside of one go on meanwhile.
    pub fn transaction<F: FnOnce()>(&self, locked: LockResult<MutexGuard<'_, ()>>, func: F)
        requires
            func.requires(()),
        ensures
            func.ensures((), ()),
    {
        let _guard = get_lock(locked);
        func();
    }

    /// What to remove so that nothing is stored for a type any more: the
    /// file, if it `exists`, and nothing otherwise.
    pub fn drop(&self, type_path: &str, pluralize: bool, exists: bool) -> (request: Option<String>)
        ensures
            request_view(request) == drop_request(self.file_of(type_path@, pluralize), exists),
    {
        if exists {
            Some(self.path_to_entity(type_path, pluralize))
        } else {
            None
        }
    }

    /// The JSON text of the single record of a type, from what was read of
    /// its file: none where nothing is stored.
    pub fn get_one(&self, file: FileRead) -> (outcome: Result<Option<String>, StoreError>)
        ensures
            loaded_view(outcome) == held(file@, self.compresses()),
    {
        load_json(file, self.encode)
    }

    /// The JSON text of the collection of a type, from what was read of its
    /// file: the empty collection where nothing is stored.
    pub fn get_all(&self, file: FileRead) -> (outcome: Result<String, StoreError>)
        ensures
            collection_view(outcome) == collection_of(held(file@, self.compresses())),
    {
        load_json_vec(file, self.encode)
    }

    /// The content to write so that the file holds exactly what was
    /// serialized: a record for the file of the single record, a collection
    /// for the file of the collection.
    pub fn save(&self, json: Result<String, serde_json::Error>) -> (outcome: Result<
        Vec<u8>,
        StoreError,
    >)
        ensures
            saves(serialized_view(json), self.compresses(), saved_view(outcome)),
    {
        save_json(json, self.encode)
    }

    /// The collection to store once `entity` is pushed: what was loaded, with
    /// `entity` added at its end. Where the load failed nothing is to be
    /// stored, and the push fails as the load did.
    pub fn push<E>(loaded: Result<Vec<E>, StoreError>, entity: E) -> (merged: Result<
        Vec<E>,
        StoreError,
    >)
        ensures
            collection_records(merged) == pushed_onto(collection_records(loaded), seq![entity]),
    {
        match loaded {
            Ok(all) => {
                let mut merged = all;
                merged.push(entity);
                assert(merged@ =~= all@ + seq![entity]);
                Ok(merged)
            },
            Err(e) => Err(e),
        }
    }

    /// The collection to store once `entities` are pushed: what was loaded,
    /// with `entities` added at its end, in their order. Where the load
    /// failed nothing is to be stored, and the push fails as the load did.
    pub fn push_batch<E>(loaded: Result<Vec<E>, StoreError>, entities: Vec<E>) -> (merged: Result<
        Vec<E>,
        StoreError,
    >)
        ensures
            collection_records(merged) == pushed_onto(collection_records(loaded), entities@),
    {
        match loaded {
            Ok(all) => {
                let mut merged = all;
                let mut entities = entities;
                merged.append(&mut entities);
                Ok(merged)
            },
            Err(e) => Err(e),
        }
    }
}

impl Default for JsonDatabase {
    /// A store under [`DEFAULT_FILE_PATH`] that compresses what it writes.
    fn default() -> (db: Self)
        ensures
            db.root() == DEFAULT_FILE_PATH@,
            db.compresses(),
    {
        Self::new_with_path(DEFAULT_FILE_PATH)
    }
}

} // verus!
