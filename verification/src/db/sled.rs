//! Storage helpers over a `sled` database.
//!
//! What a database holds lives on disk and is shared by every handle to it,
//! so nothing here states what a read returns; the functions state which
//! calls they make and how they pass errors on.

use super::RepositoryError;
use std::sync::Arc;
use vstd::prelude::*;

verus! {

#[verifier::external_type_specification]
#[verifier::external_body]
pub struct ExSledDb(sled::Db);

#[verifier::external_type_specification]
#[verifier::external_body]
pub struct ExSledError(sled::Error);

/// Trusted: `sled::Tree::get`, the stored value as bytes. Nothing is stated
/// of the result: it depends on what the database holds.
#[verifier::external_body]
fn db_get(db: &Arc<sled::Db>, key: &String) -> (r: Result<Option<Vec<u8>>, sled::Error>) {
    match db.get(key.as_bytes()) {
        Ok(v) => Ok(v.map(|v| v.to_vec())),
        Err(e) => Err(e),
    }
}

/// Trusted: `sled::Tree::insert`; the previous value is dropped. Nothing is
/// stated of the result: it depends on the disk.
#[verifier::external_body]
fn db_insert(db: &Arc<sled::Db>, key: String, value: Vec<u8>) -> (r: Result<(), sled::Error>) {
    match db.insert(key, value) {
        Ok(_) => Ok(()),
        Err(e) => Err(e),
    }
}

/// Trusted: `sled::Tree::remove`; the removed value is dropped. Nothing is
/// stated of the result: it depends on the disk.
#[verifier::external_body]
fn db_remove(db: &Arc<sled::Db>, key: String) -> (r: Result<(), sled::Error>) {
    match db.remove(key) {
        Ok(_) => Ok(()),
        Err(e) => Err(e),
    }
}

/// `r` is an outcome the read of `key` in `db` can have.
pub closed spec fn read_returned(
    db: Arc<sled::Db>,
    key: String,
    r: Result<Option<Vec<u8>>, sled::Error>,
) -> bool {
    call_ensures(db_get, (&db, &key), r)
}

/// `r` is an outcome the write of `value` under `key` in `db` can have.
pub closed spec fn insert_returned(
    db: Arc<sled::Db>,
    key: String,
    value: Vec<u8>,
    r: Result<(), sled::Error>,
) -> bool {
    call_ensures(db_insert, (&db, key, value), r)
}

/// `r` is an outcome the removal of `key` from `db` can have.
pub closed spec fn remove_returned(db: &Arc<sled::Db>, key: &String, r: Result<(), sled::Error>) -> bool {
    call_ensures(db_remove, (db, *key), r)
}

/// Trusted: the `Display` text of a `sled::Error`. Nothing is stated of the
/// text.
#[verifier::external_body]
fn sled_error_text(e: &sled::Error) -> (s: String) {
    e.to_string()
}

/// What the read of a key decides for "set unless present".
#[derive(Debug)]
pub enum ReadOutcome<E> {
    /// The call ends with this result, without a write.
    Finished(Result<bool, E>),
    /// The key has no value: it is to be written.
    InsertNeeded,
}

/// What a read decides: a read error ends the call with that error, a
/// present value ends it with `Ok(false)` and no write, and an absent one
/// calls for the write.
pub open spec fn spec_read_outcome<E>(read: Result<Option<Vec<u8>>, E>) -> ReadOutcome<E> {
    match read {
        Err(e) => ReadOutcome::Finished(Err(e)),
        Ok(Some(_)) => ReadOutcome::Finished(Ok(false)),
        Ok(None) => ReadOutcome::InsertNeeded,
    }
}

/// What a write gives: `Ok(true)`, or the write error as it came.
pub open spec fn spec_after_insert<E>(insert: Result<(), E>) -> Result<bool, E> {
    match insert {
        Ok(()) => Ok(true),
        Err(e) => Err(e),
    }
}

/// The step after reading the key: a read error is returned as it came, a
/// present value ends the call with `Ok(false)` and no write, and an absent
/// one calls for the write.
pub fn after_existing_read<E>(read: Result<Option<Vec<u8>>, E>) -> (o: ReadOutcome<E>)
    ensures
        o == spec_read_outcome(read),
{
    match read {
        Err(e) => ReadOutcome::Finished(Err(e)),
        Ok(Some(_)) => ReadOutcome::Finished(Ok(false)),
        Ok(None) => ReadOutcome::InsertNeeded,
    }
}

/// The step after writing the key: a written value gives `Ok(true)`, a write
/// error is returned as it came.
pub fn after_insert<E>(insert: Result<(), E>) -> (r: Result<bool, E>)
    ensures
        r == spec_after_insert(insert),
{
    match insert {
        Ok(()) => Ok(true),
        Err(e) => Err(e),
    }
}

/// Sets `key` to `value` unless the database has a value for it; returns
/// whether it set it. The key is read first; [`after_existing_read`] decides
/// on the read and [`after_insert`] on the write of `value` under `key` that
/// it may call for. What the database holds is on disk, so the contract
/// states the result for whatever the read and the write gave.
pub fn set_if_not_exist(db: Arc<sled::Db>, key: String, value: Vec<u8>) -> (r: Result<
    bool,
    sled::Error,
>)
    ensures
        exists|rd: Result<Option<Vec<u8>>, sled::Error>|
            #[trigger] read_returned(db, key, rd) && match spec_read_outcome(rd) {
                ReadOutcome::Finished(x) => r == x,
                ReadOutcome::InsertNeeded => exists|w: Result<(), sled::Error>|
                    #[trigger] insert_returned(db, key, value, w) && r == spec_after_insert(w),
            },
{
    let ghost k = key;
    let ghost v = value;
    let rd = db_get(&db, &key);
    assert(read_returned(db, k, rd));
    match after_existing_read(rd) {
        ReadOutcome::Finished(r) => r,
        ReadOutcome::InsertNeeded => {
            let w = db_insert(&db, key, value);
            assert(insert_returned(db, k, v, w));
            after_insert(w)
        },
    }
}

/// Calls `remove` on each key, in order, and stops at the first error, which
/// is returned; `Ok` only after every call returned `Ok`.
pub fn remove_each<E, F: Fn(&String) -> Result<(), E>>(keys: &Vec<String>, remove: &F) -> (r: Result<
    (),
    E,
>)
    requires
        forall|k: &String| #[trigger] remove.requires((k,)),
    ensures
        r is Ok ==> forall|i: int|
            0 <= i < keys@.len() ==> #[trigger] remove.ensures((&keys@[i],), Ok::<(), E>(())),
        r is Err ==> exists|i: int|
            0 <= i < keys@.len() && #[trigger] remove.ensures((&keys@[i],), r) && forall|j: int|
                0 <= j < i ==> #[trigger] remove.ensures((&keys@[j],), Ok::<(), E>(())),
{
    let n = keys.len();
    let mut i: usize = 0;
    while i < n
        invariant
            keys@.len() == n,
            i <= n,
            forall|k: &String| #[trigger] remove.requires((k,)),
            forall|j: int| 0 <= j < i ==> #[trigger] remove.ensures((&keys@[j],), Ok::<(), E>(())),
        decreases n - i,
    {
        let ghost at = i as int;
        let key = &keys[i];
        assert(*key == keys@[at]);
        let res = remove(key);
        if res.is_err() {
            assert(remove.ensures((&keys@[at],), res));
            return res;
        }
        assert(res is Ok);
        assert(res->Ok_0 == ());
        assert(res == Ok::<(), E>(()));
        i = i + 1;
    }
    Ok(())
}

/// Removes the values of `keys` from `db`, in order, as [`remove_each`]
/// does: `Ok` only when the removal of every key gave `Ok`; otherwise the
/// error of the first removal that failed, every earlier one having given
/// `Ok`. With no keys it is `Ok`.
pub fn delete_all_by_key(db: Arc<sled::Db>, keys: Vec<String>) -> (r: Result<(), sled::Error>)
    ensures
        keys@.len() == 0 ==> r is Ok,
        r is Ok ==> forall|i: int|
            0 <= i < keys@.len() ==> #[trigger] remove_returned(&db, &keys@[i], Ok(())),
        r is Err ==> exists|i: int|
            0 <= i < keys@.len() && #[trigger] remove_returned(&db, &keys@[i], r) && forall|j: int|
                0 <= j < i ==> #[trigger] remove_returned(&db, &keys@[j], Ok(())),
{
    let remove = |key: &String| -> (r: Result<(), sled::Error>)
        ensures
            remove_returned(&db, key, r),
        {
            let k = key.clone();
            let r = db_remove(&db, k);
            assert(remove_returned(&db, key, r));
            r
        };
    let r = remove_each(&keys, &remove);
    proof {
        if r is Ok {
            assert forall|i: int| 0 <= i < keys@.len() implies #[trigger] remove_returned(
                &db,
                &keys@[i],
                Ok(()),
            ) by {
                assert(remove.ensures((&keys@[i],), Ok::<(), sled::Error>(())));
            }
        }
        if r is Err {
            let i = choose|i: int|
                0 <= i < keys@.len() && #[trigger] remove.ensures((&keys@[i],), r) && forall|j: int|
                    0 <= j < i ==> #[trigger] remove.ensures((&keys@[j],), Ok::<(), sled::Error>(()));
            assert(remove_returned(&db, &keys@[i], r));
            assert forall|j: int| 0 <= j < i implies #[trigger] remove_returned(
                &db,
                &keys@[j],
                Ok(()),
            ) by {
                assert(remove.ensures((&keys@[j],), Ok::<(), sled::Error>(())));
            }
        }
    }
    r
}

/// A `sled` error as a storage error, with the error's text.
pub fn storage_error(e: &sled::Error) -> (r: RepositoryError)
    ensures
        r is Storage,
{
    RepositoryError::Storage(sled_error_text(e))
}

} // verus!
