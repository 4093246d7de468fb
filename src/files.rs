use vstd::prelude::*;

use crate::clock::{now_timestamp, CLOCK_LIMIT};
use crate::error::StorageError;
use crate::storage::{FileMetadata, StorageService};
use crate::text::{owned, str_equal};

verus! {

/// The metadata record of a stored blob, as kept in the relational store.
#[derive(Debug, Clone)]
pub struct File {
    pub id: Option<String>,
    pub user_id: i64,
    pub original_name: String,
    pub stored_name: String,
    pub size: i64,
    pub mime_type: Option<String>,
    pub storage_path: String,
    pub created_at: i64,
}

impl File {
    /// A new metadata record, created now.
    pub fn new(
        id: String,
        user_id: i64,
        original_name: String,
        stored_name: String,
        size: i64,
        mime_type: Option<String>,
        storage_path: String,
    ) -> (r: File)
        ensures
            r.id == Some(id),
            r.user_id == user_id,
            r.original_name == original_name,
            r.stored_name == stored_name,
            r.size == size,
            r.mime_type == mime_type,
            r.storage_path == storage_path,
            0 <= r.created_at < CLOCK_LIMIT,
    {
        File {
            id: Some(id),
            user_id,
            original_name,
            stored_name,
            size,
            mime_type,
            storage_path,
            created_at: now_timestamp(),
        }
    }
}

/// What the authorization gate of retrieval and deletion decides.
pub enum Access {
    /// The store failed with this message.
    StoreFailed(String),
    /// No record with the id exists.
    Missing,
    /// The record belongs to another user.
    Denied,
    /// The record, which the requester owns.
    Granted(File),
}

/// The access that `user_id` has to the file `file_id`, by what the store
/// returned for that id.
pub open spec fn gate(file_id: Seq<char>, user_id: i64, found: Result<Option<File>, String>) -> Access {
    match found {
        Err(m) => Access::StoreFailed(m),
        Ok(None) => Access::Missing,
        Ok(Some(f)) => if f.id is None || f.id->0@ != file_id {
            Access::Missing
        } else if f.user_id != user_id {
            Access::Denied
        } else {
            Access::Granted(f)
        },
    }
}

/// Whether `r` is the result that the decision `g` calls for, where `ok` relates
/// a granted record to the value handed back.
pub open spec fn gate_agrees<T>(r: Result<T, StorageError>, g: Access, ok: spec_fn(File, T) -> bool) -> bool {
    match g {
        Access::StoreFailed(m) => r == Err::<T, StorageError>(StorageError::StorageError(m)),
        Access::Missing => r matches Err(StorageError::FileNotFound(_)),
        Access::Denied => r matches Err(StorageError::Forbidden(_)),
        Access::Granted(f) => r matches Ok(v) && ok(f, v),
    }
}

/// Whether a record belongs to `user_id`.
pub open spec fn owned_by(user_id: i64) -> spec_fn(File) -> bool {
    |f: File| f.user_id == user_id
}

/// Whether records are ordered newest first.
pub open spec fn newest_first(s: Seq<File>) -> bool {
    forall|i: int, j: int| 0 <= i < j < s.len() ==> s[i].created_at >= s[j].created_at
}

/// The sum of the sizes of the records.
pub open spec fn total_size(s: Seq<File>) -> int
    decreases s.len(),
{
    if s.len() == 0 {
        0
    } else {
        total_size(s.drop_last()) + s.last().size
    }
}

proof fn lemma_filter_step(s: Seq<File>, k: int, pred: spec_fn(File) -> bool)
    requires
        0 <= k < s.len(),
    ensures
        s.subrange(0, k + 1).filter(pred) == if pred(s[k]) {
            s.subrange(0, k).filter(pred).push(s[k])
        } else {
            s.subrange(0, k).filter(pred)
        },
{
    reveal(Seq::filter);
    assert(s.subrange(0, k + 1).drop_last() =~= s.subrange(0, k));
}

proof fn lemma_insert_to_multiset(s: Seq<File>, i: int, x: File)
    requires
        0 <= i <= s.len(),
    ensures
        s.insert(i, x).to_multiset() =~= s.to_multiset().insert(x),
{
    broadcast use vstd::seq_lib::group_to_multiset_ensures;

    let t = s.insert(i, x);
    assert(t.remove(i) =~= s);
    assert(t[i] == x);
    assert(t.contains(x));
    assert(t.to_multiset().count(x) > 0);
}

/// The transactional object service: keeps each blob and its metadata record in
/// step. Blobs are written before their record is inserted and removed after
/// their record is deleted, so a failure leaves at worst an unreferenced blob.
pub struct TransactionalStorageService {
    storage: StorageService,
}

/// Per-user totals over the metadata records.
#[derive(Debug, Clone, Copy, PartialEq, Eq, Structural)]
pub struct UserStorageStats {
    pub file_count: i64,
    pub total_size: i64,
}

impl Default for UserStorageStats {
    fn default() -> (r: UserStorageStats)
        ensures
            r.file_count == 0,
            r.total_size == 0,
    {
        UserStorageStats { file_count: 0, total_size: 0 }
    }
}

impl TransactionalStorageService {
    /// The base directory of the blob store.
    pub closed spec fn base(self) -> Seq<char> {
        self.storage.base()
    }

    /// A service over the given blob store.
    pub fn new(storage: StorageService) -> (r: TransactionalStorageService)
        ensures
            r.base() == storage.base(),
    {
        TransactionalStorageService { storage }
    }

    /// The blob store.
    pub fn storage(&self) -> (r: &StorageService)
        ensures
            r.base() == self.base(),
    {
        &self.storage
    }

    /// What the metadata step of a store yields, given the blob that
    /// `StorageService::store` placed and the outcome of writing it: the record
    /// to insert, or the write's failure together with the stored name of the
    /// partly written blob to remove.
    pub open spec fn record_agrees(
        self,
        meta: FileMetadata,
        written: Result<(), String>,
        user_id: i64,
        r: (Result<File, StorageError>, Option<String>),
    ) -> bool {
        match written {
            Err(m) => r.0 == Err::<File, StorageError>(StorageError::IoError(m)) && r.1 == Some(
                meta.stored_name,
            ),
            Ok(()) => r.1 is None && (r.0 matches Ok(f) && f.id == Some(meta.id) && f.user_id
                == user_id && f.original_name == meta.original_name && f.stored_name
                == meta.stored_name && f.size == meta.size && f.mime_type == meta.mime_type
                && f.storage_path@ == self.base() && f.created_at == meta.created_at),
        }
    }

    /// Second step of a store. `written` is the outcome of writing and flushing
    /// the blob that `StorageService::store` placed as `meta`. A written blob
    /// gives the record to insert. A failed write ends the store: no record is
    /// inserted, and whatever part of the blob reached the disk is named for
    /// removal, so that nothing is left behind.
    pub fn store_with_metadata(&self, meta: FileMetadata, written: Result<(), String>, user_id: i64) -> (r: (
        Result<File, StorageError>,
        Option<String>,
    ))
        requires
            meta.size <= i64::MAX,
        ensures
            self.record_agrees(meta, written, user_id, r),
    {
        match written {
            Err(m) => (Err(StorageError::IoError(m)), Some(meta.stored_name)),
            Ok(()) => (
                Ok(
                    File {
                        id: Some(meta.id),
                        user_id,
                        original_name: meta.original_name,
                        stored_name: meta.stored_name,
                        size: meta.size as i64,
                        mime_type: meta.mime_type,
                        storage_path: owned(self.storage.base_path()),
                        created_at: meta.created_at,
                    },
                ),
                None,
            ),
        }
    }

    /// What the last step of a store yields: the result, and the stored name of a
    /// blob to remove.
    pub open spec fn completion_agrees(
        record: File,
        inserted: Result<(), String>,
        r: (Result<File, StorageError>, Option<String>),
    ) -> bool {
        match inserted {
            Ok(()) => r.0 == Ok::<File, StorageError>(record) && r.1 is None,
            Err(m) => r.0 == Err::<File, StorageError>(StorageError::StorageError(m)) && r.1 == Some(
                record.stored_name,
            ),
        }
    }

    /// Last step of a store. `inserted` is the outcome of inserting `record`. On
    /// failure the blob that was written is named for removal, so that no
    /// unreferenced blob remains, and the failure is reported.
    pub fn complete_store(record: File, inserted: Result<(), String>) -> (r: (
        Result<File, StorageError>,
        Option<String>,
    ))
        ensures
            Self::completion_agrees(record, inserted, r),
    {
        match inserted {
            Ok(()) => (Ok(record), None),
            Err(m) => (Err(StorageError::StorageError(m)), Some(record.stored_name)),
        }
    }

    /// The authorization gate: the record of `file_id` when `user_id` owns it.
    fn owned_record(file_id: &str, user_id: i64, found: Result<Option<File>, String>) -> (r: Result<
        File,
        StorageError,
    >)
        ensures
            gate_agrees(r, gate(file_id@, user_id, found), |f: File, v: File| v == f),
    {
        match found {
            Err(m) => Err(StorageError::StorageError(m)),
            Ok(None) => Err(StorageError::FileNotFound(owned(file_id))),
            Ok(Some(f)) => {
                let same = match &f.id {
                    Some(id) => str_equal(id.as_str(), file_id),
                    None => false,
                };
                if !same {
                    Err(StorageError::FileNotFound(owned(file_id)))
                } else if f.user_id != user_id {
                    Err(StorageError::Forbidden(owned(file_id)))
                } else {
                    Ok(f)
                }
            },
        }
    }

    /// Retrieval: `found` is what the store returned for `file_id`. The owner
    /// gets the stored name of the blob to read; anyone else is refused before
    /// any filesystem access.
    pub fn retrieve_with_permission(
        &self,
        file_id: &str,
        user_id: i64,
        found: Result<Option<File>, String>,
    ) -> (r: Result<String, StorageError>)
        ensures
            gate_agrees(r, gate(file_id@, user_id, found), |f: File, v: String| v == f.stored_name),
    {
        let f = Self::owned_record(file_id, user_id, found)?;
        Ok(f.stored_name)
    }

    /// First step of a delete: `found` is what the store returned for `file_id`.
    /// The owner gets the record whose row is to be deleted; anyone else is
    /// refused before any change.
    pub fn delete_with_metadata(
        &self,
        file_id: &str,
        user_id: i64,
        found: Result<Option<File>, String>,
    ) -> (r: Result<File, StorageError>)
        ensures
            gate_agrees(r, gate(file_id@, user_id, found), |f: File, v: File| v == f),
    {
        Self::owned_record(file_id, user_id, found)
    }

    /// What the last step of a delete yields: the result, and the stored name of
    /// a blob to remove.
    pub open spec fn deletion_agrees(
        record: File,
        deleted: Result<u64, String>,
        r: (Result<(), StorageError>, Option<String>),
    ) -> bool {
        match deleted {
            Ok(_) => r.0 is Ok && r.1 == Some(record.stored_name),
            Err(m) => r.0 == Err::<(), StorageError>(StorageError::StorageError(m)) && r.1 is None,
        }
    }

    /// Last step of a delete: `deleted` is the outcome of deleting the record's
    /// row. Only once the row is gone is the blob named for removal; a failure
    /// to remove it afterwards leaves an unreachable blob and is not reported.
    pub fn complete_delete(record: File, deleted: Result<u64, String>) -> (r: (
        Result<(), StorageError>,
        Option<String>,
    ))
        ensures
            Self::deletion_agrees(record, deleted, r),
    {
        match deleted {
            Ok(_) => (Ok(()), Some(record.stored_name)),
            Err(m) => (Err(StorageError::StorageError(m)), None),
        }
    }

    /// Whether `file_id` exists and belongs to `user_id`, given what the store
    /// returned for it.
    pub fn file_exists_for_user(
        &self,
        file_id: &str,
        user_id: i64,
        found: Result<Option<File>, String>,
    ) -> (r: Result<bool, StorageError>)
        ensures
            match gate(file_id@, user_id, found) {
                Access::StoreFailed(m) => r == Err::<bool, StorageError>(StorageError::StorageError(m)),
                Access::Granted(_) => r == Ok::<bool, StorageError>(true),
                _ => r == Ok::<bool, StorageError>(false),
            },
    {
        match Self::owned_record(file_id, user_id, found) {
            Ok(_) => Ok(true),
            Err(StorageError::StorageError(m)) => Err(StorageError::StorageError(m)),
            Err(_) => Ok(false),
        }
    }
    /// The files of `user_id` among the rows the store returned, newest first.
    pub fn list_user_files(&self, user_id: i64, rows: Vec<File>) -> (r: Vec<File>)
        ensures
            newest_first(r@),
            r@.to_multiset() == rows@.filter(owned_by(user_id)).to_multiset(),
    {
        let ghost all = rows@;
        let mut rest = rows;
        let mut out: Vec<File> = Vec::new();
        proof {
            broadcast use vstd::seq_lib::group_to_multiset_ensures;
            assert(all.subrange(0, all.len() as int) =~= all);
            assert(out@.to_multiset().len() == 0);
            vstd::multiset::lemma_multiset_empty_len(out@.to_multiset());
            assert(out@.to_multiset().add(rest@.filter(owned_by(user_id)).to_multiset())
                =~= rest@.filter(owned_by(user_id)).to_multiset());
        }
        while rest.len() > 0
            invariant
                rest@ == all.subrange(0, rest@.len() as int),
                rest@.len() <= all.len(),
                newest_first(out@),
                out@.to_multiset().add(rest@.filter(owned_by(user_id)).to_multiset())
                    == all.filter(owned_by(user_id)).to_multiset(),
            decreases rest@.len(),
        {
            let ghost k = (rest@.len() - 1) as int;
            let x = rest.pop().unwrap();
            proof {
                lemma_filter_step(all, k, owned_by(user_id));
                assert(rest@ =~= all.subrange(0, k));
                vstd::seq_lib::to_multiset_build(rest@.filter(owned_by(user_id)), x);
            }
            if x.user_id == user_id {
                let mut j: usize = 0;
                while j < out.len() && out[j].created_at >= x.created_at
                    invariant
                        j <= out@.len(),
                        forall|i: int| 0 <= i < j ==> out@[i].created_at >= x.created_at,
                    decreases out@.len() - j,
                {
                    j = j + 1;
                }
                proof {
                    lemma_insert_to_multiset(out@, j as int, x);
                }
                let ghost before = out@;
                out.insert(j, x);
                proof {
                    assert forall|a: int, b: int| 0 <= a < b < out@.len() implies out@[a].created_at
                        >= out@[b].created_at by {
                        if b < j {
                            assert(out@[a] == before[a] && out@[b] == before[b]);
                        } else if b == j {
                            assert(out@[a] == before[a]);
                        } else if a == j {
                            assert(out@[b] == before[b - 1]);
                            assert(before[j as int].created_at < x.created_at);
                        } else if a < j {
                            assert(out@[a] == before[a] && out@[b] == before[b - 1]);
                        } else {
                            assert(out@[a] == before[a - 1] && out@[b] == before[b - 1]);
                        }
                    }
                    assert(out@.to_multiset().add(rest@.filter(owned_by(user_id)).to_multiset())
                        =~= before.to_multiset().add(
                        rest@.filter(owned_by(user_id)).push(x).to_multiset(),
                    ));
                }
            }
        }
        proof {
            assert(rest@ =~= Seq::<File>::empty());
            reveal(Seq::filter);
            assert(out@.to_multiset() =~= out@.to_multiset().add(rest@.filter(owned_by(user_id)).to_multiset()));
        }
        out
    }

    /// The number of files of `user_id` and the sum of their sizes, over the
    /// rows the store returned; an error when the sum does not fit in `i64`.
    pub fn get_user_storage_stats(&self, user_id: i64, rows: &Vec<File>) -> (r: Result<
        UserStorageStats,
        StorageError,
    >)
        ensures
            ({
                let mine = rows@.filter(owned_by(user_id));
                &&& r matches Ok(st) ==> st.file_count == mine.len() && st.total_size == total_size(mine)
                &&& r is Ok <==> (i64::MIN <= total_size(mine) <= i64::MAX && mine.len() <= i64::MAX)
            }),
    {
        let mut count: i128 = 0;
        let mut total: i128 = 0;
        let mut k: usize = 0;
        let ghost p = owned_by(user_id);
        proof {
            reveal(Seq::filter);
            assert(rows@.subrange(0, 0) =~= Seq::<File>::empty());
        }
        while k < rows.len()
            invariant
                k <= rows@.len(),
                count == rows@.subrange(0, k as int).filter(p).len(),
                count <= k,
                total == total_size(rows@.subrange(0, k as int).filter(p)),
                -(k as int) * 0x8000_0000_0000_0000 <= total <= (k as int) * 0x8000_0000_0000_0000,
                p == owned_by(user_id),
            decreases rows@.len() - k,
        {
            let f = &rows[k];
            proof {
                lemma_filter_step(rows@, k as int, p);
            }
            if f.user_id == user_id {
                proof {
                    let s = rows@.subrange(0, k as int).filter(p).push(rows@[k as int]);
                    assert(s.drop_last() =~= rows@.subrange(0, k as int).filter(p));
                }
                count = count + 1;
                total = total + f.size as i128;
            }
            k = k + 1;
        }
        proof {
            assert(rows@.subrange(0, rows@.len() as int) =~= rows@);
        }
        if total < i64::MIN as i128 || total > i64::MAX as i128 || count > i64::MAX as i128 {
            Err(StorageError::StorageError(owned("the totals do not fit in i64")))
        } else {
            Ok(UserStorageStats { file_count: count as i64, total_size: total as i64 })
        }
    }
}

/// A model of the metadata table: records by id.
pub open spec fn lookup(catalog: Map<Seq<char>, File>, id: Seq<char>) -> Option<File> {
    if catalog.contains_key(id) {
        Some(catalog[id])
    } else {
        None
    }
}

/// A blob stored for its owner is read back, through its id, from the very
/// stored name it was written under, once its record is in the table.
pub proof fn lemma_store_then_retrieve(
    svc: TransactionalStorageService,
    meta: FileMetadata,
    owner: i64,
    record: File,
    stored: (Result<File, StorageError>, Option<String>),
    catalog: Map<Seq<char>, File>,
    read: Result<String, StorageError>,
)
    requires
        svc.record_agrees(meta, Ok(()), owner, (Ok(record), None)),
        TransactionalStorageService::completion_agrees(record, Ok(()), stored),
        gate_agrees(
            read,
            gate(meta.id@, owner, Ok(lookup(catalog.insert(meta.id@, record), meta.id@))),
            |f: File, v: String| v == f.stored_name,
        ),
    ensures
        stored.0 == Ok::<File, StorageError>(record),
        stored.1 is None,
        read == Ok::<String, StorageError>(meta.stored_name),
{
}

/// Retrieval and deletion by anyone but the owner are refused with `Forbidden`;
/// neither hands back a blob name or a record, so no filesystem step follows.
pub proof fn lemma_non_owner_refused(
    file_id: Seq<char>,
    requester: i64,
    record: File,
    read: Result<String, StorageError>,
    removal: Result<File, StorageError>,
)
    requires
        record.id matches Some(id) && id@ == file_id,
        record.user_id != requester,
        gate_agrees(read, gate(file_id, requester, Ok(Some(record))), |f: File, v: String| v == f.stored_name),
        gate_agrees(removal, gate(file_id, requester, Ok(Some(record))), |f: File, v: File| v == f),
    ensures
        read matches Err(StorageError::Forbidden(_)),
        removal matches Err(StorageError::Forbidden(_)),
{
}

/// When the insert of the metadata record fails, the blob that was just written
/// is named for removal and the failure is reported.
pub proof fn lemma_failed_insert_removes_blob(
    svc: TransactionalStorageService,
    meta: FileMetadata,
    owner: i64,
    record: File,
    message: String,
    stored: (Result<File, StorageError>, Option<String>),
)
    requires
        svc.record_agrees(meta, Ok(()), owner, (Ok(record), None)),
        TransactionalStorageService::completion_agrees(record, Err(message), stored),
    ensures
        stored.0 == Err::<File, StorageError>(StorageError::StorageError(message)),
        stored.1 == Some(meta.stored_name),
{
}

/// Once a delete has removed the record of `file_id` from the table, a
/// retrieval of that id by anyone fails with `FileNotFound`.
pub proof fn lemma_delete_then_retrieve(
    catalog: Map<Seq<char>, File>,
    file_id: Seq<char>,
    owner: i64,
    requester: i64,
    removal: Result<File, StorageError>,
    rows: u64,
    deleted: (Result<(), StorageError>, Option<String>),
    read: Result<String, StorageError>,
)
    requires
        gate_agrees(removal, gate(file_id, owner, Ok(lookup(catalog, file_id))), |f: File, v: File| v == f),
        removal matches Ok(rec) && TransactionalStorageService::deletion_agrees(rec, Ok(rows), deleted),
        gate_agrees(
            read,
            gate(file_id, requester, Ok(lookup(catalog.remove(file_id), file_id))),
            |f: File, v: String| v == f.stored_name,
        ),
    ensures
        deleted.0 is Ok,
        removal matches Ok(rec) && deleted.1 == Some(rec.stored_name),
        read matches Err(StorageError::FileNotFound(_)),
{
}

} // verus!
