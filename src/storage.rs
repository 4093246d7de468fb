use vstd::prelude::*;
use vstd::string::*;

use crate::clock::{now_timestamp, CLOCK_LIMIT};
use crate::text::owned;

verus! {

/// Whether `c` may appear in the hyphenated text of a UUID.
pub open spec fn uuid_char(c: char) -> bool {
    ('0' <= c <= '9') || ('a' <= c <= 'f') || c == '-'
}

/// The extension that std's `Path::extension` finds in `name`: the text after the
/// last dot of the final path component, empty when it has none.
pub uninterp spec fn path_extension(name: Seq<char>) -> Seq<char>;

/// Relies on `uuid::Uuid::new_v4` and the `Display` of `Uuid`: a random version-4
/// UUID, rendered in the hyphenated lower-case form of 36 characters.
#[verifier::external_body]
fn fresh_id() -> (r: String)
    ensures
        r@.len() == 36,
        forall|i: int| 0 <= i < 36 ==> uuid_char(#[trigger] r@[i]),
{
    uuid::Uuid::new_v4().to_string()
}

/// Relies on std's `Path::extension` and `OsStr::to_str`: the extension of the
/// final component of the path, or the empty string when there is none.
#[verifier::external_body]
fn extension_of(name: &str) -> (r: String)
    ensures
        r@ == path_extension(name@),
{
    std::path::Path::new(name).extension().and_then(|e| e.to_str()).unwrap_or("").to_string()
}

/// The name under which a blob is stored: its id, followed by a dot and the
/// extension of the original name when there is one.
pub open spec fn stored_name(id: Seq<char>, extension: Seq<char>) -> Seq<char> {
    if extension.len() == 0 {
        id
    } else {
        id + seq!['.'] + extension
    }
}

/// The stored name of the blob with id `id` and extension `extension`.
pub fn stored_name_for(id: &str, extension: &str) -> (r: String)
    ensures
        r@ == stored_name(id@, extension@),
{
    let mut name = owned(id);
    if extension.unicode_len() > 0 {
        proof {
            reveal_strlit(".");
        }
        name.append(".");
        name.append(extension);
    }
    name
}

/// What the blob store records of a blob it has placed.
#[derive(Debug, Clone)]
pub struct FileMetadata {
    pub id: String,
    pub original_name: String,
    pub stored_name: String,
    pub size: u64,
    pub mime_type: Option<String>,
    pub created_at: i64,
}

/// The blob store: one file per blob under one base directory. The caller
/// performs the filesystem work that each step names.
pub struct StorageService {
    base_path: String,
}

impl StorageService {
    /// The base directory.
    pub closed spec fn base(self) -> Seq<char> {
        self.base_path@
    }

    /// A blob store rooted at `base_path`; the caller creates the directory.
    pub fn new(base_path: String) -> (r: StorageService)
        ensures
            r.base() == base_path@,
    {
        StorageService { base_path }
    }

    /// The base directory.
    pub fn base_path(&self) -> (r: &str)
        ensures
            r@ == self.base(),
    {
        self.base_path.as_str()
    }

    /// Places a blob: picks a fresh random id and the stored name, made of the id
    /// and the extension of `original_name`. The caller then writes `data` under
    /// that name in the base directory and flushes it.
    pub fn store(&self, data: &[u8], original_name: &str, mime_type: Option<String>) -> (r:
        FileMetadata)
        ensures
            r.id@.len() == 36,
            forall|i: int| 0 <= i < 36 ==> uuid_char(#[trigger] r.id@[i]),
            r.original_name@ == original_name@,
            r.stored_name@ == stored_name(r.id@, path_extension(original_name@)),
            r.size == data@.len(),
            r.mime_type == mime_type,
            0 <= r.created_at < CLOCK_LIMIT,
    {
        let id = fresh_id();
        let extension = extension_of(original_name);
        let stored = stored_name_for(id.as_str(), extension.as_str());
        FileMetadata {
            id,
            original_name: owned(original_name),
            stored_name: stored,
            size: data.len() as u64,
            mime_type,
            created_at: now_timestamp(),
        }
    }

    /// The names under which a blob given by id or stored name is looked for, in
    /// order: the name itself, then the name with each of the common extensions.
    pub fn candidate_names(file_id: &str) -> (r: Vec<String>)
        ensures
            r@.len() == 7,
            r@[0]@ == file_id@,
            r@[1]@ == file_id@,
            r@[2]@ == file_id@ + ".jpg"@,
            r@[3]@ == file_id@ + ".png"@,
            r@[4]@ == file_id@ + ".pdf"@,
            r@[5]@ == file_id@ + ".txt"@,
            r@[6]@ == file_id@ + ".json"@,
    {
        let mut names: Vec<String> = Vec::new();
        names.push(owned(file_id));
        names.push(owned(file_id));
        names.push(owned(file_id).concat(".jpg"));
        names.push(owned(file_id).concat(".png"));
        names.push(owned(file_id).concat(".pdf"));
        names.push(owned(file_id).concat(".txt"));
        names.push(owned(file_id).concat(".json"));
        names
    }
}

/// Two blobs with different ids never share a stored name, whatever the
/// extensions of their original names.
pub proof fn lemma_stored_names_distinct(
    id1: Seq<char>,
    ext1: Seq<char>,
    id2: Seq<char>,
    ext2: Seq<char>,
)
    requires
        id1.len() == 36,
        id2.len() == 36,
        id1 != id2,
    ensures
        stored_name(id1, ext1) != stored_name(id2, ext2),
{
    let s1 = stored_name(id1, ext1);
    let s2 = stored_name(id2, ext2);
    assert(s1.subrange(0, 36) =~= id1);
    assert(s2.subrange(0, 36) =~= id2);
}

} // verus!
