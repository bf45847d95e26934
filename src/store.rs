use vstd::prelude::*;
use crate::document::{decode, encode, json_text, null_document, parse_json};

verus! {

/// The regular files under a store's root that could be read as text, by
/// path, with their contents.
pub type Files = Map<Seq<char>, Seq<char>>;

/// The text of the file at `path`, if there is one.
pub open spec fn stored(files: Files, path: Seq<char>) -> Option<Seq<char>> {
    if files.contains_key(path) {
        Some(files[path])
    } else {
        None
    }
}

/// The path of `name` inside the directory `root`: a separator is put between
/// them unless `root` is empty or already ends with one.
pub open spec fn joined_path(root: Seq<char>, name: Seq<char>) -> Seq<char> {
    if root.len() == 0 || root.last() == '/' {
        root + name
    } else {
        root + seq!['/'] + name
    }
}

/// Where the entry `id` of the store rooted at `root` is kept.
pub open spec fn entry_path_of(root: Seq<char>, id: Seq<char>) -> Seq<char> {
    joined_path(root, id)
}

/// Where the lock record of the entry `id` is kept: the entry's name with the
/// suffix `.lock`.
pub open spec fn lock_path_of(root: Seq<char>, id: Seq<char>) -> Seq<char> {
    joined_path(root, id + seq!['.', 'l', 'o', 'c', 'k'])
}

/// A change to the files under a store's root.
pub enum FileChange {
    Keep,
    Write(Seq<char>, Seq<char>),
    Remove(Seq<char>),
}

impl FileChange {
    /// The files after the change.
    pub open spec fn apply(self, files: Files) -> Files {
        match self {
            FileChange::Keep => files,
            FileChange::Write(path, text) => files.insert(path, text),
            FileChange::Remove(path) => files.remove(path),
        }
    }
}

/// A file operation that the store asks its caller to carry out.
#[derive(Debug, Clone, PartialEq, Eq)]
pub enum Effect {
    /// Nothing is to be written or removed.
    Nothing,
    /// The file at `path` is to be created, or replaced, with `text`.
    Write { path: String, text: String },
    /// The file at `path` is to be removed.
    Remove { path: String },
}

impl View for Effect {
    type V = FileChange;

    open spec fn view(&self) -> FileChange {
        match self {
            Effect::Nothing => FileChange::Keep,
            Effect::Write { path, text } => FileChange::Write(path@, text@),
            Effect::Remove { path } => FileChange::Remove(path@),
        }
    }
}

/// Why an operation of the store failed.
#[derive(Debug)]
pub enum StoreError {
    /// A document could not be serialised.
    Encode(serde_json::Error),
    /// A lock record held no JSON document.
    Decode(serde_json::Error),
}

/// The text of a file that was found, as a sequence of characters.
pub open spec fn found_text(found: Option<String>) -> Option<Seq<char>> {
    match found {
        Some(t) => Some(t@),
        None => None,
    }
}

/// What `get` yields for the text found at an entry's path: the document it
/// holds, or nothing where there is no file or its text is no JSON document.
pub open spec fn read_entry(found: Option<Seq<char>>) -> Option<serde_json::Value> {
    match found {
        Some(t) => parse_json(t),
        None => None,
    }
}

/// The change that `put` asks for, or `None` where the document cannot be
/// serialised.
pub open spec fn put_change(root: Seq<char>, id: Seq<char>, doc: serde_json::Value) -> Option<FileChange> {
    match json_text(doc) {
        Some(t) => Some(FileChange::Write(entry_path_of(root, id), t)),
        None => None,
    }
}

/// How a lock request was answered.
pub enum LockReply {
    /// The lock was free and is now taken.
    Acquired,
    /// The lock is held; the document is what its record holds.
    HeldBy(serde_json::Value),
}

/// What `lock` decides from the text of the existing lock record, if any: the
/// reply and the change to the files, or `None` where it fails.
pub open spec fn lock_plan(
    root: Seq<char>,
    id: Seq<char>,
    info: serde_json::Value,
    held: Option<Seq<char>>,
) -> Option<(LockReply, FileChange)> {
    match held {
        Some(t) => match parse_json(t) {
            Some(v) => Some((LockReply::HeldBy(v), FileChange::Keep)),
            None => None,
        },
        None => match json_text(info) {
            Some(t) => Some((LockReply::Acquired, FileChange::Write(lock_path_of(root, id), t))),
            None => None,
        },
    }
}

/// The reply that `lock` returns as a pair of a flag and a document.
pub open spec fn lock_reply_of(acquired: bool, holder: serde_json::Value) -> LockReply {
    if acquired {
        LockReply::Acquired
    } else {
        LockReply::HeldBy(holder)
    }
}

/// What `unlock` decides from whether a lock record exists: whether a lock
/// is released, and the change to the files.
pub open spec fn unlock_plan(root: Seq<char>, id: Seq<char>, held: bool) -> (bool, FileChange) {
    if held {
        (true, FileChange::Remove(lock_path_of(root, id)))
    } else {
        (false, FileChange::Keep)
    }
}

/// Joins a directory path and a file name.
pub fn joined(root: &str, name: &str) -> (r: String)
    ensures
        r@ == joined_path(root@, name@),
{
    let mut r = String::from_str(root);
    let n = root.unicode_len();
    if n > 0 && root.get_char(n - 1) != '/' {
        proof {
            reveal_strlit("/");
        }
        r.append("/");
    }
    r.append(name);
    assert(r@ =~= joined_path(root@, name@));
    r
}

/// A store of JSON documents under a root directory, each with an advisory
/// lock. It holds no state but the root's path: callers hand it what they
/// found on disk and carry out the file operations it returns.
#[derive(Debug, Clone)]
pub struct TFStateStore {
    path: String,
}

impl View for TFStateStore {
    type V = Seq<char>;

    /// The path of the root directory.
    closed spec fn view(&self) -> Seq<char> {
        self.path@
    }
}

impl TFStateStore {
    /// A store rooted at `path`. The caller makes sure that the directory
    /// exists.
    pub fn new(path: &str) -> (r: Self)
        ensures
            r@ == path@,
    {
        TFStateStore { path: String::from_str(path) }
    }

    /// The path of the root directory.
    pub fn root(&self) -> (r: &str)
        ensures
            r@ == self@,
    {
        self.path.as_str()
    }

    /// The path of the file that holds the entry `id`.
    pub fn entry_path(&self, id: &str) -> (r: String)
        ensures
            r@ == entry_path_of(self@, id@),
    {
        joined(self.path.as_str(), id)
    }

    /// The path of the file that holds the lock record of the entry `id`.
    pub fn lock_path(&self, id: &str) -> (r: String)
        ensures
            r@ == lock_path_of(self@, id@),
    {
        let name = String::from_str(id);
        proof {
            reveal_strlit(".lock");
        }
        let name = name.concat(".lock");
        assert(name@ =~= id@ + seq!['.', 'l', 'o', 'c', 'k']);
        joined(self.path.as_str(), name.as_str())
    }

    /// The document of an entry, from `found`: the text of the file at
    /// `entry_path(id)` where that is a regular file that could be read, and
    /// `None` otherwise. A missing file and a file that holds no JSON
    /// document both give `None`.
    pub fn get(&self, found: Option<String>) -> (r: Option<serde_json::Value>)
        ensures
            r == read_entry(found_text(found)),
    {
        match found {
            Some(t) => match decode(t.as_str()) {
                Ok(v) => Some(v),
                Err(_) => None,
            },
            None => None,
        }
    }

    /// Stores `info` as the entry `id`: the returned effect writes its JSON
    /// text to `entry_path(id)`, replacing what was there. The lock record is
    /// left alone.
    pub fn put(&self, id: &str, info: &serde_json::Value) -> (r: Result<Effect, StoreError>)
        ensures
            r is Ok <==> put_change(self@, id@, *info) is Some,
            r is Ok ==> put_change(self@, id@, *info) == Some(r->Ok_0@),
            r is Err ==> r->Err_0 is Encode,
    {
        match encode(info) {
            Ok(text) => Ok(Effect::Write { path: self.entry_path(id), text }),
            Err(e) => Err(StoreError::Encode(e)),
        }
    }

    /// Takes the lock of the entry `id` for `info`, given `held`: the text of
    /// the existing lock record at `lock_path(id)`, or `None` where there is
    /// none.
    ///
    /// Where there is none, the lock is acquired: the result is
    /// `(true, null)` and the effect writes the JSON text of `info` to the
    /// record. Where there is one, the result is `false` with the document
    /// that the record holds, and nothing changes.
    pub fn lock(&self, id: &str, info: &serde_json::Value, held: Option<String>) -> (r: Result<
        ((bool, serde_json::Value), Effect),
        StoreError,
    >)
        ensures
            r is Ok <==> lock_plan(self@, id@, *info, found_text(held)) is Some,
            r is Ok ==> lock_plan(self@, id@, *info, found_text(held)) == Some(
                (lock_reply_of(r->Ok_0.0.0, r->Ok_0.0.1), r->Ok_0.1@),
            ),
            r is Ok && r->Ok_0.0.0 ==> json_text(r->Ok_0.0.1) == Some("null"@),
            r is Err ==> (held is Some ==> r->Err_0 is Decode) && (held is None ==> r->Err_0 is Encode),
    {
        match held {
            Some(t) => match decode(t.as_str()) {
                Ok(v) => Ok(((false, v), Effect::Nothing)),
                Err(e) => Err(StoreError::Decode(e)),
            },
            None => match encode(info) {
                Ok(text) => Ok(((true, null_document()), Effect::Write { path: self.lock_path(id), text })),
                Err(e) => Err(StoreError::Encode(e)),
            },
        }
    }

    /// Releases the lock of the entry `id`, given whether its lock record
    /// exists. Where it does, the result is `true` and the effect removes the
    /// record; otherwise the result is `false` and nothing changes. The
    /// document `_info` is accepted and not read.
    pub fn unlock(&self, id: &str, _info: &serde_json::Value, held: bool) -> (r: (bool, Effect))
        ensures
            unlock_plan(self@, id@, held) == (r.0, r.1@),
    {
        if held {
            (true, Effect::Remove { path: self.lock_path(id) })
        } else {
            (false, Effect::Nothing)
        }
    }
}

} // verus!
