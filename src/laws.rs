//! What holds of sequences of store operations, stated over the model of the
//! files under the root. Each operation is read off the files as its caller
//! finds them: `get` and `lock` from the text at the entry's and the lock
//! record's path, `unlock` from whether the lock record exists.
use vstd::prelude::*;
use crate::document::{json_text, parse_json};
use crate::store::{
    entry_path_of, lock_path_of, lock_plan, put_change, read_entry, stored, unlock_plan,
    FileChange, Files, LockReply, TFStateStore,
};

verus! {

/// What `get` returns for the entry `id` of the store rooted at `root`.
pub open spec fn get_on(files: Files, root: Seq<char>, id: Seq<char>) -> Option<serde_json::Value> {
    read_entry(stored(files, entry_path_of(root, id)))
}

/// What `lock` decides for the entry `id` of the store rooted at `root`.
pub open spec fn lock_on(
    files: Files,
    root: Seq<char>,
    id: Seq<char>,
    info: serde_json::Value,
) -> Option<(LockReply, FileChange)> {
    lock_plan(root, id, info, stored(files, lock_path_of(root, id)))
}

/// What `unlock` decides for the entry `id` of the store rooted at `root`.
pub open spec fn unlock_on(files: Files, root: Seq<char>, id: Seq<char>) -> (bool, FileChange) {
    unlock_plan(root, id, files.contains_key(lock_path_of(root, id)))
}

/// An entry and its lock record never share a file.
proof fn lemma_paths_differ(root: Seq<char>, id: Seq<char>)
    ensures
        entry_path_of(root, id) != lock_path_of(root, id),
{
    assert(lock_path_of(root, id).len() == entry_path_of(root, id).len() + 5);
}

/// A store initialised a second time on the same root reads every entry and
/// every lock record as the first one does, and decides every operation as
/// the first one does; initialising asks for no change to any file.
pub proof fn initialize_twice(
    first: TFStateStore,
    second: TFStateStore,
    files: Files,
    id: Seq<char>,
    info: serde_json::Value,
)
    requires
        first@ == second@,
    ensures
        get_on(files, first@, id) == get_on(files, second@, id),
        lock_on(files, first@, id, info) == lock_on(files, second@, id, info),
        unlock_on(files, first@, id) == unlock_on(files, second@, id),
        put_change(first@, id, info) == put_change(second@, id, info),
{
}

/// After a document is put under an id, getting that id reads back what
/// its JSON text holds.
pub proof fn put_then_get(files: Files, root: Seq<char>, id: Seq<char>, doc: serde_json::Value)
    requires
        json_text(doc) is Some,
    ensures
        put_change(root, id, doc) is Some,
        get_on(put_change(root, id, doc)->Some_0.apply(files), root, id) == parse_json(
            json_text(doc)->Some_0,
        ),
{
}

/// Getting an id that has no file gives nothing, and no error.
pub proof fn get_absent(files: Files, root: Seq<char>, id: Seq<char>)
    requires
        !files.contains_key(entry_path_of(root, id)),
    ensures
        get_on(files, root, id) is None,
{
}

/// Of two documents put under one id, the second is what is read back.
pub proof fn put_overwrites(
    files: Files,
    root: Seq<char>,
    id: Seq<char>,
    first: serde_json::Value,
    second: serde_json::Value,
)
    requires
        json_text(first) is Some,
        json_text(second) is Some,
    ensures
        ({
            let once = put_change(root, id, first)->Some_0.apply(files);
            let twice = put_change(root, id, second)->Some_0.apply(once);
            &&& stored(twice, entry_path_of(root, id)) == json_text(second)
            &&& get_on(twice, root, id) == parse_json(json_text(second)->Some_0)
        }),
{
}

/// Locking an id whose lock is free acquires it, and the lock record then
/// holds the JSON text of the request's document.
pub proof fn lock_when_free(files: Files, root: Seq<char>, id: Seq<char>, info: serde_json::Value)
    requires
        !files.contains_key(lock_path_of(root, id)),
        json_text(info) is Some,
    ensures
        lock_on(files, root, id, info) == Some(
            (LockReply::Acquired, FileChange::Write(lock_path_of(root, id), json_text(info)->Some_0)),
        ),
        stored(lock_on(files, root, id, info)->Some_0.1.apply(files), lock_path_of(root, id))
            == json_text(info),
{
}

/// A second lock request on a held lock is refused with the document of the
/// first request, read back from the record, which stays as it was.
pub proof fn lock_conflict(
    files: Files,
    root: Seq<char>,
    id: Seq<char>,
    first: serde_json::Value,
    second: serde_json::Value,
)
    requires
        !files.contains_key(lock_path_of(root, id)),
        json_text(first) is Some,
    ensures
        ({
            let held = lock_on(files, root, id, first)->Some_0.1.apply(files);
            let text = json_text(first)->Some_0;
            &&& stored(held, lock_path_of(root, id)) == Some(text)
            &&& lock_on(held, root, id, second) == match parse_json(text) {
                Some(v) => Some((LockReply::HeldBy(v), FileChange::Keep)),
                None => None::<(LockReply, FileChange)>,
            }
        }),
{
}

/// Unlocking after a lock was acquired releases it and removes the record;
/// unlocking once more releases nothing.
pub proof fn unlock_releases(
    files: Files,
    root: Seq<char>,
    id: Seq<char>,
    info: serde_json::Value,
)
    requires
        lock_on(files, root, id, info) matches Some((LockReply::Acquired, _)),
    ensures
        ({
            let held = lock_on(files, root, id, info)->Some_0.1.apply(files);
            let released = unlock_on(held, root, id).1.apply(held);
            &&& unlock_on(held, root, id) == (true, FileChange::Remove(lock_path_of(root, id)))
            &&& !released.contains_key(lock_path_of(root, id))
            &&& unlock_on(released, root, id) == (false, FileChange::Keep)
        }),
{
}

/// Locking and unlocking an id leave what its entry reads as it was.
pub proof fn locks_leave_entries(
    files: Files,
    root: Seq<char>,
    id: Seq<char>,
    info: serde_json::Value,
)
    ensures
        lock_on(files, root, id, info) is Some ==> get_on(
            lock_on(files, root, id, info)->Some_0.1.apply(files),
            root,
            id,
        ) == get_on(files, root, id),
        get_on(unlock_on(files, root, id).1.apply(files), root, id) == get_on(files, root, id),
{
    lemma_paths_differ(root, id);
}

/// Putting a document under an id leaves how its lock is decided as it was.
pub proof fn puts_leave_locks(
    files: Files,
    root: Seq<char>,
    id: Seq<char>,
    doc: serde_json::Value,
    info: serde_json::Value,
)
    requires
        json_text(doc) is Some,
    ensures
        ({
            let written = put_change(root, id, doc)->Some_0.apply(files);
            &&& stored(written, lock_path_of(root, id)) == stored(files, lock_path_of(root, id))
            &&& lock_on(written, root, id, info) == lock_on(files, root, id, info)
            &&& unlock_on(written, root, id) == unlock_on(files, root, id)
        }),
{
    lemma_paths_differ(root, id);
}

} // verus!
