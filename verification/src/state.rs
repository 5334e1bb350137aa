use vstd::prelude::*;
use crate::models::ReorderEntry;

verus! {

/// The closed set of UI modes.  The modal variants wrap exactly one previous
/// state: a single level of suspension and restore, never a stack.
#[derive(Debug)]
pub enum AppState {
    ThreadList,
    ThreadView(String),
    CreateThread,
    CreateEntry(String),
    EditThread(String),
    EditEntry(String, String),
    ConfirmDeleteThread(String),
    ConfirmDeleteEntry(String, String),
    ConfirmDiscardEntryChanges(String, String),
    ConfirmDiscardNewEntry(String),
    ImageNaming(Box<AppState>, Vec<u8>),
    ConfirmImageReplacement(Box<AppState>, Vec<u8>, String),
    ConfirmImageRemoval(Box<AppState>, String),
    CharacterLimitError(Box<AppState>),
}

pub fn clone_bytes(v: &Vec<u8>) -> (r: Vec<u8>)
    ensures
        r@ == v@,
{
    let mut r: Vec<u8> = Vec::new();
    let mut i: usize = 0;
    while i < v.len()
        invariant
            i <= v.len(),
            r@ == v@.subrange(0, i as int),
        decreases v.len() - i,
    {
        r.push(v[i]);
        proof {
            assert(r@ =~= v@.subrange(0, i + 1 as int));
        }
        i = i + 1;
    }
    proof {
        assert(v@.subrange(0, v@.len() as int) =~= v@);
        assert(r@ =~= v@);
    }
    r
}

/// A side effect that the state machine asks its caller to perform: every
/// content-service call, the best-effort backup, and image persistence.  The
/// machine itself never performs input or output.
#[derive(Debug)]
pub enum Request {
    LoadThreads,
    LoadThread(String),
    CreateThread(String),
    UpdateThread(String, String),
    CreateEntry {
        thread_id: String,
        content: String,
        order_num: i32,
        image_path: Option<String>,
    },
    UpdateEntry {
        entry_id: String,
        content: String,
        order_num: i32,
        image_path: Option<String>,
    },
    DeleteThread(String),
    DeleteEntry(String),
    ReorderEntries(String, Vec<ReorderEntry>),
    ExportThread(String),
    Backup,
    SaveImage {
        bytes: Vec<u8>,
        filename: String,
        thread_id: Option<String>,
        entry_id: Option<String>,
    },
}

/// Take the current state out of the slot, leaving the thread list behind:
/// lets a handler consume the state's payloads without copying them.
pub fn take_state(slot: &mut AppState) -> (r: AppState)
    ensures
        r == *old(slot),
        *final(slot) == AppState::ThreadList,
{
    let mut tmp = AppState::ThreadList;
    core::mem::swap(slot, &mut tmp);
    tmp
}

/// Which entry to select once the thread has been reloaded.
#[derive(Debug)]
pub enum PendingSelection {
    KeepFirst,
    LastEntry,
    EntryWithId(String),
}

} // verus!
