use vstd::prelude::*;

verus! {

/// One ordered unit of content within a thread, optionally carrying one
/// attached image.
#[derive(Debug)]
pub struct Entry {
    pub id: String,
    pub content: String,
    pub order_num: i32,
    pub image_path: Option<String>,
    pub thread_id: Option<String>,
    pub inserted_at: String,
    pub updated_at: String,
}

impl Clone for Entry {
    fn clone(&self) -> (r: Self)
        ensures
            r == self,
    {
        Entry {
            id: self.id.clone(),
            content: self.content.clone(),
            order_num: self.order_num,
            image_path: clone_opt_string(&self.image_path),
            thread_id: clone_opt_string(&self.thread_id),
            inserted_at: self.inserted_at.clone(),
            updated_at: self.updated_at.clone(),
        }
    }
}

pub fn clone_opt_string(s: &Option<String>) -> (r: Option<String>)
    ensures
        r == s,
{
    match s {
        Some(x) => Some(x.clone()),
        None => None,
    }
}

pub fn clone_entries(v: &Vec<Entry>) -> (r: Vec<Entry>)
    ensures
        r@ == v@,
{
    let mut r: Vec<Entry> = Vec::new();
    let mut i: usize = 0;
    while i < v.len()
        invariant
            i <= v.len(),
            r@ == v@.subrange(0, i as int),
        decreases v.len() - i,
    {
        r.push(v[i].clone());
        proof {
            assert(r@ =~= v@.subrange(0, i + 1 as int));
        }
        i = i + 1;
    }
    proof {
        assert(v@.subrange(0, v@.len() as int) =~= v@);
    }
    r
}

/// Top-level container of ordered entries.
#[derive(Debug)]
pub struct Thread {
    pub id: String,
    pub title: String,
    pub inserted_at: String,
    pub updated_at: String,
    pub entries: Vec<Entry>,
}

impl Clone for Thread {
    fn clone(&self) -> (r: Self)
        ensures
            r.id == self.id,
            r.title == self.title,
            r.inserted_at == self.inserted_at,
            r.updated_at == self.updated_at,
            r.entries@ == self.entries@,
    {
        Thread {
            id: self.id.clone(),
            title: self.title.clone(),
            inserted_at: self.inserted_at.clone(),
            updated_at: self.updated_at.clone(),
            entries: clone_entries(&self.entries),
        }
    }
}

/// Within a thread, order numbers are dense and strictly increasing in display
/// order: the entry at index `i` carries order number `i + 1`.
pub open spec fn orders_dense(entries: Seq<Entry>) -> bool {
    forall|i: int| 0 <= i < entries.len() ==> #[trigger] entries[i].order_num == i + 1
}

/// The sequence of entry identities, in display order.
pub open spec fn entry_ids(entries: Seq<Entry>) -> Seq<Seq<char>> {
    entries.map_values(|e: Entry| e.id@)
}

#[derive(Debug)]
pub struct CreateThreadRequest {
    pub thread: CreateThread,
}

#[derive(Debug)]
pub struct CreateThread {
    pub title: String,
}

#[derive(Debug)]
pub struct UpdateThreadRequest {
    pub thread: UpdateThread,
}

#[derive(Debug)]
pub struct UpdateThread {
    pub title: String,
}

#[derive(Debug)]
pub struct CreateEntryRequest {
    pub entry: CreateEntry,
}

#[derive(Debug)]
pub struct CreateEntry {
    pub content: String,
    pub order_num: i32,
    pub image_path: Option<String>,
    pub thread_id: String,
}

#[derive(Debug)]
pub struct UpdateEntryRequest {
    pub entry: UpdateEntry,
}

#[derive(Debug)]
pub struct UpdateEntry {
    pub content: String,
    pub order_num: i32,
    pub image_path: Option<String>,
}

#[derive(Debug)]
pub struct ReorderEntriesRequest {
    pub entries: Vec<ReorderEntry>,
}

#[derive(Debug)]
pub struct ReorderEntry {
    pub id: String,
    pub order_num: i32,
}

/// Envelope around a single value returned by the content service.
#[derive(Debug)]
pub struct ApiResponse<T> {
    pub data: T,
}

/// Envelope around a list of values returned by the content service.
#[derive(Debug)]
pub struct ApiListResponse<T> {
    pub data: Vec<T>,
}

} // verus!
