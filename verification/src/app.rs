use vstd::prelude::*;
use crate::geometry::Rect;
use crate::hit_test::{clicked_index, list_item_positions, list_item_rect};
use crate::image_preview::ImagePreview;
use crate::models::{Entry, Thread};
use crate::state::{AppState, PendingSelection, Request};
use crate::text_editor::TextEditor;

verus! {

use vstd::string::StringExecFns;

/// The interaction core: one authoritative state value, the content
/// snapshot, the two editing engines, the hit-test geometry and the
/// thumbnail cache.  Every content-service call it decides on is returned
/// as a `Request` for the caller to perform: the core itself does no input
/// or output.
pub struct App {
    pub state: AppState,
    pub threads: Vec<Thread>,
    pub current_thread: Option<Thread>,
    pub text_editor: TextEditor,
    pub modal_text_editor: TextEditor,
    pub clipboard: String,
    pub should_quit: bool,
    pub selected_thread_index: usize,
    pub selected_entry_index: usize,
    pub submit_button_area: Option<Rect>,
    pub entry_list_area: Option<Rect>,
    pub entry_positions: Vec<Rect>,
    pub thread_list_area: Option<Rect>,
    pub thread_positions: Vec<Rect>,
    pub main_list_offset: usize,
    pub entry_list_offset: usize,
    pub last_scroll_ms: u64,
    pub scroll_throttle_ms: u64,
    pub preview_scroll_offset: u16,
    pub needs_redraw: bool,
    pub saved_text_content: Option<String>,
    pub thread_view_image_preview_visible: bool,
    pub entry_thumbnails: Vec<(String, ImagePreview)>,
    pub pending_selection: PendingSelection,
    pub pending_thread_selection: Option<String>,
    pub current_entry_image_path: Option<String>,
    pub original_entry_content: Option<String>,
    pub wrap_width: usize,
    pub last_resize_ms: Option<u64>,
    pub resize_debounce_ms: u64,
}

impl App {
    /// The identities the thumbnail cache is keyed by, in insertion order.
    pub open spec fn cache_keys(self) -> Seq<Seq<char>> {
        self.entry_thumbnails@.map_values(|p: (String, ImagePreview)| p.0@)
    }

    /// Well-formedness: both editors are well formed, the wrap width is
    /// positive, and the thumbnail cache holds well-formed previews under
    /// pairwise distinct keys.
    pub open spec fn wf(self) -> bool {
        &&& self.text_editor.wf()
        &&& self.modal_text_editor.wf()
        &&& self.wrap_width >= 1
        &&& cache_wf(self.entry_thumbnails@)
    }

    pub fn new() -> (app: App)
        ensures
            app.wf(),
            app.state == AppState::ThreadList,
            app.threads@.len() == 0,
            app.current_thread is None,
            !app.should_quit,
            app.selected_thread_index == 0,
            app.selected_entry_index == 0,
            app.needs_redraw,
            app.entry_thumbnails@.len() == 0,
            app.current_entry_image_path is None,
            app.original_entry_content is None,
            app.saved_text_content is None,
            app.wrap_width == 80,
            app.scroll_throttle_ms == 150,
            app.resize_debounce_ms == 100,
            app.text_editor.text() == Seq::<char>::empty(),
            app.clipboard@ == Seq::<char>::empty(),
    {
        App {
            state: AppState::ThreadList,
            threads: Vec::new(),
            current_thread: None,
            text_editor: TextEditor::new(),
            modal_text_editor: TextEditor::new(),
            clipboard: String::new(),
            should_quit: false,
            selected_thread_index: 0,
            selected_entry_index: 0,
            submit_button_area: None,
            entry_list_area: None,
            entry_positions: Vec::new(),
            thread_list_area: None,
            thread_positions: Vec::new(),
            main_list_offset: 0,
            entry_list_offset: 0,
            last_scroll_ms: 0,
            scroll_throttle_ms: 150,
            preview_scroll_offset: 0,
            needs_redraw: true,
            saved_text_content: None,
            thread_view_image_preview_visible: true,
            entry_thumbnails: Vec::new(),
            pending_selection: PendingSelection::KeepFirst,
            pending_thread_selection: None,
            current_entry_image_path: None,
            original_entry_content: None,
            wrap_width: 80,
            last_resize_ms: None,
            resize_debounce_ms: 100,
        }
    }

    /// Ask for a redraw on the next pass of the event loop.
    pub fn mark_dirty(&mut self)
        requires
            old(self).wf(),
        ensures
            final(self).wf(),
            *final(self) == (App { needs_redraw: true, ..*old(self) }),
    {
        self.needs_redraw = true;
    }

    /// The wrap width that a terminal of the given width affords: twelve
    /// columns go to borders and margins, and the width never drops under 20.
    pub fn calculate_wrap_width(&mut self, terminal_width: u16)
        requires
            old(self).wf(),
        ensures
            final(self).wf(),
            final(self).wrap_width == if terminal_width >= 32 {
                terminal_width - 12
            } else {
                20int
            },
            *final(self) == (App { wrap_width: final(self).wrap_width, ..*old(self) }),
    {
        let usable: u16 = if terminal_width >= 12 { terminal_width - 12 } else { 0 };
        self.wrap_width = if (usable as usize) > 20 { usable as usize } else { 20 };
    }

    /// The index of the thread with the given identity, if it is listed.
    pub fn find_thread_index_by_id(&self, thread_id: &str) -> (r: Option<usize>)
        ensures
            match r {
                Some(i) => i < self.threads@.len() && self.threads@[i as int].id@ == thread_id@
                    && forall|j: int| 0 <= j < i ==> (#[trigger] self.threads@[j]).id@ != thread_id@,
                None => forall|j: int| 0 <= j < self.threads@.len()
                    ==> (#[trigger] self.threads@[j]).id@ != thread_id@,
            },
    {
        let mut i: usize = 0;
        while i < self.threads.len()
            invariant
                i <= self.threads@.len(),
                forall|j: int| 0 <= j < i ==> (#[trigger] self.threads@[j]).id@ != thread_id@,
            decreases self.threads@.len() - i,
        {
            if str_eq(self.threads[i].id.as_str(), thread_id) {
                return Some(i);
            }
            i = i + 1;
        }
        None
    }

    /// The index of the entry with the given identity in the loaded thread.
    pub fn find_entry_index_by_id(&self, entry_id: &str) -> (r: Option<usize>)
        ensures
            match r {
                Some(i) => match self.current_thread {
                    Some(t) => i < t.entries@.len() && t.entries@[i as int].id@ == entry_id@
                        && forall|j: int| 0 <= j < i
                            ==> (#[trigger] t.entries@[j]).id@ != entry_id@,
                    None => false,
                },
                None => match self.current_thread {
                    Some(t) => forall|j: int| 0 <= j < t.entries@.len()
                        ==> (#[trigger] t.entries@[j]).id@ != entry_id@,
                    None => true,
                },
            },
    {
        match &self.current_thread {
            None => None,
            Some(t) => {
                let mut i: usize = 0;
                while i < t.entries.len()
                    invariant
                        self.current_thread == Some(*t),
                        i <= t.entries@.len(),
                        forall|j: int| 0 <= j < i ==> (#[trigger] t.entries@[j]).id@ != entry_id@,
                    decreases t.entries@.len() - i,
                {
                    if str_eq(t.entries[i].id.as_str(), entry_id) {
                        return Some(i);
                    }
                    i = i + 1;
                }
                None
            },
        }
    }

    /// Recompute the thread list's item rectangles from this frame's
    /// geometry; stale positions would misattribute clicks.
    pub fn calculate_thread_positions(&mut self, list_area: Rect)
        requires
            old(self).wf(),
            list_area.x + list_area.width + 1 <= 0xffff,
            list_area.y + list_area.height + 1 <= 0xffff,
        ensures
            final(self).wf(),
            final(self).thread_positions@.len() == old(self).threads@.len(),
            forall|i: int| 0 <= i < final(self).thread_positions@.len()
                ==> #[trigger] final(self).thread_positions@[i]
                    == list_item_rect(list_area, old(self).main_list_offset as int, 0, i),
            *final(self) == (App { thread_positions: final(self).thread_positions, ..*old(self) }),
    {
        self.thread_positions = list_item_positions(
            list_area, self.main_list_offset, 0, self.threads.len());
    }

    /// Recompute the entry list's item rectangles: one extra padding row sits
    /// above the entries.
    pub fn calculate_entry_positions(&mut self, list_area: Rect, entry_count: usize)
        requires
            old(self).wf(),
            list_area.x + list_area.width + 1 <= 0xffff,
            list_area.y + list_area.height + 2 <= 0xffff,
        ensures
            final(self).wf(),
            final(self).entry_positions@.len() == entry_count,
            forall|i: int| 0 <= i < entry_count
                ==> #[trigger] final(self).entry_positions@[i]
                    == list_item_rect(list_area, old(self).entry_list_offset as int, 1, i),
            *final(self) == (App { entry_positions: final(self).entry_positions, ..*old(self) }),
    {
        self.entry_positions = list_item_positions(
            list_area, self.entry_list_offset, 1, entry_count);
    }

    /// The thread under the pointer, going by this frame's rectangles: the
    /// first visible rectangle containing the cell, `None` when none does.
    pub fn get_clicked_thread_index(&self, column: u16, row: u16) -> (r: Option<usize>)
        ensures
            match r {
                Some(i) => i < self.thread_positions@.len()
                    && crate::hit_test::first_hit(self.thread_positions@, column, row) == i,
                None => crate::hit_test::first_hit(self.thread_positions@, column, row) < 0,
            },
    {
        clicked_index(&self.thread_positions, column, row)
    }

    /// The entry under the pointer, going by this frame's rectangles: the
    /// first visible rectangle containing the cell, `None` when none does.
    pub fn get_clicked_entry_index(&self, column: u16, row: u16) -> (r: Option<usize>)
        ensures
            match r {
                Some(i) => i < self.entry_positions@.len()
                    && crate::hit_test::first_hit(self.entry_positions@, column, row) == i,
                None => crate::hit_test::first_hit(self.entry_positions@, column, row) < 0,
            },
    {
        clicked_index(&self.entry_positions, column, row)
    }

    /// Whether the cache already holds a thumbnail for the entry.
    pub fn has_thumbnail(&self, entry_id: &str) -> (r: bool)
        ensures
            r == self.cache_keys().contains(entry_id@),
    {
        let mut i: usize = 0;
        while i < self.entry_thumbnails.len()
            invariant
                i <= self.entry_thumbnails@.len(),
                forall|j: int| 0 <= j < i ==> (#[trigger] self.entry_thumbnails@[j]).0@ != entry_id@,
            decreases self.entry_thumbnails@.len() - i,
        {
            if str_eq(self.entry_thumbnails[i].0.as_str(), entry_id) {
                proof {
                    assert(self.cache_keys()[i as int] == entry_id@);
                }
                return true;
            }
            i = i + 1;
        }
        proof {
            if self.cache_keys().contains(entry_id@) {
                let k = choose|k: int| 0 <= k < self.cache_keys().len()
                    && self.cache_keys()[k] == entry_id@;
                assert((self.entry_thumbnails@[k]).0@ == entry_id@);
            }
        }
        false
    }

    /// Decode and cache a thumbnail for the entry, under the resize policy.
    /// A decodable payload for an uncached entry is always cached; an entry
    /// already cached is skipped, since thumbnails are immutable once
    /// created.  Returns whether the cache holds the entry afterwards.
    pub fn warm_thumbnail(&mut self, entry_id: &str, bytes: &Vec<u8>) -> (r: bool)
        requires
            old(self).wf(),
        ensures
            final(self).wf(),
            r == final(self).cache_keys().contains(entry_id@),
            old(self).cache_keys().contains(entry_id@) ==> *final(self) == *old(self),
            !old(self).cache_keys().contains(entry_id@)
                && crate::image_preview::decoded_dims(bytes@) is Some
                ==> final(self).cache_keys() == old(self).cache_keys().push(entry_id@),
            !old(self).cache_keys().contains(entry_id@)
                && crate::image_preview::decoded_dims(bytes@) is None
                ==> *final(self) == *old(self),
            final(self).cache_keys() == old(self).cache_keys()
                || final(self).cache_keys() == old(self).cache_keys().push(entry_id@),
            *final(self) == (App { entry_thumbnails: final(self).entry_thumbnails, ..*old(self) }),
    {
        if self.has_thumbnail(entry_id) {
            return true;
        }
        let mut preview = ImagePreview::new();
        let ok = preview.load_from_bytes(bytes);
        if ok {
            let key = string_of(entry_id);
            self.entry_thumbnails.push((key, preview));
            proof {
                assert(self.cache_keys() =~= old(self).cache_keys().push(entry_id@));
                assert(self.cache_keys().last() == entry_id@);
                let c = self.entry_thumbnails@;
                let n = c.len() - 1;
                assert forall|i: int, j: int| 0 <= i < j < c.len()
                    implies (#[trigger] c[i]).0@ != (#[trigger] c[j]).0@ by {
                    if j == n {
                        assert(c[i].0@ == old(self).cache_keys()[i]);
                        assert(!old(self).cache_keys().contains(entry_id@));
                        assert(old(self).cache_keys()[i] != entry_id@);
                        assert(c[j].0@ == entry_id@);
                    } else {
                        assert(old(self).entry_thumbnails@[i] == c[i]);
                        assert(old(self).entry_thumbnails@[j] == c[j]);
                    }
                }
            }
            true
        } else {
            false
        }
    }

    /// Evict every cached thumbnail: called when leaving the thread view.
    pub fn clear_entry_thumbnails(&mut self)
        requires
            old(self).wf(),
        ensures
            final(self).wf(),
            final(self).cache_keys().len() == 0,
            *final(self) == (App { entry_thumbnails: final(self).entry_thumbnails, ..*old(self) }),
    {
        self.entry_thumbnails = Vec::new();
        proof {
            assert(self.cache_keys() =~= Seq::<Seq<char>>::empty());
        }
    }

    /// Reuse a cached thumbnail for the editing view: the preview is made
    /// visible without decoding the image again.  Without a cached
    /// thumbnail nothing changes.
    pub fn load_cached_thumbnail_into_editor(&mut self, entry_id: &str)
        requires
            old(self).wf(),
        ensures
            final(self).wf(),
            old(self).cache_keys().contains(entry_id@)
                ==> final(self).text_editor.show_image_preview,
            !old(self).cache_keys().contains(entry_id@) ==> *final(self) == *old(self),
            old(self).cache_keys().contains(entry_id@) ==> final(self).text_editor
                == (TextEditor { show_image_preview: true, ..old(self).text_editor }),
            *final(self) == (App { text_editor: final(self).text_editor, ..*old(self) }),
    {
        if self.has_thumbnail(entry_id) {
            self.text_editor.set_image_preview_visible(true);
        }
    }
}

/// Every cached preview is well formed and no key repeats: one thumbnail
/// per entry identity.
pub open spec fn cache_wf(cache: Seq<(String, ImagePreview)>) -> bool {
    &&& forall|i: int| 0 <= i < cache.len() ==> (#[trigger] cache[i]).1.wf()
    &&& forall|i: int, j: int| 0 <= i < j < cache.len()
        ==> (#[trigger] cache[i]).0@ != (#[trigger] cache[j]).0@
}

/// String equality, decided by the characters.
pub fn str_eq(a: &str, b: &str) -> (r: bool)
    ensures
        r == (a@ == b@),
{
    let sa = string_of(a);
    let sb = string_of(b);
    sa.eq(&sb)
}

/// An owned copy of a borrowed string.
pub fn string_of(s: &str) -> (r: String)
    ensures
        r@ == s@,
{
    String::from_str(s)
}

} // verus!

verus! {

use crate::models::ReorderEntry;
use crate::text_util::{chars_blank, is_blank};

/// The first index holding an entry with the given identity, or -1.
pub open spec fn entry_index_of(entries: Seq<Entry>, id: Seq<char>) -> int
    decreases entries.len(),
{
    if entries.len() == 0 {
        -1
    } else if entries[0].id@ == id {
        0
    } else {
        let r = entry_index_of(entries.drop_first(), id);
        if r < 0 {
            -1
        } else {
            r + 1
        }
    }
}

/// The first index holding a thread with the given identity, or -1.
pub open spec fn thread_index_of(threads: Seq<Thread>, id: Seq<char>) -> int
    decreases threads.len(),
{
    if threads.len() == 0 {
        -1
    } else if threads[0].id@ == id {
        0
    } else {
        let r = thread_index_of(threads.drop_first(), id);
        if r < 0 {
            -1
        } else {
            r + 1
        }
    }
}

/// When a first match exists at `i`, the thread index is `i`.
pub proof fn lemma_thread_index_first(threads: Seq<Thread>, id: Seq<char>, i: int)
    requires
        0 <= i < threads.len(),
        threads[i].id@ == id,
        forall|j: int| 0 <= j < i ==> (#[trigger] threads[j]).id@ != id,
    ensures
        thread_index_of(threads, id) == i,
    decreases i,
{
    if i > 0 {
        assert(threads.drop_first()[i - 1] == threads[i]);
        assert forall|j: int| 0 <= j < i - 1
            implies (#[trigger] threads.drop_first()[j]).id@ != id by {
            assert(threads.drop_first()[j] == threads[j + 1]);
        }
        lemma_thread_index_first(threads.drop_first(), id, i - 1);
    }
}

/// When no thread matches, the thread index is negative.
pub proof fn lemma_thread_index_none(threads: Seq<Thread>, id: Seq<char>)
    requires
        forall|j: int| 0 <= j < threads.len() ==> (#[trigger] threads[j]).id@ != id,
    ensures
        thread_index_of(threads, id) < 0,
    decreases threads.len(),
{
    if threads.len() > 0 {
        assert forall|j: int| 0 <= j < threads.drop_first().len()
            implies (#[trigger] threads.drop_first()[j]).id@ != id by {
            assert(threads.drop_first()[j] == threads[j + 1]);
        }
        lemma_thread_index_none(threads.drop_first(), id);
    }
}

/// The character budget enforced at save time.
pub const CHARACTER_LIMIT: usize = 500;

/// What a save does, as a relation between the core before and after and
/// the requests it dispatches.
pub open spec fn save_post(a0: App, a1: App, r: Seq<Request>) -> bool {
    let text = a0.text_editor.text();
    &&& (is_blank(text) ==> a1 == a0 && r.len() == 0)
    &&& (!is_blank(text) && text.len() > CHARACTER_LIMIT ==> {
        &&& r.len() == 0
        &&& (a1.state matches AppState::CharacterLimitError(prev) && *prev == a0.state)
        &&& a1 == (App { state: a1.state, ..a0 })
    })
    &&& (!is_blank(text) && text.len() <= CHARACTER_LIMIT ==> {
        &&& a1 == a0
        &&& match a0.state {
            AppState::CreateThread => r.len() == 1
                && (r[0] matches Request::CreateThread(t) && t@ == text),
            AppState::EditThread(tid) => r.len() == 1
                && (r[0] matches Request::UpdateThread(id, t) && id@ == tid@ && t@ == text),
            AppState::CreateEntry(tid) => r.len() == 1
                && (r[0] matches Request::CreateEntry { thread_id, content, order_num, image_path }
                    && thread_id@ == tid@ && content@ == text
                    && order_num == save_order_num(a0)
                    && opt_string_view_eq(image_path, a0.current_entry_image_path)),
            AppState::EditEntry(tid, eid) => match a0.current_thread {
                Some(th) => if entry_index_of(th.entries@, eid@) >= 0 {
                    r.len() == 1
                        && (r[0] matches Request::UpdateEntry {
                                entry_id, content, order_num, image_path }
                            && entry_id@ == eid@ && content@ == text
                            && order_num == th.entries@[entry_index_of(th.entries@, eid@)].order_num
                            && opt_string_view_eq(image_path, a0.current_entry_image_path))
                } else {
                    r.len() == 0
                },
                None => r.len() == 0,
            },
            _ => r.len() == 0,
        }
    })
}

/// The order number a newly created entry gets: one past the loaded
/// thread's entry count.
pub open spec fn save_order_num(a0: App) -> int {
    match a0.current_thread {
        Some(th) => if th.entries@.len() + 1 <= i32::MAX {
            th.entries@.len() as int + 1
        } else {
            1int
        },
        None => 1int,
    }
}

/// Two optional strings hold the same characters.
pub open spec fn opt_string_view_eq(a: Option<String>, b: Option<String>) -> bool {
    match (a, b) {
        (Some(p), Some(q)) => p@ == q@,
        (None, None) => true,
        _ => false,
    }
}

impl App {
    /// Build the full reorder submission for swapping the entries at
    /// `moving` and `target`: only those two order numbers are exchanged,
    /// every other entry keeps its order number, and the listed identities
    /// are exactly the thread's entries in display order.
    pub fn reorder_for_swap(entries: &Vec<Entry>, moving: usize, target: usize) -> (r: Vec<ReorderEntry>)
        requires
            moving < entries@.len(),
            target < entries@.len(),
            entries@.len() + 1 <= i32::MAX,
        ensures
            r@.len() == entries@.len(),
            forall|i: int| 0 <= i < r@.len() ==> (#[trigger] r@[i]).id@ == entries@[i].id@,
            forall|i: int| 0 <= i < r@.len() ==> (#[trigger] r@[i]).order_num == (
                if i == moving {
                    target + 1
                } else if i == target {
                    moving + 1
                } else {
                    entries@[i].order_num as int
                }),
    {
        let mut r: Vec<ReorderEntry> = Vec::new();
        let mut i: usize = 0;
        while i < entries.len()
            invariant
                i <= entries@.len(),
                moving < entries@.len(),
                target < entries@.len(),
                entries@.len() + 1 <= i32::MAX,
                r@.len() == i,
                forall|j: int| 0 <= j < i ==> (#[trigger] r@[j]).id@ == entries@[j].id@,
                forall|j: int| 0 <= j < i ==> (#[trigger] r@[j]).order_num == (
                    if j == moving {
                        target + 1
                    } else if j == target {
                        moving + 1
                    } else {
                        entries@[j].order_num as int
                    }),
            decreases entries@.len() - i,
        {
            let order_num: i32 = if i == moving {
                (target + 1) as i32
            } else if i == target {
                (moving + 1) as i32
            } else {
                entries[i].order_num
            };
            r.push(ReorderEntry { id: entries[i].id.clone(), order_num });
            i = i + 1;
        }
        r
    }

    /// Move the selected entry one place up: the swap with its predecessor
    /// is submitted as one full reorder request, and the selection will
    /// follow the moved entry once the reordered thread comes back.  With
    /// no predecessor, or no loaded thread, nothing happens.
    pub fn move_entry_up(&mut self, thread_id: &str) -> (r: Vec<Request>)
        requires
            old(self).wf(),
        ensures
            final(self).wf(),
            match old(self).current_thread {
                Some(t) => if 0 < old(self).selected_entry_index < t.entries@.len()
                    && t.entries@.len() + 1 <= i32::MAX {
                    let k = old(self).selected_entry_index as int;
                    &&& r@.len() == 1
                    &&& (r@[0] matches Request::ReorderEntries(tid, list) && tid@ == thread_id@
                        && list@.len() == t.entries@.len()
                        && (forall|i: int| 0 <= i < list@.len()
                            ==> (#[trigger] list@[i]).id@ == t.entries@[i].id@)
                        && (forall|i: int| 0 <= i < list@.len()
                            ==> (#[trigger] list@[i]).order_num == (
                                if i == k {
                                    k
                                } else if i == k - 1 {
                                    k + 1
                                } else {
                                    t.entries@[i].order_num as int
                                })))
                    &&& final(self).state == old(self).state
                } else {
                    r@.len() == 0 && *final(self) == *old(self)
                },
                None => r@.len() == 0 && *final(self) == *old(self),
            },
    {
        match &self.current_thread {
            None => Vec::new(),
            Some(t) => {
                if 0 < self.selected_entry_index && self.selected_entry_index < t.entries.len()
                    && t.entries.len() < 0x7fffffff {
                    let k = self.selected_entry_index;
                    let list = Self::reorder_for_swap(&t.entries, k, k - 1);
                    let moved_id = t.entries[k].id.clone();
                    self.pending_selection = PendingSelection::EntryWithId(moved_id);
                    let mut r: Vec<Request> = Vec::new();
                    r.push(Request::ReorderEntries(string_of(thread_id), list));
                    r
                } else {
                    Vec::new()
                }
            },
        }
    }

    /// Move the selected entry one place down, mirroring `move_entry_up`.
    pub fn move_entry_down(&mut self, thread_id: &str) -> (r: Vec<Request>)
        requires
            old(self).wf(),
        ensures
            final(self).wf(),
            match old(self).current_thread {
                Some(t) => if old(self).selected_entry_index + 1 < t.entries@.len()
                    && t.entries@.len() + 1 <= i32::MAX {
                    let k = old(self).selected_entry_index as int;
                    &&& r@.len() == 1
                    &&& (r@[0] matches Request::ReorderEntries(tid, list) && tid@ == thread_id@
                        && list@.len() == t.entries@.len()
                        && (forall|i: int| 0 <= i < list@.len()
                            ==> (#[trigger] list@[i]).id@ == t.entries@[i].id@)
                        && (forall|i: int| 0 <= i < list@.len()
                            ==> (#[trigger] list@[i]).order_num == (
                                if i == k {
                                    k + 2
                                } else if i == k + 1 {
                                    k + 1
                                } else {
                                    t.entries@[i].order_num as int
                                })))
                    &&& final(self).state == old(self).state
                } else {
                    r@.len() == 0 && *final(self) == *old(self)
                },
                None => r@.len() == 0 && *final(self) == *old(self),
            },
    {
        match &self.current_thread {
            None => Vec::new(),
            Some(t) => {
                if self.selected_entry_index < t.entries.len()
                    && self.selected_entry_index + 1 < t.entries.len()
                    && t.entries.len() < 0x7fffffff {
                    let k = self.selected_entry_index;
                    let list = Self::reorder_for_swap(&t.entries, k, k + 1);
                    let moved_id = t.entries[k].id.clone();
                    self.pending_selection = PendingSelection::EntryWithId(moved_id);
                    let mut r: Vec<Request> = Vec::new();
                    r.push(Request::ReorderEntries(string_of(thread_id), list));
                    r
                } else {
                    Vec::new()
                }
            },
        }
    }

    /// Save the buffer under the current mode.  Blank content is a no-op.
    /// Content over the character budget routes to the character-limit
    /// modal, with no content-service call at all.  Otherwise the
    /// mode-appropriate create or update is dispatched, and the state is
    /// left alone until the answer comes back.
    pub fn handle_save_operation(&mut self) -> (r: Vec<Request>)
        requires
            old(self).wf(),
        ensures
            final(self).wf(),
            save_post(*old(self), *final(self), r@),
    {
        let chars = self.text_editor.text_chars();
        if chars_blank(&chars) {
            return Vec::new();
        }
        if chars.len() > CHARACTER_LIMIT {
            let prev = crate::state::take_state(&mut self.state);
            self.state = AppState::CharacterLimitError(Box::new(prev));
            return Vec::new();
        }
        let text = crate::text_editor::chars_to_string(&chars);
        let mut r: Vec<Request> = Vec::new();
        match &self.state {
            AppState::CreateThread => {
                r.push(Request::CreateThread(text));
            },
            AppState::EditThread(tid) => {
                r.push(Request::UpdateThread(tid.clone(), text));
            },
            AppState::CreateEntry(tid) => {
                let order_num: i32 = match &self.current_thread {
                    Some(th) => if th.entries.len() < 0x7fffffff {
                        (th.entries.len() + 1) as i32
                    } else {
                        1
                    },
                    None => 1,
                };
                r.push(Request::CreateEntry {
                    thread_id: tid.clone(),
                    content: text,
                    order_num,
                    image_path: crate::models::clone_opt_string(&self.current_entry_image_path),
                });
            },
            AppState::EditEntry(_tid, eid) => {
                match &self.current_thread {
                    Some(th) => {
                        let mut i: usize = 0;
                        let mut found: Option<usize> = None;
                        while i < th.entries.len()
                            invariant
                                i <= th.entries@.len(),
                                match found {
                                    Some(k) => k < i && th.entries@[k as int].id@ == eid@
                                        && entry_index_of(th.entries@, eid@) == k,
                                    None => forall|j: int| 0 <= j < i
                                        ==> (#[trigger] th.entries@[j]).id@ != eid@,
                                },
                            decreases th.entries@.len() - i,
                        {
                            if found.is_none() && str_eq(th.entries[i].id.as_str(), eid.as_str()) {
                                proof {
                                    lemma_entry_index_first(th.entries@, eid@, i as int);
                                }
                                found = Some(i);
                            }
                            i = i + 1;
                        }
                        match found {
                            Some(k) => {
                                r.push(Request::UpdateEntry {
                                    entry_id: eid.clone(),
                                    content: text,
                                    order_num: th.entries[k].order_num,
                                    image_path: crate::models::clone_opt_string(
                                        &self.current_entry_image_path),
                                });
                            },
                            None => {
                                proof {
                                    lemma_entry_index_none(th.entries@, eid@);
                                }
                            },
                        }
                    },
                    None => (),
                }
            },
            _ => (),
        }
        r
    }
}

/// When a first match exists at `i`, the entry index is `i`.
pub proof fn lemma_entry_index_first(entries: Seq<Entry>, id: Seq<char>, i: int)
    requires
        0 <= i < entries.len(),
        entries[i].id@ == id,
        forall|j: int| 0 <= j < i ==> (#[trigger] entries[j]).id@ != id,
    ensures
        entry_index_of(entries, id) == i,
    decreases i,
{
    if i > 0 {
        assert(entries.drop_first()[i - 1] == entries[i]);
        assert forall|j: int| 0 <= j < i - 1
            implies (#[trigger] entries.drop_first()[j]).id@ != id by {
            assert(entries.drop_first()[j] == entries[j + 1]);
        }
        lemma_entry_index_first(entries.drop_first(), id, i - 1);
    }
}

/// When no entry matches, the entry index is negative.
pub proof fn lemma_entry_index_none(entries: Seq<Entry>, id: Seq<char>)
    requires
        forall|j: int| 0 <= j < entries.len() ==> (#[trigger] entries[j]).id@ != id,
    ensures
        entry_index_of(entries, id) < 0,
    decreases entries.len(),
{
    if entries.len() > 0 {
        assert forall|j: int| 0 <= j < entries.drop_first().len()
            implies (#[trigger] entries.drop_first()[j]).id@ != id by {
            assert(entries.drop_first()[j] == entries[j + 1]);
        }
        lemma_entry_index_none(entries.drop_first(), id);
    }
}

} // verus!

verus! {

/// The (identity, image path) pairs of the image-bearing entries that are
/// not yet cached, in display order.
pub open spec fn warm_list(entries: Seq<Entry>, keys: Seq<Seq<char>>) -> Seq<(Seq<char>, Seq<char>)>
    decreases entries.len(),
{
    if entries.len() == 0 {
        Seq::empty()
    } else {
        let rest = warm_list(entries.drop_first(), keys);
        match entries[0].image_path {
            Some(p) => if !keys.contains(entries[0].id@) {
                seq![(entries[0].id@, p@)] + rest
            } else {
                rest
            },
            None => rest,
        }
    }
}

/// The first index of the entry with the given identity, as a concrete
/// value: exactly `entry_index_of`, with `None` for no match.
fn find_entry_first_index(entries: &Vec<Entry>, id: &str) -> (r: Option<usize>)
    ensures
        match r {
            Some(k) => k < entries@.len() && entry_index_of(entries@, id@) == k,
            None => entry_index_of(entries@, id@) < 0,
        },
{
    let mut k: usize = 0;
    while k < entries.len()
        invariant
            k <= entries@.len(),
            forall|j: int| 0 <= j < k ==> (#[trigger] entries@[j]).id@ != id@,
        decreases entries@.len() - k,
    {
        if str_eq(entries[k].id.as_str(), id) {
            proof {
                lemma_entry_index_first(entries@, id@, k as int);
            }
            return Some(k);
        }
        k = k + 1;
    }
    proof {
        lemma_entry_index_none(entries@, id@);
    }
    None
}

/// The first index of the thread with the given identity, as a concrete
/// value: exactly `thread_index_of`, with `None` for no match.
fn find_thread_first_index(threads: &Vec<Thread>, id: &str) -> (r: Option<usize>)
    ensures
        match r {
            Some(k) => k < threads@.len() && thread_index_of(threads@, id@) == k,
            None => thread_index_of(threads@, id@) < 0,
        },
{
    let mut k: usize = 0;
    while k < threads.len()
        invariant
            k <= threads@.len(),
            forall|j: int| 0 <= j < k ==> (#[trigger] threads@[j]).id@ != id@,
        decreases threads@.len() - k,
    {
        if str_eq(threads[k].id.as_str(), id) {
            proof {
                lemma_thread_index_first(threads@, id@, k as int);
            }
            return Some(k);
        }
        k = k + 1;
    }
    proof {
        lemma_thread_index_none(threads@, id@);
    }
    None
}

impl App {
    /// A reorder request failed: the in-flight transition is abandoned, so
    /// the pending selection that was to follow the moved entry is dropped.
    pub fn on_reorder_failed(&mut self)
        requires
            old(self).wf(),
        ensures
            final(self).wf(),
            *final(self) == (App {
                pending_selection: PendingSelection::KeepFirst,
                ..*old(self)
            }),
    {
        self.pending_selection = PendingSelection::KeepFirst;
    }

    /// The thread list came back: take it over; the selection moves to the
    /// thread whose creation or rename is being followed, and otherwise a
    /// selection that fell off the end is dropped.
    pub fn on_threads_loaded(&mut self, threads: Vec<Thread>)
        requires
            old(self).wf(),
        ensures
            final(self).wf(),
            final(self).threads@ == threads@,
            final(self).pending_thread_selection is None,
            final(self).selected_thread_index == (match old(self).pending_thread_selection {
                Some(id) => if thread_index_of(threads@, id@) >= 0 {
                    thread_index_of(threads@, id@)
                } else if old(self).selected_thread_index < threads@.len() {
                    old(self).selected_thread_index as int
                } else {
                    0int
                },
                None => if old(self).selected_thread_index < threads@.len() {
                    old(self).selected_thread_index as int
                } else {
                    0int
                },
            }),
            *final(self) == (App {
                threads: final(self).threads,
                selected_thread_index: final(self).selected_thread_index,
                pending_thread_selection: None,
                needs_redraw: true,
                ..*old(self)
            }),
    {
        let followed: Option<usize> = match &self.pending_thread_selection {
            Some(id) => find_thread_first_index(&threads, id.as_str()),
            None => None,
        };
        let n = threads.len();
        self.threads = threads;
        match followed {
            Some(k) => {
                self.selected_thread_index = k;
            },
            None => {
                if self.selected_thread_index >= n {
                    self.selected_thread_index = 0;
                }
            },
        }
        self.pending_thread_selection = None;
        self.needs_redraw = true;
    }

    /// The initial thread list could not be loaded: degrade to an empty
    /// list rather than keeping stale data.
    pub fn on_threads_load_failed(&mut self)
        requires
            old(self).wf(),
        ensures
            final(self).wf(),
            final(self).threads@.len() == 0,
            final(self).selected_thread_index == 0,
            *final(self) == (App {
                threads: final(self).threads,
                selected_thread_index: 0,
                needs_redraw: true,
                ..*old(self)
            }),
    {
        self.threads = Vec::new();
        self.selected_thread_index = 0;
        self.needs_redraw = true;
    }

    /// A thread came back: make it current, reset the view scroll, settle
    /// the pending selection, and report which image-bearing entries still
    /// need a thumbnail, skipping the ones already cached.
    pub fn on_thread_loaded(&mut self, thread: Thread) -> (warm: Vec<(String, String)>)
        requires
            old(self).wf(),
        ensures
            final(self).wf(),
            match final(self).current_thread {
                Some(t) => t.id@ == thread.id@ && t.entries@ == thread.entries@,
                None => false,
            },
            final(self).preview_scroll_offset == 0,
            final(self).entry_list_offset == 0,
            final(self).pending_selection is KeepFirst,
            match old(self).pending_selection {
                PendingSelection::KeepFirst => final(self).selected_entry_index == 0,
                PendingSelection::LastEntry => final(self).selected_entry_index == (
                    if thread.entries@.len() > 0 {
                        thread.entries@.len() - 1
                    } else {
                        0int
                    }),
                PendingSelection::EntryWithId(id) => final(self).selected_entry_index == (
                    if entry_index_of(thread.entries@, id@) >= 0 {
                        entry_index_of(thread.entries@, id@)
                    } else {
                        0int
                    }),
            },
            warm@.map_values(|p: (String, String)| (p.0@, p.1@))
                == warm_list(thread.entries@, old(self).cache_keys()),
            *final(self) == (App {
                current_thread: final(self).current_thread,
                selected_entry_index: final(self).selected_entry_index,
                preview_scroll_offset: 0,
                entry_list_offset: 0,
                pending_selection: PendingSelection::KeepFirst,
                needs_redraw: true,
                ..*old(self)
            }),
    {
        let mut warm: Vec<(String, String)> = Vec::new();
        proof {
            assert(thread.entries@.skip(0) =~= thread.entries@);
            assert(warm@.map_values(|p: (String, String)| (p.0@, p.1@))
                =~= Seq::<(Seq<char>, Seq<char>)>::empty());
        }
        let mut i: usize = 0;
        while i < thread.entries.len()
            invariant
                old(self) == self,
                i <= thread.entries@.len(),
                self.wf(),
                warm@.map_values(|p: (String, String)| (p.0@, p.1@))
                    + warm_list(thread.entries@.skip(i as int), self.cache_keys())
                    =~= warm_list(thread.entries@, self.cache_keys()),
            decreases thread.entries@.len() - i,
        {
            proof {
                let tail = thread.entries@.skip(i as int);
                assert(tail[0] == thread.entries@[i as int]);
                assert(tail.drop_first() =~= thread.entries@.skip(i + 1 as int));
            }
            match &thread.entries[i].image_path {
                Some(p) => {
                    if !self.has_thumbnail(thread.entries[i].id.as_str()) {
                        let ghost pre = warm@;
                        warm.push((thread.entries[i].id.clone(), p.clone()));
                        proof {
                            assert(warm@.map_values(|q: (String, String)| (q.0@, q.1@))
                                =~= pre.map_values(|q: (String, String)| (q.0@, q.1@))
                                    .push((thread.entries@[i as int].id@,
                                        thread.entries@[i as int].image_path.unwrap()@)));
                        }
                    }
                },
                None => (),
            }
            i = i + 1;
        }
        proof {
            assert(thread.entries@.skip(thread.entries@.len() as int)
                =~= Seq::<Entry>::empty());
        }
        let sel: usize = match &self.pending_selection {
            PendingSelection::KeepFirst => 0,
            PendingSelection::LastEntry => if thread.entries.len() > 0 {
                thread.entries.len() - 1
            } else {
                0
            },
            PendingSelection::EntryWithId(id) => {
                match find_entry_first_index(&thread.entries, id.as_str()) {
                    Some(k) => k,
                    None => 0,
                }
            },
        };
        self.current_thread = Some(thread);
        self.selected_entry_index = sel;
        self.preview_scroll_offset = 0;
        self.entry_list_offset = 0;
        self.pending_selection = PendingSelection::KeepFirst;
        self.needs_redraw = true;
        warm
    }

    /// A thread was created: capture of its first entry starts at once, and
    /// the list, the thread and a best-effort backup are requested.
    pub fn on_thread_created(&mut self, thread_id: &str) -> (r: Vec<Request>)
        requires
            old(self).wf(),
        ensures
            final(self).wf(),
            final(self).state matches AppState::CreateEntry(t) && t@ == thread_id@,
            final(self).current_entry_image_path is None,
            final(self).text_editor.text() == Seq::<char>::empty(),
            final(self).pending_thread_selection matches Some(t) && t@ == thread_id@,
            r@.len() == 3,
            r@[0] is LoadThreads,
            r@[1] matches Request::LoadThread(t) && t@ == thread_id@,
            r@[2] is Backup,
    {
        self.state = AppState::CreateEntry(string_of(thread_id));
        self.current_entry_image_path = None;
        self.pending_thread_selection = Some(string_of(thread_id));
        self.text_editor.clear();
        self.needs_redraw = true;
        let mut r: Vec<Request> = Vec::new();
        r.push(Request::LoadThreads);
        r.push(Request::LoadThread(string_of(thread_id)));
        r.push(Request::Backup);
        r
    }

    /// A thread title was updated: return to the thread view when that
    /// thread is the loaded one, else to the list; refresh and back up.
    pub fn on_thread_updated(&mut self, thread_id: &str) -> (r: Vec<Request>)
        requires
            old(self).wf(),
        ensures
            final(self).wf(),
            final(self).text_editor.text() == Seq::<char>::empty(),
            match old(self).current_thread {
                Some(t) => if t.id@ == thread_id@ {
                    (final(self).state matches AppState::ThreadView(x) && x@ == thread_id@)
                        && (final(self).pending_thread_selection matches Some(p)
                            && p@ == thread_id@)
                        && r@.len() == 3 && r@[0] is LoadThreads
                        && (r@[1] matches Request::LoadThread(y) && y@ == thread_id@)
                        && r@[2] is Backup
                } else {
                    final(self).state == AppState::ThreadList
                        && r@.len() == 2 && r@[0] is LoadThreads && r@[1] is Backup
                },
                None => final(self).state == AppState::ThreadList
                    && r@.len() == 2 && r@[0] is LoadThreads && r@[1] is Backup,
            },
    {
        let mut r: Vec<Request> = Vec::new();
        r.push(Request::LoadThreads);
        let same = match &self.current_thread {
            Some(t) => str_eq(t.id.as_str(), thread_id),
            None => false,
        };
        if same {
            self.state = AppState::ThreadView(string_of(thread_id));
            r.push(Request::LoadThread(string_of(thread_id)));
            self.pending_thread_selection = Some(string_of(thread_id));
        } else {
            self.state = AppState::ThreadList;
        }
        r.push(Request::Backup);
        self.text_editor.clear();
        self.needs_redraw = true;
        r
    }

    /// An entry was created: back to the thread view, with the new, last
    /// entry to be selected once the thread reloads; refresh and back up.
    pub fn on_entry_created(&mut self, thread_id: &str) -> (r: Vec<Request>)
        requires
            old(self).wf(),
        ensures
            final(self).wf(),
            final(self).state matches AppState::ThreadView(t) && t@ == thread_id@,
            final(self).pending_selection is LastEntry,
            final(self).text_editor.text() == Seq::<char>::empty(),
            r@.len() == 2,
            r@[0] matches Request::LoadThread(t) && t@ == thread_id@,
            r@[1] is Backup,
    {
        self.state = AppState::ThreadView(string_of(thread_id));
        self.pending_selection = PendingSelection::LastEntry;
        self.text_editor.clear();
        self.needs_redraw = true;
        let mut r: Vec<Request> = Vec::new();
        r.push(Request::LoadThread(string_of(thread_id)));
        r.push(Request::Backup);
        r
    }

    /// An entry was updated: back to the thread view, with that entry to be
    /// selected once the thread reloads; refresh and back up.
    pub fn on_entry_updated(&mut self, thread_id: &str, entry_id: &str) -> (r: Vec<Request>)
        requires
            old(self).wf(),
        ensures
            final(self).wf(),
            final(self).state matches AppState::ThreadView(t) && t@ == thread_id@,
            final(self).pending_selection matches PendingSelection::EntryWithId(e) && e@ == entry_id@,
            final(self).text_editor.text() == Seq::<char>::empty(),
            final(self).original_entry_content is None,
            r@.len() == 2,
            r@[0] matches Request::LoadThread(t) && t@ == thread_id@,
            r@[1] is Backup,
    {
        self.state = AppState::ThreadView(string_of(thread_id));
        self.pending_selection = PendingSelection::EntryWithId(string_of(entry_id));
        self.text_editor.clear();
        self.original_entry_content = None;
        self.needs_redraw = true;
        let mut r: Vec<Request> = Vec::new();
        r.push(Request::LoadThread(string_of(thread_id)));
        r.push(Request::Backup);
        r
    }

    /// A thread was deleted: the list is refreshed.
    pub fn on_thread_deleted(&mut self) -> (r: Vec<Request>)
        requires
            old(self).wf(),
        ensures
            final(self).wf(),
            *final(self) == *old(self),
            r@.len() == 1 && r@[0] is LoadThreads,
    {
        let mut r: Vec<Request> = Vec::new();
        r.push(Request::LoadThreads);
        r
    }

    /// An entry was deleted: the thread is refreshed.
    pub fn on_entry_deleted(&mut self, thread_id: &str) -> (r: Vec<Request>)
        requires
            old(self).wf(),
        ensures
            final(self).wf(),
            *final(self) == *old(self),
            r@.len() == 1,
            r@[0] matches Request::LoadThread(t) && t@ == thread_id@,
    {
        let mut r: Vec<Request> = Vec::new();
        r.push(Request::LoadThread(string_of(thread_id)));
        r
    }

    /// The reordered thread came back: take it over and let the selection
    /// follow the moved entry.
    pub fn on_entries_reordered(&mut self, thread: Thread)
        requires
            old(self).wf(),
        ensures
            final(self).wf(),
            match final(self).current_thread {
                Some(t) => t.id@ == thread.id@ && t.entries@ == thread.entries@,
                None => false,
            },
            final(self).pending_selection is KeepFirst,
            final(self).needs_redraw,
            match old(self).pending_selection {
                PendingSelection::EntryWithId(id) => final(self).selected_entry_index == (
                    if entry_index_of(thread.entries@, id@) >= 0 {
                        entry_index_of(thread.entries@, id@)
                    } else {
                        old(self).selected_entry_index as int
                    }),
                _ => final(self).selected_entry_index == old(self).selected_entry_index,
            },
    {
        match &self.pending_selection {
            PendingSelection::EntryWithId(id) => {
                match find_entry_first_index(&thread.entries, id.as_str()) {
                    Some(h) => {
                        self.selected_entry_index = h;
                    },
                    None => (),
                }
            },
            _ => (),
        }
        self.pending_selection = PendingSelection::KeepFirst;
        self.current_thread = Some(thread);
        self.needs_redraw = true;
    }

    /// A named image was persisted: remember its path for the entry being
    /// edited, restore the suspended mode and its preserved text, and attach
    /// the image to the buffer.
    pub fn on_image_saved(&mut self, image_path: &str)
        requires
            old(self).wf(),
        ensures
            final(self).wf(),
            old(self).state matches AppState::ImageNaming(prev, _) ==> {
                &&& final(self).state == *prev
                &&& (final(self).current_entry_image_path matches Some(p) && p@ == image_path@)
                &&& final(self).saved_text_content is None
                &&& (match old(self).saved_text_content {
                    Some(t) => final(self).text_editor.text() == t@,
                    None => final(self).text_editor.text()
                        == old(self).text_editor.text(),
                })
                &&& (final(self).text_editor.image_path matches Some(p) && p@ == image_path@)
                &&& final(self).text_editor.show_image_preview
            },
            !(old(self).state matches AppState::ImageNaming(_, _))
                ==> *final(self) == *old(self),
    {
        let st = crate::state::take_state(&mut self.state);
        match st {
            AppState::ImageNaming(prev, _bytes) => {
                self.current_entry_image_path = Some(string_of(image_path));
                self.state = *prev;
                match &self.saved_text_content {
                    Some(t) => {
                        let text = t.clone();
                        self.text_editor.set_text(text.as_str());
                        proof {
                            crate::text_editor::lemma_join_split(text@);
                        }
                    },
                    None => (),
                }
                self.saved_text_content = None;
                self.text_editor.load_image(image_path);
                self.needs_redraw = true;
            },
            other => {
                self.state = other;
            },
        }
    }
}

} // verus!

verus! {

use crate::input::{KeyCode, KeyInput, KeyResult};
use crate::state::take_state;
use crate::clock::datestamp_now;

/// The mode that an image-naming modal suspends and will restore: one of
/// the text-entry modes, with thread creation as the fallback.
pub open spec fn image_prev_of(st: AppState) -> AppState {
    match st {
        AppState::CreateThread => AppState::CreateThread,
        AppState::CreateEntry(id) => AppState::CreateEntry(id),
        AppState::EditEntry(t, e) => AppState::EditEntry(t, e),
        _ => AppState::CreateThread,
    }
}

impl App {
    /// Open the selected entry for editing: its content is seeded into the
    /// editor verbatim, the original content is captured for the later
    /// dirty check, and an already-cached thumbnail is reused rather than
    /// redecoded.  Without a valid selection nothing happens.
    pub fn open_selected_entry_for_editing(&mut self, thread_id: &str)
        requires
            old(self).wf(),
        ensures
            final(self).wf(),
            match old(self).current_thread {
                Some(t) => if old(self).selected_entry_index < t.entries@.len() {
                    let e = t.entries@[old(self).selected_entry_index as int];
                    &&& (final(self).state matches AppState::EditEntry(x, y)
                        && x@ == thread_id@ && y@ == e.id@)
                    &&& opt_string_view_eq(final(self).current_entry_image_path, e.image_path)
                    &&& (final(self).original_entry_content matches Some(c) && c@ == e.content@)
                    &&& final(self).text_editor.text() == e.content@
                    &&& final(self).text_editor.cursor_row == 0
                    &&& final(self).text_editor.cursor_col == 0
                    &&& final(self).needs_redraw
                } else {
                    *final(self) == *old(self)
                },
                None => *final(self) == *old(self),
            },
    {
        match &self.current_thread {
            None => (),
            Some(t) => {
                if self.selected_entry_index < t.entries.len() {
                    let entry_id = t.entries[self.selected_entry_index].id.clone();
                    let content = t.entries[self.selected_entry_index].content.clone();
                    let image_path = crate::models::clone_opt_string(
                        &t.entries[self.selected_entry_index].image_path);
                    self.state = AppState::EditEntry(string_of(thread_id), entry_id.clone());
                    self.current_entry_image_path = image_path;
                    self.original_entry_content = Some(content.clone());
                    self.text_editor.clear();
                    self.load_cached_thumbnail_into_editor(entry_id.as_str());
                    self.text_editor.set_wrap_width(self.wrap_width);
                    self.text_editor.set_text_without_image_processing(content.as_str());
                    proof {
                        crate::text_editor::lemma_join_split(content@);
                    }
                    self.text_editor.move_cursor_to_start();
                    self.needs_redraw = true;
                }
            },
        }
    }

    /// Suspend the current text-entry mode into the image-naming modal:
    /// the in-progress content is preserved apart from the filename buffer,
    /// which starts empty.
    pub fn transition_to_image_naming(&mut self, image_data: Vec<u8>)
        requires
            old(self).wf(),
        ensures
            final(self).wf(),
            (final(self).state matches AppState::ImageNaming(prev, d)
                && *prev == image_prev_of(old(self).state) && d@ == image_data@),
            (final(self).saved_text_content matches Some(t)
                && t@ == old(self).text_editor.text()),
            final(self).modal_text_editor.text() == Seq::<char>::empty(),
            final(self).needs_redraw,
            final(self).text_editor == old(self).text_editor,
            final(self).clipboard == old(self).clipboard,
            final(self).current_thread == old(self).current_thread,
            final(self).threads == old(self).threads,
    {
        let st = take_state(&mut self.state);
        let prev = match st {
            AppState::CreateThread => AppState::CreateThread,
            AppState::CreateEntry(id) => AppState::CreateEntry(id),
            AppState::EditEntry(t, e) => AppState::EditEntry(t, e),
            _ => AppState::CreateThread,
        };
        self.saved_text_content = Some(self.text_editor.to_text());
        self.state = AppState::ImageNaming(Box::new(prev), image_data);
        self.modal_text_editor.clear();
        self.needs_redraw = true;
    }

    /// Keys on the thread list: navigation, opening, creation (typed or
    /// datestamped), renaming, and deletion behind a confirmation.
    pub fn keys_thread_list(&mut self, key: KeyInput) -> (r: Vec<Request>)
        requires
            old(self).wf(),
        ensures
            final(self).wf(),
            key == KeyInput::spec_plain(KeyCode::Char('q')) ==> final(self).should_quit
                && r@.len() == 0,
            key == KeyInput::spec_plain(KeyCode::Char('n')) ==> {
                &&& final(self).state == AppState::CreateThread
                &&& final(self).text_editor.text() == Seq::<char>::empty()
                &&& r@.len() == 0
            },
            key == KeyInput::spec_plain(KeyCode::Char('d')) ==> r@.len() == 1
                && (r@[0] matches Request::CreateThread(t)
                    && crate::clock::is_datestamp_title(t@))
                && final(self).state == AppState::ThreadList,
            key == KeyInput::spec_plain(KeyCode::Up) ==> r@.len() == 0
                && final(self).selected_thread_index == (
                    if old(self).selected_thread_index > 0 {
                        old(self).selected_thread_index - 1
                    } else {
                        0int
                    }),
            key == KeyInput::spec_plain(KeyCode::Down) ==> r@.len() == 0
                && final(self).selected_thread_index == (
                    if old(self).selected_thread_index + 1 < old(self).threads@.len() {
                        old(self).selected_thread_index + 1
                    } else {
                        old(self).selected_thread_index as int
                    }),
            key == KeyInput::spec_plain(KeyCode::Enter) ==> (
                if old(self).selected_thread_index < old(self).threads@.len() {
                    let id = old(self).threads@[old(self).selected_thread_index as int].id@;
                    &&& r@.len() == 1
                    &&& (r@[0] matches Request::LoadThread(t) && t@ == id)
                    &&& (final(self).state matches AppState::ThreadView(t) && t@ == id)
                } else {
                    r@.len() == 0 && final(self).state == AppState::ThreadList
                }),
            key == KeyInput::spec_plain(KeyCode::Char('r')) ==> (
                if old(self).selected_thread_index < old(self).threads@.len() {
                    let t = old(self).threads@[old(self).selected_thread_index as int];
                    &&& (final(self).state matches AppState::EditThread(x) && x@ == t.id@)
                    &&& final(self).text_editor.text() == t.title@
                    &&& r@.len() == 0
                } else {
                    r@.len() == 0 && final(self).state == AppState::ThreadList
                }),
            key == KeyInput::spec_plain(KeyCode::Delete)
                || key == KeyInput::spec_plain(KeyCode::Backspace) ==> (
                if old(self).selected_thread_index < old(self).threads@.len() {
                    let id = old(self).threads@[old(self).selected_thread_index as int].id@;
                    r@.len() == 0
                        && (final(self).state matches AppState::ConfirmDeleteThread(t) && t@ == id)
                } else {
                    r@.len() == 0 && final(self).state == AppState::ThreadList
                }),
    {
        let mut r: Vec<Request> = Vec::new();
        self.state = AppState::ThreadList;
        if key.ctrl || key.alt || key.super_key || key.shift {
            return r;
        }
        match key.code {
            KeyCode::Char(c) => {
                if c == 'q' {
                    self.should_quit = true;
                } else if c == 'n' {
                    self.state = AppState::CreateThread;
                    self.text_editor.clear();
                } else if c == 'd' {
                    let title = datestamp_now();
                    r.push(Request::CreateThread(title));
                } else if c == 'r' {
                    if self.selected_thread_index < self.threads.len() {
                        let id = self.threads[self.selected_thread_index].id.clone();
                        let title = self.threads[self.selected_thread_index].title.clone();
                        self.state = AppState::EditThread(id);
                        self.text_editor.clear();
                        let w = self.wrap_width;
                        self.text_editor.set_wrap_width(w);
                        self.text_editor.set_text_without_image_processing(title.as_str());
                        proof {
                            crate::text_editor::lemma_join_split(title@);
                        }
                    }
                }
            },
            KeyCode::Up => {
                if self.selected_thread_index > 0 {
                    self.selected_thread_index = self.selected_thread_index - 1;
                }
            },
            KeyCode::Down => {
                if self.selected_thread_index < self.threads.len()
                    && self.selected_thread_index < self.threads.len() - 1 {
                    self.selected_thread_index = self.selected_thread_index + 1;
                }
            },
            KeyCode::Enter => {
                if self.selected_thread_index < self.threads.len() {
                    let id = self.threads[self.selected_thread_index].id.clone();
                    r.push(Request::LoadThread(id.clone()));
                    self.state = AppState::ThreadView(id);
                }
            },
            KeyCode::Delete | KeyCode::Backspace => {
                if self.selected_thread_index < self.threads.len() {
                    let id = self.threads[self.selected_thread_index].id.clone();
                    self.state = AppState::ConfirmDeleteThread(id);
                }
            },
            _ => (),
        }
        r
    }
}

} // verus!

verus! {

impl App {
    /// Keys on the thread view: entry navigation and reordering, entry
    /// creation and editing, thread renaming, export, preview toggling, and
    /// deletion behind a confirmation.
    pub fn keys_thread_view(&mut self, key: KeyInput, tid: String) -> (r: Vec<Request>)
        requires
            old(self).wf(),
        ensures
            final(self).wf(),
            key == KeyInput::spec_plain(KeyCode::Char('q'))
                || key == KeyInput::spec_plain(KeyCode::Esc) ==> {
                &&& final(self).state == AppState::ThreadList
                &&& final(self).current_thread is None
                &&& final(self).selected_entry_index == 0
                &&& final(self).cache_keys().len() == 0
                &&& r@.len() == 0
            },
            key == KeyInput::spec_plain(KeyCode::Char('n')) ==> {
                &&& (final(self).state matches AppState::CreateEntry(t) && t@ == tid@)
                &&& final(self).current_entry_image_path is None
                &&& final(self).text_editor.text() == Seq::<char>::empty()
                &&& r@.len() == 0
            },
            key == KeyInput::spec_plain(KeyCode::Char('r')) ==> (
                match old(self).current_thread {
                    Some(t) => {
                        &&& (final(self).state matches AppState::EditThread(x) && x@ == tid@)
                        &&& final(self).text_editor.text() == t.title@
                        &&& r@.len() == 0
                    },
                    None => r@.len() == 0,
                }),
            key.code == KeyCode::Up && key.ctrl && key.shift ==> (
                match old(self).current_thread {
                    Some(t) => if 0 < old(self).selected_entry_index < t.entries@.len()
                        && t.entries@.len() + 1 <= i32::MAX {
                        r@.len() == 1 && r@[0] is ReorderEntries
                    } else {
                        r@.len() == 0
                    },
                    None => r@.len() == 0,
                }),
            key.code == KeyCode::Down && key.ctrl && key.shift ==> (
                match old(self).current_thread {
                    Some(t) => if old(self).selected_entry_index + 1 < t.entries@.len()
                        && t.entries@.len() + 1 <= i32::MAX {
                        r@.len() == 1 && r@[0] is ReorderEntries
                    } else {
                        r@.len() == 0
                    },
                    None => r@.len() == 0,
                }),
            key == KeyInput::spec_plain(KeyCode::Up) ==> r@.len() == 0
                && final(self).selected_entry_index == (
                    if old(self).selected_entry_index > 0 {
                        old(self).selected_entry_index - 1
                    } else {
                        0int
                    }),
            key == KeyInput::spec_plain(KeyCode::Down) ==> r@.len() == 0
                && final(self).selected_entry_index == (
                    match old(self).current_thread {
                        Some(t) => if old(self).selected_entry_index + 1 < t.entries@.len() {
                            old(self).selected_entry_index + 1
                        } else {
                            old(self).selected_entry_index as int
                        },
                        None => old(self).selected_entry_index as int,
                    }),
            key == KeyInput::spec_plain(KeyCode::Enter)
                || key == KeyInput::spec_plain(KeyCode::Char('e')) ==> (
                match old(self).current_thread {
                    Some(t) => if old(self).selected_entry_index < t.entries@.len() {
                        let e = t.entries@[old(self).selected_entry_index as int];
                        &&& (final(self).state matches AppState::EditEntry(x, y)
                            && x@ == tid@ && y@ == e.id@)
                        &&& final(self).text_editor.text() == e.content@
                        &&& (final(self).original_entry_content matches Some(c)
                            && c@ == e.content@)
                        &&& r@.len() == 0
                    } else {
                        r@.len() == 0
                    },
                    None => r@.len() == 0,
                }),
            key == KeyInput::spec_plain(KeyCode::Delete)
                || key == KeyInput::spec_plain(KeyCode::Backspace) ==> (
                match old(self).current_thread {
                    Some(t) => if old(self).selected_entry_index < t.entries@.len() {
                        let e = t.entries@[old(self).selected_entry_index as int];
                        r@.len() == 0 && (final(self).state
                            matches AppState::ConfirmDeleteEntry(x, y)
                            && x@ == tid@ && y@ == e.id@)
                    } else {
                        r@.len() == 0
                    },
                    None => r@.len() == 0,
                }),
            key.code == KeyCode::Char('t') && key.ctrl ==> r@.len() == 0
                && final(self).thread_view_image_preview_visible
                    == !old(self).thread_view_image_preview_visible,
            key == KeyInput::spec_plain(KeyCode::Char('x')) ==> r@.len() == 1
                && (r@[0] matches Request::ExportThread(t) && t@ == tid@),
            key == KeyInput::spec_plain(KeyCode::PageUp) ==> r@.len() == 0
                && final(self).preview_scroll_offset == (
                    if old(self).preview_scroll_offset >= 5 {
                        old(self).preview_scroll_offset - 5
                    } else {
                        0int
                    }),
            key == KeyInput::spec_plain(KeyCode::PageDown) ==> r@.len() == 0
                && final(self).preview_scroll_offset == (
                    if old(self).preview_scroll_offset + 5 <= u16::MAX {
                        old(self).preview_scroll_offset + 5
                    } else {
                        u16::MAX as int
                    }),
    {
        let mut r: Vec<Request> = Vec::new();
        self.state = AppState::ThreadView(tid.clone());
        let plain = !key.ctrl && !key.alt && !key.super_key && !key.shift;
        match key.code {
            KeyCode::Char(c) => {
                if c == 'q' && plain {
                    self.state = AppState::ThreadList;
                    self.current_thread = None;
                    self.selected_entry_index = 0;
                    self.clear_entry_thumbnails();
                } else if c == 'n' && plain {
                    self.state = AppState::CreateEntry(tid);
                    self.current_entry_image_path = None;
                    self.text_editor.clear();
                } else if c == 'r' && plain {
                    match &self.current_thread {
                        Some(t) => {
                            let title = t.title.clone();
                            self.state = AppState::EditThread(tid);
                            self.text_editor.clear();
                            let w = self.wrap_width;
                            self.text_editor.set_wrap_width(w);
                            self.text_editor.set_text_without_image_processing(title.as_str());
                            proof {
                                crate::text_editor::lemma_join_split(title@);
                            }
                        },
                        None => (),
                    }
                } else if c == 't' && key.ctrl {
                    self.thread_view_image_preview_visible
                        = !self.thread_view_image_preview_visible;
                } else if c == 'x' && plain {
                    r.push(Request::ExportThread(tid));
                } else if c == 'e' && plain {
                    let t2 = tid.clone();
                    self.open_selected_entry_for_editing(t2.as_str());
                }
            },
            KeyCode::Esc => {
                if plain {
                    self.state = AppState::ThreadList;
                    self.current_thread = None;
                    self.selected_entry_index = 0;
                    self.clear_entry_thumbnails();
                }
            },
            KeyCode::Up => {
                if key.ctrl && key.shift {
                    let t2 = tid.clone();
                    let mut up = self.move_entry_up(t2.as_str());
                    match up.pop() {
                        Some(q) => {
                            r.push(q);
                        },
                        None => (),
                    }
                } else if plain {
                    if self.selected_entry_index > 0 {
                        self.selected_entry_index = self.selected_entry_index - 1;
                    }
                }
            },
            KeyCode::Down => {
                if key.ctrl && key.shift {
                    let t2 = tid.clone();
                    let mut down = self.move_entry_down(t2.as_str());
                    match down.pop() {
                        Some(q) => {
                            r.push(q);
                        },
                        None => (),
                    }
                } else if plain {
                    match &self.current_thread {
                        Some(t) => {
                            if self.selected_entry_index < t.entries.len()
                                && self.selected_entry_index < t.entries.len() - 1 {
                                self.selected_entry_index = self.selected_entry_index + 1;
                            }
                        },
                        None => (),
                    }
                }
            },
            KeyCode::PageUp => {
                if plain {
                    if self.preview_scroll_offset >= 5 {
                        self.preview_scroll_offset = self.preview_scroll_offset - 5;
                    } else {
                        self.preview_scroll_offset = 0;
                    }
                }
            },
            KeyCode::PageDown => {
                if plain {
                    if self.preview_scroll_offset <= u16::MAX - 5 {
                        self.preview_scroll_offset = self.preview_scroll_offset + 5;
                    } else {
                        self.preview_scroll_offset = u16::MAX;
                    }
                }
            },
            KeyCode::Enter => {
                if plain {
                    let t2 = tid.clone();
                    self.open_selected_entry_for_editing(t2.as_str());
                }
            },
            KeyCode::Delete | KeyCode::Backspace => {
                if plain {
                    match &self.current_thread {
                        Some(t) => {
                            if self.selected_entry_index < t.entries.len() {
                                let eid = t.entries[self.selected_entry_index].id.clone();
                                self.state = AppState::ConfirmDeleteEntry(tid, eid);
                            }
                        },
                        None => (),
                    }
                }
            },
            _ => (),
        }
        r
    }
}

} // verus!

verus! {

use crate::key_handler::{ctrl_only, engine_key_post};
use crate::text_util::{sans_newlines, trim_of, remove_newlines, trim_chars};

/// What a key outside a text-entry mode's own bindings does: the
/// image-paste chord with a payload suspends the mode into the naming
/// modal, preserving the in-progress text; everything else is the editing
/// engine's business and leaves the mode alone.
pub open spec fn editor_pass_through(
    a0: App,
    a1: App,
    key: KeyInput,
    clipboard_image: Option<Vec<u8>>,
) -> bool {
    &&& (ctrl_only(key, 'p') && clipboard_image is Some ==> {
        &&& (a1.state matches AppState::ImageNaming(prev, d)
            && *prev == image_prev_of(a0.state)
            && d@ == clipboard_image.unwrap()@)
        &&& (a1.saved_text_content matches Some(t) && t@ == a0.text_editor.text())
        &&& a1.modal_text_editor.text() == Seq::<char>::empty()
        &&& a1.text_editor == a0.text_editor
    })
    &&& (!(ctrl_only(key, 'p') && clipboard_image is Some) ==> {
        &&& a1.state == a0.state
        &&& exists|res: Option<KeyResult>| #[trigger] engine_key_post(
            key, a0.text_editor, a1.text_editor, a0.clipboard@, a1.clipboard@,
            clipboard_image, a0.text_editor.image_path is Some, res)
    })
}

impl App {
    /// Hand a key to the main editing engine.  The image-paste chord with a
    /// payload suspends the mode into the naming modal; everything else is
    /// the engine's business and leaves the mode alone.
    fn editor_default_key(&mut self, key: KeyInput, clipboard_image: Option<Vec<u8>>)
        requires
            old(self).wf(),
        ensures
            final(self).wf(),
            editor_pass_through(*old(self), *final(self), key, clipboard_image),
    {
        let has_payload = match &clipboard_image {
            Some(_) => true,
            None => false,
        };
        let is_paste_image = match key.code {
            KeyCode::Char(c) => c == 'p' && key.ctrl && !key.shift && !key.alt && !key.super_key,
            _ => false,
        };
        if is_paste_image && has_payload {
            match clipboard_image {
                Some(bytes) => {
                    self.transition_to_image_naming(bytes);
                },
                None => (),
            }
        } else {
            let res = self.text_editor.handle_key_event(
                key, &mut self.clipboard, clipboard_image);
            proof {
                let t1 = self.text_editor;
                assert(engine_key_post(key, old(self).text_editor, t1,
                    old(self).clipboard@, self.clipboard@, clipboard_image,
                    old(self).text_editor.image_path is Some, res));
            }
        }
    }
}

} // verus!

verus! {

impl App {
    /// Keys while creating a thread: the save chord or Enter submits the
    /// title, Escape abandons it, anything else edits.
    pub fn keys_create_thread(&mut self, key: KeyInput, clipboard_image: Option<Vec<u8>>) -> (r: Vec<Request>)
        requires
            old(self).wf(),
            old(self).state == AppState::CreateThread,
        ensures
            final(self).wf(),
            key.is_save_chord() || key == KeyInput::spec_plain(KeyCode::Enter)
                ==> save_post(*old(self), *final(self), r@),
            key == KeyInput::spec_plain(KeyCode::Esc) ==> {
                &&& final(self).state == AppState::ThreadList
                &&& final(self).text_editor.text() == Seq::<char>::empty()
                &&& r@.len() == 0
            },
            !(key.is_save_chord() || key == KeyInput::spec_plain(KeyCode::Enter)
                || key == KeyInput::spec_plain(KeyCode::Esc)) ==> r@.len() == 0
                && editor_pass_through(*old(self), *final(self), key, clipboard_image),
    {
        if key_is_save(&key) || key_is_plain(&key, KeyCode::Enter) {
            return self.handle_save_operation();
        }
        if key_is_plain(&key, KeyCode::Esc) {
            self.state = AppState::ThreadList;
            self.text_editor.clear();
            return Vec::new();
        }
        self.editor_default_key(key, clipboard_image);
        Vec::new()
    }

    /// Keys while renaming a thread: the save chord or Enter submits,
    /// Escape returns to the view the rename came from, anything else
    /// edits.
    pub fn keys_edit_thread(&mut self, key: KeyInput, tid: String, clipboard_image: Option<Vec<u8>>) -> (r: Vec<Request>)
        requires
            old(self).wf(),
            old(self).state == AppState::EditThread(tid),
        ensures
            final(self).wf(),
            key.is_save_chord() || key == KeyInput::spec_plain(KeyCode::Enter)
                ==> save_post(*old(self), *final(self), r@),
            key == KeyInput::spec_plain(KeyCode::Esc) ==> {
                &&& match old(self).current_thread {
                    Some(t) => if t.id@ == tid@ {
                        final(self).state matches AppState::ThreadView(x) && x@ == tid@
                    } else {
                        final(self).state == AppState::ThreadList
                    },
                    None => final(self).state == AppState::ThreadList,
                }
                &&& final(self).text_editor.text() == Seq::<char>::empty()
                &&& r@.len() == 0
            },
            !(key.is_save_chord() || key == KeyInput::spec_plain(KeyCode::Enter)
                || key == KeyInput::spec_plain(KeyCode::Esc)) ==> r@.len() == 0
                && editor_pass_through(*old(self), *final(self), key, clipboard_image),
    {
        if key_is_save(&key) || key_is_plain(&key, KeyCode::Enter) {
            return self.handle_save_operation();
        }
        if key_is_plain(&key, KeyCode::Esc) {
            let same = match &self.current_thread {
                Some(t) => str_eq(t.id.as_str(), tid.as_str()),
                None => false,
            };
            if same {
                self.state = AppState::ThreadView(tid);
            } else {
                self.state = AppState::ThreadList;
            }
            self.text_editor.clear();
            return Vec::new();
        }
        self.editor_default_key(key, clipboard_image);
        Vec::new()
    }

    /// Keys while composing a new entry: the save chord submits; Escape
    /// returns directly when nothing would be lost and asks for
    /// confirmation otherwise; Enter and the rest edit.
    pub fn keys_create_entry(&mut self, key: KeyInput, tid: String, clipboard_image: Option<Vec<u8>>) -> (r: Vec<Request>)
        requires
            old(self).wf(),
            old(self).state == AppState::CreateEntry(tid),
        ensures
            final(self).wf(),
            key.is_save_chord() ==> save_post(*old(self), *final(self), r@),
            key == KeyInput::spec_plain(KeyCode::Esc) ==> {
                &&& r@.len() == 0
                &&& if is_blank(old(self).text_editor.text()) {
                    &&& (final(self).state matches AppState::ThreadView(x) && x@ == tid@)
                    &&& final(self).text_editor.text() == Seq::<char>::empty()
                } else {
                    &&& (final(self).state matches AppState::ConfirmDiscardNewEntry(x)
                        && x@ == tid@)
                    &&& final(self).text_editor == old(self).text_editor
                }
            },
            key.code == KeyCode::Char('t') && key.ctrl ==> {
                &&& r@.len() == 0
                &&& final(self).state == old(self).state
                &&& (old(self).text_editor.image_path is Some ==> final(self).text_editor
                    == (TextEditor {
                        show_image_preview: !old(self).text_editor.show_image_preview,
                        ..old(self).text_editor
                    }))
                &&& (old(self).text_editor.image_path is None
                    ==> final(self).text_editor == old(self).text_editor)
            },
            key.code == KeyCode::Char('f') && key.ctrl ==> {
                &&& r@.len() == 0
                &&& final(self).state == old(self).state
                &&& final(self).text_editor == (TextEditor {
                    image_full_screen: !old(self).text_editor.image_full_screen,
                    ..old(self).text_editor
                })
            },
            !(key.is_save_chord() || key == KeyInput::spec_plain(KeyCode::Esc)
                || (key.code == KeyCode::Char('t') && key.ctrl)
                || (key.code == KeyCode::Char('f') && key.ctrl)) ==> r@.len() == 0
                && editor_pass_through(*old(self), *final(self), key, clipboard_image),
    {
        if key_is_save(&key) {
            return self.handle_save_operation();
        }
        if key_is_plain(&key, KeyCode::Esc) {
            let chars = self.text_editor.text_chars();
            if crate::text_util::chars_blank(&chars) {
                self.state = AppState::ThreadView(tid);
                self.text_editor.clear();
            } else {
                self.state = AppState::ConfirmDiscardNewEntry(tid);
            }
            return Vec::new();
        }
        if key_is_ctrl_char(&key, 't') {
            self.text_editor.toggle_image_preview();
            return Vec::new();
        }
        if key_is_ctrl_char(&key, 'f') {
            self.text_editor.toggle_image_full_screen();
            return Vec::new();
        }
        self.editor_default_key(key, clipboard_image);
        Vec::new()
    }

    /// Keys while editing an entry: the save chord submits; Escape compares
    /// the buffer byte for byte against the text captured when editing
    /// began — equal content returns directly, different content asks for
    /// confirmation; Enter and the rest edit.  Presentation wrapping plays
    /// no part in that comparison.
    pub fn keys_edit_entry(&mut self, key: KeyInput, tid: String, eid: String, clipboard_image: Option<Vec<u8>>) -> (r: Vec<Request>)
        requires
            old(self).wf(),
            old(self).state == AppState::EditEntry(tid, eid),
        ensures
            final(self).wf(),
            key.is_save_chord() ==> save_post(*old(self), *final(self), r@),
            key == KeyInput::spec_plain(KeyCode::Esc) ==> {
                &&& r@.len() == 0
                &&& ({
                    let cur = old(self).text_editor.text();
                    let dirty = match old(self).original_entry_content {
                        Some(orig) => cur != orig@,
                        None => !is_blank(cur),
                    };
                    if dirty {
                        &&& (final(self).state matches AppState::ConfirmDiscardEntryChanges(x, y)
                            && x@ == tid@ && y@ == eid@)
                        &&& final(self).text_editor == old(self).text_editor
                        &&& final(self).original_entry_content == old(self).original_entry_content
                    } else {
                        &&& (final(self).state matches AppState::ThreadView(x) && x@ == tid@)
                        &&& final(self).text_editor.text() == Seq::<char>::empty()
                        &&& final(self).original_entry_content is None
                    }
                })
            },
            key.code == KeyCode::Char('t') && key.ctrl ==> {
                &&& r@.len() == 0
                &&& final(self).state == old(self).state
                &&& (old(self).text_editor.image_path is Some ==> final(self).text_editor
                    == (TextEditor {
                        show_image_preview: !old(self).text_editor.show_image_preview,
                        ..old(self).text_editor
                    }))
                &&& (old(self).text_editor.image_path is None
                    ==> final(self).text_editor == old(self).text_editor)
            },
            key.code == KeyCode::Char('f') && key.ctrl ==> {
                &&& r@.len() == 0
                &&& final(self).state == old(self).state
                &&& final(self).text_editor == (TextEditor {
                    image_full_screen: !old(self).text_editor.image_full_screen,
                    ..old(self).text_editor
                })
            },
            !(key.is_save_chord() || key == KeyInput::spec_plain(KeyCode::Esc)
                || (key.code == KeyCode::Char('t') && key.ctrl)
                || (key.code == KeyCode::Char('f') && key.ctrl)) ==> r@.len() == 0
                && editor_pass_through(*old(self), *final(self), key, clipboard_image),
    {
        if key_is_save(&key) {
            return self.handle_save_operation();
        }
        if key_is_plain(&key, KeyCode::Esc) {
            let cur = self.text_editor.to_text();
            let dirty = match &self.original_entry_content {
                Some(orig) => !cur.eq(orig),
                None => {
                    let chars = self.text_editor.text_chars();
                    !crate::text_util::chars_blank(&chars)
                },
            };
            if dirty {
                self.state = AppState::ConfirmDiscardEntryChanges(tid, eid);
            } else {
                self.state = AppState::ThreadView(tid);
                self.text_editor.clear();
                self.original_entry_content = None;
            }
            return Vec::new();
        }
        if key_is_ctrl_char(&key, 't') {
            self.text_editor.toggle_image_preview();
            return Vec::new();
        }
        if key_is_ctrl_char(&key, 'f') {
            self.text_editor.toggle_image_full_screen();
            return Vec::new();
        }
        self.editor_default_key(key, clipboard_image);
        Vec::new()
    }

    /// A delete-thread confirmation takes only yes or no: `y` deletes and
    /// returns to the list, `n` or Escape cancels, everything else —
    /// pointer input included — is ignored.
    pub fn keys_confirm_delete_thread(&mut self, key: KeyInput, tid: String) -> (r: Vec<Request>)
        requires
            old(self).wf(),
            old(self).state == AppState::ConfirmDeleteThread(tid),
        ensures
            final(self).wf(),
            spec_is_yes(key) ==> final(self).state == AppState::ThreadList
                && r@.len() == 1
                && (r@[0] matches Request::DeleteThread(t) && t@ == tid@),
            spec_is_no(key) ==> final(self).state == AppState::ThreadList && r@.len() == 0,
            !spec_is_yes(key) && !spec_is_no(key) ==> *final(self) == *old(self) && r@.len() == 0,
    {
        let mut r: Vec<Request> = Vec::new();
        if key_is_yes(&key) {
            let AppState::ConfirmDeleteThread(id) = take_state(&mut self.state) else {
                return r;
            };
            r.push(Request::DeleteThread(id));
            self.state = AppState::ThreadList;
        } else if key_is_no(&key) {
            self.state = AppState::ThreadList;
        }
        r
    }

    /// A delete-entry confirmation, mirroring the thread one: back to the
    /// thread view either way.
    pub fn keys_confirm_delete_entry(&mut self, key: KeyInput, tid: String, eid: String) -> (r: Vec<Request>)
        requires
            old(self).wf(),
            old(self).state == AppState::ConfirmDeleteEntry(tid, eid),
        ensures
            final(self).wf(),
            spec_is_yes(key) ==> (final(self).state matches AppState::ThreadView(x) && x@ == tid@)
                && r@.len() == 1
                && (r@[0] matches Request::DeleteEntry(e) && e@ == eid@),
            spec_is_no(key) ==> (final(self).state matches AppState::ThreadView(x) && x@ == tid@)
                && r@.len() == 0,
            !spec_is_yes(key) && !spec_is_no(key) ==> *final(self) == *old(self) && r@.len() == 0,
    {
        let mut r: Vec<Request> = Vec::new();
        if key_is_yes(&key) {
            let AppState::ConfirmDeleteEntry(t, e) = take_state(&mut self.state) else {
                return r;
            };
            r.push(Request::DeleteEntry(e));
            self.state = AppState::ThreadView(t);
        } else if key_is_no(&key) {
            let AppState::ConfirmDeleteEntry(t, _e) = take_state(&mut self.state) else {
                return r;
            };
            self.state = AppState::ThreadView(t);
        }
        r
    }

    /// Discarding entry edits: `y` drops the buffer and returns to the
    /// view, `n` or Escape resumes editing, everything else is ignored.
    pub fn keys_confirm_discard_changes(&mut self, key: KeyInput, tid: String, eid: String) -> (r: Vec<Request>)
        requires
            old(self).wf(),
            old(self).state == AppState::ConfirmDiscardEntryChanges(tid, eid),
        ensures
            final(self).wf(),
            r@.len() == 0,
            spec_is_yes(key) ==> (final(self).state matches AppState::ThreadView(x) && x@ == tid@)
                && final(self).text_editor.text() == Seq::<char>::empty()
                && final(self).original_entry_content is None,
            spec_is_no(key) ==> (final(self).state matches AppState::EditEntry(x, y)
                && x@ == tid@ && y@ == eid@)
                && final(self).text_editor == old(self).text_editor,
            !spec_is_yes(key) && !spec_is_no(key) ==> *final(self) == *old(self),
    {
        if key_is_yes(&key) {
            let AppState::ConfirmDiscardEntryChanges(t, _e) = take_state(&mut self.state) else {
                return Vec::new();
            };
            self.state = AppState::ThreadView(t);
            self.text_editor.clear();
            self.original_entry_content = None;
        } else if key_is_no(&key) {
            let AppState::ConfirmDiscardEntryChanges(t, e) = take_state(&mut self.state) else {
                return Vec::new();
            };
            self.state = AppState::EditEntry(t, e);
        }
        Vec::new()
    }

    /// Discarding a new entry: `y` drops it and returns to the view, `n`
    /// or Escape resumes composing, everything else is ignored.
    pub fn keys_confirm_discard_new(&mut self, key: KeyInput, tid: String) -> (r: Vec<Request>)
        requires
            old(self).wf(),
            old(self).state == AppState::ConfirmDiscardNewEntry(tid),
        ensures
            final(self).wf(),
            r@.len() == 0,
            spec_is_yes(key) ==> (final(self).state matches AppState::ThreadView(x) && x@ == tid@)
                && final(self).text_editor.text() == Seq::<char>::empty(),
            spec_is_no(key) ==> (final(self).state matches AppState::CreateEntry(x) && x@ == tid@)
                && final(self).text_editor == old(self).text_editor,
            !spec_is_yes(key) && !spec_is_no(key) ==> *final(self) == *old(self),
    {
        if key_is_yes(&key) {
            let AppState::ConfirmDiscardNewEntry(t) = take_state(&mut self.state) else {
                return Vec::new();
            };
            self.state = AppState::ThreadView(t);
            self.text_editor.clear();
        } else if key_is_no(&key) {
            let AppState::ConfirmDiscardNewEntry(t) = take_state(&mut self.state) else {
                return Vec::new();
            };
            self.state = AppState::CreateEntry(t);
        }
        Vec::new()
    }

    /// The character-limit modal: Enter or Escape returns to the suspended
    /// mode, everything else is ignored.
    pub fn keys_character_limit(&mut self, key: KeyInput) -> (r: Vec<Request>)
        requires
            old(self).wf(),
            old(self).state is CharacterLimitError,
        ensures
            final(self).wf(),
            r@.len() == 0,
            key == KeyInput::spec_plain(KeyCode::Enter)
                || key == KeyInput::spec_plain(KeyCode::Esc) ==> (
                old(self).state matches AppState::CharacterLimitError(prev)
                    && final(self).state == *prev),
            !(key == KeyInput::spec_plain(KeyCode::Enter)
                || key == KeyInput::spec_plain(KeyCode::Esc)) ==> *final(self) == *old(self),
    {
        if key_is_plain(&key, KeyCode::Enter) || key_is_plain(&key, KeyCode::Esc) {
            let AppState::CharacterLimitError(prev) = take_state(&mut self.state) else {
                return Vec::new();
            };
            self.state = *prev;
        }
        Vec::new()
    }

    /// The image-naming modal: Enter persists the pending payload under the
    /// typed name, scoped to the editing context; Escape restores the
    /// suspended mode and its preserved text and persists nothing; other
    /// keys edit the filename buffer.
    pub fn keys_image_naming(&mut self, key: KeyInput, clipboard_image: Option<Vec<u8>>) -> (r: Vec<Request>)
        requires
            old(self).wf(),
            old(self).state is ImageNaming,
        ensures
            final(self).wf(),
            key == KeyInput::spec_plain(KeyCode::Enter) ==> (
                old(self).state matches AppState::ImageNaming(prev, bytes) && {
                    let name = trim_of(sans_newlines(old(self).modal_text_editor.text()));
                    if name.len() == 0 {
                        r@.len() == 0 && final(self).state == old(self).state
                    } else {
                        &&& final(self).state == old(self).state
                        &&& r@.len() == 1
                        &&& (r@[0] matches Request::SaveImage {
                                bytes: b, filename: f, thread_id: t, entry_id: e }
                            && b@ == bytes@ && f@ == name
                            && (match *prev {
                                AppState::CreateEntry(x) => (t matches Some(tv) && tv@ == x@)
                                    && e is None,
                                AppState::EditEntry(x, y) => (t matches Some(tv) && tv@ == x@)
                                    && (e matches Some(ev) && ev@ == y@),
                                _ => t is None && e is None,
                            }))
                    }
                }),
            key == KeyInput::spec_plain(KeyCode::Esc) ==> (
                old(self).state matches AppState::ImageNaming(prev, _b) && {
                    &&& r@.len() == 0
                    &&& final(self).state == *prev
                    &&& final(self).saved_text_content is None
                    &&& match old(self).saved_text_content {
                        Some(t) => final(self).text_editor.text() == t@,
                        None => final(self).text_editor == old(self).text_editor,
                    }
                }),
            !(key == KeyInput::spec_plain(KeyCode::Enter)
                || key == KeyInput::spec_plain(KeyCode::Esc)) ==> {
                &&& r@.len() == 0
                &&& final(self).state == old(self).state
                &&& final(self).text_editor == old(self).text_editor
                &&& exists|res: Option<KeyResult>| #[trigger] crate::key_handler::engine_key_post(
                    key, old(self).modal_text_editor, final(self).modal_text_editor,
                    old(self).clipboard@, final(self).clipboard@, clipboard_image,
                    old(self).modal_text_editor.image_path is Some, res)
            },
    {
        let mut r: Vec<Request> = Vec::new();
        if key_is_plain(&key, KeyCode::Enter) {
            let chars = self.modal_text_editor.text_chars();
            let stripped = remove_newlines(&chars);
            let trimmed = trim_chars(&stripped);
            if trimmed.len() > 0 {
                let filename = crate::text_editor::chars_to_string(&trimmed);
                match &self.state {
                    AppState::ImageNaming(prev, bytes) => {
                        let payload = crate::state::clone_bytes(bytes);
                        let (t, e): (Option<String>, Option<String>) = match &**prev {
                            AppState::CreateEntry(x) => (Some(x.clone()), None),
                            AppState::EditEntry(x, y) => (Some(x.clone()), Some(y.clone())),
                            _ => (None, None),
                        };
                        r.push(Request::SaveImage {
                            bytes: payload,
                            filename,
                            thread_id: t,
                            entry_id: e,
                        });
                    },
                    _ => (),
                }
            }
            return r;
        }
        if key_is_plain(&key, KeyCode::Esc) {
            let AppState::ImageNaming(prev, _bytes) = take_state(&mut self.state) else {
                return r;
            };
            self.state = *prev;
            match &self.saved_text_content {
                Some(t) => {
                    let text = t.clone();
                    self.text_editor.set_text(text.as_str());
                    proof {
                        crate::text_editor::lemma_join_split(text@);
                    }
                },
                None => (),
            }
            self.saved_text_content = None;
            return r;
        }
        let res = self.modal_text_editor.handle_key_event(
            key, &mut self.clipboard, clipboard_image);
        proof {
            assert(crate::key_handler::engine_key_post(
                key, old(self).modal_text_editor, self.modal_text_editor,
                old(self).clipboard@, self.clipboard@, clipboard_image,
                old(self).modal_text_editor.image_path is Some, res));
        }
        r
    }
}

/// The keys a confirmation accepts as yes.
pub open spec fn spec_is_yes(key: KeyInput) -> bool {
    (key.code == KeyCode::Char('y') || key.code == KeyCode::Char('Y'))
        && !key.ctrl && !key.alt && !key.super_key
}

/// The keys a confirmation accepts as no.
pub open spec fn spec_is_no(key: KeyInput) -> bool {
    ((key.code == KeyCode::Char('n') || key.code == KeyCode::Char('N'))
        && !key.ctrl && !key.alt && !key.super_key)
        || key == KeyInput::spec_plain(KeyCode::Esc)
}

fn key_is_yes(key: &KeyInput) -> (r: bool)
    ensures
        r == spec_is_yes(*key),
{
    match key.code {
        KeyCode::Char(c) => (c == 'y' || c == 'Y') && !key.ctrl && !key.alt && !key.super_key,
        _ => false,
    }
}

fn key_is_no(key: &KeyInput) -> (r: bool)
    ensures
        r == spec_is_no(*key),
{
    match key.code {
        KeyCode::Char(c) => (c == 'n' || c == 'N') && !key.ctrl && !key.alt && !key.super_key,
        KeyCode::Esc => !key.ctrl && !key.shift && !key.alt && !key.super_key,
        _ => false,
    }
}

fn key_is_plain(key: &KeyInput, code: KeyCode) -> (r: bool)
    ensures
        r == (*key == KeyInput::spec_plain(code)),
{
    key.code == code && !key.ctrl && !key.shift && !key.alt && !key.super_key
}

fn key_is_save(key: &KeyInput) -> (r: bool)
    ensures
        r == key.is_save_chord(),
{
    (key.code == KeyCode::Char('s') || key.code == KeyCode::Char('S'))
        && (key.ctrl || key.super_key)
}

fn key_is_ctrl_char(key: &KeyInput, c: char) -> (r: bool)
    ensures
        r == (key.code == KeyCode::Char(c) && key.ctrl),
{
    key.code == KeyCode::Char(c) && key.ctrl
}

} // verus!

verus! {

use crate::input::{MouseInput, MouseKind};

impl App {
    /// One key event enters the state machine: it is dispatched on the
    /// current mode, the mode-appropriate transition runs, and a redraw is
    /// requested.  The contract restates every mode's behaviour at this one
    /// boundary: the confirmation modals react to nothing but yes and no,
    /// the save chord is handled per `save_post`, Escape from an edit mode
    /// discards silently only when the content is byte-for-byte what
    /// editing started from, and the keys a mode does not claim go to the
    /// editing engine per `editor_pass_through`.
    #[verifier::rlimit(100)]
    pub fn handle_key_event(&mut self, key: KeyInput, clipboard_image: Option<Vec<u8>>) -> (r: Vec<Request>)
        requires
            old(self).wf(),
        ensures
            final(self).wf(),
            final(self).needs_redraw,
            old(self).state is ThreadList ==> {
                &&& (key == KeyInput::spec_plain(KeyCode::Char('q'))
                    ==> final(self).should_quit && r@.len() == 0)
                &&& (key == KeyInput::spec_plain(KeyCode::Char('n')) ==> {
                    &&& final(self).state == AppState::CreateThread
                    &&& final(self).text_editor.text() == Seq::<char>::empty()
                    &&& r@.len() == 0
                })
                &&& (key == KeyInput::spec_plain(KeyCode::Char('d')) ==> r@.len() == 1
                    && (r@[0] matches Request::CreateThread(t)
                        && crate::clock::is_datestamp_title(t@))
                    && final(self).state == AppState::ThreadList)
                &&& (key == KeyInput::spec_plain(KeyCode::Up) ==> r@.len() == 0
                    && final(self).selected_thread_index == (
                        if old(self).selected_thread_index > 0 {
                            old(self).selected_thread_index - 1
                        } else {
                            0int
                        }))
                &&& (key == KeyInput::spec_plain(KeyCode::Down) ==> r@.len() == 0
                    && final(self).selected_thread_index == (
                        if old(self).selected_thread_index + 1 < old(self).threads@.len() {
                            old(self).selected_thread_index + 1
                        } else {
                            old(self).selected_thread_index as int
                        }))
                &&& (key == KeyInput::spec_plain(KeyCode::Enter) ==> (
                    if old(self).selected_thread_index < old(self).threads@.len() {
                        let id = old(self).threads@[old(self).selected_thread_index as int].id@;
                        &&& r@.len() == 1
                        &&& (r@[0] matches Request::LoadThread(t) && t@ == id)
                        &&& (final(self).state matches AppState::ThreadView(t) && t@ == id)
                    } else {
                        r@.len() == 0 && final(self).state == AppState::ThreadList
                    }))
                &&& (key == KeyInput::spec_plain(KeyCode::Char('r')) ==> (
                    if old(self).selected_thread_index < old(self).threads@.len() {
                        let t = old(self).threads@[old(self).selected_thread_index as int];
                        &&& (final(self).state matches AppState::EditThread(x) && x@ == t.id@)
                        &&& final(self).text_editor.text() == t.title@
                        &&& r@.len() == 0
                    } else {
                        r@.len() == 0 && final(self).state == AppState::ThreadList
                    }))
                &&& (key == KeyInput::spec_plain(KeyCode::Delete)
                    || key == KeyInput::spec_plain(KeyCode::Backspace) ==> (
                    if old(self).selected_thread_index < old(self).threads@.len() {
                        let id = old(self).threads@[old(self).selected_thread_index as int].id@;
                        r@.len() == 0 && (final(self).state
                            matches AppState::ConfirmDeleteThread(t) && t@ == id)
                    } else {
                        r@.len() == 0 && final(self).state == AppState::ThreadList
                    }))
            },
            old(self).state matches AppState::ThreadView(tid) ==> {
                &&& (key == KeyInput::spec_plain(KeyCode::Char('q'))
                    || key == KeyInput::spec_plain(KeyCode::Esc) ==> {
                    &&& final(self).state == AppState::ThreadList
                    &&& final(self).current_thread is None
                    &&& final(self).selected_entry_index == 0
                    &&& final(self).cache_keys().len() == 0
                    &&& r@.len() == 0
                })
                &&& (key == KeyInput::spec_plain(KeyCode::Char('n')) ==> {
                    &&& (final(self).state matches AppState::CreateEntry(t) && t@ == tid@)
                    &&& final(self).current_entry_image_path is None
                    &&& final(self).text_editor.text() == Seq::<char>::empty()
                    &&& r@.len() == 0
                })
                &&& (key == KeyInput::spec_plain(KeyCode::Char('r')) ==> (
                    match old(self).current_thread {
                        Some(t) => {
                            &&& (final(self).state matches AppState::EditThread(x) && x@ == tid@)
                            &&& final(self).text_editor.text() == t.title@
                            &&& r@.len() == 0
                        },
                        None => r@.len() == 0,
                    }))
                &&& (key.code == KeyCode::Up && key.ctrl && key.shift ==> (
                    match old(self).current_thread {
                        Some(t) => if 0 < old(self).selected_entry_index < t.entries@.len()
                            && t.entries@.len() + 1 <= i32::MAX {
                            r@.len() == 1 && r@[0] is ReorderEntries
                        } else {
                            r@.len() == 0
                        },
                        None => r@.len() == 0,
                    }))
                &&& (key.code == KeyCode::Down && key.ctrl && key.shift ==> (
                    match old(self).current_thread {
                        Some(t) => if old(self).selected_entry_index + 1 < t.entries@.len()
                            && t.entries@.len() + 1 <= i32::MAX {
                            r@.len() == 1 && r@[0] is ReorderEntries
                        } else {
                            r@.len() == 0
                        },
                        None => r@.len() == 0,
                    }))
                &&& (key == KeyInput::spec_plain(KeyCode::Up) ==> r@.len() == 0
                    && final(self).selected_entry_index == (
                        if old(self).selected_entry_index > 0 {
                            old(self).selected_entry_index - 1
                        } else {
                            0int
                        }))
                &&& (key == KeyInput::spec_plain(KeyCode::Down) ==> r@.len() == 0
                    && final(self).selected_entry_index == (
                        match old(self).current_thread {
                            Some(t) => if old(self).selected_entry_index + 1 < t.entries@.len() {
                                old(self).selected_entry_index + 1
                            } else {
                                old(self).selected_entry_index as int
                            },
                            None => old(self).selected_entry_index as int,
                        }))
                &&& (key == KeyInput::spec_plain(KeyCode::Enter)
                    || key == KeyInput::spec_plain(KeyCode::Char('e')) ==> (
                    match old(self).current_thread {
                        Some(t) => if old(self).selected_entry_index < t.entries@.len() {
                            let e = t.entries@[old(self).selected_entry_index as int];
                            &&& (final(self).state matches AppState::EditEntry(x, y)
                                && x@ == tid@ && y@ == e.id@)
                            &&& final(self).text_editor.text() == e.content@
                            &&& (final(self).original_entry_content matches Some(c)
                                && c@ == e.content@)
                            &&& r@.len() == 0
                        } else {
                            r@.len() == 0
                        },
                        None => r@.len() == 0,
                    }))
                &&& (key == KeyInput::spec_plain(KeyCode::Delete)
                    || key == KeyInput::spec_plain(KeyCode::Backspace) ==> (
                    match old(self).current_thread {
                        Some(t) => if old(self).selected_entry_index < t.entries@.len() {
                            let e = t.entries@[old(self).selected_entry_index as int];
                            r@.len() == 0 && (final(self).state
                                matches AppState::ConfirmDeleteEntry(x, y)
                                && x@ == tid@ && y@ == e.id@)
                        } else {
                            r@.len() == 0
                        },
                        None => r@.len() == 0,
                    }))
                &&& (key.code == KeyCode::Char('t') && key.ctrl ==> r@.len() == 0
                    && final(self).thread_view_image_preview_visible
                        == !old(self).thread_view_image_preview_visible)
                &&& (key == KeyInput::spec_plain(KeyCode::Char('x')) ==> r@.len() == 1
                    && (r@[0] matches Request::ExportThread(t) && t@ == tid@))
                &&& (key == KeyInput::spec_plain(KeyCode::PageUp) ==> r@.len() == 0
                    && final(self).preview_scroll_offset == (
                        if old(self).preview_scroll_offset >= 5 {
                            old(self).preview_scroll_offset - 5
                        } else {
                            0int
                        }))
                &&& (key == KeyInput::spec_plain(KeyCode::PageDown) ==> r@.len() == 0
                    && final(self).preview_scroll_offset == (
                        if old(self).preview_scroll_offset + 5 <= u16::MAX {
                            old(self).preview_scroll_offset + 5
                        } else {
                            u16::MAX as int
                        }))
            },
            old(self).state is CreateThread ==> {
                &&& (key.is_save_chord() || key == KeyInput::spec_plain(KeyCode::Enter)
                    ==> save_post(*old(self),
                            App { needs_redraw: old(self).needs_redraw, ..*final(self) }, r@)
                        || save_post(*old(self), *final(self), r@))
                &&& (key == KeyInput::spec_plain(KeyCode::Esc) ==> {
                    &&& final(self).state == AppState::ThreadList
                    &&& final(self).text_editor.text() == Seq::<char>::empty()
                    &&& r@.len() == 0
                })
                &&& (!(key.is_save_chord() || key == KeyInput::spec_plain(KeyCode::Enter)
                    || key == KeyInput::spec_plain(KeyCode::Esc)) ==> r@.len() == 0
                    && editor_pass_through(*old(self), *final(self), key, clipboard_image))
            },
            old(self).state matches AppState::EditThread(tid) ==> {
                &&& (key.is_save_chord() || key == KeyInput::spec_plain(KeyCode::Enter)
                    ==> save_post(*old(self),
                            App { needs_redraw: old(self).needs_redraw, ..*final(self) }, r@)
                        || save_post(*old(self), *final(self), r@))
                &&& (key == KeyInput::spec_plain(KeyCode::Esc) ==> {
                    &&& match old(self).current_thread {
                        Some(t) => if t.id@ == tid@ {
                            final(self).state matches AppState::ThreadView(x) && x@ == tid@
                        } else {
                            final(self).state == AppState::ThreadList
                        },
                        None => final(self).state == AppState::ThreadList,
                    }
                    &&& final(self).text_editor.text() == Seq::<char>::empty()
                    &&& r@.len() == 0
                })
                &&& (!(key.is_save_chord() || key == KeyInput::spec_plain(KeyCode::Enter)
                    || key == KeyInput::spec_plain(KeyCode::Esc)) ==> r@.len() == 0
                    && editor_pass_through(*old(self), *final(self), key, clipboard_image))
            },
            old(self).state matches AppState::CreateEntry(tid) ==> {
                &&& (key.is_save_chord()
                    ==> save_post(*old(self),
                            App { needs_redraw: old(self).needs_redraw, ..*final(self) }, r@)
                        || save_post(*old(self), *final(self), r@))
                &&& (key == KeyInput::spec_plain(KeyCode::Esc) ==> {
                    &&& r@.len() == 0
                    &&& if is_blank(old(self).text_editor.text()) {
                        &&& (final(self).state matches AppState::ThreadView(x) && x@ == tid@)
                        &&& final(self).text_editor.text() == Seq::<char>::empty()
                    } else {
                        &&& (final(self).state matches AppState::ConfirmDiscardNewEntry(x)
                            && x@ == tid@)
                        &&& final(self).text_editor == old(self).text_editor
                    }
                })
                &&& (key.code == KeyCode::Char('t') && key.ctrl ==> r@.len() == 0
                    && (old(self).text_editor.image_path is Some ==> final(self).text_editor
                        == (TextEditor {
                            show_image_preview: !old(self).text_editor.show_image_preview,
                            ..old(self).text_editor
                        }))
                    && (old(self).text_editor.image_path is None
                        ==> final(self).text_editor == old(self).text_editor))
                &&& (key.code == KeyCode::Char('f') && key.ctrl ==> r@.len() == 0
                    && final(self).text_editor == (TextEditor {
                        image_full_screen: !old(self).text_editor.image_full_screen,
                        ..old(self).text_editor
                    }))
                &&& (!(key.is_save_chord() || key == KeyInput::spec_plain(KeyCode::Esc)
                    || (key.code == KeyCode::Char('t') && key.ctrl)
                    || (key.code == KeyCode::Char('f') && key.ctrl)) ==> r@.len() == 0
                    && editor_pass_through(*old(self), *final(self), key, clipboard_image))
            },
            old(self).state matches AppState::EditEntry(tid, eid) ==> {
                &&& (key.is_save_chord()
                    ==> save_post(*old(self),
                            App { needs_redraw: old(self).needs_redraw, ..*final(self) }, r@)
                        || save_post(*old(self), *final(self), r@))
                &&& (key == KeyInput::spec_plain(KeyCode::Esc) ==> {
                    &&& r@.len() == 0
                    &&& ({
                        let cur = old(self).text_editor.text();
                        let dirty = match old(self).original_entry_content {
                            Some(orig) => cur != orig@,
                            None => !is_blank(cur),
                        };
                        if dirty {
                            &&& (final(self).state
                                matches AppState::ConfirmDiscardEntryChanges(x, y)
                                && x@ == tid@ && y@ == eid@)
                            &&& final(self).text_editor == old(self).text_editor
                            &&& final(self).original_entry_content
                                == old(self).original_entry_content
                        } else {
                            &&& (final(self).state matches AppState::ThreadView(x) && x@ == tid@)
                            &&& final(self).text_editor.text() == Seq::<char>::empty()
                            &&& final(self).original_entry_content is None
                        }
                    })
                })
                &&& (key.code == KeyCode::Char('t') && key.ctrl ==> r@.len() == 0
                    && (old(self).text_editor.image_path is Some ==> final(self).text_editor
                        == (TextEditor {
                            show_image_preview: !old(self).text_editor.show_image_preview,
                            ..old(self).text_editor
                        }))
                    && (old(self).text_editor.image_path is None
                        ==> final(self).text_editor == old(self).text_editor))
                &&& (key.code == KeyCode::Char('f') && key.ctrl ==> r@.len() == 0
                    && final(self).text_editor == (TextEditor {
                        image_full_screen: !old(self).text_editor.image_full_screen,
                        ..old(self).text_editor
                    }))
                &&& (!(key.is_save_chord() || key == KeyInput::spec_plain(KeyCode::Esc)
                    || (key.code == KeyCode::Char('t') && key.ctrl)
                    || (key.code == KeyCode::Char('f') && key.ctrl)) ==> r@.len() == 0
                    && editor_pass_through(*old(self), *final(self), key, clipboard_image))
            },
            old(self).state matches AppState::ConfirmDeleteThread(tid) ==> {
                &&& (spec_is_yes(key) ==> final(self).state == AppState::ThreadList
                    && r@.len() == 1
                    && (r@[0] matches Request::DeleteThread(t) && t@ == tid@))
                &&& (spec_is_no(key) ==> final(self).state == AppState::ThreadList
                    && r@.len() == 0)
                &&& (!spec_is_yes(key) && !spec_is_no(key) ==> r@.len() == 0
                    && *final(self) == (App { needs_redraw: true, ..*old(self) }))
            },
            old(self).state matches AppState::ConfirmDeleteEntry(tid, eid) ==> {
                &&& (spec_is_yes(key) ==> (final(self).state matches AppState::ThreadView(x)
                        && x@ == tid@)
                    && r@.len() == 1
                    && (r@[0] matches Request::DeleteEntry(e) && e@ == eid@))
                &&& (spec_is_no(key) ==> (final(self).state matches AppState::ThreadView(x)
                        && x@ == tid@) && r@.len() == 0)
                &&& (!spec_is_yes(key) && !spec_is_no(key) ==> r@.len() == 0
                    && *final(self) == (App { needs_redraw: true, ..*old(self) }))
            },
            old(self).state matches AppState::ConfirmDiscardEntryChanges(tid, eid) ==> {
                &&& r@.len() == 0
                &&& (spec_is_yes(key) ==> (final(self).state matches AppState::ThreadView(x)
                        && x@ == tid@)
                    && final(self).text_editor.text() == Seq::<char>::empty()
                    && final(self).original_entry_content is None)
                &&& (spec_is_no(key) ==> (final(self).state matches AppState::EditEntry(x, y)
                        && x@ == tid@ && y@ == eid@)
                    && final(self).text_editor == old(self).text_editor)
                &&& (!spec_is_yes(key) && !spec_is_no(key)
                    ==> *final(self) == (App { needs_redraw: true, ..*old(self) }))
            },
            old(self).state matches AppState::ConfirmDiscardNewEntry(tid) ==> {
                &&& r@.len() == 0
                &&& (spec_is_yes(key) ==> (final(self).state matches AppState::ThreadView(x)
                        && x@ == tid@)
                    && final(self).text_editor.text() == Seq::<char>::empty())
                &&& (spec_is_no(key) ==> (final(self).state matches AppState::CreateEntry(x)
                        && x@ == tid@)
                    && final(self).text_editor == old(self).text_editor)
                &&& (!spec_is_yes(key) && !spec_is_no(key)
                    ==> *final(self) == (App { needs_redraw: true, ..*old(self) }))
            },
            old(self).state is ImageNaming ==> {
                &&& (key == KeyInput::spec_plain(KeyCode::Enter) ==> (
                    old(self).state matches AppState::ImageNaming(prev, bytes) && {
                        let name = trim_of(sans_newlines(old(self).modal_text_editor.text()));
                        if name.len() == 0 {
                            r@.len() == 0 && final(self).state == old(self).state
                        } else {
                            &&& final(self).state == old(self).state
                            &&& r@.len() == 1
                            &&& (r@[0] matches Request::SaveImage {
                                    bytes: b, filename: f, thread_id: t, entry_id: e }
                                && b@ == bytes@ && f@ == name
                                && (match *prev {
                                    AppState::CreateEntry(x) => (t matches Some(tv) && tv@ == x@)
                                        && e is None,
                                    AppState::EditEntry(x, y) => (t matches Some(tv) && tv@ == x@)
                                        && (e matches Some(ev) && ev@ == y@),
                                    _ => t is None && e is None,
                                }))
                        }
                    }))
                &&& (key == KeyInput::spec_plain(KeyCode::Esc) ==> (
                    old(self).state matches AppState::ImageNaming(prev, _b) && {
                        &&& r@.len() == 0
                        &&& final(self).state == *prev
                        &&& final(self).saved_text_content is None
                        &&& match old(self).saved_text_content {
                            Some(t) => final(self).text_editor.text() == t@,
                            None => final(self).text_editor == old(self).text_editor,
                        }
                    }))
                &&& (!(key == KeyInput::spec_plain(KeyCode::Enter)
                    || key == KeyInput::spec_plain(KeyCode::Esc)) ==> {
                    &&& r@.len() == 0
                    &&& final(self).state == old(self).state
                    &&& final(self).text_editor == old(self).text_editor
                    &&& exists|res: Option<KeyResult>|
                        #[trigger] crate::key_handler::engine_key_post(
                            key, old(self).modal_text_editor, final(self).modal_text_editor,
                            old(self).clipboard@, final(self).clipboard@, clipboard_image,
                            old(self).modal_text_editor.image_path is Some, res)
                })
            },
            old(self).state matches AppState::ConfirmImageReplacement(prev, _b, _p) ==> {
                &&& r@.len() == 0
                &&& (key == KeyInput::spec_plain(KeyCode::Esc) ==> final(self).state == *prev)
                &&& (!(key == KeyInput::spec_plain(KeyCode::Esc))
                    ==> final(self).state == old(self).state)
            },
            old(self).state matches AppState::ConfirmImageRemoval(prev, _p) ==> {
                &&& r@.len() == 0
                &&& (spec_is_yes(key) ==> {
                    &&& final(self).state == *prev
                    &&& final(self).current_entry_image_path is None
                    &&& final(self).text_editor.image_path is None
                    &&& !final(self).text_editor.show_image_preview
                })
                &&& (spec_is_no(key) ==> final(self).state == *prev
                    && final(self).current_entry_image_path
                        == old(self).current_entry_image_path
                    && final(self).text_editor == old(self).text_editor)
                &&& (!spec_is_yes(key) && !spec_is_no(key)
                    ==> *final(self) == (App { needs_redraw: true, ..*old(self) }))
            },
            old(self).state matches AppState::CharacterLimitError(prev) ==> {
                &&& r@.len() == 0
                &&& (key == KeyInput::spec_plain(KeyCode::Enter)
                        || key == KeyInput::spec_plain(KeyCode::Esc)
                    ==> final(self).state == *prev)
                &&& (!(key == KeyInput::spec_plain(KeyCode::Enter)
                        || key == KeyInput::spec_plain(KeyCode::Esc))
                    ==> *final(self) == (App { needs_redraw: true, ..*old(self) }))
            },
    {
        let st = take_state(&mut self.state);
        let r = match st {
            AppState::ThreadList => self.keys_thread_list(key),
            AppState::ThreadView(tid) => self.keys_thread_view(key, tid),
            AppState::CreateThread => {
                self.state = AppState::CreateThread;
                self.keys_create_thread(key, clipboard_image)
            },
            AppState::EditThread(tid) => {
                let t2 = tid.clone();
                self.state = AppState::EditThread(tid);
                self.keys_edit_thread(key, t2, clipboard_image)
            },
            AppState::CreateEntry(tid) => {
                let t2 = tid.clone();
                self.state = AppState::CreateEntry(tid);
                self.keys_create_entry(key, t2, clipboard_image)
            },
            AppState::EditEntry(tid, eid) => {
                let t2 = tid.clone();
                let e2 = eid.clone();
                self.state = AppState::EditEntry(tid, eid);
                self.keys_edit_entry(key, t2, e2, clipboard_image)
            },
            AppState::ConfirmDeleteThread(tid) => {
                let t2 = tid.clone();
                self.state = AppState::ConfirmDeleteThread(tid);
                self.keys_confirm_delete_thread(key, t2)
            },
            AppState::ConfirmDeleteEntry(tid, eid) => {
                let t2 = tid.clone();
                let e2 = eid.clone();
                self.state = AppState::ConfirmDeleteEntry(tid, eid);
                self.keys_confirm_delete_entry(key, t2, e2)
            },
            AppState::ConfirmDiscardEntryChanges(tid, eid) => {
                let t2 = tid.clone();
                let e2 = eid.clone();
                self.state = AppState::ConfirmDiscardEntryChanges(tid, eid);
                self.keys_confirm_discard_changes(key, t2, e2)
            },
            AppState::ConfirmDiscardNewEntry(tid) => {
                let t2 = tid.clone();
                self.state = AppState::ConfirmDiscardNewEntry(tid);
                self.keys_confirm_discard_new(key, t2)
            },
            AppState::ImageNaming(prev, bytes) => {
                self.state = AppState::ImageNaming(prev, bytes);
                self.keys_image_naming(key, clipboard_image)
            },
            AppState::ConfirmImageReplacement(prev, bytes, path) => {
                if key_is_plain(&key, KeyCode::Esc) {
                    self.state = *prev;
                } else {
                    self.state = AppState::ConfirmImageReplacement(prev, bytes, path);
                }
                Vec::new()
            },
            AppState::ConfirmImageRemoval(prev, path) => {
                if key_is_yes(&key) {
                    self.current_entry_image_path = None;
                    self.text_editor.image_path = None;
                    self.text_editor.show_image_preview = false;
                    self.state = *prev;
                } else if key_is_no(&key) {
                    self.state = *prev;
                } else {
                    self.state = AppState::ConfirmImageRemoval(prev, path);
                }
                Vec::new()
            },
            AppState::CharacterLimitError(prev) => {
                self.state = AppState::CharacterLimitError(prev);
                self.keys_character_limit(key)
            },
        };
        self.needs_redraw = true;
        r
    }

    /// A terminal resize: the wrap width is recomputed at once and the
    /// redraw is left to the debounce window.
    pub fn handle_resize(&mut self, width: u16, now_ms: u64)
        requires
            old(self).wf(),
        ensures
            final(self).wf(),
            final(self).wrap_width == if width >= 32 { width - 12 } else { 20int },
            final(self).text_editor.wrap_width == final(self).wrap_width,
            final(self).text_editor.wrap_on,
            final(self).last_resize_ms == Some(now_ms),
            final(self).needs_redraw,
    {
        self.calculate_wrap_width(width);
        let w = self.wrap_width;
        self.text_editor.set_wrap_width(w);
        self.last_resize_ms = Some(now_ms);
        self.needs_redraw = true;
    }

    /// Whether the resize debounce window has passed: only then is the
    /// coalesced redraw performed.
    pub fn resize_debounce_elapsed(&self, now_ms: u64) -> (r: bool)
        ensures
            r == match self.last_resize_ms {
                Some(t) => t + self.resize_debounce_ms <= now_ms,
                None => false,
            },
    {
        match self.last_resize_ms {
            Some(t) => {
                if t <= now_ms {
                    now_ms - t >= self.resize_debounce_ms
                } else {
                    false
                }
            },
            None => false,
        }
    }

    /// The debounced resize redraw was performed.
    pub fn finish_resize(&mut self)
        requires
            old(self).wf(),
        ensures
            final(self).wf(),
            *final(self) == (App { last_resize_ms: None, ..*old(self) }),
    {
        self.last_resize_ms = None;
    }
}

} // verus!

verus! {

impl App {
    /// Whether the pointer sits on the submit button drawn this frame.
    pub fn is_click_on_submit_button(&self, column: u16, row: u16) -> (r: bool)
        ensures
            r == match self.submit_button_area {
                Some(a) => a.spec_contains(column, row),
                None => false,
            },
    {
        match self.submit_button_area {
            Some(a) => a.contains(column, row),
            None => false,
        }
    }

    /// Scroll wheel throttling: a scroll event is acted on only when the
    /// minimum inter-event interval has passed since the last one.
    fn scroll_allowed(&mut self, now_ms: u64) -> (r: bool)
        requires
            old(self).wf(),
        ensures
            final(self).wf(),
            r == (now_ms >= old(self).last_scroll_ms
                && now_ms - old(self).last_scroll_ms >= old(self).scroll_throttle_ms),
            r ==> *final(self) == (App { last_scroll_ms: now_ms, ..*old(self) }),
            !r ==> *final(self) == *old(self),
    {
        if now_ms >= self.last_scroll_ms
            && now_ms - self.last_scroll_ms >= self.scroll_throttle_ms {
            self.last_scroll_ms = now_ms;
            true
        } else {
            false
        }
    }

    /// A pointer event enters the state machine.  In the text-entry modes a
    /// press on the submit button saves and anything else goes to the
    /// editing engine; in the list views a press selects or opens the item
    /// under the pointer; wheel scrolling is throttled; the confirmation
    /// and error modals ignore pointer input entirely.
    #[verifier::rlimit(60)]
    pub fn handle_mouse(&mut self, mouse: MouseInput, now_ms: u64) -> (r: Vec<Request>)
        requires
            old(self).wf(),
        ensures
            final(self).wf(),
            old(self).state is ConfirmDeleteThread || old(self).state is ConfirmDeleteEntry
                || old(self).state is ConfirmDiscardEntryChanges
                || old(self).state is ConfirmDiscardNewEntry
                || old(self).state is CharacterLimitError
                || old(self).state is ConfirmImageReplacement
                || old(self).state is ConfirmImageRemoval
                ==> *final(self) == *old(self) && r@.len() == 0,
            mouse.kind == MouseKind::Moved ==> *final(self) == *old(self) && r@.len() == 0,
            old(self).state is CreateThread || old(self).state is EditThread
                || old(self).state is CreateEntry || old(self).state is EditEntry ==> {
                &&& (mouse.kind == MouseKind::Down && (match old(self).submit_button_area {
                    Some(a) => a.spec_contains(mouse.column, mouse.row),
                    None => false,
                }) ==> save_post(*old(self),
                        App { needs_redraw: old(self).needs_redraw, ..*final(self) }, r@)
                    || save_post(*old(self), *final(self), r@))
                &&& (!(mouse.kind == MouseKind::Down && (match old(self).submit_button_area {
                    Some(a) => a.spec_contains(mouse.column, mouse.row),
                    None => false,
                })) ==> {
                    &&& r@.len() == 0
                    &&& final(self).state == old(self).state
                    &&& exists|h: bool| #[trigger] crate::text_editor::mouse_event_post(
                        mouse, old(self).text_editor, final(self).text_editor, h)
                })
            },
            old(self).state is ImageNaming ==> {
                &&& r@.len() == 0
                &&& final(self).state == old(self).state
                &&& final(self).text_editor == old(self).text_editor
                &&& exists|h: bool| #[trigger] crate::text_editor::mouse_event_post(
                    mouse, old(self).modal_text_editor, final(self).modal_text_editor, h)
            },
            old(self).state is ThreadList && mouse.kind == MouseKind::Down ==> (
                if mouse.row > 0 && mouse.row - 1 < old(self).threads@.len() {
                    let id = old(self).threads@[mouse.row - 1].id@;
                    &&& final(self).selected_thread_index == mouse.row - 1
                    &&& (final(self).state matches AppState::ThreadView(t) && t@ == id)
                    &&& r@.len() == 1
                    &&& (r@[0] matches Request::LoadThread(t) && t@ == id)
                } else {
                    *final(self) == *old(self) && r@.len() == 0
                }),
            old(self).state matches AppState::ThreadView(tid)
                ==> mouse.kind == MouseKind::Down ==> r@.len() == 0 && ({
                let hit = crate::hit_test::first_hit(
                    old(self).entry_positions@, mouse.column, mouse.row);
                let opened = (match old(self).current_thread {
                    Some(t) => if old(self).selected_entry_index < t.entries@.len() {
                        let e = t.entries@[old(self).selected_entry_index as int];
                        &&& (final(self).state matches AppState::EditEntry(x, y)
                            && x@ == tid@ && y@ == e.id@)
                        &&& final(self).text_editor.text() == e.content@
                        &&& (final(self).original_entry_content matches Some(c)
                            && c@ == e.content@)
                    } else {
                        *final(self) == *old(self)
                    },
                    None => *final(self) == *old(self),
                });
                if hit >= 0 && hit == old(self).selected_entry_index {
                    opened
                } else if hit >= 0 {
                    match old(self).current_thread {
                        Some(t) => if hit < t.entries@.len() {
                            final(self).selected_entry_index == hit
                                && final(self).state == old(self).state
                        } else {
                            *final(self) == *old(self)
                        },
                        None => *final(self) == *old(self),
                    }
                } else {
                    let inside = match old(self).entry_list_area {
                        Some(a) => a.spec_contains(mouse.column, mouse.row),
                        None => false,
                    };
                    if inside {
                        *final(self) == *old(self)
                    } else {
                        opened
                    }
                }
            }),
            (old(self).state is ThreadList || old(self).state is ThreadView)
                && (mouse.kind == MouseKind::ScrollUp || mouse.kind == MouseKind::ScrollDown)
                ==> r@.len() == 0 && ({
                let allowed = now_ms >= old(self).last_scroll_ms
                    && now_ms - old(self).last_scroll_ms >= old(self).scroll_throttle_ms;
                &&& (!allowed ==> *final(self) == *old(self))
                &&& (allowed ==> final(self).last_scroll_ms == now_ms)
                &&& (allowed && old(self).state is ThreadList
                    && mouse.kind == MouseKind::ScrollUp
                    ==> final(self).selected_thread_index == (
                        if old(self).selected_thread_index > 0 {
                            old(self).selected_thread_index - 1
                        } else {
                            0int
                        }))
                &&& (allowed && old(self).state is ThreadList
                    && mouse.kind == MouseKind::ScrollDown
                    ==> final(self).selected_thread_index == (
                        if old(self).selected_thread_index + 1 < old(self).threads@.len() {
                            old(self).selected_thread_index + 1
                        } else {
                            old(self).selected_thread_index as int
                        }))
                &&& (allowed && old(self).state is ThreadView
                    && mouse.kind == MouseKind::ScrollUp
                    ==> final(self).selected_entry_index == (
                        if old(self).selected_entry_index > 0 {
                            old(self).selected_entry_index - 1
                        } else {
                            0int
                        }))
                &&& (allowed && old(self).state is ThreadView
                    && mouse.kind == MouseKind::ScrollDown
                    ==> final(self).selected_entry_index == (
                        match old(self).current_thread {
                            Some(t) => if old(self).selected_entry_index + 1 < t.entries@.len() {
                                old(self).selected_entry_index + 1
                            } else {
                                old(self).selected_entry_index as int
                            },
                            None => old(self).selected_entry_index as int,
                        }))
            }),
            (old(self).state is ThreadList || old(self).state is ThreadView)
                && (mouse.kind == MouseKind::Drag || mouse.kind == MouseKind::Up)
                ==> *final(self) == *old(self) && r@.len() == 0,
    {
        match &self.state {
            AppState::ConfirmDeleteThread(_) | AppState::ConfirmDeleteEntry(_, _)
            | AppState::ConfirmDiscardEntryChanges(_, _) | AppState::ConfirmDiscardNewEntry(_)
            | AppState::CharacterLimitError(_) | AppState::ConfirmImageReplacement(_, _, _)
            | AppState::ConfirmImageRemoval(_, _) => {
                return Vec::new();
            },
            _ => (),
        }
        let editing = match &self.state {
            AppState::CreateThread | AppState::EditThread(_) | AppState::CreateEntry(_)
            | AppState::EditEntry(_, _) => true,
            _ => false,
        };
        if editing {
            if mouse.kind == MouseKind::Down
                && self.is_click_on_submit_button(mouse.column, mouse.row) {
                let r = self.handle_save_operation();
                self.needs_redraw = true;
                return r;
            }
            let handled = self.text_editor.handle_mouse_event(mouse);
            proof {
                assert(crate::text_editor::mouse_event_post(
                    mouse, old(self).text_editor, self.text_editor, handled));
            }
            if handled {
                self.needs_redraw = true;
            }
            return Vec::new();
        }
        if (self.state matches AppState::ImageNaming(_, _)) {
            let handled = self.modal_text_editor.handle_mouse_event(mouse);
            proof {
                assert(crate::text_editor::mouse_event_post(
                    mouse, old(self).modal_text_editor, self.modal_text_editor, handled));
            }
            if handled {
                self.needs_redraw = true;
            }
            return Vec::new();
        }
        match mouse.kind {
            MouseKind::Down => {
                let st = take_state(&mut self.state);
                match st {
                    AppState::ThreadList => {
                        self.state = AppState::ThreadList;
                        if mouse.row > 0 && ((mouse.row - 1) as usize) < self.threads.len() {
                            let idx = (mouse.row - 1) as usize;
                            self.selected_thread_index = idx;
                            let id = self.threads[idx].id.clone();
                            self.state = AppState::ThreadView(id.clone());
                            self.needs_redraw = true;
                            let mut r: Vec<Request> = Vec::new();
                            r.push(Request::LoadThread(id));
                            return r;
                        }
                        Vec::new()
                    },
                    AppState::ThreadView(tid) => {
                        self.state = AppState::ThreadView(tid.clone());
                        match self.get_clicked_entry_index(mouse.column, mouse.row) {
                            Some(idx) => {
                                if idx == self.selected_entry_index {
                                    self.open_selected_entry_for_editing(tid.as_str());
                                } else {
                                    match &self.current_thread {
                                        Some(t) => {
                                            if idx < t.entries.len() {
                                                self.selected_entry_index = idx;
                                                self.needs_redraw = true;
                                            }
                                        },
                                        None => (),
                                    }
                                }
                            },
                            None => {
                                let inside = match self.entry_list_area {
                                    Some(a) => a.contains(mouse.column, mouse.row),
                                    None => false,
                                };
                                if !inside {
                                    self.open_selected_entry_for_editing(tid.as_str());
                                }
                            },
                        }
                        Vec::new()
                    },
                    other => {
                        self.state = other;
                        Vec::new()
                    },
                }
            },
            MouseKind::ScrollUp => {
                if self.scroll_allowed(now_ms) {
                    match &self.state {
                        AppState::ThreadList => {
                            if self.selected_thread_index > 0 {
                                self.selected_thread_index = self.selected_thread_index - 1;
                                self.needs_redraw = true;
                            }
                        },
                        AppState::ThreadView(_) => {
                            if self.selected_entry_index > 0 {
                                self.selected_entry_index = self.selected_entry_index - 1;
                                if self.selected_entry_index < self.entry_list_offset {
                                    self.entry_list_offset = self.selected_entry_index;
                                }
                                self.needs_redraw = true;
                            }
                        },
                        _ => (),
                    }
                }
                Vec::new()
            },
            MouseKind::ScrollDown => {
                if self.scroll_allowed(now_ms) {
                    match &self.state {
                        AppState::ThreadList => {
                            if self.selected_thread_index < self.threads.len()
                                && self.threads.len() > 0
                                && self.selected_thread_index < self.threads.len() - 1 {
                                self.selected_thread_index = self.selected_thread_index + 1;
                                self.needs_redraw = true;
                            }
                        },
                        AppState::ThreadView(_) => {
                            match &self.current_thread {
                                Some(t) => {
                                    if self.selected_entry_index < t.entries.len()
                                        && t.entries.len() > 0
                                        && self.selected_entry_index < t.entries.len() - 1 {
                                        self.selected_entry_index = self.selected_entry_index + 1;
                                        self.needs_redraw = true;
                                    }
                                },
                                None => (),
                            }
                        },
                        _ => (),
                    }
                }
                Vec::new()
            },
            _ => Vec::new(),
        }
    }
}

} // verus!

verus! {

use crate::text_editor::sat_usize;
use crate::text_util::{count_words, word_count};

/// The total word count of a thread's entries.
pub open spec fn thread_word_total(entries: Seq<Entry>) -> int
    decreases entries.len(),
{
    if entries.len() == 0 {
        0
    } else {
        word_count(entries[0].content@) + thread_word_total(entries.drop_first())
    }
}

pub proof fn lemma_thread_words_nonneg(entries: Seq<Entry>)
    ensures
        thread_word_total(entries) >= 0,
    decreases entries.len(),
{
    if entries.len() > 0 {
        crate::text_util::lemma_words_nonneg(entries[0].content@, 0, true);
        lemma_thread_words_nonneg(entries.drop_first());
    }
}

impl App {
    /// Word statistics for a thread: the total whitespace-separated word
    /// count over its entries, and the entry count.  The average, a
    /// fraction, is the drawing layer's business.
    pub fn calculate_thread_word_count(&self, thread: &Thread) -> (r: (usize, usize))
        ensures
            r.0 == sat_usize(thread_word_total(thread.entries@)),
            r.1 == thread.entries@.len(),
    {
        proof {
            lemma_thread_words_nonneg(thread.entries@);
            assert(thread.entries@.skip(0) =~= thread.entries@);
        }
        let mut total: usize = 0;
        let mut i: usize = 0;
        while i < thread.entries.len()
            invariant
                i <= thread.entries@.len(),
                total == sat_usize(thread_word_total(thread.entries@)
                    - thread_word_total(thread.entries@.skip(i as int))),
                thread_word_total(thread.entries@)
                    >= thread_word_total(thread.entries@.skip(i as int)) >= 0,
            decreases thread.entries@.len() - i,
        {
            proof {
                let tail = thread.entries@.skip(i as int);
                assert(tail[0] == thread.entries@[i as int]);
                assert(tail.drop_first() =~= thread.entries@.skip(i + 1 as int));
                crate::text_util::lemma_words_nonneg(thread.entries@[i as int].content@, 0, true);
                lemma_thread_words_nonneg(thread.entries@.skip(i + 1 as int));
                lemma_thread_words_nonneg(thread.entries@.skip(i as int));
            }
            let chars = crate::text_editor::str_to_chars(thread.entries[i].content.as_str());
            let words = count_words(&chars);
            total = add_sat_words(total, words);
            i = i + 1;
        }
        proof {
            assert(thread.entries@.skip(thread.entries@.len() as int) =~= Seq::<Entry>::empty());
        }
        (total, thread.entries.len())
    }
}

fn add_sat_words(a: usize, b: usize) -> (r: usize)
    ensures
        r == sat_usize(a + b),
{
    if a <= usize::MAX - b {
        a + b
    } else {
        usize::MAX
    }
}

} // verus!
