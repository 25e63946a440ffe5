//! The main window: a side list of entries and a notebook of open data tabs.
//! Each open tab carries an identity, so that its close control removes that
//! very tab however the pages before it have shifted.
use crate::tab::DataTab;
use crate::text::{decimal, numbered};
use vstd::prelude::*;

verus! {

/// The number of entries in the side list.
pub const WINDOW_ENTRIES: usize = 50;

/// The number of tabs that a new window opens.
pub const DEFAULT_TABS: usize = 3;

/// The label of side-list entry `i`.
pub open spec fn entry_label(i: nat) -> Seq<char> {
    "Window "@ + decimal(i)
}

/// The entries of a new side list: "Window 0" to "Window 49", in order.
pub open spec fn generated_entries(list: Seq<String>) -> bool {
    &&& list.len() == WINDOW_ENTRIES
    &&& forall|i: int| 0 <= i < list.len() ==> #[trigger] list[i]@ == entry_label(i as nat)
}

/// A page of the notebook: its identity, its title and its tab.
#[derive(Debug)]
pub struct OpenTab {
    pub id: u64,
    pub title: String,
    pub tab: DataTab,
}

/// The focused page after the page at `removed` was taken out, leaving
/// `new_len` pages: a page before the focused one shifts the focus back by
/// one; when the focused page itself goes, the page that takes its place is
/// focused, or the new last page if it was the last.
pub open spec fn focus_after_close(current: int, removed: int, new_len: int) -> int {
    if removed < current {
        current - 1
    } else if current < new_len {
        current
    } else if new_len > 0 {
        new_len - 1
    } else {
        0
    }
}

/// The titles of the pages, in order.
pub open spec fn titles(tabs: Seq<OpenTab>) -> Seq<Seq<char>> {
    tabs.map_values(|t: OpenTab| t.title@)
}

/// The side list and the notebook of open tabs.
#[derive(Debug)]
pub struct DataWindow {
    pub window_list: Vec<String>,
    pub open_tabs: Vec<OpenTab>,
    /// The index of the focused page.
    pub current: usize,
    /// The identity that the next page will get.
    pub next_id: u64,
}

impl DataWindow {
    /// Page identities are distinct and below `next_id`, every tab is well
    /// formed, and the focus is on a page when there is one.
    pub open spec fn wf(&self) -> bool {
        &&& forall|i: int|
            0 <= i < self.open_tabs@.len() ==> {
                &&& #[trigger] self.open_tabs@[i].id < self.next_id
                &&& self.open_tabs@[i].tab.wf()
            }
        &&& forall|i: int, j: int|
            0 <= i < self.open_tabs@.len() && 0 <= j < self.open_tabs@.len() && i != j
                ==> #[trigger] self.open_tabs@[i].id != #[trigger] self.open_tabs@[j].id
        &&& self.open_tabs@.len() == 0 ==> self.current == 0
        &&& self.open_tabs@.len() > 0 ==> self.current < self.open_tabs@.len()
    }

    /// Whether some page has identity `id`.
    pub open spec fn has_page(&self, id: u64) -> bool {
        exists|i: int| 0 <= i < self.open_tabs@.len() && #[trigger] self.open_tabs@[i].id == id
    }

    /// A window with the generated side list and no open tab.
    pub fn new() -> (r: DataWindow)
        ensures
            r.wf(),
            generated_entries(r.window_list@),
            r.open_tabs@.len() == 0,
            r.next_id == 0,
    {
        DataWindow {
            window_list: Self::create_window_list(),
            open_tabs: Vec::new(),
            current: 0,
            next_id: 0,
        }
    }

    /// The entries of the side list.
    pub fn create_window_list() -> (list: Vec<String>)
        ensures
            generated_entries(list@),
    {
        let mut list: Vec<String> = Vec::new();
        let mut i: usize = 0;
        while i < WINDOW_ENTRIES
            invariant
                i <= WINDOW_ENTRIES,
                list@.len() == i,
                forall|j: int| 0 <= j < i ==> #[trigger] list@[j]@ == entry_label(j as nat),
            decreases WINDOW_ENTRIES - i,
        {
            list.push(numbered("Window ", i));
            i = i + 1;
        }
        list
    }

    /// Appends a fresh tab titled `title`, focuses it, and returns its
    /// identity. The pages before it stay as they were.
    pub fn add_data_tab(&mut self, title: &str) -> (id: u64)
        requires
            old(self).wf(),
            old(self).next_id < u64::MAX,
        ensures
            final(self).wf(),
            final(self).open_tabs@.len() == old(self).open_tabs@.len() + 1,
            final(self).open_tabs@.take(old(self).open_tabs@.len() as int) == old(
                self,
            ).open_tabs@,
            final(self).open_tabs@.last().title@ == title@,
            final(self).open_tabs@.last().id == id,
            final(self).open_tabs@.last().tab.is_fresh(),
            final(self).current == old(self).open_tabs@.len(),
            final(self).next_id == old(self).next_id + 1,
            final(self).window_list == old(self).window_list,
    {
        let id = self.next_id;
        let page = OpenTab { id, title: String::from_str(title), tab: DataTab::new() };
        self.open_tabs.push(page);
        self.next_id = id + 1;
        self.current = self.open_tabs.len() - 1;
        assert(self.open_tabs@.take(old(self).open_tabs@.len() as int) =~= old(self).open_tabs@);
        id
    }

    /// The index of the page with identity `id`, if there is one.
    pub fn page_num(&self, id: u64) -> (r: Option<usize>)
        ensures
            r matches Some(i) ==> i < self.open_tabs@.len() && self.open_tabs@[i as int].id == id,
            r is None <==> !self.has_page(id),
    {
        let mut i: usize = 0;
        while i < self.open_tabs.len()
            invariant
                i <= self.open_tabs@.len(),
                forall|j: int| 0 <= j < i ==> #[trigger] self.open_tabs@[j].id != id,
            decreases self.open_tabs@.len() - i,
        {
            if self.open_tabs[i].id == id {
                return Some(i);
            }
            i = i + 1;
        }
        None
    }

    /// Removes the page with identity `id` and returns whether there was
    /// one. The other pages keep their order and their state.
    pub fn close_tab(&mut self, id: u64) -> (removed: bool)
        requires
            old(self).wf(),
        ensures
            final(self).wf(),
            removed == old(self).has_page(id),
            removed ==> final(self).open_tabs@.len() == old(self).open_tabs@.len() - 1,
            forall|i: int|
                0 <= i < old(self).open_tabs@.len() && #[trigger] old(self).open_tabs@[i].id == id
                    ==> {
                    &&& final(self).open_tabs@ == old(self).open_tabs@.remove(i)
                    &&& final(self).current == focus_after_close(
                        old(self).current as int,
                        i,
                        final(self).open_tabs@.len() as int,
                    )
                },
            !removed ==> final(self).open_tabs == old(self).open_tabs && final(self).current
                == old(self).current,
            final(self).next_id == old(self).next_id,
            final(self).window_list == old(self).window_list,
    {
        match self.page_num(id) {
            None => false,
            Some(index) => {
                self.open_tabs.remove(index);
                let new_len = self.open_tabs.len();
                if index < self.current {
                    self.current = self.current - 1;
                } else if self.current < new_len {
                } else if new_len > 0 {
                    self.current = new_len - 1;
                } else {
                    self.current = 0;
                }
                assert forall|i: int, j: int|
                    0 <= i < self.open_tabs@.len() && 0 <= j < self.open_tabs@.len() && i
                        != j implies #[trigger] self.open_tabs@[i].id
                    != #[trigger] self.open_tabs@[j].id by {
                    let oi = if i < index { i } else { i + 1 };
                    let oj = if j < index { j } else { j + 1 };
                    assert(self.open_tabs@[i] == old(self).open_tabs@[oi]);
                    assert(self.open_tabs@[j] == old(self).open_tabs@[oj]);
                }
                assert forall|i: int| 0 <= i < self.open_tabs@.len() implies {
                    &&& #[trigger] self.open_tabs@[i].id < self.next_id
                    &&& self.open_tabs@[i].tab.wf()
                } by {
                    let oi = if i < index { i } else { i + 1 };
                    assert(self.open_tabs@[i] == old(self).open_tabs@[oi]);
                }
                true
            },
        }
    }

    /// Opens a tab for side-list entry `index`, titled as the entry, and
    /// returns its identity; `None`, and no change, if there is no such entry.
    pub fn select_window_entry(&mut self, index: usize) -> (r: Option<u64>)
        requires
            old(self).wf(),
            old(self).next_id < u64::MAX,
        ensures
            final(self).wf(),
            final(self).window_list == old(self).window_list,
            final(self).next_id == old(self).next_id + if r is Some {
                1int
            } else {
                0
            },
            index >= old(self).window_list@.len() ==> r is None && final(self).open_tabs
                == old(self).open_tabs && final(self).current == old(self).current,
            index < old(self).window_list@.len() ==> {
                &&& r == Some(final(self).open_tabs@.last().id)
                &&& final(self).open_tabs@.len() == old(self).open_tabs@.len() + 1
                &&& final(self).open_tabs@.take(old(self).open_tabs@.len() as int) == old(
                    self,
                ).open_tabs@
                &&& final(self).open_tabs@.last().title@ == old(self).window_list@[index as int]@
                &&& final(self).open_tabs@.last().tab.is_fresh()
                &&& final(self).current == old(self).open_tabs@.len()
            },
    {
        if index < self.window_list.len() {
            let title = self.window_list[index].clone();
            Some(self.add_data_tab(title.as_str()))
        } else {
            None
        }
    }

    /// Opens the tabs that a new window shows: "Window 0" to "Window 2".
    pub fn open_default_tabs(&mut self)
        requires
            old(self).wf(),
            old(self).next_id <= u64::MAX - DEFAULT_TABS,
        ensures
            final(self).wf(),
            final(self).open_tabs@.len() == old(self).open_tabs@.len() + DEFAULT_TABS,
            final(self).open_tabs@.take(old(self).open_tabs@.len() as int) == old(
                self,
            ).open_tabs@,
            forall|k: int|
                old(self).open_tabs@.len() <= k < final(self).open_tabs@.len() ==> {
                    &&& (#[trigger] final(self).open_tabs@[k]).title@ == entry_label(
                        (k - old(self).open_tabs@.len()) as nat,
                    )
                    &&& final(self).open_tabs@[k].tab.is_fresh()
                },
            final(self).current == final(self).open_tabs@.len() - 1,
            final(self).next_id == old(self).next_id + DEFAULT_TABS,
            final(self).window_list == old(self).window_list,
    {
        let ghost n0 = self.open_tabs@.len();
        let mut k: usize = 0;
        while k < DEFAULT_TABS
            invariant
                k <= DEFAULT_TABS,
                self.wf(),
                self.next_id == old(self).next_id + k,
                old(self).next_id <= u64::MAX - DEFAULT_TABS,
                self.open_tabs@.len() == n0 + k,
                self.open_tabs@.take(n0 as int) == old(self).open_tabs@,
                forall|m: int|
                    n0 <= m < self.open_tabs@.len() ==> {
                        &&& (#[trigger] self.open_tabs@[m]).title@ == entry_label((m - n0) as nat)
                        &&& self.open_tabs@[m].tab.is_fresh()
                    },
                k > 0 ==> self.current == self.open_tabs@.len() - 1,
                self.window_list == old(self).window_list,
                n0 == old(self).open_tabs@.len(),
            decreases DEFAULT_TABS - k,
        {
            let title = numbered("Window ", k);
            let ghost before = self.open_tabs@;
            self.add_data_tab(title.as_str());
            assert forall|m: int| n0 <= m < self.open_tabs@.len() implies {
                &&& (#[trigger] self.open_tabs@[m]).title@ == entry_label((m - n0) as nat)
                &&& self.open_tabs@[m].tab.is_fresh()
            } by {
                if m < before.len() {
                    assert(self.open_tabs@.take(before.len() as int)[m] == before[m]);
                }
            }
            assert(self.open_tabs@.take(n0 as int) =~= before.take(n0 as int));
            k = k + 1;
        }
    }
}

} // verus!
