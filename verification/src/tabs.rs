//! The strip of open tabs.
//!
//! This is the shell's model of the window's tab view.  The widget keeps all
//! pinned tabs in front of all unpinned ones and moves a tab when its pinned
//! flag changes; the model mirrors that ordering as an invariant.  While any
//! tab is open, exactly one of them is selected.

use vstd::prelude::*;

verus! {

/// One open content view in the window's tab strip.
pub struct Tab {
    /// Title shown on the tab, the fetched question's title.
    pub title: String,
    /// A pinned tab needs explicit confirmation before it is closed.
    pub pinned: bool,
}

/// The strip of open tabs: zero or more tabs, pinned ones first, and the
/// index of the selected tab while the strip is not empty.
pub struct TabStrip {
    pub tabs: Vec<Tab>,
    /// Index of the selected tab; `None` exactly while the strip is empty.
    pub selected: Option<usize>,
    /// How many tabs are pinned; they occupy the front of the strip.
    pub pinned_count: usize,
}

/// `post` is `pre` with one unpinned tab titled `title` appended at the end.
/// The new tab is selected only when the strip was empty, as the tab view
/// selects the first page it receives.
pub open spec fn appended(pre: TabStrip, post: TabStrip, title: String) -> bool {
    &&& post.tabs@ == pre.tabs@.push((Tab { title: title, pinned: false }))
    &&& post.pinned_count == pre.pinned_count
    &&& post.selected == (if pre.tabs@.len() == 0 {
        Some(0usize)
    } else {
        pre.selected
    })
}

/// `post` is `pre` with the selected tab's pinned flag flipped.  The tab
/// moves with its flag, as the tab view does: a newly pinned tab goes to the
/// end of the pinned block, a newly unpinned one to the front of the
/// unpinned block, and it stays selected at its new index.
pub open spec fn pin_toggled(pre: TabStrip, post: TabStrip) -> bool
    recommends
        pre.wf(),
        pre.selected is Some,
{
    let s = pre.selected.unwrap() as int;
    let t = pre.tabs@[s];
    if t.pinned {
        &&& post.tabs@ == pre.tabs@.remove(s).insert(
            pre.pinned_count - 1,
            (Tab { title: t.title, pinned: false }),
        )
        &&& post.pinned_count as int == pre.pinned_count - 1
        &&& post.selected == Some((pre.pinned_count - 1) as usize)
    } else {
        &&& post.tabs@ == pre.tabs@.remove(s).insert(
            pre.pinned_count as int,
            (Tab { title: t.title, pinned: true }),
        )
        &&& post.pinned_count as int == pre.pinned_count + 1
        &&& post.selected == Some(pre.pinned_count)
    }
}

/// `post` is `pre` with the selected tab removed.  Selection falls to the
/// tab that takes the closed tab's place, or to the new last tab when the
/// closed one was last, or to nothing when the strip becomes empty.
pub open spec fn closed(pre: TabStrip, post: TabStrip) -> bool
    recommends
        pre.wf(),
        pre.selected is Some,
{
    let s = pre.selected.unwrap() as int;
    let n = pre.tabs@.len() as int;
    &&& post.tabs@ == pre.tabs@.remove(s)
    &&& post.pinned_count == pre.pinned_count
    &&& post.selected == (if n == 1 {
        None::<usize>
    } else if s < n - 1 {
        pre.selected
    } else {
        Some((s - 1) as usize)
    })
}

/// In a well-formed strip every pinned tab precedes every unpinned one,
/// the ordering the tab view maintains on screen.
pub proof fn lemma_pinned_tabs_lead(strip: TabStrip)
    requires
        strip.wf(),
    ensures
        forall|i: int, j: int|
            #![trigger strip.tabs@[i], strip.tabs@[j]]
            0 <= i < j < strip.tabs@.len() && strip.tabs@[j].pinned ==> strip.tabs@[i].pinned,
{
}

impl TabStrip {
    /// Well-formedness: the first `pinned_count` tabs and no others are
    /// pinned, and a tab is selected exactly while the strip is not empty.
    pub open spec fn wf(self) -> bool {
        &&& self.pinned_count <= self.tabs@.len()
        &&& forall|i: int|
            0 <= i < self.pinned_count ==> (#[trigger] self.tabs@[i]).pinned
        &&& forall|i: int|
            self.pinned_count <= i < self.tabs@.len() ==> !(#[trigger] self.tabs@[i]).pinned
        &&& match self.selected {
            Some(s) => s < self.tabs@.len(),
            None => self.tabs@.len() == 0,
        }
    }

    /// The selected tab is pinned.
    pub open spec fn selected_pinned(self) -> bool
        recommends
            self.selected is Some,
    {
        self.tabs@[self.selected.unwrap() as int].pinned
    }

    /// An empty strip: no tabs, nothing selected, nothing pinned.
    pub fn new() -> (strip: TabStrip)
        ensures
            strip.wf(),
            strip.tabs@.len() == 0,
            strip.selected is None,
            strip.pinned_count == 0,
    {
        TabStrip { tabs: Vec::new(), selected: None, pinned_count: 0 }
    }

    /// Open a new unpinned tab with the given title at the end of the strip.
    pub fn append(&mut self, title: String)
        requires
            old(self).wf(),
        ensures
            final(self).wf(),
            appended(*old(self), *final(self), title),
    {
        if self.tabs.len() == 0 {
            self.selected = Some(0);
        }
        self.tabs.push(Tab { title, pinned: false });
    }

    /// Select the tab at `index`; the tab view reports the user clicking a
    /// tab (or touching its context menu) this way.
    pub fn select(&mut self, index: usize)
        requires
            old(self).wf(),
            index < old(self).tabs@.len(),
        ensures
            final(self).wf(),
            final(self).tabs@ == old(self).tabs@,
            final(self).pinned_count == old(self).pinned_count,
            final(self).selected == Some(index),
    {
        self.selected = Some(index);
    }

    /// Whether the selected tab is pinned.
    pub fn is_selected_pinned(&self) -> (pinned: bool)
        requires
            self.wf(),
            self.selected is Some,
        ensures
            pinned == self.selected_pinned(),
    {
        let s = self.selected.unwrap();
        self.tabs[s].pinned
    }

    /// Flip the selected tab's pinned flag and move the tab to its new
    /// block, keeping it selected.  Returns the flag's new value.
    pub fn toggle_pin_selected(&mut self) -> (now_pinned: bool)
        requires
            old(self).wf(),
            old(self).selected is Some,
        ensures
            final(self).wf(),
            pin_toggled(*old(self), *final(self)),
            now_pinned == !old(self).selected_pinned(),
    {
        let ghost pre = *self;
        let s = self.selected.unwrap();
        let n = self.tabs.len();
        let mut t = self.tabs.remove(s);
        if t.pinned {
            proof {
                // A pinned tab sits in the pinned block, so the block is not empty.
                assert(s < pre.pinned_count);
                pre.tabs@.remove_ensures(s as int);
                pre.tabs@.remove(s as int).insert_ensures(
                    pre.pinned_count - 1,
                    (Tab { title: t.title, pinned: false }),
                );
            }
            t.pinned = false;
            let j = self.pinned_count - 1;
            self.tabs.insert(j, t);
            self.pinned_count = j;
            self.selected = Some(j);
            false
        } else {
            proof {
                assert(s >= pre.pinned_count);
                assert(pre.pinned_count < n);
                pre.tabs@.remove_ensures(s as int);
                pre.tabs@.remove(s as int).insert_ensures(
                    pre.pinned_count as int,
                    (Tab { title: t.title, pinned: true }),
                );
            }
            t.pinned = true;
            self.tabs.insert(self.pinned_count, t);
            self.selected = Some(self.pinned_count);
            self.pinned_count = self.pinned_count + 1;
            true
        }
    }

    /// Close the selected tab, which must not be pinned.  Selection falls
    /// to the tab taking its place, to the new last tab, or to nothing.
    pub fn close_selected(&mut self)
        requires
            old(self).wf(),
            old(self).selected is Some,
            !old(self).selected_pinned(),
        ensures
            final(self).wf(),
            closed(*old(self), *final(self)),
    {
        let ghost pre = *self;
        let s = self.selected.unwrap();
        proof {
            // The selected tab is unpinned, so it sits after the pinned block.
            assert(s >= pre.pinned_count);
            pre.tabs@.remove_ensures(s as int);
        }
        self.tabs.remove(s);
        let n = self.tabs.len();
        if n == 0 {
            self.selected = None;
        } else if s < n {
            self.selected = Some(s);
        } else {
            self.selected = Some(s - 1);
        }
    }
}

} // verus!
