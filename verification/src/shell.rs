//! The application shell: the model the window drives.
//!
//! The window translates toolkit events into [`AppInput`] values and feeds
//! them to [`AppModel::update`].  Each step changes the model and returns
//! one [`Effect`] naming the outside work to carry out: fetching content,
//! swapping header widgets, mutating the tab view, or quitting.  The fetch
//! is asynchronous; once its questions arrive, their titles come back in
//! through [`AppModel::open_questions`].

use vstd::prelude::*;

use crate::messages::AppInput;
use crate::messages::Effect;
use crate::tabs::Tab;
use crate::tabs::TabStrip;
use crate::tabs::closed;
use crate::tabs::pin_toggled;

verus! {

/// State of the application shell: the open tabs and whether the search
/// entry currently replaces the window title in the header.
pub struct AppModel {
    pub tabs: TabStrip,
    pub search_active: bool,
}

/// The tab a freshly fetched question opens in: unpinned, titled after it.
pub open spec fn question_tab(title: String) -> Tab {
    Tab { title: title, pinned: false }
}

/// The inputs that act on the selected tab; they presume one exists, as the
/// window only offers them through a tab's context menu or shortcut.
pub open spec fn needs_selected(input: AppInput) -> bool {
    match input {
        AppInput::ToggleSelectedTabPin => true,
        AppInput::CloseTab => true,
        AppInput::ClosePinnedTab => true,
        _ => false,
    }
}

/// The shell's transition relation: one step on `input` turns `pre` into
/// `post` and asks the window for `e`.  For each input it pins both the new
/// state and the effect:
///
/// - a content request leaves the state alone and asks for the fetch;
/// - toggling search flips the flag and swaps the header widget;
/// - the about dialog and quitting leave the state alone;
/// - pin toggling moves the selected tab between the pinned and unpinned
///   blocks;
/// - closing an unpinned tab removes it, while closing a pinned one only
///   asks for confirmation;
/// - the confirmed close first clears the pinned flag, then removes the
///   tab.
pub open spec fn step(pre: AppModel, input: AppInput, post: AppModel, e: Effect) -> bool
    recommends
        pre.wf(),
        needs_selected(input) ==> pre.tabs.selected is Some,
{
    match input {
        AppInput::RequestPagesByUri(uri) => {
            &&& post == pre
            &&& e == Effect::FetchQuestions(uri)
        },
        AppInput::ToggleSearchEntry => {
            &&& post.tabs == pre.tabs
            &&& post.search_active == !pre.search_active
            &&& e == (if pre.search_active {
                Effect::ShowTitleWidget
            } else {
                Effect::ShowSearchEntry
            })
        },
        AppInput::ShowAboutWindow => {
            &&& post == pre
            &&& e == Effect::ShowAboutWindow
        },
        AppInput::Quit => {
            &&& post == pre
            &&& e == Effect::Quit
        },
        AppInput::ToggleSelectedTabPin => {
            &&& pin_toggled(pre.tabs, post.tabs)
            &&& post.search_active == pre.search_active
            &&& e == (if pre.tabs.selected_pinned() {
                Effect::UnpinSelectedTab
            } else {
                Effect::PinSelectedTab
            })
        },
        AppInput::CloseTab => {
            if pre.tabs.selected_pinned() {
                &&& post == pre
                &&& e == Effect::AskClosePinnedTab
            } else {
                &&& closed(pre.tabs, post.tabs)
                &&& post.search_active == pre.search_active
                &&& e == Effect::CloseSelectedTab
            }
        },
        AppInput::ClosePinnedTab => {
            &&& if pre.tabs.selected_pinned() {
                exists|mid: TabStrip|
                    #[trigger] pin_toggled(pre.tabs, mid) && closed(mid, post.tabs)
            } else {
                closed(pre.tabs, post.tabs)
            }
            &&& post.search_active == pre.search_active
            &&& e == Effect::UnpinAndCloseSelectedTab
        },
    }
}

/// One step of the shell is deterministic: though [`step`] is written as a
/// relation, one state and one input admit only one effect and one
/// observable new state.
pub proof fn lemma_step_deterministic(
    pre: AppModel,
    input: AppInput,
    post1: AppModel,
    e1: Effect,
    post2: AppModel,
    e2: Effect,
)
    requires
        pre.wf(),
        needs_selected(input) ==> pre.tabs.selected is Some,
        step(pre, input, post1, e1),
        step(pre, input, post2, e2),
    ensures
        e1 == e2,
        post1.tabs.tabs@ == post2.tabs.tabs@,
        post1.tabs.selected == post2.tabs.selected,
        post1.tabs.pinned_count == post2.tabs.pinned_count,
        post1.search_active == post2.search_active,
{
    match input {
        AppInput::ClosePinnedTab => {
            if pre.tabs.selected_pinned() {
                let mid1 = choose|mid: TabStrip|
                    pin_toggled(pre.tabs, mid) && closed(mid, post1.tabs);
                let mid2 = choose|mid: TabStrip|
                    pin_toggled(pre.tabs, mid) && closed(mid, post2.tabs);
                // Unpinning determines the intermediate strip, which in
                // turn determines the closed one.
                assert(mid1.tabs@ == mid2.tabs@);
                assert(mid1.selected == mid2.selected);
                assert(mid1.pinned_count == mid2.pinned_count);
            }
        },
        _ => {},
    }
}

impl AppModel {
    /// Well-formedness of the whole shell state.
    pub open spec fn wf(self) -> bool {
        self.tabs.wf()
    }

    /// The freshly initialised shell: no tabs, search hidden.
    pub fn new() -> (model: AppModel)
        ensures
            model.wf(),
            model.tabs.tabs@.len() == 0,
            model.tabs.selected is None,
            model.tabs.pinned_count == 0,
            !model.search_active,
    {
        AppModel { tabs: TabStrip::new(), search_active: false }
    }

    /// Apply one input event to the shell and return the effect the window
    /// must carry out.  The inputs acting on the selected tab require one,
    /// mirroring the window, which offers them only while a tab is shown.
    pub fn update(&mut self, input: AppInput) -> (e: Effect)
        requires
            old(self).wf(),
            needs_selected(input) ==> old(self).tabs.selected is Some,
        ensures
            final(self).wf(),
            step(*old(self), input, *final(self), e),
    {
        match input {
            AppInput::RequestPagesByUri(uri) => Effect::FetchQuestions(uri),
            AppInput::ToggleSearchEntry => {
                self.search_active = !self.search_active;
                if self.search_active {
                    Effect::ShowSearchEntry
                } else {
                    Effect::ShowTitleWidget
                }
            },
            AppInput::ShowAboutWindow => Effect::ShowAboutWindow,
            AppInput::Quit => Effect::Quit,
            AppInput::ToggleSelectedTabPin => {
                let now_pinned = self.tabs.toggle_pin_selected();
                if now_pinned {
                    Effect::PinSelectedTab
                } else {
                    Effect::UnpinSelectedTab
                }
            },
            AppInput::CloseTab => {
                if self.tabs.is_selected_pinned() {
                    Effect::AskClosePinnedTab
                } else {
                    self.tabs.close_selected();
                    Effect::CloseSelectedTab
                }
            },
            AppInput::ClosePinnedTab => {
                if self.tabs.is_selected_pinned() {
                    self.tabs.toggle_pin_selected();
                    let ghost mid = self.tabs;
                    self.tabs.close_selected();
                    proof {
                        // The unpinned intermediate strip witnesses the
                        // clear-then-close shape of the transition.
                        assert(pin_toggled(old(self).tabs, mid) && closed(mid, self.tabs));
                    }
                } else {
                    self.tabs.close_selected();
                }
                Effect::UnpinAndCloseSelectedTab
            },
        }
    }

    /// Mirror the tab view's report that the user selected the tab at
    /// `index`; nothing else changes.
    pub fn select_tab(&mut self, index: usize)
        requires
            old(self).wf(),
            index < old(self).tabs.tabs@.len(),
        ensures
            final(self).wf(),
            final(self).tabs.tabs@ == old(self).tabs.tabs@,
            final(self).tabs.pinned_count == old(self).tabs.pinned_count,
            final(self).tabs.selected == Some(index),
            final(self).search_active == old(self).search_active,
    {
        self.tabs.select(index);
    }

    /// Open one unpinned tab per fetched question, titled in order; they
    /// carry the titles of the questions a fetch returned.
    pub fn open_questions(&mut self, titles: Vec<String>)
        requires
            old(self).wf(),
        ensures
            final(self).wf(),
            final(self).tabs.tabs@ == old(self).tabs.tabs@ + titles@.map_values(
                |t: String| question_tab(t),
            ),
            final(self).tabs.pinned_count == old(self).tabs.pinned_count,
            final(self).search_active == old(self).search_active,
            final(self).tabs.selected == (if old(self).tabs.selected is Some {
                old(self).tabs.selected
            } else if titles@.len() > 0 {
                Some(0usize)
            } else {
                None::<usize>
            }),
    {
        let mut i: usize = 0;
        while i < titles.len()
            invariant
                self.wf(),
                i <= titles@.len(),
                self.tabs.tabs@ == old(self).tabs.tabs@ + titles@.subrange(
                    0,
                    i as int,
                ).map_values(|t: String| question_tab(t)),
                self.tabs.pinned_count == old(self).tabs.pinned_count,
                self.search_active == old(self).search_active,
                self.tabs.selected == (if old(self).tabs.selected is Some {
                    old(self).tabs.selected
                } else if i > 0 {
                    Some(0usize)
                } else {
                    None::<usize>
                }),
            decreases titles@.len() - i,
        {
            let title = titles[i].clone();
            self.tabs.append(title);
            proof {
                assert(titles@.subrange(0, i as int + 1) =~= titles@.subrange(
                    0,
                    i as int,
                ).push(titles@[i as int]));
                assert(titles@.subrange(0, i as int + 1).map_values(|t: String| question_tab(t)) =~= titles@.subrange(
                    0,
                    i as int,
                ).map_values(|t: String| question_tab(t)).push(question_tab(titles@[i as int])));
                assert(self.tabs.tabs@ =~= old(self).tabs.tabs@ + titles@.subrange(
                    0,
                    i as int + 1,
                ).map_values(|t: String| question_tab(t)));
            }
            i = i + 1;
        }
        proof {
            assert(titles@.subrange(0, titles@.len() as int) =~= titles@);
        }
    }
}

} // verus!
