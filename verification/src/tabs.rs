//! The tab that is current, and the pane that has the focus because of it.
//!
//! [`TabsState`] keeps a fixed row of tab titles, the position of the current
//! tab and, where the tabs were given panes, the pane of the current tab. Its
//! view is a [`TabsModel`]; each operation is one transition of that model,
//! and the laws at the end of the file are stated over it.

use crate::block::ActiveBlock;
use vstd::arithmetic::div_mod::lemma_mod_self_0;
use vstd::arithmetic::div_mod::lemma_small_mod;
use vstd::prelude::*;

verus! {

/// What a row of tabs is to its callers.
pub struct TabsModel {
    /// The titles, in the order in which the tabs are shown.
    pub titles: Seq<String>,
    /// The position of the current tab.
    pub index: nat,
    /// The pane of each tab, where the tabs were given panes.
    pub block_ids: Option<Seq<ActiveBlock>>,
    /// The pane that has the focus.
    pub active_block: Option<ActiveBlock>,
}

impl TabsModel {
    /// Tabs without panes, the first one current.
    pub open spec fn plain(titles: Seq<String>) -> Self {
        TabsModel { titles, index: 0, block_ids: None, active_block: None }
    }

    /// Tabs with one pane each, the first one current and its pane in focus.
    pub open spec fn with_blocks(titles: Seq<String>, blocks: Seq<ActiveBlock>) -> Self {
        TabsModel { titles, index: 0, block_ids: Some(blocks), active_block: Some(blocks[0]) }
    }

    /// Where there are panes, there is one for each tab.
    pub open spec fn aligned(self) -> bool {
        self.block_ids matches Some(ids) ==> ids.len() == self.titles.len()
    }

    /// The current position is that of a tab, and the panes are aligned with
    /// the tabs. In particular there is at least one tab.
    pub open spec fn in_bounds(self) -> bool {
        &&& self.index < self.titles.len()
        &&& self.aligned()
    }

    /// The pane of the current tab: none where the tabs have no panes.
    pub open spec fn derived_block(self) -> Option<ActiveBlock> {
        match self.block_ids {
            Some(ids) => Some(ids[self.index as int]),
            None => None,
        }
    }

    /// The position is in bounds and the pane in focus is the pane of the
    /// current tab.
    pub open spec fn wf(self) -> bool {
        &&& self.in_bounds()
        &&& self.active_block == self.derived_block()
    }

    /// The same tabs with the focus brought up to date.
    pub open spec fn synced(self) -> Self {
        TabsModel { active_block: self.derived_block(), ..self }
    }

    /// The tabs with `index` current and the focus on its pane.
    pub open spec fn select(self, index: nat) -> Self {
        TabsModel { index, ..self }.synced()
    }

    /// The tabs after one step to the right, which wraps from the last tab to
    /// the first.
    pub open spec fn advance(self) -> Self {
        self.select(
            if self.index + 1 == self.titles.len() {
                0
            } else {
                self.index + 1
            },
        )
    }

    /// The tabs after one step to the left, which wraps from the first tab to
    /// the last.
    pub open spec fn retreat(self) -> Self {
        self.select(
            if self.index > 0 {
                (self.index - 1) as nat
            } else {
                (self.titles.len() - 1) as nat
            },
        )
    }

    /// The tabs after `n` steps to the right.
    pub open spec fn advance_by(self, n: nat) -> Self
        decreases n,
    {
        if n == 0 {
            self
        } else {
            self.advance().advance_by((n - 1) as nat)
        }
    }
}

/// A row of tabs, the current one, and the pane that it puts in focus.
///
/// The fields are public for the renderer's sake. `active_block` is derived
/// from the other three: every operation that moves `index` brings it up to
/// date before it returns.
pub struct TabsState {
    pub titles: Vec<String>,
    pub index: usize,
    pub active_block_ids: Option<Vec<ActiveBlock>>,
    pub active_block: Option<ActiveBlock>,
}

impl View for TabsState {
    type V = TabsModel;

    open spec fn view(&self) -> TabsModel {
        TabsModel {
            titles: self.titles@,
            index: self.index as nat,
            block_ids: match self.active_block_ids {
                Some(ids) => Some(ids@),
                None => None,
            },
            active_block: self.active_block,
        }
    }
}

impl TabsState {
    /// Tabs without panes: no pane is ever in focus.
    pub fn new(titles: Vec<String>) -> (tabs: TabsState)
        requires
            titles@.len() >= 1,
        ensures
            tabs@ == TabsModel::plain(titles@),
            tabs@.wf(),
    {
        TabsState { titles, index: 0, active_block_ids: None, active_block: None }
    }

    /// Tabs with one pane each. The first tab is current and its pane is in
    /// focus.
    pub fn with_active_blocks(titles: Vec<String>, blocks: Vec<ActiveBlock>) -> (tabs: TabsState)
        requires
            titles@.len() >= 1,
            blocks@.len() == titles@.len(),
        ensures
            tabs@ == TabsModel::with_blocks(titles@, blocks@),
            tabs@.wf(),
    {
        let first = blocks[0];
        TabsState { titles, index: 0, active_block: Some(first), active_block_ids: Some(blocks) }
    }

    /// Makes the tab at `index` current and puts its pane in focus.
    pub fn set_index(&mut self, index: usize)
        requires
            index < old(self)@.titles.len(),
            old(self)@.aligned(),
        ensures
            final(self)@ == old(self)@.select(index as nat),
            final(self)@.wf(),
    {
        self.index = index;
        self.set_active();
    }

    /// Brings the pane in focus up to date with the current tab.
    pub fn set_active(&mut self)
        requires
            old(self)@.in_bounds(),
        ensures
            final(self)@ == old(self)@.synced(),
            final(self)@.wf(),
    {
        self.active_block = match &self.active_block_ids {
            Some(ids) => Some(ids[self.index]),
            None => None,
        };
    }

    /// Moves to the tab on the right, wrapping at the end.
    pub fn next(&mut self)
        requires
            old(self)@.in_bounds(),
        ensures
            final(self)@ == old(self)@.advance(),
            final(self)@.wf(),
    {
        let len = self.titles.len();
        proof {
            lemma_step_wraps(self.index as nat, len as nat);
        }
        self.index = (self.index + 1) % len;
        self.set_active();
    }

    /// Moves to the tab on the left, wrapping at the start.
    pub fn previous(&mut self)
        requires
            old(self)@.in_bounds(),
        ensures
            final(self)@ == old(self)@.retreat(),
            final(self)@.wf(),
    {
        if self.index > 0 {
            self.index -= 1;
        } else {
            self.index = self.titles.len() - 1;
        }
        self.set_active();
    }

    /// The pane in focus: none where the tabs have no panes.
    pub fn active_block_id(&self) -> (block: Option<ActiveBlock>)
        ensures
            block == self@.active_block,
    {
        self.active_block
    }
}

/// One more than a position, taken modulo the number of positions, is the
/// next position, and the first one after the last.
proof fn lemma_step_wraps(i: nat, len: nat)
    requires
        i < len,
    ensures
        (i + 1) % len == if i + 1 == len {
            0
        } else {
            i + 1
        },
{
    if i + 1 == len {
        lemma_mod_self_0(len as int);
    } else {
        lemma_small_mod(i + 1, len);
    }
}

/// A step to the right moves the current position by one, modulo the number
/// of tabs.
pub proof fn lemma_advance_is_modular(m: TabsModel)
    requires
        m.in_bounds(),
    ensures
        m.advance().index == (m.index + 1) % m.titles.len(),
{
    lemma_step_wraps(m.index, m.titles.len());
}

/// From position `i`, `n` steps to the right with `n` no larger than the
/// number of tabs lead to position `i + n`, counted round the row.
proof fn lemma_advance_by_lands(m: TabsModel, n: nat)
    requires
        m.in_bounds(),
        n <= m.titles.len(),
    ensures
        m.advance_by(n).titles == m.titles,
        m.advance_by(n).block_ids == m.block_ids,
        m.advance_by(n).index == if m.index + n < m.titles.len() {
            m.index + n
        } else {
            (m.index + n - m.titles.len()) as nat
        },
    decreases n,
{
    if n > 0 {
        lemma_advance_by_lands(m.advance(), (n - 1) as nat);
    }
}

/// As many steps to the right as there are tabs bring the current position
/// back to where it was. Where the focus was up to date before, the tabs are
/// then as they were.
pub proof fn lemma_advance_cycle(m: TabsModel)
    requires
        m.in_bounds(),
    ensures
        m.advance_by(m.titles.len()).index == m.index,
        m.wf() ==> m.advance_by(m.titles.len()) == m,
{
    lemma_advance_by_lands(m, m.titles.len());
    if m.wf() {
        lemma_advance_keeps_focus(m, m.titles.len());
    }
}

/// However many steps to the right are taken, after each of them the pane in
/// focus is the pane of the current tab.
pub proof fn lemma_advance_keeps_focus(m: TabsModel, n: nat)
    requires
        m.wf(),
    ensures
        m.advance_by(n).wf(),
    decreases n,
{
    if n > 0 {
        lemma_advance_keeps_focus(m.advance(), (n - 1) as nat);
    }
}

/// A step to the left from the first tab leads to the last tab and puts its
/// pane in focus.
pub proof fn lemma_retreat_from_first(m: TabsModel)
    requires
        m.in_bounds(),
        m.index == 0,
    ensures
        m.retreat().index == m.titles.len() - 1,
        m.retreat().active_block == match m.block_ids {
            Some(ids) => Some(ids[m.titles.len() - 1]),
            None => None,
        },
        m.retreat().wf(),
{
}

} // verus!
