//! A replaceable list of rows with a cursor.
//!
//! [`StatefulTable`] pairs the rows of one pane with the terminal library's
//! own cursor, a `TableState`, so that the widget can be drawn from it
//! directly. Its view is a [`TableModel`]; each operation is one transition of
//! that model, and the laws at the end of the file are stated over it.

use tui::widgets::TableState;
use vstd::prelude::*;

verus! {

/// `tui::widgets::TableState`, the state that the terminal library keeps for
/// a table widget between two draws: the selected row, and a scroll offset
/// that this crate never reads. The type is opaque here; all that is known of
/// a value is its [`selected_row`].
#[verifier::external_type_specification]
#[verifier::external_body]
pub struct ExTableState(tui::widgets::TableState);

/// The row that a `TableState` holds as selected: none in a fresh state, and
/// from then on whatever `TableState::select` stored last.
pub uninterp spec fn selected_row(state: TableState) -> Option<usize>;

/// Taken on trust for `TableState::selected`: it returns the row that the
/// state holds as selected.
pub assume_specification[ TableState::selected ](state: &TableState) -> (row: Option<usize>)
    ensures
        row == selected_row(*state),
;

/// Taken on trust for `TableState::select`: afterwards the state holds
/// `index` as its selected row, be it a row or none. Nothing is said of the
/// scroll offset.
pub assume_specification[ TableState::select ](state: &mut TableState, index: Option<usize>)
    ensures
        selected_row(*final(state)) == index,
;

/// Taken on trust for `TableState::default`: the state that it makes has no
/// row selected.
pub assume_specification[ <TableState as Default>::default ]() -> (state: TableState)
    ensures
        selected_row(state) == None::<usize>,
;

/// What a table is to its callers: the rows in order, and the row under the
/// cursor, if any.
pub struct TableModel<T> {
    pub items: Seq<T>,
    pub selected: Option<nat>,
}

impl<T> TableModel<T> {
    /// A table without rows and without a selection.
    pub open spec fn empty() -> Self {
        TableModel { items: Seq::empty(), selected: None }
    }

    /// The selection, where there is one, points at a row.
    pub open spec fn wf(self) -> bool {
        self.selected matches Some(i) ==> i < self.items.len()
    }

    /// The selection as far as it points at a row. An index past the last row
    /// counts as no selection.
    pub open spec fn cursor(self) -> Option<nat> {
        match self.selected {
            Some(i) => if i < self.items.len() {
                Some(i)
            } else {
                None
            },
            None => None,
        }
    }

    /// The row under the cursor.
    pub open spec fn selected_item(self) -> Option<T> {
        match self.cursor() {
            Some(i) => Some(self.items[i as int]),
            None => None,
        }
    }

    /// The table after a refresh. The new rows replace the old ones, and the
    /// cursor snaps to the top: it goes to the first row if nothing was
    /// selected or another row was, and stays there if it already was there.
    /// Without rows there is no selection.
    pub open spec fn replace(self, items: Seq<T>) -> Self {
        TableModel {
            items,
            selected: if items.len() == 0 {
                None
            } else {
                Some(0)
            },
        }
    }

    /// The table after one step down. The cursor moves to the next row and
    /// wraps from the last row to the first; without a selection it goes to
    /// the first row. A table without rows keeps no selection.
    pub open spec fn advance(self) -> Self {
        TableModel {
            items: self.items,
            selected: if self.items.len() == 0 {
                None
            } else {
                match self.cursor() {
                    Some(i) => if i + 1 == self.items.len() {
                        Some(0)
                    } else {
                        Some(i + 1)
                    },
                    None => Some(0),
                }
            },
        }
    }

    /// The table after one step up. The cursor moves to the row before and
    /// wraps from the first row to the last; without a selection it goes to
    /// the first row. A table without rows keeps no selection.
    pub open spec fn retreat(self) -> Self {
        TableModel {
            items: self.items,
            selected: if self.items.len() == 0 {
                None
            } else {
                match self.cursor() {
                    Some(i) => if i == 0 {
                        Some((self.items.len() - 1) as nat)
                    } else {
                        Some((i - 1) as nat)
                    },
                    None => Some(0),
                }
            },
        }
    }

    /// The same rows with no selection.
    pub open spec fn unselect(self) -> Self {
        TableModel { items: self.items, selected: None }
    }

    /// The table after `n` steps down.
    pub open spec fn advance_by(self, n: nat) -> Self
        decreases n,
    {
        if n == 0 {
            self
        } else {
            self.advance().advance_by((n - 1) as nat)
        }
    }
}

/// The rows of one pane and the state of the widget that shows them.
///
/// Both fields are public, so that a renderer can borrow `state` while it
/// reads `items`. The operations therefore assume nothing of the selection
/// they find: whatever it was, the one they leave points at a row or is none.
pub struct StatefulTable<T> {
    pub state: TableState,
    pub items: Vec<T>,
}

impl<T> View for StatefulTable<T> {
    type V = TableModel<T>;

    open spec fn view(&self) -> TableModel<T> {
        TableModel {
            items: self.items@,
            selected: match selected_row(self.state) {
                Some(i) => Some(i as nat),
                None => None,
            },
        }
    }
}

impl<T> StatefulTable<T> {
    /// An empty table with nothing selected.
    pub fn new() -> (table: StatefulTable<T>)
        ensures
            table@ == TableModel::<T>::empty(),
            table@.wf(),
    {
        StatefulTable { state: TableState::default(), items: Vec::new() }
    }

    /// Installs `items` as the rows and snaps the cursor to the top.
    pub fn set_items(&mut self, items: Vec<T>)
        ensures
            final(self)@ == old(self)@.replace(items@),
            final(self)@.wf(),
    {
        self.items = items;
        if self.items.len() == 0 {
            self.state.select(None);
        } else {
            self.state.select(Some(0));
        }
    }

    /// Moves the cursor one row down, wrapping at the end.
    pub fn next(&mut self)
        ensures
            final(self)@ == old(self)@.advance(),
            final(self)@.wf(),
    {
        let len = self.items.len();
        let row = if len == 0 {
            None
        } else {
            match self.state.selected() {
                Some(i) => if i < len - 1 {
                    Some(i + 1)
                } else {
                    Some(0)
                },
                None => Some(0),
            }
        };
        self.state.select(row);
    }

    /// Moves the cursor one row up, wrapping at the start.
    pub fn previous(&mut self)
        ensures
            final(self)@ == old(self)@.retreat(),
            final(self)@.wf(),
    {
        let len = self.items.len();
        let row = if len == 0 {
            None
        } else {
            match self.state.selected() {
                Some(i) => if i == 0 {
                    Some(len - 1)
                } else if i < len {
                    Some(i - 1)
                } else {
                    Some(0)
                },
                None => Some(0),
            }
        };
        self.state.select(row);
    }

    /// Drops the selection and leaves the rows alone.
    pub fn _unselect(&mut self)
        ensures
            final(self)@ == old(self)@.unselect(),
            final(self)@.wf(),
    {
        self.state.select(None);
    }
}

impl<T: Clone> StatefulTable<T> {
    /// A clone of the row under the cursor, or none where the cursor points
    /// at no row. The table stays as it is.
    pub fn get_selected_item(&mut self) -> (item: Option<T>)
        ensures
            *final(self) == *old(self),
            match old(self)@.selected_item() {
                Some(row) => item matches Some(copy) && cloned(row, copy),
                None => item is None,
            },
    {
        match self.state.selected() {
            Some(i) => if i < self.items.len() {
                Some(self.items[i].clone())
            } else {
                None
            },
            None => None,
        }
    }
}

/// A refresh with at least one row leaves the cursor on the first of the new
/// rows, whatever was selected before.
pub proof fn lemma_replace_selects_first<T>(m: TableModel<T>, items: Seq<T>)
    requires
        items.len() >= 1,
    ensures
        m.replace(items).selected == Some(0nat),
        m.replace(items).selected_item() == Some(items[0]),
{
}

/// A table without rows has no selected row, and stepping through it in
/// either direction leaves it without a selection.
pub proof fn lemma_empty_stays_unselected<T>(m: TableModel<T>)
    requires
        m.items.len() == 0,
    ensures
        m.selected_item() is None,
        m.advance().selected is None,
        m.advance().selected_item() is None,
        m.retreat().selected is None,
        m.retreat().selected_item() is None,
{
}

/// Where the cursor is on a row, a step down followed by a step up brings it
/// back to that row, and so does a step up followed by a step down.
pub proof fn lemma_advance_retreat_inverse<T>(m: TableModel<T>)
    requires
        m.wf(),
        m.selected is Some,
    ensures
        m.advance().retreat() == m,
        m.retreat().advance() == m,
{
}

/// From row `i`, `n` steps down with `n` no larger than the number of rows
/// lead to row `i + n`, counted round the table.
proof fn lemma_advance_by_lands<T>(m: TableModel<T>, n: nat)
    requires
        m.wf(),
        m.selected is Some,
        n <= m.items.len(),
    ensures
        m.advance_by(n).items == m.items,
        m.advance_by(n).selected == Some(
            if m.selected->0 + n < m.items.len() {
                m.selected->0 + n
            } else {
                (m.selected->0 + n - m.items.len()) as nat
            },
        ),
    decreases n,
{
    if n > 0 {
        lemma_advance_by_lands(m.advance(), (n - 1) as nat);
    }
}

/// Where the cursor is on a row, as many steps down as there are rows bring
/// it back to that row.
pub proof fn lemma_advance_cycle<T>(m: TableModel<T>)
    requires
        m.wf(),
        m.selected is Some,
    ensures
        m.advance_by(m.items.len()) == m,
{
    lemma_advance_by_lands(m, m.items.len());
}

} // verus!
