//! Focus and selection state for a multi-pane terminal dashboard.
//!
//! Two independent pieces of state live here. A [`table::StatefulTable`] keeps
//! the rows of one pane together with the row under the cursor; a
//! [`tabs::TabsState`] keeps the tab that is current and the pane that
//! therefore receives input. Both come with a mathematical model, and every
//! operation is specified as a transition of that model.

pub mod block;
pub mod key;
pub mod table;
pub mod tabs;
