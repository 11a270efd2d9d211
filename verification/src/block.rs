//! The panes that can hold the input focus.

use vstd::prelude::*;

verus! {

/// A symbolic name for a pane of the dashboard.
///
/// The focus router hands one of these out to say which pane is eligible to
/// receive navigation keys; it never looks inside.
#[derive(Clone, Copy, Debug, PartialEq, Eq, Structural)]
pub enum ActiveBlock {
    Help,
    Contexts,
    Namespaces,
    Pods,
    Services,
    Nodes,
    Deployments,
    ConfigMaps,
    StatefulSets,
    ReplicaSets,
}

} // verus!
