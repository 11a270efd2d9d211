//! Physical keys and the table that binds them to actions.

use vstd::prelude::*;

verus! {

/// A key as the input layer reports it.
#[derive(Clone, Copy, Debug, PartialEq, Eq, Structural)]
pub enum Key {
    Enter,
    Tab,
    Backspace,
    Esc,
    Left,
    Right,
    Up,
    Down,
    Ins,
    Delete,
    Home,
    End,
    PageUp,
    PageDown,
    /// A function key, by its number.
    F(u8),
    Char(char),
    Ctrl(char),
    Alt(char),
    Unknown,
}

/// The key bound to each action that the dashboard understands.
///
/// The table is filled once at start-up and only read afterwards. This crate
/// gives it no meaning beyond the names of the actions: the input layer maps a
/// key press through it to one of the navigation calls.
#[derive(Clone, Copy, Debug, PartialEq, Eq)]
pub struct KeyBindings {
    pub esc: Key,
    pub quit: Key,
    pub help: Key,
    pub submit: Key,
    pub refresh: Key,
    pub toggle_theme: Key,
    pub jump_to_all_context: Key,
    pub jump_to_current_context: Key,
    pub up: Key,
    pub down: Key,
    pub left: Key,
    pub right: Key,
    pub toggle_info: Key,
    pub select_all_namespace: Key,
    pub jump_to_namespace: Key,
    pub jump_to_pods: Key,
    pub jump_to_services: Key,
    pub jump_to_nodes: Key,
    pub jump_to_deployments: Key,
    pub jump_to_configmaps: Key,
    pub jump_to_statefulsets: Key,
    pub jump_to_replicasets: Key,
}

} // verus!
