use dash_state::key::{Key, KeyBindings};

fn bindings() -> KeyBindings {
    KeyBindings {
        esc: Key::Esc,
        quit: Key::Char('q'),
        help: Key::Char('?'),
        submit: Key::Enter,
        refresh: Key::Ctrl('r'),
        toggle_theme: Key::Char('t'),
        jump_to_all_context: Key::Char('A'),
        jump_to_current_context: Key::Char('C'),
        up: Key::Up,
        down: Key::Down,
        left: Key::Left,
        right: Key::Right,
        toggle_info: Key::Char('i'),
        select_all_namespace: Key::Char('a'),
        jump_to_namespace: Key::Char('n'),
        jump_to_pods: Key::Char('1'),
        jump_to_services: Key::Char('2'),
        jump_to_nodes: Key::Char('3'),
        jump_to_deployments: Key::Char('5'),
        jump_to_configmaps: Key::Char('4'),
        jump_to_statefulsets: Key::Char('6'),
        jump_to_replicasets: Key::Char('7'),
    }
}

#[test]
fn key_bindings_name_every_action() {
    let keys = bindings();
    assert_eq!(keys.esc, Key::Esc);
    assert_eq!(keys.quit, Key::Char('q'));
    assert_eq!(keys.help, Key::Char('?'));
    assert_eq!(keys.submit, Key::Enter);
    assert_eq!(keys.refresh, Key::Ctrl('r'));
    assert_eq!(keys.toggle_theme, Key::Char('t'));
    assert_eq!(keys.jump_to_all_context, Key::Char('A'));
    assert_eq!(keys.jump_to_current_context, Key::Char('C'));
    assert_eq!(keys.up, Key::Up);
    assert_eq!(keys.down, Key::Down);
    assert_eq!(keys.left, Key::Left);
    assert_eq!(keys.right, Key::Right);
    assert_eq!(keys.toggle_info, Key::Char('i'));
    assert_eq!(keys.select_all_namespace, Key::Char('a'));
    assert_eq!(keys.jump_to_namespace, Key::Char('n'));
    assert_eq!(keys.jump_to_pods, Key::Char('1'));
    assert_eq!(keys.jump_to_services, Key::Char('2'));
    assert_eq!(keys.jump_to_nodes, Key::Char('3'));
    assert_eq!(keys.jump_to_deployments, Key::Char('5'));
    assert_eq!(keys.jump_to_configmaps, Key::Char('4'));
    assert_eq!(keys.jump_to_statefulsets, Key::Char('6'));
    assert_eq!(keys.jump_to_replicasets, Key::Char('7'));
}

#[test]
fn key_bindings_clone_is_equal() {
    let keys = bindings();
    let copy = keys.clone();
    assert_eq!(copy, keys);
}

#[test]
fn keys_compare_by_kind_and_payload() {
    assert_eq!(Key::Char('a'), Key::Char('a'));
    assert_ne!(Key::Char('a'), Key::Char('b'));
    assert_ne!(Key::Char('a'), Key::Ctrl('a'));
    assert_ne!(Key::Ctrl('a'), Key::Alt('a'));
    assert_eq!(Key::F(5), Key::F(5));
    assert_ne!(Key::F(5), Key::F(6));
    assert_ne!(Key::Up, Key::Down);
}
