use singularity_toolkit::focus::{
    calculate_new_focus, compose_focus_path, focus_move_supported, FocusIndex, FocusNode, ParentCall, TreeTraverseOperation, UiEventRoute,
    WorldTreeTraversalOperation,
};
use singularity_toolkit::ui_event::{Key, KeyModifiers, UIEvent};

use TreeTraverseOperation::{BfsNext, Child, LastChild, Parent, RelShiftSibling};
use WorldTreeTraversalOperation::{GlobalRoot, Layerwise, NextLayer, PrevLayer};

#[test]
fn focusing_node_moves_to_children() {
    assert_eq!(calculate_new_focus(FocusIndex::Focusing, 3, Layerwise(Child(1))), (Some(FocusIndex::Child(1)), None));
    assert_eq!(calculate_new_focus(FocusIndex::Focusing, 3, Layerwise(Child(3))), (None, None));
    assert_eq!(calculate_new_focus(FocusIndex::Focusing, 3, Layerwise(LastChild)), (Some(FocusIndex::Child(2)), None));
    assert_eq!(calculate_new_focus(FocusIndex::Focusing, 0, Layerwise(LastChild)), (None, None));
    assert_eq!(calculate_new_focus(FocusIndex::Focusing, 0, NextLayer), (Some(FocusIndex::Inner), None));
    assert_eq!(calculate_new_focus(FocusIndex::Focusing, 2, PrevLayer), (None, Some(PrevLayer)));
    assert_eq!(calculate_new_focus(FocusIndex::Focusing, 2, Layerwise(Parent)), (None, Some(Layerwise(Parent))));
}

#[test]
fn child_focus_shifts_among_siblings_clamped() {
    assert_eq!(
        calculate_new_focus(FocusIndex::Child(1), 4, Layerwise(RelShiftSibling(2))),
        (Some(FocusIndex::Child(3)), None)
    );
    assert_eq!(
        calculate_new_focus(FocusIndex::Child(1), 4, Layerwise(RelShiftSibling(10))),
        (Some(FocusIndex::Child(3)), None)
    );
    assert_eq!(
        calculate_new_focus(FocusIndex::Child(1), 4, Layerwise(RelShiftSibling(-5))),
        (Some(FocusIndex::Child(0)), None)
    );
    assert_eq!(calculate_new_focus(FocusIndex::Child(1), 4, Layerwise(Parent)), (Some(FocusIndex::Focusing), None));
    assert_eq!(calculate_new_focus(FocusIndex::Child(1), 4, GlobalRoot), (Some(FocusIndex::Focusing), Some(GlobalRoot)));
    assert_eq!(calculate_new_focus(FocusIndex::Inner, 4, PrevLayer), (Some(FocusIndex::Focusing), None));
}

#[test]
fn node_keeps_focus_on_existing_children() {
    let mut node = FocusNode::new();
    let both = vec![ParentCall::DamageWindow, ParentCall::DamageTreeview];
    assert_eq!(node.change_focus(Layerwise(LastChild)), both);
    assert_eq!(node.focus_index(), FocusIndex::Focusing);
    node.add_child();
    node.add_child();
    assert_eq!(node.num_children(), 2);
    node.change_focus(Layerwise(LastChild));
    assert_eq!(node.focus_index(), FocusIndex::Child(1));
    node.change_focus(Layerwise(RelShiftSibling(-1)));
    assert_eq!(node.focus_index(), FocusIndex::Child(0));
    // the operation goes to the parent first, then the window, then the tree view
    assert_eq!(
        node.change_focus(PrevLayer),
        vec![ParentCall::ChangeFocus(PrevLayer), ParentCall::DamageWindow, ParentCall::DamageTreeview]
    );
    assert_eq!(node.focus_index(), FocusIndex::Focusing);
}

#[test]
fn events_are_routed_by_focus() {
    let mut node = FocusNode::new();
    node.add_child();
    let alt_d = UIEvent::KeyPress(Key::Char('d'), KeyModifiers::alt());
    let both = vec![ParentCall::DamageWindow, ParentCall::DamageTreeview];
    let r = node.route_ui_event(&alt_d, Some(Layerwise(Child(0))));
    assert_eq!(r, (UiEventRoute::Traverse, both.clone()));
    assert_eq!(node.focus_index(), FocusIndex::Child(0));
    assert_eq!(node.route_ui_event(&alt_d, None), (UiEventRoute::Child(0), vec![]));

    let mut node = FocusNode::new();
    let plain = UIEvent::KeyPress(Key::Char('d'), KeyModifiers::none());
    // a key that is no traversal enters the main applet
    assert_eq!(node.route_ui_event(&plain, Some(Layerwise(Child(0)))), (UiEventRoute::Main, both));
    assert_eq!(node.focus_index(), FocusIndex::Inner);
    assert_eq!(node.route_ui_event(&plain, None), (UiEventRoute::Main, vec![]));
    // a traversal from a node in focus goes on to the parent, with the notice
    let mut node = FocusNode::new();
    let alt_q = UIEvent::KeyPress(Key::Char('q'), KeyModifiers::alt());
    assert_eq!(
        node.route_ui_event(&alt_q, Some(PrevLayer)),
        (
            UiEventRoute::Traverse,
            vec![ParentCall::ChangeFocus(PrevLayer), ParentCall::DamageWindow, ParentCall::DamageTreeview]
        )
    );
}

#[test]
fn focus_paths_compose() {
    assert_eq!(compose_focus_path(FocusIndex::Focusing, vec![vec![9]]), vec![Vec::<usize>::new()]);
    assert_eq!(compose_focus_path(FocusIndex::Inner, vec![vec![1, 2]]), vec![vec![], vec![1, 2]]);
    assert_eq!(compose_focus_path(FocusIndex::Child(4), vec![vec![1], vec![2]]), vec![vec![4, 1], vec![2]]);
    assert_eq!(compose_focus_path(FocusIndex::Child(4), vec![]), vec![vec![4]]);
}

#[test]
fn damage_is_reported_once_until_drawn() {
    let mut node = FocusNode::new();
    // a new node has not been drawn: its changes are already pending
    assert_eq!(node.add_child(), vec![]);
    node.window_drawn();
    assert!(node.damage_window());
    assert!(!node.damage_window());
    node.treeview_drawn();
    assert_eq!(node.add_child(), vec![ParentCall::DamageTreeview]);
    // with both drawn, the tree view is reported before the window
    node.treeview_drawn();
    node.window_drawn();
    assert_eq!(node.add_child(), vec![ParentCall::DamageTreeview, ParentCall::DamageWindow]);
    assert!(!node.damage_treeview());
    assert_eq!(node.num_children(), 3);
}

#[test]
fn unwritten_focus_moves_are_refused() {
    assert!(!focus_move_supported(FocusIndex::Focusing, 2, Layerwise(BfsNext)));
    assert!(focus_move_supported(FocusIndex::Focusing, 2, NextLayer));
    assert!(!focus_move_supported(FocusIndex::Inner, 2, NextLayer));
    assert!(focus_move_supported(FocusIndex::Inner, 2, PrevLayer));
    assert!(focus_move_supported(FocusIndex::Child(1), 2, Layerwise(RelShiftSibling(-1))));
    assert!(!focus_move_supported(FocusIndex::Child(1), 2, Layerwise(Child(0))));
    assert!(!focus_move_supported(FocusIndex::Child(1), 2, Layerwise(RelShiftSibling(isize::MAX))));
    assert!(focus_move_supported(FocusIndex::Child(1), 2, GlobalRoot));
}

#[test]
fn routing_refuses_unwritten_traversals() {
    let node = FocusNode::new();
    let alt_b = UIEvent::KeyPress(Key::Char('b'), KeyModifiers::alt());
    assert!(!node.can_route(&alt_b, Some(Layerwise(BfsNext))));
    assert!(node.can_route(&alt_b, Some(NextLayer)));
    // without Alt the key is no traversal
    let plain_b = UIEvent::KeyPress(Key::Char('b'), KeyModifiers::none());
    assert!(node.can_route(&plain_b, Some(Layerwise(BfsNext))));
}
