use vstd::prelude::*;
use crate::ui_event::{KeyModifiers, KeyTrait, UIEvent, spec_alt, spec_to_char};

verus! {

/// A move of the focus within one tree of applets.
#[derive(Debug, Clone, Copy, PartialEq, Eq, Structural)]
pub enum TreeTraverseOperation {
    Parent,
    /// Moves among the siblings by the given offset.
    RelShiftSibling(isize),
    BfsPrev,
    BfsNext,
    Child(usize),
    LastChild,
}

/// A move of the focus among nested worlds of applet trees.
#[derive(Debug, Clone, Copy, PartialEq, Eq, Structural)]
pub enum WorldTreeTraversalOperation {
    GlobalRoot,
    /// Leaves the current world for the one it is nested in.
    PrevLayer,
    /// Enters the world nested in the current node.
    NextLayer,
    Layerwise(TreeTraverseOperation),
}

/// Events that the node hierarchy sends to an applet.
#[derive(Debug, Clone, Copy, PartialEq, Eq, Structural)]
pub enum NodularEvent {
    /// The selector is over this applet but it is not selected.
    Highlighted(bool),
    Focused(bool),
}

/// Where the focus of a node is: on the node itself, inside its main applet,
/// or on one of its children.
#[derive(Debug, Clone, Copy, PartialEq, Eq, Structural)]
pub enum FocusIndex {
    Focusing,
    Inner,
    Child(usize),
}

/// The operations whose handling is not written yet (the node stops on them).
pub open spec fn focus_unsupported(focus: FocusIndex, op: WorldTreeTraversalOperation) -> bool {
    match focus {
        FocusIndex::Focusing => match op {
            WorldTreeTraversalOperation::Layerwise(TreeTraverseOperation::BfsPrev) => true,
            WorldTreeTraversalOperation::Layerwise(TreeTraverseOperation::BfsNext) => true,
            _ => false,
        },
        FocusIndex::Inner => match op {
            WorldTreeTraversalOperation::PrevLayer => false,
            _ => true,
        },
        FocusIndex::Child(_) => match op {
            WorldTreeTraversalOperation::GlobalRoot => false,
            WorldTreeTraversalOperation::PrevLayer => false,
            WorldTreeTraversalOperation::Layerwise(TreeTraverseOperation::Parent) => false,
            WorldTreeTraversalOperation::Layerwise(TreeTraverseOperation::RelShiftSibling(_)) => false,
            _ => true,
        },
    }
}

/// `v` clamped into `[lo, hi]`.
pub open spec fn clamp_int(v: int, lo: int, hi: int) -> int {
    if v < lo {
        lo
    } else if v > hi {
        hi
    } else {
        v
    }
}

/// The new focus (if it changes) and the operation passed on to the parent
/// node (if any) when `op` arrives at a node with focus `focus` and
/// `num_children` children.
pub open spec fn new_focus_spec(focus: FocusIndex, num_children: nat, op: WorldTreeTraversalOperation) -> (
    Option<FocusIndex>,
    Option<WorldTreeTraversalOperation>,
) {
    match focus {
        FocusIndex::Focusing => match op {
            WorldTreeTraversalOperation::NextLayer => (Some(FocusIndex::Inner), None),
            WorldTreeTraversalOperation::Layerwise(TreeTraverseOperation::Child(i)) => if i < num_children {
                (Some(FocusIndex::Child(i)), None)
            } else {
                (None, None)
            },
            WorldTreeTraversalOperation::Layerwise(TreeTraverseOperation::LastChild) => if num_children > 0 {
                (Some(FocusIndex::Child((num_children - 1) as usize)), None)
            } else {
                (None, None)
            },
            _ => (None, Some(op)),
        },
        FocusIndex::Inner => (Some(FocusIndex::Focusing), None),
        FocusIndex::Child(i) => match op {
            WorldTreeTraversalOperation::Layerwise(TreeTraverseOperation::Parent) => (Some(FocusIndex::Focusing), None),
            WorldTreeTraversalOperation::Layerwise(TreeTraverseOperation::RelShiftSibling(shift)) => (
                Some(FocusIndex::Child(clamp_int(i + shift, 0, num_children - 1) as usize)),
                None,
            ),
            _ => (Some(FocusIndex::Focusing), Some(op)),
        },
    }
}

/// The node's own focus is consistent: a focused child exists.
pub open spec fn focus_wf(focus: FocusIndex, num_children: nat) -> bool {
    match focus {
        FocusIndex::Child(i) => i < num_children,
        _ => true,
    }
}

/// What handling `op` requires: it is handled, and shifting among the
/// siblings needs a sibling to land on and an offset that does not overflow.
pub open spec fn can_calculate_focus(focus: FocusIndex, num_children: nat, op: WorldTreeTraversalOperation) -> bool {
    &&& !focus_unsupported(focus, op)
    &&& num_children <= isize::MAX
    &&& (focus matches FocusIndex::Child(i) ==> (op matches WorldTreeTraversalOperation::Layerwise(
        TreeTraverseOperation::RelShiftSibling(shift),
    ) ==> num_children >= 1 && isize::MIN <= i + shift <= isize::MAX && i <= isize::MAX))
}

/// Whether a node can handle a focus move (`calculate_new_focus` may be
/// called with it).
pub fn focus_move_supported(focus: FocusIndex, num_children: usize, operation: WorldTreeTraversalOperation) -> (ok:
    bool)
    ensures
        ok == can_calculate_focus(focus, num_children as nat, operation),
{
    if num_children > isize::MAX as usize {
        return false;
    }
    match focus {
        FocusIndex::Focusing => match operation {
            WorldTreeTraversalOperation::Layerwise(TreeTraverseOperation::BfsPrev) => false,
            WorldTreeTraversalOperation::Layerwise(TreeTraverseOperation::BfsNext) => false,
            _ => true,
        },
        FocusIndex::Inner => match operation {
            WorldTreeTraversalOperation::PrevLayer => true,
            _ => false,
        },
        FocusIndex::Child(i) => match operation {
            WorldTreeTraversalOperation::GlobalRoot => true,
            WorldTreeTraversalOperation::PrevLayer => true,
            WorldTreeTraversalOperation::Layerwise(TreeTraverseOperation::Parent) => true,
            WorldTreeTraversalOperation::Layerwise(TreeTraverseOperation::RelShiftSibling(shift)) => {
                num_children >= 1 && i <= isize::MAX as usize && (i as isize).checked_add(shift).is_some()
            },
            _ => false,
        },
    }
}

/// Works out where the focus goes when `op` arrives at a node, without
/// changing anything: the new focus if it changes, and the operation to pass
/// on to the parent node if any.
pub fn calculate_new_focus(focus: FocusIndex, num_children: usize, operation: WorldTreeTraversalOperation) -> (r: (
    Option<FocusIndex>,
    Option<WorldTreeTraversalOperation>,
))
    requires
        can_calculate_focus(focus, num_children as nat, operation),
    ensures
        r == new_focus_spec(focus, num_children as nat, operation),
{
    match focus {
        FocusIndex::Focusing => match operation {
            WorldTreeTraversalOperation::NextLayer => (Some(FocusIndex::Inner), None),
            WorldTreeTraversalOperation::Layerwise(TreeTraverseOperation::Child(child_index)) => {
                if child_index < num_children {
                    (Some(FocusIndex::Child(child_index)), None)
                } else {
                    (None, None)
                }
            },
            WorldTreeTraversalOperation::Layerwise(TreeTraverseOperation::LastChild) => {
                if num_children > 0 {
                    (Some(FocusIndex::Child(num_children - 1)), None)
                } else {
                    (None, None)
                }
            },
            _ => (None, Some(operation)),
        },
        FocusIndex::Inner => (Some(FocusIndex::Focusing), None),
        FocusIndex::Child(child_index) => match operation {
            WorldTreeTraversalOperation::Layerwise(TreeTraverseOperation::Parent) => (
                Some(FocusIndex::Focusing),
                None,
            ),
            WorldTreeTraversalOperation::Layerwise(TreeTraverseOperation::RelShiftSibling(shift)) => {
                let target: isize = child_index as isize + shift;
                let last: isize = num_children as isize - 1;
                let clamped: isize = if target < 0 {
                    0
                } else if target > last {
                    last
                } else {
                    target
                };
                (Some(FocusIndex::Child(clamped as usize)), None)
            },
            _ => (Some(FocusIndex::Focusing), Some(operation)),
        },
    }
}

/// The focus state of a node of the applet hierarchy, with whether its
/// window and its tree view have changed since they were last drawn.
pub struct FocusNode {
    focus_index: FocusIndex,
    num_children: usize,
    window_damaged: bool,
    treeview_damaged: bool,
}

/// A call a node makes on its parent's hook.
#[derive(Debug, Clone, Copy, PartialEq, Eq, Structural)]
pub enum ParentCall {
    /// Pass a focus move on to the parent.
    ChangeFocus(WorldTreeTraversalOperation),
    /// The node's window changed.
    DamageWindow,
    /// The node's tree view changed.
    DamageTreeview,
}

/// The calls, in order, after a child is added: the tree view is reported
/// when no change of it was pending, then the window likewise.
pub open spec fn add_child_calls(treeview_pending: bool, window_pending: bool) -> Seq<ParentCall> {
    (if treeview_pending {
        Seq::<ParentCall>::empty()
    } else {
        seq![ParentCall::DamageTreeview]
    }) + (if window_pending {
        Seq::<ParentCall>::empty()
    } else {
        seq![ParentCall::DamageWindow]
    })
}

/// The calls, in order, after a focus move: the operation for the parent,
/// if any, then the window and the tree view, whatever is pending.
pub open spec fn focus_change_calls(parent_call: Option<WorldTreeTraversalOperation>) -> Seq<ParentCall> {
    (match parent_call {
        Some(op) => seq![ParentCall::ChangeFocus(op)],
        None => Seq::<ParentCall>::empty(),
    }) + seq![ParentCall::DamageWindow, ParentCall::DamageTreeview]
}

/// The calls of a focus move, built in order.
fn focus_change_calls_exec(parent_call: Option<WorldTreeTraversalOperation>) -> (calls: Vec<ParentCall>)
    ensures
        calls@ == focus_change_calls(parent_call),
{
    let mut calls: Vec<ParentCall> = Vec::new();
    if let Some(op) = parent_call {
        calls.push(ParentCall::ChangeFocus(op));
    }
    calls.push(ParentCall::DamageWindow);
    calls.push(ParentCall::DamageTreeview);
    assert(calls@ =~= focus_change_calls(parent_call));
    calls
}

/// Reporting a change: the parent hears of it only when nothing was pending
/// (the first report after the last drawing); afterwards a change is pending.
/// Gives whether to report, and the new pending flag.
pub open spec fn damage_report(pending: bool) -> (bool, bool) {
    (!pending, true)
}

/// After one change is reported, further changes are not reported again
/// until the node is drawn.
pub proof fn lemma_damage_reported_once(pending: bool)
    ensures
        !damage_report(damage_report(pending).1).0,
        damage_report(false).0,
{
}

impl FocusNode {
    pub closed spec fn focus(self) -> FocusIndex {
        self.focus_index
    }

    pub closed spec fn children(self) -> nat {
        self.num_children as nat
    }

    /// The window changed since it was last drawn.
    pub closed spec fn window_pending(self) -> bool {
        self.window_damaged
    }

    /// The tree view changed since it was last drawn.
    pub closed spec fn treeview_pending(self) -> bool {
        self.treeview_damaged
    }

    /// The focus is consistent, and there are no more children than a
    /// vector can hold.
    pub open spec fn wf(self) -> bool {
        focus_wf(self.focus(), self.children()) && self.children() <= isize::MAX
    }

    /// A node with no children, focusing on itself, not drawn yet.
    pub fn new() -> (node: FocusNode)
        ensures
            node.wf(),
            node.focus() == FocusIndex::Focusing,
            node.children() == 0,
            node.window_pending(),
            node.treeview_pending(),
    {
        FocusNode { focus_index: FocusIndex::Focusing, num_children: 0, window_damaged: true, treeview_damaged: true }
    }

    pub fn focus_index(&self) -> (f: FocusIndex)
        ensures
            f == self.focus(),
    {
        self.focus_index
    }

    pub fn num_children(&self) -> (n: usize)
        ensures
            n == self.children(),
    {
        self.num_children
    }

    /// Records one more child; the focus stays where it is. Both the tree
    /// view and the window change; returns the reports the parent must
    /// hear, in order (see `add_child_calls`).
    pub fn add_child(&mut self) -> (calls: Vec<ParentCall>)
        requires
            old(self).wf(),
            old(self).children() < isize::MAX,
        ensures
            final(self).wf(),
            final(self).children() == old(self).children() + 1,
            final(self).focus() == old(self).focus(),
            final(self).treeview_pending(),
            final(self).window_pending(),
            calls@ == add_child_calls(old(self).treeview_pending(), old(self).window_pending()),
    {
        self.num_children = self.num_children + 1;
        let mut calls: Vec<ParentCall> = Vec::new();
        if !self.treeview_damaged {
            calls.push(ParentCall::DamageTreeview);
        }
        if !self.window_damaged {
            calls.push(ParentCall::DamageWindow);
        }
        self.treeview_damaged = true;
        self.window_damaged = true;
        assert(calls@ =~= add_child_calls(old(self).treeview_pending(), old(self).window_pending()));
        calls
    }

    /// A child's (or the main applet's) window changed: returns whether the
    /// parent must hear of it.
    pub fn damage_window(&mut self) -> (notify: bool)
        ensures
            final(self).focus() == old(self).focus(),
            final(self).children() == old(self).children(),
            final(self).treeview_pending() == old(self).treeview_pending(),
            (notify, final(self).window_pending()) == damage_report(old(self).window_pending()),
    {
        let notify = !self.window_damaged;
        self.window_damaged = true;
        notify
    }

    /// A child's (or the main applet's) tree view changed: returns whether
    /// the parent must hear of it.
    pub fn damage_treeview(&mut self) -> (notify: bool)
        ensures
            final(self).focus() == old(self).focus(),
            final(self).children() == old(self).children(),
            final(self).window_pending() == old(self).window_pending(),
            (notify, final(self).treeview_pending()) == damage_report(old(self).treeview_pending()),
    {
        let notify = !self.treeview_damaged;
        self.treeview_damaged = true;
        notify
    }

    /// The window is being drawn: no change is pending any more.
    pub fn window_drawn(&mut self)
        ensures
            final(self).focus() == old(self).focus(),
            final(self).children() == old(self).children(),
            final(self).treeview_pending() == old(self).treeview_pending(),
            !final(self).window_pending(),
    {
        self.window_damaged = false;
    }

    /// The tree view is being drawn: no change is pending any more.
    pub fn treeview_drawn(&mut self)
        ensures
            final(self).focus() == old(self).focus(),
            final(self).children() == old(self).children(),
            final(self).window_pending() == old(self).window_pending(),
            !final(self).treeview_pending(),
    {
        self.treeview_damaged = false;
    }

    /// Applies a focus move: sets the new focus if there is one. Returns the
    /// calls to make on the parent, in order (see `focus_change_calls`): the
    /// operation to pass on, if any, then the window and the tree view, which
    /// a focus move always changes, whatever is pending.
    pub fn change_focus(&mut self, operation: WorldTreeTraversalOperation) -> (calls: Vec<ParentCall>)
        requires
            old(self).wf(),
            can_calculate_focus(old(self).focus(), old(self).children(), operation),
        ensures
            final(self).wf(),
            final(self).children() == old(self).children(),
            final(self).window_pending() == old(self).window_pending(),
            final(self).treeview_pending() == old(self).treeview_pending(),
            calls@ == focus_change_calls(new_focus_spec(old(self).focus(), old(self).children(), operation).1),
            final(self).focus() == match new_focus_spec(old(self).focus(), old(self).children(), operation).0 {
                Some(f) => f,
                None => old(self).focus(),
            },
    {
        let (new_focus, parent_call) = calculate_new_focus(self.focus_index, self.num_children, operation);
        if let Some(new_focus) = new_focus {
            self.focus_index = new_focus;
        }
        focus_change_calls_exec(parent_call)
    }
}

/// Where a node sends an input event.
#[derive(Debug, Clone, Copy, PartialEq, Eq, Structural)]
pub enum UiEventRoute {
    /// The event moved the focus, and goes no further.
    Traverse,
    /// Forward the event to the node's main applet.
    Main,
    /// Forward the event to the child with this index.
    Child(usize),
}

/// The traversal an event asks for: a key with Alt alone whose character
/// stands for a traversal (`traversal` is what that character stands for).
pub open spec fn event_traversal(ui_event: UIEvent, traversal: Option<WorldTreeTraversalOperation>) -> Option<
    WorldTreeTraversalOperation,
> {
    match ui_event {
        UIEvent::KeyPress(key, m) => if m == spec_alt() && spec_to_char(key) is Some {
            traversal
        } else {
            None
        },
        _ => None,
    }
}

impl FocusNode {
    /// Whether the node can route an event (`route_ui_event` may be called
    /// with it): a traversal it would make must be one it handles.
    pub fn can_route(&self, ui_event: &UIEvent, traversal: Option<WorldTreeTraversalOperation>) -> (ok: bool)
        ensures
            ok == (self.focus() is Focusing ==> (event_traversal(*ui_event, traversal) matches Some(op)
                ==> can_calculate_focus(self.focus(), self.children(), op))),
    {
        match self.focus_index {
            FocusIndex::Focusing => {
                if let UIEvent::KeyPress(key, m) = ui_event {
                    if *m == KeyModifiers::alt() && key.to_char().is_some() {
                        if let Some(op) = traversal {
                            return focus_move_supported(self.focus_index, self.num_children, op);
                        }
                    }
                }
                true
            },
            _ => true,
        }
    }

    /// Routes an input event. While the node focuses on itself, a traversal
    /// key (Alt with a key that stands for a traversal) moves the focus, and
    /// any other event enters the main applet and goes to it; either way the
    /// focus moved, and the calls of that move (`focus_change_calls`) are
    /// made on the parent before the event goes anywhere. Otherwise the event
    /// goes where the focus is, and no call is made.
    ///
    /// `traversal` is the traversal that the key's character stands for, if any.
    pub fn route_ui_event(&mut self, ui_event: &UIEvent, traversal: Option<WorldTreeTraversalOperation>) -> (r: (
        UiEventRoute,
        Vec<ParentCall>,
    ))
        requires
            old(self).wf(),
            old(self).focus() is Focusing ==> (event_traversal(*ui_event, traversal) matches Some(op)
                ==> can_calculate_focus(old(self).focus(), old(self).children(), op)),
        ensures
            final(self).wf(),
            final(self).children() == old(self).children(),
            final(self).window_pending() == old(self).window_pending(),
            final(self).treeview_pending() == old(self).treeview_pending(),
            ({
                let (route, calls) = r;
                match old(self).focus() {
                    FocusIndex::Focusing => match event_traversal(*ui_event, traversal) {
                        Some(op) => {
                            &&& route == UiEventRoute::Traverse
                            &&& calls@ == focus_change_calls(new_focus_spec(old(self).focus(), old(self).children(), op).1)
                            &&& final(self).focus() == match new_focus_spec(old(self).focus(), old(self).children(), op).0 {
                                Some(f) => f,
                                None => old(self).focus(),
                            }
                        },
                        None => {
                            &&& route == UiEventRoute::Main
                            &&& calls@ == focus_change_calls(None)
                            &&& final(self).focus() == FocusIndex::Inner
                        },
                    },
                    FocusIndex::Inner => route == UiEventRoute::Main && calls@.len() == 0 && final(self).focus()
                        == old(self).focus(),
                    FocusIndex::Child(i) => route == UiEventRoute::Child(i) && calls@.len() == 0 && final(self).focus()
                        == old(self).focus(),
                }
            }),
    {
        match self.focus_index {
            FocusIndex::Focusing => {
                let mut asked: Option<WorldTreeTraversalOperation> = None;
                if let UIEvent::KeyPress(key, m) = ui_event {
                    if *m == KeyModifiers::alt() && key.to_char().is_some() {
                        asked = traversal;
                    }
                }
                match asked {
                    Some(operation) => {
                        let calls = self.change_focus(operation);
                        (UiEventRoute::Traverse, calls)
                    },
                    None => {
                        let calls = self.change_focus(WorldTreeTraversalOperation::NextLayer);
                        (UiEventRoute::Main, calls)
                    },
                }
            },
            FocusIndex::Inner => (UiEventRoute::Main, Vec::new()),
            FocusIndex::Child(child_index) => (UiEventRoute::Child(child_index), Vec::new()),
        }
    }
}

/// A node that focuses on itself does not handle a move addressed to the
/// layer above it (to the global root, out of its world, to its parent, or
/// to a sibling): its focus stays, and the move goes unchanged to its parent.
pub proof fn lemma_focusing_passes_moves_up(num_children: nat, op: WorldTreeTraversalOperation)
    requires
        op matches WorldTreeTraversalOperation::GlobalRoot || op matches WorldTreeTraversalOperation::PrevLayer
            || op matches WorldTreeTraversalOperation::Layerwise(TreeTraverseOperation::Parent)
            || op matches WorldTreeTraversalOperation::Layerwise(TreeTraverseOperation::RelShiftSibling(_)),
    ensures
        new_focus_spec(FocusIndex::Focusing, num_children, op).0 is None,
        new_focus_spec(FocusIndex::Focusing, num_children, op).1 == Some(op),
{
}

/// A node that focuses on itself moves into its world on `NextLayer`, to an
/// existing child on `Child(i)` and to its last child on `LastChild`, and
/// passes none of these on; a child that does not exist leaves the focus.
pub proof fn lemma_focusing_moves_down(num_children: nat, i: usize)
    ensures
        new_focus_spec(FocusIndex::Focusing, num_children, WorldTreeTraversalOperation::NextLayer) == (
            Some(FocusIndex::Inner),
            None::<WorldTreeTraversalOperation>,
        ),
        i < num_children ==> new_focus_spec(
            FocusIndex::Focusing,
            num_children,
            WorldTreeTraversalOperation::Layerwise(TreeTraverseOperation::Child(i)),
        ) == (Some(FocusIndex::Child(i)), None::<WorldTreeTraversalOperation>),
        i >= num_children ==> new_focus_spec(
            FocusIndex::Focusing,
            num_children,
            WorldTreeTraversalOperation::Layerwise(TreeTraverseOperation::Child(i)),
        ) == (None::<FocusIndex>, None::<WorldTreeTraversalOperation>),
        num_children > 0 ==> new_focus_spec(
            FocusIndex::Focusing,
            num_children,
            WorldTreeTraversalOperation::Layerwise(TreeTraverseOperation::LastChild),
        ).0 == Some(FocusIndex::Child((num_children - 1) as usize)),
{
}

/// A node whose focus is on child `i`: a move to the parent brings the focus
/// back to the node itself; a sibling shift by `k` lands on child `i + k`
/// when that child exists, and on the first or last child otherwise; a move
/// out of the world refocuses the node and goes on to the parent. None of the
/// first two goes further.
pub proof fn lemma_child_focus_moves(num_children: nat, i: usize, k: isize)
    requires
        i < num_children,
        num_children <= isize::MAX,
    ensures
        new_focus_spec(
            FocusIndex::Child(i),
            num_children,
            WorldTreeTraversalOperation::Layerwise(TreeTraverseOperation::Parent),
        ) == (Some(FocusIndex::Focusing), None::<WorldTreeTraversalOperation>),
        ({
            let r = new_focus_spec(
                FocusIndex::Child(i),
                num_children,
                WorldTreeTraversalOperation::Layerwise(TreeTraverseOperation::RelShiftSibling(k)),
            );
            &&& r.1 is None
            &&& r.0 matches Some(FocusIndex::Child(j)) && (0 <= i + k < num_children ==> j == i + k) && (i + k < 0
                ==> j == 0) && (i + k >= num_children ==> j == num_children - 1)
        }),
        new_focus_spec(FocusIndex::Child(i), num_children, WorldTreeTraversalOperation::PrevLayer) == (
            Some(FocusIndex::Focusing),
            Some(WorldTreeTraversalOperation::PrevLayer),
        ),
        new_focus_spec(FocusIndex::Child(i), num_children, WorldTreeTraversalOperation::GlobalRoot) == (
            Some(FocusIndex::Focusing),
            Some(WorldTreeTraversalOperation::GlobalRoot),
        ),
{
}

/// Every focus move keeps a focused child among the existing children.
pub proof fn lemma_new_focus_in_bounds(focus: FocusIndex, num_children: nat, op: WorldTreeTraversalOperation)
    requires
        focus_wf(focus, num_children),
        can_calculate_focus(focus, num_children, op),
    ensures
        new_focus_spec(focus, num_children, op).0 matches Some(f) ==> focus_wf(f, num_children),
{
}

/// The path to the focused applet across nested worlds: one tree path per
/// world, each a list of child indices from that world's root. The focus
/// of a node on itself is the path into its world, ending at the root.
pub open spec fn focus_path_spec(focus: FocusIndex, sub_path: Seq<Seq<usize>>) -> Seq<Seq<usize>> {
    match focus {
        FocusIndex::Focusing => seq![Seq::<usize>::empty()],
        FocusIndex::Inner => seq![Seq::<usize>::empty()] + sub_path,
        FocusIndex::Child(i) => {
            let tail = if sub_path.len() == 0 { seq![Seq::<usize>::empty()] } else { sub_path };
            tail.update(0, seq![i] + tail[0])
        },
    }
}

/// The focus path of a node given `sub_path`, the focus path reported by
/// the applet in focus (its main applet, or the focused child).
pub fn compose_focus_path(focus: FocusIndex, sub_path: Vec<Vec<usize>>) -> (path: Vec<Vec<usize>>)
    ensures
        path@.map_values(|p: Vec<usize>| p@) == focus_path_spec(focus, sub_path@.map_values(|p: Vec<usize>| p@)),
{
    let ghost sub = sub_path@.map_values(|p: Vec<usize>| p@);
    match focus {
        FocusIndex::Focusing => {
            let mut path: Vec<Vec<usize>> = Vec::new();
            path.push(Vec::new());
            proof {
                assert(path@.map_values(|p: Vec<usize>| p@) =~= seq![Seq::<usize>::empty()]);
            }
            path
        },
        FocusIndex::Inner => {
            let mut path_tail = sub_path;
            path_tail.insert(0, Vec::new());
            proof {
                assert(path_tail@.map_values(|p: Vec<usize>| p@) =~= seq![Seq::<usize>::empty()] + sub);
            }
            path_tail
        },
        FocusIndex::Child(child_index) => {
            let mut path_tail = sub_path;
            if path_tail.len() == 0 {
                path_tail.push(Vec::new());
            }
            let ghost mid = path_tail@.map_values(|p: Vec<usize>| p@);
            proof {
                if sub.len() == 0 {
                    assert(mid =~= seq![Seq::<usize>::empty()]);
                } else {
                    assert(mid =~= sub);
                }
            }
            path_tail[0].insert(0, child_index);
            proof {
                assert(path_tail@[0]@ =~= seq![child_index] + mid[0]);
                assert(path_tail@.map_values(|p: Vec<usize>| p@) =~= mid.update(0, seq![child_index] + mid[0]));
            }
            path_tail
        },
    }
}

} // verus!
