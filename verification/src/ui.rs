//! The retained widget tree: the node pool, message queue and routing
//! loop, and the build context that widget builders populate the tree
//! through.

use vstd::prelude::*;
use crate::algebra::Vector2;
use crate::check_box::CheckBox;
use crate::fixed::Fx;
use crate::pool::{count_alive, Handle, Pool};
use crate::style::{Brush, Style, StyleKey, StyleValue, Thickness};
use crate::texel::copy_plane;
use crate::widget::{UiMessage, UiMessageData, Widget, WidgetMessage};

verus! {

/// A drawn figure of a vector image widget.
#[derive(Clone, Copy, Debug, PartialEq, Eq, Structural)]
pub enum Primitive {
    /// A line segment of a given thickness.
    Line {
        /// Segment start.
        begin: Vector2,
        /// Segment end.
        end: Vector2,
        /// Stroke width.
        thickness: Fx,
    },
}

/// Sizing of one grid row or column.
#[derive(Clone, Copy, Debug, PartialEq, Eq, Structural)]
pub enum SizeMode {
    /// Take the remaining space.
    Stretch,
    /// Fit the content.
    Auto,
}

/// A rectangle with rounded corners and a stroked outline.
#[derive(Clone, Debug)]
pub struct Border {
    /// Shared widget state.
    pub widget: Widget,
    /// Corner rounding radius.
    pub corner_radius: Fx,
    /// Outline width per side.
    pub stroke_thickness: Thickness,
    /// Whether content is inset by the corner radius.
    pub pad_by_corner_radius: bool,
}

/// A widget drawn as a list of primitives.
#[derive(Clone, Debug)]
pub struct VectorImage {
    /// Shared widget state.
    pub widget: Widget,
    /// The figures drawn.
    pub primitives: Vec<Primitive>,
}

/// A layout container with sized rows and columns.
#[derive(Clone, Debug)]
pub struct Grid {
    /// Shared widget state.
    pub widget: Widget,
    /// Row sizing, top to bottom.
    pub rows: Vec<SizeMode>,
    /// Column sizing, left to right.
    pub columns: Vec<SizeMode>,
}

/// One node of the widget tree.
#[derive(Debug)]
pub enum UiNode {
    /// A border widget.
    Border(Border),
    /// A vector image widget.
    VectorImage(VectorImage),
    /// A grid widget.
    Grid(Grid),
    /// A check box widget.
    CheckBox(CheckBox),
}

impl UiNode {
    /// The shared widget state of the node.
    pub open spec fn spec_widget(self) -> Widget {
        match self {
            UiNode::Border(b) => b.widget,
            UiNode::VectorImage(v) => v.widget,
            UiNode::Grid(g) => g.widget,
            UiNode::CheckBox(c) => c.widget,
        }
    }

    /// Read access to the shared widget state.
    pub fn widget(&self) -> (w: &Widget)
        ensures
            *w == self.spec_widget(),
    {
        match self {
            UiNode::Border(b) => &b.widget,
            UiNode::VectorImage(v) => &v.widget,
            UiNode::Grid(g) => &g.widget,
            UiNode::CheckBox(c) => &c.widget,
        }
    }

    /// The node with its shared widget state replaced.
    pub fn with_widget(self, w: Widget) -> (n: UiNode)
        ensures
            n.spec_widget() == w,
            match self {
                UiNode::Border(b) => n == UiNode::Border(Border { widget: w, ..b }),
                UiNode::VectorImage(v) => n == UiNode::VectorImage(
                    VectorImage { widget: w, ..v },
                ),
                UiNode::Grid(g) => n == UiNode::Grid(Grid { widget: w, ..g }),
                UiNode::CheckBox(c) => n == UiNode::CheckBox(CheckBox { widget: w, ..c }),
            },
    {
        match self {
            UiNode::Border(b) => UiNode::Border(Border { widget: w, ..b }),
            UiNode::VectorImage(v) => UiNode::VectorImage(VectorImage { widget: w, ..v }),
            UiNode::Grid(g) => UiNode::Grid(Grid { widget: w, ..g }),
            UiNode::CheckBox(c) => UiNode::CheckBox(CheckBox { widget: w, ..c }),
        }
    }
}

/// The two nodes are the same kind of widget and carry the same
/// widget-specific data; only the shared widget state may differ.
pub open spec fn node_same_shape(a: UiNode, b: UiNode) -> bool {
    match (a, b) {
        (UiNode::Border(x), UiNode::Border(y)) => {
            &&& x.corner_radius == y.corner_radius
            &&& x.stroke_thickness == y.stroke_thickness
            &&& x.pad_by_corner_radius == y.pad_by_corner_radius
        },
        (UiNode::VectorImage(x), UiNode::VectorImage(y)) => x.primitives@ == y.primitives@,
        (UiNode::Grid(x), UiNode::Grid(y)) => x.rows@ == y.rows@ && x.columns@ == y.columns@,
        (UiNode::CheckBox(x), UiNode::CheckBox(y)) => {
            &&& x.checked == y.checked
            &&& x.check_mark == y.check_mark
            &&& x.uncheck_mark == y.uncheck_mark
            &&& x.undefined_mark == y.undefined_mark
        },
        _ => false,
    }
}

/// The parent chain of `node` reaches `ancestor` within `fuel` steps.
pub open spec fn spec_reaches_ancestor(
    nodes: Seq<Option<UiNode>>,
    node: Handle,
    ancestor: Handle,
    fuel: nat,
) -> bool
    decreases fuel,
{
    if fuel == 0 {
        false
    } else if !(node.index < nodes.len() && nodes[node.index as int] is Some) {
        false
    } else {
        let p = nodes[node.index as int].unwrap().spec_widget().parent;
        if p.index == ancestor.index {
            true
        } else if p.index == u32::MAX {
            false
        } else {
            spec_reaches_ancestor(nodes, p, ancestor, (fuel - 1) as nat)
        }
    }
}

/// The user interface: the widget tree, its style, and the message
/// queue. Builders modify it through [`BuildContext`], which is the
/// interface itself during the build stage.
#[derive(Debug)]
pub struct UserInterface {
    /// The widget tree storage.
    pub nodes: Pool<UiNode>,
    /// The root node.
    pub root: Handle,
    /// The active style.
    pub style: Style,
    /// Logical screen size.
    pub screen_size: Vector2,
    /// Queued messages, oldest first.
    pub queue: Vec<UiMessage>,
    /// The widget holding mouse capture, if any.
    pub captured: Handle,
}

/// During the build stage, the build context is the interface itself.
pub type BuildContext = UserInterface;

/// The built-in style: the brushes of the standard theme and the check
/// box metrics.
pub fn default_style() -> (s: Style)
    ensures
        spec_last_entry(s.entries@, StyleKey::CheckBoxCornerRadius) == Option::Some(
            StyleValue::Number(Fx { raw: 262144i64 }),
        ),
        spec_last_entry(s.entries@, StyleKey::CheckBoxCheckMarkSize) == Option::Some(
            StyleValue::Number(Fx { raw: 458752i64 }),
        ),
{
    let base = crate::check_box::CheckBox::style();
    proof {
        reveal_with_fuel(crate::style::spec_last_entry, 5);
    }
    base
}

use crate::style::spec_last_entry;

impl UserInterface {
    /// A fresh interface of the given logical size: one root node, the
    /// default style, an empty queue.
    pub fn new(screen_size: Vector2) -> (ui: UserInterface)
        ensures
            ui.nodes.records@.len() == 1,
            ui.nodes.spec_is_valid(ui.root),
            ui.queue@.len() == 0,
            ui.screen_size == screen_size,
            count_alive(ui.nodes.records@, ui.nodes.records@.len() as int) == 1,
    {
        proof {
            reveal_with_fuel(count_alive::<UiNode>, 3);
        }
        let mut nodes: Pool<UiNode> = Pool::new();
        let mut root_widget = crate::widget::WidgetBuilder::new().build();
        let root = Handle { index: 0 };
        root_widget.handle = root;
        nodes.spawn(
            UiNode::Border(
                Border {
                    widget: root_widget,
                    corner_radius: Fx { raw: 0 },
                    stroke_thickness: Thickness::uniform(Fx { raw: 0 }),
                    pad_by_corner_radius: false,
                },
            ),
        );
        UserInterface {
            nodes,
            root,
            style: default_style(),
            screen_size,
            queue: Vec::new(),
            captured: Handle::none(),
        }
    }

    /// Adds a node: assigns its handle and makes it the parent of the
    /// children its builder collected.
    pub fn add_node(&mut self, node: UiNode) -> (h: Handle)
        requires
            old(self).nodes.records@.len() < u32::MAX - 1,
        ensures
            final(self).nodes.records@.len() == old(self).nodes.records@.len() + 1,
            h.index == old(self).nodes.records@.len(),
            final(self).nodes.spec_is_valid(h),
            crate::widget::same_widget(
                final(self).nodes.records@[h.index as int].unwrap().spec_widget(),
                Widget { handle: h, ..node.spec_widget() },
            ),
            node_same_shape(node, final(self).nodes.records@[h.index as int].unwrap()),
            (node matches UiNode::CheckBox(cb0) ==> final(self).nodes.records@[h.index as int].unwrap()
                matches UiNode::CheckBox(cb) && cb.checked == cb0.checked && cb.check_mark
                == cb0.check_mark && cb.uncheck_mark == cb0.uncheck_mark && cb.undefined_mark
                == cb0.undefined_mark && cb.widget.handle == h),
            forall|i: int|
                0 <= i < old(self).nodes.records@.len() ==> ((
                #[trigger] final(self).nodes.records@[i]) is Some <==> old(self).nodes.records@[i] is Some),
            forall|i: int|
                0 <= i < old(self).nodes.records@.len() && old(self).nodes.records@[i] is Some
                    ==> {
                    &&& node_same_shape(
                        old(self).nodes.records@[i].unwrap(),
                        (#[trigger] final(self).nodes.records@[i]).unwrap(),
                    )
                    &&& crate::widget::same_widget_but_parent(
                        old(self).nodes.records@[i].unwrap().spec_widget(),
                        final(self).nodes.records@[i].unwrap().spec_widget(),
                    )
                    &&& (final(self).nodes.records@[i].unwrap().spec_widget().parent == old(self).nodes.records@[i].unwrap().spec_widget().parent || final(self).nodes.records@[i].unwrap().spec_widget().parent == h)
                },
            final(self).queue == old(self).queue,
            final(self).style == old(self).style,
            final(self).root == old(self).root,
            final(self).captured == old(self).captured,
    {
        let ghost n0 = self.nodes.records@.len();
        let children = copy_plane(&node.widget().children);
        let mut w = node.widget().clone_fields();
        let h = Handle { index: self.nodes.records.len() as u32 };
        w.handle = h;
        let node2 = node.with_widget(w);
        self.nodes.spawn(node2);
        let mut i: usize = 0;
        while i < children.len()
            invariant
                self.nodes.records@.len() == n0 + 1,
                h.index == n0,
                self.nodes.spec_is_valid(h),
                crate::widget::same_widget(
                    self.nodes.records@[h.index as int].unwrap().spec_widget(),
                    Widget { handle: h, ..node.spec_widget() },
                ),
                node_same_shape(node, self.nodes.records@[h.index as int].unwrap()),
                (node matches UiNode::CheckBox(cb0) ==> self.nodes.records@[h.index as int].unwrap()
                    matches UiNode::CheckBox(cb) && cb.checked == cb0.checked && cb.check_mark
                    == cb0.check_mark && cb.uncheck_mark == cb0.uncheck_mark && cb.undefined_mark
                    == cb0.undefined_mark && cb.widget.handle == h),
                self.captured == old(self).captured,
                self.queue == old(self).queue,
                self.style == old(self).style,
                self.root == old(self).root,
                forall|k: int|
                    0 <= k < n0 ==> ((#[trigger] self.nodes.records@[k]) is Some <==> old(self).nodes.records@[k] is Some),
                forall|k: int|
                    0 <= k < n0 && old(self).nodes.records@[k] is Some ==> {
                        &&& node_same_shape(
                            old(self).nodes.records@[k].unwrap(),
                            (#[trigger] self.nodes.records@[k]).unwrap(),
                        )
                        &&& crate::widget::same_widget_but_parent(
                            old(self).nodes.records@[k].unwrap().spec_widget(),
                            self.nodes.records@[k].unwrap().spec_widget(),
                        )
                        &&& (self.nodes.records@[k].unwrap().spec_widget().parent == old(self).nodes.records@[k].unwrap().spec_widget().parent
                            || self.nodes.records@[k].unwrap().spec_widget().parent == h)
                    },
            decreases children@.len() - i,
        {
            let c = children[i];
            if self.nodes.is_valid(c) && c.index != h.index {
                let child = self.nodes.take(c);
                let mut cw = child.widget().clone_fields();
                cw.parent = h;
                let child2 = child.with_widget(cw);
                self.nodes.put_back(c, child2);
            }
            i = i + 1;
        }
        h
    }

    /// Makes `child` a child of `parent`: sets its parent link and
    /// appends it to the parent's children.
    pub fn link(&mut self, child: Handle, parent: Handle)
        requires
            old(self).nodes.spec_is_valid(child),
            old(self).nodes.spec_is_valid(parent),
            child != parent,
        ensures
            final(self).nodes.records@.len() == old(self).nodes.records@.len(),
            final(self).queue == old(self).queue,
            final(self).style == old(self).style,
            final(self).root == old(self).root,
            final(self).captured == old(self).captured,
            forall|hh: Handle|
                final(self).nodes.spec_is_valid(hh) == old(self).nodes.spec_is_valid(hh),
            forall|i: int|
                0 <= i < old(self).nodes.records@.len() && i != child.index && i != parent.index
                    ==> final(self).nodes.records@[i] == old(self).nodes.records@[i],
            node_same_shape(
                old(self).nodes.records@[child.index as int].unwrap(),
                final(self).nodes.records@[child.index as int].unwrap(),
            ),
            crate::widget::same_widget(
                final(self).nodes.records@[child.index as int].unwrap().spec_widget(),
                Widget {
                    parent,
                    ..old(self).nodes.records@[child.index as int].unwrap().spec_widget()
                },
            ),
            node_same_shape(
                old(self).nodes.records@[parent.index as int].unwrap(),
                final(self).nodes.records@[parent.index as int].unwrap(),
            ),
            crate::widget::same_widget_but_children(
                old(self).nodes.records@[parent.index as int].unwrap().spec_widget(),
                final(self).nodes.records@[parent.index as int].unwrap().spec_widget(),
            ),
            final(self).nodes.records@[parent.index as int].unwrap().spec_widget().children@
                == old(self).nodes.records@[parent.index as int].unwrap().spec_widget().children@.push(child),
    {
        let c = self.nodes.take(child);
        let mut cw = c.widget().clone_fields();
        cw.parent = parent;
        let c2 = c.with_widget(cw);
        self.nodes.put_back(child, c2);
        let p = self.nodes.take(parent);
        let mut pw = p.widget().clone_fields();
        pw.children.push(child);
        let p2 = p.with_widget(pw);
        self.nodes.put_back(parent, p2);
    }

    /// Shows or hides a node directly, as builders do before the first
    /// frame.
    pub fn set_visibility(&mut self, h: Handle, visible: bool)
        requires
            old(self).nodes.spec_is_valid(h),
        ensures
            final(self).nodes.records@.len() == old(self).nodes.records@.len(),
            crate::widget::same_widget(
                final(self).nodes.records@[h.index as int].unwrap().spec_widget(),
                Widget {
                    visibility: visible,
                    ..old(self).nodes.records@[h.index as int].unwrap().spec_widget()
                },
            ),
            node_same_shape(
                old(self).nodes.records@[h.index as int].unwrap(),
                final(self).nodes.records@[h.index as int].unwrap(),
            ),
            forall|i: int|
                0 <= i < old(self).nodes.records@.len() && i != h.index ==> final(self).nodes.records@[i] == old(self).nodes.records@[i],
            final(self).queue == old(self).queue,
            final(self).style == old(self).style,
            final(self).root == old(self).root,
            final(self).captured == old(self).captured,
            forall|hh: Handle|
                final(self).nodes.spec_is_valid(hh) == old(self).nodes.spec_is_valid(hh),
    {
        let n = self.nodes.take(h);
        let mut w = n.widget().clone_fields();
        w.visibility = visible;
        let n2 = n.with_widget(w);
        self.nodes.put_back(h, n2);
    }

    /// Places a node in a grid cell, as builders do.
    pub fn set_grid_cell(&mut self, h: Handle, row: usize, column: usize)
        requires
            old(self).nodes.spec_is_valid(h),
        ensures
            final(self).nodes.records@.len() == old(self).nodes.records@.len(),
            forall|i: int|
                0 <= i < old(self).nodes.records@.len() && i != h.index ==> final(self).nodes.records@[i] == old(self).nodes.records@[i],
            node_same_shape(
                old(self).nodes.records@[h.index as int].unwrap(),
                final(self).nodes.records@[h.index as int].unwrap(),
            ),
            crate::widget::same_widget(
                final(self).nodes.records@[h.index as int].unwrap().spec_widget(),
                Widget {
                    row,
                    column,
                    ..old(self).nodes.records@[h.index as int].unwrap().spec_widget()
                },
            ),
            final(self).queue == old(self).queue,
            final(self).style == old(self).style,
            final(self).root == old(self).root,
            final(self).captured == old(self).captured,
            forall|hh: Handle|
                final(self).nodes.spec_is_valid(hh) == old(self).nodes.spec_is_valid(hh),
    {
        let n = self.nodes.take(h);
        let mut w = n.widget().clone_fields();
        w.row = row;
        w.column = column;
        let n2 = n.with_widget(w);
        self.nodes.put_back(h, n2);
    }

    /// Grows a node's minimum size to the given floor, as the check box
    /// builder does for its background.
    pub fn ensure_min_size(&mut self, h: Handle, min_width: Fx, min_height: Fx)
        requires
            old(self).nodes.spec_is_valid(h),
        ensures
            final(self).nodes.records@.len() == old(self).nodes.records@.len(),
            forall|i: int|
                0 <= i < old(self).nodes.records@.len() && i != h.index ==> final(self).nodes.records@[i] == old(self).nodes.records@[i],
            node_same_shape(
                old(self).nodes.records@[h.index as int].unwrap(),
                final(self).nodes.records@[h.index as int].unwrap(),
            ),
            ({
                let ow = old(self).nodes.records@[h.index as int].unwrap().spec_widget();
                let nw = final(self).nodes.records@[h.index as int].unwrap().spec_widget();
                &&& crate::widget::same_widget(
                    nw,
                    Widget { min_width: nw.min_width, min_height: nw.min_height, ..ow },
                )
                &&& nw.min_width.raw == (if ow.min_width.raw < min_width.raw {
                    min_width.raw as int
                } else {
                    ow.min_width.raw as int
                })
                &&& nw.min_height.raw == (if ow.min_height.raw < min_height.raw {
                    min_height.raw as int
                } else {
                    ow.min_height.raw as int
                })
            }),
            final(self).queue == old(self).queue,
            final(self).style == old(self).style,
            final(self).root == old(self).root,
            final(self).captured == old(self).captured,
            forall|hh: Handle|
                final(self).nodes.spec_is_valid(hh) == old(self).nodes.spec_is_valid(hh),
    {
        let n = self.nodes.take(h);
        let mut w = n.widget().clone_fields();
        if w.min_width.raw < min_width.raw {
            w.min_width = min_width;
        }
        if w.min_height.raw < min_height.raw {
            w.min_height = min_height;
        }
        let n2 = n.with_widget(w);
        self.nodes.put_back(h, n2);
    }

    /// Queues a message.
    pub fn send_message(&mut self, message: UiMessage)
        ensures
            final(self).queue@ == old(self).queue@.push(message),
            final(self).nodes.records@ == old(self).nodes.records@,
            final(self).captured == old(self).captured,
            final(self).style == old(self).style,
            final(self).root == old(self).root,
    {
        self.queue.push(message);
    }

    /// Gives a widget the mouse capture.
    pub fn capture_mouse(&mut self, h: Handle)
        ensures
            *final(self) == (UserInterface { captured: h, ..*old(self) }),
    {
        self.captured = h;
    }

    /// Releases the mouse capture.
    pub fn release_mouse_capture(&mut self)
        ensures
            *final(self) == (UserInterface { captured: final(self).captured, ..*old(self) }),
            final(self).captured.spec_is_none(),
    {
        self.captured = Handle::none();
    }

    /// True when `node` has `ancestor` on its parent chain, followed for
    /// at most one step per tree slot.
    pub(crate) fn is_descendant_of(&self, node: Handle, ancestor: Handle) -> (r: bool)
        ensures
            r == spec_reaches_ancestor(
                self.nodes.records@,
                node,
                ancestor,
                self.nodes.records@.len() as nat,
            ),
    {
        let mut cur = node;
        let mut fuel: usize = self.nodes.records.len();
        loop
            invariant_except_break
                fuel <= self.nodes.records@.len(),
                spec_reaches_ancestor(
                    self.nodes.records@,
                    node,
                    ancestor,
                    self.nodes.records@.len() as nat,
                ) == spec_reaches_ancestor(self.nodes.records@, cur, ancestor, fuel as nat),
            ensures
                true,
            decreases fuel,
        {
            if fuel == 0 {
                return false;
            }
            fuel = fuel - 1;
            if !self.nodes.is_valid(cur) {
                return false;
            }
            let p = self.nodes.borrow(cur).widget().parent;
            if p.index == ancestor.index {
                return true;
            }
            if p.is_none() {
                return false;
            }
            cur = p;
        }
    }

    /// Removes a node and everything below it from the tree.
    /// Removes a node and everything below it from the tree: the node
    /// itself, and every node whose parent chain reaches it.
    pub fn remove_node(&mut self, h: Handle)
        requires
            old(self).nodes.records@.len() <= u32::MAX,
        ensures
            final(self).nodes.records@.len() == old(self).nodes.records@.len(),
            !final(self).nodes.spec_is_valid(h),
            forall|i: int|
                0 <= i < old(self).nodes.records@.len() ==> ((
                #[trigger] final(self).nodes.records@[i]) is Some <==> (old(self).nodes.records@[i] is Some && i != h.index && !spec_reaches_ancestor(
                    old(self).nodes.records@,
                    Handle { index: i as u32 },
                    h,
                    old(self).nodes.records@.len() as nat,
                ))),
            forall|i: int|
                0 <= i < old(self).nodes.records@.len() && (
                #[trigger] final(self).nodes.records@[i]) is Some ==> final(self).nodes.records@[i] == old(self).nodes.records@[i],
            final(self).queue == old(self).queue,
            final(self).style == old(self).style,
            final(self).root == old(self).root,
            final(self).captured == old(self).captured,
    {
        let n = self.nodes.records.len();
        let mut doomed: Vec<bool> = Vec::new();
        let mut i: usize = 0;
        while i < n
            invariant
                n == self.nodes.records@.len(),
                n <= u32::MAX,
                i <= n,
                doomed@.len() == i,
                *self == *old(self),
                forall|j: int|
                    0 <= j < i ==> #[trigger] doomed@[j] == spec_reaches_ancestor(
                        old(self).nodes.records@,
                        Handle { index: j as u32 },
                        h,
                        old(self).nodes.records@.len() as nat,
                    ),
            decreases n - i,
        {
            doomed.push(self.is_descendant_of(Handle { index: i as u32 }, h));
            i = i + 1;
        }
        self.nodes.free(h);
        let mut k: usize = 0;
        while k < n
            invariant
                n == self.nodes.records@.len(),
                n == old(self).nodes.records@.len(),
                n <= u32::MAX,
                k <= n,
                doomed@.len() == n,
                self.queue == old(self).queue,
                self.style == old(self).style,
                self.root == old(self).root,
                self.captured == old(self).captured,
                forall|j: int|
                    0 <= j < n ==> #[trigger] doomed@[j] == spec_reaches_ancestor(
                        old(self).nodes.records@,
                        Handle { index: j as u32 },
                        h,
                        old(self).nodes.records@.len() as nat,
                    ),
                forall|j: int|
                    0 <= j < n ==> #[trigger] self.nodes.records@[j] == (if j == h.index || (j < k
                        && doomed@[j]) {
                        Option::<UiNode>::None
                    } else {
                        old(self).nodes.records@[j]
                    }),
            decreases n - k,
        {
            if doomed[k] {
                self.nodes.free(Handle { index: k as u32 });
                proof {
                    assert forall|j: int| 0 <= j < n implies #[trigger] self.nodes.records@[j]
                        == (if j == h.index || (j < k + 1 && doomed@[j]) {
                        Option::<UiNode>::None
                    } else {
                        old(self).nodes.records@[j]
                    }) by {}
                }
            }
            k = k + 1;
        }
    }

    /// Takes the oldest queued message, lets the interface and the
    /// destination chain handle it, and returns it. A removal message is
    /// handled by the interface itself; any other message bubbles from
    /// its destination up the parent chain, and handlers may queue
    /// responses, which come out of later polls behind the rest of the
    /// queue.
    pub fn poll_message(&mut self) -> (r: Option<UiMessage>)
        requires
            old(self).nodes.records@.len() <= u32::MAX,
        ensures
            match r {
                Option::None => *final(self) == *old(self) && old(self).queue@.len() == 0,
                Option::Some(m) => {
                    &&& old(self).queue@.len() > 0
                    &&& m.destination == old(self).queue@[0].destination
                    &&& m.data == old(self).queue@[0].data
                    &&& m.direction == old(self).queue@[0].direction
                    &&& final(self).style == old(self).style
                    &&& final(self).root == old(self).root
                    &&& final(self).nodes.records@.len() == old(self).nodes.records@.len()
                    &&& if old(self).queue@[0].data == UiMessageData::Widget(
                        WidgetMessage::Remove,
                    ) {
                        &&& final(self).queue@ == old(self).queue@.skip(1)
                        &&& final(self).captured == old(self).captured
                        &&& forall|i: int|
                            0 <= i < old(self).nodes.records@.len() ==> ((
                            #[trigger] final(self).nodes.records@[i]) is Some <==> (old(self).nodes.records@[i] is Some && i != old(self).queue@[0].destination.index && !spec_reaches_ancestor(
                                old(self).nodes.records@,
                                Handle { index: i as u32 },
                                old(self).queue@[0].destination,
                                old(self).nodes.records@.len() as nat,
                            )))
                        &&& forall|i: int|
                            0 <= i < old(self).nodes.records@.len() && (
                            #[trigger] final(self).nodes.records@[i]) is Some ==> final(self).nodes.records@[i] == old(self).nodes.records@[i]
                    } else {
                        &&& (forall|hh: Handle|
                            final(self).nodes.spec_is_valid(hh) == old(self).nodes.spec_is_valid(hh))
                        &&& final(self).queue@.len() >= old(self).queue@.len() - 1
                        &&& forall|k: int|
                            0 <= k < old(self).queue@.len() - 1
                                ==> #[trigger] final(self).queue@[k] == old(self).queue@[k + 1]
                    }
                },
            },
    {
        if self.queue.len() == 0 {
            return Option::None;
        }
        let mut msg = self.queue.remove(0);
        if matches!(msg.data, UiMessageData::Widget(WidgetMessage::Remove)) {
            self.remove_node(msg.destination);
            return Option::Some(msg);
        }
        let ghost base = self.queue@;
        let mut cur = msg.destination;
        let mut fuel: usize = self.nodes.records.len();
        while fuel > 0
            invariant
                msg.destination == old(self).queue@[0].destination,
                msg.data == old(self).queue@[0].data,
                msg.direction == old(self).queue@[0].direction,
                old(self).queue@.len() > 0,
                base == old(self).queue@.skip(1),
                self.nodes.records@.len() == old(self).nodes.records@.len(),
                self.style == old(self).style,
                self.root == old(self).root,
                forall|hh: Handle|
                    self.nodes.spec_is_valid(hh) == old(self).nodes.spec_is_valid(hh),
                self.queue@.len() >= base.len(),
                self.queue@.subrange(0, base.len() as int) == base,
            decreases fuel,
        {
            fuel = fuel - 1;
            if !self.nodes.is_valid(cur) {
                break;
            }
            let mut node = self.nodes.take(cur);
            let parent = node.widget().parent;
            node_handle_routed_message(&mut node, self, &mut msg);
            if (cur.index as usize) < self.nodes.records.len() && !self.nodes.is_valid(cur) {
                self.nodes.put_back(cur, node);
            }
            if parent.is_none() {
                break;
            }
            cur = parent;
        }
        proof {
            assert(self.queue@.skip(0) =~= self.queue@);
            assert forall|k: int| 0 <= k < old(self).queue@.len() - 1 implies #[trigger] self.queue@[k]
                == old(self).queue@[k + 1] by {
                assert(self.queue@.subrange(0, base.len() as int)[k] == base[k]);
            }
        }
        Option::Some(msg)
    }
}

/// Lets one node handle a routed message; the node is temporarily out of
/// the tree, so the handler sees the rest of the interface.
fn node_handle_routed_message(node: &mut UiNode, ui: &mut UserInterface, message: &mut UiMessage)
    ensures
        final(ui).nodes.records@.len() == old(ui).nodes.records@.len(),
        forall|i: int|
            0 <= i < old(ui).nodes.records@.len() ==> final(ui).nodes.records@[i] == old(ui).nodes.records@[i],
        final(ui).style == old(ui).style,
        final(ui).root == old(ui).root,
        final(ui).queue@.len() >= old(ui).queue@.len(),
        final(ui).queue@.subrange(0, old(ui).queue@.len() as int) == old(ui).queue@,
        final(message).destination == old(message).destination,
        final(message).data == old(message).data,
        final(message).direction == old(message).direction,
{
    let ghost q0 = ui.queue@;
    match node {
        UiNode::CheckBox(cb) => {
            crate::check_box::CheckBox::handle_routed_message(cb, ui, message);
        },
        UiNode::Border(b) => {
            b.widget.handle_routed_message(message);
        },
        UiNode::VectorImage(v) => {
            v.widget.handle_routed_message(message);
        },
        UiNode::Grid(g) => {
            g.widget.handle_routed_message(message);
        },
    }
    proof {
        assert(ui.queue@.subrange(0, q0.len() as int) =~= q0);
    }
}

impl Widget {
    /// A field-for-field copy of the shared widget state.
    pub fn clone_fields(&self) -> (w: Widget)
        ensures
            crate::widget::same_widget(w, *self),
    {
        Widget {
            handle: self.handle,
            parent: self.parent,
            children: copy_plane(&self.children),
            visibility: self.visibility,
            min_width: self.min_width,
            min_height: self.min_height,
            width: self.width,
            height: self.height,
            margin: self.margin,
            background: self.background,
            foreground: self.foreground,
            row: self.row,
            column: self.column,
            vertical_alignment: self.vertical_alignment,
            horizontal_alignment: self.horizontal_alignment,
            accepts_input: self.accepts_input,
        }
    }
}

/// Builds [`Border`] widgets.
#[derive(Debug)]
pub struct BorderBuilder {
    /// Shared widget state under construction.
    pub widget_builder: crate::widget::WidgetBuilder,
    /// Corner rounding radius.
    pub corner_radius: Fx,
    /// Outline width per side.
    pub stroke_thickness: Thickness,
    /// Whether content is inset by the corner radius.
    pub pad_by_corner_radius: bool,
}

impl BorderBuilder {
    /// Starts a border over the given shared state.
    pub fn new(widget_builder: crate::widget::WidgetBuilder) -> (b: BorderBuilder)
        ensures
            b.widget_builder == widget_builder,
            b.corner_radius.raw == 0,
            b.pad_by_corner_radius == true,
    {
        BorderBuilder {
            widget_builder,
            corner_radius: Fx { raw: 0 },
            stroke_thickness: Thickness::uniform(Fx { raw: crate::fixed::FX_ONE }),
            pad_by_corner_radius: true,
        }
    }

    /// Sets the corner rounding radius.
    pub fn with_corner_radius(self, corner_radius: Fx) -> (b: BorderBuilder)
        ensures
            b == (BorderBuilder { corner_radius, ..self }),
    {
        BorderBuilder { corner_radius, ..self }
    }

    /// Sets the outline width.
    pub fn with_stroke_thickness(self, stroke_thickness: Thickness) -> (b: BorderBuilder)
        ensures
            b == (BorderBuilder { stroke_thickness, ..self }),
    {
        BorderBuilder { stroke_thickness, ..self }
    }

    /// Chooses whether content is inset by the corner radius.
    pub fn with_pad_by_corner_radius(self, pad_by_corner_radius: bool) -> (b: BorderBuilder)
        ensures
            b == (BorderBuilder { pad_by_corner_radius, ..self }),
    {
        BorderBuilder { pad_by_corner_radius, ..self }
    }

    /// Adds the border to the interface.
    pub fn build(self, ctx: &mut BuildContext) -> (h: Handle)
        requires
            old(ctx).nodes.records@.len() < u32::MAX - 1,
        ensures
            final(ctx).nodes.records@.len() == old(ctx).nodes.records@.len() + 1,
            h.index == old(ctx).nodes.records@.len(),
            final(ctx).nodes.spec_is_valid(h),
            final(ctx).nodes.records@[h.index as int].unwrap() is Border,
            ({
                let nw = final(ctx).nodes.records@[h.index as int].unwrap().spec_widget();
                &&& nw.handle == h
                &&& nw.visibility == self.widget_builder.visibility
                &&& nw.children@ == self.widget_builder.children@
                &&& nw.row == 0
                &&& nw.column == 0
                &&& nw.min_width == self.widget_builder.min_width
                &&& nw.min_height == self.widget_builder.min_height
            }),
            forall|i: int|
                0 <= i < old(ctx).nodes.records@.len() ==> ((
                #[trigger] final(ctx).nodes.records@[i]) is Some <==> old(ctx).nodes.records@[i] is Some),
            forall|i: int|
                0 <= i < old(ctx).nodes.records@.len() && old(ctx).nodes.records@[i] is Some
                    ==> {
                    &&& node_same_shape(
                        old(ctx).nodes.records@[i].unwrap(),
                        (#[trigger] final(ctx).nodes.records@[i]).unwrap(),
                    )
                    &&& crate::widget::same_widget_but_parent(
                        old(ctx).nodes.records@[i].unwrap().spec_widget(),
                        final(ctx).nodes.records@[i].unwrap().spec_widget(),
                    )
                    &&& (final(ctx).nodes.records@[i].unwrap().spec_widget().parent == old(ctx).nodes.records@[i].unwrap().spec_widget().parent || final(ctx).nodes.records@[i].unwrap().spec_widget().parent == h)
                },
            final(ctx).queue == old(ctx).queue,
            final(ctx).style == old(ctx).style,
            final(ctx).root == old(ctx).root,
            final(ctx).captured == old(ctx).captured,
    {
        let widget = self.widget_builder.build();
        ctx.add_node(
            UiNode::Border(
                Border {
                    widget,
                    corner_radius: self.corner_radius,
                    stroke_thickness: self.stroke_thickness,
                    pad_by_corner_radius: self.pad_by_corner_radius,
                },
            ),
        )
    }
}

/// Builds [`VectorImage`] widgets.
#[derive(Debug)]
pub struct VectorImageBuilder {
    /// Shared widget state under construction.
    pub widget_builder: crate::widget::WidgetBuilder,
    /// The figures drawn.
    pub primitives: Vec<Primitive>,
}

impl VectorImageBuilder {
    /// Starts a vector image over the given shared state.
    pub fn new(widget_builder: crate::widget::WidgetBuilder) -> (b: VectorImageBuilder)
        ensures
            b.widget_builder == widget_builder,
            b.primitives@.len() == 0,
    {
        VectorImageBuilder { widget_builder, primitives: Vec::new() }
    }

    /// Sets the figures.
    pub fn with_primitives(self, primitives: Vec<Primitive>) -> (b: VectorImageBuilder)
        ensures
            b.widget_builder == self.widget_builder,
            b.primitives@ == primitives@,
    {
        VectorImageBuilder { widget_builder: self.widget_builder, primitives }
    }

    /// Adds the vector image to the interface.
    pub fn build(self, ctx: &mut BuildContext) -> (h: Handle)
        requires
            old(ctx).nodes.records@.len() < u32::MAX - 1,
        ensures
            final(ctx).nodes.records@.len() == old(ctx).nodes.records@.len() + 1,
            h.index == old(ctx).nodes.records@.len(),
            final(ctx).nodes.spec_is_valid(h),
            final(ctx).nodes.records@[h.index as int].unwrap() is VectorImage,
            ({
                let nw = final(ctx).nodes.records@[h.index as int].unwrap().spec_widget();
                &&& nw.handle == h
                &&& nw.visibility == self.widget_builder.visibility
                &&& nw.children@ == self.widget_builder.children@
                &&& nw.row == 0
                &&& nw.column == 0
                &&& nw.min_width == self.widget_builder.min_width
                &&& nw.min_height == self.widget_builder.min_height
            }),
            forall|i: int|
                0 <= i < old(ctx).nodes.records@.len() ==> ((
                #[trigger] final(ctx).nodes.records@[i]) is Some <==> old(ctx).nodes.records@[i] is Some),
            forall|i: int|
                0 <= i < old(ctx).nodes.records@.len() && old(ctx).nodes.records@[i] is Some
                    ==> {
                    &&& node_same_shape(
                        old(ctx).nodes.records@[i].unwrap(),
                        (#[trigger] final(ctx).nodes.records@[i]).unwrap(),
                    )
                    &&& crate::widget::same_widget_but_parent(
                        old(ctx).nodes.records@[i].unwrap().spec_widget(),
                        final(ctx).nodes.records@[i].unwrap().spec_widget(),
                    )
                    &&& (final(ctx).nodes.records@[i].unwrap().spec_widget().parent == old(ctx).nodes.records@[i].unwrap().spec_widget().parent || final(ctx).nodes.records@[i].unwrap().spec_widget().parent == h)
                },
            final(ctx).queue == old(ctx).queue,
            final(ctx).style == old(ctx).style,
            final(ctx).root == old(ctx).root,
            final(ctx).captured == old(ctx).captured,
    {
        let widget = self.widget_builder.build();
        ctx.add_node(UiNode::VectorImage(VectorImage { widget, primitives: self.primitives }))
    }
}

/// Builds [`Grid`] widgets.
#[derive(Debug)]
pub struct GridBuilder {
    /// Shared widget state under construction.
    pub widget_builder: crate::widget::WidgetBuilder,
    /// Row sizing, top to bottom.
    pub rows: Vec<SizeMode>,
    /// Column sizing, left to right.
    pub columns: Vec<SizeMode>,
}

impl GridBuilder {
    /// Starts a grid over the given shared state.
    pub fn new(widget_builder: crate::widget::WidgetBuilder) -> (b: GridBuilder)
        ensures
            b.widget_builder == widget_builder,
            b.rows@.len() == 0,
            b.columns@.len() == 0,
    {
        GridBuilder { widget_builder, rows: Vec::new(), columns: Vec::new() }
    }

    /// Appends a row.
    pub fn add_row(self, row: SizeMode) -> (b: GridBuilder)
        requires
            self.rows@.len() < usize::MAX,
        ensures
            b.widget_builder == self.widget_builder,
            b.rows@ == self.rows@.push(row),
            b.columns@ == self.columns@,
    {
        let mut b = self;
        b.rows.push(row);
        b
    }

    /// Appends a column.
    pub fn add_column(self, column: SizeMode) -> (b: GridBuilder)
        requires
            self.columns@.len() < usize::MAX,
        ensures
            b.widget_builder == self.widget_builder,
            b.columns@ == self.columns@.push(column),
            b.rows@ == self.rows@,
    {
        let mut b = self;
        b.columns.push(column);
        b
    }

    /// Adds the grid to the interface.
    pub fn build(self, ctx: &mut BuildContext) -> (h: Handle)
        requires
            old(ctx).nodes.records@.len() < u32::MAX - 1,
        ensures
            final(ctx).nodes.records@.len() == old(ctx).nodes.records@.len() + 1,
            h.index == old(ctx).nodes.records@.len(),
            final(ctx).nodes.spec_is_valid(h),
            final(ctx).nodes.records@[h.index as int].unwrap() is Grid,
            ({
                let nw = final(ctx).nodes.records@[h.index as int].unwrap().spec_widget();
                &&& nw.handle == h
                &&& nw.visibility == self.widget_builder.visibility
                &&& nw.children@ == self.widget_builder.children@
                &&& nw.row == 0
                &&& nw.column == 0
                &&& nw.min_width == self.widget_builder.min_width
                &&& nw.min_height == self.widget_builder.min_height
            }),
            forall|i: int|
                0 <= i < old(ctx).nodes.records@.len() ==> ((
                #[trigger] final(ctx).nodes.records@[i]) is Some <==> old(ctx).nodes.records@[i] is Some),
            forall|i: int|
                0 <= i < old(ctx).nodes.records@.len() && old(ctx).nodes.records@[i] is Some
                    ==> {
                    &&& node_same_shape(
                        old(ctx).nodes.records@[i].unwrap(),
                        (#[trigger] final(ctx).nodes.records@[i]).unwrap(),
                    )
                    &&& crate::widget::same_widget_but_parent(
                        old(ctx).nodes.records@[i].unwrap().spec_widget(),
                        final(ctx).nodes.records@[i].unwrap().spec_widget(),
                    )
                    &&& (final(ctx).nodes.records@[i].unwrap().spec_widget().parent == old(ctx).nodes.records@[i].unwrap().spec_widget().parent || final(ctx).nodes.records@[i].unwrap().spec_widget().parent == h)
                },
            final(ctx).queue == old(ctx).queue,
            final(ctx).style == old(ctx).style,
            final(ctx).root == old(ctx).root,
            final(ctx).captured == old(ctx).captured,
    {
        let widget = self.widget_builder.build();
        ctx.add_node(UiNode::Grid(Grid { widget, rows: self.rows, columns: self.columns }))
    }
}

} // verus!
