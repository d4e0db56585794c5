//! The base widget: common visual state, the builder every concrete
//! widget builder wraps, and the user-interface message records that
//! widgets exchange.

use vstd::prelude::*;
use crate::algebra::Vector2;
use crate::fixed::Fx;
use crate::pool::Handle;
use crate::style::{Brush, Thickness};
use crate::color::Color;

verus! {

/// Vertical placement of a widget inside its slot.
#[derive(Clone, Copy, Debug, PartialEq, Eq, Structural)]
pub enum VerticalAlignment {
    /// Fill the slot.
    Stretch,
    /// Stick to the top.
    Top,
    /// Center.
    Center,
    /// Stick to the bottom.
    Bottom,
}

/// Horizontal placement of a widget inside its slot.
#[derive(Clone, Copy, Debug, PartialEq, Eq, Structural)]
pub enum HorizontalAlignment {
    /// Fill the slot.
    Stretch,
    /// Stick to the left.
    Left,
    /// Center.
    Center,
    /// Stick to the right.
    Right,
}

/// A mouse button.
#[derive(Clone, Copy, Debug, PartialEq, Eq, Structural)]
pub enum MouseButton {
    /// The primary button.
    Left,
    /// The secondary button.
    Right,
    /// The wheel button.
    Middle,
}

/// A keyboard key.
#[derive(Clone, Copy, Debug, PartialEq, Eq, Structural)]
pub enum KeyCode {
    /// The space bar.
    Space,
    /// The return key.
    Enter,
    /// The escape key.
    Escape,
}

/// Which way a message travels.
#[derive(Clone, Copy, Debug, PartialEq, Eq, Structural)]
pub enum MessageDirection {
    /// From the application to a widget.
    ToWidget,
    /// From a widget to the application.
    FromWidget,
}

/// Messages every widget understands.
#[derive(Clone, Copy, Debug, PartialEq, Eq, Structural)]
pub enum WidgetMessage {
    /// A mouse button was pressed over the widget.
    MouseDown {
        /// The button.
        button: MouseButton,
        /// Cursor position.
        pos: Vector2,
    },
    /// A mouse button was released over the widget.
    MouseUp {
        /// The button.
        button: MouseButton,
        /// Cursor position.
        pos: Vector2,
    },
    /// A key was pressed while the widget had focus.
    KeyDown(KeyCode),
    /// Sets the widget's visibility.
    Visibility(bool),
    /// Removes the widget and its subtree.
    Remove,
}

/// Messages a check box understands.
#[derive(Clone, Copy, Debug, PartialEq, Eq, Structural)]
pub enum CheckBoxMessage {
    /// The check state changed, or is asked to change.
    Check(Option<bool>),
}

/// The payload of one user-interface message.
#[derive(Clone, Copy, Debug, PartialEq, Eq, Structural)]
pub enum UiMessageData {
    /// A base widget message.
    Widget(WidgetMessage),
    /// A check box message.
    CheckBox(CheckBoxMessage),
}

/// One user-interface message.
#[derive(Clone, Copy, Debug, PartialEq, Eq, Structural)]
pub struct UiMessage {
    /// The widget the message is for or from.
    pub destination: Handle,
    /// Which way the message travels.
    pub direction: MessageDirection,
    /// The payload.
    pub data: UiMessageData,
    /// Whether a handler consumed the message.
    pub handled: bool,
}

impl UiMessage {
    /// Builds a message travelling to or from `destination`.
    pub fn new(destination: Handle, direction: MessageDirection, data: UiMessageData) -> (m:
        UiMessage)
        ensures
            m == (UiMessage { destination, direction, data, handled: false }),
    {
        UiMessage { destination, direction, data, handled: false }
    }

    /// The widget the message is for or from.
    pub fn destination(&self) -> (h: Handle)
        ensures
            h == self.destination,
    {
        self.destination
    }

    /// Which way the message travels.
    pub fn direction(&self) -> (d: MessageDirection)
        ensures
            d == self.direction,
    {
        self.direction
    }

    /// Whether a handler consumed the message.
    pub fn handled(&self) -> (r: bool)
        ensures
            r == self.handled,
    {
        self.handled
    }

    /// Marks the message consumed (or not).
    pub fn set_handled(&mut self, handled: bool)
        ensures
            *final(self) == (UiMessage { handled, ..*old(self) }),
    {
        self.handled = handled;
    }

    /// The same message travelling the opposite way.
    pub open spec fn spec_reverse(self) -> UiMessage {
        UiMessage {
            direction: match self.direction {
                MessageDirection::ToWidget => MessageDirection::FromWidget,
                MessageDirection::FromWidget => MessageDirection::ToWidget,
            },
            ..self
        }
    }

    /// The same message travelling the opposite way.
    pub fn reverse(&self) -> (m: UiMessage)
        ensures
            m == self.spec_reverse(),
    {
        UiMessage {
            destination: self.destination,
            direction: match self.direction {
                MessageDirection::ToWidget => MessageDirection::FromWidget,
                MessageDirection::FromWidget => MessageDirection::ToWidget,
            },
            data: self.data,
            handled: self.handled,
        }
    }
}

impl CheckBoxMessage {
    /// Builds the check-state message for a check box.
    pub fn checked(destination: Handle, direction: MessageDirection, value: Option<bool>) -> (m:
        UiMessage)
        ensures
            m == (UiMessage {
                destination,
                direction,
                data: UiMessageData::CheckBox(CheckBoxMessage::Check(value)),
                handled: false,
            }),
    {
        UiMessage::new(destination, direction, UiMessageData::CheckBox(CheckBoxMessage::Check(value)))
    }
}

impl WidgetMessage {
    /// Builds the visibility message for a widget.
    pub fn visibility(destination: Handle, direction: MessageDirection, visible: bool) -> (m:
        UiMessage)
        ensures
            m == (UiMessage {
                destination,
                direction,
                data: UiMessageData::Widget(WidgetMessage::Visibility(visible)),
                handled: false,
            }),
    {
        UiMessage::new(
            destination,
            direction,
            UiMessageData::Widget(WidgetMessage::Visibility(visible)),
        )
    }

    /// Builds the removal message for a widget.
    pub fn remove(destination: Handle, direction: MessageDirection) -> (m: UiMessage)
        ensures
            m == (UiMessage {
                destination,
                direction,
                data: UiMessageData::Widget(WidgetMessage::Remove),
                handled: false,
            }),
    {
        UiMessage::new(destination, direction, UiMessageData::Widget(WidgetMessage::Remove))
    }
}

/// The state every widget shares.
#[derive(Clone, Debug)]
pub struct Widget {
    /// Handle of this widget in the interface, set when it is added.
    pub handle: Handle,
    /// Parent widget.
    pub parent: Handle,
    /// Child widgets, in order.
    pub children: Vec<Handle>,
    /// Whether the widget is drawn.
    pub visibility: bool,
    /// Smallest width the layout may give the widget.
    pub min_width: Fx,
    /// Smallest height the layout may give the widget.
    pub min_height: Fx,
    /// Fixed width, if any.
    pub width: Option<Fx>,
    /// Fixed height, if any.
    pub height: Option<Fx>,
    /// Outer spacing.
    pub margin: Thickness,
    /// Background fill.
    pub background: Brush,
    /// Foreground fill.
    pub foreground: Brush,
    /// Grid row of the widget.
    pub row: usize,
    /// Grid column of the widget.
    pub column: usize,
    /// Vertical placement.
    pub vertical_alignment: VerticalAlignment,
    /// Horizontal placement.
    pub horizontal_alignment: HorizontalAlignment,
    /// Whether the widget takes part in input handling.
    pub accepts_input: bool,
}

impl Widget {
    /// The handle of this widget.
    pub fn handle(&self) -> (h: Handle)
        ensures
            h == self.handle,
    {
        self.handle
    }

    /// Shows or hides the widget.
    pub fn set_visibility(&mut self, visible: bool)
        ensures
            *final(self) == (Widget { visibility: visible, ..*old(self) }),
    {
        self.visibility = visible;
    }

    /// Places the widget in a grid row.
    pub fn set_row(&mut self, row: usize)
        ensures
            *final(self) == (Widget { row, ..*old(self) }),
    {
        self.row = row;
    }

    /// Smallest width the layout may give the widget.
    pub fn min_width(&self) -> (r: Fx)
        ensures
            r == self.min_width,
    {
        self.min_width
    }

    /// Smallest height the layout may give the widget.
    pub fn min_height(&self) -> (r: Fx)
        ensures
            r == self.min_height,
    {
        self.min_height
    }

    /// Sets the smallest width the layout may give the widget.
    pub fn set_min_width(&mut self, v: Fx)
        ensures
            *final(self) == (Widget { min_width: v, ..*old(self) }),
    {
        self.min_width = v;
    }

    /// Sets the smallest height the layout may give the widget.
    pub fn set_min_height(&mut self, v: Fx)
        ensures
            *final(self) == (Widget { min_height: v, ..*old(self) }),
    {
        self.min_height = v;
    }

    /// Sets the grid column.
    pub fn set_column(&mut self, column: usize)
        ensures
            *final(self) == (Widget { column, ..*old(self) }),
    {
        self.column = column;
    }

    /// Applies a routed base-widget message: a visibility message for this
    /// widget updates its visibility; everything else leaves the widget
    /// unchanged.
    pub fn handle_routed_message(&mut self, message: &UiMessage)
        ensures
            *final(self) == (if message.destination == old(self).handle && message.data
                == UiMessageData::Widget(
                WidgetMessage::Visibility(
                    (match message.data {
                        UiMessageData::Widget(WidgetMessage::Visibility(v)) => v,
                        _ => false,
                    }),
                ),
            ) {
                Widget {
                    visibility: match message.data {
                        UiMessageData::Widget(WidgetMessage::Visibility(v)) => v,
                        _ => false,
                    },
                    ..*old(self)
                }
            } else {
                *old(self)
            }),
    {
        if message.destination.index == self.handle.index {
            match message.data {
                UiMessageData::Widget(WidgetMessage::Visibility(v)) => {
                    self.visibility = v;
                },
                _ => {},
            }
        }
    }
}

/// Builds the shared widget state field by field.
#[derive(Debug)]
pub struct WidgetBuilder {
    /// Children handed to the builder, in order.
    pub children: Vec<Handle>,
    /// Whether the widget is drawn.
    pub visibility: bool,
    /// Smallest width.
    pub min_width: Fx,
    /// Smallest height.
    pub min_height: Fx,
    /// Fixed width, if any.
    pub width: Option<Fx>,
    /// Fixed height, if any.
    pub height: Option<Fx>,
    /// Outer spacing.
    pub margin: Thickness,
    /// Background fill.
    pub background: Brush,
    /// Foreground fill.
    pub foreground: Brush,
    /// Vertical placement.
    pub vertical_alignment: VerticalAlignment,
    /// Horizontal placement.
    pub horizontal_alignment: HorizontalAlignment,
    /// Whether the widget takes part in input handling.
    pub accepts_input: bool,
}

impl WidgetBuilder {
    /// A builder with the neutral defaults: visible, stretch alignment,
    /// transparent fills, no spacing, no size constraints.
    pub fn new() -> (b: WidgetBuilder)
        ensures
            b.children@.len() == 0,
            b.visibility == true,
            b.min_width.raw == 0,
            b.min_height.raw == 0,
            b.width is None,
            b.height is None,
            b.margin == (Thickness {
                left: Fx { raw: 0 },
                top: Fx { raw: 0 },
                right: Fx { raw: 0 },
                bottom: Fx { raw: 0 },
            }),
            b.background == Brush::Solid(Color { r: 0u8, g: 0u8, b: 0u8, a: 0u8 }),
            b.foreground == Brush::Solid(Color { r: 0u8, g: 0u8, b: 0u8, a: 0u8 }),
            b.vertical_alignment == VerticalAlignment::Stretch,
            b.horizontal_alignment == HorizontalAlignment::Stretch,
            b.accepts_input == false,
    {
        WidgetBuilder {
            children: Vec::new(),
            visibility: true,
            min_width: Fx { raw: 0 },
            min_height: Fx { raw: 0 },
            width: Option::None,
            height: Option::None,
            margin: Thickness {
                left: Fx { raw: 0 },
                top: Fx { raw: 0 },
                right: Fx { raw: 0 },
                bottom: Fx { raw: 0 },
            },
            background: Brush::Solid(Color { r: 0, g: 0, b: 0, a: 0 }),
            foreground: Brush::Solid(Color { r: 0, g: 0, b: 0, a: 0 }),
            vertical_alignment: VerticalAlignment::Stretch,
            horizontal_alignment: HorizontalAlignment::Stretch,
            accepts_input: false,
        }
    }

    /// Adds a child widget.
    pub fn with_child(self, child: Handle) -> (b: WidgetBuilder)
        requires
            self.children@.len() < usize::MAX,
        ensures
            b == (WidgetBuilder { children: b.children, ..self }),
            b.children@ == self.children@.push(child),
    {
        let mut b = self;
        b.children.push(child);
        b
    }

    /// Sets the background fill.
    pub fn with_background(self, background: Brush) -> (b: WidgetBuilder)
        ensures
            b == (WidgetBuilder { background, ..self }),
    {
        WidgetBuilder { background, ..self }
    }

    /// Sets the foreground fill.
    pub fn with_foreground(self, foreground: Brush) -> (b: WidgetBuilder)
        ensures
            b == (WidgetBuilder { foreground, ..self }),
    {
        WidgetBuilder { foreground, ..self }
    }

    /// Sets the outer spacing.
    pub fn with_margin(self, margin: Thickness) -> (b: WidgetBuilder)
        ensures
            b == (WidgetBuilder { margin, ..self }),
    {
        WidgetBuilder { margin, ..self }
    }

    /// Sets a fixed width.
    pub fn with_width(self, width: Fx) -> (b: WidgetBuilder)
        ensures
            b == (WidgetBuilder { width: Option::Some(width), ..self }),
    {
        WidgetBuilder { width: Option::Some(width), ..self }
    }

    /// Sets a fixed height.
    pub fn with_height(self, height: Fx) -> (b: WidgetBuilder)
        ensures
            b == (WidgetBuilder { height: Option::Some(height), ..self }),
    {
        WidgetBuilder { height: Option::Some(height), ..self }
    }

    /// Sets the vertical placement.
    pub fn with_vertical_alignment(self, vertical_alignment: VerticalAlignment) -> (b:
        WidgetBuilder)
        ensures
            b == (WidgetBuilder { vertical_alignment, ..self }),
    {
        WidgetBuilder { vertical_alignment, ..self }
    }

    /// Sets the horizontal placement.
    pub fn with_horizontal_alignment(self, horizontal_alignment: HorizontalAlignment) -> (b:
        WidgetBuilder)
        ensures
            b == (WidgetBuilder { horizontal_alignment, ..self }),
    {
        WidgetBuilder { horizontal_alignment, ..self }
    }

    /// Lets the widget take part in input handling.
    pub fn with_accepts_input(self, accepts_input: bool) -> (b: WidgetBuilder)
        ensures
            b == (WidgetBuilder { accepts_input, ..self }),
    {
        WidgetBuilder { accepts_input, ..self }
    }

    /// Finishes the shared state; the handle and parent are assigned when
    /// the node enters the interface.
    pub fn build(self) -> (w: Widget)
        ensures
            w == (Widget {
                handle: Handle { index: u32::MAX },
                parent: Handle { index: u32::MAX },
                children: w.children,
                visibility: self.visibility,
                min_width: self.min_width,
                min_height: self.min_height,
                width: self.width,
                height: self.height,
                margin: self.margin,
                background: self.background,
                foreground: self.foreground,
                row: 0usize,
                column: 0usize,
                vertical_alignment: self.vertical_alignment,
                horizontal_alignment: self.horizontal_alignment,
                accepts_input: self.accepts_input,
            }),
            w.children@ == self.children@,
    {
        Widget {
            handle: Handle::none(),
            parent: Handle::none(),
            children: self.children,
            visibility: self.visibility,
            min_width: self.min_width,
            min_height: self.min_height,
            width: self.width,
            height: self.height,
            margin: self.margin,
            background: self.background,
            foreground: self.foreground,
            row: 0,
            column: 0,
            vertical_alignment: self.vertical_alignment,
            horizontal_alignment: self.horizontal_alignment,
            accepts_input: self.accepts_input,
        }
    }
}

/// Two widget states that carry the same data (children compared as
/// sequences).
pub open spec fn same_widget(a: Widget, b: Widget) -> bool {
    &&& a.handle == b.handle
    &&& a.parent == b.parent
    &&& a.children@ == b.children@
    &&& a.visibility == b.visibility
    &&& a.min_width == b.min_width
    &&& a.min_height == b.min_height
    &&& a.width == b.width
    &&& a.height == b.height
    &&& a.margin == b.margin
    &&& a.background == b.background
    &&& a.foreground == b.foreground
    &&& a.row == b.row
    &&& a.column == b.column
    &&& a.vertical_alignment == b.vertical_alignment
    &&& a.horizontal_alignment == b.horizontal_alignment
    &&& a.accepts_input == b.accepts_input
}

/// Two widget states that carry the same data except possibly the
/// parent link.
pub open spec fn same_widget_but_parent(a: Widget, b: Widget) -> bool {
    &&& a.handle == b.handle
    &&& a.children@ == b.children@
    &&& a.visibility == b.visibility
    &&& a.min_width == b.min_width
    &&& a.min_height == b.min_height
    &&& a.width == b.width
    &&& a.height == b.height
    &&& a.margin == b.margin
    &&& a.background == b.background
    &&& a.foreground == b.foreground
    &&& a.row == b.row
    &&& a.column == b.column
    &&& a.vertical_alignment == b.vertical_alignment
    &&& a.horizontal_alignment == b.horizontal_alignment
    &&& a.accepts_input == b.accepts_input
}

/// Two widget states that carry the same data except possibly the child
/// list.
pub open spec fn same_widget_but_children(a: Widget, b: Widget) -> bool {
    &&& a.handle == b.handle
    &&& a.parent == b.parent
    &&& a.visibility == b.visibility
    &&& a.min_width == b.min_width
    &&& a.min_height == b.min_height
    &&& a.width == b.width
    &&& a.height == b.height
    &&& a.margin == b.margin
    &&& a.background == b.background
    &&& a.foreground == b.foreground
    &&& a.row == b.row
    &&& a.column == b.column
    &&& a.vertical_alignment == b.vertical_alignment
    &&& a.horizontal_alignment == b.horizontal_alignment
    &&& a.accepts_input == b.accepts_input
}

} // verus!
