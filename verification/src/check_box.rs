//! The check box widget: three states (checked, unchecked, undefined),
//! one mark widget per state, toggled by mouse and keyboard, changed and
//! announced through [`CheckBoxMessage`].

use vstd::prelude::*;
use crate::fixed::{Fx, FX_ONE};
use crate::pool::Handle;
use crate::style::{Brush, Style, StyleKey, StyleValue, Thickness};
use crate::ui::{node_same_shape, Border, BorderBuilder, BuildContext, Grid, GridBuilder,
    SizeMode, UiNode, UserInterface, VectorImageBuilder, Primitive};
use crate::widget::{CheckBoxMessage, HorizontalAlignment, KeyCode, MessageDirection, MouseButton,
    UiMessage, UiMessageData, VerticalAlignment, Widget, WidgetBuilder, WidgetMessage,
    same_widget};
use crate::algebra::Vector2;
use crate::color::Color;

verus! {

/// A three-state toggle widget.
#[derive(Debug)]
pub struct CheckBox {
    /// Shared widget state.
    pub widget: Widget,
    /// Current state: checked, unchecked, or undefined.
    pub checked: Option<bool>,
    /// Mark shown when checked.
    pub check_mark: Handle,
    /// Mark shown when unchecked.
    pub uncheck_mark: Handle,
    /// Mark shown in the undefined state.
    pub undefined_mark: Handle,
}

/// The visibility messages a state change emits for the three marks,
/// when the check box owns a check mark.
pub open spec fn spec_mark_visibility_msgs(cb: CheckBox, value: Option<bool>) -> Seq<UiMessage> {
    if cb.check_mark.spec_is_none() {
        Seq::empty()
    } else {
        match value {
            Option::None => seq![
                spec_vis_msg(cb.check_mark, false),
                spec_vis_msg(cb.uncheck_mark, false),
                spec_vis_msg(cb.undefined_mark, true),
            ],
            Option::Some(v) => seq![
                spec_vis_msg(cb.check_mark, v),
                spec_vis_msg(cb.uncheck_mark, !v),
                spec_vis_msg(cb.undefined_mark, false),
            ],
        }
    }
}

/// Mark `m` is a live node drawn (or hidden) as `visible` says.
pub open spec fn mark_shows(ui: UserInterface, m: Handle, visible: bool) -> bool {
    &&& ui.nodes.spec_is_valid(m)
    &&& ui.nodes.records@[m.index as int].unwrap().spec_widget().visibility == visible
}

/// A visibility message travelling to a widget.
pub open spec fn spec_vis_msg(h: Handle, visible: bool) -> UiMessage {
    UiMessage {
        destination: h,
        direction: MessageDirection::ToWidget,
        data: UiMessageData::Widget(WidgetMessage::Visibility(visible)),
        handled: false,
    }
}

/// The state-change message a click or key press emits: the toggled
/// state, or checked when the state was undefined.
pub open spec fn spec_toggle_msg(cb: CheckBox) -> UiMessage {
    UiMessage {
        destination: cb.widget.handle,
        direction: MessageDirection::ToWidget,
        data: UiMessageData::CheckBox(
            CheckBoxMessage::Check(
                match cb.checked {
                    Option::Some(v) => Option::Some(!v),
                    Option::None => Option::Some(true),
                },
            ),
        ),
        handled: false,
    }
}

impl CheckBox {
    /// The widget-specific style properties: corner radius, border
    /// thickness, and mark size.
    pub fn style() -> (s: Style)
        ensures
            s.entries@ == seq![
                (
                    StyleKey::CheckBoxCornerRadius,
                    StyleValue::Number(Fx { raw: 262144i64 }),
                ),
                (
                    StyleKey::CheckBoxBorderThickness,
                    StyleValue::Sides(
                        Thickness {
                            left: Fx { raw: 65536i64 },
                            top: Fx { raw: 65536i64 },
                            right: Fx { raw: 65536i64 },
                            bottom: Fx { raw: 65536i64 },
                        },
                    ),
                ),
                (
                    StyleKey::CheckBoxCheckMarkSize,
                    StyleValue::Number(Fx { raw: 458752i64 }),
                ),
            ],
    {
        let s = Style::default().with(
            StyleKey::CheckBoxCornerRadius,
            StyleValue::Number(Fx::from_int(4)),
        ).with(
            StyleKey::CheckBoxBorderThickness,
            StyleValue::Sides(Thickness::uniform(Fx::from_int(1))),
        ).with(StyleKey::CheckBoxCheckMarkSize, StyleValue::Number(Fx::from_int(7)));
        proof {
            assert(s.entries@ =~= seq![
                (
                    StyleKey::CheckBoxCornerRadius,
                    StyleValue::Number(Fx { raw: 262144i64 }),
                ),
                (
                    StyleKey::CheckBoxBorderThickness,
                    StyleValue::Sides(
                        Thickness {
                            left: Fx { raw: 65536i64 },
                            top: Fx { raw: 65536i64 },
                            right: Fx { raw: 65536i64 },
                            bottom: Fx { raw: 65536i64 },
                        },
                    ),
                ),
                (
                    StyleKey::CheckBoxCheckMarkSize,
                    StyleValue::Number(Fx { raw: 458752i64 }),
                ),
            ]);
        }
        s
    }

    /// Applies one routed message to the check box. A left mouse press
    /// over the box captures the mouse; a left release toggles the state
    /// through a new check message; the space key does the same and
    /// consumes the key; an incoming check message with a new value
    /// updates the state, answers with the reversed message, and realigns
    /// the three marks' visibility.
    pub fn handle_routed_message(
        &mut self,
        ui: &mut UserInterface,
        message: &mut UiMessage,
    )
        ensures
            final(ui).nodes.records@ == old(ui).nodes.records@,
            final(ui).style == old(ui).style,
            final(ui).root == old(ui).root,
            final(message).destination == old(message).destination,
            final(message).data == old(message).data,
            final(message).direction == old(message).direction,
            match old(message).data {
                UiMessageData::CheckBox(CheckBoxMessage::Check(value)) => {
                    &&& final(message).handled == old(message).handled
                    &&& final(ui).captured == old(ui).captured
                    &&& if old(message).direction == MessageDirection::ToWidget && old(
                        message,
                    ).destination == old(self).widget.handle && old(self).checked != value {
                        &&& *final(self) == (CheckBox { checked: value, ..*old(self) })
                        &&& final(ui).queue@ == old(ui).queue@.push(
                            old(message).spec_reverse(),
                        ) + spec_mark_visibility_msgs(*old(self), value)
                    } else {
                        &&& *final(self) == *old(self)
                        &&& final(ui).queue@ == old(ui).queue@
                    }
                },
                UiMessageData::Widget(WidgetMessage::MouseDown { button, pos }) => {
                    &&& *final(self) == *old(self)
                    &&& final(ui).queue@ == old(ui).queue@
                    &&& final(message).handled == old(message).handled
                    &&& final(ui).captured == (if button == MouseButton::Left && (old(
                        message,
                    ).destination == old(self).widget.handle || crate::ui::spec_reaches_ancestor(
                        old(ui).nodes.records@,
                        old(message).destination,
                        old(self).widget.handle,
                        old(ui).nodes.records@.len() as nat,
                    )) {
                        old(self).widget.handle
                    } else {
                        old(ui).captured
                    })
                },
                UiMessageData::Widget(WidgetMessage::MouseUp { button, pos }) => {
                    &&& *final(self) == *old(self)
                    &&& final(message).handled == old(message).handled
                    &&& (if button == MouseButton::Left && (old(message).destination == old(self).widget.handle || crate::ui::spec_reaches_ancestor(
                        old(ui).nodes.records@,
                        old(message).destination,
                        old(self).widget.handle,
                        old(ui).nodes.records@.len() as nat,
                    )) {
                        &&& final(ui).queue@ == old(ui).queue@.push(
                            spec_toggle_msg(*old(self)),
                        )
                        &&& final(ui).captured.spec_is_none()
                    } else {
                        &&& final(ui).queue@ == old(ui).queue@
                        &&& final(ui).captured == old(ui).captured
                    })
                },
                UiMessageData::Widget(WidgetMessage::KeyDown(key)) => {
                    &&& *final(self) == *old(self)
                    &&& final(ui).captured == old(ui).captured
                    &&& if !old(message).handled && key == KeyCode::Space {
                        &&& final(ui).queue@ == old(ui).queue@.push(
                            UiMessage {
                                destination: old(self).widget.handle,
                                direction: MessageDirection::ToWidget,
                                data: UiMessageData::CheckBox(
                                    CheckBoxMessage::Check(
                                        match old(self).checked {
                                            Option::Some(v) => Option::Some(!v),
                                            Option::None => Option::None,
                                        },
                                    ),
                                ),
                                handled: false,
                            },
                        )
                        &&& final(message).handled == true
                    } else {
                        &&& final(ui).queue@ == old(ui).queue@
                        &&& final(message).handled == old(message).handled
                    }
                },
                UiMessageData::Widget(WidgetMessage::Visibility(v)) => {
                    &&& final(ui).queue@ == old(ui).queue@
                    &&& final(ui).captured == old(ui).captured
                    &&& final(message).handled == old(message).handled
                    &&& *final(self) == (if old(message).destination == old(self).widget.handle {
                        CheckBox {
                            widget: Widget { visibility: v, ..old(self).widget },
                            ..*old(self)
                        }
                    } else {
                        *old(self)
                    })
                },
                UiMessageData::Widget(WidgetMessage::Remove) => {
                    &&& *final(self) == *old(self)
                    &&& final(ui).queue@ == old(ui).queue@
                    &&& final(ui).captured == old(ui).captured
                    &&& final(message).handled == old(message).handled
                },
            },
    {
        self.widget.handle_routed_message(message);
        let data = message.data;
        match data {
            UiMessageData::Widget(WidgetMessage::MouseDown { button, pos: _ }) => {
                if matches!(button, MouseButton::Left) {
                    let over = message.destination.index == self.widget.handle.index
                        || ui.is_descendant_of(message.destination, self.widget.handle);
                    if over {
                        ui.capture_mouse(self.widget.handle);
                    }
                }
            },
            UiMessageData::Widget(WidgetMessage::MouseUp { button, pos: _ }) => {
                if matches!(button, MouseButton::Left) {
                    let over = message.destination.index == self.widget.handle.index
                        || ui.is_descendant_of(message.destination, self.widget.handle);
                    if over {
                        ui.release_mouse_capture();
                        match self.checked {
                            Option::Some(v) => {
                                ui.send_message(
                                    CheckBoxMessage::checked(
                                        self.widget.handle,
                                        MessageDirection::ToWidget,
                                        Option::Some(!v),
                                    ),
                                );
                            },
                            Option::None => {
                                ui.send_message(
                                    CheckBoxMessage::checked(
                                        self.widget.handle,
                                        MessageDirection::ToWidget,
                                        Option::Some(true),
                                    ),
                                );
                            },
                        }
                    }
                }
            },
            UiMessageData::Widget(WidgetMessage::KeyDown(key)) => {
                if !message.handled() && matches!(key, KeyCode::Space) {
                    let toggled: Option<bool> = match self.checked {
                        Option::Some(v) => Option::Some(!v),
                        Option::None => Option::None,
                    };
                    ui.send_message(
                        CheckBoxMessage::checked(
                            self.widget.handle,
                            MessageDirection::ToWidget,
                            toggled,
                        ),
                    );
                    message.set_handled(true);
                }
            },
            UiMessageData::CheckBox(CheckBoxMessage::Check(value)) => {
                let to_widget = matches!(message.direction, MessageDirection::ToWidget);
                let to_me = message.destination.index == self.widget.handle.index;
                let changed = !option_bool_eq(self.checked, value);
                if to_widget && to_me && changed {
                    let ghost before = *self;
                    self.checked = value;
                    ui.send_message(message.reverse());
                    if self.check_mark.is_some() {
                        match value {
                            Option::None => {
                                ui.send_message(
                                    WidgetMessage::visibility(
                                        self.check_mark,
                                        MessageDirection::ToWidget,
                                        false,
                                    ),
                                );
                                ui.send_message(
                                    WidgetMessage::visibility(
                                        self.uncheck_mark,
                                        MessageDirection::ToWidget,
                                        false,
                                    ),
                                );
                                ui.send_message(
                                    WidgetMessage::visibility(
                                        self.undefined_mark,
                                        MessageDirection::ToWidget,
                                        true,
                                    ),
                                );
                            },
                            Option::Some(v) => {
                                ui.send_message(
                                    WidgetMessage::visibility(
                                        self.check_mark,
                                        MessageDirection::ToWidget,
                                        v,
                                    ),
                                );
                                ui.send_message(
                                    WidgetMessage::visibility(
                                        self.uncheck_mark,
                                        MessageDirection::ToWidget,
                                        !v,
                                    ),
                                );
                                ui.send_message(
                                    WidgetMessage::visibility(
                                        self.undefined_mark,
                                        MessageDirection::ToWidget,
                                        false,
                                    ),
                                );
                            },
                        }
                    }
                    proof {
                        if before.check_mark.spec_is_none() {
                            assert(ui.queue@ =~= old(ui).queue@.push(old(message).spec_reverse())
                                + spec_mark_visibility_msgs(before, value));
                        } else {
                            assert(ui.queue@ =~= old(ui).queue@.push(old(message).spec_reverse())
                                + spec_mark_visibility_msgs(before, value));
                        }
                    }
                }
            },
            _ => {},
        }
    }
}

/// Equality of two optional booleans, as the state-change test uses it.
fn option_bool_eq(a: Option<bool>, b: Option<bool>) -> (r: bool)
    ensures
        r == (a == b),
{
    match (a, b) {
        (Option::None, Option::None) => true,
        (Option::Some(x), Option::Some(y)) => x == y,
        _ => false,
    }
}

/// Builds [`CheckBox`] widgets and adds them to the interface.
#[derive(Debug)]
pub struct CheckBoxBuilder {
    /// Shared widget state under construction.
    pub widget_builder: WidgetBuilder,
    /// Initial state.
    pub checked: Option<bool>,
    /// Custom checked mark, if any.
    pub check_mark: Option<Handle>,
    /// Custom unchecked mark, if any.
    pub uncheck_mark: Option<Handle>,
    /// Custom undefined mark, if any.
    pub undefined_mark: Option<Handle>,
    /// Custom background, if any.
    pub background: Option<Handle>,
    /// Content widget shown beside the box.
    pub content: Handle,
}

impl CheckBoxBuilder {
    /// Starts a check box over the given shared state; the initial state
    /// is unchecked.
    pub fn new(widget_builder: WidgetBuilder) -> (b: CheckBoxBuilder)
        ensures
            b.widget_builder == widget_builder,
            b.checked == Option::Some(false),
            b.check_mark is None,
            b.uncheck_mark is None,
            b.undefined_mark is None,
            b.background is None,
            b.content.spec_is_none(),
    {
        CheckBoxBuilder {
            widget_builder,
            checked: Option::Some(false),
            check_mark: Option::None,
            uncheck_mark: Option::None,
            undefined_mark: Option::None,
            background: Option::None,
            content: Handle::none(),
        }
    }

    /// Sets the initial state.
    pub fn checked(self, value: Option<bool>) -> (b: CheckBoxBuilder)
        ensures
            b == (CheckBoxBuilder { checked: value, ..self }),
    {
        CheckBoxBuilder { checked: value, ..self }
    }

    /// Sets the mark shown when checked.
    pub fn with_check_mark(self, check_mark: Handle) -> (b: CheckBoxBuilder)
        ensures
            b == (CheckBoxBuilder { check_mark: Option::Some(check_mark), ..self }),
    {
        CheckBoxBuilder { check_mark: Option::Some(check_mark), ..self }
    }

    /// Sets the mark shown when unchecked.
    pub fn with_uncheck_mark(self, uncheck_mark: Handle) -> (b: CheckBoxBuilder)
        ensures
            b == (CheckBoxBuilder { uncheck_mark: Option::Some(uncheck_mark), ..self }),
    {
        CheckBoxBuilder { uncheck_mark: Option::Some(uncheck_mark), ..self }
    }

    /// Sets the mark shown in the undefined state.
    pub fn with_undefined_mark(self, undefined_mark: Handle) -> (b: CheckBoxBuilder)
        ensures
            b == (CheckBoxBuilder { undefined_mark: Option::Some(undefined_mark), ..self }),
    {
        CheckBoxBuilder { undefined_mark: Option::Some(undefined_mark), ..self }
    }

    /// Sets the content widget shown beside the box.
    pub fn with_content(self, content: Handle) -> (b: CheckBoxBuilder)
        ensures
            b == (CheckBoxBuilder { content, ..self }),
    {
        CheckBoxBuilder { content, ..self }
    }

    /// Sets the background container of the box.
    pub fn with_background(self, background: Handle) -> (b: CheckBoxBuilder)
        ensures
            b == (CheckBoxBuilder { background: Option::Some(background), ..self }),
    {
        CheckBoxBuilder { background: Option::Some(background), ..self }
    }

    /// Finishes the check box: builds default marks and background where
    /// none were given, aligns the marks' visibility with the initial
    /// state, assembles the layout grid, and adds the box to the
    /// interface. The new node is a check box in the builder's state.
    #[verifier::rlimit(100)]
    #[verifier::spinoff_prover]
    pub fn build(self, ctx: &mut BuildContext) -> (h: Handle)
        requires
            old(ctx).nodes.records@.len() + 8 < u32::MAX,
            self.widget_builder.children@.len() < usize::MAX,
        ensures
            final(ctx).nodes.spec_is_valid(h),
            final(ctx).nodes.records@.len() > old(ctx).nodes.records@.len(),
            final(ctx).nodes.records@[h.index as int].unwrap() is CheckBox,
            (final(ctx).nodes.records@[h.index as int].unwrap() matches UiNode::CheckBox(cb) ==> {
                &&& cb.checked == self.checked
                &&& cb.widget.handle == h
                &&& (self.check_mark matches Option::Some(m) ==> cb.check_mark == m)
                &&& (self.uncheck_mark matches Option::Some(m) ==> cb.uncheck_mark == m)
                &&& (self.undefined_mark matches Option::Some(m) ==> cb.undefined_mark == m)
            }),
            ({
                let cb = final(ctx).nodes.records@[h.index as int].unwrap()->CheckBox_0;
                &&& (match self.check_mark {
                    Option::Some(m) => (old(ctx).nodes.spec_is_valid(m) && cb.check_mark
                        != cb.uncheck_mark && cb.check_mark != cb.undefined_mark) ==> mark_shows(
                        *final(ctx),
                        cb.check_mark,
                        self.checked == Option::Some(true),
                    ),
                    Option::None => (cb.check_mark != cb.uncheck_mark && cb.check_mark
                        != cb.undefined_mark) ==> mark_shows(
                        *final(ctx),
                        cb.check_mark,
                        self.checked == Option::Some(true),
                    ),
                })
                &&& (match self.uncheck_mark {
                    Option::Some(m) => (old(ctx).nodes.spec_is_valid(m) && cb.uncheck_mark
                        != cb.undefined_mark) ==> mark_shows(
                        *final(ctx),
                        cb.uncheck_mark,
                        self.checked == Option::Some(false),
                    ),
                    Option::None => cb.uncheck_mark != cb.undefined_mark ==> mark_shows(
                        *final(ctx),
                        cb.uncheck_mark,
                        self.checked == Option::Some(false),
                    ),
                })
                &&& (match self.undefined_mark {
                    Option::Some(m) => old(ctx).nodes.spec_is_valid(m) ==> mark_shows(
                        *final(ctx),
                        cb.undefined_mark,
                        self.checked is None,
                    ),
                    Option::None => mark_shows(*final(ctx), cb.undefined_mark, self.checked is None),
                })
            }),
            ({
                let cbn = final(ctx).nodes.records@[h.index as int].unwrap();
                let cb = cbn->CheckBox_0;
                let gridh = cbn.spec_widget().children@.last();
                &&& cbn.spec_widget().children@.len() == self.widget_builder.children@.len() + 1
                &&& final(ctx).nodes.spec_is_valid(gridh)
                &&& final(ctx).nodes.records@[gridh.index as int].unwrap() is Grid
                &&& ({
                    let gw = final(ctx).nodes.records@[gridh.index as int].unwrap().spec_widget();
                    let bgh = gw.children@[0];
                    &&& gw.children@.len() == 2
                    &&& gw.children@[1] == self.content
                    &&& (self.background matches Option::Some(b) ==> bgh == b)
                    &&& ((match self.background {
                        Option::Some(b) => old(ctx).nodes.spec_is_valid(b),
                        Option::None => true,
                    }) && final(ctx).nodes.spec_is_valid(bgh) && bgh != gridh && bgh.index
                        != h.index ==> ({
                        let bw = final(ctx).nodes.records@[bgh.index as int].unwrap().spec_widget();
                        &&& bw.row == 0
                        &&& bw.column == 0
                        &&& bw.min_width.raw >= 16 * 65536
                        &&& bw.min_height.raw >= 16 * 65536
                    }))
                    &&& ((old(ctx).nodes.spec_is_valid(self.content) && self.content != bgh
                        && self.content != gridh && self.content.index != h.index) ==> ({
                        let cw = final(ctx).nodes.records@[self.content.index as int].unwrap().spec_widget();
                        &&& cw.row == 0
                        &&& cw.column == 1
                    }))
                })
            }),
            final(ctx).style == old(ctx).style,
            final(ctx).root == old(ctx).root,
            final(ctx).queue == old(ctx).queue,
    {
        let style_mark_size = ctx.style.number_or(
            StyleKey::CheckBoxCheckMarkSize,
            Fx::from_int(7),
        );
        let corner_radius = ctx.style.number_or(StyleKey::CheckBoxCornerRadius, Fx::from_int(4));
        let border_thickness = ctx.style.sides_or(
            StyleKey::CheckBoxBorderThickness,
            Thickness::uniform(Fx::from_int(1)),
        );
        let checked_now = self.checked;
        let check_mark = make_check_mark(ctx, self.check_mark, checked_now, corner_radius, style_mark_size);
        let uncheck_mark = make_uncheck_mark(ctx, self.uncheck_mark, checked_now, corner_radius);
        let undefined_mark = make_undefined_mark(ctx, self.undefined_mark, checked_now, corner_radius);
        place_content_cell(ctx, self.content);
        let background = make_background(ctx, self.background, corner_radius, border_thickness);
        attach_marks(ctx, check_mark, uncheck_mark, undefined_mark, background);
        let grid = GridBuilder::new(
            WidgetBuilder::new().with_child(background).with_child(self.content),
        ).add_row(SizeMode::Stretch).add_column(SizeMode::Auto).add_column(SizeMode::Auto).build(
            ctx,
        );
        let widget = self.widget_builder.with_accepts_input(true).with_child(grid).build();
        let cb = CheckBox {
            widget,
            checked: checked_now,
            check_mark,
            uncheck_mark,
            undefined_mark,
        };
        ctx.add_node(UiNode::CheckBox(cb))
    }
}

/// The check mark a builder settles on: the custom widget where one was
/// given, else a freshly built default (a rounded border around a
/// vector-image tick), shown exactly when the initial state is checked.
#[verifier::spinoff_prover]
fn make_check_mark(
    ctx: &mut BuildContext,
    custom: Option<Handle>,
    checked: Option<bool>,
    corner_radius: Fx,
    mark_size: Fx,
) -> (m: Handle)
    requires
        old(ctx).nodes.records@.len() + 2 < u32::MAX,
    ensures
        old(ctx).nodes.records@.len() <= final(ctx).nodes.records@.len() <= old(ctx).nodes.records@.len() + 2,
        final(ctx).queue == old(ctx).queue,
        final(ctx).style == old(ctx).style,
        final(ctx).root == old(ctx).root,
        final(ctx).captured == old(ctx).captured,
        forall|i: int|
            0 <= i < old(ctx).nodes.records@.len() ==> ((
            #[trigger] final(ctx).nodes.records@[i]) is Some <==> old(ctx).nodes.records@[i] is Some),
        (custom matches Option::Some(c) ==> m == c),
        forall|i: int|
            0 <= i < old(ctx).nodes.records@.len() && i != m.index && old(ctx).nodes.records@[i]
                is Some ==> node_same_shape(
                old(ctx).nodes.records@[i].unwrap(),
                (#[trigger] final(ctx).nodes.records@[i]).unwrap(),
            ) && crate::widget::same_widget_but_parent(
                old(ctx).nodes.records@[i].unwrap().spec_widget(),
                final(ctx).nodes.records@[i].unwrap().spec_widget(),
            ),
        (match custom {
            Option::Some(c) => old(ctx).nodes.spec_is_valid(c) ==> mark_shows(
                *final(ctx),
                c,
                checked == Option::Some(true),
            ),
            Option::None => m.index >= old(ctx).nodes.records@.len() && mark_shows(
                *final(ctx),
                m,
                checked == Option::Some(true),
            ),
        }),
        (match custom {
            Option::Some(c) => old(ctx).nodes.spec_is_valid(c) ==> node_same_shape(
                old(ctx).nodes.records@[c.index as int].unwrap(),
                final(ctx).nodes.records@[c.index as int].unwrap(),
            ) && crate::widget::same_widget(
                final(ctx).nodes.records@[c.index as int].unwrap().spec_widget(),
                Widget {
                    visibility: checked == Option::Some(true),
                    ..old(ctx).nodes.records@[c.index as int].unwrap().spec_widget()
                },
            ),
            Option::None => true,
        }),
{
    let m = match custom {
        Option::Some(c) => c,
        Option::None => {
            let size = mark_size;
            let half_size = Fx { raw: size.raw / 2 };
            let pad = if size.raw <= i64::MAX - FX_ONE {
                Fx { raw: size.raw + FX_ONE }
            } else {
                size
            };
            let mut prims: Vec<Primitive> = Vec::new();
            prims.push(
                Primitive::Line {
                    begin: Vector2::new(Fx { raw: 0 }, half_size),
                    end: Vector2::new(half_size, size),
                    thickness: Fx::from_int(2),
                },
            );
            prims.push(
                Primitive::Line {
                    begin: Vector2::new(half_size, size),
                    end: Vector2::new(size, Fx { raw: 0 }),
                    thickness: Fx::from_int(2),
                },
            );
            let image = VectorImageBuilder::new(
                WidgetBuilder::new().with_vertical_alignment(
                    VerticalAlignment::Center,
                ).with_horizontal_alignment(HorizontalAlignment::Center).with_width(
                    pad,
                ).with_height(pad).with_foreground(
                    ctx.style.fill_or(
                        StyleKey::BrushText,
                        Brush::Solid(Color { r: 255, g: 255, b: 255, a: 255 }),
                    ),
                ),
            ).with_primitives(prims).build(ctx);
            BorderBuilder::new(
                WidgetBuilder::new().with_background(
                    ctx.style.fill_or(
                        StyleKey::BrushBrightBlue,
                        Brush::Solid(Color { r: 60, g: 120, b: 255, a: 255 }),
                    ),
                ).with_child(image),
            ).with_pad_by_corner_radius(false).with_corner_radius(
                corner_radius,
            ).with_stroke_thickness(Thickness::uniform(Fx { raw: 0 })).build(ctx)
        },
    };
    if ctx.nodes.is_valid(m) {
        ctx.set_visibility(
            m,
            match checked {
                Option::Some(v) => v,
                Option::None => false,
            },
        );
    }
    m
}

/// The unchecked mark: the custom widget where one was given, else a
/// small transparent border, shown exactly when the initial state is
/// unchecked.
#[verifier::spinoff_prover]
fn make_uncheck_mark(
    ctx: &mut BuildContext,
    custom: Option<Handle>,
    checked: Option<bool>,
    corner_radius: Fx,
) -> (m: Handle)
    requires
        old(ctx).nodes.records@.len() + 1 < u32::MAX,
    ensures
        old(ctx).nodes.records@.len() <= final(ctx).nodes.records@.len() <= old(ctx).nodes.records@.len() + 1,
        final(ctx).queue == old(ctx).queue,
        final(ctx).style == old(ctx).style,
        final(ctx).root == old(ctx).root,
        final(ctx).captured == old(ctx).captured,
        forall|i: int|
            0 <= i < old(ctx).nodes.records@.len() ==> ((
            #[trigger] final(ctx).nodes.records@[i]) is Some <==> old(ctx).nodes.records@[i] is Some),
        (custom matches Option::Some(c) ==> m == c),
        forall|i: int|
            0 <= i < old(ctx).nodes.records@.len() && i != m.index && old(ctx).nodes.records@[i]
                is Some ==> node_same_shape(
                old(ctx).nodes.records@[i].unwrap(),
                (#[trigger] final(ctx).nodes.records@[i]).unwrap(),
            ) && crate::widget::same_widget_but_parent(
                old(ctx).nodes.records@[i].unwrap().spec_widget(),
                final(ctx).nodes.records@[i].unwrap().spec_widget(),
            ),
        (match custom {
            Option::Some(c) => old(ctx).nodes.spec_is_valid(c) ==> mark_shows(
                *final(ctx),
                c,
                checked == Option::Some(false),
            ),
            Option::None => m.index >= old(ctx).nodes.records@.len() && mark_shows(
                *final(ctx),
                m,
                checked == Option::Some(false),
            ),
        }),
        (match custom {
            Option::Some(c) => old(ctx).nodes.spec_is_valid(c) ==> node_same_shape(
                old(ctx).nodes.records@[c.index as int].unwrap(),
                final(ctx).nodes.records@[c.index as int].unwrap(),
            ) && crate::widget::same_widget(
                final(ctx).nodes.records@[c.index as int].unwrap().spec_widget(),
                Widget {
                    visibility: checked == Option::Some(false),
                    ..old(ctx).nodes.records@[c.index as int].unwrap().spec_widget()
                },
            ),
            Option::None => true,
        }),
{
    let m = match custom {
        Option::Some(c) => c,
        Option::None => {
            BorderBuilder::new(
                WidgetBuilder::new().with_margin(Thickness::uniform(Fx::from_int(3)))
                    .with_width(Fx::from_int(10)).with_height(Fx::from_int(9)).with_background(
                    Brush::Solid(Color { r: 0, g: 0, b: 0, a: 0 }),
                ).with_foreground(Brush::Solid(Color { r: 0, g: 0, b: 0, a: 0 })),
            ).with_pad_by_corner_radius(false).with_corner_radius(
                corner_radius,
            ).with_stroke_thickness(Thickness::uniform(Fx { raw: 0 })).build(ctx)
        },
    };
    if ctx.nodes.is_valid(m) {
        ctx.set_visibility(
            m,
            match checked {
                Option::Some(v) => !v,
                Option::None => false,
            },
        );
    }
    m
}

/// The undefined-state mark: the custom widget where one was given, else
/// a filled border, shown exactly when the initial state is undefined.
#[verifier::spinoff_prover]
fn make_undefined_mark(
    ctx: &mut BuildContext,
    custom: Option<Handle>,
    checked: Option<bool>,
    corner_radius: Fx,
) -> (m: Handle)
    requires
        old(ctx).nodes.records@.len() + 1 < u32::MAX,
    ensures
        old(ctx).nodes.records@.len() <= final(ctx).nodes.records@.len() <= old(ctx).nodes.records@.len() + 1,
        final(ctx).queue == old(ctx).queue,
        final(ctx).style == old(ctx).style,
        final(ctx).root == old(ctx).root,
        final(ctx).captured == old(ctx).captured,
        forall|i: int|
            0 <= i < old(ctx).nodes.records@.len() ==> ((
            #[trigger] final(ctx).nodes.records@[i]) is Some <==> old(ctx).nodes.records@[i] is Some),
        (custom matches Option::Some(c) ==> m == c),
        forall|i: int|
            0 <= i < old(ctx).nodes.records@.len() && i != m.index && old(ctx).nodes.records@[i]
                is Some ==> node_same_shape(
                old(ctx).nodes.records@[i].unwrap(),
                (#[trigger] final(ctx).nodes.records@[i]).unwrap(),
            ) && crate::widget::same_widget_but_parent(
                old(ctx).nodes.records@[i].unwrap().spec_widget(),
                final(ctx).nodes.records@[i].unwrap().spec_widget(),
            ),
        (match custom {
            Option::Some(c) => old(ctx).nodes.spec_is_valid(c) ==> mark_shows(
                *final(ctx),
                c,
                checked is None,
            ),
            Option::None => m.index >= old(ctx).nodes.records@.len() && mark_shows(
                *final(ctx),
                m,
                checked is None,
            ),
        }),
        (match custom {
            Option::Some(c) => old(ctx).nodes.spec_is_valid(c) ==> node_same_shape(
                old(ctx).nodes.records@[c.index as int].unwrap(),
                final(ctx).nodes.records@[c.index as int].unwrap(),
            ) && crate::widget::same_widget(
                final(ctx).nodes.records@[c.index as int].unwrap().spec_widget(),
                Widget {
                    visibility: checked is None,
                    ..old(ctx).nodes.records@[c.index as int].unwrap().spec_widget()
                },
            ),
            Option::None => true,
        }),
{
    let m = match custom {
        Option::Some(c) => c,
        Option::None => {
            BorderBuilder::new(
                WidgetBuilder::new().with_margin(Thickness::uniform(Fx::from_int(4)))
                    .with_background(
                    ctx.style.fill_or(
                        StyleKey::BrushBright,
                        Brush::Solid(Color { r: 120, g: 120, b: 120, a: 255 }),
                    ),
                ).with_foreground(Brush::Solid(Color { r: 0, g: 0, b: 0, a: 0 })),
            ).with_pad_by_corner_radius(false).with_corner_radius(corner_radius).build(ctx)
        },
    };
    if ctx.nodes.is_valid(m) {
        ctx.set_visibility(m, matches!(checked, Option::None));
    }
    m
}

/// Seats the content widget, when it is live, in the grid cell beside the
/// box.
#[verifier::spinoff_prover]
fn place_content_cell(ctx: &mut BuildContext, content: Handle)
    ensures
        final(ctx).nodes.records@.len() == old(ctx).nodes.records@.len(),
        final(ctx).queue == old(ctx).queue,
        final(ctx).style == old(ctx).style,
        final(ctx).root == old(ctx).root,
        final(ctx).captured == old(ctx).captured,
        forall|i: int|
            0 <= i < old(ctx).nodes.records@.len() ==> ((
            #[trigger] final(ctx).nodes.records@[i]) is Some <==> old(ctx).nodes.records@[i] is Some),
        forall|i: int|
            0 <= i < old(ctx).nodes.records@.len() && i != content.index
                ==> #[trigger] final(ctx).nodes.records@[i] == old(ctx).nodes.records@[i],
        (old(ctx).nodes.spec_is_valid(content) && !content.spec_is_none() ==> node_same_shape(
            old(ctx).nodes.records@[content.index as int].unwrap(),
            final(ctx).nodes.records@[content.index as int].unwrap(),
        ) && crate::widget::same_widget(
            final(ctx).nodes.records@[content.index as int].unwrap().spec_widget(),
            Widget {
                row: 0usize,
                column: 1usize,
                ..old(ctx).nodes.records@[content.index as int].unwrap().spec_widget()
            },
        )),
        (!(old(ctx).nodes.spec_is_valid(content) && !content.spec_is_none()) ==> final(ctx).nodes.records@ == old(ctx).nodes.records@),
{
    if content.is_some() && ctx.nodes.is_valid(content) {
        ctx.set_grid_cell(content, 0, 1);
    }
}

/// The background container: the custom widget where one was given, else
/// a default border, seated in the first grid cell and grown to the
/// standard minimum box size.
#[verifier::spinoff_prover]
fn make_background(
    ctx: &mut BuildContext,
    custom: Option<Handle>,
    corner_radius: Fx,
    border_thickness: Thickness,
) -> (b: Handle)
    requires
        old(ctx).nodes.records@.len() + 1 < u32::MAX,
    ensures
        old(ctx).nodes.records@.len() <= final(ctx).nodes.records@.len() <= old(ctx).nodes.records@.len() + 1,
        final(ctx).queue == old(ctx).queue,
        final(ctx).style == old(ctx).style,
        final(ctx).root == old(ctx).root,
        final(ctx).captured == old(ctx).captured,
        forall|i: int|
            0 <= i < old(ctx).nodes.records@.len() ==> ((
            #[trigger] final(ctx).nodes.records@[i]) is Some <==> old(ctx).nodes.records@[i] is Some),
        (custom matches Option::Some(c) ==> b == c),
        forall|i: int|
            0 <= i < old(ctx).nodes.records@.len() && i != b.index && old(ctx).nodes.records@[i]
                is Some ==> node_same_shape(
                old(ctx).nodes.records@[i].unwrap(),
                (#[trigger] final(ctx).nodes.records@[i]).unwrap(),
            ) && crate::widget::same_widget_but_parent(
                old(ctx).nodes.records@[i].unwrap().spec_widget(),
                final(ctx).nodes.records@[i].unwrap().spec_widget(),
            ),
        (match custom {
            Option::Some(c) => old(ctx).nodes.spec_is_valid(c) ==> background_seated(
                *final(ctx),
                c,
            ) && node_same_shape(
                old(ctx).nodes.records@[c.index as int].unwrap(),
                final(ctx).nodes.records@[c.index as int].unwrap(),
            ) && final(ctx).nodes.records@[c.index as int].unwrap().spec_widget().visibility
                == old(ctx).nodes.records@[c.index as int].unwrap().spec_widget().visibility,
            Option::None => b.index >= old(ctx).nodes.records@.len() && background_seated(
                *final(ctx),
                b,
            ),
        }),
{
    let b = match custom {
        Option::Some(c) => c,
        Option::None => {
            BorderBuilder::new(
                WidgetBuilder::new().with_vertical_alignment(
                    VerticalAlignment::Center,
                ).with_background(
                    ctx.style.fill_or(
                        StyleKey::BrushDarkest,
                        Brush::Solid(Color { r: 20, g: 20, b: 20, a: 255 }),
                    ),
                ).with_foreground(
                    ctx.style.fill_or(
                        StyleKey::BrushLight,
                        Brush::Solid(Color { r: 200, g: 200, b: 200, a: 255 }),
                    ),
                ),
            ).with_pad_by_corner_radius(false).with_corner_radius(
                corner_radius,
            ).with_stroke_thickness(border_thickness).build(ctx)
        },
    };
    if ctx.nodes.is_valid(b) {
        ctx.set_grid_cell(b, 0, 0);
        ctx.ensure_min_size(b, Fx::from_int(16), Fx::from_int(16));
    }
    b
}

/// The background sits in the first grid cell at no less than the
/// standard minimum box size.
pub open spec fn background_seated(ui: UserInterface, b: Handle) -> bool {
    &&& ui.nodes.spec_is_valid(b)
    &&& ui.nodes.records@[b.index as int].unwrap().spec_widget().row == 0
    &&& ui.nodes.records@[b.index as int].unwrap().spec_widget().column == 0
    &&& ui.nodes.records@[b.index as int].unwrap().spec_widget().min_width.raw >= 16 * 65536
    &&& ui.nodes.records@[b.index as int].unwrap().spec_widget().min_height.raw >= 16 * 65536
}

/// Hangs the three marks, where they and the background are live, under
/// the background.
#[verifier::spinoff_prover]
fn attach_marks(
    ctx: &mut BuildContext,
    check: Handle,
    uncheck: Handle,
    undefined: Handle,
    background: Handle,
)
    ensures
        final(ctx).nodes.records@.len() == old(ctx).nodes.records@.len(),
        final(ctx).queue == old(ctx).queue,
        final(ctx).style == old(ctx).style,
        final(ctx).root == old(ctx).root,
        final(ctx).captured == old(ctx).captured,
        forall|i: int|
            0 <= i < old(ctx).nodes.records@.len() ==> ((
            #[trigger] final(ctx).nodes.records@[i]) is Some <==> old(ctx).nodes.records@[i] is Some),
        forall|i: int|
            0 <= i < old(ctx).nodes.records@.len() && i != check.index && i != uncheck.index && i
                != undefined.index && i != background.index
                ==> #[trigger] final(ctx).nodes.records@[i] == old(ctx).nodes.records@[i],
        forall|i: int|
            0 <= i < old(ctx).nodes.records@.len() && old(ctx).nodes.records@[i] is Some ==> {
                &&& node_same_shape(
                    old(ctx).nodes.records@[i].unwrap(),
                    (#[trigger] final(ctx).nodes.records@[i]).unwrap(),
                )
                &&& final(ctx).nodes.records@[i].unwrap().spec_widget().visibility == old(ctx).nodes.records@[i].unwrap().spec_widget().visibility
                &&& final(ctx).nodes.records@[i].unwrap().spec_widget().row == old(ctx).nodes.records@[i].unwrap().spec_widget().row
                &&& final(ctx).nodes.records@[i].unwrap().spec_widget().column == old(ctx).nodes.records@[i].unwrap().spec_widget().column
                &&& final(ctx).nodes.records@[i].unwrap().spec_widget().min_width == old(ctx).nodes.records@[i].unwrap().spec_widget().min_width
                &&& final(ctx).nodes.records@[i].unwrap().spec_widget().min_height == old(ctx).nodes.records@[i].unwrap().spec_widget().min_height
            },
        (old(ctx).nodes.spec_is_valid(check) && old(ctx).nodes.spec_is_valid(uncheck) && old(ctx).nodes.spec_is_valid(undefined) && old(ctx).nodes.spec_is_valid(background)
            && check.index != background.index && uncheck.index != background.index
            && undefined.index != background.index ==> final(ctx).nodes.records@[background.index as int].unwrap().spec_widget().children@ == old(ctx).nodes.records@[background.index as int].unwrap().spec_widget().children@ + seq![
            check,
            uncheck,
            undefined,
        ]),
{
    if ctx.nodes.is_valid(check) && ctx.nodes.is_valid(background) && check.index
        != background.index {
        ctx.link(check, background);
    }
    if ctx.nodes.is_valid(uncheck) && ctx.nodes.is_valid(background) && uncheck.index
        != background.index {
        ctx.link(uncheck, background);
    }
    if ctx.nodes.is_valid(undefined) && ctx.nodes.is_valid(background) && undefined.index
        != background.index {
        ctx.link(undefined, background);
    }
}


} // verus!
