//! The widget tree: check box construction, message round trips, and
//! subtree deletion.

use engine_core::algebra::Vector2;
use engine_core::check_box::{CheckBox, CheckBoxBuilder};
use engine_core::fixed::Fx;
use engine_core::style::{StyleKey, StyleValue, Thickness};
use engine_core::ui::{UiNode, UserInterface};
use engine_core::widget::{CheckBoxMessage, KeyCode, MessageDirection, MouseButton, UiMessage,
    UiMessageData, WidgetBuilder, WidgetMessage};

fn new_ui() -> UserInterface {
    UserInterface::new(Vector2::new(Fx::from_int(100), Fx::from_int(100)))
}

#[test]
fn check_box() {
    let mut ui = new_ui();

    assert_eq!(ui.poll_message(), None);

    let check_box = CheckBoxBuilder::new(WidgetBuilder::new()).build(&mut ui);

    assert_eq!(ui.poll_message(), None);

    // Check messages
    let input_message =
        CheckBoxMessage::checked(check_box, MessageDirection::ToWidget, Some(true));

    ui.send_message(input_message.clone());

    // This message that we just send.
    assert_eq!(ui.poll_message(), Some(input_message.clone()));
    // We must get response from check box.
    assert_eq!(ui.poll_message(), Some(input_message.reverse()));
}

#[test]
fn test_deletion() {
    let mut ui = new_ui();
    let before = ui.nodes.alive_count();
    let widget = CheckBoxBuilder::new(WidgetBuilder::new()).build(&mut ui);
    assert!(ui.nodes.alive_count() > before);
    ui.send_message(WidgetMessage::remove(widget, MessageDirection::ToWidget));
    while ui.poll_message().is_some() {}
    assert_eq!(ui.nodes.alive_count(), before);
}

#[test]
fn check_box_state_follows_messages() {
    let mut ui = new_ui();
    let check_box = CheckBoxBuilder::new(WidgetBuilder::new()).checked(None).build(&mut ui);
    match ui.nodes.try_borrow(check_box) {
        Some(UiNode::CheckBox(cb)) => assert_eq!(cb.checked, None),
        _ => panic!("not a check box"),
    }
    ui.send_message(CheckBoxMessage::checked(check_box, MessageDirection::ToWidget, Some(false)));
    while ui.poll_message().is_some() {}
    match ui.nodes.try_borrow(check_box) {
        Some(UiNode::CheckBox(cb)) => assert_eq!(cb.checked, Some(false)),
        _ => panic!("not a check box"),
    }
}

#[test]
fn check_box_marks_follow_state() {
    let mut ui = new_ui();
    let check_box = CheckBoxBuilder::new(WidgetBuilder::new()).checked(Some(true)).build(&mut ui);
    let (check_mark, uncheck_mark, undefined_mark) = match ui.nodes.try_borrow(check_box) {
        Some(UiNode::CheckBox(cb)) => (cb.check_mark, cb.uncheck_mark, cb.undefined_mark),
        _ => panic!("not a check box"),
    };
    let visible = |ui: &UserInterface, h| ui.nodes.try_borrow(h).unwrap().widget().visibility;
    assert!(visible(&ui, check_mark));
    assert!(!visible(&ui, uncheck_mark));
    assert!(!visible(&ui, undefined_mark));
    // Flip to unchecked through the message path; the marks swap.
    ui.send_message(CheckBoxMessage::checked(check_box, MessageDirection::ToWidget, Some(false)));
    while ui.poll_message().is_some() {}
    assert!(!visible(&ui, check_mark));
    assert!(visible(&ui, uncheck_mark));
    assert!(!visible(&ui, undefined_mark));
}

#[test]
fn space_key_toggles_and_consumes() {
    let mut ui = new_ui();
    let check_box = CheckBoxBuilder::new(WidgetBuilder::new()).build(&mut ui);
    ui.send_message(UiMessage::new(
        check_box,
        MessageDirection::ToWidget,
        UiMessageData::Widget(WidgetMessage::KeyDown(KeyCode::Space)),
    ));
    let key = ui.poll_message().unwrap();
    assert!(key.handled);
    // The queued response asks for the toggled state.
    let response = ui.poll_message().unwrap();
    assert_eq!(
        response.data,
        UiMessageData::CheckBox(CheckBoxMessage::Check(Some(true)))
    );
}

#[test]
fn style_carries_the_check_box_metrics() {
    let style = CheckBox::style();
    assert_eq!(style.entries.len(), 3);
    assert_eq!(
        style.property(StyleKey::CheckBoxCornerRadius),
        Some(StyleValue::Number(Fx::from_int(4)))
    );
    assert_eq!(
        style.property(StyleKey::CheckBoxCheckMarkSize),
        Some(StyleValue::Number(Fx::from_int(7)))
    );
    assert_eq!(
        style.property(StyleKey::CheckBoxBorderThickness),
        Some(StyleValue::Sides(Thickness::uniform(Fx::from_int(1))))
    );
    assert_eq!(style.property(StyleKey::BrushText), None);
}

#[test]
fn mouse_up_on_a_descendant_toggles_the_box() {
    let mut ui = new_ui();
    let check_box = CheckBoxBuilder::new(WidgetBuilder::new()).build(&mut ui);
    // The default check mark is a descendant of the box; releasing the
    // left button over it toggles the state just like over the box.
    let mark = match ui.nodes.try_borrow(check_box) {
        Some(UiNode::CheckBox(cb)) => cb.check_mark,
        _ => panic!("not a check box"),
    };
    ui.send_message(UiMessage::new(
        mark,
        MessageDirection::ToWidget,
        UiMessageData::Widget(WidgetMessage::MouseUp {
            button: MouseButton::Left,
            pos: Vector2::new(Fx::from_int(1), Fx::from_int(1)),
        }),
    ));
    while ui.poll_message().is_some() {}
    match ui.nodes.try_borrow(check_box) {
        Some(UiNode::CheckBox(cb)) => assert_eq!(cb.checked, Some(true)),
        _ => panic!("not a check box"),
    }
}

#[test]
fn removal_frees_the_whole_subtree_and_nothing_else() {
    let mut ui = new_ui();
    let keeper = CheckBoxBuilder::new(WidgetBuilder::new()).build(&mut ui);
    let mid = ui.nodes.alive_count();
    let doomed = CheckBoxBuilder::new(WidgetBuilder::new()).build(&mut ui);
    ui.send_message(WidgetMessage::remove(doomed, MessageDirection::ToWidget));
    while ui.poll_message().is_some() {}
    assert_eq!(ui.nodes.alive_count(), mid);
    assert!(ui.nodes.is_valid(keeper));
    assert!(!ui.nodes.is_valid(doomed));
}
