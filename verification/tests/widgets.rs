use plugin_host::theme_kind::{ThemeKindButton, ThemeKindContainer, ThemeKindRow};
use plugin_host::widget::{
    find_text_property, BuiltInWidgetEvent, BuiltInWidgetWrapper, NativeUiPropertyValue, WidgetKind,
};

fn link(id: u32, href: &str) -> BuiltInWidgetWrapper {
    let properties = vec![("href".to_string(), NativeUiPropertyValue::String(href.to_string()))];
    BuiltInWidgetWrapper::widget(id, "placeholdername:link", properties)
}

#[test]
fn every_built_in_type_makes_its_widget() {
    let cases = [
        ("placeholdername:textcontent", WidgetKind::TextContent),
        ("placeholdername:tag", WidgetKind::Tag),
        ("placeholdername:metadata_item", WidgetKind::MetadataItem),
        ("placeholdername:separator", WidgetKind::Separator),
        ("placeholdername:metadata", WidgetKind::Metadata),
        ("placeholdername:image", WidgetKind::Image),
        ("placeholdername:h1", WidgetKind::H1),
        ("placeholdername:h2", WidgetKind::H2),
        ("placeholdername:h3", WidgetKind::H3),
        ("placeholdername:h4", WidgetKind::H4),
        ("placeholdername:h5", WidgetKind::H5),
        ("placeholdername:h6", WidgetKind::H6),
        ("placeholdername:horizontal_break", WidgetKind::HorizontalBreak),
        ("placeholdername:code_block", WidgetKind::CodeBlock),
        ("placeholdername:code", WidgetKind::Code),
        ("placeholdername:content", WidgetKind::Content),
        ("placeholdername:detail", WidgetKind::Detail),
    ];
    for (at, (widget_type, kind)) in cases.into_iter().enumerate() {
        assert_eq!(WidgetKind::from_type(widget_type), Some(kind));
        let made = BuiltInWidgetWrapper::widget(at as u32, widget_type, vec![]);
        assert_eq!(made.id(), at as u32);
        assert_eq!(made.widget_kind(), kind);
        assert_eq!(made.child_count(), 0);
        assert_eq!(made.label_text(), "");
    }
}

#[test]
fn unknown_type_names_no_widget() {
    for widget_type in ["", "link", "placeholdername:text", "placeholdername:container", "placeholdername:H1"] {
        assert_eq!(WidgetKind::from_type(widget_type), None);
    }
}

#[test]
fn link_takes_its_target_from_href() {
    let made = link(7, "https://example.com");
    assert_eq!(made.widget_kind(), WidgetKind::Link);
    assert_eq!(made.label_text(), "https://example.com");
    assert_eq!(made.child_count(), 0);
}

#[test]
fn text_property_is_the_first_of_its_name() {
    let properties = vec![
        ("title".to_string(), NativeUiPropertyValue::String("t".to_string())),
        ("href".to_string(), NativeUiPropertyValue::String("first".to_string())),
        ("href".to_string(), NativeUiPropertyValue::String("second".to_string())),
        ("size".to_string(), NativeUiPropertyValue::Number(4617315517961601024)),
        ("on".to_string(), NativeUiPropertyValue::Bool(true)),
        ("off".to_string(), NativeUiPropertyValue::Undefined),
    ];
    assert_eq!(find_text_property(&properties, "href"), Some("first"));
    assert_eq!(find_text_property(&properties, "title"), Some("t"));
    assert_eq!(find_text_property(&properties, "size"), None);
    assert_eq!(find_text_property(&properties, "on"), None);
    assert_eq!(find_text_property(&properties, "off"), None);
    assert_eq!(find_text_property(&properties, "missing"), None);
}

#[test]
fn container_and_text_are_made_empty() {
    let container = BuiltInWidgetWrapper::container(1);
    assert_eq!(container.id(), 1);
    assert_eq!(container.widget_kind(), WidgetKind::Container);
    assert_eq!(container.child_count(), 0);
    let text = BuiltInWidgetWrapper::text(2, "hello");
    assert_eq!(text.id(), 2);
    assert_eq!(text.widget_kind(), WidgetKind::Text);
    assert_eq!(text.label_text(), "hello");
    assert_eq!(text.child_count(), 0);
}

#[test]
fn append_child_adds_at_the_end() {
    let mut parent = BuiltInWidgetWrapper::container(1);
    parent.append_child(BuiltInWidgetWrapper::text(2, "a"));
    parent.append_child(link(3, "target"));
    parent.append_child(BuiltInWidgetWrapper::text(4, "b"));
    assert_eq!(parent.child_count(), 3);
    assert_eq!(parent.child(0).unwrap().id(), 2);
    assert_eq!(parent.child(1).unwrap().id(), 3);
    assert_eq!(parent.child(1).unwrap().label_text(), "target");
    assert_eq!(parent.child(2).unwrap().label_text(), "b");
    assert!(parent.child(3).is_none());
    assert_eq!(parent.id(), 1);
    assert_eq!(parent.widget_kind(), WidgetKind::Container);
}

#[test]
fn append_child_keeps_the_target_of_a_link() {
    let mut parent = link(1, "target");
    parent.append_child(BuiltInWidgetWrapper::text(2, "shown"));
    assert_eq!(parent.label_text(), "target");
    assert_eq!(parent.child_count(), 1);
}

#[test]
fn set_children_replaces_what_was_inside() {
    let mut parent = BuiltInWidgetWrapper::widget(1, "placeholdername:h1", vec![]);
    parent.append_child(BuiltInWidgetWrapper::text(2, "old"));
    parent.set_children(vec![BuiltInWidgetWrapper::text(3, "x"), BuiltInWidgetWrapper::text(4, "y")]);
    assert_eq!(parent.child_count(), 2);
    assert_eq!(parent.child(0).unwrap().id(), 3);
    assert_eq!(parent.child(1).unwrap().id(), 4);
    parent.set_children(vec![]);
    assert_eq!(parent.child_count(), 0);
    assert_eq!(parent.widget_kind(), WidgetKind::H1);
}

#[test]
fn widgets_nest() {
    let mut inner = BuiltInWidgetWrapper::widget(2, "placeholdername:tag", vec![]);
    inner.append_child(BuiltInWidgetWrapper::text(3, "label"));
    let mut outer = BuiltInWidgetWrapper::widget(1, "placeholdername:metadata_item", vec![]);
    outer.append_child(inner);
    let tag = outer.child(0).unwrap();
    assert_eq!(tag.widget_kind(), WidgetKind::Tag);
    assert_eq!(tag.child(0).unwrap().label_text(), "label");
}

#[test]
fn four_kinds_cannot_be_parents() {
    let leaves = [WidgetKind::Text, WidgetKind::Separator, WidgetKind::Image, WidgetKind::HorizontalBreak];
    let all = [
        WidgetKind::Text, WidgetKind::TextContent, WidgetKind::Link, WidgetKind::Tag, WidgetKind::MetadataItem,
        WidgetKind::Separator, WidgetKind::Metadata, WidgetKind::Image, WidgetKind::H1, WidgetKind::H2,
        WidgetKind::H3, WidgetKind::H4, WidgetKind::H5, WidgetKind::H6, WidgetKind::HorizontalBreak,
        WidgetKind::CodeBlock, WidgetKind::Code, WidgetKind::Content, WidgetKind::Detail, WidgetKind::Container,
    ];
    for kind in all {
        assert_eq!(kind.is_parent(), !leaves.contains(&kind));
    }
}

#[test]
fn press_on_a_link_or_a_tag_is_an_event() {
    match link(5, "https://example.com").press_event() {
        Some(BuiltInWidgetEvent::LinkClick { href }) => assert_eq!(href, "https://example.com"),
        other => panic!("expected a link click, got {:?}", other),
    }
    match BuiltInWidgetWrapper::widget(6, "placeholdername:tag", vec![]).press_event() {
        Some(BuiltInWidgetEvent::TagClick { widget_id }) => assert_eq!(widget_id, 6),
        other => panic!("expected a tag click, got {:?}", other),
    }
    assert!(BuiltInWidgetWrapper::container(7).press_event().is_none());
    assert!(BuiltInWidgetWrapper::text(8, "t").press_event().is_none());
}

#[test]
fn tag_click_tells_the_plugin_on_click() {
    let signal = BuiltInWidgetEvent::TagClick { widget_id: 9 }.handle();
    assert_eq!(signal.event_name, "onClick");
    assert_eq!(signal.widget_id, 9);
}

#[test]
fn theme_kinds_compare_by_variant() {
    assert_eq!(ThemeKindRow::FormInput, ThemeKindRow::FormInput);
    assert_ne!(ThemeKindButton::Action, ThemeKindButton::ListItem);
    assert_ne!(ThemeKindContainer::Root, ThemeKindContainer::RootContent);
}
