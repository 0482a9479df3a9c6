use sokoban_editor::reflect::{convert_to_index, convert_to_locked, ReflectKind, ReflectTypeData, WidgetValue};

#[test]
fn locked_axes_flags_in_list_order() {
    let flags = [1u8, 2, 4, 7, 8, 16, 32, 56];
    for (i, bits) in flags.iter().enumerate() {
        assert_eq!(convert_to_locked(i as u8), *bits);
        assert_eq!(convert_to_index(*bits), i as u8);
    }
}

#[test]
fn locked_axes_widget_round_trip() {
    let reflect = ReflectTypeData { kind: ReflectKind::LockedAxes };
    let mut data = vec![7u8];
    let shown = reflect.widget_value(&data);
    assert_eq!(shown, WidgetValue::ListIndex(3));
    reflect.display_imgui(&mut data, shown);
    assert_eq!(data, vec![7u8]);
    reflect.display_imgui(&mut data, WidgetValue::ListIndex(7));
    assert_eq!(data, vec![56u8]);
    reflect.display_imgui(&mut data, WidgetValue::ListIndex(256));
    assert_eq!(data, vec![1u8]);
}

#[test]
fn visibility_widget() {
    let reflect = ReflectTypeData { kind: ReflectKind::ViewVisibility };
    let mut data = vec![1u8, 9];
    assert_eq!(reflect.widget_value(&data), WidgetValue::Checkbox(true));
    reflect.display_imgui(&mut data, WidgetValue::Checkbox(false));
    assert_eq!(data, vec![0u8, 9]);
    assert_eq!(reflect.widget_value(&data), WidgetValue::Checkbox(false));
}

#[test]
fn transforms_keep_their_bytes() {
    let reflect = ReflectTypeData { kind: ReflectKind::Transform };
    let mut data = vec![1u8, 2, 3];
    assert_eq!(reflect.widget_value(&data), WidgetValue::Bytes);
    reflect.display_imgui(&mut data, WidgetValue::Bytes);
    reflect.display_imgui(&mut data, WidgetValue::ListIndex(2));
    assert_eq!(data, vec![1u8, 2, 3]);
}
