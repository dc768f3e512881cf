use gxi::scrollable_drawing_area::{
    property_of_id, PropertyValue, ScrollProperty, ScrollableDrawingAreaPriv,
};

#[test]
fn property_ids() {
    assert_eq!(property_of_id(1), Some(ScrollProperty::HAdjustment));
    assert_eq!(property_of_id(2), Some(ScrollProperty::HScrollPolicy));
    assert_eq!(property_of_id(3), Some(ScrollProperty::VAdjustment));
    assert_eq!(property_of_id(4), Some(ScrollProperty::VScrollPolicy));
    assert_eq!(property_of_id(0), None);
    assert_eq!(property_of_id(5), None);
}

#[test]
fn properties_read_back() {
    let mut p = ScrollableDrawingAreaPriv::new("h0", "v0");
    assert!(matches!(p.get_property_impl(2), Some(PropertyValue::Policy(0))));
    p.set_property_impl(1, PropertyValue::Adjustment("h1"));
    p.set_property_impl(4, PropertyValue::Policy(1));
    assert!(matches!(p.get_property_impl(1), Some(PropertyValue::Adjustment(&"h1"))));
    assert!(matches!(p.get_property_impl(3), Some(PropertyValue::Adjustment(&"v0"))));
    assert!(matches!(p.get_property_impl(4), Some(PropertyValue::Policy(1))));
    assert!(p.get_property_impl(9).is_none());
}

#[test]
fn wrong_kind_or_id_changes_nothing() {
    let mut p = ScrollableDrawingAreaPriv::new("h0", "v0");
    p.set_property_impl(1, PropertyValue::Policy(3));
    p.set_property_impl(2, PropertyValue::Adjustment("x"));
    p.set_property_impl(7, PropertyValue::Policy(3));
    assert_eq!(p.hadjustment, "h0");
    assert_eq!(p.hscroll_policy, 0);
    assert_eq!(p.vscroll_policy, 0);
}

#[test]
fn size_allocate_default() {
    let p = ScrollableDrawingAreaPriv::new(0u8, 0u8);
    assert_eq!(p.size_allocate_impl(2, 3), 6);
    assert_eq!(p.size_allocate_impl(0, 0), 1);
}
