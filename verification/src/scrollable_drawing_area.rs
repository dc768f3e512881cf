use vstd::prelude::*;

verus! {

/// The properties of a drawing area that scrolls: `A` is the type of its
/// adjustments.
#[derive(Debug, Clone, Copy, PartialEq, Eq, Structural)]
pub enum ScrollProperty {
    HAdjustment,
    HScrollPolicy,
    VAdjustment,
    VScrollPolicy,
}

/// The property with the given id (ids start at 1, in the order above).
pub open spec fn property_of_id_spec(id: u32) -> Option<ScrollProperty> {
    if id == 1 {
        Some(ScrollProperty::HAdjustment)
    } else if id == 2 {
        Some(ScrollProperty::HScrollPolicy)
    } else if id == 3 {
        Some(ScrollProperty::VAdjustment)
    } else if id == 4 {
        Some(ScrollProperty::VScrollPolicy)
    } else {
        None
    }
}

/// The property with the given id.
pub fn property_of_id(id: u32) -> (p: Option<ScrollProperty>)
    ensures
        p == property_of_id_spec(id),
{
    if id == 1 {
        Some(ScrollProperty::HAdjustment)
    } else if id == 2 {
        Some(ScrollProperty::HScrollPolicy)
    } else if id == 3 {
        Some(ScrollProperty::VAdjustment)
    } else if id == 4 {
        Some(ScrollProperty::VScrollPolicy)
    } else {
        None
    }
}

/// A value given to, or read from, a property.
#[derive(Debug)]
pub enum PropertyValue<A> {
    Adjustment(A),
    Policy(i32),
}

/// The property values that a scrollable drawing area holds.
#[derive(Debug)]
pub struct ScrollableDrawingAreaPriv<A> {
    pub hadjustment: A,
    pub hscroll_policy: i32,
    pub vadjustment: A,
    pub vscroll_policy: i32,
}

impl<A> ScrollableDrawingAreaPriv<A> {
    /// A drawing area with the given adjustments and the default scroll
    /// policies (0).
    pub fn new(hadjustment: A, vadjustment: A) -> (p: ScrollableDrawingAreaPriv<A>)
        ensures
            p.hadjustment == hadjustment,
            p.vadjustment == vadjustment,
            p.hscroll_policy == 0,
            p.vscroll_policy == 0,
    {
        ScrollableDrawingAreaPriv { hadjustment, hscroll_policy: 0, vadjustment, vscroll_policy: 0 }
    }

    /// The state after setting property `id` to `value`: an unknown id, or a
    /// value of the wrong kind for the property, changes nothing.
    pub open spec fn after_set(self, id: u32, value: PropertyValue<A>) -> ScrollableDrawingAreaPriv<A> {
        match (property_of_id_spec(id), value) {
            (Some(ScrollProperty::HAdjustment), PropertyValue::Adjustment(a)) => ScrollableDrawingAreaPriv {
                hadjustment: a,
                ..self
            },
            (Some(ScrollProperty::HScrollPolicy), PropertyValue::Policy(p)) => ScrollableDrawingAreaPriv {
                hscroll_policy: p,
                ..self
            },
            (Some(ScrollProperty::VAdjustment), PropertyValue::Adjustment(a)) => ScrollableDrawingAreaPriv {
                vadjustment: a,
                ..self
            },
            (Some(ScrollProperty::VScrollPolicy), PropertyValue::Policy(p)) => ScrollableDrawingAreaPriv {
                vscroll_policy: p,
                ..self
            },
            _ => self,
        }
    }

    /// The value of property `id`; `None` for an unknown id.
    pub open spec fn value_of(self, id: u32) -> Option<PropertyValue<A>> {
        match property_of_id_spec(id) {
            Some(ScrollProperty::HAdjustment) => Some(PropertyValue::Adjustment(self.hadjustment)),
            Some(ScrollProperty::HScrollPolicy) => Some(PropertyValue::Policy(self.hscroll_policy)),
            Some(ScrollProperty::VAdjustment) => Some(PropertyValue::Adjustment(self.vadjustment)),
            Some(ScrollProperty::VScrollPolicy) => Some(PropertyValue::Policy(self.vscroll_policy)),
            None => None,
        }
    }

    /// Sets property `id` to `value`.
    pub fn set_property_impl(&mut self, id: u32, value: PropertyValue<A>)
        ensures
            *final(self) == old(self).after_set(id, value),
    {
        match (property_of_id(id), value) {
            (Some(ScrollProperty::HAdjustment), PropertyValue::Adjustment(a)) => {
                self.hadjustment = a;
            },
            (Some(ScrollProperty::HScrollPolicy), PropertyValue::Policy(p)) => {
                self.hscroll_policy = p;
            },
            (Some(ScrollProperty::VAdjustment), PropertyValue::Adjustment(a)) => {
                self.vadjustment = a;
            },
            (Some(ScrollProperty::VScrollPolicy), PropertyValue::Policy(p)) => {
                self.vscroll_policy = p;
            },
            _ => {},
        }
    }

    /// The value of property `id`.
    pub fn get_property_impl(&self, id: u32) -> (r: Option<PropertyValue<&A>>)
        ensures
            match (r, self.value_of(id)) {
                (None, None) => true,
                (Some(PropertyValue::Adjustment(a)), Some(PropertyValue::Adjustment(b))) => *a == b,
                (Some(PropertyValue::Policy(p)), Some(PropertyValue::Policy(q))) => p == q,
                _ => false,
            },
    {
        match property_of_id(id) {
            Some(ScrollProperty::HAdjustment) => Some(PropertyValue::Adjustment(&self.hadjustment)),
            Some(ScrollProperty::HScrollPolicy) => Some(PropertyValue::Policy(self.hscroll_policy)),
            Some(ScrollProperty::VAdjustment) => Some(PropertyValue::Adjustment(&self.vadjustment)),
            Some(ScrollProperty::VScrollPolicy) => Some(PropertyValue::Policy(self.vscroll_policy)),
            None => None,
        }
    }

    /// The default handler of the `size_allocate` class method.
    pub fn size_allocate_impl(&self, i: u32, j: u32) -> (r: u32)
        requires
            1 + i + j <= u32::MAX,
        ensures
            r == 1 + i + j,
    {
        1 + i + j
    }
}

/// A property reads back the value it was set to, and setting one property
/// leaves the others as they were.
pub proof fn lemma_property_read_after_write<A>(
    p: ScrollableDrawingAreaPriv<A>,
    id: u32,
    value: PropertyValue<A>,
    other: u32,
)
    requires
        property_of_id_spec(id) matches Some(q) && (match (q, value) {
            (ScrollProperty::HAdjustment, PropertyValue::Adjustment(_)) => true,
            (ScrollProperty::VAdjustment, PropertyValue::Adjustment(_)) => true,
            (ScrollProperty::HScrollPolicy, PropertyValue::Policy(_)) => true,
            (ScrollProperty::VScrollPolicy, PropertyValue::Policy(_)) => true,
            _ => false,
        }),
        other != id,
    ensures
        p.after_set(id, value).value_of(id) == Some(value),
        p.after_set(id, value).value_of(other) == p.value_of(other),
{
}

} // verus!
