//! The raw wire shape of a creation event: a tagged wrapper naming the event
//! class and carrying the nested target instance, itself a tagged bag of
//! named, typed property values. This is what the instrumentation layer
//! delivers before any validation; decoding it is `crate::decode`'s job.

use vstd::prelude::*;

verus! {

/// One typed property value as the instrumentation layer reports it.
#[derive(Debug, Clone, PartialEq)]
pub enum RawValue {
    /// The property exists but holds no value.
    Null,
    /// An unsigned integer value.
    Unsigned(u64),
    /// A signed integer value.
    Signed(i64),
    /// A text value.
    Text(String),
    /// A boolean value.
    Boolean(bool),
}

/// The mathematical value of a `RawValue`.
pub enum RawValueView {
    Null,
    Unsigned(u64),
    Signed(i64),
    Text(Seq<char>),
    Boolean(bool),
}

impl View for RawValue {
    type V = RawValueView;

    open spec fn view(&self) -> RawValueView {
        match self {
            RawValue::Null => RawValueView::Null,
            RawValue::Unsigned(v) => RawValueView::Unsigned(*v),
            RawValue::Signed(v) => RawValueView::Signed(*v),
            RawValue::Text(s) => RawValueView::Text(s@),
            RawValue::Boolean(b) => RawValueView::Boolean(*b),
        }
    }
}

/// One named property of a raw instance.
#[derive(Debug, Clone, PartialEq)]
pub struct RawProperty {
    /// The property's name in the instrumentation layer's schema.
    pub name: String,
    /// The property's value.
    pub value: RawValue,
}

/// The mathematical value of a `RawProperty`.
pub struct RawPropertyView {
    pub name: Seq<char>,
    pub value: RawValueView,
}

impl View for RawProperty {
    type V = RawPropertyView;

    open spec fn view(&self) -> RawPropertyView {
        RawPropertyView { name: self.name@, value: self.value@ }
    }
}

/// A tagged instance: the class it claims to belong to, and its properties
/// in the order the instrumentation layer reported them.
#[derive(Debug, Clone, PartialEq)]
pub struct RawInstance {
    /// The class tag, such as the process class.
    pub class_name: String,
    /// The named property values.
    pub properties: Vec<RawProperty>,
}

/// The mathematical value of a `RawInstance`.
pub struct RawInstanceView {
    pub class_name: Seq<char>,
    pub properties: Seq<RawPropertyView>,
}

/// The views of a sequence of properties, in order.
pub open spec fn property_views(props: Seq<RawProperty>) -> Seq<RawPropertyView> {
    props.map_values(|p: RawProperty| p@)
}

impl View for RawInstance {
    type V = RawInstanceView;

    open spec fn view(&self) -> RawInstanceView {
        RawInstanceView { class_name: self.class_name@, properties: property_views(self.properties@) }
    }
}

/// A raw creation-event payload: the event-class tag and, when the payload is
/// well formed, the nested instance the event is about.
#[derive(Debug, Clone, PartialEq)]
pub struct RawEvent {
    /// The event-class tag, such as the instance-creation event class.
    pub class_name: String,
    /// The nested instance the event wraps, when the payload carries one.
    pub target_instance: Option<RawInstance>,
}

/// The mathematical value of a `RawEvent`.
pub struct RawEventView {
    pub class_name: Seq<char>,
    pub target_instance: Option<RawInstanceView>,
}

impl View for RawEvent {
    type V = RawEventView;

    open spec fn view(&self) -> RawEventView {
        RawEventView {
            class_name: self.class_name@,
            target_instance: match self.target_instance {
                Some(inst) => Some(inst@),
                None => None,
            },
        }
    }
}

} // verus!
