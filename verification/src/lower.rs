//! The lowered component: what an earlier phase of the compiler hands to the
//! generator.

use vstd::prelude::*;

verus! {

/// The native class behind an item: its name and the name of its vtable.
#[derive(Debug)]
pub struct NativeItemType {
    pub class_name: String,
    pub vtable: String,
}

/// An item of a component: its native type, and the name and the initial
/// value of each property that is set, in the order they are to be assigned.
#[derive(Debug)]
pub struct LoweredItem {
    pub native_type: NativeItemType,
    pub init_properties: Vec<(String, String)>,
}

/// A component: its identifier and its root item.
#[derive(Debug)]
pub struct LoweredComponent {
    pub id: String,
    pub root_item: LoweredItem,
}

/// What a native item type holds, as text.
#[verifier::ext_equal]
pub struct NativeItemTypeView {
    pub class_name: Seq<char>,
    pub vtable: Seq<char>,
}

/// What an item holds: its native type, and its properties as pairs of a
/// name and a value.
#[verifier::ext_equal]
pub struct LoweredItemView {
    pub native_type: NativeItemTypeView,
    pub init_properties: Seq<(Seq<char>, Seq<char>)>,
}

/// What a component holds: its identifier as text and the view of its root
/// item.
#[verifier::ext_equal]
pub struct LoweredComponentView {
    pub id: Seq<char>,
    pub root_item: LoweredItemView,
}

/// The views of `properties`, in the same order: the name, then the value.
pub open spec fn property_views(properties: Seq<(String, String)>) -> Seq<(Seq<char>, Seq<char>)> {
    Seq::new(properties.len(), |i: int| (properties[i].0@, properties[i].1@))
}

impl View for NativeItemType {
    type V = NativeItemTypeView;

    open spec fn view(&self) -> NativeItemTypeView {
        NativeItemTypeView { class_name: self.class_name@, vtable: self.vtable@ }
    }
}

impl View for LoweredItem {
    type V = LoweredItemView;

    open spec fn view(&self) -> LoweredItemView {
        LoweredItemView {
            native_type: self.native_type@,
            init_properties: property_views(self.init_properties@),
        }
    }
}

impl View for LoweredComponent {
    type V = LoweredComponentView;

    open spec fn view(&self) -> LoweredComponentView {
        LoweredComponentView { id: self.id@, root_item: self.root_item@ }
    }
}

} // verus!
