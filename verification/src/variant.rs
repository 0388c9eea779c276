//! A self-describing value, in the shapes that styles are stored and
//! exchanged in: bytes, unsigned 32-bit integers, and tuples of such values.

use vstd::prelude::*;

verus! {

/// A self-describing value.
#[derive(Debug)]
pub enum Variant {
    Byte(u8),
    UInt32(u32),
    Tuple(Vec<Variant>),
}

/// The class of a value's type. `Tuple` stands for tuples of every length and
/// content.
#[derive(Clone, Copy, Debug, PartialEq, Eq, Structural)]
pub enum VariantTy {
    Byte,
    UInt32,
    Tuple,
}

/// What a `Variant` holds, as a mathematical value.
pub enum VariantView {
    Byte(u8),
    UInt32(u32),
    Tuple(Seq<VariantView>),
}

impl VariantView {
    /// The class of the value's type.
    pub open spec fn ty(self) -> VariantTy {
        match self {
            VariantView::Byte(_) => VariantTy::Byte,
            VariantView::UInt32(_) => VariantTy::UInt32,
            VariantView::Tuple(_) => VariantTy::Tuple,
        }
    }
}

impl View for Variant {
    type V = VariantView;

    open spec fn view(&self) -> VariantView
        decreases self,
    {
        match self {
            Variant::Byte(byte) => VariantView::Byte(*byte),
            Variant::UInt32(number) => VariantView::UInt32(*number),
            Variant::Tuple(items) => VariantView::Tuple(views(items@)),
        }
    }
}

/// The views of the given values, in their order.
pub open spec fn views(items: Seq<Variant>) -> Seq<VariantView>
    decreases items,
{
    if items.len() == 0 {
        Seq::empty()
    } else {
        views(items.drop_last()).push(items.last()@)
    }
}

/// `views` keeps the length and takes the view of each item in its place.
pub proof fn lemma_views(items: Seq<Variant>)
    ensures
        views(items).len() == items.len(),
        forall|i: int| 0 <= i < items.len() ==> (#[trigger] views(items)[i]) == items[i]@,
    decreases items.len(),
{
    if items.len() > 0 {
        lemma_views(items.drop_last());
        assert(views(items) == views(items.drop_last()).push(items.last()@));
    } else {
        assert(views(items) == Seq::<VariantView>::empty());
    }
}

impl Variant {
    /// The class of the value's type.
    pub fn type_(&self) -> (ty: VariantTy)
        ensures
            ty == self@.ty(),
    {
        match self {
            Variant::Byte(_) => VariantTy::Byte,
            Variant::UInt32(_) => VariantTy::UInt32,
            Variant::Tuple(_) => VariantTy::Tuple,
        }
    }
}

} // verus!
