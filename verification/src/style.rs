//! Colours, sizes and the style that combines them, with the portable
//! encoding of each.

use core::cmp::Ordering;
use hex_color::HexColor;
use vstd::prelude::*;
use vstd::std_specs::cmp::PartialOrdSpec;
use vstd::std_specs::convert::FromSpecImpl;

use crate::variant::lemma_views;
use crate::variant::Variant;
use crate::variant::VariantTy;
use crate::variant::VariantView;

verus! {

/// `hex_color::HexColor`, taken as the crate defines it: a struct of the four
/// public byte fields `r`, `g`, `b` and `a`. Nothing more is assumed of it.
#[verifier::external_type_specification]
pub struct ExHexColor(HexColor);

/// A colour of four byte channels: red, green, blue and alpha.
#[derive(Clone, Copy, Debug, PartialEq, Eq, Structural, PartialOrd, Ord)]
pub struct Color {
    pub r: u8,
    pub g: u8,
    pub b: u8,
    pub a: u8,
}

/// The three sizes of an annotation, from the smallest to the largest.
#[derive(Clone, Copy, Debug, PartialEq, Eq, Structural, Ord)]
pub enum Size {
    Small,
    Medium,
    Large,
}

/// How an annotation is drawn.
#[derive(Clone, Copy, Debug, PartialEq, Eq, Structural)]
pub struct Style {
    pub color: Color,
    pub size: Size,
}

impl Color {
    /// The packed form of the colour: red in the highest byte, then green,
    /// blue, and alpha in the lowest.
    pub open spec fn packed(self) -> int {
        self.r * 0x100_0000 + self.g * 0x1_0000 + self.b * 0x100 + self.a
    }

    /// The encoded form of the colour: the tuple of its four channels as
    /// bytes, in the order red, green, blue, alpha.
    pub open spec fn encoding(self) -> VariantView {
        VariantView::Tuple(
            seq![
                VariantView::Byte(self.r),
                VariantView::Byte(self.g),
                VariantView::Byte(self.b),
                VariantView::Byte(self.a),
            ],
        )
    }

    /// The colour that a value encodes, if it is a tuple of exactly four
    /// bytes.
    pub open spec fn decode(v: VariantView) -> Option<Color> {
        match v {
            VariantView::Tuple(items) => {
                if items.len() == 4 && items[0] is Byte && items[1] is Byte && items[2] is Byte
                    && items[3] is Byte {
                    Some(
                        Color {
                            r: items[0]->Byte_0,
                            g: items[1]->Byte_0,
                            b: items[2]->Byte_0,
                            a: items[3]->Byte_0,
                        },
                    )
                } else {
                    None
                }
            },
            _ => None,
        }
    }

    /// The colour with the given channels.
    pub fn new(r: u8, g: u8, b: u8, a: u8) -> (c: Self)
        ensures
            c == (Color { r, g, b, a }),
    {
        Self { r, g, b, a }
    }

    /// Opaque orange, the default colour.
    pub fn orange() -> (c: Self)
        ensures
            c == (Color { r: 240, g: 147, b: 43, a: 255 }),
    {
        Self::new(240, 147, 43, 255)
    }

    /// Opaque red.
    pub fn red() -> (c: Self)
        ensures
            c == (Color { r: 235, g: 77, b: 75, a: 255 }),
    {
        Self::new(235, 77, 75, 255)
    }

    /// Opaque green.
    pub fn green() -> (c: Self)
        ensures
            c == (Color { r: 106, g: 176, b: 76, a: 255 }),
    {
        Self::new(106, 176, 76, 255)
    }

    /// Opaque blue.
    pub fn blue() -> (c: Self)
        ensures
            c == (Color { r: 34, g: 166, b: 179, a: 255 }),
    {
        Self::new(34, 166, 179, 255)
    }

    /// Opaque cove, a dark blue.
    pub fn cove() -> (c: Self)
        ensures
            c == (Color { r: 19, g: 15, b: 64, a: 255 }),
    {
        Self::new(19, 15, 64, 255)
    }

    /// Opaque pink.
    pub fn pink() -> (c: Self)
        ensures
            c == (Color { r: 200, g: 37, b: 184, a: 255 }),
    {
        Self::new(200, 37, 184, 255)
    }

    /// Packs the four channels into one integer.
    pub fn to_rgba_u32(self) -> (packed: u32)
        ensures
            packed == self.packed(),
    {
        let r: u8 = self.r;
        let g: u8 = self.g;
        let b: u8 = self.b;
        let a: u8 = self.a;
        assert(((r as u32) << 24) | ((g as u32) << 16) | ((b as u32) << 8) | (a as u32) == r
            * 0x100_0000 + g * 0x1_0000 + b * 0x100 + a) by (bit_vector);
        ((r as u32) << 24) | ((g as u32) << 16) | ((b as u32) << 8) | (a as u32)
    }

    /// The class of type that colours are encoded in.
    pub fn static_variant_type() -> (ty: VariantTy)
        ensures
            ty == VariantTy::Tuple,
    {
        VariantTy::Tuple
    }

    /// Encodes the colour.
    pub fn to_variant(&self) -> (v: Variant)
        ensures
            v@ == self.encoding(),
    {
        let mut items: Vec<Variant> = Vec::new();
        items.push(Variant::Byte(self.r));
        items.push(Variant::Byte(self.g));
        items.push(Variant::Byte(self.b));
        items.push(Variant::Byte(self.a));
        let v = Variant::Tuple(items);
        proof {
            lemma_views(items@);
            assert(v@->Tuple_0 =~= self.encoding()->Tuple_0);
        }
        v
    }

    /// Decodes a colour. The result is `None` for every value but a tuple of
    /// exactly four bytes.
    pub fn from_variant(variant: &Variant) -> (color: Option<Self>)
        ensures
            color == Self::decode(variant@),
    {
        match variant {
            Variant::Tuple(items) => {
                proof {
                    lemma_views(items@);
                }
                if items.len() != 4 {
                    return None;
                }
                match (&items[0], &items[1], &items[2], &items[3]) {
                    (Variant::Byte(r), Variant::Byte(g), Variant::Byte(b), Variant::Byte(a)) => {
                        Some(Self::new(*r, *g, *b, *a))
                    },
                    _ => None,
                }
            },
            _ => None,
        }
    }
}

impl Default for Color {
    /// The default colour is orange.
    fn default() -> (c: Self)
        ensures
            c == (Color { r: 240, g: 147, b: 43, a: 255 }),
    {
        Self::orange()
    }
}

impl From<HexColor> for Color {
    /// Takes over the four channels of a hexadecimal colour.
    fn from(value: HexColor) -> (c: Self) {
        Self::new(value.r, value.g, value.b, value.a)
    }
}

impl FromSpecImpl<HexColor> for Color {
    open spec fn obeys_from_spec() -> bool {
        true
    }

    open spec fn from_spec(value: HexColor) -> Self {
        Color { r: value.r, g: value.g, b: value.b, a: value.a }
    }
}

impl Size {
    /// The place of the size in the order of sizes, counted from zero.
    pub open spec fn spec_ordinal(self) -> u32 {
        match self {
            Size::Small => 0,
            Size::Medium => 1,
            Size::Large => 2,
        }
    }

    /// The size at the given place, if there is one.
    pub open spec fn spec_from_ordinal(ordinal: u32) -> Option<Size> {
        if ordinal == 0 {
            Some(Size::Small)
        } else if ordinal == 1 {
            Some(Size::Medium)
        } else if ordinal == 2 {
            Some(Size::Large)
        } else {
            None
        }
    }

    /// The encoded form of the size: its ordinal as an unsigned 32-bit
    /// integer.
    pub open spec fn encoding(self) -> VariantView {
        VariantView::UInt32(self.spec_ordinal())
    }

    /// The size that a value encodes, if it is an unsigned 32-bit integer
    /// that is the ordinal of a size.
    pub open spec fn decode(v: VariantView) -> Option<Size> {
        match v {
            VariantView::UInt32(ordinal) => Self::spec_from_ordinal(ordinal),
            _ => None,
        }
    }

    /// The font size of text at scale 1, in points.
    pub open spec fn spec_text_size_base(self) -> u32 {
        match self {
            Size::Small => 12,
            Size::Medium => 18,
            Size::Large => 32,
        }
    }

    /// The width of a stroked line at scale 1.
    pub open spec fn spec_line_width_base(self) -> u32 {
        match self {
            Size::Small => 2,
            Size::Medium => 3,
            Size::Large => 5,
        }
    }

    /// The radius of a blur at scale 1.
    pub open spec fn spec_blur_factor_base(self) -> u32 {
        match self {
            Size::Small => 6,
            Size::Medium => 10,
            Size::Large => 20,
        }
    }

    /// The place of the size in the order of sizes, counted from zero.
    #[verifier::when_used_as_spec(spec_ordinal)]
    pub fn ordinal(self) -> (ordinal: u32)
        ensures
            ordinal == self.spec_ordinal(),
    {
        match self {
            Size::Small => 0,
            Size::Medium => 1,
            Size::Large => 2,
        }
    }

    /// The size at the given place; `None` for every ordinal above 2.
    pub fn from_ordinal(ordinal: u32) -> (size: Option<Self>)
        ensures
            size == Self::spec_from_ordinal(ordinal),
    {
        match ordinal {
            0 => Some(Size::Small),
            1 => Some(Size::Medium),
            2 => Some(Size::Large),
            _ => None,
        }
    }

    /// The class of type that sizes are encoded in.
    pub fn static_variant_type() -> (ty: VariantTy)
        ensures
            ty == VariantTy::UInt32,
    {
        VariantTy::UInt32
    }

    /// Encodes the size.
    pub fn to_variant(&self) -> (v: Variant)
        ensures
            v@ == self.encoding(),
    {
        Variant::UInt32(self.ordinal())
    }

    /// Decodes a size. The result is `None` for every value but an unsigned
    /// 32-bit integer from 0 to 2.
    pub fn from_variant(variant: &Variant) -> (size: Option<Self>)
        ensures
            size == Self::decode(variant@),
    {
        match variant {
            Variant::UInt32(ordinal) => Self::from_ordinal(*ordinal),
            _ => None,
        }
    }

    /// The font size of text at scale 1, in points.
    #[verifier::when_used_as_spec(spec_text_size_base)]
    pub fn text_size_base(self) -> (base: u32)
        ensures
            base == self.spec_text_size_base(),
    {
        match self {
            Size::Small => 12,
            Size::Medium => 18,
            Size::Large => 32,
        }
    }

    /// The width of a stroked line at scale 1.
    #[verifier::when_used_as_spec(spec_line_width_base)]
    pub fn line_width_base(self) -> (base: u32)
        ensures
            base == self.spec_line_width_base(),
    {
        match self {
            Size::Small => 2,
            Size::Medium => 3,
            Size::Large => 5,
        }
    }

    /// The radius of a blur at scale 1.
    #[verifier::when_used_as_spec(spec_blur_factor_base)]
    pub fn blur_factor_base(self) -> (base: u32)
        ensures
            base == self.spec_blur_factor_base(),
    {
        match self {
            Size::Small => 6,
            Size::Medium => 10,
            Size::Large => 20,
        }
    }
}

impl Default for Size {
    /// The default size is the middle one.
    fn default() -> (size: Self)
        ensures
            size == Size::Medium,
    {
        Size::Medium
    }
}

impl PartialOrd for Size {
    /// Sizes are ordered by their ordinals.
    fn partial_cmp(&self, other: &Self) -> (order: Option<Ordering>) {
        let mine: u32 = self.ordinal();
        let theirs: u32 = other.ordinal();
        if mine < theirs {
            Some(Ordering::Less)
        } else if mine == theirs {
            Some(Ordering::Equal)
        } else {
            Some(Ordering::Greater)
        }
    }
}

impl vstd::std_specs::cmp::PartialOrdSpecImpl for Size {
    open spec fn obeys_partial_cmp_spec() -> bool {
        true
    }

    open spec fn partial_cmp_spec(&self, other: &Self) -> Option<Ordering> {
        if self.spec_ordinal() < other.spec_ordinal() {
            Some(Ordering::Less)
        } else if self.spec_ordinal() == other.spec_ordinal() {
            Some(Ordering::Equal)
        } else {
            Some(Ordering::Greater)
        }
    }
}

impl Size {
    /// The size comes before the other in the order of sizes.
    pub open spec fn precedes(self, other: Size) -> bool {
        self.partial_cmp_spec(&other) == Some(Ordering::Less)
    }
}

impl Style {
    /// The default style: orange at medium size.
    pub open spec fn default_style() -> Style {
        Style { color: Color { r: 240, g: 147, b: 43, a: 255 }, size: Size::Medium }
    }
}

impl Default for Style {
    /// The default style is orange at medium size.
    fn default() -> (style: Self)
        ensures
            style == Style::default_style(),
    {
        Style { color: Color::orange(), size: Size::Medium }
    }
}

/// Two colours with the same packed form are the same colour: packing loses
/// nothing.
pub proof fn lemma_packed_is_lossless(c1: Color, c2: Color)
    requires
        c1.packed() == c2.packed(),
    ensures
        c1 == c2,
{
}

/// Decoding the encoded form of a colour gives back the colour.
pub proof fn lemma_color_round_trip(c: Color)
    ensures
        Color::decode(c.encoding()) == Some(c),
{
}

/// A value decodes to a colour only if it is the encoded form of that colour.
pub proof fn lemma_color_decodes_only_encodings(v: VariantView)
    ensures
        Color::decode(v) matches Some(c) ==> v == c.encoding(),
{
    if let Some(c) = Color::decode(v) {
        assert(v->Tuple_0 =~= c.encoding()->Tuple_0);
    }
}

/// Decoding the encoded form of a size gives back the size, and an unsigned
/// 32-bit integer decodes to a size exactly when it is at most 2.
pub proof fn lemma_size_round_trip(size: Size, ordinal: u32)
    ensures
        Size::decode(size.encoding()) == Some(size),
        Size::decode(VariantView::UInt32(ordinal)) is Some <==> ordinal <= 2,
        Size::decode(VariantView::UInt32(ordinal)) matches Some(s) ==> s.spec_ordinal() == ordinal,
{
}

/// Sizes are totally ordered by their ordinals: small comes before medium,
/// and medium before large.
pub proof fn lemma_size_order(a: Size, b: Size)
    ensures
        a.precedes(b) <==> a.spec_ordinal() < b.spec_ordinal(),
        a.partial_cmp_spec(&b) == Some(Ordering::Equal) <==> a == b,
        a.precedes(b) || a == b || b.precedes(a),
        Size::Small.precedes(Size::Medium),
        Size::Medium.precedes(Size::Large),
        Size::Small.precedes(Size::Large),
{
}

/// A larger size has the larger font size, line width and blur radius.
pub proof fn lemma_bases_grow_with_size(a: Size, b: Size)
    requires
        a.precedes(b),
    ensures
        a.spec_text_size_base() < b.spec_text_size_base(),
        a.spec_line_width_base() < b.spec_line_width_base(),
        a.spec_blur_factor_base() < b.spec_blur_factor_base(),
{
}

} // verus!
