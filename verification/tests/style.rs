use annotation_tools::style::{Color, Size, Style};
use annotation_tools::variant::{Variant, VariantTy};
use hex_color::HexColor;
use std::cmp::Ordering;

fn byte_tuple(bytes: &[u8]) -> Variant {
    Variant::Tuple(bytes.iter().map(|b| Variant::Byte(*b)).collect())
}

fn channels(c: Color) -> (u8, u8, u8, u8) {
    (c.r, c.g, c.b, c.a)
}

#[test]
fn new_keeps_the_channels_in_order() {
    assert_eq!(channels(Color::new(1, 2, 3, 4)), (1, 2, 3, 4));
    assert_eq!(channels(Color::new(255, 0, 255, 0)), (255, 0, 255, 0));
}

#[test]
fn presets_have_their_channels() {
    assert_eq!(channels(Color::orange()), (240, 147, 43, 255));
    assert_eq!(channels(Color::red()), (235, 77, 75, 255));
    assert_eq!(channels(Color::green()), (106, 176, 76, 255));
    assert_eq!(channels(Color::blue()), (34, 166, 179, 255));
    assert_eq!(channels(Color::cove()), (19, 15, 64, 255));
    assert_eq!(channels(Color::pink()), (200, 37, 184, 255));
}

#[test]
fn default_color_is_orange() {
    assert_eq!(Color::default(), Color::orange());
    assert_eq!(Color::default(), Color::new(240, 147, 43, 255));
}

#[test]
fn default_size_is_medium() {
    assert_eq!(Size::default(), Size::Medium);
}

#[test]
fn default_style_is_orange_medium() {
    let style = Style::default();
    assert_eq!(style.color, Color::new(240, 147, 43, 255));
    assert_eq!(style.size, Size::Medium);
}

#[test]
fn packed_form_has_red_on_top_and_alpha_at_the_bottom() {
    assert_eq!(Color::new(0x12, 0x34, 0x56, 0x78).to_rgba_u32(), 0x1234_5678);
    assert_eq!(Color::orange().to_rgba_u32(), 0xF093_2BFF);
    assert_eq!(Color::cove().to_rgba_u32(), 0x130F_40FF);
    assert_eq!(Color::new(0, 0, 0, 0).to_rgba_u32(), 0);
    assert_eq!(Color::new(255, 255, 255, 255).to_rgba_u32(), u32::MAX);
    assert_eq!(Color::new(1, 0, 0, 0).to_rgba_u32(), 1 << 24);
    assert_eq!(Color::new(0, 1, 0, 0).to_rgba_u32(), 1 << 16);
    assert_eq!(Color::new(0, 0, 1, 0).to_rgba_u32(), 1 << 8);
    assert_eq!(Color::new(0, 0, 0, 1).to_rgba_u32(), 1);
}

#[test]
fn packing_tells_colors_apart() {
    let samples = [0u8, 1, 2, 127, 128, 254, 255];
    for r in samples {
        for g in samples {
            for b in samples {
                for a in samples {
                    let packed = Color::new(r, g, b, a).to_rgba_u32();
                    assert_eq!(packed.to_be_bytes(), [r, g, b, a]);
                }
            }
        }
    }
}

#[test]
fn color_encodes_as_tuple_of_four_bytes() {
    match Color::new(9, 8, 7, 6).to_variant() {
        Variant::Tuple(items) => {
            assert_eq!(items.len(), 4);
            assert!(matches!(items[0], Variant::Byte(9)));
            assert!(matches!(items[1], Variant::Byte(8)));
            assert!(matches!(items[2], Variant::Byte(7)));
            assert!(matches!(items[3], Variant::Byte(6)));
        }
        other => panic!("not a tuple: {:?}", other),
    }
}

#[test]
fn color_round_trips_through_its_encoding() {
    let samples = [0u8, 1, 43, 128, 254, 255];
    for r in samples {
        for g in samples {
            for b in samples {
                for a in samples {
                    let color = Color::new(r, g, b, a);
                    assert_eq!(Color::from_variant(&color.to_variant()), Some(color));
                }
            }
        }
    }
}

#[test]
fn color_decoding_keeps_the_order_of_the_channels() {
    assert_eq!(Color::from_variant(&byte_tuple(&[1, 2, 3, 4])), Some(Color::new(1, 2, 3, 4)));
}

#[test]
fn color_decoding_refuses_other_shapes() {
    assert_eq!(Color::from_variant(&Variant::Byte(1)), None);
    assert_eq!(Color::from_variant(&Variant::UInt32(0x0102_0304)), None);
    assert_eq!(Color::from_variant(&byte_tuple(&[])), None);
    assert_eq!(Color::from_variant(&byte_tuple(&[1, 2, 3])), None);
    assert_eq!(Color::from_variant(&byte_tuple(&[1, 2, 3, 4, 5])), None);
    let with_number =
        Variant::Tuple(vec![Variant::Byte(1), Variant::Byte(2), Variant::UInt32(3), Variant::Byte(4)]);
    assert_eq!(Color::from_variant(&with_number), None);
    let number_first =
        Variant::Tuple(vec![Variant::UInt32(1), Variant::Byte(2), Variant::Byte(3), Variant::Byte(4)]);
    assert_eq!(Color::from_variant(&number_first), None);
    let number_last =
        Variant::Tuple(vec![Variant::Byte(1), Variant::Byte(2), Variant::Byte(3), Variant::UInt32(4)]);
    assert_eq!(Color::from_variant(&number_last), None);
    let nested = Variant::Tuple(vec![byte_tuple(&[1, 2, 3, 4])]);
    assert_eq!(Color::from_variant(&nested), None);
    let nested_item =
        Variant::Tuple(vec![Variant::Byte(1), byte_tuple(&[2]), Variant::Byte(3), Variant::Byte(4)]);
    assert_eq!(Color::from_variant(&nested_item), None);
}

#[test]
fn color_from_hex_color_takes_all_four_channels() {
    assert_eq!(Color::from(HexColor::rgba(1, 2, 3, 4)), Color::new(1, 2, 3, 4));
    assert_eq!(Color::from(HexColor::rgb(240, 147, 43)), Color::orange());
    let parsed = HexColor::parse("#eb4d4b80").unwrap();
    assert_eq!(Color::from(parsed), Color::new(235, 77, 75, 128));
}

#[test]
fn size_ordinals() {
    assert_eq!(Size::Small.ordinal(), 0);
    assert_eq!(Size::Medium.ordinal(), 1);
    assert_eq!(Size::Large.ordinal(), 2);
    assert_eq!(Size::from_ordinal(0), Some(Size::Small));
    assert_eq!(Size::from_ordinal(1), Some(Size::Medium));
    assert_eq!(Size::from_ordinal(2), Some(Size::Large));
    assert_eq!(Size::from_ordinal(3), None);
    assert_eq!(Size::from_ordinal(u32::MAX), None);
}

#[test]
fn size_encodes_as_its_ordinal() {
    assert!(matches!(Size::Small.to_variant(), Variant::UInt32(0)));
    assert!(matches!(Size::Medium.to_variant(), Variant::UInt32(1)));
    assert!(matches!(Size::Large.to_variant(), Variant::UInt32(2)));
}

#[test]
fn size_round_trips_through_its_encoding() {
    for size in [Size::Small, Size::Medium, Size::Large] {
        assert_eq!(Size::from_variant(&size.to_variant()), Some(size));
    }
}

#[test]
fn size_decoding_refuses_ordinals_above_two() {
    assert_eq!(Size::from_variant(&Variant::UInt32(3)), None);
    assert_eq!(Size::from_variant(&Variant::UInt32(4)), None);
    assert_eq!(Size::from_variant(&Variant::UInt32(256)), None);
    assert_eq!(Size::from_variant(&Variant::UInt32(u32::MAX)), None);
}

#[test]
fn size_decoding_refuses_other_shapes() {
    assert_eq!(Size::from_variant(&Variant::Byte(1)), None);
    assert_eq!(Size::from_variant(&Variant::Tuple(vec![Variant::UInt32(1)])), None);
    assert_eq!(Size::from_variant(&Variant::Tuple(vec![])), None);
}

#[test]
fn sizes_are_ordered_small_medium_large() {
    assert!(Size::Small < Size::Medium);
    assert!(Size::Medium < Size::Large);
    assert!(Size::Small < Size::Large);
    assert!(Size::Large > Size::Small);
    assert!(Size::Medium <= Size::Medium);
    assert!(!(Size::Large < Size::Medium));
    assert_eq!(Size::Small.partial_cmp(&Size::Medium), Some(Ordering::Less));
    assert_eq!(Size::Large.partial_cmp(&Size::Large), Some(Ordering::Equal));
    assert_eq!(Size::Large.partial_cmp(&Size::Small), Some(Ordering::Greater));
}

#[test]
fn both_orders_of_sizes_agree() {
    let all = [Size::Small, Size::Medium, Size::Large];
    for a in all {
        for b in all {
            assert_eq!(a.partial_cmp(&b), Some(a.cmp(&b)));
            assert_eq!(a.cmp(&b), a.ordinal().cmp(&b.ordinal()));
        }
    }
    let mut sizes = vec![Size::Large, Size::Small, Size::Medium];
    sizes.sort();
    assert_eq!(sizes, vec![Size::Small, Size::Medium, Size::Large]);
}

#[test]
fn size_bases() {
    assert_eq!(Size::Small.text_size_base(), 12);
    assert_eq!(Size::Medium.text_size_base(), 18);
    assert_eq!(Size::Large.text_size_base(), 32);
    assert_eq!(Size::Small.line_width_base(), 2);
    assert_eq!(Size::Medium.line_width_base(), 3);
    assert_eq!(Size::Large.line_width_base(), 5);
    assert_eq!(Size::Small.blur_factor_base(), 6);
    assert_eq!(Size::Medium.blur_factor_base(), 10);
    assert_eq!(Size::Large.blur_factor_base(), 20);
}

#[test]
fn encodings_have_the_declared_type() {
    assert_eq!(Color::static_variant_type(), VariantTy::Tuple);
    assert_eq!(Size::static_variant_type(), VariantTy::UInt32);
    assert_eq!(Color::pink().to_variant().type_(), Color::static_variant_type());
    assert_eq!(Size::Large.to_variant().type_(), Size::static_variant_type());
    assert_eq!(Variant::Byte(0).type_(), VariantTy::Byte);
    assert_eq!(Variant::Tuple(vec![]).type_(), VariantTy::Tuple);
}
