use x264_session::{Colorspace, Encoding, Modifier};

#[test]
fn the_catalog_gives_each_format_its_layout() {
    // planes, width divisor, height divisor, width factors, height factors
    let table: [(Colorspace, usize, i32, i32, [i32; 3], [i32; 3]); 13] = [
        (Colorspace::I420, 3, 2, 2, [2, 1, 1], [2, 1, 1]),
        (Colorspace::YV12, 3, 2, 2, [2, 1, 1], [2, 1, 1]),
        (Colorspace::NV12, 2, 2, 2, [2, 2, 0], [2, 1, 0]),
        (Colorspace::NV21, 2, 2, 2, [2, 2, 0], [2, 1, 0]),
        (Colorspace::I422, 3, 2, 1, [2, 1, 1], [1, 1, 1]),
        (Colorspace::YV16, 3, 2, 1, [2, 1, 1], [1, 1, 1]),
        (Colorspace::NV16, 2, 2, 1, [2, 2, 0], [1, 1, 0]),
        (Colorspace::V210, 1, 1, 1, [4, 0, 0], [1, 0, 0]),
        (Colorspace::I444, 3, 1, 1, [1, 1, 1], [1, 1, 1]),
        (Colorspace::YV24, 3, 1, 1, [1, 1, 1], [1, 1, 1]),
        (Colorspace::BGR, 1, 1, 1, [3, 0, 0], [1, 0, 0]),
        (Colorspace::BGRA, 1, 1, 1, [4, 0, 0], [1, 0, 0]),
        (Colorspace::RGB, 1, 1, 1, [3, 0, 0], [1, 0, 0]),
    ];
    for (colorspace, planes, width_divisor, height_divisor, width_factors, height_factors) in table {
        assert_eq!(colorspace.plane_count(), planes, "{:?}", colorspace);
        assert_eq!(colorspace.width_divisor(), width_divisor, "{:?}", colorspace);
        assert_eq!(colorspace.height_divisor(), height_divisor, "{:?}", colorspace);
        for plane in 0..3 {
            assert_eq!(colorspace.width_factor(plane), width_factors[plane], "{:?}", colorspace);
            assert_eq!(colorspace.height_factor(plane), height_factors[plane], "{:?}", colorspace);
        }
        assert_eq!(colorspace.width_factor(3), 0);
        assert_eq!(colorspace.height_factor(3), 0);
    }
}

#[test]
fn a_colorspace_makes_a_plain_encoding() {
    let encoding = Encoding::from(Colorspace::NV21);
    assert_eq!(encoding.colorspace(), Colorspace::NV21);
    assert!(!encoding.has_modifier(Modifier::HighDepth));
    assert!(!encoding.has_modifier(Modifier::VerticalFlip));
    assert_eq!(encoding.sample_depth(), 1);
    let same: Encoding = Colorspace::NV21.into();
    assert_eq!(encoding, same);
    assert_ne!(encoding, Encoding::from(Colorspace::NV12));
}

#[test]
fn modifiers_are_added_and_removed_one_by_one() {
    let plain = Encoding::from(Colorspace::I444);
    let deep = plain.add_modifier(Modifier::HighDepth);
    assert!(deep.has_modifier(Modifier::HighDepth));
    assert!(!deep.has_modifier(Modifier::VerticalFlip));
    assert_eq!(deep.sample_depth(), 2);
    assert_eq!(deep.colorspace(), Colorspace::I444);
    assert_eq!(deep.add_modifier(Modifier::HighDepth), deep);
    let both = deep.add_modifier(Modifier::VerticalFlip);
    assert!(both.has_modifier(Modifier::HighDepth));
    assert!(both.has_modifier(Modifier::VerticalFlip));
    assert_eq!(both.sample_depth(), 2);
    let flipped = both.remove_modifier(Modifier::HighDepth);
    assert!(flipped.has_modifier(Modifier::VerticalFlip));
    assert!(!flipped.has_modifier(Modifier::HighDepth));
    assert_eq!(flipped.sample_depth(), 1);
    assert_eq!(flipped.remove_modifier(Modifier::VerticalFlip), plain);
    assert_eq!(plain.remove_modifier(Modifier::VerticalFlip), plain);
    assert_ne!(deep, plain);
}
