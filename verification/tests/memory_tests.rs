use g910_replay::memory::{
    absent_values, gaming_key_offsets, memory_layout_image, standard_key_offsets, window_cells,
    NO_MAPPING,
};

#[test]
fn tables_have_expected_shape() {
    let gaming = gaming_key_offsets();
    assert_eq!(gaming.len(), 10);
    assert_eq!(gaming[0], NO_MAPPING);
    assert_eq!(gaming[1], 0x382e2402);
    assert_eq!(gaming[9], 0xaaa09601);
    let standard = standard_key_offsets();
    assert_eq!(standard.len(), 256);
    assert_eq!(standard[0], NO_MAPPING);
    assert_eq!(standard[4], 0xaea49a02);
    assert_eq!(standard[101], 0x50463c00);
    assert_eq!(standard[229], 0x140a0000);
}

#[test]
fn image_stamps_keys_at_their_channel_cells() {
    let image = memory_layout_image();
    assert_eq!(image.len(), 1000);
    // The key with code 229 maps to page 0, channel offsets 0x00/0x0a/0x14:
    // cells 43, 53 and 63 hold its code.
    assert_eq!(image[43], 229);
    assert_eq!(image[53], 229);
    assert_eq!(image[63], 229);
    // The first gaming key (code 1) maps to page 2, cells 559/569/579.
    assert_eq!(image[559], 1);
    assert_eq!(image[569], 1);
    assert_eq!(image[579], 1);
}

#[test]
fn image_never_writes_before_the_first_record() {
    let image = memory_layout_image();
    // The lowest computable offset is the page base itself.
    for i in 0..43 {
        assert_eq!(image[i], 0);
    }
}

#[test]
fn report_windows_pick_odd_cells_of_each_row() {
    let image = memory_layout_image();
    let rows = window_cells(&image, 42, 282);
    assert_eq!(rows.len(), 24);
    assert_eq!(
        rows[0],
        vec![image[43], image[45], image[47], image[49], image[51]]
    );
    assert_eq!(rows[0][0], 229);
    let rows2 = window_cells(&image, 282, 522);
    assert_eq!(rows2.len(), 24);
    let rows3 = window_cells(&image, 522, 762);
    assert_eq!(rows3.len(), 24);
    // Row 3 of the third window covers cells 553..561: three gaming keys,
    // the first gaming key, and a standard key.
    assert_eq!(rows3[3], vec![8, 7, 6, 1, 137]);
}

#[test]
fn absent_values_lists_unused_codes() {
    let image = memory_layout_image();
    let absent = absent_values(&image);
    // Present values: zero plus every stamped key code.
    assert!(!absent.contains(&0));
    assert!(!absent.contains(&4));
    assert!(!absent.contains(&9));
    assert!(!absent.contains(&101));
    assert!(!absent.contains(&231));
    assert!(absent.contains(&102));
    assert!(absent.contains(&134));
    assert!(absent.contains(&140));
    assert!(absent.contains(&223));
    assert!(absent.contains(&232));
    assert!(absent.contains(&254));
    // The table maps codes 136 and 230 to the same cells, so the later
    // stamping overwrites all three cells of code 136.
    assert!(absent.contains(&136));
    assert_eq!(absent.len(), 141);
    for w in absent.windows(2) {
        assert!(w[0] < w[1]);
    }
}
