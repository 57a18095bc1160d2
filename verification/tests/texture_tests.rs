use mountain_terrain::texture::{
    read_height_word, write_height_word, MountainTexture, MountainTextures,
};

#[test]
fn new_texture_is_zeroed_with_the_given_dimensions() {
    let t = MountainTexture::new(4, 3);
    assert_eq!(t.width(), 4);
    assert_eq!(t.height(), 3);
    assert_eq!(t.size(), 12);
    for y in 0..3 {
        for x in 0..4 {
            assert_eq!(t.get(x, y), 0);
        }
    }
}

#[test]
fn set_replaces_one_cell_and_keeps_the_rest() {
    let mut t = MountainTexture::new(4, 3);
    let bits = 1.5f32.to_bits();
    t.set(2, 1, bits);
    assert_eq!(t.get(2, 1), bits);
    assert_eq!(f32::from_bits(t.get(2, 1)), 1.5);
    for y in 0..3 {
        for x in 0..4 {
            if (x, y) != (2, 1) {
                assert_eq!(t.get(x, y), 0);
            }
        }
    }
}

#[test]
fn clamped_access_sticks_to_the_edges_and_never_wraps() {
    let mut t = MountainTexture::new(3, 2);
    for y in 0..2 {
        for x in 0..3 {
            t.set(x, y, 10 * y + x);
        }
    }
    assert_eq!(t.get_clamped(1, 1), t.get(1, 1));
    assert_eq!(t.get_clamped(5, 0), t.get(2, 0));
    assert_eq!(t.get_clamped(0, 9), t.get(0, 1));
    assert_eq!(t.get_clamped(u32::MAX, u32::MAX), t.get(2, 1));
}

#[test]
fn get_index_is_bounds_checked() {
    let mut t = MountainTexture::new(2, 2);
    t.set(1, 1, 7);
    assert_eq!(t.get_index(3), Some(7));
    assert_eq!(t.get_index(0), Some(0));
    assert_eq!(t.get_index(4), None);
    assert_eq!(t.get_index(usize::MAX), None);
}

#[test]
fn set_index_out_of_bounds_changes_nothing() {
    let mut t = MountainTexture::new(2, 1);
    t.set_index(5, 99);
    assert_eq!(t.get_index(0), Some(0));
    assert_eq!(t.get_index(1), Some(0));
    t.set_index(1, 42);
    assert_eq!(t.get_index(1), Some(42));
}

#[test]
fn to_bytes_encodes_each_word_least_significant_first() {
    let mut t = MountainTexture::new(2, 1);
    t.set(0, 0, 0x1122_3344);
    t.set(1, 0, 0xaabb_ccdd);
    assert_eq!(
        t.to_bytes(),
        vec![0x44, 0x33, 0x22, 0x11, 0xdd, 0xcc, 0xbb, 0xaa]
    );
}

#[test]
fn into_raw_interleaves_height_and_shadow_texels() {
    let mut ts = MountainTextures::new(1, 1);
    let h = 1.0f32.to_bits();
    let s = 0.25f32.to_bits();
    ts.heightmap.set(0, 0, h);
    ts.shadowmap.set(0, 0, s);
    let bytes = ts.into_raw();
    assert_eq!(bytes.len(), 16);
    let hb = h.to_le_bytes();
    let sb = s.to_le_bytes();
    assert_eq!(&bytes[0..4], &hb[..]);
    assert_eq!(&bytes[4..8], &sb[..]);
    assert_eq!(&bytes[8..16], &[0u8; 8][..]);
}

#[test]
fn height_words_read_back_from_the_raw_stream() {
    let mut ts = MountainTextures::new(2, 2);
    for i in 0..4u32 {
        ts.heightmap.set(i % 2, i / 2, (0.25 * i as f32).to_bits());
    }
    let raw = ts.into_raw();
    for i in 0..4usize {
        let w = read_height_word(&raw, i % 2, i / 2, 2);
        assert_eq!(f32::from_bits(w), 0.25 * i as f32);
    }
}

#[test]
fn written_height_words_read_back_and_touch_nothing_else() {
    let ts = MountainTextures::new(2, 2);
    let mut raw = ts.into_raw();
    let before = raw.clone();
    let bits = 0.75f32.to_bits();
    write_height_word(&mut raw, 1, 0, 2, bits);
    assert_eq!(read_height_word(&raw, 1, 0, 2), bits);
    for j in 0..raw.len() {
        if !(16..20).contains(&j) {
            assert_eq!(raw[j], before[j]);
        }
    }
}

#[test]
fn into_raw_walks_cells_in_row_major_order() {
    let mut ts = MountainTextures::new(2, 2);
    for i in 0..4u32 {
        ts.heightmap.set(i % 2, i / 2, i + 1);
        ts.shadowmap.set(i % 2, i / 2, 0x100 + i);
    }
    let bytes = ts.into_raw();
    assert_eq!(bytes.len(), 64);
    for i in 0..4usize {
        let texel = &bytes[i * 16..(i + 1) * 16];
        assert_eq!(&texel[0..4], &((i as u32) + 1).to_le_bytes()[..]);
        assert_eq!(&texel[4..8], &(0x100u32 + i as u32).to_le_bytes()[..]);
        assert_eq!(&texel[8..16], &[0u8; 8][..]);
    }
}
