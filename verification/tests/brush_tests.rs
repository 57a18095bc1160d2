use mountain_terrain::brush::BrushKernel;
use mountain_terrain::settings::SettingsError;

#[test]
fn radius_three_yields_exactly_25_offsets() {
    let k = BrushKernel::new(3).unwrap();
    assert_eq!(k.offsets.len(), 25);
}

#[test]
fn radius_three_weights_normalize_to_one() {
    // the erosion weighting derived from the offsets: 1 - sqrt(d2)/r per
    // offset, then normalized to sum to one
    let k = BrushKernel::new(3).unwrap();
    let raw: Vec<f32> = k
        .offsets
        .iter()
        .map(|&(dx, dy)| 1.0 - ((dx * dx + dy * dy) as f32).sqrt() / 3.0)
        .collect();
    let total: f32 = raw.iter().sum();
    let sum: f32 = raw.iter().map(|w| w / total).sum();
    assert!((sum - 1.0).abs() <= 1e-5);
}

#[test]
fn every_offset_lies_strictly_inside_the_disc() {
    for radius in 1..8i32 {
        let k = BrushKernel::new(radius).unwrap();
        for &(dx, dy) in k.offsets.iter() {
            assert!(dx * dx + dy * dy < radius * radius);
        }
    }
}

#[test]
fn radius_one_keeps_only_the_center() {
    let k = BrushKernel::new(1).unwrap();
    assert_eq!(k.offsets, vec![(0, 0)]);
}

#[test]
fn offsets_are_enumerated_row_major() {
    let k = BrushKernel::new(2).unwrap();
    assert_eq!(
        k.offsets,
        vec![
            (-1, -1),
            (0, -1),
            (1, -1),
            (-1, 0),
            (0, 0),
            (1, 0),
            (-1, 1),
            (0, 1),
            (1, 1),
        ]
    );
}

#[test]
fn non_positive_radius_is_rejected() {
    assert_eq!(BrushKernel::new(0).unwrap_err(), SettingsError::InvalidRadius);
    assert_eq!(BrushKernel::new(-5).unwrap_err(), SettingsError::InvalidRadius);
}

#[test]
fn flattened_indices_place_offsets_on_a_grid_row() {
    let k = BrushKernel::new(2).unwrap();
    let flat = k.flattened_indices(10);
    assert_eq!(flat, vec![-11, -10, -9, -1, 0, 1, 9, 10, 11]);
}
