use mountain_terrain::erosion::{
    bilinear_targets, droplet_seed_cell, select_droplet_action, DropletAction,
};

#[test]
fn seed_cell_inverts_row_major_flattening() {
    assert_eq!(droplet_seed_cell(0, 4), (0, 0));
    assert_eq!(droplet_seed_cell(13, 4), (1, 3));
    assert_eq!(droplet_seed_cell(15, 4), (3, 3));
    for index in 0..32usize {
        let (x, y) = droplet_seed_cell(index, 4);
        assert!(x < 4);
        assert_eq!(y * 4 + x, index);
    }
}

#[test]
fn interior_cell_has_all_four_deposit_targets() {
    let t = bilinear_targets(5, 4, 16);
    assert_eq!(t.nw, 5);
    assert_eq!(t.ne, Some(6));
    assert_eq!(t.sw, Some(9));
    assert_eq!(t.se, Some(10));
}

#[test]
fn last_cell_keeps_only_itself() {
    let t = bilinear_targets(15, 4, 16);
    assert_eq!(t.nw, 15);
    assert_eq!(t.ne, None);
    assert_eq!(t.sw, None);
    assert_eq!(t.se, None);
}

#[test]
fn bottom_row_loses_the_lower_targets() {
    let t = bilinear_targets(13, 4, 16);
    assert_eq!(t.nw, 13);
    assert_eq!(t.ne, Some(14));
    assert_eq!(t.sw, None);
    assert_eq!(t.se, None);
}

#[test]
fn deposit_is_chosen_on_overfull_sediment_or_uphill_motion() {
    assert_eq!(select_droplet_action(false, false), DropletAction::Erode);
    assert_eq!(select_droplet_action(true, false), DropletAction::Deposit);
    assert_eq!(select_droplet_action(false, true), DropletAction::Deposit);
    assert_eq!(select_droplet_action(true, true), DropletAction::Deposit);
}
