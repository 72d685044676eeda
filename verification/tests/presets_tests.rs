use std::collections::HashSet;

use cameraftp::presets::{all_presets, find_preset};

#[test]
fn find_existing_preset() {
    let p = find_preset("classic-neg").unwrap();
    assert_eq!(p.display_name, "Classic Neg");
    assert_eq!(p.log_space, "F-Log2C");
}

#[test]
fn find_nonexistent_returns_none() {
    assert!(find_preset("nonexistent").is_none());
}

#[test]
fn all_presets_have_unique_ids() {
    let all = all_presets();
    let ids: Vec<&str> = all.iter().map(|p| p.id.as_str()).collect();
    let unique: HashSet<&str> = ids.iter().copied().collect();
    assert_eq!(ids.len(), unique.len());
}

#[test]
fn presets_list_in_order() {
    let all = all_presets();
    assert_eq!(all.len(), 11);
    assert_eq!(all[0].id, "acros");
    assert_eq!(all[10].display_name, "F-Log2C → Rec.709");
    assert_eq!(find_preset("velvia").unwrap().cube_filename, "FLog2C_to_Velvia_65grid_V.1.00.cube");
}
