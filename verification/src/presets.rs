//! The built-in LUT presets of the LUT filter.
use vstd::prelude::*;
use crate::ftp::str_eq;

verus! {

/// A LUT preset: identifier, display name, the log space it expects and its
/// `.cube` file.
#[derive(Debug, Clone)]
pub struct PresetLut {
    pub id: String,
    pub display_name: String,
    pub log_space: String,
    pub cube_filename: String,
}

/// Value of a preset.
pub open spec fn preset_view(p: PresetLut) -> (Seq<char>, Seq<char>, Seq<char>, Seq<char>) {
    (p.id@, p.display_name@, p.log_space@, p.cube_filename@)
}

/// The built-in presets, in display order.
pub const PRESET_TABLE: [(&'static str, &'static str, &'static str, &'static str); 11] = [
    ("acros", "ACROS", "F-Log2C", "FLog2C_to_ACROS_65grid_V.1.00.cube"),
    ("astia", "Astia", "F-Log2C", "FLog2C_to_ASTIA_65grid_V.1.00.cube"),
    ("classic-chrome", "Classic Chrome", "F-Log2C", "FLog2C_to_CLASSIC-CHROME_65grid_V.1.00.cube"),
    ("classic-neg", "Classic Neg", "F-Log2C", "FLog2C_to_CLASSIC-Neg._65grid_V.1.00.cube"),
    ("eterna", "ETERNA", "F-Log2C", "FLog2C_to_ETERNA_65grid_V.1.00.cube"),
    ("eterna-bb", "ETERNA Bleach Bypass", "F-Log2C", "FLog2C_to_ETERNA-BB_65grid_V.1.00.cube"),
    ("pro-neg-std", "PRO Neg. Std", "F-Log2C", "FLog2C_to_PRO-Neg.Std_65grid_V.1.00.cube"),
    ("provia", "Provia", "F-Log2C", "FLog2C_to_PROVIA_65grid_V.1.00.cube"),
    ("reala-ace", "REALA ACE", "F-Log2C", "FLog2C_to_REALA-ACE_65grid_V.1.00.cube"),
    ("velvia", "Velvia", "F-Log2C", "FLog2C_to_Velvia_65grid_V.1.00.cube"),
    ("flog2c-709", "F-Log2C → Rec.709", "F-Log2C", "FLog2C_to_FLog2C-709_65grid_V.1.00.cube"),
];

/// The built-in presets as values.
pub open spec fn preset_table() -> Seq<(Seq<char>, Seq<char>, Seq<char>, Seq<char>)> {
    seq![
        ("acros"@, "ACROS"@, "F-Log2C"@, "FLog2C_to_ACROS_65grid_V.1.00.cube"@),
        ("astia"@, "Astia"@, "F-Log2C"@, "FLog2C_to_ASTIA_65grid_V.1.00.cube"@),
        ("classic-chrome"@, "Classic Chrome"@, "F-Log2C"@, "FLog2C_to_CLASSIC-CHROME_65grid_V.1.00.cube"@),
        ("classic-neg"@, "Classic Neg"@, "F-Log2C"@, "FLog2C_to_CLASSIC-Neg._65grid_V.1.00.cube"@),
        ("eterna"@, "ETERNA"@, "F-Log2C"@, "FLog2C_to_ETERNA_65grid_V.1.00.cube"@),
        ("eterna-bb"@, "ETERNA Bleach Bypass"@, "F-Log2C"@, "FLog2C_to_ETERNA-BB_65grid_V.1.00.cube"@),
        ("pro-neg-std"@, "PRO Neg. Std"@, "F-Log2C"@, "FLog2C_to_PRO-Neg.Std_65grid_V.1.00.cube"@),
        ("provia"@, "Provia"@, "F-Log2C"@, "FLog2C_to_PROVIA_65grid_V.1.00.cube"@),
        ("reala-ace"@, "REALA ACE"@, "F-Log2C"@, "FLog2C_to_REALA-ACE_65grid_V.1.00.cube"@),
        ("velvia"@, "Velvia"@, "F-Log2C"@, "FLog2C_to_Velvia_65grid_V.1.00.cube"@),
        ("flog2c-709"@, "F-Log2C → Rec.709"@, "F-Log2C"@, "FLog2C_to_FLog2C-709_65grid_V.1.00.cube"@),
    ]
}

fn table_view_matches()
    ensures
        PRESET_TABLE@.map_values(
            |t: (&'static str, &'static str, &'static str, &'static str)| (t.0@, t.1@, t.2@, t.3@),
        ) =~= preset_table(),
{
}

/// No two built-in presets share an identifier.
pub proof fn law_preset_ids_unique()
    ensures
        forall|i: int, j: int|
            0 <= i < j < preset_table().len() ==> (#[trigger] preset_table()[i]).0 != (
            #[trigger] preset_table()[j]).0,
{
        reveal_strlit("acros");
        reveal_strlit("astia");
        reveal_strlit("classic-chrome");
        reveal_strlit("classic-neg");
        reveal_strlit("eterna");
        reveal_strlit("eterna-bb");
        reveal_strlit("pro-neg-std");
        reveal_strlit("provia");
        reveal_strlit("reala-ace");
        reveal_strlit("velvia");
        reveal_strlit("flog2c-709");
    assert(preset_table()[0].0[1] != preset_table()[1].0[1]);
    assert(preset_table()[0].0.len() != preset_table()[2].0.len());
    assert(preset_table()[0].0.len() != preset_table()[3].0.len());
    assert(preset_table()[0].0.len() != preset_table()[4].0.len());
    assert(preset_table()[0].0.len() != preset_table()[5].0.len());
    assert(preset_table()[0].0.len() != preset_table()[6].0.len());
    assert(preset_table()[0].0.len() != preset_table()[7].0.len());
    assert(preset_table()[0].0.len() != preset_table()[8].0.len());
    assert(preset_table()[0].0.len() != preset_table()[9].0.len());
    assert(preset_table()[0].0.len() != preset_table()[10].0.len());
    assert(preset_table()[1].0.len() != preset_table()[2].0.len());
    assert(preset_table()[1].0.len() != preset_table()[3].0.len());
    assert(preset_table()[1].0.len() != preset_table()[4].0.len());
    assert(preset_table()[1].0.len() != preset_table()[5].0.len());
    assert(preset_table()[1].0.len() != preset_table()[6].0.len());
    assert(preset_table()[1].0.len() != preset_table()[7].0.len());
    assert(preset_table()[1].0.len() != preset_table()[8].0.len());
    assert(preset_table()[1].0.len() != preset_table()[9].0.len());
    assert(preset_table()[1].0.len() != preset_table()[10].0.len());
    assert(preset_table()[2].0.len() != preset_table()[3].0.len());
    assert(preset_table()[2].0.len() != preset_table()[4].0.len());
    assert(preset_table()[2].0.len() != preset_table()[5].0.len());
    assert(preset_table()[2].0.len() != preset_table()[6].0.len());
    assert(preset_table()[2].0.len() != preset_table()[7].0.len());
    assert(preset_table()[2].0.len() != preset_table()[8].0.len());
    assert(preset_table()[2].0.len() != preset_table()[9].0.len());
    assert(preset_table()[2].0.len() != preset_table()[10].0.len());
    assert(preset_table()[3].0.len() != preset_table()[4].0.len());
    assert(preset_table()[3].0.len() != preset_table()[5].0.len());
    assert(preset_table()[3].0[0] != preset_table()[6].0[0]);
    assert(preset_table()[3].0.len() != preset_table()[7].0.len());
    assert(preset_table()[3].0.len() != preset_table()[8].0.len());
    assert(preset_table()[3].0.len() != preset_table()[9].0.len());
    assert(preset_table()[3].0.len() != preset_table()[10].0.len());
    assert(preset_table()[4].0.len() != preset_table()[5].0.len());
    assert(preset_table()[4].0.len() != preset_table()[6].0.len());
    assert(preset_table()[4].0[0] != preset_table()[7].0[0]);
    assert(preset_table()[4].0.len() != preset_table()[8].0.len());
    assert(preset_table()[4].0[0] != preset_table()[9].0[0]);
    assert(preset_table()[4].0.len() != preset_table()[10].0.len());
    assert(preset_table()[5].0.len() != preset_table()[6].0.len());
    assert(preset_table()[5].0.len() != preset_table()[7].0.len());
    assert(preset_table()[5].0[0] != preset_table()[8].0[0]);
    assert(preset_table()[5].0.len() != preset_table()[9].0.len());
    assert(preset_table()[5].0.len() != preset_table()[10].0.len());
    assert(preset_table()[6].0.len() != preset_table()[7].0.len());
    assert(preset_table()[6].0.len() != preset_table()[8].0.len());
    assert(preset_table()[6].0.len() != preset_table()[9].0.len());
    assert(preset_table()[6].0.len() != preset_table()[10].0.len());
    assert(preset_table()[7].0.len() != preset_table()[8].0.len());
    assert(preset_table()[7].0[0] != preset_table()[9].0[0]);
    assert(preset_table()[7].0.len() != preset_table()[10].0.len());
    assert(preset_table()[8].0.len() != preset_table()[9].0.len());
    assert(preset_table()[8].0.len() != preset_table()[10].0.len());
    assert(preset_table()[9].0.len() != preset_table()[10].0.len());
}

/// All built-in presets.
pub fn all_presets() -> (r: Vec<PresetLut>)
    ensures
        r@.map_values(|p: PresetLut| preset_view(p)) == preset_table(),
{
    let table = PRESET_TABLE;
    table_view_matches();
    let mut out: Vec<PresetLut> = Vec::new();
    let mut i: usize = 0;
    while i < 11
        invariant
            i <= 11,
            table@.map_values(
                |t: (&'static str, &'static str, &'static str, &'static str)| (t.0@, t.1@, t.2@, t.3@),
            ) =~= preset_table(),
            out@.map_values(|p: PresetLut| preset_view(p)) =~= preset_table().take(i as int),
            out@.len() == i,
        decreases 11 - i,
    {
        let t = table[i];
        proof {
            assert(table@.map_values(
                |t: (&'static str, &'static str, &'static str, &'static str)| (t.0@, t.1@, t.2@, t.3@),
            )[i as int] == (t.0@, t.1@, t.2@, t.3@));
        }
        let ghost before = out@;
        out.push(
            PresetLut {
                id: String::from_str(t.0),
                display_name: String::from_str(t.1),
                log_space: String::from_str(t.2),
                cube_filename: String::from_str(t.3),
            },
        );
        proof {
            assert(preset_view(out@[i as int]) == preset_table()[i as int]);
            assert(out@.map_values(|p: PresetLut| preset_view(p)) =~= preset_table().take(i + 1));
        }
        i = i + 1;
    }
    proof {
        assert(preset_table().take(11) =~= preset_table());
    }
    out
}

/// The preset with identifier `id`, if any.
pub fn find_preset(id: &str) -> (r: Option<PresetLut>)
    ensures
        match r {
            Some(p) => exists|i: int| 0 <= i < preset_table().len() && preset_view(p) == #[trigger] preset_table()[i]
                && preset_table()[i].0 == id@,
            None => forall|i: int| 0 <= i < preset_table().len() ==> (#[trigger] preset_table()[i]).0 != id@,
        },
{
    let all = all_presets();
    let ghost v = all@.map_values(|p: PresetLut| preset_view(p));
    let mut i: usize = 0;
    while i < all.len()
        invariant
            i <= all@.len(),
            v == all@.map_values(|p: PresetLut| preset_view(p)),
            v == preset_table(),
            forall|j: int| 0 <= j < i ==> (#[trigger] preset_table()[j]).0 != id@,
        decreases all@.len() - i,
    {
        if str_eq(all[i].id.as_str(), id) {
            proof {
                assert(v[i as int] == preset_view(all@[i as int]));
            }
            return Some(PresetLut {
                id: all[i].id.clone(),
                display_name: all[i].display_name.clone(),
                log_space: all[i].log_space.clone(),
                cube_filename: all[i].cube_filename.clone(),
            });
        }
        proof {
            assert(v[i as int] == preset_view(all@[i as int]));
        }
        i = i + 1;
    }
    None
}

} // verus!
