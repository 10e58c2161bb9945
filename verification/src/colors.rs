use vstd::prelude::*;

verus! {

/// The color palettes a sketch can choose from.
#[derive(Debug)]
pub enum PalettesSelection {
    All,
    RandomlyGenerated,
    Neon,
    PurpleFade,
    DarkAcademia,
    PartySoho,
    StabiloBossPastel,
}

/// The palette that a draw of `index` among `0..=6` picks.
pub open spec fn palette_for_index(index: i32) -> PalettesSelection {
    if index == 0 {
        PalettesSelection::Neon
    } else if index == 1 {
        PalettesSelection::PurpleFade
    } else if index == 2 {
        PalettesSelection::DarkAcademia
    } else if index == 3 {
        PalettesSelection::PartySoho
    } else if index == 4 {
        PalettesSelection::StabiloBossPastel
    } else if index == 5 {
        PalettesSelection::RandomlyGenerated
    } else {
        PalettesSelection::All
    }
}

impl PalettesSelection {
    /// The palette picked by a random draw of `index` among `0..=6`: the six named
    /// palettes in turn for 0 to 5, all colors for anything else.
    pub fn from_index(index: i32) -> (selection: Self)
        ensures
            selection == palette_for_index(index),
    {
        match index {
            0 => PalettesSelection::Neon,
            1 => PalettesSelection::PurpleFade,
            2 => PalettesSelection::DarkAcademia,
            3 => PalettesSelection::PartySoho,
            4 => PalettesSelection::StabiloBossPastel,
            5 => PalettesSelection::RandomlyGenerated,
            _ => PalettesSelection::All,
        }
    }
}

} // verus!
