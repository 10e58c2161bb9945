use crate::emotion::same_text;
use vstd::prelude::*;

verus! {

/// The ways the color transition visualizer colors the background.
#[derive(Clone, Copy, Debug, PartialEq, Eq, Structural)]
pub enum ColorMethod {
    /// The simple color of the top emotions.
    SimpleColor,
    /// Black, white or gray after the dominant sentiment.
    BlackWhiteGray,
    /// A gray lightened or darkened by the dominant sentiment.
    Grayscale,
}

/// The color method an option of the "Color Method" setting names: "Simple Color",
/// "Black, White, Gray" or "Grayscale"; any other name names none.
pub fn color_method_named(name: &str) -> (method: Option<ColorMethod>)
    ensures
        name@ == "Simple Color"@ ==> method == Some(ColorMethod::SimpleColor),
        name@ != "Simple Color"@ && name@ == "Black, White, Gray"@ ==> method == Some(
            ColorMethod::BlackWhiteGray,
        ),
        name@ != "Simple Color"@ && name@ != "Black, White, Gray"@ && name@ == "Grayscale"@
            ==> method == Some(ColorMethod::Grayscale),
        name@ != "Simple Color"@ && name@ != "Black, White, Gray"@ && name@ != "Grayscale"@
            ==> method is None,
{
    if same_text(name, "Simple Color") {
        Some(ColorMethod::SimpleColor)
    } else if same_text(name, "Black, White, Gray") {
        Some(ColorMethod::BlackWhiteGray)
    } else if same_text(name, "Grayscale") {
        Some(ColorMethod::Grayscale)
    } else {
        None
    }
}

} // verus!
