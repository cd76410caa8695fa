//! Selection of the overlay assets layered over each portrait.
use vstd::prelude::*;

use crate::images::ImageError;

verus! {

/// File name of the border overlay for a rarity level.
pub open spec fn border_name(rarity: int) -> Seq<char> {
    if rarity == 1 {
        "0.png"@
    } else if rarity == 2 {
        "00.png"@
    } else {
        "000.png"@
    }
}

/// File name of the gradient overlay for a title that wraps to `lines` lines.
pub open spec fn gradient_name(lines: int) -> Seq<char> {
    if lines == 1 {
        "gradient_small.png"@
    } else {
        "gradient_large.png"@
    }
}

pub open spec fn valid_rarity(rarity: int) -> bool {
    1 <= rarity <= 3
}

pub open spec fn valid_line_count(lines: int) -> bool {
    lines == 1 || lines == 2
}

/// Border tiers, one per rarity level.
#[derive(Clone, Copy, Debug, PartialEq, Eq, Structural)]
pub enum Border {
    Single,
    Double,
    Triple,
}

/// Gradient sizes, one per title line count.
#[derive(Clone, Copy, Debug, PartialEq, Eq, Structural)]
pub enum Gradient {
    Small,
    Large,
}

impl Border {
    pub open spec fn rarity(self) -> int {
        match self {
            Border::Single => 1,
            Border::Double => 2,
            Border::Triple => 3,
        }
    }

    /// The border for a rarity level; levels outside 1 to 3 are rejected.
    pub fn from_rarity(rarity: u8) -> (r: Result<Border, ImageError>)
        ensures
            valid_rarity(rarity as int) ==> (r matches Ok(b) && b.rarity() == rarity as int),
            !valid_rarity(rarity as int) ==> r == Err::<Border, ImageError>(
                ImageError::BadRarityLevel(rarity as i32),
            ),
    {
        match rarity {
            1 => Ok(Border::Single),
            2 => Ok(Border::Double),
            3 => Ok(Border::Triple),
            _ => Err(ImageError::BadRarityLevel(rarity as i32)),
        }
    }

    pub fn file_name(&self) -> (r: String)
        ensures
            r@ == border_name(self.rarity()),
    {
        proof {
            reveal_strlit("0.png");
            reveal_strlit("00.png");
            reveal_strlit("000.png");
        }
        match self {
            Border::Single => String::from_str("0.png"),
            Border::Double => String::from_str("00.png"),
            Border::Triple => String::from_str("000.png"),
        }
    }
}

impl Gradient {
    pub open spec fn line_count(self) -> int {
        match self {
            Gradient::Small => 1,
            Gradient::Large => 2,
        }
    }

    /// The gradient for a title of `lines` lines; only one or two lines fit.
    pub fn from_line_count(lines: i32) -> (r: Result<Gradient, ImageError>)
        ensures
            valid_line_count(lines as int) ==> (r matches Ok(g) && g.line_count() == lines as int),
            !valid_line_count(lines as int) ==> r == Err::<Gradient, ImageError>(
                ImageError::TextTooLong,
            ),
    {
        match lines {
            1 => Ok(Gradient::Small),
            2 => Ok(Gradient::Large),
            _ => Err(ImageError::TextTooLong),
        }
    }

    pub fn file_name(&self) -> (r: String)
        ensures
            r@ == gradient_name(self.line_count()),
    {
        match self {
            Gradient::Small => String::from_str("gradient_small.png"),
            Gradient::Large => String::from_str("gradient_large.png"),
        }
    }
}

/// Converts a title's line count to the file name of the gradient asset.
pub fn line_count_to_overlay(lines: i32) -> (r: Result<String, ImageError>)
    ensures
        valid_line_count(lines as int) ==> (r matches Ok(s) && s@ == gradient_name(lines as int)),
        !valid_line_count(lines as int) ==> r == Err::<String, ImageError>(ImageError::TextTooLong),
{
    match Gradient::from_line_count(lines) {
        Ok(g) => Ok(g.file_name()),
        Err(e) => Err(e),
    }
}

/// Converts a rarity level to the file name of the border asset.
pub fn rarity_to_overlay(rarity: u8) -> (r: Result<String, ImageError>)
    ensures
        valid_rarity(rarity as int) ==> (r matches Ok(s) && s@ == border_name(rarity as int)),
        !valid_rarity(rarity as int) ==> r == Err::<String, ImageError>(
            ImageError::BadRarityLevel(rarity as i32),
        ),
{
    match Border::from_rarity(rarity) {
        Ok(b) => Ok(b.file_name()),
        Err(e) => Err(e),
    }
}

/// Each rarity level has its own border asset.
pub proof fn lemma_border_names_distinct(a: int, b: int)
    requires
        valid_rarity(a),
        valid_rarity(b),
        a != b,
    ensures
        border_name(a) != border_name(b),
{
    reveal_strlit("0.png");
    reveal_strlit("00.png");
    reveal_strlit("000.png");
    assert(border_name(a).len() != border_name(b).len());
}

/// The two title line counts have distinct gradient assets.
pub proof fn lemma_gradient_names_distinct()
    ensures
        gradient_name(1) != gradient_name(2),
{
    reveal_strlit("gradient_small.png");
    reveal_strlit("gradient_large.png");
    assert(gradient_name(1)[9] != gradient_name(2)[9]);
}

} // verus!
