//! Potentiometer controls: the keyed-slot family of player inputs.

use vstd::prelude::*;

verus! {

/// Identity of one potentiometer control.
#[derive(Debug, Clone, Copy, PartialEq, Eq, Hash, Structural)]
pub enum PotType {
    PotJ,
    PotI,
    PotK,
    PotO,
    PotL,
}

/// Live activity state of a potentiometer control, driven by the input layer.
#[derive(Debug, Clone, Copy, PartialEq, Eq, Structural)]
pub enum PotState {
    Active,
    Inactive,
}

/// Name of the "lit" texture the display layer shows for a potentiometer.
pub fn fetch_pot_tex(pot_type: PotType) -> (r: String)
    ensures
        pot_type == PotType::PotJ ==> r@ == "pot_j_on.png"@,
        pot_type == PotType::PotI ==> r@ == "pot_i_on.png"@,
        pot_type == PotType::PotK ==> r@ == "pot_k_on.png"@,
        pot_type == PotType::PotO ==> r@ == "pot_o_on.png"@,
        pot_type == PotType::PotL ==> r@ == "pot_l_on.png"@,
{
    match pot_type {
        PotType::PotJ => String::from_str("pot_j_on.png"),
        PotType::PotI => String::from_str("pot_i_on.png"),
        PotType::PotK => String::from_str("pot_k_on.png"),
        PotType::PotO => String::from_str("pot_o_on.png"),
        PotType::PotL => String::from_str("pot_l_on.png"),
    }
}

} // verus!
