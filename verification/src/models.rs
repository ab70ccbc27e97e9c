//! The records that the catalogue stores and the card that pages show.

use vstd::prelude::*;

pub mod andromeda_stars;
pub mod andromeda_users;

verus! {

/// Largest magnitude of a decimal's coefficient: 96 bits.
pub open spec fn decimal_coefficient_bound() -> int {
    0xFFFF_FFFF_FFFF_FFFF_FFFF_FFFFint
}

/// A decimal number `mantissa / 10^scale`, as the database stores a
/// distance.
#[derive(Debug, Clone, Copy, PartialEq, Eq)]
pub struct DecimalValue {
    pub mantissa: i128,
    pub scale: u32,
}

impl DecimalValue {
    /// The coefficient fits in 96 bits and the scale is at most 28.
    pub open spec fn wf(self) -> bool {
        &&& self.scale <= 28
        &&& -decimal_coefficient_bound() <= self.mantissa <= decimal_coefficient_bound()
    }

    /// Zero, with no decimal places.
    pub open spec fn zero_value() -> DecimalValue {
        DecimalValue { mantissa: 0, scale: 0 }
    }

    /// Zero.
    pub fn zero() -> (d: DecimalValue)
        ensures
            d == DecimalValue::zero_value(),
            d.wf(),
    {
        DecimalValue { mantissa: 0, scale: 0 }
    }
}

/// The card of a star as the page templates show it.
#[derive(Debug, Clone)]
pub struct StarTemplate {
    pub id: i64,
    pub name: String,
    pub catalog_id: String,
    pub distance_kpc: String,
    pub velocity_kms: i32,
    pub status: String,
    pub description: String,
    pub image_url: String,
    pub video_url: String,
    pub likes_count: i64,
}

} // verus!
