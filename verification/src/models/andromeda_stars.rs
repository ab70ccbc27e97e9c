//! A stored star card.

use vstd::prelude::*;
use crate::models::DecimalValue;

verus! {

/// A row of the star cards, with the fields that the card logic reads.
#[derive(Debug, Clone)]
pub struct Model {
    pub star_id: i64,
    pub created_by: i64,
    pub star_name: String,
    pub star_catalog_id: String,
    pub distance_kpc: DecimalValue,
    pub velocity_kms: i32,
    pub star_status: String,
    pub star_description: String,
    pub image_url: String,
    pub video_url: String,
}

} // verus!
