//! Dietary restrictions and their assignment to users.

use vstd::prelude::*;
use crate::models::users::enums::RestrictionCategory;

verus! {

/// A named dietary restriction (an allergy or a diet).
pub struct DietaryRestriction {
    pub id_dietary_restriction: u128,
    pub category: RestrictionCategory,
    pub name: String,
}

/// The link between a user and one of their dietary restrictions.
pub struct UserDietaryRestriction {
    pub id_user_dietary_restriction: u128,
    pub user_id: u128,
    pub id_dietary_restriction: u128,
}

} // verus!
