//! Enumerations stored as PostgreSQL enum types.

use vstd::prelude::*;

verus! {

/// Kind of a dietary restriction (`restriction_category`).
#[derive(Debug, Clone, Copy, PartialEq, Eq, Structural)]
pub enum RestrictionCategory {
    Allergy,
    Diet,
}

/// Meal a recipe is meant for (`meal_type`).
#[derive(Debug, Clone, Copy, PartialEq, Eq, Structural)]
pub enum MealType {
    Breakfast,
    Lunch,
    Dinner,
    Snack,
}

/// State of a friendship request (`friendship_status`).
#[derive(Debug, Clone, Copy, PartialEq, Eq, Structural)]
pub enum FriendshipStatus {
    Pending,
    Accepted,
    Blocked,
}

/// Action recorded in the audit log (`log_action`).
#[derive(Debug, Clone, Copy, PartialEq, Eq, Structural)]
pub enum LogAction {
    Delete,
    Login,
    Logout,
    Error,
}

/// Kind of entity an audit log entry is about (`log_entity`).
#[derive(Debug, Clone, Copy, PartialEq, Eq, Structural)]
pub enum LogEntity {
    User,
    Recipe,
    Ingredient,
    Comment,
    Post,
    Friendship,
    Session,
}

/// Category of a recipe tag (`tag_category`).
#[derive(Debug, Clone, Copy, PartialEq, Eq, Structural)]
pub enum TagCategory {
    Diet,
    Season,
    Difficulty,
}

/// Unit of an ingredient quantity (`unit_type`).
#[derive(Debug, Clone, Copy, PartialEq, Eq, Structural)]
pub enum UnitType {
    Piece,
    G,
    Ml,
    Tbsp,
    Tsp,
    Cup,
    Kg,
    L,
}

} // verus!
