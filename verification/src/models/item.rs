//! Shopping items and their units.

use vstd::prelude::*;
use vstd::string::StringExecFns;

verus! {

/// Why a stored unit name could not be read as a [`UnitType`].
#[derive(Debug)]
pub struct UnitTypeError {
    pub msg: String,
    pub status: u16,
}

impl UnitTypeError {
    /// The error for a unit name that is not known: status 404 with the given message.
    pub fn not_found(msg: String) -> (error: UnitTypeError)
        ensures
            error.msg == msg,
            error.status == 404,
    {
        UnitTypeError { msg, status: 404 }
    }
}

/// The kind of quantity an item is counted in by default.
#[derive(Clone, Copy, Debug, PartialEq, Eq, Structural)]
pub enum UnitType {
    Count,
    Mass,
    Capacity,
}

/// A stored shopping item.
#[derive(Debug)]
pub struct ShoppingItem {
    pub id: i32,
    pub name: String,
    pub description: Option<String>,
    pub image_url: Option<String>,
    pub default_unit_type: UnitType,
}

/// What a [`ShoppingItem`] holds, as mathematical values.
pub struct ShoppingItemView {
    pub id: i32,
    pub name: Seq<char>,
    pub description: Option<Seq<char>>,
    pub image_url: Option<Seq<char>>,
    pub default_unit_type: UnitType,
}

impl View for ShoppingItem {
    type V = ShoppingItemView;

    open spec fn view(&self) -> ShoppingItemView {
        ShoppingItemView {
            id: self.id,
            name: self.name@,
            description: self.description.deep_view(),
            image_url: self.image_url.deep_view(),
            default_unit_type: self.default_unit_type,
        }
    }
}

impl DeepView for ShoppingItem {
    type V = ShoppingItemView;

    open spec fn deep_view(&self) -> ShoppingItemView {
        self@
    }
}

/// An item that is about to be stored: a [`ShoppingItem`] without its identifier.
#[derive(Debug)]
pub struct NewShoppingItem {
    pub name: String,
    pub description: Option<String>,
    pub image_url: Option<String>,
    pub default_unit_type: UnitType,
}

/// What a [`NewShoppingItem`] holds, as mathematical values.
pub struct NewShoppingItemView {
    pub name: Seq<char>,
    pub description: Option<Seq<char>>,
    pub image_url: Option<Seq<char>>,
    pub default_unit_type: UnitType,
}

impl View for NewShoppingItem {
    type V = NewShoppingItemView;

    open spec fn view(&self) -> NewShoppingItemView {
        NewShoppingItemView {
            name: self.name@,
            description: self.description.deep_view(),
            image_url: self.image_url.deep_view(),
            default_unit_type: self.default_unit_type,
        }
    }
}

impl DeepView for NewShoppingItem {
    type V = NewShoppingItemView;

    open spec fn deep_view(&self) -> NewShoppingItemView {
        self@
    }
}

/// The pattern that finds, by a case-blind `LIKE`, the items whose name holds `query`:
/// the query between two wildcards.
pub open spec fn search_pattern_of(query: Seq<char>) -> Seq<char> {
    "%"@ + query + "%"@
}

impl ShoppingItem {
    /// Builds the search pattern for `query`.
    pub fn search_pattern(query: &str) -> (pattern: String)
        ensures
            pattern@ == search_pattern_of(query@),
    {
        "%".to_owned().concat(query).concat("%")
    }
}

} // verus!
