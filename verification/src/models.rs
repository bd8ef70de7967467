//! The two shapes of the resource: the stored record and the creation payload.

use vstd::prelude::*;

verus! {

/// A stored rustacean. Storage assigns `id` and `created_at` on insert.
#[derive(Clone, Debug, PartialEq, Eq)]
pub struct Rustacean {
    pub id: i32,
    pub name: String,
    pub email: String,
    pub created_at: String,
}

/// What a `Rustacean` holds, as mathematical values.
pub struct RustaceanView {
    pub id: int,
    pub name: Seq<char>,
    pub email: Seq<char>,
    pub created_at: Seq<char>,
}

impl View for Rustacean {
    type V = RustaceanView;

    open spec fn view(&self) -> RustaceanView {
        RustaceanView {
            id: self.id as int,
            name: self.name@,
            email: self.email@,
            created_at: self.created_at@,
        }
    }
}

/// What a client supplies to create a rustacean: neither identity nor timestamp.
#[derive(Clone, Debug, PartialEq, Eq)]
pub struct NewRustacean {
    pub name: String,
    pub email: String,
}

/// What a `NewRustacean` holds, as mathematical values.
pub struct NewRustaceanView {
    pub name: Seq<char>,
    pub email: Seq<char>,
}

impl View for NewRustacean {
    type V = NewRustaceanView;

    open spec fn view(&self) -> NewRustaceanView {
        NewRustaceanView { name: self.name@, email: self.email@ }
    }
}

/// The views of a sequence of records, in the same order.
pub open spec fn views_of(records: Seq<Rustacean>) -> Seq<RustaceanView> {
    records.map_values(|r: Rustacean| r@)
}

} // verus!
