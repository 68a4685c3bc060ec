//! The referential action as the schema catalog hands it over.

use vstd::prelude::*;

verus! {

/// A referential action as the schema catalog resolves it from the raw
/// attribute text, before it enters the data model.
///
/// The catalog knows the same five actions as the data model does, under the
/// same names and in the same order. A caller that holds the catalog's value
/// relabels it into this enum, one variant for one variant.
#[derive(Debug, Copy, Clone, PartialEq, Eq, Structural)]
pub enum CatalogAction {
    /// The catalog's `Cascade`.
    Cascade,
    /// The catalog's `Restrict`.
    Restrict,
    /// The catalog's `NoAction`.
    NoAction,
    /// The catalog's `SetNull`.
    SetNull,
    /// The catalog's `SetDefault`.
    SetDefault,
}

impl CatalogAction {
    /// The name under which the catalog knows the action.
    pub open spec fn name(self) -> Seq<char> {
        match self {
            CatalogAction::Cascade => "Cascade"@,
            CatalogAction::Restrict => "Restrict"@,
            CatalogAction::NoAction => "NoAction"@,
            CatalogAction::SetNull => "SetNull"@,
            CatalogAction::SetDefault => "SetDefault"@,
        }
    }

    /// The place of the action in the catalog's enumeration, counted from 0.
    pub open spec fn position(self) -> nat {
        match self {
            CatalogAction::Cascade => 0,
            CatalogAction::Restrict => 1,
            CatalogAction::NoAction => 2,
            CatalogAction::SetNull => 3,
            CatalogAction::SetDefault => 4,
        }
    }
}

} // verus!
