//! The referential actions a relation can carry, and their canonical names.

use crate::catalog::CatalogAction;
use vstd::prelude::*;
use vstd::std_specs::convert::FromSpec;

verus! {

/// Describes what happens to dependent records when the record they refer to
/// is deleted or updated.
#[derive(Debug, Copy, Clone, PartialEq, Eq, Structural)]
pub enum ReferentialAction {
    /// Propagates the delete or update to the dependent records.
    Cascade,
    /// Rejects the operation while dependent records exist.
    Restrict,
    /// Leaves the check to the database, which may defer it to the end of the
    /// transaction. Kept apart from `Restrict` even where an enforcement mode
    /// treats the two alike.
    NoAction,
    /// Sets the relation scalar fields of the dependent records to null.
    SetNull,
    /// Resets the relation scalar fields of the dependent records to their
    /// declared defaults.
    SetDefault,
}

/// The five literals that stand for a referential action in text.
pub open spec fn canonical_names() -> Set<Seq<char>> {
    set!["Cascade"@, "Restrict"@, "NoAction"@, "SetNull"@, "SetDefault"@]
}

impl ReferentialAction {
    /// The canonical name of the action: the one literal that stands for it
    /// wherever the action is rendered as text.
    pub open spec fn name(self) -> Seq<char> {
        match self {
            ReferentialAction::Cascade => "Cascade"@,
            ReferentialAction::Restrict => "Restrict"@,
            ReferentialAction::NoAction => "NoAction"@,
            ReferentialAction::SetNull => "SetNull"@,
            ReferentialAction::SetDefault => "SetDefault"@,
        }
    }

    /// The place of the action in the enumeration, counted from 0.
    pub open spec fn position(self) -> nat {
        match self {
            ReferentialAction::Cascade => 0,
            ReferentialAction::Restrict => 1,
            ReferentialAction::NoAction => 2,
            ReferentialAction::SetNull => 3,
            ReferentialAction::SetDefault => 4,
        }
    }

    /// The canonical name of the action, as a string that outlives the value.
    pub fn as_str(self) -> (s: &'static str)
        ensures
            s@ == self.name(),
    {
        match self {
            ReferentialAction::Cascade => "Cascade",
            ReferentialAction::Restrict => "Restrict",
            ReferentialAction::NoAction => "NoAction",
            ReferentialAction::SetNull => "SetNull",
            ReferentialAction::SetDefault => "SetDefault",
        }
    }

    /// Renders the action for display. The text is the canonical name, the
    /// same that `as_ref` hands out.
    pub fn to_string(&self) -> (s: String)
        ensures
            s@ == self.name(),
    {
        self.as_str().to_owned()
    }
}

impl AsRef<str> for ReferentialAction {
    /// The canonical name of the action as a string slice.
    fn as_ref(&self) -> (s: &'static str)
        ensures
            s@ == self.name(),
    {
        self.as_str()
    }
}

impl From<CatalogAction> for ReferentialAction {
    /// Takes an action over from the catalog. Every catalog action has its
    /// counterpart, so the match needs no fallback arm.
    fn from(action: CatalogAction) -> (r: ReferentialAction) {
        match action {
            CatalogAction::Cascade => ReferentialAction::Cascade,
            CatalogAction::SetNull => ReferentialAction::SetNull,
            CatalogAction::SetDefault => ReferentialAction::SetDefault,
            CatalogAction::Restrict => ReferentialAction::Restrict,
            CatalogAction::NoAction => ReferentialAction::NoAction,
        }
    }
}

impl vstd::std_specs::convert::FromSpecImpl<CatalogAction> for ReferentialAction {
    open spec fn obeys_from_spec() -> bool {
        true
    }

    open spec fn from_spec(action: CatalogAction) -> ReferentialAction {
        match action {
            CatalogAction::Cascade => ReferentialAction::Cascade,
            CatalogAction::Restrict => ReferentialAction::Restrict,
            CatalogAction::NoAction => ReferentialAction::NoAction,
            CatalogAction::SetNull => ReferentialAction::SetNull,
            CatalogAction::SetDefault => ReferentialAction::SetDefault,
        }
    }
}

/// Every action has one of the five canonical names, no two actions share a
/// name, and each of the five names belongs to an action.
pub proof fn lemma_names_are_one_to_one(a: ReferentialAction, b: ReferentialAction, s: Seq<char>)
    ensures
        canonical_names().contains(a.name()),
        a.name() == b.name() <==> a == b,
        canonical_names().contains(s) <==> exists|c: ReferentialAction| c.name() == s,
{
    reveal_strlit("Cascade");
    reveal_strlit("Restrict");
    reveal_strlit("NoAction");
    reveal_strlit("SetNull");
    reveal_strlit("SetDefault");
    if a != b {
        assert(a.name().len() != b.name().len() || a.name()[0] != b.name()[0]);
    }
    if canonical_names().contains(s) {
        let c = if s == "Cascade"@ {
            ReferentialAction::Cascade
        } else if s == "Restrict"@ {
            ReferentialAction::Restrict
        } else if s == "NoAction"@ {
            ReferentialAction::NoAction
        } else if s == "SetNull"@ {
            ReferentialAction::SetNull
        } else {
            ReferentialAction::SetDefault
        };
        assert(c.name() == s);
    }
}

/// Taking an action over from the catalog keeps its name and its place in the
/// enumeration; two catalog actions give the same action only if they are the
/// same; and every action comes from a catalog action.
pub proof fn lemma_from_catalog_relabels(c: CatalogAction, d: CatalogAction, a: ReferentialAction)
    ensures
        ReferentialAction::from_spec(c).name() == c.name(),
        ReferentialAction::from_spec(c).position() == c.position(),
        ReferentialAction::from_spec(c) == ReferentialAction::from_spec(d) <==> c == d,
        c.position() < d.position() <==> ReferentialAction::from_spec(c).position()
            < ReferentialAction::from_spec(d).position(),
        exists|e: CatalogAction| ReferentialAction::from_spec(e) == a,
{
    let e = match a {
        ReferentialAction::Cascade => CatalogAction::Cascade,
        ReferentialAction::Restrict => CatalogAction::Restrict,
        ReferentialAction::NoAction => CatalogAction::NoAction,
        ReferentialAction::SetNull => CatalogAction::SetNull,
        ReferentialAction::SetDefault => CatalogAction::SetDefault,
    };
    assert(ReferentialAction::from_spec(e) == a);
}

} // verus!
