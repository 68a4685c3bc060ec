//! The description of one relation field.

pub use crate::referential_action::ReferentialAction;
use vstd::prelude::*;
use vstd::std_specs::cmp::PartialEqSpec;

verus! {

/// Holds information about a relation field.
///
/// The record is passive: it is filled field by field while a schema is
/// analysed and only read afterwards. It checks nothing by itself; what a
/// finished record has to satisfy is `RelationInfoView::well_formed`.
#[derive(Debug)]
pub struct RelationInfo {
    /// The target model of the relation.
    pub referenced_model: String,
    /// The fields forming the relation, on the side that owns the foreign key.
    pub fields: Vec<String>,
    /// The fields of the target model that `fields` point to, position by
    /// position.
    pub references: Vec<String>,
    /// The name of the relation. An empty string signals no name.
    pub name: String,
    /// The name of the foreign key constraint, if one was given.
    pub fk_name: Option<String>,
    /// What happens when the referenced record is deleted. `None` leaves it
    /// to the default for this kind of relation.
    pub on_delete: Option<ReferentialAction>,
    /// What happens when the referenced scalar fields are updated. `None`
    /// leaves it to the default for this kind of relation.
    pub on_update: Option<ReferentialAction>,
}

/// What a `RelationInfo` holds, with every string as its sequence of
/// characters.
pub struct RelationInfoView {
    /// The name of the target model.
    pub referenced_model: Seq<char>,
    /// The names of the fields forming the relation, in their order.
    pub fields: Seq<Seq<char>>,
    /// The names of the referenced fields, in their order.
    pub references: Seq<Seq<char>>,
    /// The name of the relation; empty where it has none.
    pub name: Seq<char>,
    /// The name of the foreign key constraint, if one was given.
    pub fk_name: Option<Seq<char>>,
    /// The action on delete, if one was set.
    pub on_delete: Option<ReferentialAction>,
    /// The action on update, if one was set.
    pub on_update: Option<ReferentialAction>,
}

impl RelationInfoView {
    /// The record that names a target model and nothing else.
    pub open spec fn fresh(model: Seq<char>) -> RelationInfoView {
        RelationInfoView {
            referenced_model: model,
            fields: Seq::empty(),
            references: Seq::empty(),
            name: Seq::empty(),
            fk_name: None,
            on_delete: None,
            on_update: None,
        }
    }

    /// What holds of a record once it is complete: it names its target model,
    /// and every field has its reference at the same position.
    pub open spec fn well_formed(self) -> bool {
        &&& self.referenced_model.len() > 0
        &&& self.fields.len() == self.references.len()
    }

    /// Whether the relation was given no name.
    pub open spec fn is_unnamed(self) -> bool {
        self.name.len() == 0
    }
}

impl View for RelationInfo {
    type V = RelationInfoView;

    open spec fn view(&self) -> RelationInfoView {
        RelationInfoView {
            referenced_model: self.referenced_model@,
            fields: self.fields.deep_view(),
            references: self.references.deep_view(),
            name: self.name@,
            fk_name: self.fk_name.deep_view(),
            on_delete: self.on_delete,
            on_update: self.on_update,
        }
    }
}

impl RelationInfo {
    /// Creates a new relation info for the given target model: no fields, no
    /// references, no name, no constraint name and no referential actions.
    pub fn new(model: &str) -> (info: RelationInfo)
        ensures
            info@ == RelationInfoView::fresh(model@),
            info@.is_unnamed(),
            info@.well_formed() <==> model@.len() > 0,
    {
        let info = RelationInfo {
            referenced_model: model.to_owned(),
            fields: Vec::new(),
            references: Vec::new(),
            name: String::new(),
            fk_name: None,
            on_delete: None,
            on_update: None,
        };
        assert(info.fields.deep_view() =~= Seq::empty());
        assert(info.references.deep_view() =~= Seq::empty());
        info
    }
}

/// Whether two lists hold the same strings in the same order.
fn same_strings(a: &Vec<String>, b: &Vec<String>) -> (same: bool)
    ensures
        same == (a.deep_view() == b.deep_view()),
{
    if a.len() != b.len() {
        assert(a.deep_view().len() != b.deep_view().len());
        return false;
    }
    let mut i: usize = 0;
    while i < a.len()
        invariant
            a.len() == b.len(),
            i <= a.len(),
            forall|k: int| 0 <= k < i ==> a[k]@ == b[k]@,
        decreases a.len() - i,
    {
        if !(a[i] == b[i]) {
            assert(a.deep_view()[i as int] != b.deep_view()[i as int]);
            return false;
        }
        i += 1;
    }
    assert(a.deep_view() =~= b.deep_view());
    true
}

/// Whether two optional strings are both absent or hold the same text.
fn same_optional_string(a: &Option<String>, b: &Option<String>) -> (same: bool)
    ensures
        same == (a.deep_view() == b.deep_view()),
{
    match (a, b) {
        (None, None) => true,
        (Some(x), Some(y)) => *x == *y,
        _ => false,
    }
}

impl PartialEq for RelationInfo {
    /// Two records are equal when every attribute is, the order of `fields`
    /// and of `references` included.
    fn eq(&self, other: &RelationInfo) -> (equal: bool) {
        self.referenced_model == other.referenced_model
            && same_strings(&self.fields, &other.fields)
            && same_strings(&self.references, &other.references)
            && self.name == other.name
            && same_optional_string(&self.fk_name, &other.fk_name)
            && self.on_delete == other.on_delete
            && self.on_update == other.on_update
    }
}

impl vstd::std_specs::cmp::PartialEqSpecImpl for RelationInfo {
    open spec fn obeys_eq_spec() -> bool {
        true
    }

    open spec fn eq_spec(&self, other: &RelationInfo) -> bool {
        self@ == other@
    }
}

impl Clone for RelationInfo {
    /// The clone holds what the record holds, attribute by attribute.
    fn clone(&self) -> (copy: RelationInfo)
        ensures
            copy@ == self@,
    {
        RelationInfo {
            referenced_model: self.referenced_model.clone(),
            fields: self.fields.clone(),
            references: self.references.clone(),
            name: self.name.clone(),
            fk_name: self.fk_name.clone(),
            on_delete: self.on_delete,
            on_update: self.on_update,
        }
    }
}

/// The list `s` with the entries at `i` and `j` exchanged.
pub open spec fn exchanged(s: Seq<Seq<char>>, i: int, j: int) -> Seq<Seq<char>> {
    s.update(i, s[j]).update(j, s[i])
}

/// Equality is structural: two records are equal exactly when they agree in
/// every attribute, and `fields` and `references` agree only if they have the
/// same length and the same entry at every position.
pub proof fn lemma_eq_is_structural(a: RelationInfo, b: RelationInfo)
    ensures
        a.eq_spec(&b) <==> {
            &&& a@.referenced_model == b@.referenced_model
            &&& a@.fields == b@.fields
            &&& a@.references == b@.references
            &&& a@.name == b@.name
            &&& a@.fk_name == b@.fk_name
            &&& a@.on_delete == b@.on_delete
            &&& a@.on_update == b@.on_update
        },
        a@.fields == b@.fields <==> {
            &&& a@.fields.len() == b@.fields.len()
            &&& forall|i: int| 0 <= i < a@.fields.len() ==> a@.fields[i] == b@.fields[i]
        },
        a@.references == b@.references <==> {
            &&& a@.references.len() == b@.references.len()
            &&& forall|i: int|
                0 <= i < a@.references.len() ==> a@.references[i] == b@.references[i]
        },
{
    if a@.fields.len() == b@.fields.len() && forall|i: int|
        0 <= i < a@.fields.len() ==> a@.fields[i] == b@.fields[i] {
        assert(a@.fields =~= b@.fields);
    }
    if a@.references.len() == b@.references.len() && forall|i: int|
        0 <= i < a@.references.len() ==> a@.references[i] == b@.references[i] {
        assert(a@.references =~= b@.references);
    }
}

/// Equality is reflexive, symmetric and transitive.
pub proof fn lemma_eq_is_an_equivalence(a: RelationInfo, b: RelationInfo, c: RelationInfo)
    ensures
        a.eq_spec(&a),
        a.eq_spec(&b) ==> b.eq_spec(&a),
        a.eq_spec(&b) && b.eq_spec(&c) ==> a.eq_spec(&c),
{
}

/// The order of the entries counts: a record whose `fields`, or whose
/// `references`, are those of another with two different entries exchanged is
/// not equal to it, whatever its other attributes hold.
pub proof fn lemma_order_counts(a: RelationInfo, b: RelationInfo, i: int, j: int)
    requires
        ({
            ||| {
                &&& 0 <= i < j < a@.fields.len()
                &&& a@.fields[i] != a@.fields[j]
                &&& b@.fields == exchanged(a@.fields, i, j)
            }
            ||| {
                &&& 0 <= i < j < a@.references.len()
                &&& a@.references[i] != a@.references[j]
                &&& b@.references == exchanged(a@.references, i, j)
            }
        }),
    ensures
        !a.eq_spec(&b),
{
}

} // verus!
