//! Filter sets: the criteria of a query, gathered one call at a time and
//! rendered into request parameters.
//!
//! A single-valued field keeps only the value it was last set to. A
//! multi-valued field keeps every value it was given, in order, and travels
//! as their comma-joined list, which the service reads as alternatives.

use vstd::prelude::*;

use crate::text::{join_comma, join_values};

verus! {

/// A field by which a query can be narrowed.
#[derive(Clone, Copy, Debug, PartialEq, Eq, Structural)]
pub enum FilterField {
    Builds,
    Expired,
    Like,
    Name,
    Nvr,
    Packages,
    Releases,
    Search,
    Updates,
    Users,
}

/// The parameter name under which the service expects a field.
pub open spec fn field_key(f: FilterField) -> Seq<char> {
    match f {
        FilterField::Builds => "builds"@,
        FilterField::Expired => "expired"@,
        FilterField::Like => "like"@,
        FilterField::Name => "name"@,
        FilterField::Nvr => "nvr"@,
        FilterField::Packages => "packages"@,
        FilterField::Releases => "releases"@,
        FilterField::Search => "search"@,
        FilterField::Updates => "updates"@,
        FilterField::Users => "user"@,
    }
}

impl FilterField {
    /// The parameter name under which the service expects this field.
    pub fn key(&self) -> (r: String)
        ensures
            r@ == field_key(*self),
    {
        let s = match self {
            FilterField::Builds => "builds",
            FilterField::Expired => "expired",
            FilterField::Like => "like",
            FilterField::Name => "name",
            FilterField::Nvr => "nvr",
            FilterField::Packages => "packages",
            FilterField::Releases => "releases",
            FilterField::Search => "search",
            FilterField::Updates => "updates",
            FilterField::Users => "user",
        };
        String::from_str(s)
    }
}

/// The abstract content of a filter set: each constrained field with its
/// values, in the order in which the fields were first given.
pub type Entries = Seq<(FilterField, Seq<Seq<char>>)>;

/// No field occurs twice, and every field that occurs has a value.
pub open spec fn entries_wf(e: Entries) -> bool {
    &&& forall|i: int, j: int| 0 <= i < e.len() && 0 <= j < e.len() && i != j ==> e[i].0 != e[j].0
    &&& forall|i: int| 0 <= i < e.len() ==> e[i].1.len() > 0
}

/// Whether field `f` is constrained.
pub open spec fn has_field(e: Entries, f: FilterField) -> bool {
    exists|i: int| 0 <= i < e.len() && e[i].0 == f
}

/// Where field `f` stands, if it is constrained.
pub open spec fn field_index(e: Entries, f: FilterField) -> int {
    choose|i: int| 0 <= i < e.len() && e[i].0 == f
}

/// The values of field `f`; `None` means "no constraint".
pub open spec fn lookup(e: Entries, f: FilterField) -> Option<Seq<Seq<char>>> {
    if has_field(e, f) {
        Some(e[field_index(e, f)].1)
    } else {
        None
    }
}

/// `e` with field `f` set to the single value `v`, replacing what it held.
pub open spec fn with_set(e: Entries, f: FilterField, v: Seq<char>) -> Entries {
    if has_field(e, f) {
        e.update(field_index(e, f), (f, seq![v]))
    } else {
        e.push((f, seq![v]))
    }
}

/// `e` with `v` appended to the values of field `f`.
pub open spec fn with_added(e: Entries, f: FilterField, v: Seq<char>) -> Entries {
    if has_field(e, f) {
        e.update(field_index(e, f), (f, e[field_index(e, f)].1.push(v)))
    } else {
        e.push((f, seq![v]))
    }
}

/// With no field twice, the index of a field is the one place where it stands.
pub proof fn lemma_index_unique(e: Entries, f: FilterField, i: int)
    requires
        entries_wf(e),
        0 <= i < e.len(),
        e[i].0 == f,
    ensures
        has_field(e, f),
        field_index(e, f) == i,
        lookup(e, f) == Some(e[i].1),
{
}

/// Setting keeps the set well formed, makes `v` the only value of `f`, and
/// leaves every other field as it was.
pub proof fn lemma_with_set(e: Entries, f: FilterField, v: Seq<char>)
    requires
        entries_wf(e),
    ensures
        entries_wf(with_set(e, f, v)),
        lookup(with_set(e, f, v), f) == Some(seq![v]),
        forall|g: FilterField| g != f ==> lookup(with_set(e, f, v), g) == lookup(e, g),
{
    let r = with_set(e, f, v);
    if has_field(e, f) {
        let k = field_index(e, f);
        lemma_index_unique(r, f, k);
    } else {
        lemma_index_unique(r, f, e.len() as int);
    }
    assert forall|g: FilterField| g != f implies lookup(r, g) == lookup(e, g) by {
        if has_field(e, g) {
            let j = field_index(e, g);
            lemma_index_unique(r, g, j);
        } else {
            assert(!has_field(r, g));
        }
    }
}

/// Adding keeps the set well formed, appends `v` to the values of `f`, and
/// leaves every other field as it was.
pub proof fn lemma_with_added(e: Entries, f: FilterField, v: Seq<char>)
    requires
        entries_wf(e),
    ensures
        entries_wf(with_added(e, f, v)),
        lookup(with_added(e, f, v), f) == Some(
            match lookup(e, f) {
                Some(vs) => vs.push(v),
                None => seq![v],
            },
        ),
        forall|g: FilterField| g != f ==> lookup(with_added(e, f, v), g) == lookup(e, g),
{
    let r = with_added(e, f, v);
    if has_field(e, f) {
        let k = field_index(e, f);
        lemma_index_unique(r, f, k);
    } else {
        lemma_index_unique(r, f, e.len() as int);
    }
    assert forall|g: FilterField| g != f implies lookup(r, g) == lookup(e, g) by {
        if has_field(e, g) {
            let j = field_index(e, g);
            lemma_index_unique(r, g, j);
        } else {
            assert(!has_field(r, g));
        }
    }
}

/// Setting a single-valued field twice keeps only the second value.
pub proof fn lemma_set_twice_keeps_last(e: Entries, f: FilterField, v1: Seq<char>, v2: Seq<char>)
    requires
        entries_wf(e),
    ensures
        lookup(with_set(with_set(e, f, v1), f, v2), f) == Some(seq![v2]),
        join_comma(seq![v2]) == v2,
{
    lemma_with_set(e, f, v1);
    lemma_with_set(with_set(e, f, v1), f, v2);
}

/// Adding three values to a multi-valued field that had none keeps all three
/// in order, and renders them as their comma-joined list.
pub proof fn lemma_add_three_joins(e: Entries, f: FilterField, a: Seq<char>, b: Seq<char>, c: Seq<char>)
    requires
        entries_wf(e),
        lookup(e, f) is None,
    ensures
        lookup(with_added(with_added(with_added(e, f, a), f, b), f, c), f) == Some(seq![a, b, c]),
        join_comma(seq![a, b, c]) == a + seq![','] + b + seq![','] + c,
{
    let e1 = with_added(e, f, a);
    let e2 = with_added(e1, f, b);
    lemma_with_added(e, f, a);
    lemma_with_added(e1, f, b);
    lemma_with_added(e2, f, c);
    assert(seq![a].push(b) =~= seq![a, b]);
    assert(seq![a, b].push(c) =~= seq![a, b, c]);
    let s3 = seq![a, b, c];
    assert(s3.drop_last() =~= seq![a, b]);
    assert(seq![a, b].drop_last() =~= seq![a]);
    assert(join_comma(seq![a]) == a);
    assert(seq![a, b].last() == b);
    assert(s3.last() == c);
    assert(join_comma(seq![a, b]) == a + seq![','] + b);
    assert(join_comma(s3) == join_comma(seq![a, b]) + seq![','] + c);
}

/// One constrained field and its values, in the order given.
#[derive(Clone, Debug)]
pub struct Filter {
    pub field: FilterField,
    pub values: Vec<String>,
}

/// The criteria of one query. It starts empty, which means "no constraint".
#[derive(Clone, Debug)]
pub struct FilterSet {
    filters: Vec<Filter>,
}

impl FilterSet {
    /// What this set holds.
    pub closed spec fn entries(&self) -> Entries {
        self.filters@.map_values(|f: Filter| (f.field, f.values.deep_view()))
    }

    pub open spec fn wf(&self) -> bool {
        entries_wf(self.entries())
    }

    /// The values of field `f`; `None` means "no constraint".
    pub open spec fn get(&self, f: FilterField) -> Option<Seq<Seq<char>>> {
        lookup(self.entries(), f)
    }

    /// A set with no field constrained.
    pub fn new() -> (r: FilterSet)
        ensures
            r.wf(),
            r.entries() == Seq::<(FilterField, Seq<Seq<char>>)>::empty(),
    {
        let r = FilterSet { filters: Vec::new() };
        assert(r.entries() =~= Seq::<(FilterField, Seq<Seq<char>>)>::empty());
        r
    }

    /// Where field `f` stands, if it is constrained.
    fn position(&self, f: FilterField) -> (r: Option<usize>)
        requires
            self.wf(),
        ensures
            match r {
                Some(i) => i < self.entries().len() && has_field(self.entries(), f)
                    && field_index(self.entries(), f) == i,
                None => !has_field(self.entries(), f),
            },
    {
        let n = self.filters.len();
        let mut i: usize = 0;
        while i < n
            invariant
                n == self.filters.len(),
                self.wf(),
                i <= n,
                forall|j: int| 0 <= j < i ==> self.entries()[j].0 != f,
            decreases n - i,
        {
            if self.filters[i].field == f {
                proof {
                    lemma_index_unique(self.entries(), f, i as int);
                }
                return Some(i);
            }
            i = i + 1;
        }
        None
    }

    /// Sets the single-valued field `f` to `v`, replacing any earlier value.
    pub fn set(self, f: FilterField, v: String) -> (r: FilterSet)
        requires
            self.wf(),
        ensures
            r.wf(),
            r.entries() == with_set(self.entries(), f, v@),
            r.get(f) == Some(seq![v@]),
            forall|g: FilterField| g != f ==> r.get(g) == self.get(g),
    {
        let ghost e = self.entries();
        let ghost v_view = v@;
        let pos = self.position(f);
        let mut filters = self.filters;
        let fresh = Filter { field: f, values: vec![v] };
        assert(fresh.values.deep_view() =~= seq![v_view]);
        match pos {
            Some(i) => {
                filters.set(i, fresh);
            },
            None => {
                filters.push(fresh);
            },
        }
        let r = FilterSet { filters };
        assert(r.entries() =~= with_set(e, f, v_view));
        proof {
            lemma_with_set(e, f, v_view);
        }
        r
    }

    /// Appends `v` to the values of the multi-valued field `f`.
    pub fn add(self, f: FilterField, v: String) -> (r: FilterSet)
        requires
            self.wf(),
        ensures
            r.wf(),
            r.entries() == with_added(self.entries(), f, v@),
            r.get(f) == Some(
                match self.get(f) {
                    Some(vs) => vs.push(v@),
                    None => seq![v@],
                },
            ),
            forall|g: FilterField| g != f ==> r.get(g) == self.get(g),
    {
        let ghost e = self.entries();
        let ghost v_view = v@;
        let pos = self.position(f);
        let mut filters = self.filters;
        match pos {
            Some(i) => {
                let mut old_filter = filters.remove(i);
                let ghost before = old_filter.values.deep_view();
                old_filter.values.push(v);
                assert(old_filter.values.deep_view() =~= before.push(v_view));
                filters.insert(i, old_filter);
            },
            None => {
                let fresh = Filter { field: f, values: vec![v] };
                assert(fresh.values.deep_view() =~= seq![v_view]);
                filters.push(fresh);
            },
        }
        let r = FilterSet { filters };
        assert(r.entries() =~= with_added(e, f, v_view));
        proof {
            lemma_with_added(e, f, v_view);
        }
        r
    }

    /// The request parameters that this set stands for: one pair per
    /// constrained field, its parameter name and its values joined by commas.
    pub fn render(&self) -> (r: Vec<(String, String)>)
        ensures
            r@.len() == self.entries().len(),
            forall|i: int|
                0 <= i < r@.len() ==> r@[i].0@ == field_key(#[trigger] self.entries()[i].0)
                    && r@[i].1@ == join_comma(self.entries()[i].1),
    {
        let mut out: Vec<(String, String)> = Vec::new();
        let n = self.filters.len();
        let mut i: usize = 0;
        while i < n
            invariant
                n == self.filters.len(),
                i <= n,
                out@.len() == i,
                forall|j: int|
                    0 <= j < i ==> out@[j].0@ == field_key(#[trigger] self.entries()[j].0)
                        && out@[j].1@ == join_comma(self.entries()[j].1),
            decreases n - i,
        {
            let key = self.filters[i].field.key();
            let value = join_values(&self.filters[i].values);
            out.push((key, value));
            i = i + 1;
        }
        out
    }
}

} // verus!
