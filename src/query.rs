//! The queries that the service answers: builds, buildroot overrides and
//! packages, each either by one name (a single-object lookup) or by a set of
//! criteria (a list query, spread over pages).
//!
//! Criteria are given one call at a time, each call yielding the updated
//! query. Single-valued criteria keep the value last given; multi-valued ones
//! keep all, and the service returns what matches any of them.

use vstd::prelude::*;
use vstd::string::*;

use crate::data::{release_name, FedoraRelease};
use crate::filters::{with_added, with_set, FilterField, FilterSet};
use crate::paginate::{PageRequest, Paginator, DEFAULT_ROWS, MAX_PAGES};

verus! {

/// The word with which a flag travels as a parameter.
pub open spec fn bool_word(b: bool) -> Seq<char> {
    if b {
        "true"@
    } else {
        "false"@
    }
}

fn bool_string(b: bool) -> (r: String)
    ensures
        r@ == bool_word(b),
{
    if b {
        String::from_str("true")
    } else {
        String::from_str("false")
    }
}

/// A request for the object at `prefix` followed by `name`, with no parameters.
fn object_request(prefix: &str, name: &String) -> (r: PageRequest)
    ensures
        r.path@ == prefix@ + name@,
        r.args@.len() == 0,
{
    let path = String::from_str(prefix).concat(name.as_str());
    PageRequest { path, args: Vec::new() }
}

/// A lookup of one build by its name-version-release string. The answer is
/// the build, or the absent result where no such build exists.
#[derive(Debug)]
pub struct BuildNVRQuery {
    nvr: String,
}

impl BuildNVRQuery {
    /// The build's name-version-release string.
    pub closed spec fn nvr(&self) -> Seq<char> {
        self.nvr@
    }

    /// A lookup of the build `nvr`.
    pub fn new(nvr: String) -> (r: BuildNVRQuery)
        ensures
            r.nvr() == nvr@,
    {
        BuildNVRQuery { nvr }
    }

    /// The one request that this lookup makes: the build's own path.
    pub fn request(&self) -> (r: PageRequest)
        ensures
            r.path@ == "/builds/"@ + self.nvr(),
            r.args@.len() == 0,
    {
        object_request("/builds/", &self.nvr)
    }
}

/// A list query for builds, by release, package, update or name.
#[derive(Debug)]
pub struct BuildQuery {
    filters: FilterSet,
}

impl BuildQuery {
    /// The criteria given so far.
    pub closed spec fn filters(&self) -> FilterSet {
        self.filters
    }

    /// A query with no criteria.
    pub fn new() -> (r: BuildQuery)
        ensures
            r.filters().wf(),
            r.filters().entries() == Seq::<(FilterField, Seq<Seq<char>>)>::empty(),
    {
        BuildQuery { filters: FilterSet::new() }
    }

    /// Keeps only the build with this name-version-release string.
    pub fn nvr(self, nvr: String) -> (r: BuildQuery)
        requires
            self.filters().wf(),
        ensures
            r.filters().wf(),
            r.filters().entries() == with_set(self.filters().entries(), FilterField::Nvr, nvr@),
    {
        BuildQuery { filters: self.filters.set(FilterField::Nvr, nvr) }
    }

    /// Adds a package whose builds are wanted.
    pub fn packages(self, package: String) -> (r: BuildQuery)
        requires
            self.filters().wf(),
        ensures
            r.filters().wf(),
            r.filters().entries() == with_added(self.filters().entries(), FilterField::Packages, package@),
    {
        BuildQuery { filters: self.filters.add(FilterField::Packages, package) }
    }

    /// Adds a release whose builds are wanted.
    pub fn releases(self, release: FedoraRelease) -> (r: BuildQuery)
        requires
            self.filters().wf(),
        ensures
            r.filters().wf(),
            r.filters().entries() == with_added(
                self.filters().entries(),
                FilterField::Releases,
                release_name(release),
            ),
    {
        BuildQuery { filters: self.filters.add(FilterField::Releases, release.name()) }
    }

    /// Adds an update whose builds are wanted.
    pub fn updates(self, update: String) -> (r: BuildQuery)
        requires
            self.filters().wf(),
        ensures
            r.filters().wf(),
            r.filters().entries() == with_added(self.filters().entries(), FilterField::Updates, update@),
    {
        BuildQuery { filters: self.filters.add(FilterField::Updates, update) }
    }

    /// Starts the query: a paginator over the builds list with these criteria.
    pub fn query<T>(self) -> (r: Paginator<T>)
        requires
            self.filters().wf(),
        ensures
            r.wf(),
            r.path() == "/builds/"@,
            r.filters() == self.filters(),
            r.fetched() == Seq::<Seq<T>>::empty(),
            r.next_page() == 1,
            r.rows_per_page() == DEFAULT_ROWS,
            r.max_pages() == MAX_PAGES,
    {
        Paginator::new(String::from_str("/builds/"), self.filters, DEFAULT_ROWS, MAX_PAGES)
    }
}

/// A lookup of the buildroot override of one build, by the build's
/// name-version-release string. The answer is the override, or the absent
/// result where there is none.
#[derive(Debug)]
pub struct OverrideNVRQuery {
    nvr: String,
}

impl OverrideNVRQuery {
    /// The build's name-version-release string.
    pub closed spec fn nvr(&self) -> Seq<char> {
        self.nvr@
    }

    /// A lookup of the override of build `nvr`.
    pub fn new(nvr: String) -> (r: OverrideNVRQuery)
        ensures
            r.nvr() == nvr@,
    {
        OverrideNVRQuery { nvr }
    }

    /// The one request that this lookup makes: the override's own path.
    pub fn request(&self) -> (r: PageRequest)
        ensures
            r.path@ == "/overrides/"@ + self.nvr(),
            r.args@.len() == 0,
    {
        object_request("/overrides/", &self.nvr)
    }
}

/// A list query for buildroot overrides.
#[derive(Debug)]
pub struct OverrideQuery {
    filters: FilterSet,
}

impl OverrideQuery {
    /// The criteria given so far.
    pub closed spec fn filters(&self) -> FilterSet {
        self.filters
    }

    /// A query with no criteria.
    pub fn new() -> (r: OverrideQuery)
        ensures
            r.filters().wf(),
            r.filters().entries() == Seq::<(FilterField, Seq<Seq<char>>)>::empty(),
    {
        OverrideQuery { filters: FilterSet::new() }
    }

    /// Adds a build whose overrides are wanted.
    pub fn builds(self, build: String) -> (r: OverrideQuery)
        requires
            self.filters().wf(),
        ensures
            r.filters().wf(),
            r.filters().entries() == with_added(self.filters().entries(), FilterField::Builds, build@),
    {
        OverrideQuery { filters: self.filters.add(FilterField::Builds, build) }
    }

    /// Keeps only expired overrides, or only those not expired.
    pub fn expired(self, expired: bool) -> (r: OverrideQuery)
        requires
            self.filters().wf(),
        ensures
            r.filters().wf(),
            r.filters().entries() == with_set(
                self.filters().entries(),
                FilterField::Expired,
                bool_word(expired),
            ),
    {
        OverrideQuery { filters: self.filters.set(FilterField::Expired, bool_string(expired)) }
    }

    /// Keeps overrides *like* the pattern, in the SQL sense.
    pub fn like(self, like: String) -> (r: OverrideQuery)
        requires
            self.filters().wf(),
        ensures
            r.filters().wf(),
            r.filters().entries() == with_set(self.filters().entries(), FilterField::Like, like@),
    {
        OverrideQuery { filters: self.filters.set(FilterField::Like, like) }
    }

    /// Adds a package whose overrides are wanted.
    pub fn packages(self, package: String) -> (r: OverrideQuery)
        requires
            self.filters().wf(),
        ensures
            r.filters().wf(),
            r.filters().entries() == with_added(self.filters().entries(), FilterField::Packages, package@),
    {
        OverrideQuery { filters: self.filters.add(FilterField::Packages, package) }
    }

    /// Adds a release whose overrides are wanted.
    pub fn releases(self, release: FedoraRelease) -> (r: OverrideQuery)
        requires
            self.filters().wf(),
        ensures
            r.filters().wf(),
            r.filters().entries() == with_added(
                self.filters().entries(),
                FilterField::Releases,
                release_name(release),
            ),
    {
        OverrideQuery { filters: self.filters.add(FilterField::Releases, release.name()) }
    }

    /// Keeps overrides that contain the search string.
    pub fn search(self, search: String) -> (r: OverrideQuery)
        requires
            self.filters().wf(),
        ensures
            r.filters().wf(),
            r.filters().entries() == with_set(self.filters().entries(), FilterField::Search, search@),
    {
        OverrideQuery { filters: self.filters.set(FilterField::Search, search) }
    }

    /// Adds a user whose overrides are wanted.
    pub fn users(self, user: String) -> (r: OverrideQuery)
        requires
            self.filters().wf(),
        ensures
            r.filters().wf(),
            r.filters().entries() == with_added(self.filters().entries(), FilterField::Users, user@),
    {
        OverrideQuery { filters: self.filters.add(FilterField::Users, user) }
    }

    /// Starts the query: a paginator over the overrides list with these criteria.
    pub fn query<T>(self) -> (r: Paginator<T>)
        requires
            self.filters().wf(),
        ensures
            r.wf(),
            r.path() == "/overrides/"@,
            r.filters() == self.filters(),
            r.fetched() == Seq::<Seq<T>>::empty(),
            r.next_page() == 1,
            r.rows_per_page() == DEFAULT_ROWS,
            r.max_pages() == MAX_PAGES,
    {
        Paginator::new(String::from_str("/overrides/"), self.filters, DEFAULT_ROWS, MAX_PAGES)
    }
}

/// A list query for packages.
#[derive(Debug)]
pub struct PackageQuery {
    filters: FilterSet,
}

impl PackageQuery {
    /// The criteria given so far.
    pub closed spec fn filters(&self) -> FilterSet {
        self.filters
    }

    /// A query with no criteria.
    pub fn new() -> (r: PackageQuery)
        ensures
            r.filters().wf(),
            r.filters().entries() == Seq::<(FilterField, Seq<Seq<char>>)>::empty(),
    {
        PackageQuery { filters: FilterSet::new() }
    }

    /// Keeps packages *like* the pattern, in the SQL sense.
    pub fn like(self, like: String) -> (r: PackageQuery)
        requires
            self.filters().wf(),
        ensures
            r.filters().wf(),
            r.filters().entries() == with_set(self.filters().entries(), FilterField::Like, like@),
    {
        PackageQuery { filters: self.filters.set(FilterField::Like, like) }
    }

    /// Keeps the package with this name.
    pub fn name(self, name: String) -> (r: PackageQuery)
        requires
            self.filters().wf(),
        ensures
            r.filters().wf(),
            r.filters().entries() == with_set(self.filters().entries(), FilterField::Name, name@),
    {
        PackageQuery { filters: self.filters.set(FilterField::Name, name) }
    }

    /// Keeps packages that contain the search string.
    pub fn search(self, search: String) -> (r: PackageQuery)
        requires
            self.filters().wf(),
        ensures
            r.filters().wf(),
            r.filters().entries() == with_set(self.filters().entries(), FilterField::Search, search@),
    {
        PackageQuery { filters: self.filters.set(FilterField::Search, search) }
    }

    /// Starts the query: a paginator over the packages list with these criteria.
    pub fn query<T>(self) -> (r: Paginator<T>)
        requires
            self.filters().wf(),
        ensures
            r.wf(),
            r.path() == "/packages/"@,
            r.filters() == self.filters(),
            r.fetched() == Seq::<Seq<T>>::empty(),
            r.next_page() == 1,
            r.rows_per_page() == DEFAULT_ROWS,
            r.max_pages() == MAX_PAGES,
    {
        Paginator::new(String::from_str("/packages/"), self.filters, DEFAULT_ROWS, MAX_PAGES)
    }
}

} // verus!
