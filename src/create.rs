//! Creating an update: the builder that gathers what the new update should
//! be, and the protocol that submits it.
//!
//! The protocol runs strictly in order and stops at the first failure:
//! 1. the local rules are checked, before anything is sent;
//! 2. a fresh anti-forgery token is fetched (a retried GET);
//! 3. the update, with that token, is posted once;
//! 4. the reply is read: the new update, or the service's rejection.

use vstd::prelude::*;
use vstd::string::*;

use std::collections::HashMap;

use crate::data::{UpdateRequest, UpdateSeverity, UpdateSuggestion, UpdateType};
use crate::error::{QueryError, ValidationError};
use crate::fetch::{general_outcome, outcome_of, Outcome, Reply};
use crate::paginate::PageRequest;
use crate::text::{decimal, decimal_string};

verus! {

/// What the service hands back for a new update.
#[derive(Debug)]
pub struct NewUpdate<U> {
    /// the newly created update
    pub update: U,
    /// further messages from the service
    pub caveats: Vec<HashMap<String, String>>,
}

/// What a new update is made from.
#[derive(Debug)]
pub enum UpdateSource<'a> {
    /// a list of builds, by name-version-release
    Builds { builds: &'a [&'a str] },
    /// every build of a side tag
    Tag { tag: &'a str },
}

/// Everything that a new update is made of. The source and the notes are
/// required; every other setting may be left unset, for the service to choose.
#[derive(Debug)]
pub struct UpdateBuilder<'a> {
    pub source: UpdateSource<'a>,
    pub notes: &'a str,
    pub bugs: Option<Vec<u32>>,
    pub display_name: Option<String>,
    pub close_bugs: Option<bool>,
    pub update_type: Option<UpdateType>,
    pub request: Option<UpdateRequest>,
    pub severity: Option<UpdateSeverity>,
    pub autokarma: Option<bool>,
    pub stable_karma: Option<i32>,
    pub unstable_karma: Option<i32>,
    pub suggest: Option<UpdateSuggestion>,
    pub requirements: Option<String>,
    pub require_bugs: Option<bool>,
    pub require_testcases: Option<bool>,
    pub autotime: Option<bool>,
    pub stable_days: Option<u32>,
}

/// Whether every optional setting of `b` is unset.
pub open spec fn all_unset(b: UpdateBuilder) -> bool {
    &&& b.bugs is None
    &&& b.display_name is None
    &&& b.close_bugs is None
    &&& b.update_type is None
    &&& b.request is None
    &&& b.severity is None
    &&& b.autokarma is None
    &&& b.stable_karma is None
    &&& b.unstable_karma is None
    &&& b.suggest is None
    &&& b.requirements is None
    &&& b.require_bugs is None
    &&& b.require_testcases is None
    &&& b.autotime is None
    &&& b.stable_days is None
}

/// The first local rule that `b` breaks, if any: the stable karma threshold
/// must be positive, the unstable one negative, and a security update needs a
/// severity other than "unspecified".
pub open spec fn validation_error(b: UpdateBuilder) -> Option<ValidationError> {
    if b.stable_karma matches Some(k) && k < 1 {
        Some(ValidationError::StableKarmaNotPositive)
    } else if b.unstable_karma matches Some(k) && k > -1 {
        Some(ValidationError::UnstableKarmaNotNegative)
    } else if b.update_type == Some(UpdateType::Security) && (b.severity is None || b.severity == Some(
        UpdateSeverity::Unspecified,
    )) {
        Some(ValidationError::SecuritySeverityMissing)
    } else {
        None
    }
}

/// The local rules, one by one: a stable karma threshold of zero or below,
/// an unstable one of zero or above, and a security update whose severity is
/// missing or "unspecified" are each rejected.
pub proof fn lemma_local_rules(b: UpdateBuilder)
    ensures
        (b.stable_karma matches Some(k) && k <= 0) ==> validation_error(b) is Some,
        (b.unstable_karma matches Some(k) && k >= 0) ==> validation_error(b) is Some,
        (b.update_type == Some(UpdateType::Security) && (b.severity is None || b.severity == Some(
            UpdateSeverity::Unspecified,
        ))) ==> validation_error(b) is Some,
        validation_error(b) is None <==> ({
            &&& !(b.stable_karma matches Some(k) && k <= 0)
            &&& !(b.unstable_karma matches Some(k) && k >= 0)
            &&& !(b.update_type == Some(UpdateType::Security) && (b.severity is None || b.severity
                == Some(UpdateSeverity::Unspecified)))
        }),
{
}

/// Whether `r` is the request that creates the update that `b` describes,
/// carrying the token `token`. Unset settings stay unset, but for the kind,
/// which is "unspecified" unless given; bugs travel as decimal numbers.
pub open spec fn submission_for(b: UpdateBuilder, token: Seq<char>, r: Submission) -> bool {
    &&& r.path@ == updates_path()
    &&& r.data.csrf_token@ == token
    &&& r.data.notes@ == b.notes@
    &&& match b.source {
        UpdateSource::Builds { builds } => {
            &&& r.data.from_tag is None
            &&& r.data.builds is Some
            &&& r.data.builds->0@.len() == builds@.len()
            &&& forall|i: int|
                0 <= i < builds@.len() ==> r.data.builds->0@[i]@ == (#[trigger] builds@[i])@
        },
        UpdateSource::Tag { tag } => {
            &&& r.data.builds is None
            &&& opt_view(r.data.from_tag) == Some(tag@)
        },
    }
    &&& match b.bugs {
        Some(v) => {
            &&& r.data.bugs is Some
            &&& r.data.bugs->0@.len() == v@.len()
            &&& forall|i: int|
                0 <= i < v@.len() ==> r.data.bugs->0@[i]@ == decimal((#[trigger] v@[i]) as nat)
        },
        None => r.data.bugs is None,
    }
    &&& opt_view(r.data.display_name) == opt_view(b.display_name)
    &&& r.data.close_bugs == b.close_bugs
    &&& r.data.update_type == match b.update_type {
        Some(t) => t,
        None => UpdateType::Unspecified,
    }
    &&& r.data.request == b.request
    &&& r.data.severity == b.severity
    &&& r.data.autokarma == b.autokarma
    &&& r.data.stable_karma == b.stable_karma
    &&& r.data.unstable_karma == b.unstable_karma
    &&& r.data.suggest == b.suggest
    &&& r.data.edited is None
    &&& opt_view(r.data.requirements) == opt_view(b.requirements)
    &&& r.data.require_bugs == b.require_bugs
    &&& r.data.require_testcases == b.require_testcases
    &&& r.data.autotime == b.autotime
    &&& r.data.stable_days == b.stable_days
}

/// The path on which new updates are posted.
pub open spec fn updates_path() -> Seq<char> {
    "/updates/"@
}

/// The path that hands out anti-forgery tokens.
pub open spec fn token_path() -> Seq<char> {
    "/csrf"@
}

/// The body of the request that creates an update.
#[derive(Debug)]
pub struct UpdateData {
    pub builds: Option<Vec<String>>,
    pub from_tag: Option<String>,
    pub bugs: Option<Vec<String>>,
    pub display_name: Option<String>,
    pub close_bugs: Option<bool>,
    pub update_type: UpdateType,
    pub request: Option<UpdateRequest>,
    pub severity: Option<UpdateSeverity>,
    pub notes: String,
    pub autokarma: Option<bool>,
    pub stable_karma: Option<i32>,
    pub unstable_karma: Option<i32>,
    pub suggest: Option<UpdateSuggestion>,
    pub edited: Option<String>,
    pub requirements: Option<String>,
    pub require_bugs: Option<bool>,
    pub require_testcases: Option<bool>,
    pub autotime: Option<bool>,
    pub stable_days: Option<u32>,
    pub csrf_token: String,
}

/// The POST request that creates an update.
#[derive(Debug)]
pub struct Submission {
    pub path: String,
    pub data: UpdateData,
}

/// The text of an optional string.
pub open spec fn opt_view(o: Option<String>) -> Option<Seq<char>> {
    match o {
        Some(s) => Some(s@),
        None => None,
    }
}

fn copy_opt(o: &Option<String>) -> (r: Option<String>)
    ensures
        opt_view(r) == opt_view(*o),
{
    match o {
        Some(s) => Some(s.clone()),
        None => None,
    }
}

fn build_names(builds: &[&str]) -> (r: Vec<String>)
    ensures
        r@.len() == builds@.len(),
        forall|i: int| 0 <= i < r@.len() ==> r@[i]@ == (#[trigger] builds@[i])@,
{
    let mut out: Vec<String> = Vec::new();
    let n = builds.len();
    let mut i: usize = 0;
    while i < n
        invariant
            n == builds@.len(),
            i <= n,
            out@.len() == i,
            forall|j: int| 0 <= j < i ==> out@[j]@ == (#[trigger] builds@[j])@,
        decreases n - i,
    {
        out.push(String::from_str(builds[i]));
        i = i + 1;
    }
    out
}

fn bug_numbers(bugs: &Vec<u32>) -> (r: Vec<String>)
    ensures
        r@.len() == bugs@.len(),
        forall|i: int| 0 <= i < r@.len() ==> r@[i]@ == decimal((#[trigger] bugs@[i]) as nat),
{
    let mut out: Vec<String> = Vec::new();
    let n = bugs.len();
    let mut i: usize = 0;
    while i < n
        invariant
            n == bugs@.len(),
            i <= n,
            out@.len() == i,
            forall|j: int| 0 <= j < i ==> out@[j]@ == decimal((#[trigger] bugs@[j]) as nat),
        decreases n - i,
    {
        out.push(decimal_string(bugs[i]));
        i = i + 1;
    }
    out
}

impl<'a> UpdateBuilder<'a> {
    fn unset(source: UpdateSource<'a>, notes: &'a str) -> (r: UpdateBuilder<'a>)
        ensures
            r.source == source,
            r.notes == notes,
            all_unset(r),
    {
        UpdateBuilder {
            source,
            notes,
            bugs: None,
            display_name: None,
            close_bugs: None,
            update_type: None,
            request: None,
            severity: None,
            autokarma: None,
            stable_karma: None,
            unstable_karma: None,
            suggest: None,
            requirements: None,
            require_bugs: None,
            require_testcases: None,
            autotime: None,
            stable_days: None,
        }
    }

    /// A new update of the builds `builds`, with the notes `notes`.
    pub fn from_builds(builds: &'a [&'a str], notes: &'a str) -> (r: UpdateBuilder<'a>)
        ensures
            r.source == (UpdateSource::Builds { builds }),
            r.notes == notes,
            all_unset(r),
    {
        UpdateBuilder::unset(UpdateSource::Builds { builds }, notes)
    }

    /// A new update of the builds of the side tag `tag`, with the notes `notes`.
    pub fn from_tag(tag: &'a str, notes: &'a str) -> (r: UpdateBuilder<'a>)
        ensures
            r.source == (UpdateSource::Tag { tag }),
            r.notes == notes,
            all_unset(r),
    {
        UpdateBuilder::unset(UpdateSource::Tag { tag }, notes)
    }

    /// Adds a related bug. Can be given several times; the bugs keep their order.
    pub fn bugs(self, bug: u32) -> (r: UpdateBuilder<'a>)
        ensures
            r.bugs is Some,
            r.bugs->0@ == match self.bugs {
                Some(w) => w@.push(bug),
                None => seq![bug],
            },
            r == (UpdateBuilder { bugs: r.bugs, ..self }),
    {
        let mut b = self;
        match b.bugs {
            Some(mut v) => {
                v.push(bug);
                b.bugs = Some(v);
            },
            None => {
                b.bugs = Some(vec![bug]);
            },
        }
        b
    }

    /// Sets whether the bugs are closed when the update reaches stable.
    pub fn close_bugs(self, close_bugs: bool) -> (r: UpdateBuilder<'a>)
        ensures
            r == (UpdateBuilder { close_bugs: Some(close_bugs), ..self }),
    {
        UpdateBuilder { close_bugs: Some(close_bugs), ..self }
    }

    /// Sets a title for the update that users see.
    pub fn display_name(self, display_name: String) -> (r: UpdateBuilder<'a>)
        ensures
            r == (UpdateBuilder { display_name: Some(display_name), ..self }),
    {
        UpdateBuilder { display_name: Some(display_name), ..self }
    }

    /// Sets the kind of the update. A security update also needs a severity.
    pub fn update_type(self, update_type: UpdateType) -> (r: UpdateBuilder<'a>)
        ensures
            r == (UpdateBuilder { update_type: Some(update_type), ..self }),
    {
        UpdateBuilder { update_type: Some(update_type), ..self }
    }

    /// Sets the severity of the update.
    pub fn severity(self, severity: UpdateSeverity) -> (r: UpdateBuilder<'a>)
        ensures
            r == (UpdateBuilder { severity: Some(severity), ..self }),
    {
        UpdateBuilder { severity: Some(severity), ..self }
    }

    /// Sets whether the update moves to stable by itself at the stable karma.
    pub fn autokarma(self, autokarma: bool) -> (r: UpdateBuilder<'a>)
        ensures
            r == (UpdateBuilder { autokarma: Some(autokarma), ..self }),
    {
        UpdateBuilder { autokarma: Some(autokarma), ..self }
    }

    /// Sets the stable karma threshold.
    pub fn stable_karma(self, stable_karma: i32) -> (r: UpdateBuilder<'a>)
        ensures
            r == (UpdateBuilder { stable_karma: Some(stable_karma), ..self }),
    {
        UpdateBuilder { stable_karma: Some(stable_karma), ..self }
    }

    /// Sets the unstable karma threshold.
    pub fn unstable_karma(self, unstable_karma: i32) -> (r: UpdateBuilder<'a>)
        ensures
            r == (UpdateBuilder { unstable_karma: Some(unstable_karma), ..self }),
    {
        UpdateBuilder { unstable_karma: Some(unstable_karma), ..self }
    }

    /// Sets whether users should log out or reboot for the update to apply.
    pub fn suggest(self, suggestion: UpdateSuggestion) -> (r: UpdateBuilder<'a>)
        ensures
            r == (UpdateBuilder { suggest: Some(suggestion), ..self }),
    {
        UpdateBuilder { suggest: Some(suggestion), ..self }
    }

    /// Sets custom test requirements.
    pub fn requirements(self, requirements: String) -> (r: UpdateBuilder<'a>)
        ensures
            r == (UpdateBuilder { requirements: Some(requirements), ..self }),
    {
        UpdateBuilder { requirements: Some(requirements), ..self }
    }

    /// Sets whether karma counts only with bug feedback.
    pub fn require_bugs(self, require_bugs: bool) -> (r: UpdateBuilder<'a>)
        ensures
            r == (UpdateBuilder { require_bugs: Some(require_bugs), ..self }),
    {
        UpdateBuilder { require_bugs: Some(require_bugs), ..self }
    }

    /// Sets whether karma counts only with test case feedback.
    pub fn require_testcases(self, require_testcases: bool) -> (r: UpdateBuilder<'a>)
        ensures
            r == (UpdateBuilder { require_testcases: Some(require_testcases), ..self }),
    {
        UpdateBuilder { require_testcases: Some(require_testcases), ..self }
    }

    /// Sets whether the update moves to stable by itself after its days in testing.
    pub fn autotime(self, autotime: bool) -> (r: UpdateBuilder<'a>)
        ensures
            r == (UpdateBuilder { autotime: Some(autotime), ..self }),
    {
        UpdateBuilder { autotime: Some(autotime), ..self }
    }

    /// Sets the least number of days that the update stays in testing.
    pub fn stable_days(self, stable_days: u32) -> (r: UpdateBuilder<'a>)
        ensures
            r == (UpdateBuilder { stable_days: Some(stable_days), ..self }),
    {
        UpdateBuilder { stable_days: Some(stable_days), ..self }
    }

    /// Checks the local rules. Nothing is sent.
    pub fn validate(&self) -> (r: Result<(), QueryError>)
        ensures
            r == match validation_error(*self) {
                Some(e) => Err(QueryError::InvalidDataError { error: e }),
                None => Ok::<(), QueryError>(()),
            },
    {
        if let Some(karma) = self.stable_karma {
            if karma < 1 {
                return Err(QueryError::InvalidDataError { error: ValidationError::StableKarmaNotPositive });
            }
        }
        if let Some(karma) = self.unstable_karma {
            if karma > -1 {
                return Err(
                    QueryError::InvalidDataError { error: ValidationError::UnstableKarmaNotNegative },
                );
            }
        }
        if let Some(t) = self.update_type {
            if t == UpdateType::Security {
                let specified = match self.severity {
                    Some(s) => s != UpdateSeverity::Unspecified,
                    None => false,
                };
                if !specified {
                    return Err(
                        QueryError::InvalidDataError { error: ValidationError::SecuritySeverityMissing },
                    );
                }
            }
        }
        Ok(())
    }

    /// The first step of creating this update: the local rules are checked
    /// and, only where they hold, the request for an anti-forgery token is
    /// handed out. A broken rule ends the creation before anything is sent.
    pub fn begin_create(&self) -> (r: Result<PageRequest, QueryError>)
        ensures
            match validation_error(*self) {
                Some(e) => r == Err::<PageRequest, QueryError>(QueryError::InvalidDataError { error: e }),
                None => r matches Ok(req) && req.path@ == token_path() && req.args@.len() == 0,
            },
    {
        match self.validate() {
            Err(e) => Err(e),
            Ok(()) => Ok(PageRequest { path: String::from_str("/csrf"), args: Vec::new() }),
        }
    }

    /// The request that creates this update, carrying the token `csrf_token`.
    /// Unset settings stay unset, but for the kind, which is "unspecified"
    /// unless given; bugs travel as decimal numbers.
    pub fn submission(&self, csrf_token: String) -> (r: Submission)
        requires
            validation_error(*self) is None,
        ensures
            submission_for(*self, csrf_token@, r),
    {
        let (builds, from_tag) = match self.source {
            UpdateSource::Builds { builds } => (Some(build_names(builds)), None),
            UpdateSource::Tag { tag } => (None, Some(String::from_str(tag))),
        };
        let bugs = match &self.bugs {
            Some(b) => Some(bug_numbers(b)),
            None => None,
        };
        let data = UpdateData {
            builds,
            from_tag,
            bugs,
            display_name: copy_opt(&self.display_name),
            close_bugs: self.close_bugs,
            update_type: match self.update_type {
                Some(t) => t,
                None => UpdateType::Unspecified,
            },
            request: self.request,
            severity: self.severity,
            notes: String::from_str(self.notes),
            autokarma: self.autokarma,
            stable_karma: self.stable_karma,
            unstable_karma: self.unstable_karma,
            suggest: self.suggest,
            edited: None,
            requirements: copy_opt(&self.requirements),
            require_bugs: self.require_bugs,
            require_testcases: self.require_testcases,
            autotime: self.autotime,
            stable_days: self.stable_days,
            csrf_token,
        };
        Submission { path: String::from_str("/updates/"), data }
    }
    /// The step after the token request. A token lets the submission go
    /// out, carrying it; a failed token request ends the creation with that
    /// error, and nothing is posted.
    pub fn submission_after_token(&self, token: Result<String, QueryError>) -> (r: Result<
        Submission,
        QueryError,
    >)
        requires
            validation_error(*self) is None,
        ensures
            match token {
                Ok(t) => r is Ok && submission_for(*self, t@, r->Ok_0),
                Err(e) => r == Err::<Submission, QueryError>(e),
            },
    {
        match token {
            Ok(t) => Ok(self.submission(t)),
            Err(e) => Err(e),
        }
    }
}

/// The last step of creating an update: reads the reply to the submission.
/// A decoded body is the new update; a decoded rejection is returned as the
/// service's error; a reply that could not be read is the one failure.
pub fn finish_create<U>(reply: Reply<NewUpdate<U>>) -> (r: Result<NewUpdate<U>, QueryError>)
    ensures
        match general_outcome(reply) {
            Outcome::Settled(res) => r == res,
            Outcome::Retryable(f) => {
                &&& r is Err
                &&& r->Err_0 matches QueryError::Unanswered { failures }
                &&& failures@ == seq![f]
            },
        },
{
    match outcome_of(reply) {
        Outcome::Settled(res) => res,
        Outcome::Retryable(f) => {
            let failures = vec![f];
            Err(QueryError::Unanswered { failures })
        },
    }
}

} // verus!
