//! A client library for the Bodhi update-tracking service.
//!
//! The library holds the logic of talking to the service: the filter sets that
//! queries are built from and how they render into request parameters, the
//! interpretation of responses, the bounded retry policy, the paginator that
//! accumulates multi-page results, and the protocol that creates an update.
//! Moving bytes over the network is left to the caller, who performs the
//! requests that the library asks for and hands back what came in.

pub mod create;
pub mod data;
pub mod error;
pub mod fetch;
pub mod filters;
pub mod paginate;
pub mod query;
pub mod text;

pub use create::{finish_create, NewUpdate, Submission, UpdateBuilder, UpdateData, UpdateSource};
pub use data::{FedoraRelease, UpdateRequest, UpdateSeverity, UpdateSuggestion, UpdateType};
pub use error::{BodhiError, ErrorEntry, Failure, QueryError, ValidationError};
pub use fetch::{begin, is_success, lookup_outcome_of, outcome_of, Outcome, Reply, Retry, RetryPolicy, RetryStep, NOT_FOUND};
pub use filters::{Filter, FilterField, FilterSet};
pub use paginate::{ListPage, PageRequest, PageStep, Paginator, DEFAULT_PAGE, DEFAULT_ROWS, MAX_PAGES};
pub use query::{BuildNVRQuery, BuildQuery, OverrideNVRQuery, OverrideQuery, PackageQuery};
pub use text::{decimal_string, join_values};
