//! The service's vocabulary: releases, and the kinds, severities, requests and
//! suggestions that an update can carry, each with the word that the service uses.

use vstd::prelude::*;

verus! {

/// A release that the service tracks updates for.
#[derive(Clone, Copy, Debug, PartialEq, Eq, Structural)]
pub enum FedoraRelease {
    F32,
    F32C,
    F31,
    F31C,
    F31F,
    F31M,
    F30,
    F30C,
    F30F,
    F30M,
    F29,
    F29C,
    F29F,
    F29M,
    F28,
    F28C,
    F28M,
    F27,
    F27M,
    F26,
    F25,
    F24,
    F23,
    F22,
    F21,
    EPEL8,
    EPEL8M,
    EPEL7,
}

/// The service's name of a release.
pub open spec fn release_name(r: FedoraRelease) -> Seq<char> {
    match r {
        FedoraRelease::F32 => "F32"@,
        FedoraRelease::F32C => "F32C"@,
        FedoraRelease::F31 => "F31"@,
        FedoraRelease::F31C => "F31C"@,
        FedoraRelease::F31F => "F31F"@,
        FedoraRelease::F31M => "F31M"@,
        FedoraRelease::F30 => "F30"@,
        FedoraRelease::F30C => "F30C"@,
        FedoraRelease::F30F => "F30F"@,
        FedoraRelease::F30M => "F30M"@,
        FedoraRelease::F29 => "F29"@,
        FedoraRelease::F29C => "F29C"@,
        FedoraRelease::F29F => "F29F"@,
        FedoraRelease::F29M => "F29M"@,
        FedoraRelease::F28 => "F28"@,
        FedoraRelease::F28C => "F28C"@,
        FedoraRelease::F28M => "F28M"@,
        FedoraRelease::F27 => "F27"@,
        FedoraRelease::F27M => "F27M"@,
        FedoraRelease::F26 => "F26"@,
        FedoraRelease::F25 => "F25"@,
        FedoraRelease::F24 => "F24"@,
        FedoraRelease::F23 => "F23"@,
        FedoraRelease::F22 => "F22"@,
        FedoraRelease::F21 => "F21"@,
        FedoraRelease::EPEL8 => "EPEL-8"@,
        FedoraRelease::EPEL8M => "EPEL-8M"@,
        FedoraRelease::EPEL7 => "EPEL-7"@,
    }
}

impl FedoraRelease {
    /// The name under which the service knows this release.
    pub fn name(&self) -> (r: String)
        ensures
            r@ == release_name(*self),
    {
        let s = match self {
            FedoraRelease::F32 => "F32",
            FedoraRelease::F32C => "F32C",
            FedoraRelease::F31 => "F31",
            FedoraRelease::F31C => "F31C",
            FedoraRelease::F31F => "F31F",
            FedoraRelease::F31M => "F31M",
            FedoraRelease::F30 => "F30",
            FedoraRelease::F30C => "F30C",
            FedoraRelease::F30F => "F30F",
            FedoraRelease::F30M => "F30M",
            FedoraRelease::F29 => "F29",
            FedoraRelease::F29C => "F29C",
            FedoraRelease::F29F => "F29F",
            FedoraRelease::F29M => "F29M",
            FedoraRelease::F28 => "F28",
            FedoraRelease::F28C => "F28C",
            FedoraRelease::F28M => "F28M",
            FedoraRelease::F27 => "F27",
            FedoraRelease::F27M => "F27M",
            FedoraRelease::F26 => "F26",
            FedoraRelease::F25 => "F25",
            FedoraRelease::F24 => "F24",
            FedoraRelease::F23 => "F23",
            FedoraRelease::F22 => "F22",
            FedoraRelease::F21 => "F21",
            FedoraRelease::EPEL8 => "EPEL-8",
            FedoraRelease::EPEL8M => "EPEL-8M",
            FedoraRelease::EPEL7 => "EPEL-7",
        };
        String::from_str(s)
    }
}

/// The kind of an update.
#[derive(Clone, Copy, Debug, PartialEq, Eq, Structural)]
pub enum UpdateType {
    BugFix,
    Enhancement,
    NewPackage,
    Security,
    Unspecified,
}

/// How severe the problem is that an update addresses.
#[derive(Clone, Copy, Debug, PartialEq, Eq, Structural)]
pub enum UpdateSeverity {
    High,
    Low,
    Medium,
    Unspecified,
    Urgent,
}

/// Where an update is asked to move.
#[derive(Clone, Copy, Debug, PartialEq, Eq, Structural)]
pub enum UpdateRequest {
    Obsolete,
    Revoke,
    Stable,
    Testing,
    Unpush,
}

/// What users should do for an update to take effect.
#[derive(Clone, Copy, Debug, PartialEq, Eq, Structural)]
pub enum UpdateSuggestion {
    Logout,
    Reboot,
    Unspecified,
}

/// The service's word for an update kind.
pub open spec fn update_type_word(t: UpdateType) -> Seq<char> {
    match t {
        UpdateType::BugFix => "bugfix"@,
        UpdateType::Enhancement => "enhancement"@,
        UpdateType::NewPackage => "newpackage"@,
        UpdateType::Security => "security"@,
        UpdateType::Unspecified => "unspecified"@,
    }
}

/// The service's word for a severity.
pub open spec fn severity_word(s: UpdateSeverity) -> Seq<char> {
    match s {
        UpdateSeverity::High => "high"@,
        UpdateSeverity::Low => "low"@,
        UpdateSeverity::Medium => "medium"@,
        UpdateSeverity::Unspecified => "unspecified"@,
        UpdateSeverity::Urgent => "urgent"@,
    }
}

/// The service's word for a request.
pub open spec fn request_word(r: UpdateRequest) -> Seq<char> {
    match r {
        UpdateRequest::Obsolete => "obsolete"@,
        UpdateRequest::Revoke => "revoke"@,
        UpdateRequest::Stable => "stable"@,
        UpdateRequest::Testing => "testing"@,
        UpdateRequest::Unpush => "unpush"@,
    }
}

/// The service's word for a suggestion.
pub open spec fn suggestion_word(s: UpdateSuggestion) -> Seq<char> {
    match s {
        UpdateSuggestion::Logout => "logout"@,
        UpdateSuggestion::Reboot => "reboot"@,
        UpdateSuggestion::Unspecified => "unspecified"@,
    }
}

impl UpdateType {
    /// The word under which the service knows this kind.
    pub fn word(&self) -> (r: String)
        ensures
            r@ == update_type_word(*self),
    {
        let s = match self {
            UpdateType::BugFix => "bugfix",
            UpdateType::Enhancement => "enhancement",
            UpdateType::NewPackage => "newpackage",
            UpdateType::Security => "security",
            UpdateType::Unspecified => "unspecified",
        };
        String::from_str(s)
    }
}

impl UpdateSeverity {
    /// The word under which the service knows this severity.
    pub fn word(&self) -> (r: String)
        ensures
            r@ == severity_word(*self),
    {
        let s = match self {
            UpdateSeverity::High => "high",
            UpdateSeverity::Low => "low",
            UpdateSeverity::Medium => "medium",
            UpdateSeverity::Unspecified => "unspecified",
            UpdateSeverity::Urgent => "urgent",
        };
        String::from_str(s)
    }
}

impl UpdateRequest {
    /// The word under which the service knows this request.
    pub fn word(&self) -> (r: String)
        ensures
            r@ == request_word(*self),
    {
        let s = match self {
            UpdateRequest::Obsolete => "obsolete",
            UpdateRequest::Revoke => "revoke",
            UpdateRequest::Stable => "stable",
            UpdateRequest::Testing => "testing",
            UpdateRequest::Unpush => "unpush",
        };
        String::from_str(s)
    }
}

impl UpdateSuggestion {
    /// The word under which the service knows this suggestion.
    pub fn word(&self) -> (r: String)
        ensures
            r@ == suggestion_word(*self),
    {
        let s = match self {
            UpdateSuggestion::Logout => "logout",
            UpdateSuggestion::Reboot => "reboot",
            UpdateSuggestion::Unspecified => "unspecified",
        };
        String::from_str(s)
    }
}

} // verus!
