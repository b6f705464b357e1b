//! Errors surfaced by the bootstrap layer.

use vstd::prelude::*;
use vstd::string::to_string_from_display_ensures;
use vstd::string::StringExecFns;

verus! {

#[verifier::external_type_specification]
#[verifier::external_body]
pub struct ExMadoriError(madori::MadoriError);

/// Errors surfaced by the bootstrap layer.
///
/// Errors from `AppState::init` are carried as they came. Config loading
/// has no variant: it never fails, falling back to the config's default.
#[derive(Debug)]
#[non_exhaustive]
pub enum AppkitError {
    /// The event loop returned an error (window creation, GPU init, etc.).
    Madori(madori::MadoriError),
    /// `AppState::init` returned an error.
    AppInit(anyhow::Error),
}

/// The error an [`AppkitError`] wraps.
#[derive(Debug)]
pub enum ErrorSource<'a> {
    /// The event loop's error.
    Madori(&'a madori::MadoriError),
    /// The application's init error.
    AppInit(&'a anyhow::Error),
}

impl AppkitError {
    /// The text that stands before the wrapped error's own message.
    pub open spec fn prefix(&self) -> Seq<char> {
        match self {
            AppkitError::Madori(_) => "madori: "@,
            AppkitError::AppInit(_) => "app init: "@,
        }
    }

    /// The error's message: the variant's prefix, then the wrapped error's
    /// own message, once.
    pub fn to_string(&self) -> (r: String)
        ensures
            match self {
                AppkitError::Madori(e) => exists|inner: String|
                    to_string_from_display_ensures::<madori::MadoriError>(e, inner)
                        && r@ == self.prefix() + inner@,
                AppkitError::AppInit(e) => exists|inner: String|
                    to_string_from_display_ensures::<anyhow::Error>(e, inner)
                        && r@ == self.prefix() + inner@,
            },
    {
        match self {
            AppkitError::Madori(e) => {
                let inner = e.to_string();
                let mut r = String::from_str("madori: ");
                r.append(inner.as_str());
                r
            },
            AppkitError::AppInit(e) => {
                let inner = e.to_string();
                let mut r = String::from_str("app init: ");
                r.append(inner.as_str());
                r
            },
        }
    }

    /// The wrapped error, reachable so a diagnostic can walk the chain.
    pub fn source(&self) -> (r: Option<ErrorSource<'_>>)
        ensures
            match self {
                AppkitError::Madori(e) => r == Some(ErrorSource::Madori(e)),
                AppkitError::AppInit(e) => r == Some(ErrorSource::AppInit(e)),
            },
    {
        match self {
            AppkitError::Madori(e) => Some(ErrorSource::Madori(e)),
            AppkitError::AppInit(e) => Some(ErrorSource::AppInit(e)),
        }
    }
}

impl From<madori::MadoriError> for AppkitError {
    /// Wrap an event loop error.
    fn from(e: madori::MadoriError) -> (r: Self) {
        AppkitError::Madori(e)
    }
}

impl vstd::std_specs::convert::FromSpecImpl<madori::MadoriError> for AppkitError {
    open spec fn obeys_from_spec() -> bool {
        true
    }

    open spec fn from_spec(e: madori::MadoriError) -> Self {
        AppkitError::Madori(e)
    }
}

impl<'a> ErrorSource<'a> {
    /// The wrapped error's own message.
    pub fn to_string(&self) -> (r: String)
        ensures
            match *self {
                ErrorSource::Madori(e) => to_string_from_display_ensures::<madori::MadoriError>(e, r),
                ErrorSource::AppInit(e) => to_string_from_display_ensures::<anyhow::Error>(e, r),
            },
    {
        match *self {
            ErrorSource::Madori(e) => e.to_string(),
            ErrorSource::AppInit(e) => e.to_string(),
        }
    }
}

} // verus!
