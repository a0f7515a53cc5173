//! What a DNS provider is asked, and what is made of its answers.
//!
//! A provider can do two things for one domain: say which address it
//! publishes, and publish another. The calls themselves are made elsewhere;
//! this module builds the requests and reads the answers.

pub mod aws;

pub use aws::Aws;

use crate::config::ProviderType;
use crate::config::DEFAULT_TTL;
use aws::AwsView;
use vstd::prelude::*;
use vstd::string::StringExecFns;

verus! {

/// Why the published address of a domain could not be had.
#[derive(Clone, Debug, PartialEq, Eq)]
pub enum ProviderQueryError {
    /// The backend could not be reached or refused the query; its own words.
    Backend(String),
    /// The one record that the backend holds is not an IPv4 address; the record.
    MalformedRecord(String),
    /// The backend holds more than one record, and none is picked for it.
    AmbiguousRecordSet,
}

/// Why an address could not be published.
#[derive(Clone, Debug, PartialEq, Eq)]
pub enum ProviderUpdateError {
    /// The backend could not be reached or refused the change; its own words.
    Backend(String),
}

impl ProviderQueryError {
    /// What the error says, as a sequence of characters.
    pub open spec fn spec_message(self) -> Seq<char> {
        match self {
            ProviderQueryError::Backend(message) => message@,
            ProviderQueryError::MalformedRecord(_) => "invalid IPv4 address syntax"@,
            ProviderQueryError::AmbiguousRecordSet => "record set has multiple values"@,
        }
    }

    /// What the error says.
    pub fn message(&self) -> (text: String)
        ensures
            text@ == self.spec_message(),
    {
        match self {
            ProviderQueryError::Backend(message) => message.clone(),
            ProviderQueryError::MalformedRecord(_) => String::from_str(
                "invalid IPv4 address syntax",
            ),
            ProviderQueryError::AmbiguousRecordSet => String::from_str(
                "record set has multiple values",
            ),
        }
    }
}

impl ProviderUpdateError {
    /// What the error says, as a sequence of characters.
    pub open spec fn spec_message(self) -> Seq<char> {
        match self {
            ProviderUpdateError::Backend(message) => message@,
        }
    }

    /// What the error says.
    pub fn message(&self) -> (text: String)
        ensures
            text@ == self.spec_message(),
    {
        match self {
            ProviderUpdateError::Backend(message) => message.clone(),
        }
    }
}

/// A provider made ready for one domain: one variant for each kind of backend.
#[derive(Clone, Debug, PartialEq, Eq)]
pub enum Backend {
    Aws(Aws),
}

/// What a [`Backend`] holds, with its texts as sequences of characters.
pub enum BackendView {
    Aws(AwsView),
}

impl View for Backend {
    type V = BackendView;

    open spec fn view(&self) -> BackendView {
        match self {
            Backend::Aws(aws) => BackendView::Aws(aws@),
        }
    }
}

impl ProviderType {
    /// The provider that these settings describe for `domain`; a time to live
    /// that the settings leave out is [`DEFAULT_TTL`].
    pub open spec fn spec_backend(self, domain: Seq<char>) -> BackendView {
        match self {
            ProviderType::Aws { hosted_zone_id, ttl } => BackendView::Aws(
                AwsView {
                    domain,
                    hosted_zone_id: hosted_zone_id@,
                    ttl: match ttl {
                        Some(seconds) => seconds,
                        None => DEFAULT_TTL,
                    },
                },
            ),
        }
    }
}

impl Backend {
    /// Makes the provider that `settings` describe ready for `domain`.
    pub fn from_config(domain: &str, settings: &ProviderType) -> (backend: Backend)
        ensures
            backend@ == settings.spec_backend(domain@),
    {
        match settings {
            ProviderType::Aws { hosted_zone_id, ttl } => {
                let ttl = match ttl {
                    Some(seconds) => *seconds,
                    None => DEFAULT_TTL,
                };
                Backend::Aws(Aws::new(domain, hosted_zone_id.as_str(), ttl))
            },
        }
    }
}

} // verus!
