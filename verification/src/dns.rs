//! The dynamic-DNS update service: what is asked of it and how its answer is
//! read.

use crate::cloud::IpAddress;
use crate::text::same_text;
use vstd::prelude::*;
use vstd::string::*;

verus! {

/// A transport-level failure while talking to the update service.
#[derive(Debug, Clone, PartialEq, Eq)]
pub struct NetworkError(pub String);

/// Why a dynamic-DNS update did not go through.
#[derive(Debug, Clone, PartialEq, Eq)]
pub enum DynDnsError {
    Unauthorized,
    Network(NetworkError),
    /// The service answered with a word that is not part of the protocol.
    InvalidResponse(String),
    NotYourDomain,
    InvalidHostname,
    Abuse,
}

/// The HTTP status "unauthorized".
pub const STATUS_UNAUTHORIZED: u16 = 401;

/// The HTTP status "forbidden".
pub const STATUS_FORBIDDEN: u16 = 403;

impl DynDnsError {
    /// What an HTTP status alone says of a request: `Unauthorized` for the
    /// statuses 401 and 403, nothing for any other.
    pub open spec fn spec_from_status_code(status: u16) -> Result<(), DynDnsError> {
        if status == STATUS_UNAUTHORIZED || status == STATUS_FORBIDDEN {
            Err(DynDnsError::Unauthorized)
        } else {
            Ok(())
        }
    }

    /// What an HTTP status alone says of a request.
    pub fn from_status_code(status: u16) -> (r: Result<(), DynDnsError>)
        ensures
            r == Self::spec_from_status_code(status),
    {
        if status == STATUS_UNAUTHORIZED || status == STATUS_FORBIDDEN {
            return Err(DynDnsError::Unauthorized);
        }
        Ok(())
    }
}

/// The account at the update service.
#[derive(Debug, Clone, PartialEq, Eq)]
pub struct DynDnsClient {
    pub update_url: String,
    pub username: String,
    pub password: String,
}

/// One update: the record `hostname` is to point at `ip`.
#[derive(Debug, Clone, PartialEq, Eq)]
pub struct UpdateRequest {
    pub url: String,
    pub username: String,
    pub password: String,
    pub hostname: String,
    pub ip: IpAddress,
}

/// What the body of the service's answer means, by the words of the
/// protocol.
pub open spec fn spec_read_answer(text: String) -> Result<(), DynDnsError> {
    if text@ == "badauth"@ {
        Err(DynDnsError::Unauthorized)
    } else if text@ == "!yours"@ {
        Err(DynDnsError::NotYourDomain)
    } else if text@ == "nochg"@ || text@ == "good"@ {
        Ok(())
    } else if text@ == "notfqdn"@ || text@ == "nohost"@ || text@ == "numhost"@ {
        Err(DynDnsError::InvalidHostname)
    } else if text@ == "abuse"@ {
        Err(DynDnsError::Abuse)
    } else {
        Err(DynDnsError::InvalidResponse(text))
    }
}

impl DynDnsClient {
    /// The account of `username` at the service behind `update_url`.
    pub fn new(update_url: String, username: String, password: String) -> (r: DynDnsClient)
        ensures
            r.update_url == update_url,
            r.username == username,
            r.password == password,
    {
        DynDnsClient { update_url, username, password }
    }

    /// The request that points `hostname` at `ip`.
    pub fn request(&self, hostname: &str, ip: IpAddress) -> (r: UpdateRequest)
        ensures
            r.url == self.update_url,
            r.username == self.username,
            r.password == self.password,
            r.hostname@ == hostname@,
            r.ip == ip,
    {
        UpdateRequest {
            url: self.update_url.clone(),
            username: self.username.clone(),
            password: self.password.clone(),
            hostname: hostname.to_owned(),
            ip,
        }
    }

    /// How an update ended, given the status and the body of the service's
    /// answer. The status is looked at first; then the body must be one of
    /// the words of the protocol, of which only `good` and `nochg` mean
    /// success.
    pub open spec fn spec_update(status: u16, text: String) -> Result<(), DynDnsError> {
        match DynDnsError::spec_from_status_code(status) {
            Err(e) => Err(e),
            Ok(_) => spec_read_answer(text),
        }
    }

    /// How an update ended, given the status and the body of the service's
    /// answer.
    pub fn update(status: u16, text: String) -> (r: Result<(), DynDnsError>)
        ensures
            r == Self::spec_update(status, text),
    {
        match DynDnsError::from_status_code(status) {
            Err(e) => {
                return Err(e);
            },
            Ok(_) => {},
        }
        if same_text(text.as_str(), "badauth") {
            Err(DynDnsError::Unauthorized)
        } else if same_text(text.as_str(), "!yours") {
            Err(DynDnsError::NotYourDomain)
        } else if same_text(text.as_str(), "nochg") || same_text(text.as_str(), "good") {
            Ok(())
        } else if same_text(text.as_str(), "notfqdn") || same_text(text.as_str(), "nohost")
            || same_text(text.as_str(), "numhost") {
            Err(DynDnsError::InvalidHostname)
        } else if same_text(text.as_str(), "abuse") {
            Err(DynDnsError::Abuse)
        } else {
            Err(DynDnsError::InvalidResponse(text))
        }
    }
}

impl DynDnsError {
    /// The text that describes the failure.
    pub open spec fn spec_message(&self) -> Seq<char> {
        match self {
            DynDnsError::Unauthorized => "Invalid credentials"@,
            DynDnsError::Network(e) => "Network error: "@ + e.0@,
            DynDnsError::InvalidResponse(answer) => "Network response from server: "@ + answer@,
            DynDnsError::NotYourDomain => "Domain belongs to another user"@,
            DynDnsError::InvalidHostname => "Invalid hostname"@,
            DynDnsError::Abuse => "Rate limited"@,
        }
    }

    /// The text that describes the failure.
    pub fn message(&self) -> (r: String)
        ensures
            r@ == self.spec_message(),
    {
        match self {
            DynDnsError::Unauthorized => String::from_str("Invalid credentials"),
            DynDnsError::Network(e) => {
                let mut text = String::from_str("Network error: ");
                text.append(e.0.as_str());
                text
            },
            DynDnsError::InvalidResponse(answer) => {
                let mut text = String::from_str("Network response from server: ");
                text.append(answer.as_str());
                text
            },
            DynDnsError::NotYourDomain => String::from_str("Domain belongs to another user"),
            DynDnsError::InvalidHostname => String::from_str("Invalid hostname"),
            DynDnsError::Abuse => String::from_str("Rate limited"),
        }
    }
}

} // verus!
