//! The management API's errors and the HTTP status each is answered with.
use vstd::prelude::*;
use crate::radiance_types::ControlError;

verus! {

/// An error of the management API itself.
#[derive(Clone, Debug)]
pub enum Error {
    DatabaseError,
    MissingToken,
    InvalidToken,
    CredentialError,
    PasswordNotConfigured,
    OidcNotConfigured,
    OidcConfigurationError,
    OidcServerError,
    BackchannelLogoutError,
    ControlSocketError,
    RateLimited { limit: u64, remaining: u64, reset: u64 },
}

/// The HTTP status of an API error.
pub open spec fn error_status(e: Error) -> u16 {
    match e {
        Error::DatabaseError => 500,
        Error::MissingToken => 401,
        Error::InvalidToken => 401,
        Error::CredentialError => 401,
        Error::PasswordNotConfigured => 500,
        Error::OidcNotConfigured => 500,
        Error::OidcConfigurationError => 500,
        Error::OidcServerError => 500,
        Error::BackchannelLogoutError => 400,
        Error::ControlSocketError => 500,
        Error::RateLimited { .. } => 429,
    }
}

/// The HTTP status of a proxy control error.
pub open spec fn control_error_status(e: ControlError) -> u16 {
    match e {
        ControlError::HostNotFound => 404,
        ControlError::HostAlreadyExists => 409,
        ControlError::CertificateNotFound => 404,
        ControlError::CertificateAlreadyExists => 409,
        ControlError::InvalidCertificate => 400,
        ControlError::HttpChallengeNotFound => 404,
        ControlError::FailedToReload => 500,
        ControlError::FailedToSave => 500,
        ControlError::MalformedCommand => 400,
        ControlError::InternalError(_) => 500,
    }
}

impl Error {
    /// The HTTP status the error is answered with.
    pub fn status_code(&self) -> (s: u16)
        ensures
            s == error_status(*self),
    {
        match self {
            Error::DatabaseError => 500,
            Error::MissingToken => 401,
            Error::InvalidToken => 401,
            Error::CredentialError => 401,
            Error::PasswordNotConfigured => 500,
            Error::OidcNotConfigured => 500,
            Error::OidcConfigurationError => 500,
            Error::OidcServerError => 500,
            Error::BackchannelLogoutError => 400,
            Error::ControlSocketError => 500,
            Error::RateLimited { .. } => 429,
        }
    }
}

/// An error the management API answers with: its own, or one of the proxy.
#[derive(Clone, Debug)]
pub enum ApiError {
    GeneralError(Error),
    ControlError(ControlError),
}

impl ApiError {
    /// The API error for an error of the proxy.
    pub fn from_control_error(error: ControlError) -> (e: ApiError)
        ensures
            e == ApiError::ControlError(error),
    {
        ApiError::ControlError(error)
    }

    /// The HTTP status the error is answered with.
    pub fn status_code(&self) -> (s: u16)
        ensures
            match self {
                ApiError::GeneralError(e) => s == error_status(*e),
                ApiError::ControlError(e) => s == control_error_status(*e),
            },
    {
        match self {
            ApiError::GeneralError(e) => e.status_code(),
            ApiError::ControlError(e) => match e {
                ControlError::HostNotFound => 404,
                ControlError::HostAlreadyExists => 409,
                ControlError::CertificateNotFound => 404,
                ControlError::CertificateAlreadyExists => 409,
                ControlError::InvalidCertificate => 400,
                ControlError::HttpChallengeNotFound => 404,
                ControlError::FailedToReload => 500,
                ControlError::FailedToSave => 500,
                ControlError::MalformedCommand => 400,
                ControlError::InternalError(_) => 500,
            },
        }
    }
}

} // verus!
