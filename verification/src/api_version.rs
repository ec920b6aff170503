//! The versions of the HTTP interface.

use crate::text::same_text;
use vstd::prelude::*;

verus! {

/// What a request for a version that does not exist is told.
pub const UNSUPPORTED_API_VERSION_MSG: &'static str = "unsupported API version, route is invalid";

/// What a request on a route without a version is told.
pub const MISSING_API_VERSION_MSG: &'static str = "version param missing";

/// A version of the HTTP interface.
#[derive(Debug, Clone, Copy, PartialEq, Eq, Structural)]
pub enum ApiVersion {
    V1,
}

/// Why a request names no version of the interface.
#[derive(Debug, Clone, Copy, PartialEq, Eq, Structural)]
pub enum ApiVersionRejection {
    /// The route has no version segment.
    Missing,
    /// The version segment names no version.
    Unsupported,
}

/// The text of a version segment, if the path has one.
pub open spec fn segment_text(version: Option<&str>) -> Option<Seq<char>> {
    match version {
        Some(text) => Some(text@),
        None => None,
    }
}

impl ApiVersion {
    /// The version that the path segment `text` names, if it names one.
    pub open spec fn with_segment(text: Seq<char>) -> Option<ApiVersion> {
        if text == "v1"@ {
            Some(ApiVersion::V1)
        } else {
            None
        }
    }

    /// The version as it is shown.
    pub open spec fn name(self) -> Seq<char> {
        match self {
            ApiVersion::V1 => "V1"@,
        }
    }

    /// What [`Self::from_path_param`] makes of a version segment.
    pub open spec fn resolve(segment: Option<Seq<char>>) -> Result<
        ApiVersion,
        ApiVersionRejection,
    > {
        match segment {
            None => Err(ApiVersionRejection::Missing),
            Some(text) => match Self::with_segment(text) {
                Some(version) => Ok(version),
                None => Err(ApiVersionRejection::Unsupported),
            },
        }
    }

    /// Resolves the version segment of a request path.
    pub fn from_path_param(version: Option<&str>) -> (r: Result<ApiVersion, ApiVersionRejection>)
        ensures
            r == Self::resolve(segment_text(version)),
    {
        match version {
            None => Err(ApiVersionRejection::Missing),
            Some(text) => if same_text(text, "v1") {
                Ok(ApiVersion::V1)
            } else {
                Err(ApiVersionRejection::Unsupported)
            },
        }
    }

    /// The version as it is shown.
    pub fn as_str(&self) -> (r: &'static str)
        ensures
            r@ == self.name(),
    {
        match self {
            ApiVersion::V1 => "V1",
        }
    }

    /// The answer to a request that only asks whether the version exists.
    pub fn confidence_message(&self) -> (r: String)
        ensures
            r@ == "received request with version "@ + self.name(),
    {
        let mut r = "received request with version ".to_owned();
        r.append(self.as_str());
        r
    }
}

impl ApiVersionRejection {
    /// What the request is told.
    pub open spec fn text(self) -> Seq<char> {
        match self {
            ApiVersionRejection::Missing => MISSING_API_VERSION_MSG@,
            ApiVersionRejection::Unsupported => UNSUPPORTED_API_VERSION_MSG@,
        }
    }

    /// What the request is told.
    pub fn message(&self) -> (r: &'static str)
        ensures
            r@ == self.text(),
    {
        match self {
            ApiVersionRejection::Missing => MISSING_API_VERSION_MSG,
            ApiVersionRejection::Unsupported => UNSUPPORTED_API_VERSION_MSG,
        }
    }
}

} // verus!
