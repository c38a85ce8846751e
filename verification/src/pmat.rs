//! Installation validation for the analysis toolchain. Detecting the
//! installed version and probing features run external commands and live
//! with the embedding; the verified part assembles the validation result
//! from the plain values those probes hand back.

use vstd::prelude::*;
use crate::chars::{texts_view, push_text};

verus! {

/// Why validating the toolchain installation failed.
#[derive(Debug)]
pub enum PmatError {
    NotInstalled,
    VersionMismatch { expected: String, found: String },
    FeatureNotAvailable(String),
    CommandFailed(String),
}

/// What a validated installation looks like.
#[derive(Debug, Clone)]
pub struct PmatInfo {
    pub version: String,
    pub features: Vec<String>,
    pub mcp_enabled: bool,
}

/// The analysis features every validated installation is assumed to
/// offer.
pub open spec fn standard_features() -> Seq<Seq<char>> {
    seq!["complexity"@, "satd"@, "dead-code"@, "quality-gate"@]
}

/// Validates the toolchain installation from probe results.
pub struct PmatValidator;

impl PmatValidator {
    /// A validator.
    pub fn new() -> PmatValidator {
        PmatValidator
    }

    /// Assembles the installation record from the detected version and
    /// the probed feature flag; the feature list is the standard one.
    pub fn validate_installation(&self, version: String, mcp_enabled: bool) -> (r: PmatInfo)
        ensures
            r.version == version,
            r.mcp_enabled == mcp_enabled,
            texts_view(r.features@) == standard_features(),
    {
        let mut features: Vec<String> = Vec::new();
        proof {
            assert(texts_view(features@) =~= Seq::<Seq<char>>::empty());
        }
        push_text(&mut features, "complexity");
        push_text(&mut features, "satd");
        push_text(&mut features, "dead-code");
        push_text(&mut features, "quality-gate");
        proof {
            assert(texts_view(features@) =~= standard_features());
        }
        PmatInfo { version, features, mcp_enabled }
    }
}

} // verus!
