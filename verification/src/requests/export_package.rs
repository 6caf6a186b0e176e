//! Exporting a deck to a native package file.

use vstd::prelude::*;

use crate::protocol::AnkiRequestable;

verus! {

/// Request to write the named deck to a native package at `path`,
/// optionally including scheduling data.
#[derive(Debug)]
pub struct ExportPackageRequest {
    pub deck: String,
    pub path: String,
    pub include_scheduling: bool,
}

/// Whether the service managed to write the package.
#[derive(Debug)]
pub struct ExportPackageResponse(pub bool);

impl AnkiRequestable for ExportPackageRequest {
    open spec fn spec_action() -> Seq<char> {
        "exportPackage"@
    }

    open spec fn spec_version() -> u16 {
        6
    }

    open spec fn spec_has_params() -> bool {
        true
    }

    fn action() -> &'static str {
        "exportPackage"
    }

    fn version() -> u16 {
        6
    }

    fn params(self) -> Option<Self> {
        Some(self)
    }
}

} // verus!
