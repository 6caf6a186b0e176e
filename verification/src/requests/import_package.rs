//! Importing a native package file.

use vstd::prelude::*;

use crate::protocol::AnkiRequestable;

verus! {

/// Request to import the native package at `path`.
#[derive(Debug)]
pub struct ImportPackageRequest {
    pub path: String,
}

/// Whether the service managed to import the package.
#[derive(Debug)]
pub struct ImportPackageResponse(pub bool);

impl AnkiRequestable for ImportPackageRequest {
    open spec fn spec_action() -> Seq<char> {
        "importPackage"@
    }

    open spec fn spec_version() -> u16 {
        6
    }

    open spec fn spec_has_params() -> bool {
        true
    }

    fn action() -> &'static str {
        "importPackage"
    }

    fn version() -> u16 {
        6
    }

    fn params(self) -> Option<Self> {
        Some(self)
    }
}

} // verus!
