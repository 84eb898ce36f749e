//! The licence record of one dependency.
use vstd::prelude::*;

verus! {

/// The licence information of one crate that the application is built from.
#[derive(Clone, Debug)]
pub struct License {
    pub name: String,
    pub version: Option<String>,
    pub authors: Option<String>,
    pub repository: Option<String>,
    pub license: Option<String>,
    pub license_file: Option<String>,
    pub description: Option<String>,
}

} // verus!
