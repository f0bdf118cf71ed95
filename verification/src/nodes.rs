//! Errors and outputs shared by the capability nodes.

use vstd::prelude::*;

verus! {

/// Failure of a capability node.
#[derive(Debug)]
pub enum NodeError {
    Session(String),
    NotReady(String),
    Other(String),
}

/// Output of the machine-translation node.
#[derive(Debug, Clone)]
pub struct MtOut {
    pub text: String,
    pub src_lang: String,
    pub tgt_lang: String,
}

} // verus!
