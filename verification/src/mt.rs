//! Machine-translation node: a pass-through until a text translation model
//! is plugged in.

use vstd::prelude::*;
use crate::nodes::{MtOut, NodeError};
use crate::profile::Manifest;
use crate::text::copy_str;

verus! {

/// Translation node configured by a manifest.
pub struct MtNode {
    pub manifest: Manifest,
    pub src_lang: String,
    pub tgt_lang: String,
}

/// The source language of a manifest: its first listed language, else "auto".
pub open spec fn mt_source_spec(languages: Seq<String>) -> Seq<char> {
    if languages.len() > 0 { languages[0]@ } else { "auto"@ }
}

/// The target language of a manifest: its second listed language, else "en".
pub open spec fn mt_target_spec(languages: Seq<String>) -> Seq<char> {
    if languages.len() > 1 { languages[1]@ } else { "en"@ }
}


impl MtNode {
    /// A node whose language pair comes from the manifest's language list.
    pub fn from_manifest(manifest: Manifest) -> (r: Self)
        ensures
            r.manifest == manifest,
            r.src_lang@ == mt_source_spec(manifest.languages@),
            r.tgt_lang@ == mt_target_spec(manifest.languages@),
    {
        let src = if manifest.languages.len() > 0 {
            copy_str(manifest.languages[0].as_str())
        } else {
            String::from_str("auto")
        };
        let tgt = if manifest.languages.len() > 1 {
            copy_str(manifest.languages[1].as_str())
        } else {
            String::from_str("en")
        };
        MtNode { manifest, src_lang: src, tgt_lang: tgt }
    }

    /// Passes the text through unchanged, tagged with the node's language pair.
    pub fn process(&mut self, text: &str) -> (r: Result<MtOut, NodeError>)
        ensures
            *final(self) == *old(self),
            r matches Ok(out) && out.text@ == text@ && out.src_lang@ == old(self).src_lang@
                && out.tgt_lang@ == old(self).tgt_lang@,
    {
        if text.is_empty() {
            return Ok(MtOut {
                text: String::new(),
                src_lang: copy_str(self.src_lang.as_str()),
                tgt_lang: copy_str(self.tgt_lang.as_str()),
            });
        }
        Ok(MtOut {
            text: copy_str(text),
            src_lang: copy_str(self.src_lang.as_str()),
            tgt_lang: copy_str(self.tgt_lang.as_str()),
        })
    }
}

} // verus!
