//! Generates a configuration file from the yay AUR helper.
//!
//! Capturing `yay -Qeq` and writing the output file are input/output and
//! live with the caller; the document text itself is built here.
use crate::generate::{render_config_text, spec_config_text};
use crate::util::single_string;
use vstd::prelude::*;

verus! {

/// Command-line input: where to write the generated configuration.
pub struct GenerateYay {
    /// Specifies the output path.
    pub output_file: String,
}

impl GenerateYay {
    /// The configuration text for a captured yay package list: yay by
    /// name, a no-confirmation `args` line, and the captured lines.
    pub fn config_text(&self, package_list: String) -> (r: String)
        ensures
            r@ == spec_config_text("yay"@, Option::Some(seq!["--noconfirm"@]), package_list@),
    {
        render_config_text("yay", Some(single_string("--noconfirm")), package_list)
    }
}

} // verus!
