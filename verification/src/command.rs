//! What came of running a program.

use vstd::prelude::*;
use crate::number::{signed_decimal, signed_text};
use crate::text::cat3;

verus! {

broadcast use {vstd::seq::group_seq_axioms, vstd::string::group_string_axioms};

/// What a program left behind.
#[derive(Debug)]
pub struct CommandOutput {
    pub success: bool,
    pub status_code: Option<i32>,
    pub stdout: String,
    pub stderr: String,
}

/// View of [`CommandOutput`].
#[verifier::ext_equal]
pub struct CommandOutputView {
    pub success: bool,
    pub status_code: Option<i32>,
    pub stdout: Seq<char>,
    pub stderr: Seq<char>,
}

impl DeepView for CommandOutput {
    type V = CommandOutputView;

    open spec fn deep_view(&self) -> CommandOutputView {
        CommandOutputView {
            success: self.success,
            status_code: self.status_code.deep_view(),
            stdout: self.stdout.deep_view(),
            stderr: self.stderr.deep_view(),
        }
    }
}

/// A status code as it is written for debugging.
pub open spec fn debug_code(code: Option<i32>) -> Seq<char> {
    match code {
        Some(n) => "Some("@ + signed_decimal(n as int) + ")"@,
        None => "None"@,
    }
}

/// A status code as it is written for debugging.
pub fn debug_code_text(code: Option<i32>) -> (r: String)
    ensures
        r@ == debug_code(code),
{
    match code {
        Some(n) => cat3("Some(", &signed_text(n as i64), ")"),
        None => "None".to_string(),
    }
}

/// An exit code is shown with its number; one that is missing as missing.
pub proof fn law_shown_codes(code: i32)
    ensures
        debug_code(Some(code)) == "Some("@ + signed_decimal(code as int) + ")"@,
        debug_code(None) == "None"@,
{
}

} // verus!
