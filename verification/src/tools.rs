//! Command lines of the platform tools that the launcher shells out to, and
//! what it reads from their output.

use vstd::prelude::*;
use vstd::utf8::{decode_utf8, valid_utf8};

verus! {

/// The texts of a sequence of strings.
pub open spec fn texts(items: Seq<String>) -> Seq<Seq<char>> {
    items.map_values(|s: String| s@)
}

/// The text of an optional string.
pub open spec fn opt_text(s: Option<String>) -> Option<Seq<char>> {
    match s {
        Some(t) => Some(t@),
        None => None,
    }
}

/// Copies an optional string.
pub fn clone_opt(s: &Option<String>) -> (copy: Option<String>)
    ensures
        opt_text(copy) == opt_text(*s),
{
    match s {
        Some(t) => Some(t.clone()),
        None => None,
    }
}

/// Copies a list of strings.
pub fn clone_strings(items: &Vec<String>) -> (copy: Vec<String>)
    ensures
        texts(copy@) == texts(items@),
{
    let mut copy: Vec<String> = Vec::new();
    let mut i: usize = 0;
    while i < items.len()
        invariant
            i <= items.len(),
            copy@.len() == i,
            forall|j: int| 0 <= j < i ==> (#[trigger] copy@[j])@ == items@[j]@,
        decreases items.len() - i,
    {
        copy.push(items[i].clone());
        i += 1;
    }
    assert(texts(copy@) =~= texts(items@));
    copy
}

/// A command line to run: a program and its arguments.
#[derive(Debug)]
pub struct ToolInvocation {
    pub program: String,
    pub args: Vec<String>,
}

/// A command line as plain values.
pub struct InvocationView {
    pub program: Seq<char>,
    pub args: Seq<Seq<char>>,
}

impl View for ToolInvocation {
    type V = InvocationView;

    open spec fn view(&self) -> InvocationView {
        InvocationView { program: self.program@, args: texts(self.args@) }
    }
}

/// What came back from a tool that ran to its end.
#[derive(Debug)]
pub struct ToolOutput {
    /// Whether the tool exited with success.
    pub success: bool,
    /// What it wrote to its standard output.
    pub stdout: Vec<u8>,
}

/// `String::from_utf8` of the standard library: the text that the bytes
/// encode if they are valid UTF-8, nothing otherwise.
#[verifier::external_body]
pub(crate) fn utf8_text(bytes: Vec<u8>) -> (text: Option<String>)
    ensures
        text is Some <==> valid_utf8(bytes@),
        text matches Some(s) ==> s@ == decode_utf8(bytes@),
{
    String::from_utf8(bytes).ok()
}

/// The text that a tool's output gives, as far as it gives one.
pub open spec fn output_text(success: bool, stdout: Seq<u8>) -> Option<Seq<char>> {
    if success && valid_utf8(stdout) {
        Some(decode_utf8(stdout))
    } else {
        None
    }
}

/// The text that a tool printed: only a tool that succeeded and printed
/// valid UTF-8 gives one.
pub fn text_of_output(output: ToolOutput) -> (text: Option<String>)
    ensures
        opt_text(text) == output_text(output.success, output.stdout@),
{
    if output.success {
        utf8_text(output.stdout)
    } else {
        None
    }
}

} // verus!
