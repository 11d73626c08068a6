//! The text in which a failed build is reported.

use crate::shader::BuildStep;
use crate::shader::Diagnostics;
use crate::shader::DiagnosticsView;
use vstd::prelude::*;
use vstd::string::StringSliceAdditionalSpecFns;
use vstd::utf8::encode_utf8;
use vstd::utf8::is_ascii_chars;
use vstd::utf8::is_ascii_chars_encode_utf8;

verus! {

/// The line that heads the log of a failed step.
pub open spec fn heading_text(step: BuildStep) -> Seq<char> {
    match step {
        BuildStep::CompileVertex => "Vertex compilation failed\n"@,
        BuildStep::CompileFragment => "Fragment compilation failed\n"@,
        BuildStep::Link => "Program compilation failed\n"@,
    }
}

/// The report of one step: nothing where the step succeeded, and else its
/// heading, its log and a line end.
pub open spec fn step_report(step: BuildStep, log: Option<Seq<u8>>) -> Seq<u8> {
    match log {
        Some(bytes) => encode_utf8(heading_text(step)) + bytes + seq![10u8],
        None => Seq::empty(),
    }
}

/// The report of a build: the reports of its three steps, in their order.
pub open spec fn report_text(diagnostics: DiagnosticsView) -> Seq<u8> {
    step_report(BuildStep::CompileVertex, diagnostics.vertex) + step_report(
        BuildStep::CompileFragment,
        diagnostics.fragment,
    ) + step_report(BuildStep::Link, diagnostics.link)
}

/// The line that heads the log of a failed step.
pub fn heading(step: BuildStep) -> (text: &'static str)
    ensures
        text@ == heading_text(step),
{
    match step {
        BuildStep::CompileVertex => "Vertex compilation failed\n",
        BuildStep::CompileFragment => "Fragment compilation failed\n",
        BuildStep::Link => "Program compilation failed\n",
    }
}

/// Appends `bytes` to `out`.
fn append(out: &mut Vec<u8>, bytes: &[u8])
    ensures
        final(out)@ == old(out)@ + bytes@,
{
    let mut i: usize = 0;
    while i < bytes.len()
        invariant
            i <= bytes@.len(),
            out@ == old(out)@ + bytes@.subrange(0, i as int),
        decreases bytes@.len() - i,
    {
        out.push(bytes[i]);
        assert(bytes@.subrange(0, i as int).push(bytes@[i as int]) =~= bytes@.subrange(
            0,
            i + 1,
        ));
        i = i + 1;
    }
    assert(bytes@.subrange(0, i as int) =~= bytes@);
}

/// Appends the report of one step to `out`.
fn append_step(out: &mut Vec<u8>, step: BuildStep, log: &Option<Vec<u8>>)
    ensures
        final(out)@ == old(out)@ + step_report(step, crate::shader::log_view(*log)),
{
    match log {
        Some(bytes) => {
            append(out, heading(step).as_bytes());
            append(out, bytes.as_slice());
            out.push(10u8);
            assert(out@ =~= old(out)@ + (encode_utf8(heading_text(step)) + bytes@ + seq![10u8]));
        },
        None => {
            assert(out@ =~= old(out)@ + Seq::<u8>::empty());
        },
    }
}

impl Diagnostics {
    /// The report of the build, as the bytes of a text: for each step that
    /// failed its heading, its log and a line end. A log is the driver's and
    /// need not be valid UTF-8.
    pub fn report(&self) -> (text: Vec<u8>)
        ensures
            text@ == report_text(self@),
    {
        let mut text: Vec<u8> = Vec::new();
        append_step(&mut text, BuildStep::CompileVertex, &self.vertex);
        append_step(&mut text, BuildStep::CompileFragment, &self.fragment);
        append_step(&mut text, BuildStep::Link, &self.link);
        assert(text@ =~= report_text(self@));
        text
    }
}

/// A heading is plain ASCII, one byte to the character, and not empty.
pub proof fn lemma_heading_bytes(step: BuildStep)
    ensures
        is_ascii_chars(heading_text(step)),
        encode_utf8(heading_text(step)).len() == heading_text(step).len(),
        heading_text(step).len() > 0,
{
    reveal_strlit("Vertex compilation failed\n");
    reveal_strlit("Fragment compilation failed\n");
    reveal_strlit("Program compilation failed\n");
    is_ascii_chars_encode_utf8(heading_text(step));
}

/// A step is reported with a text that is not empty if and only if it failed.
pub proof fn law_step_reported_iff_failed(step: BuildStep, log: Option<Seq<u8>>)
    ensures
        step_report(step, log).len() > 0 <==> log is Some,
{
    lemma_heading_bytes(step);
}

/// The report of a build is empty if and only if no step failed.
pub proof fn law_report_empty_iff_clean(diagnostics: DiagnosticsView)
    ensures
        report_text(diagnostics).len() == 0 <==> (diagnostics.vertex is None
            && diagnostics.fragment is None && diagnostics.link is None),
{
    law_step_reported_iff_failed(BuildStep::CompileVertex, diagnostics.vertex);
    law_step_reported_iff_failed(BuildStep::CompileFragment, diagnostics.fragment);
    law_step_reported_iff_failed(BuildStep::Link, diagnostics.link);
}

} // verus!
