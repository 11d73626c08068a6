//! Building a shader program: the decisions between the driver calls.
//!
//! A program is built from a vertex stage and a fragment stage. Each stage is
//! compiled on its own, the two are linked, and the stage objects are released.
//! Whenever the driver reports that a step failed, its diagnostic log is read
//! and kept, and the build goes on to the next step: the caller learns of every
//! failure at once, from one typed outcome.
//!
//! The driver is not called from here. A [`ProgramBuilder`] says which call is
//! due ([`ProgramBuilder::pending`]) and takes what the driver answered
//! ([`ProgramBuilder::advance`]).

use crate::source::ShaderSource;
use crate::source::SourceView;
use vstd::prelude::*;

verus! {

/// The size, in bytes, of the buffer into which a diagnostic log is read.
pub const LOG_CAPACITY: usize = 512;

/// The status value with which the driver reports that a step succeeded.
/// Every other value is a failure.
pub const STATUS_TRUE: i32 = 1;

/// One of the two programmable stages of a program.
#[derive(Clone, Copy, Debug, PartialEq, Eq, Structural)]
pub enum Stage {
    Vertex,
    Fragment,
}

/// One of the three steps of a build that the driver can fail.
#[derive(Clone, Copy, Debug, PartialEq, Eq, Structural)]
pub enum BuildStep {
    CompileVertex,
    CompileFragment,
    Link,
}

/// Where a build stands: the driver call whose answer is awaited.
#[derive(Clone, Copy, Debug, PartialEq, Eq, Structural)]
pub enum Phase {
    CompilingVertex,
    ReadingVertexLog,
    CompilingFragment,
    ReadingFragmentLog,
    Linking,
    ReadingLinkLog,
    Releasing,
    Finished,
}

/// The driver call that is due.
#[derive(Clone, Copy, Debug, PartialEq, Eq, Structural)]
pub enum BuildAction {
    /// Create a shader object for `stage`, hand it the stage's source text,
    /// compile it and query its compile status.
    Compile { stage: Stage },
    /// Read the diagnostic log of the shader object `shader` into a buffer of
    /// `capacity` bytes.
    ReadStageLog { stage: Stage, shader: u32, capacity: usize },
    /// Create a program object, attach both shader objects, link it and query
    /// its link status.
    Link { vertex: u32, fragment: u32 },
    /// Read the diagnostic log of the program object `program` into a buffer of
    /// `capacity` bytes.
    ReadProgramLog { program: u32, capacity: usize },
    /// Delete both shader objects.
    Release { vertex: u32, fragment: u32 },
    /// Nothing is left to do: the outcome can be taken.
    Finish,
}

/// What the driver answered to the call that was due.
#[derive(Debug)]
pub enum DriverReply {
    /// A stage was compiled into the shader object `shader`, with this compile status.
    Compiled { shader: u32, status: i32 },
    /// The stages were linked into the program object `program`, with this link status.
    Linked { program: u32, status: i32 },
    /// The diagnostic log that was asked for.
    Log { bytes: Vec<u8> },
    /// The stage objects were deleted.
    Released,
}

/// The mathematical value of a [`DriverReply`].
pub enum ReplyView {
    Compiled { shader: u32, status: i32 },
    Linked { program: u32, status: i32 },
    Log { bytes: Seq<u8> },
    Released,
}

impl View for DriverReply {
    type V = ReplyView;

    open spec fn view(&self) -> ReplyView {
        match *self {
            DriverReply::Compiled { shader, status } => ReplyView::Compiled { shader, status },
            DriverReply::Linked { program, status } => ReplyView::Linked { program, status },
            DriverReply::Log { bytes } => ReplyView::Log { bytes: bytes@ },
            DriverReply::Released => ReplyView::Released,
        }
    }
}

/// The mathematical value of a build in progress.
pub struct BuildView {
    pub phase: Phase,
    pub vertex_shader: u32,
    pub fragment_shader: u32,
    pub program: u32,
    /// The log of each step that failed so far, cut to [`LOG_CAPACITY`] bytes.
    pub vertex_log: Option<Seq<u8>>,
    pub fragment_log: Option<Seq<u8>>,
    pub link_log: Option<Seq<u8>>,
}

/// Whether a status value reports a failure.
pub open spec fn failed(status: i32) -> bool {
    status != STATUS_TRUE
}

/// A log cut to the size of the buffer that it was read into.
pub open spec fn bounded(log: Seq<u8>) -> Seq<u8> {
    if log.len() <= LOG_CAPACITY {
        log
    } else {
        log.subrange(0, LOG_CAPACITY as int)
    }
}

/// A build before the first driver call.
pub open spec fn initial() -> BuildView {
    BuildView {
        phase: Phase::CompilingVertex,
        vertex_shader: 0,
        fragment_shader: 0,
        program: 0,
        vertex_log: None,
        fragment_log: None,
        link_log: None,
    }
}

/// The driver call that is due in a given state.
pub open spec fn action_due(b: BuildView) -> BuildAction {
    match b.phase {
        Phase::CompilingVertex => BuildAction::Compile { stage: Stage::Vertex },
        Phase::ReadingVertexLog => BuildAction::ReadStageLog {
            stage: Stage::Vertex,
            shader: b.vertex_shader,
            capacity: LOG_CAPACITY,
        },
        Phase::CompilingFragment => BuildAction::Compile { stage: Stage::Fragment },
        Phase::ReadingFragmentLog => BuildAction::ReadStageLog {
            stage: Stage::Fragment,
            shader: b.fragment_shader,
            capacity: LOG_CAPACITY,
        },
        Phase::Linking => BuildAction::Link { vertex: b.vertex_shader, fragment: b.fragment_shader },
        Phase::ReadingLinkLog => BuildAction::ReadProgramLog {
            program: b.program,
            capacity: LOG_CAPACITY,
        },
        Phase::Releasing => BuildAction::Release {
            vertex: b.vertex_shader,
            fragment: b.fragment_shader,
        },
        Phase::Finished => BuildAction::Finish,
    }
}

/// The state that follows `b` when the driver answers `reply`, or `None` where
/// `reply` is not an answer to the call that was due in `b`.
///
/// A failed step is followed by the reading of its log, and then by the step
/// that would have followed its success: no failure ends the build early, and
/// the stage objects are released on every path.
pub open spec fn next(b: BuildView, reply: ReplyView) -> Option<BuildView> {
    match (b.phase, reply) {
        (Phase::CompilingVertex, ReplyView::Compiled { shader, status }) => Some(
            BuildView {
                vertex_shader: shader,
                phase: if failed(status) {
                    Phase::ReadingVertexLog
                } else {
                    Phase::CompilingFragment
                },
                ..b
            },
        ),
        (Phase::ReadingVertexLog, ReplyView::Log { bytes }) => Some(
            BuildView { vertex_log: Some(bounded(bytes)), phase: Phase::CompilingFragment, ..b },
        ),
        (Phase::CompilingFragment, ReplyView::Compiled { shader, status }) => Some(
            BuildView {
                fragment_shader: shader,
                phase: if failed(status) {
                    Phase::ReadingFragmentLog
                } else {
                    Phase::Linking
                },
                ..b
            },
        ),
        (Phase::ReadingFragmentLog, ReplyView::Log { bytes }) => Some(
            BuildView { fragment_log: Some(bounded(bytes)), phase: Phase::Linking, ..b },
        ),
        (Phase::Linking, ReplyView::Linked { program, status }) => Some(
            BuildView {
                program,
                phase: if failed(status) {
                    Phase::ReadingLinkLog
                } else {
                    Phase::Releasing
                },
                ..b
            },
        ),
        (Phase::ReadingLinkLog, ReplyView::Log { bytes }) => Some(
            BuildView { link_log: Some(bounded(bytes)), phase: Phase::Releasing, ..b },
        ),
        (Phase::Releasing, ReplyView::Released) => Some(BuildView { phase: Phase::Finished, ..b }),
        _ => None,
    }
}

/// Whether no step of the build has failed so far.
pub open spec fn clean(b: BuildView) -> bool {
    b.vertex_log is None && b.fragment_log is None && b.link_log is None
}

/// What holds of every state that a build can reach: a log is kept for a step
/// only once that step is behind, and no kept log is longer than the buffer.
pub open spec fn consistent(b: BuildView) -> bool {
    &&& b.vertex_log matches Some(log) ==> log.len() <= LOG_CAPACITY
    &&& b.fragment_log matches Some(log) ==> log.len() <= LOG_CAPACITY
    &&& b.link_log matches Some(log) ==> log.len() <= LOG_CAPACITY
    &&& (b.phase is CompilingVertex || b.phase is ReadingVertexLog) ==> b.vertex_log is None
    &&& (b.phase is CompilingVertex || b.phase is ReadingVertexLog || b.phase is CompilingFragment
        || b.phase is ReadingFragmentLog) ==> b.fragment_log is None
    &&& (b.phase !is Releasing && b.phase !is Finished) ==> b.link_log is None
}

/// The view of a log that may be absent.
pub open spec fn log_view(log: Option<Vec<u8>>) -> Option<Seq<u8>> {
    match log {
        Some(bytes) => Some(bytes@),
        None => None,
    }
}

/// A linked program: the handle under which the driver knows it.
///
/// A value of this type exists only for a build in which every step
/// succeeded ([`ProgramBuilder::finish`]).
#[derive(Debug)]
pub struct CompiledProgram {
    id: u32,
}

impl View for CompiledProgram {
    type V = u32;

    closed spec fn view(&self) -> u32 {
        self.id
    }
}

impl CompiledProgram {
    /// The driver's handle of the program.
    pub fn id(&self) -> (id: u32)
        ensures
            id == self@,
    {
        self.id
    }
}

/// The logs of the steps that failed, each cut to [`LOG_CAPACITY`] bytes.
/// A step that succeeded has none.
#[derive(Debug)]
pub struct Diagnostics {
    pub vertex: Option<Vec<u8>>,
    pub fragment: Option<Vec<u8>>,
    pub link: Option<Vec<u8>>,
}

/// The mathematical value of [`Diagnostics`].
pub struct DiagnosticsView {
    pub vertex: Option<Seq<u8>>,
    pub fragment: Option<Seq<u8>>,
    pub link: Option<Seq<u8>>,
}

impl View for Diagnostics {
    type V = DiagnosticsView;

    open spec fn view(&self) -> DiagnosticsView {
        DiagnosticsView {
            vertex: log_view(self.vertex),
            fragment: log_view(self.fragment),
            link: log_view(self.link),
        }
    }
}

/// A build in which at least one step failed.
#[derive(Debug)]
pub struct BuildFailure {
    /// The handle of the program object that was linked in vain. It is of no
    /// use but to be deleted.
    pub program: u32,
    pub diagnostics: Diagnostics,
}

/// Why a build gave no program.
#[derive(Debug)]
pub enum BuildError {
    /// The outcome was asked for before the build had finished.
    Unfinished,
    /// The driver reported a failure.
    Failed(BuildFailure),
}

/// The diagnostics that a build has gathered.
pub open spec fn diagnostics_of(b: BuildView) -> DiagnosticsView {
    DiagnosticsView { vertex: b.vertex_log, fragment: b.fragment_log, link: b.link_log }
}

/// Why a reply was not taken.
#[derive(Clone, Copy, Debug, PartialEq, Eq, Structural)]
pub enum ProtocolError {
    /// The reply does not answer the call that was due.
    UnexpectedReply,
}

/// A build in progress, of the program whose source it holds.
#[derive(Debug)]
pub struct ProgramBuilder {
    source: ShaderSource,
    phase: Phase,
    vertex_shader: u32,
    fragment_shader: u32,
    program: u32,
    vertex_log: Option<Vec<u8>>,
    fragment_log: Option<Vec<u8>>,
    link_log: Option<Vec<u8>>,
}

impl View for ProgramBuilder {
    type V = BuildView;

    closed spec fn view(&self) -> BuildView {
        BuildView {
            phase: self.phase,
            vertex_shader: self.vertex_shader,
            fragment_shader: self.fragment_shader,
            program: self.program,
            vertex_log: log_view(self.vertex_log),
            fragment_log: log_view(self.fragment_log),
            link_log: log_view(self.link_log),
        }
    }
}

/// Cuts a log to the size of the buffer.
fn bound_log(bytes: Vec<u8>) -> (cut: Vec<u8>)
    ensures
        cut@ == bounded(bytes@),
{
    let mut cut = bytes;
    if cut.len() > LOG_CAPACITY {
        cut.truncate(LOG_CAPACITY);
    }
    cut
}

impl ProgramBuilder {
    #[verifier::type_invariant]
    spec fn reachable(self) -> bool {
        consistent(self@)
    }

    /// The source of the program that is built.
    pub closed spec fn texts(&self) -> SourceView {
        self.source@
    }

    /// A build of the program with this source, before the first driver call.
    pub fn new(source: ShaderSource) -> (builder: ProgramBuilder)
        ensures
            builder@ == initial(),
            builder.texts() == source@,
    {
        ProgramBuilder {
            source,
            phase: Phase::CompilingVertex,
            vertex_shader: 0,
            fragment_shader: 0,
            program: 0,
            vertex_log: None,
            fragment_log: None,
            link_log: None,
        }
    }

    /// The source of the program that is built.
    pub fn source(&self) -> (source: &ShaderSource)
        ensures
            source@ == self.texts(),
    {
        &self.source
    }

    /// Where the build stands.
    pub fn phase(&self) -> (phase: Phase)
        ensures
            phase == self@.phase,
    {
        self.phase
    }

    /// The driver call that is due.
    pub fn pending(&self) -> (action: BuildAction)
        ensures
            action == action_due(self@),
    {
        match self.phase {
            Phase::CompilingVertex => BuildAction::Compile { stage: Stage::Vertex },
            Phase::ReadingVertexLog => BuildAction::ReadStageLog {
                stage: Stage::Vertex,
                shader: self.vertex_shader,
                capacity: LOG_CAPACITY,
            },
            Phase::CompilingFragment => BuildAction::Compile { stage: Stage::Fragment },
            Phase::ReadingFragmentLog => BuildAction::ReadStageLog {
                stage: Stage::Fragment,
                shader: self.fragment_shader,
                capacity: LOG_CAPACITY,
            },
            Phase::Linking => BuildAction::Link {
                vertex: self.vertex_shader,
                fragment: self.fragment_shader,
            },
            Phase::ReadingLinkLog => BuildAction::ReadProgramLog {
                program: self.program,
                capacity: LOG_CAPACITY,
            },
            Phase::Releasing => BuildAction::Release {
                vertex: self.vertex_shader,
                fragment: self.fragment_shader,
            },
            Phase::Finished => BuildAction::Finish,
        }
    }

    /// Takes the driver's answer to the call that was due and moves on to the
    /// next call. A reply that does not answer that call is refused, and the
    /// build stays where it was.
    pub fn advance(&mut self, reply: DriverReply) -> (taken: Result<(), ProtocolError>)
        ensures
            consistent(old(self)@),
            consistent(final(self)@),
            final(self).texts() == old(self).texts(),
            match next(old(self)@, reply@) {
                Some(after) => taken is Ok && final(self)@ == after,
                None => taken == Err::<(), ProtocolError>(ProtocolError::UnexpectedReply)
                    && final(self)@ == old(self)@,
            },
    {
        proof {
            use_type_invariant(&*self);
        }
        match (self.phase, reply) {
            (Phase::CompilingVertex, DriverReply::Compiled { shader, status }) => {
                self.vertex_shader = shader;
                self.phase = if status != STATUS_TRUE {
                    Phase::ReadingVertexLog
                } else {
                    Phase::CompilingFragment
                };
                Ok(())
            },
            (Phase::ReadingVertexLog, DriverReply::Log { bytes }) => {
                let cut = bound_log(bytes);
                self.phase = Phase::CompilingFragment;
                self.vertex_log = Some(cut);
                Ok(())
            },
            (Phase::CompilingFragment, DriverReply::Compiled { shader, status }) => {
                self.fragment_shader = shader;
                self.phase = if status != STATUS_TRUE {
                    Phase::ReadingFragmentLog
                } else {
                    Phase::Linking
                };
                Ok(())
            },
            (Phase::ReadingFragmentLog, DriverReply::Log { bytes }) => {
                let cut = bound_log(bytes);
                self.phase = Phase::Linking;
                self.fragment_log = Some(cut);
                Ok(())
            },
            (Phase::Linking, DriverReply::Linked { program, status }) => {
                self.program = program;
                self.phase = if status != STATUS_TRUE {
                    Phase::ReadingLinkLog
                } else {
                    Phase::Releasing
                };
                Ok(())
            },
            (Phase::ReadingLinkLog, DriverReply::Log { bytes }) => {
                let cut = bound_log(bytes);
                self.phase = Phase::Releasing;
                self.link_log = Some(cut);
                Ok(())
            },
            (Phase::Releasing, DriverReply::Released) => {
                self.phase = Phase::Finished;
                Ok(())
            },
            _ => Err(ProtocolError::UnexpectedReply),
        }
    }

    /// The outcome of the build: the program where every step succeeded, and
    /// else the log of each step that failed.
    pub fn finish(self) -> (outcome: Result<CompiledProgram, BuildError>)
        ensures
            consistent(self@),
            match outcome {
                Ok(program) => self@.phase is Finished && clean(self@) && program@
                    == self@.program,
                Err(BuildError::Unfinished) => self@.phase !is Finished,
                Err(BuildError::Failed(failure)) => self@.phase is Finished && !clean(self@)
                    && failure.program == self@.program && failure.diagnostics@
                    == diagnostics_of(self@),
            },
    {
        proof {
            use_type_invariant(&self);
        }
        match self.phase {
            Phase::Finished => {
                if self.vertex_log.is_none() && self.fragment_log.is_none()
                    && self.link_log.is_none() {
                    Ok(CompiledProgram { id: self.program })
                } else {
                    Err(
                        BuildError::Failed(
                            BuildFailure {
                                program: self.program,
                                diagnostics: Diagnostics {
                                    vertex: self.vertex_log,
                                    fragment: self.fragment_log,
                                    link: self.link_log,
                                },
                            },
                        ),
                    )
                }
            },
            _ => Err(BuildError::Unfinished),
        }
    }
}

/// The state that a build reaches from `b` when the driver gives `replies` in
/// turn, or `None` where one of them is refused.
pub open spec fn run(b: BuildView, replies: Seq<ReplyView>) -> Option<BuildView>
    decreases replies.len(),
{
    if replies.len() == 0 {
        Some(b)
    } else {
        match next(b, replies.first()) {
            Some(after) => run(after, replies.drop_first()),
            None => None,
        }
    }
}

/// What the driver makes of one step: the handle of the object that it
/// created, the status that it reports, and the log that it would hand out.
pub struct Verdict {
    pub handle: u32,
    pub status: i32,
    pub log: Seq<u8>,
}

/// The log that a build keeps of a step with this verdict.
pub open spec fn kept_log(verdict: Verdict) -> Option<Seq<u8>> {
    if failed(verdict.status) {
        Some(bounded(verdict.log))
    } else {
        None
    }
}

/// The driver's replies in a whole build, given what it makes of each step:
/// the log of a step is read if and only if the step failed.
pub open spec fn conversation(vertex: Verdict, fragment: Verdict, link: Verdict) -> Seq<
    ReplyView,
> {
    let compiled_vertex = seq![
        ReplyView::Compiled { shader: vertex.handle, status: vertex.status },
    ];
    let compiled_fragment = seq![
        ReplyView::Compiled { shader: fragment.handle, status: fragment.status },
    ];
    let linked = seq![ReplyView::Linked { program: link.handle, status: link.status }];
    compiled_vertex + log_reply(vertex) + compiled_fragment + log_reply(fragment) + linked
        + log_reply(link) + seq![ReplyView::Released]
}

/// The reply to the reading of a step's log: none where the step succeeded.
pub open spec fn log_reply(verdict: Verdict) -> Seq<ReplyView> {
    if failed(verdict.status) {
        seq![ReplyView::Log { bytes: verdict.log }]
    } else {
        Seq::empty()
    }
}

/// The state in which a build ends, given what the driver makes of each step.
pub open spec fn built(vertex: Verdict, fragment: Verdict, link: Verdict) -> BuildView {
    BuildView {
        phase: Phase::Finished,
        vertex_shader: vertex.handle,
        fragment_shader: fragment.handle,
        program: link.handle,
        vertex_log: kept_log(vertex),
        fragment_log: kept_log(fragment),
        link_log: kept_log(link),
    }
}

/// Replies given one after the other lead where the first ones lead, and on
/// from there.
pub proof fn lemma_run_concat(b: BuildView, first: Seq<ReplyView>, rest: Seq<ReplyView>)
    ensures
        run(b, first + rest) == match run(b, first) {
            Some(middle) => run(middle, rest),
            None => None,
        },
    decreases first.len(),
{
    if first.len() == 0 {
        assert(first + rest =~= rest);
    } else {
        assert((first + rest).first() == first.first());
        assert((first + rest).drop_first() =~= first.drop_first() + rest);
        match next(b, first.first()) {
            Some(after) => lemma_run_concat(after, first.drop_first(), rest),
            None => {},
        }
    }
}

/// One reply leads where `next` says.
pub proof fn lemma_run_one(b: BuildView, reply: ReplyView)
    ensures
        run(b, seq![reply]) == next(b, reply),
{
    let replies = seq![reply];
    assert(replies.first() == reply);
    assert(replies.drop_first() =~= Seq::<ReplyView>::empty());
    match next(b, reply) {
        Some(after) => {
            assert(run(after, replies.drop_first()) == Some(after));
        },
        None => {},
    }
}

/// Every state that a build reaches from a consistent one is consistent.
pub proof fn law_consistency_is_kept(b: BuildView, reply: ReplyView)
    requires
        consistent(b),
    ensures
        next(b, reply) matches Some(after) ==> consistent(after),
{
}

/// A build never ends without releasing the stage objects: the state before
/// a finished one is the one in which their release is due, with the handles
/// under which they were compiled.
pub proof fn law_release_precedes_finish(b: BuildView, reply: ReplyView)
    requires
        b.phase !is Finished,
        next(b, reply) matches Some(after) && after.phase is Finished,
    ensures
        action_due(b) == (BuildAction::Release {
            vertex: b.vertex_shader,
            fragment: b.fragment_shader,
        }),
        reply is Released,
{
}

/// Whatever the driver makes of the three steps, the build takes each of its
/// replies, ends, and has kept the log of exactly the steps that failed.
pub proof fn law_build_outcome(vertex: Verdict, fragment: Verdict, link: Verdict)
    ensures
        run(initial(), conversation(vertex, fragment, link)) == Some(
            built(vertex, fragment, link),
        ),
{
    let b0 = initial();
    let c_v = seq![ReplyView::Compiled { shader: vertex.handle, status: vertex.status }];
    let c_f = seq![ReplyView::Compiled { shader: fragment.handle, status: fragment.status }];
    let c_l = seq![ReplyView::Linked { program: link.handle, status: link.status }];
    let rel = seq![ReplyView::Released];
    let s1 = c_v;
    let s2 = s1 + log_reply(vertex);
    let s3 = s2 + c_f;
    let s4 = s3 + log_reply(fragment);
    let s5 = s4 + c_l;
    let s6 = s5 + log_reply(link);
    let s7 = s6 + rel;
    assert(s7 == conversation(vertex, fragment, link));

    lemma_run_one(b0, c_v[0]);
    let b1 = run(b0, s1).unwrap();
    lemma_run_concat(b0, s1, log_reply(vertex));
    if failed(vertex.status) {
        lemma_run_one(b1, log_reply(vertex)[0]);
    }
    let b2 = run(b0, s2).unwrap();
    assert(b2.phase is CompilingFragment);

    lemma_run_concat(b0, s2, c_f);
    lemma_run_one(b2, c_f[0]);
    let b3 = run(b0, s3).unwrap();
    lemma_run_concat(b0, s3, log_reply(fragment));
    if failed(fragment.status) {
        lemma_run_one(b3, log_reply(fragment)[0]);
    }
    let b4 = run(b0, s4).unwrap();
    assert(b4.phase is Linking);

    lemma_run_concat(b0, s4, c_l);
    lemma_run_one(b4, c_l[0]);
    let b5 = run(b0, s5).unwrap();
    lemma_run_concat(b0, s5, log_reply(link));
    if failed(link.status) {
        lemma_run_one(b5, log_reply(link)[0]);
    }
    let b6 = run(b0, s6).unwrap();
    assert(b6.phase is Releasing);

    lemma_run_concat(b0, s6, rel);
    lemma_run_one(b6, rel[0]);
}

/// Where the driver accepts both stages and the link, the build ends without
/// any diagnostic and with the program that was linked.
pub proof fn law_accepted_pair_builds(vertex: Verdict, fragment: Verdict, link: Verdict)
    requires
        !failed(vertex.status),
        !failed(fragment.status),
        !failed(link.status),
    ensures
        run(initial(), conversation(vertex, fragment, link)) matches Some(end) && end.phase
            is Finished && clean(end) && end.program == link.handle,
{
    law_build_outcome(vertex, fragment, link);
}

/// Where the driver rejects exactly one of the two stages, the build ends
/// with a diagnostic for that stage and with none for the other.
pub proof fn law_one_stage_rejected(vertex: Verdict, fragment: Verdict, link: Verdict)
    requires
        failed(vertex.status) != failed(fragment.status),
    ensures
        run(initial(), conversation(vertex, fragment, link)) matches Some(end) && end.phase
            is Finished && (end.vertex_log is Some <==> failed(vertex.status)) && (
        end.fragment_log is Some <==> failed(fragment.status)) && (end.vertex_log is Some
            != end.fragment_log is Some),
{
    law_build_outcome(vertex, fragment, link);
}

/// Where the driver rejects the link, the build ends with a diagnostic for
/// the link, whatever became of the stages.
pub proof fn law_rejected_link_is_reported(vertex: Verdict, fragment: Verdict, link: Verdict)
    requires
        failed(link.status),
    ensures
        run(initial(), conversation(vertex, fragment, link)) matches Some(end) && end.phase
            is Finished && end.link_log == Some(bounded(link.log)) && !clean(end),
{
    law_build_outcome(vertex, fragment, link);
}

} // verus!
