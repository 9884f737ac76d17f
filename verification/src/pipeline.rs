use vstd::prelude::*;
use vstd::string::StrSliceExecFns;

use crate::data::DataHolder;
use crate::data::DataHolderView;
use crate::error::SniprunError;
use crate::level::SupportLevel;

verus! {

/// Characters stripped from a selected block when deciding whether it is
/// effectively empty.
pub open spec fn is_bloc_whitespace(c: char) -> bool {
    c == ' ' || c == '\t' || c == '\n' || c == '\r'
}

/// A selected block counts as absent when stripping all whitespace
/// characters leaves nothing.
pub open spec fn bloc_blank(s: Seq<char>) -> bool {
    forall|i: int| 0 <= i < s.len() ==> is_bloc_whitespace(s[i])
}

/// A current line counts as absent when stripping spaces leaves nothing.
pub open spec fn line_blank(s: Seq<char>) -> bool {
    forall|i: int| 0 <= i < s.len() ==> s[i] == ' '
}

/// The code the fetch stage must select: the selected block verbatim when it
/// is non-blank and the current level permits block execution; otherwise the
/// current line verbatim when it is non-blank and the level permits line
/// execution; otherwise nothing. A blank selection is treated as absent
/// input, never as an error.
pub open spec fn fetched_code(d: DataHolderView, level: SupportLevel) -> Seq<char> {
    if !bloc_blank(d.current_bloc) && SupportLevel::Bloc.rank() <= level.rank() {
        d.current_bloc
    } else if !line_blank(d.current_line) && SupportLevel::Line.rank() <= level.rank() {
        d.current_line
    } else {
        Seq::<char>::empty()
    }
}

/// Law: a non-blank selected block at level `Bloc` or above is selected
/// verbatim, whatever the current line holds.
pub proof fn lemma_fetch_prefers_bloc(d: DataHolderView, level: SupportLevel)
    requires
        !bloc_blank(d.current_bloc),
        SupportLevel::Bloc.rank() <= level.rank(),
    ensures
        fetched_code(d, level) == d.current_bloc,
{
}

/// Law: when the selected block is blank but the current line is non-blank
/// and the level permits line execution, the current line is selected
/// verbatim.
pub proof fn lemma_fetch_falls_back_to_line(d: DataHolderView, level: SupportLevel)
    requires
        bloc_blank(d.current_bloc),
        !line_blank(d.current_line),
        SupportLevel::Line.rank() <= level.rank(),
    ensures
        fetched_code(d, level) == d.current_line,
{
}

/// Law: when neither source is both non-blank and permitted by the current
/// level, the fetch stage selects nothing.
pub proof fn lemma_fetch_yields_empty(d: DataHolderView, level: SupportLevel)
    requires
        bloc_blank(d.current_bloc) || level.rank() < SupportLevel::Bloc.rank(),
        line_blank(d.current_line) || level.rank() < SupportLevel::Line.rank(),
    ensures
        fetched_code(d, level) == Seq::<char>::empty(),
{
}

/// Whether `s` strips to nothing under the block whitespace rule.
pub fn bloc_is_blank(s: &str) -> (r: bool)
    ensures
        r == bloc_blank(s@),
{
    let n: usize = s.unicode_len();
    let mut i: usize = 0;
    while i < n
        invariant
            n == s@.len(),
            0 <= i <= n,
            forall|j: int| 0 <= j < i ==> is_bloc_whitespace(s@[j]),
        decreases n - i,
    {
        let c = s.get_char(i);
        if !(c == ' ' || c == '\t' || c == '\n' || c == '\r') {
            assert(!is_bloc_whitespace(s@[i as int]));
            return false;
        }
        i = i + 1;
    }
    true
}

/// Whether `s` strips to nothing under the line rule (spaces only).
pub fn line_is_blank(s: &str) -> (r: bool)
    ensures
        r == line_blank(s@),
{
    let n: usize = s.unicode_len();
    let mut i: usize = 0;
    while i < n
        invariant
            n == s@.len(),
            0 <= i <= n,
            forall|j: int| 0 <= j < i ==> s@[j] == ' ',
        decreases n - i,
    {
        let c = s.get_char(i);
        if c != ' ' {
            return false;
        }
        i = i + 1;
    }
    true
}

/// The on-disk file the build stage materializes: the path fixed at
/// construction and the exact text to write there.
pub struct Artifact {
    pub path: String,
    pub content: String,
}

/// Writing an artifact creates or truncates its file: the file's final
/// content is exactly the artifact's content, whatever was there before.
pub open spec fn file_content_after_write(prev: Seq<char>, a: Artifact) -> Seq<char> {
    a.content@
}

/// Law: building twice from the same buffer leaves the artifact file with
/// identical final content; the second write fully overwrites the first.
pub proof fn lemma_build_idempotent(prev: Seq<char>, a1: Artifact, a2: Artifact)
    requires
        a1.content@ == a2.content@,
    ensures
        file_content_after_write(file_content_after_write(prev, a1), a2)
            == file_content_after_write(prev, a1),
{
}

/// The external invocation the execute stage asks for: the tool binary, then
/// the artifact path as first argument, then the caller-supplied extra
/// arguments in their given order.
pub struct ExecutionRequest {
    pub program: String,
    pub args: Vec<String>,
}

/// Classification of an external tool's outcome by its exit status alone: a
/// success status yields the captured standard-output text, any other status
/// a [`SniprunError::RuntimeError`] carrying the captured standard-error
/// text.
pub fn classify_execution(success: bool, stdout: String, stderr: String) -> (r: Result<
    String,
    SniprunError,
>)
    ensures
        success ==> r == Result::<String, SniprunError>::Ok(stdout),
        !success ==> r == Result::<String, SniprunError>::Err(
            SniprunError::RuntimeError(stderr),
        ),
{
    if success {
        Ok(stdout)
    } else {
        Err(SniprunError::RuntimeError(stderr))
    }
}

/// The lifecycle contract every language backend implements.
///
/// A backend is bound at construction to one editing context and one support
/// level, then driven through the strictly sequential stages fetch ->
/// augment -> build -> execute by the runner; a stage failure aborts the
/// rest. The stages that touch the environment (directory provisioning, the
/// artifact write, the external invocation) exchange plain values with the
/// surrounding program: the build stage hands back the [`Artifact`] to
/// write, and the execute stage is split into the [`ExecutionRequest`] to
/// run and [`classify_execution`] on what came back.
pub trait Interpreter: Sized {
    /// Model of the editing context the backend was bound to.
    spec fn data_spec(&self) -> DataHolderView;

    /// The backend's current support level.
    spec fn level_spec(&self) -> SupportLevel;

    /// Model of the backend's in-memory code buffer.
    spec fn code_spec(&self) -> Seq<char>;

    /// Model of the artifact path fixed at construction.
    spec fn artifact_path_spec(&self) -> Seq<char>;

    /// The backend's stable identifying name.
    spec fn name_spec() -> Seq<char>;

    /// The language tags the backend answers to; the first is the canonical
    /// display name, the rest are matching aliases.
    spec fn languages_spec() -> Seq<Seq<char>>;

    /// The backend's declared capability ceiling.
    spec fn max_level_spec() -> SupportLevel;

    /// The external tool binary the backend invokes.
    spec fn program_spec() -> Seq<char>;

    /// How the augment stage wraps a fetched buffer with language-required
    /// scaffolding.
    spec fn boilerplate_spec(code: Seq<char>) -> Seq<char>;

    /// Constructs an instance bound to `data` and `level`, with an empty
    /// code buffer.
    fn new_with_level(data: DataHolder, level: SupportLevel) -> (r: Box<Self>)
        ensures
            (*r).data_spec() == data@,
            (*r).level_spec() == level,
            (*r).code_spec() == Seq::<char>::empty(),
    ;

    /// Constructs an instance at the backend's declared maximum level.
    fn new(data: DataHolder) -> (r: Box<Self>)
        ensures
            (*r).data_spec() == data@,
            (*r).level_spec() == Self::max_level_spec(),
            (*r).code_spec() == Seq::<char>::empty(),
    ;

    /// The non-empty, ordered language tags used for dispatch.
    fn get_supported_languages() -> (r: Vec<String>)
        ensures
            r.deep_view() == Self::languages_spec(),
            r@.len() > 0,
    ;

    /// The backend's stable, unique identifier.
    fn get_name() -> (r: String)
        ensures
            r@ == Self::name_spec(),
    ;

    /// The current support level.
    fn get_current_level(&self) -> (r: SupportLevel)
        ensures
            r == self.level_spec(),
    ;

    /// Adjusts the current support level; setting a level above the declared
    /// maximum is a caller error the backend does not guard against.
    fn set_current_level(&mut self, level: SupportLevel)
        ensures
            final(self).level_spec() == level,
            final(self).data_spec() == old(self).data_spec(),
            final(self).code_spec() == old(self).code_spec(),
            final(self).artifact_path_spec() == old(self).artifact_path_spec(),
    ;

    /// An owned copy of the bound editing context.
    fn get_data(&self) -> (r: DataHolder)
        ensures
            r@ == self.data_spec(),
    ;

    /// The backend's declared capability ceiling.
    fn get_max_support_level() -> (r: SupportLevel)
        ensures
            r == Self::max_level_spec(),
    ;

    /// Tie-break flag for the runner when several backends claim the same
    /// filetype.
    fn default_for_filetype() -> bool;

    /// Fetch stage: fills the buffer with exactly [`fetched_code`] of the
    /// bound context and current level; never fails, a blank selection
    /// merely leaves the buffer empty.
    fn fetch_code(&mut self) -> (r: Result<(), SniprunError>)
        ensures
            r is Ok,
            final(self).code_spec() == fetched_code(old(self).data_spec(), old(self).level_spec()),
            final(self).data_spec() == old(self).data_spec(),
            final(self).level_spec() == old(self).level_spec(),
            final(self).artifact_path_spec() == old(self).artifact_path_spec(),
    ;

    /// Augment stage: wraps the buffer with the backend's scaffolding.
    fn add_boilerplate(&mut self) -> (r: Result<(), SniprunError>)
        ensures
            r is Ok,
            final(self).code_spec() == Self::boilerplate_spec(old(self).code_spec()),
            final(self).data_spec() == old(self).data_spec(),
            final(self).level_spec() == old(self).level_spec(),
            final(self).artifact_path_spec() == old(self).artifact_path_spec(),
    ;

    /// Build stage: the artifact to materialize, holding the buffer verbatim
    /// at the path fixed at construction. The backend itself is left
    /// unchanged, so repeated builds from the same buffer yield identical
    /// artifacts.
    fn build(&mut self) -> (r: Artifact)
        ensures
            *final(self) == *old(self),
            r.path@ == old(self).artifact_path_spec(),
            r.content@ == old(self).code_spec(),
    ;

    /// Execute stage, first half: the external invocation to perform — the
    /// tool binary with the artifact path as first argument followed by the
    /// caller-supplied extra arguments, in that fixed order. The second half
    /// is [`classify_execution`] on the tool's outcome.
    fn execution_command(&self) -> (r: ExecutionRequest)
        ensures
            r.program@ == Self::program_spec(),
            r.args.deep_view() == seq![self.artifact_path_spec()] + self.data_spec().cli_args,
    ;
}

/// Drives the in-memory stages in their required order — construct, fetch,
/// augment, build — and hands back the backend together with the artifact to
/// materialize: the artifact holds, at the path fixed at construction, the
/// backend's scaffolding wrapped around exactly the code the fetch policy
/// selects from `data` at `level`. What remains for the surrounding program
/// is the environment work: writing the artifact, invoking the tool named by
/// [`Interpreter::execution_command`], and handing its outcome to
/// [`classify_execution`].
pub fn prepare_artifact<I: Interpreter>(data: DataHolder, level: SupportLevel) -> (r: (
    Box<I>,
    Artifact,
))
    ensures
        r.0.data_spec() == data@,
        r.0.level_spec() == level,
        r.0.code_spec() == I::boilerplate_spec(fetched_code(data@, level)),
        r.1.path@ == r.0.artifact_path_spec(),
        r.1.content@ == I::boilerplate_spec(fetched_code(data@, level)),
{
    let mut backend: Box<I> = I::new_with_level(data, level);
    // neither of these two stages can fail, by their contracts
    let _fetched: Result<(), SniprunError> = backend.fetch_code();
    let _augmented: Result<(), SniprunError> = backend.add_boilerplate();
    let artifact = backend.build();
    (backend, artifact)
}

/// Marker capability a backend may also implement to signal that it supports
/// incremental, REPL-style execution; empty in the base case, an extension
/// point for stateful backends.
pub trait ReplLikeInterpreter {

}

} // verus!
