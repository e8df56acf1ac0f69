//! Where the response body goes: standard output, a file written from its
//! start, or a file that is appended to.

use vstd::prelude::*;
use crate::text::same_text;

verus! {

/// The output target that stands for standard output.
pub const ARG_OUTPUT_DEFAULT: &'static str = "-";

/// The characters of the target that stands for standard output.
pub open spec fn stdout_sentinel() -> Seq<char> {
    "-"@
}

/// The sink that was selected for the response body.
#[derive(Debug, PartialEq, Eq)]
pub enum SinkChoice {
    /// The process's standard output.
    StandardOutput,
    /// The existing file at this path, written after what it holds.
    AppendTo(String),
    /// The file at this path, created if absent and emptied if not.
    CreateOrTruncate(String),
}

/// A `SinkChoice` by its contents.
pub enum SinkChoiceView {
    StandardOutput,
    AppendTo(Seq<char>),
    CreateOrTruncate(Seq<char>),
}

impl View for SinkChoice {
    type V = SinkChoiceView;

    open spec fn view(&self) -> SinkChoiceView {
        match self {
            SinkChoice::StandardOutput => SinkChoiceView::StandardOutput,
            SinkChoice::AppendTo(path) => SinkChoiceView::AppendTo(path@),
            SinkChoice::CreateOrTruncate(path) => SinkChoiceView::CreateOrTruncate(path@),
        }
    }
}

/// How a file sink is to be opened.
#[derive(Clone, Copy, Debug, PartialEq, Eq, Structural)]
pub struct OpenFlags {
    pub write: bool,
    pub append: bool,
    pub create: bool,
    pub truncate: bool,
}

/// The flags for a file sink; standard output is not opened and has none.
pub open spec fn open_flags_of(choice: SinkChoiceView) -> Option<OpenFlags> {
    match choice {
        SinkChoiceView::StandardOutput => None,
        SinkChoiceView::AppendTo(_) => Some(
            OpenFlags { write: false, append: true, create: false, truncate: false },
        ),
        SinkChoiceView::CreateOrTruncate(_) => Some(
            OpenFlags { write: true, append: false, create: true, truncate: true },
        ),
    }
}

impl SinkChoice {
    /// The path of the file to open, unless the sink is standard output.
    pub fn path(&self) -> (r: Option<&str>)
        ensures
            match self@ {
                SinkChoiceView::StandardOutput => r is None,
                SinkChoiceView::AppendTo(p) => r matches Some(s) && s@ == p,
                SinkChoiceView::CreateOrTruncate(p) => r matches Some(s) && s@ == p,
            },
    {
        match self {
            SinkChoice::StandardOutput => None,
            SinkChoice::AppendTo(path) => Some(path.as_str()),
            SinkChoice::CreateOrTruncate(path) => Some(path.as_str()),
        }
    }

    /// The flags to open the file with, unless the sink is standard
    /// output. An appended file is never created or emptied; any other
    /// file is created if absent and emptied.
    pub fn open_flags(&self) -> (r: Option<OpenFlags>)
        ensures
            r == open_flags_of(self@),
    {
        match self {
            SinkChoice::StandardOutput => None,
            SinkChoice::AppendTo(_) => Some(
                OpenFlags { write: false, append: true, create: false, truncate: false },
            ),
            SinkChoice::CreateOrTruncate(_) => Some(
                OpenFlags { write: true, append: false, create: true, truncate: true },
            ),
        }
    }
}

/// The sink for an output target, a resume flag and the fact whether a
/// file already exists at the target. The rules apply in this order: the
/// sentinel means standard output; resuming onto an existing file appends;
/// anything else writes the file from its start.
pub open spec fn chosen_sink(target: Seq<char>, resume: bool, exists: bool) -> SinkChoiceView {
    if target == stdout_sentinel() {
        SinkChoiceView::StandardOutput
    } else if resume && exists {
        SinkChoiceView::AppendTo(target)
    } else {
        SinkChoiceView::CreateOrTruncate(target)
    }
}

/// Whether the choice of sink depends on what is on disk at all.
pub open spec fn depends_on_disk(target: Seq<char>, resume: bool) -> bool {
    target != stdout_sentinel() && resume
}

/// Selects the sink, given whether a file exists at the target.
pub fn choose_sink(target: &str, resume: bool, exists: bool) -> (r: SinkChoice)
    ensures
        r@ == chosen_sink(target@, resume, exists),
{
    if same_text(target, ARG_OUTPUT_DEFAULT) {
        SinkChoice::StandardOutput
    } else if resume && exists {
        SinkChoice::AppendTo(target.to_owned())
    } else {
        SinkChoice::CreateOrTruncate(target.to_owned())
    }
}

/// Asks `std::path::Path::exists` whether anything exists at `target`.
///
/// Trusted, and nothing is claimed: the answer depends on what is on disk
/// at the moment of the call.
#[verifier::external_body]
fn path_exists(target: &str) -> (r: bool) {
    std::path::Path::new(target).exists()
}

/// Selects the sink for an output target. The disk is looked at only
/// where the choice depends on it, that is for a target other than the
/// sentinel with the resume flag set; there the choice is the one that
/// `chosen_sink` makes for what was found.
pub fn resolve_sink(target: &str, resume: bool) -> (r: SinkChoice)
    ensures
        !depends_on_disk(target@, resume) ==> r@ == chosen_sink(target@, resume, false),
        depends_on_disk(target@, resume) ==> r@ == SinkChoiceView::AppendTo(target@) || r@
            == SinkChoiceView::CreateOrTruncate(target@),
        exists|found: bool| r@ == chosen_sink(target@, resume, found),
{
    let found: bool = if resume && !same_text(target, ARG_OUTPUT_DEFAULT) {
        path_exists(target)
    } else {
        false
    };
    let choice = choose_sink(target, resume, found);
    assert(choice@ == chosen_sink(target@, resume, found));
    choice
}

/// The table of sink selection, case by case: the sentinel always gives
/// standard output; an existing file is appended to when resuming and
/// written from its start when not; a file that does not exist yet is
/// created and written, with or without the resume flag.
pub proof fn lemma_sink_selection(target: Seq<char>, resume: bool, exists: bool)
    ensures
        target == stdout_sentinel() ==> chosen_sink(target, resume, exists)
            == SinkChoiceView::StandardOutput,
        target != stdout_sentinel() && exists && resume ==> chosen_sink(target, resume, exists)
            == SinkChoiceView::AppendTo(target),
        target != stdout_sentinel() && exists && !resume ==> chosen_sink(target, resume, exists)
            == SinkChoiceView::CreateOrTruncate(target),
        target != stdout_sentinel() && !exists ==> chosen_sink(target, resume, exists)
            == SinkChoiceView::CreateOrTruncate(target),
        open_flags_of(chosen_sink(target, resume, exists)) matches Some(flags) ==> (flags.append
            <==> resume && exists) && (flags.truncate <==> !(resume && exists)) && (flags.create
            <==> flags.truncate),
{
}

} // verus!
