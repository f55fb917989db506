//! Data types shared by every image specification: readiness conditions,
//! sources of file content, and files staged into a container.

use vstd::prelude::*;

verus! {

/// A condition an external container runtime must observe before it may
/// treat a started container as usable.
#[derive(Clone, Debug, PartialEq, Eq)]
pub enum WaitFor {
    /// A log line containing the message appears on standard output.
    MessageOnStdout(String),
    /// A log line containing the message appears on standard error.
    MessageOnStderr(String),
}

/// Mathematical model of a readiness condition.
pub enum WaitForView {
    MessageOnStdout(Seq<char>),
    MessageOnStderr(Seq<char>),
}

impl View for WaitFor {
    type V = WaitForView;

    open spec fn view(&self) -> WaitForView {
        match self {
            WaitFor::MessageOnStdout(m) => WaitForView::MessageOnStdout(m@),
            WaitFor::MessageOnStderr(m) => WaitForView::MessageOnStderr(m@),
        }
    }
}

/// Content to be staged into a container: either inline bytes, or a
/// reference to a file on the host. A reference is resolved by the runtime
/// when it stages the file, never at configuration time.
#[derive(Clone, Debug, PartialEq, Eq)]
pub enum CopyDataSource {
    /// A path on the host whose content is read at staging time.
    File(String),
    /// Inline byte content.
    Data(Vec<u8>),
}

/// Mathematical model of a content source.
pub enum CopyDataSourceView {
    File(Seq<char>),
    Data(Seq<u8>),
}

impl View for CopyDataSource {
    type V = CopyDataSourceView;

    open spec fn view(&self) -> CopyDataSourceView {
        match self {
            CopyDataSource::File(p) => CopyDataSourceView::File(p@),
            CopyDataSource::Data(d) => CopyDataSourceView::Data(d@),
        }
    }
}

/// One file the runtime must copy into the container before or at startup.
#[derive(Clone, Debug, PartialEq, Eq)]
pub struct CopyToContainer {
    /// Where the content comes from.
    pub source: CopyDataSource,
    /// Absolute path inside the container at which it is staged.
    pub target: String,
}

/// Mathematical model of a staged file.
pub struct CopyToContainerView {
    pub source: CopyDataSourceView,
    pub target: Seq<char>,
}

impl View for CopyToContainer {
    type V = CopyToContainerView;

    open spec fn view(&self) -> CopyToContainerView {
        CopyToContainerView { source: self.source@, target: self.target@ }
    }
}

/// The views of a sequence of staged files, in order.
pub open spec fn staged_view(s: Seq<CopyToContainer>) -> Seq<CopyToContainerView> {
    s.map_values(|c: CopyToContainer| c@)
}

/// The views of a sequence of command tokens, in order.
pub open spec fn tokens_view(s: Seq<String>) -> Seq<Seq<char>> {
    s.map_values(|t: String| t@)
}

/// The views of a sequence of environment entries, in order.
pub open spec fn env_entries_view(s: Seq<(String, String)>) -> Seq<(Seq<char>, Seq<char>)> {
    s.map_values(|p: (String, String)| (p.0@, p.1@))
}

/// The views of a sequence of readiness conditions, in order.
pub open spec fn conditions_view(s: Seq<WaitFor>) -> Seq<WaitForView> {
    s.map_values(|w: WaitFor| w@)
}

} // verus!
