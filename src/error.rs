use vstd::prelude::*;
use vstd::string::StringExecFns;

verus! {

/// What formatting a path with `{:?}` gives: its text in double quotes, with
/// special characters escaped.
pub uninterp spec fn debug_text_of(p: Seq<char>) -> Seq<char>;

/// Relies on `Debug` for `std::path::Path`: its text depends on the path's
/// text alone.
#[verifier::external_body]
fn path_debug_text(p: &str) -> (r: String)
    ensures
        r@ == debug_text_of(p@),
{
    format!("{:?}", std::path::Path::new(p))
}

/// Everything that can go wrong while bringing the application up.
#[derive(Debug)]
pub enum SupervisorError {
    /// Neither the executable's directory nor the working directory is usable.
    DirectoryResolutionFailure,
    /// The base directory holds no `package.json`.
    MarkerFileMissing { base_dir: String },
    /// The server's start command could not be spawned: `program` is the
    /// interpreter that was tried, `detail` what the system reported.
    SpawnFailure { program: String, detail: String },
    /// The GUI runtime could not be started.
    GuiRuntimeInitFailure { detail: String },
}

impl SupervisorError {
    /// The human-readable text of the error.
    pub open spec fn message_spec(&self) -> Seq<char> {
        match self {
            SupervisorError::DirectoryResolutionFailure => "cannot determine the application directory"@,
            SupervisorError::MarkerFileMissing { base_dir } => "package.json not found in "@ + debug_text_of(base_dir@),
            SupervisorError::SpawnFailure { detail, .. } =>
                "Failed to start server: "@ + detail@,
            SupervisorError::GuiRuntimeInitFailure { detail } =>
                "error while running the GUI runtime: "@ + detail@,
        }
    }

    /// Renders the error as a line of text for the diagnostic stream.
    pub fn message(&self) -> (r: String)
        ensures
            r@ == self.message_spec(),
    {
        match self {
            SupervisorError::DirectoryResolutionFailure => String::from_str(
                "cannot determine the application directory",
            ),
            SupervisorError::MarkerFileMissing { base_dir } => {
                let quoted = path_debug_text(base_dir.as_str());
                String::from_str("package.json not found in ").concat(quoted.as_str())
            },
            SupervisorError::SpawnFailure { detail, .. } => {
                String::from_str("Failed to start server: ").concat(detail.as_str())
            },
            SupervisorError::GuiRuntimeInitFailure { detail } => {
                String::from_str("error while running the GUI runtime: ").concat(detail.as_str())
            },
        }
    }
}

} // verus!
