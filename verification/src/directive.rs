use vstd::prelude::*;
use crate::strutil::concat_str;

verus! {

/// How a library is handed to the enclosing build tool: with the platform's
/// default link kind, explicitly as a dynamic library, or explicitly as a
/// static one.
#[derive(Clone, Copy, PartialEq, Eq, Structural, Debug)]
pub enum LinkKind {
    Default,
    Dylib,
    Static,
}

/// One instruction to the enclosing build tool.
#[derive(Debug)]
pub enum Directive {
    /// Add a native library search path.
    SearchNative { path: String },
    /// Link the named library with the given kind.
    LinkLib { name: String, kind: LinkKind },
    /// Re-run the orchestration when the named path changes.
    RerunIfChanged { path: String },
}

/// The mathematical shape of a directive, over character sequences.
#[verifier::ext_equal]
pub enum DirectiveModel {
    SearchNative { path: Seq<char> },
    LinkLib { name: Seq<char>, kind: LinkKind },
    RerunIfChanged { path: Seq<char> },
}

impl View for Directive {
    type V = DirectiveModel;

    open spec fn view(&self) -> DirectiveModel {
        match self {
            Directive::SearchNative { path } => DirectiveModel::SearchNative { path: path@ },
            Directive::LinkLib { name, kind } => DirectiveModel::LinkLib {
                name: name@,
                kind: *kind,
            },
            Directive::RerunIfChanged { path } => DirectiveModel::RerunIfChanged { path: path@ },
        }
    }
}

impl DeepView for Directive {
    type V = DirectiveModel;

    open spec fn deep_view(&self) -> DirectiveModel {
        self.view()
    }
}

/// Every way this orchestrator can fail. All failures are fatal: the driver
/// stops at the first one and reports it.
#[derive(Debug)]
pub enum BuildError {
    /// A required environment variable is unset; `var` names it exactly.
    MissingEnvVar { var: String },
    /// A declared library directory could not be canonicalized.
    BadLibDir { path: String },
    /// A declared library directory could not be opened.
    UnreadableLibDir { path: String },
    /// A bundled source tree could not be opened.
    UnreadableDir { path: String },
    /// A declared library directory exists but holds nothing.
    EmptyLibDir { path: String },
    /// A bundled codec source tree is absent or empty.
    MissingSubmodule { path: String },
    /// A source file pattern could not be parsed.
    BadPattern { pattern: String },
    /// Walking the files under a source file pattern failed.
    WalkFailed { pattern: String },
    /// The engine's public header could not be parsed into bindings.
    HeaderParseFailed,
}

/// The mathematical shape of a failure, over character sequences.
#[verifier::ext_equal]
pub enum ErrorModel {
    MissingEnvVar { var: Seq<char> },
    BadLibDir { path: Seq<char> },
    UnreadableLibDir { path: Seq<char> },
    UnreadableDir { path: Seq<char> },
    EmptyLibDir { path: Seq<char> },
    MissingSubmodule { path: Seq<char> },
    BadPattern { pattern: Seq<char> },
    WalkFailed { pattern: Seq<char> },
    HeaderParseFailed,
}

impl View for BuildError {
    type V = ErrorModel;

    open spec fn view(&self) -> ErrorModel {
        match self {
            BuildError::MissingEnvVar { var } => ErrorModel::MissingEnvVar { var: var@ },
            BuildError::BadLibDir { path } => ErrorModel::BadLibDir { path: path@ },
            BuildError::UnreadableLibDir { path } => ErrorModel::UnreadableLibDir { path: path@ },
            BuildError::UnreadableDir { path } => ErrorModel::UnreadableDir { path: path@ },
            BuildError::EmptyLibDir { path } => ErrorModel::EmptyLibDir { path: path@ },
            BuildError::MissingSubmodule { path } => ErrorModel::MissingSubmodule { path: path@ },
            BuildError::BadPattern { pattern } => ErrorModel::BadPattern { pattern: pattern@ },
            BuildError::WalkFailed { pattern } => ErrorModel::WalkFailed { pattern: pattern@ },
            BuildError::HeaderParseFailed => ErrorModel::HeaderParseFailed,
        }
    }
}

impl DeepView for BuildError {
    type V = ErrorModel;

    open spec fn deep_view(&self) -> ErrorModel {
        self.view()
    }
}

/// What `message` returns for each failure.
pub open spec fn message_model(e: ErrorModel) -> Seq<char> {
    match e {
        ErrorModel::MissingEnvVar { var } => "You must set "@ + var
            + " and it must be valid UTF-8 in order to link this library!"@,
        ErrorModel::BadLibDir { path } => "Failed to canonicalize "@ + path,
        ErrorModel::UnreadableLibDir { path } => "Failed to open library dir "@ + path,
        ErrorModel::UnreadableDir { path } => "Failed to open directory "@ + path,
        ErrorModel::EmptyLibDir { path } => "Library dir "@ + path
            + " is empty and is probably incorrect. Verify it is the correct path."@,
        ErrorModel::MissingSubmodule { path } => "The "@ + path
            + " directory is empty, did you forget to pull the submodules? Try `git submodule update --init --recursive`"@,
        ErrorModel::BadPattern { pattern } => "Invalid source file pattern "@ + pattern,
        ErrorModel::WalkFailed { pattern } => "Failed to walk files under "@ + pattern,
        ErrorModel::HeaderParseFailed => "Unable to generate RocksDB bindings"@,
    }
}

impl BuildError {
    /// The human-readable diagnostic that the build tool reports before
    /// aborting.
    pub fn message(&self) -> (r: String)
        ensures
            r@ == message_model(self@),
    {
        match self {
            BuildError::MissingEnvVar { var } => {
                let head = concat_str("You must set ", var.as_str());
                head.concat(" and it must be valid UTF-8 in order to link this library!")
            },
            BuildError::BadLibDir { path } => concat_str("Failed to canonicalize ", path.as_str()),
            BuildError::UnreadableLibDir { path } => concat_str(
                "Failed to open library dir ",
                path.as_str(),
            ),
            BuildError::UnreadableDir { path } => concat_str(
                "Failed to open directory ",
                path.as_str(),
            ),
            BuildError::EmptyLibDir { path } => {
                let head = concat_str("Library dir ", path.as_str());
                head.concat(" is empty and is probably incorrect. Verify it is the correct path.")
            },
            BuildError::MissingSubmodule { path } => {
                let head = concat_str("The ", path.as_str());
                head.concat(
                    " directory is empty, did you forget to pull the submodules? Try `git submodule update --init --recursive`",
                )
            },
            BuildError::BadPattern { pattern } => concat_str(
                "Invalid source file pattern ",
                pattern.as_str(),
            ),
            BuildError::WalkFailed { pattern } => concat_str(
                "Failed to walk files under ",
                pattern.as_str(),
            ),
            BuildError::HeaderParseFailed => String::from_str(
                "Unable to generate RocksDB bindings",
            ),
        }
    }
}

} // verus!
