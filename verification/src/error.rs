//! The ways in which a request can fail.

use vstd::prelude::*;

verus! {

/// The mathematical value of a failure.
pub enum ErrorModel {
    Manifest(Seq<char>),
    ToolchainInvocation(Seq<char>),
    TargetNotFound,
    Compile(Seq<char>),
    NotOpened,
}

/// Why a request failed. Every failure ends the request: nothing is tried
/// again.
#[derive(Debug, Clone, PartialEq, Eq)]
pub enum CatalogError {
    /// Loading failed: the metadata query on the manifest could not be run
    /// or failed, or its report could not be understood. Holds the
    /// toolchain's or the parser's words.
    Manifest(String),
    /// The build engine could not be run at all. Holds the reason.
    ToolchainInvocation(String),
    /// No target of the workspace has the requested name and kind.
    TargetNotFound,
    /// The toolchain ran and the build failed. Holds its diagnostics as
    /// they came.
    Compile(String),
    /// The catalog was asked for before any workspace was loaded.
    NotOpened,
}

impl View for CatalogError {
    type V = ErrorModel;

    open spec fn view(&self) -> ErrorModel {
        match self {
            CatalogError::Manifest(detail) => ErrorModel::Manifest(detail@),
            CatalogError::ToolchainInvocation(detail) => ErrorModel::ToolchainInvocation(detail@),
            CatalogError::TargetNotFound => ErrorModel::TargetNotFound,
            CatalogError::Compile(detail) => ErrorModel::Compile(detail@),
            CatalogError::NotOpened => ErrorModel::NotOpened,
        }
    }
}

/// The text shown for a failure: the detail it carries, unchanged, or a
/// fixed sentence where it carries none.
pub open spec fn message_of(error: ErrorModel) -> Seq<char> {
    match error {
        ErrorModel::Manifest(detail) => detail,
        ErrorModel::ToolchainInvocation(detail) => detail,
        ErrorModel::TargetNotFound => "Example could not be located."@,
        ErrorModel::Compile(detail) => detail,
        ErrorModel::NotOpened => "no workspace loaded"@,
    }
}

impl CatalogError {
    /// The text to show for this failure.
    pub fn message(&self) -> (text: String)
        ensures
            text@ == message_of(self@),
    {
        match self {
            CatalogError::Manifest(detail) => detail.clone(),
            CatalogError::ToolchainInvocation(detail) => detail.clone(),
            CatalogError::TargetNotFound => "Example could not be located.".to_owned(),
            CatalogError::Compile(detail) => detail.clone(),
            CatalogError::NotOpened => "no workspace loaded".to_owned(),
        }
    }
}

/// The sentence for a missing target differs from the one for a catalog
/// that was never loaded.
pub proof fn lemma_fixed_messages_differ()
    ensures
        message_of(ErrorModel::TargetNotFound) != message_of(ErrorModel::NotOpened),
{
    reveal_strlit("Example could not be located.");
    reveal_strlit("no workspace loaded");
    assert("Example could not be located."@.len() == 29);
    assert("no workspace loaded"@.len() == 19);
}

} // verus!
