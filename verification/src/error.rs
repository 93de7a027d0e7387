//! What can go wrong while a robot description is turned into entities.

use vstd::prelude::*;

verus! {

/// Why a shape could not be taken over.
#[derive(Clone, Debug, PartialEq, Eq)]
pub enum TranslationError {
    /// A mesh is named by something other than `package://` and a path.
    MissingPackagePrefix { filename: String },
    /// A mesh is kept in a `.dae` file, which no loader here reads.
    UnsupportedMeshFormat { filename: String },
}

/// A [`TranslationError`] with the file's name as a sequence of characters.
pub enum TranslationErrorView {
    MissingPackagePrefix { filename: Seq<char> },
    UnsupportedMeshFormat { filename: Seq<char> },
}

impl View for TranslationError {
    type V = TranslationErrorView;

    open spec fn view(&self) -> TranslationErrorView {
        match self {
            TranslationError::MissingPackagePrefix { filename } => {
                TranslationErrorView::MissingPackagePrefix { filename: filename@ }
            },
            TranslationError::UnsupportedMeshFormat { filename } => {
                TranslationErrorView::UnsupportedMeshFormat { filename: filename@ }
            },
        }
    }
}

impl TranslationError {
    /// The name of the file that was refused.
    pub fn filename(&self) -> (name: &String)
        ensures
            name@ == match self@ {
                TranslationErrorView::MissingPackagePrefix { filename } => filename,
                TranslationErrorView::UnsupportedMeshFormat { filename } => filename,
            },
    {
        match self {
            TranslationError::MissingPackagePrefix { filename } => filename,
            TranslationError::UnsupportedMeshFormat { filename } => filename,
        }
    }
}

} // verus!
