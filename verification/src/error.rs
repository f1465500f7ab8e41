use vstd::prelude::*;

verus! {

/// Every failure the scaffolder can report.
///
/// Resolver errors (`NoLicense`, `InvalidLicense`, `UTF8Check`, `HomeDir`)
/// come from bad user input; `CreationError` and `CanonicalPath` come from
/// the filesystem; `TemplateNotFound` marks an internal inconsistency
/// (a kind scheduled a file against a template name absent from its own
/// catalog); `RenderError` a template body that does not render.
#[derive(Clone, Copy, Debug, PartialEq, Eq, Structural)]
pub enum Error {
    /// No license identifier was supplied.
    NoLicense,
    /// The supplied license identifier names no known license.
    InvalidLicense,
    /// A name or path is empty or not pure ASCII.
    UTF8Check,
    /// The home directory could not be determined.
    HomeDir,
    /// A directory could not be created.
    CreationError,
    /// The project path could not be canonicalized.
    CanonicalPath,
    /// A scheduled template name is absent from the registry.
    TemplateNotFound,
    /// A template body failed to render against the context.
    RenderError,
}

} // verus!
