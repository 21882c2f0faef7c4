//! Configuration of semantic analysis, fixed for the lifetime of a context.
use vstd::prelude::*;

verus! {

/// Version of the language rules used by semantic analysis.
#[derive(Debug, Clone, Copy, PartialEq, Eq, Structural, Hash, PartialOrd, Ord)]
pub struct LanguageVersion {
    pub major: u16,
    pub minor: u16,
    pub patch: u16,
}

impl LanguageVersion {
    /// A language version from its semantic version components.
    pub fn new(major: u16, minor: u16, patch: u16) -> (r: Self)
        ensures
            r == (LanguageVersion { major, minor, patch }),
    {
        Self { major, minor, patch }
    }
}

/// The namespace reserved by default for compiler-provided runtime symbols.
pub open spec fn default_runtime_namespace() -> Seq<char> {
    "__descar_builtin"@
}

/// Semantic configuration: the language version and the namespace reserved
/// for compiler-provided runtime symbols.
#[derive(Debug, PartialEq, Eq)]
pub struct SemanticConfig {
    language_version: LanguageVersion,
    runtime_namespace: String,
}

impl SemanticConfig {
    /// The language version.
    pub closed spec fn version(&self) -> LanguageVersion {
        self.language_version
    }

    /// The reserved runtime namespace.
    pub closed spec fn namespace(&self) -> Seq<char> {
        self.runtime_namespace@
    }

    /// A configuration for `language_version` with the default runtime namespace.
    pub fn new(language_version: LanguageVersion) -> (r: Self)
        ensures
            r.version() == language_version,
            r.namespace() == default_runtime_namespace(),
    {
        Self { language_version, runtime_namespace: String::from_str("__descar_builtin") }
    }

    /// The same configuration with `namespace` reserved for runtime symbols.
    pub fn with_runtime_namespace(self, namespace: String) -> (r: Self)
        ensures
            r.version() == self.version(),
            r.namespace() == namespace@,
    {
        let mut config = self;
        config.runtime_namespace = namespace;
        config
    }

    /// The language version used for semantic analysis.
    pub fn language_version(&self) -> (r: LanguageVersion)
        ensures
            r == self.version(),
    {
        self.language_version
    }

    /// The namespace reserved for compiler-provided runtime symbols.
    pub fn runtime_namespace(&self) -> (r: &str)
        ensures
            r@ == self.namespace(),
    {
        self.runtime_namespace.as_str()
    }

    /// A copy of the configuration.
    pub fn duplicate(&self) -> (r: Self)
        ensures
            r.version() == self.version(),
            r.namespace() == self.namespace(),
    {
        Self { language_version: self.language_version, runtime_namespace: self.runtime_namespace.clone() }
    }
}

impl Default for SemanticConfig {
    /// Version 0.1.0 of the language, with the default runtime namespace.
    fn default() -> (r: Self)
        ensures
            r.version() == (LanguageVersion { major: 0, minor: 1, patch: 0 }),
            r.namespace() == default_runtime_namespace(),
    {
        Self::new(LanguageVersion::new(0, 1, 0))
    }
}

} // verus!
