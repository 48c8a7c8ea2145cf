//! Syntax-level module references: paths to modules and import statements.

use vstd::prelude::*;

verus! {

/// A path to a module of the package being compiled, as a sequence of path
/// components.
#[derive(Clone, Debug, PartialEq)]
pub struct InternalModulePath {
    components: Vec<String>,
}

impl InternalModulePath {
    pub fn new(components: Vec<String>) -> (path: InternalModulePath)
        ensures
            path.spec_components() == components@,
    {
        InternalModulePath { components }
    }

    pub closed spec fn spec_components(&self) -> Seq<String> {
        self.components@
    }

    pub fn components(&self) -> (components: &Vec<String>)
        ensures
            components@ == self.spec_components(),
    {
        &self.components
    }
}

/// A path to a module of another package: the package name followed by
/// path components within it.
#[derive(Clone, Debug, PartialEq)]
pub struct ExternalModulePath {
    package: String,
    components: Vec<String>,
}

impl ExternalModulePath {
    pub fn new(package: &str, components: Vec<String>) -> (path: ExternalModulePath)
        ensures
            path.spec_package() == package@,
            path.spec_components() == components@,
    {
        ExternalModulePath { package: package.to_owned(), components }
    }

    pub closed spec fn spec_package(&self) -> Seq<char> {
        self.package@
    }

    pub closed spec fn spec_components(&self) -> Seq<String> {
        self.components@
    }

    pub fn components(&self) -> (components: &Vec<String>)
        ensures
            components@ == self.spec_components(),
    {
        &self.components
    }
}

/// A reference to a module, internal or external.
#[derive(Clone, Debug, PartialEq)]
pub enum ModulePath {
    Internal(InternalModulePath),
    External(ExternalModulePath),
}

impl ModulePath {
    /// The path components, without any package name.
    pub open spec fn path_components(&self) -> Seq<String> {
        match self {
            ModulePath::Internal(path) => path.spec_components(),
            ModulePath::External(path) => path.spec_components(),
        }
    }
}

/// An import statement: the module it names, the prefix its qualified
/// names carry, and the names imported unqualified.
#[derive(Clone, Debug, PartialEq)]
pub struct Import {
    path: ModulePath,
    prefix: Option<String>,
    unqualified_names: Vec<String>,
}

impl Import {
    pub fn new(path: ModulePath, prefix: Option<String>, unqualified_names: Vec<String>)
        -> (import: Import)
        ensures
            *import.spec_path() == path,
            import.spec_prefix() == prefix,
            import.spec_unqualified_names() == unqualified_names@,
    {
        Import { path, prefix, unqualified_names }
    }

    pub closed spec fn spec_path(&self) -> &ModulePath {
        &self.path
    }

    pub closed spec fn spec_prefix(&self) -> Option<String> {
        self.prefix
    }

    pub closed spec fn spec_unqualified_names(&self) -> Seq<String> {
        self.unqualified_names@
    }

    pub fn path(&self) -> (path: &ModulePath)
        ensures
            path == self.spec_path(),
    {
        &self.path
    }

    pub fn prefix(&self) -> (prefix: Option<&str>)
        ensures
            match prefix {
                Some(prefix) => self.spec_prefix() is Some && prefix@
                    == self.spec_prefix().unwrap()@,
                None => self.spec_prefix() is None,
            },
    {
        match &self.prefix {
            Some(prefix) => Some(prefix.as_str()),
            None => None,
        }
    }

    pub fn unqualified_names(&self) -> (unqualified_names: &[String])
        ensures
            unqualified_names@ == self.spec_unqualified_names(),
    {
        self.unqualified_names.as_slice()
    }
}

} // verus!
