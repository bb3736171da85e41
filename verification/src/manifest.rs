//! A small package-manifest model built in the synthesized-builder style.
//!
//! Each record type carries the companion builder a generator would emit for
//! it: a factory with every slot empty, one setter per field that stores its
//! value as present and returns the same instance for chaining, and a `build`
//! finalizer that takes every slot. An optional field's slot keeps the
//! declared type and is taken as it stands; a required field's slot is
//! optional-wrapped, and `build` reports the field by name when its slot is
//! empty instead of handing a record back.

use vstd::prelude::*;
use crate::runtime::BuildError;

verus! {

/// A manifest: two optional sub-sections.
#[derive(Debug, Clone, PartialEq, Eq, Hash)]
pub struct CargoToml {
    pub package: Option<Package>,
    pub workspace: Option<Workspace>,
}

/// The `package` sub-section: one optional field.
#[derive(Debug, Clone, PartialEq, Eq, Hash)]
pub struct Package {
    pub name: Option<String>,
}

/// The `workspace` sub-section: one required field.
#[derive(Debug, Clone, PartialEq, Eq, Hash)]
pub struct Workspace {
    pub members: Vec<String>,
}

impl Default for CargoToml {
    fn default() -> (d: Self)
        ensures
            d.package is None,
            d.workspace is None,
    {
        CargoToml { package: None, workspace: None }
    }
}

impl Default for Package {
    fn default() -> (d: Self)
        ensures
            d.name is None,
    {
        Package { name: None }
    }
}

impl Default for Workspace {
    fn default() -> (d: Self)
        ensures
            d.members@ == Seq::<String>::empty(),
    {
        Workspace { members: Vec::new() }
    }
}

/// The builder for `CargoToml`: both fields are optional, so each slot keeps
/// its declared type and `build` cannot fail.
pub struct CargoTomlBuilder {
    pub package: Option<Package>,
    pub workspace: Option<Workspace>,
}

/// The builder for `Package`: its one field is optional.
pub struct PackageBuilder {
    pub name: Option<String>,
}

/// The builder for `Workspace`: its one field is required, so its slot is
/// optional-wrapped and `build` fails by name when it was never set.
pub struct WorkspaceBuilder {
    pub members: Option<Vec<String>>,
}

impl CargoToml {
    /// A fresh builder, every slot empty.
    pub fn builder() -> (b: CargoTomlBuilder)
        ensures
            b.package is None,
            b.workspace is None,
    {
        CargoTomlBuilder { package: None, workspace: None }
    }
}

impl CargoTomlBuilder {
    /// Stores the `package` sub-section, overwriting any prior value.
    pub fn package(&mut self, package: Package) -> (ret: &mut Self)
        ensures
            *ret == (CargoTomlBuilder { package: Some(package), ..*old(self) }),
            *final(self) == *final(ret),
    {
        self.package = Some(package);
        self
    }

    /// Stores the `workspace` sub-section, overwriting any prior value.
    pub fn workspace(&mut self, workspace: Workspace) -> (ret: &mut Self)
        ensures
            *ret == (CargoTomlBuilder { workspace: Some(workspace), ..*old(self) }),
            *final(self) == *final(ret),
    {
        self.workspace = Some(workspace);
        self
    }

    /// The finalizer: takes both slots, leaving them empty. No field is
    /// required, so it always hands a record back.
    pub fn build(&mut self) -> (r: CargoToml)
        ensures
            r.package == old(self).package,
            r.workspace == old(self).workspace,
            final(self).package is None,
            final(self).workspace is None,
    {
        CargoToml { package: self.package.take(), workspace: self.workspace.take() }
    }
}

impl Package {
    /// A fresh builder, every slot empty.
    pub fn builder() -> (b: PackageBuilder)
        ensures
            b.name is None,
    {
        PackageBuilder { name: None }
    }
}

impl PackageBuilder {
    /// Stores the package name, overwriting any prior value. The parameter is
    /// the wrapped inner type of the optional field.
    pub fn name(&mut self, name: String) -> (ret: &mut Self)
        ensures
            *ret == (PackageBuilder { name: Some(name) }),
            *final(self) == *final(ret),
    {
        self.name = Some(name);
        self
    }

    /// The finalizer: takes the one (optional) slot, leaving it empty.
    pub fn build(&mut self) -> (r: Package)
        ensures
            r.name == old(self).name,
            final(self).name is None,
    {
        Package { name: self.name.take() }
    }
}

impl Workspace {
    /// A fresh builder, every slot empty: the required field is not
    /// pre-populated with a default.
    pub fn builder() -> (b: WorkspaceBuilder)
        ensures
            b.members is None,
    {
        WorkspaceBuilder { members: None }
    }
}

impl WorkspaceBuilder {
    /// Stores the member list, overwriting any prior value.
    pub fn members(&mut self, members: Vec<String>) -> (ret: &mut Self)
        ensures
            *ret == (WorkspaceBuilder { members: Some(members) }),
            *final(self) == *final(ret),
    {
        self.members = Some(members);
        self
    }

    /// The finalizer: takes the one slot, leaving it empty. The field is
    /// required, so an empty slot is reported by name instead of a record.
    pub fn build(&mut self) -> (r: Result<Workspace, BuildError>)
        ensures
            final(self).members is None,
            match r {
                Ok(w) => old(self).members == Some(w.members),
                Err(e) => old(self).members is None && e.field@ == "members"@,
            },
    {
        match self.members.take() {
            Some(members) => Ok(Workspace { members }),
            None => Err(BuildError { field: String::from_str("members") }),
        }
    }
}

} // verus!
