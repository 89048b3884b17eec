//! The catalog: a workspace's packages and their targets, as plain data.

use crate::kind::{KindModel, TargetKind};
use vstd::prelude::*;

verus! {

/// The mathematical value of a target.
pub struct TargetModel {
    pub name: Seq<char>,
    pub src_path: Seq<char>,
    pub kind: KindModel,
}

/// The mathematical value of a package.
pub struct PackageModel {
    pub id: Seq<char>,
    pub name: Seq<char>,
    pub version: Seq<char>,
    pub manifest_path: Seq<char>,
    pub targets: Seq<TargetModel>,
}

/// One compilable artifact of a package. `src_path` is empty where the
/// toolchain resolved no path.
#[derive(Debug, Clone, PartialEq, Eq)]
pub struct Target {
    pub name: String,
    pub src_path: String,
    pub kind: TargetKind,
}

/// One buildable unit of a workspace, with its targets in the order in which
/// the toolchain reported them.
#[derive(Debug, Clone, PartialEq, Eq)]
pub struct Package {
    pub id: String,
    pub name: String,
    pub version: String,
    pub manifest_path: String,
    pub targets: Vec<Target>,
}

/// A snapshot of a workspace, taken when it was loaded: its member packages
/// in the order in which the toolchain reported them.
#[derive(Debug, Clone, PartialEq, Eq)]
pub struct WorkspaceDescriptor {
    pub packages: Vec<Package>,
}

impl View for Target {
    type V = TargetModel;

    open spec fn view(&self) -> TargetModel {
        TargetModel { name: self.name@, src_path: self.src_path@, kind: self.kind@ }
    }
}

/// The values of a list of targets, in order.
pub open spec fn target_models(targets: Seq<Target>) -> Seq<TargetModel> {
    targets.map_values(|t: Target| t@)
}

impl View for Package {
    type V = PackageModel;

    open spec fn view(&self) -> PackageModel {
        PackageModel {
            id: self.id@,
            name: self.name@,
            version: self.version@,
            manifest_path: self.manifest_path@,
            targets: target_models(self.targets@),
        }
    }
}

/// The values of a list of packages, in order.
pub open spec fn package_models(packages: Seq<Package>) -> Seq<PackageModel> {
    packages.map_values(|p: Package| p@)
}

impl View for WorkspaceDescriptor {
    type V = Seq<PackageModel>;

    open spec fn view(&self) -> Seq<PackageModel> {
        package_models(self.packages@)
    }
}

/// Whether every package has a name and no two packages share one.
pub open spec fn names_are_keys(packages: Seq<PackageModel>) -> bool {
    &&& forall|i: int| 0 <= i < packages.len() ==> (#[trigger] packages[i]).name.len() > 0
    &&& forall|i: int, j: int|
        0 <= i < j < packages.len() ==> (#[trigger] packages[i]).name != (#[trigger] packages[j]).name
}

impl Target {
    /// A copy with the same value.
    pub fn duplicate(&self) -> (copy: Target)
        ensures
            copy@ == self@,
    {
        Target {
            name: self.name.clone(),
            src_path: self.src_path.clone(),
            kind: self.kind.duplicate(),
        }
    }
}

impl Package {
    /// A copy with the same value.
    pub fn duplicate(&self) -> (copy: Package)
        ensures
            copy@ == self@,
    {
        let mut targets: Vec<Target> = Vec::new();
        let mut i: usize = 0;
        while i < self.targets.len()
            invariant
                i <= self.targets.len(),
                targets@.len() == i,
                forall|j: int| 0 <= j < i ==> (#[trigger] targets@[j])@ == self.targets@[j]@,
            decreases self.targets.len() - i,
        {
            targets.push(self.targets[i].duplicate());
            i += 1;
        }
        assert(target_models(targets@) =~= target_models(self.targets@));
        Package {
            id: self.id.clone(),
            name: self.name.clone(),
            version: self.version.clone(),
            manifest_path: self.manifest_path.clone(),
            targets,
        }
    }
}

impl WorkspaceDescriptor {
    /// Whether the package names can serve as keys.
    pub open spec fn well_formed(&self) -> bool {
        names_are_keys(self@)
    }

    /// Whether every package has a name and no two packages share one:
    /// whether a package's name finds the package.
    pub fn names_are_keys(&self) -> (valid: bool)
        ensures
            valid == self.well_formed(),
    {
        let mut i: usize = 0;
        while i < self.packages.len()
            invariant
                i <= self.packages.len(),
                self@.len() == self.packages@.len(),
                forall|a: int| 0 <= a < i ==> (#[trigger] self@[a]).name.len() > 0,
                forall|a: int, b: int|
                    0 <= a < b < i ==> (#[trigger] self@[a]).name != (#[trigger] self@[b]).name,
            decreases self.packages.len() - i,
        {
            assert(self@[i as int] == self.packages@[i as int]@);
            if self.packages[i].name.as_str().unicode_len() == 0 {
                return false;
            }
            let mut k: usize = 0;
            while k < i
                invariant
                    k <= i,
                    i < self.packages.len(),
                    self@.len() == self.packages@.len(),
                    forall|a: int| 0 <= a < k ==> (#[trigger] self@[a]).name != self@[i as int].name,
                decreases i - k,
            {
                assert(self@[k as int] == self.packages@[k as int]@);
                assert(self@[i as int] == self.packages@[i as int]@);
                if self.packages[k].name == self.packages[i].name {
                    return false;
                }
                k += 1;
            }
            i += 1;
        }
        true
    }

    /// A copy with the same value.
    pub fn duplicate(&self) -> (copy: WorkspaceDescriptor)
        ensures
            copy@ == self@,
    {
        let mut packages: Vec<Package> = Vec::new();
        let mut i: usize = 0;
        while i < self.packages.len()
            invariant
                i <= self.packages.len(),
                packages@.len() == i,
                forall|j: int| 0 <= j < i ==> (#[trigger] packages@[j])@ == self.packages@[j]@,
            decreases self.packages.len() - i,
        {
            packages.push(self.packages[i].duplicate());
            i += 1;
        }
        assert(package_models(packages@) =~= package_models(self.packages@));
        WorkspaceDescriptor { packages }
    }
}

} // verus!
