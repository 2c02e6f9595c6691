//! The project being documented: the packages of a workspace, the choice of
//! the package and of the target whose page is the entry point, and the
//! directories that follow from that choice.

use crate::path::PathWrapper;
use crate::text::{before_last, split_once_last};
use std::path::PathBuf;
use vstd::prelude::*;
use vstd::string::StringExecFns;

verus! {

/// The kinds of target that the choice of the documented target asks for.
#[derive(Clone, Copy, Debug, PartialEq, Eq, Structural)]
pub enum TargetKind {
    /// A library.
    Lib,
    /// A binary.
    Bin,
}

/// A buildable target of a package.
#[derive(Debug, PartialEq, Eq)]
pub struct TargetInfo {
    /// The target's name.
    pub name: String,
    /// Whether the target is a library.
    pub lib: bool,
    /// Whether the target is a binary.
    pub bin: bool,
}

/// What a [`TargetInfo`] holds.
pub struct TargetView {
    pub name: Seq<char>,
    pub lib: bool,
    pub bin: bool,
}

impl TargetView {
    /// Whether the target is of kind `kind`. A target can be of both kinds,
    /// or of neither.
    pub open spec fn is_kind(self, kind: TargetKind) -> bool {
        match kind {
            TargetKind::Lib => self.lib,
            TargetKind::Bin => self.bin,
        }
    }
}

impl View for TargetInfo {
    type V = TargetView;

    open spec fn view(&self) -> TargetView {
        TargetView { name: self.name@, lib: self.lib, bin: self.bin }
    }
}

impl DeepView for TargetInfo {
    type V = TargetView;

    open spec fn deep_view(&self) -> TargetView {
        self@
    }
}

impl TargetInfo {
    /// Whether the target is of kind `kind`.
    pub fn is_kind(&self, kind: TargetKind) -> (b: bool)
        ensures
            b == self@.is_kind(kind),
    {
        match kind {
            TargetKind::Lib => self.lib,
            TargetKind::Bin => self.bin,
        }
    }
}

impl Clone for TargetInfo {
    fn clone(&self) -> (copy: Self)
        ensures
            copy@ == self@,
    {
        TargetInfo { name: self.name.clone(), lib: self.lib, bin: self.bin }
    }
}

/// A package of the workspace.
#[derive(Debug, PartialEq, Eq)]
pub struct PackageInfo {
    /// The package's name.
    pub name: String,
    /// The path of the package's manifest file.
    pub manifest_path: String,
    /// The package's targets, in the order in which they are declared.
    pub targets: Vec<TargetInfo>,
}

/// What a [`PackageInfo`] holds.
pub struct PackageView {
    pub name: Seq<char>,
    pub manifest_path: Seq<char>,
    pub targets: Seq<TargetView>,
}

impl View for PackageInfo {
    type V = PackageView;

    open spec fn view(&self) -> PackageView {
        PackageView {
            name: self.name@,
            manifest_path: self.manifest_path@,
            targets: self.targets.deep_view(),
        }
    }
}

impl DeepView for PackageInfo {
    type V = PackageView;

    open spec fn deep_view(&self) -> PackageView {
        self@
    }
}

impl Clone for PackageInfo {
    fn clone(&self) -> (copy: Self)
        ensures
            copy@ == self@,
    {
        let mut targets: Vec<TargetInfo> = Vec::new();
        let mut i: usize = 0;
        while i < self.targets.len()
            invariant
                i <= self.targets.len(),
                targets.len() == i,
                forall|j: int| 0 <= j < i ==> targets[j]@ == self.targets[j]@,
            decreases self.targets.len() - i,
        {
            targets.push(self.targets[i].clone());
            i = i + 1;
        }
        assert(targets.deep_view() =~= self.targets.deep_view());
        PackageInfo { name: self.name.clone(), manifest_path: self.manifest_path.clone(), targets }
    }
}

/// The first item of `s` that `wanted` accepts.
pub open spec fn find_first<T>(s: Seq<T>, wanted: spec_fn(T) -> bool) -> Option<T>
    decreases s.len(),
{
    if s.len() == 0 {
        None
    } else if wanted(s.first()) {
        Some(s.first())
    } else {
        find_first(s.drop_first(), wanted)
    }
}

/// [`find_first`] finds nothing exactly when nothing is accepted, and
/// otherwise gives the accepted item in front of which none is accepted.
pub proof fn lemma_find_first<T>(s: Seq<T>, wanted: spec_fn(T) -> bool)
    ensures
        find_first(s, wanted) is None <==> forall|i: int| 0 <= i < s.len() ==> !wanted(s[i]),
        find_first(s, wanted) matches Some(found) ==> exists|i: int|
            0 <= i < s.len() && s[i] == found && wanted(found) && forall|j: int|
                0 <= j < i ==> !wanted(s[j]),
    decreases s.len(),
{
    if s.len() > 0 && !wanted(s.first()) {
        let rest = s.drop_first();
        lemma_find_first(rest, wanted);
        assert(forall|i: int| 0 <= i < rest.len() ==> rest[i] == s[i + 1]);
        if find_first(rest, wanted) is None {
            assert forall|i: int| 0 <= i < s.len() implies !wanted(s[i]) by {
                if i > 0 {
                    assert(s[i] == rest[i - 1]);
                }
            }
        } else {
            let found = find_first(rest, wanted)->0;
            let k = choose|i: int|
                0 <= i < rest.len() && rest[i] == found && wanted(found) && forall|j: int|
                    0 <= j < i ==> !wanted(rest[j]);
            assert forall|j: int| 0 <= j < k + 1 implies !wanted(s[j]) by {
                if j > 0 {
                    assert(s[j] == rest[j - 1]);
                }
            }
        }
    }
}

/// The first target of `targets` that is of kind `kind`.
pub open spec fn first_of_kind(targets: Seq<TargetView>, kind: TargetKind) -> Option<TargetView> {
    find_first(targets, |t: TargetView| t.is_kind(kind))
}

/// The target whose page is the entry point: the first library target, else
/// the first binary target, else the first target, if there is any.
pub open spec fn documented_target(targets: Seq<TargetView>) -> Option<TargetView> {
    if first_of_kind(targets, TargetKind::Lib) is Some {
        first_of_kind(targets, TargetKind::Lib)
    } else if first_of_kind(targets, TargetKind::Bin) is Some {
        first_of_kind(targets, TargetKind::Bin)
    } else if targets.len() > 0 {
        Some(targets[0])
    } else {
        None
    }
}

/// The first package of `packages` whose name is `name`.
pub open spec fn package_named(packages: Seq<PackageView>, name: Seq<char>) -> Option<
    PackageView,
> {
    find_first(packages, |p: PackageView| p.name == name)
}

/// The first target of `targets` that is of kind `kind`.
pub fn find_target(targets: &Vec<TargetInfo>, kind: TargetKind) -> (found: Option<&TargetInfo>)
    ensures
        found is Some <==> first_of_kind(targets.deep_view(), kind) is Some,
        found matches Some(t) ==> Some(t@) == first_of_kind(targets.deep_view(), kind),
{
    let ghost all = targets.deep_view();
    let ghost wanted = |t: TargetView| t.is_kind(kind);
    let mut i: usize = 0;
    assert(all.skip(0) =~= all);
    while i < targets.len()
        invariant
            i <= targets.len(),
            all == targets.deep_view(),
            wanted == (|t: TargetView| t.is_kind(kind)),
            find_first(all, wanted) == find_first(all.skip(i as int), wanted),
        decreases targets.len() - i,
    {
        if targets[i].is_kind(kind) {
            return Some(&targets[i]);
        }
        assert(all.skip(i as int).drop_first() =~= all.skip(i + 1));
        i = i + 1;
    }
    None
}

/// Chooses the target to document among `targets`.
pub fn select_target(targets: &Vec<TargetInfo>) -> (chosen: Option<&TargetInfo>)
    ensures
        chosen is Some <==> documented_target(targets.deep_view()) is Some,
        chosen matches Some(t) ==> Some(t@) == documented_target(targets.deep_view()),
        chosen is None <==> targets@.len() == 0,
{
    proof {
        lemma_find_first(targets.deep_view(), |t: TargetView| t.is_kind(TargetKind::Lib));
        lemma_find_first(targets.deep_view(), |t: TargetView| t.is_kind(TargetKind::Bin));
    }
    match find_target(targets, TargetKind::Lib) {
        Some(t) => Some(t),
        None => match find_target(targets, TargetKind::Bin) {
            Some(t) => Some(t),
            None => if targets.len() > 0 {
                Some(&targets[0])
            } else {
                None
            },
        },
    }
}

/// The first package of `packages` that is called `name`.
pub fn find_package<'a>(packages: &'a Vec<PackageInfo>, name: &String) -> (found: Option<
    &'a PackageInfo,
>)
    ensures
        found is Some <==> package_named(packages.deep_view(), name@) is Some,
        found matches Some(p) ==> Some(p@) == package_named(packages.deep_view(), name@),
{
    let ghost all = packages.deep_view();
    let ghost wanted = |p: PackageView| p.name == name@;
    let mut i: usize = 0;
    assert(all.skip(0) =~= all);
    while i < packages.len()
        invariant
            i <= packages.len(),
            all == packages.deep_view(),
            wanted == (|p: PackageView| p.name == name@),
            find_first(all, wanted) == find_first(all.skip(i as int), wanted),
        decreases packages.len() - i,
    {
        if packages[i].name == *name {
            return Some(&packages[i]);
        }
        assert(all.skip(i as int).drop_first() =~= all.skip(i + 1));
        i = i + 1;
    }
    None
}

/// What is known of a workspace when the project is resolved.
#[derive(Debug, PartialEq, Eq)]
pub struct Workspace {
    /// Every package of the workspace and of its dependencies.
    pub packages: Vec<PackageInfo>,
    /// The workspace's root package, if it has one.
    pub root_package: Option<PackageInfo>,
    /// The workspace's default members, in order.
    pub default_packages: Vec<PackageInfo>,
    /// The directory into which documentation is generated.
    pub doc_dir: String,
}

/// What a [`Workspace`] holds.
pub struct WorkspaceView {
    pub packages: Seq<PackageView>,
    pub root_package: Option<PackageView>,
    pub default_packages: Seq<PackageView>,
    pub doc_dir: Seq<char>,
}

impl View for Workspace {
    type V = WorkspaceView;

    open spec fn view(&self) -> WorkspaceView {
        WorkspaceView {
            packages: self.packages.deep_view(),
            root_package: self.root_package.deep_view(),
            default_packages: self.default_packages.deep_view(),
            doc_dir: self.doc_dir@,
        }
    }
}

/// Why no project could be resolved.
#[derive(Debug, PartialEq, Eq)]
pub enum ResolveError {
    /// A package was asked for by name and the workspace has none of that
    /// name.
    PackageNotFound { name: String },
    /// No package was asked for, and the workspace has neither a root
    /// package nor a default member.
    NoDefaultPackage,
    /// The chosen package has no target.
    NoTargets,
    /// The chosen package's manifest path names no directory.
    NoSourceDirectory,
}

/// What a [`ResolveError`] holds.
pub enum ResolveErrorView {
    PackageNotFound { name: Seq<char> },
    NoDefaultPackage,
    NoTargets,
    NoSourceDirectory,
}

impl View for ResolveError {
    type V = ResolveErrorView;

    open spec fn view(&self) -> ResolveErrorView {
        match self {
            ResolveError::PackageNotFound { name } => ResolveErrorView::PackageNotFound {
                name: name@,
            },
            ResolveError::NoDefaultPackage => ResolveErrorView::NoDefaultPackage,
            ResolveError::NoTargets => ResolveErrorView::NoTargets,
            ResolveError::NoSourceDirectory => ResolveErrorView::NoSourceDirectory,
        }
    }
}

impl ResolveErrorView {
    /// The cause, in words.
    pub open spec fn message(self) -> Seq<char> {
        match self {
            ResolveErrorView::PackageNotFound { name } => "Package `"@ + name
                + "` not found. Are you sure you pointed to the right crate root and package name?"@,
            ResolveErrorView::NoDefaultPackage =>
                "No package was specified and there was no root package either"@,
            ResolveErrorView::NoTargets => "This crate has no targets!"@,
            ResolveErrorView::NoSourceDirectory =>
                "The package's manifest path names no directory"@,
        }
    }
}

impl ResolveError {
    /// The cause, in words, for the user to read.
    pub fn message(&self) -> (text: String)
        ensures
            text@ == self@.message(),
    {
        match self {
            ResolveError::PackageNotFound { name } => {
                let mut text = String::from_str("Package `");
                text.append(name.as_str());
                text.append(
                    "` not found. Are you sure you pointed to the right crate root and package name?",
                );
                text
            },
            ResolveError::NoDefaultPackage => String::from_str(
                "No package was specified and there was no root package either",
            ),
            ResolveError::NoTargets => String::from_str("This crate has no targets!"),
            ResolveError::NoSourceDirectory => String::from_str(
                "The package's manifest path names no directory",
            ),
        }
    }
}

/// The package to document: the one asked for by name, else the root
/// package, else the first default member.
pub open spec fn chosen_package(workspace: WorkspaceView, wanted: Option<Seq<char>>) -> Result<
    PackageView,
    ResolveErrorView,
> {
    match wanted {
        Some(name) => match package_named(workspace.packages, name) {
            Some(package) => Ok(package),
            None => Err(ResolveErrorView::PackageNotFound { name }),
        },
        None => match workspace.root_package {
            Some(package) => Ok(package),
            None => if workspace.default_packages.len() > 0 {
                Ok(workspace.default_packages[0])
            } else {
                Err(ResolveErrorView::NoDefaultPackage)
            },
        },
    }
}

/// The directory to watch for a package whose manifest is at
/// `manifest_path`: `src/` next to the manifest.
pub open spec fn source_dir_of(manifest_path: Seq<char>) -> Option<Seq<char>> {
    if manifest_path.contains('/') {
        Some(before_last(manifest_path, '/') + "/src/"@)
    } else {
        None
    }
}

/// Chooses the package to document.
pub fn choose_package<'a>(workspace: &'a Workspace, wanted: &Option<String>) -> (r: Result<
    &'a PackageInfo,
    ResolveError,
>)
    ensures
        match r {
            Ok(package) => chosen_package(workspace@, wanted.deep_view()) == Ok::<
                PackageView,
                ResolveErrorView,
            >(package@),
            Err(e) => chosen_package(workspace@, wanted.deep_view()) == Err::<
                PackageView,
                ResolveErrorView,
            >(e@),
        },
{
    match wanted {
        Some(name) => match find_package(&workspace.packages, name) {
            Some(package) => Ok(package),
            None => Err(ResolveError::PackageNotFound { name: name.clone() }),
        },
        None => match &workspace.root_package {
            Some(package) => Ok(package),
            None => if workspace.default_packages.len() > 0 {
                Ok(&workspace.default_packages[0])
            } else {
                Err(ResolveError::NoDefaultPackage)
            },
        },
    }
}

/// The directory to watch for a package whose manifest is at
/// `manifest_path`, or `None` if the path has no `/` in it.
pub fn source_dir(manifest_path: &str) -> (dir: Option<String>)
    ensures
        dir.deep_view() == source_dir_of(manifest_path@),
{
    match split_once_last(manifest_path, '/') {
        Some((parent, _)) => {
            let mut dir = String::from_str(parent);
            dir.append("/src/");
            Some(dir)
        },
        None => None,
    }
}

/// The project being served, fixed once at startup: no operation changes it.
pub struct ProjectReference {
    root: PathWrapper,
    package: String,
    unit: String,
    source_dir: String,
    output_dir: String,
}

/// What a [`ProjectReference`] holds.
pub struct ProjectView {
    /// The project's root directory.
    pub root: PathBuf,
    /// The name of the package that is built.
    pub package: Seq<char>,
    /// The name of the target whose page is the entry point.
    pub unit: Seq<char>,
    /// The directory that is watched for changes.
    pub source_dir: Seq<char>,
    /// The directory that is served.
    pub output_dir: Seq<char>,
}

impl View for ProjectReference {
    type V = ProjectView;

    closed spec fn view(&self) -> ProjectView {
        ProjectView {
            root: self.root@,
            package: self.package@,
            unit: self.unit@,
            source_dir: self.source_dir@,
            output_dir: self.output_dir@,
        }
    }
}

impl ProjectReference {
    /// The project's root directory.
    pub fn root(&self) -> (root: &PathWrapper)
        ensures
            root@ == self@.root,
    {
        &self.root
    }

    /// The name of the package that is built.
    pub fn package_name(&self) -> (name: &str)
        ensures
            name@ == self@.package,
    {
        self.package.as_str()
    }

    /// The name of the target whose page is the entry point.
    pub fn unit_name(&self) -> (name: &str)
        ensures
            name@ == self@.unit,
    {
        self.unit.as_str()
    }

    /// The directory that is watched for changes.
    pub fn source_dir(&self) -> (dir: &str)
        ensures
            dir@ == self@.source_dir,
    {
        self.source_dir.as_str()
    }

    /// The directory that is served.
    pub fn output_dir(&self) -> (dir: &str)
        ensures
            dir@ == self@.output_dir,
    {
        self.output_dir.as_str()
    }
}

/// The project that `workspace` resolves to when `wanted` is asked for, or
/// the first cause for which it resolves to none: no package, then no
/// target, then no source directory.
pub open spec fn resolved(
    root: PathBuf,
    workspace: WorkspaceView,
    wanted: Option<Seq<char>>,
) -> Result<ProjectView, ResolveErrorView> {
    match chosen_package(workspace, wanted) {
        Err(e) => Err(e),
        Ok(package) => match documented_target(package.targets) {
            None => Err(ResolveErrorView::NoTargets),
            Some(target) => match source_dir_of(package.manifest_path) {
                None => Err(ResolveErrorView::NoSourceDirectory),
                Some(source_dir) => Ok(
                    ProjectView {
                        root,
                        package: package.name,
                        unit: target.name,
                        source_dir,
                        output_dir: workspace.doc_dir,
                    },
                ),
            },
        },
    }
}

/// Resolves the project rooted at `root`: chooses the package and the target
/// to document and derives the directories to watch and to serve.
pub fn resolve(root: PathWrapper, workspace: &Workspace, wanted: &Option<String>) -> (r: Result<
    ProjectReference,
    ResolveError,
>)
    ensures
        match r {
            Ok(project) => resolved(root@, workspace@, wanted.deep_view()) == Ok::<
                ProjectView,
                ResolveErrorView,
            >(project@),
            Err(e) => resolved(root@, workspace@, wanted.deep_view()) == Err::<
                ProjectView,
                ResolveErrorView,
            >(e@),
        },
{
    let package = match choose_package(workspace, wanted) {
        Ok(package) => package,
        Err(e) => {
            return Err(e);
        },
    };
    let target = match select_target(&package.targets) {
        Some(target) => target,
        None => {
            return Err(ResolveError::NoTargets);
        },
    };
    let source_dir = match source_dir(package.manifest_path.as_str()) {
        Some(dir) => dir,
        None => {
            return Err(ResolveError::NoSourceDirectory);
        },
    };
    Ok(
        ProjectReference {
            root,
            package: package.name.clone(),
            unit: target.name.clone(),
            source_dir,
            output_dir: workspace.doc_dir.clone(),
        },
    )
}

} // verus!
