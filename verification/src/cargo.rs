//! Reading the workspace out of what `cargo metadata` reported.

use crate::project::{PackageInfo, PackageView, TargetInfo, Workspace};
use cargo_metadata::Metadata;
use vstd::prelude::*;

verus! {

/// `cargo_metadata::Metadata`, the parsed report; nothing inside it is
/// visible to proofs.
#[verifier::external_type_specification]
#[verifier::external_body]
pub struct ExMetadata(Metadata);

/// `cargo_metadata::Package`, one package of the report; nothing inside it
/// is visible to proofs.
#[verifier::external_type_specification]
#[verifier::external_body]
pub struct ExPackage(cargo_metadata::Package);

/// The `packages` field of `metadata`: every package it lists, in its
/// order, as this library reads a package.
pub uninterp spec fn listed_packages(metadata: Metadata) -> Seq<PackageView>;

/// What `Metadata::root_package` finds in `metadata`, as this library reads
/// a package.
pub uninterp spec fn root_package_of(metadata: Metadata) -> Option<PackageView>;

/// What `WorkspaceDefaultMembers::is_available` says of `metadata`: whether
/// it tells which workspace members are the default ones. Cargo before 1.71
/// does not report them.
pub uninterp spec fn default_members_known(metadata: Metadata) -> bool;

/// What `Metadata::workspace_default_packages` finds in `metadata`, as this
/// library reads a package.
pub uninterp spec fn default_packages_of(metadata: Metadata) -> Seq<PackageView>;

/// Copies out of a `cargo_metadata::Package` what this library reads of it:
/// the `name` and `manifest_path` fields as text, and of each entry of
/// `targets` its `name` and the answers of `Target::is_lib` and
/// `Target::is_bin`. The contract claims nothing of the outcome.
#[verifier::external_body]
fn package_of(package: &cargo_metadata::Package) -> (copy: PackageInfo) {
    PackageInfo {
        name: package.name.to_string(),
        manifest_path: package.manifest_path.to_string(),
        targets: package.targets.iter().map(
            |t| TargetInfo { name: t.name.clone(), lib: t.is_lib(), bin: t.is_bin() },
        ).collect(),
    }
}

/// The `packages` field of the report, each entry copied by `package_of`.
/// The contract gives that list its name.
#[verifier::external_body]
fn packages(metadata: &Metadata) -> (list: Vec<PackageInfo>)
    ensures
        list.deep_view() == listed_packages(*metadata),
{
    metadata.packages.iter().map(package_of).collect()
}

/// `Metadata::root_package`, its answer copied by `package_of`. The contract
/// gives that answer its name.
#[verifier::external_body]
fn root_package(metadata: &Metadata) -> (root: Option<PackageInfo>)
    ensures
        root.deep_view() == root_package_of(*metadata),
{
    metadata.root_package().map(package_of)
}

/// `WorkspaceDefaultMembers::is_available` on the report's
/// `workspace_default_members` field.
#[verifier::external_body]
fn has_default_members(metadata: &Metadata) -> (known: bool)
    ensures
        known == default_members_known(*metadata),
{
    metadata.workspace_default_members.is_available()
}

/// `Metadata::workspace_default_packages`, each entry copied by
/// `package_of`. It panics where the default members are not reported, so
/// the contract asks that they are; it gives the list its name.
#[verifier::external_body]
fn default_packages(metadata: &Metadata) -> (list: Vec<PackageInfo>)
    requires
        default_members_known(*metadata),
    ensures
        list.deep_view() == default_packages_of(*metadata),
{
    metadata.workspace_default_packages().into_iter().map(package_of).collect()
}

/// `Utf8Path::join` of the report's `target_directory` with `doc`, as text.
/// How the two are joined depends on the platform, so the contract claims
/// nothing of the outcome.
#[verifier::external_body]
fn doc_directory(metadata: &Metadata) -> (dir: String) {
    metadata.target_directory.join("doc").into_string()
}

impl Workspace {
    /// Reads the workspace out of `metadata`. Where the default members are
    /// not reported there are none.
    pub fn from_metadata(metadata: &Metadata) -> (workspace: Self)
        ensures
            workspace@.packages == listed_packages(*metadata),
            workspace@.root_package == root_package_of(*metadata),
            workspace@.default_packages == if default_members_known(*metadata) {
                default_packages_of(*metadata)
            } else {
                Seq::<PackageView>::empty()
            },
    {
        let default_packages = if has_default_members(metadata) {
            default_packages(metadata)
        } else {
            Vec::new()
        };
        assert(!default_members_known(*metadata) ==> default_packages.deep_view()
            =~= Seq::<PackageView>::empty());
        Workspace {
            packages: packages(metadata),
            root_package: root_package(metadata),
            default_packages,
            doc_dir: doc_directory(metadata),
        }
    }
}

} // verus!
