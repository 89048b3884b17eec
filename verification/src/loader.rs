//! From the toolchain's report to the catalog.

use crate::error::{message_of, CatalogError, ErrorModel};
use crate::kind::{kind_of, KindModel, TargetKind};
use crate::model::{
    names_are_keys, package_models, target_models, Package, PackageModel, Target, TargetModel,
    WorkspaceDescriptor,
};
use crate::record::{
    parse_metadata, parsed_metadata, texts, MetadataModel, MetadataRecord, PackageRecord,
    PackageRecordModel, TargetRecord, TargetRecordModel,
};
use vstd::prelude::*;

verus! {

/// The mathematical value of a query's outcome.
pub enum QueryModel {
    Output(Seq<char>),
    Failed(Seq<char>),
    NotStarted(Seq<char>),
}

/// How the toolchain's metadata query on a manifest ended.
#[derive(Debug, Clone, PartialEq, Eq)]
pub enum QueryOutcome {
    /// It ran and succeeded. Holds the report it printed.
    Output(String),
    /// It ran and failed. Holds what it printed about the failure.
    Failed(String),
    /// It could not be run. Holds the reason.
    NotStarted(String),
}

impl View for QueryOutcome {
    type V = QueryModel;

    open spec fn view(&self) -> QueryModel {
        match self {
            QueryOutcome::Output(text) => QueryModel::Output(text@),
            QueryOutcome::Failed(text) => QueryModel::Failed(text@),
            QueryOutcome::NotStarted(text) => QueryModel::NotStarted(text@),
        }
    }
}

/// The kind of a target that was reported with these kind words: the one
/// its first word stands for.
pub open spec fn kind_of_words(words: Seq<Seq<char>>) -> KindModel {
    if words.len() == 0 {
        KindModel::Other(Seq::empty())
    } else {
        kind_of(words[0])
    }
}

/// The catalog's entry for a reported target.
pub open spec fn normal_target(target: TargetRecordModel) -> TargetModel {
    TargetModel {
        name: target.name,
        src_path: match target.src_path {
            Some(path) => path,
            None => Seq::empty(),
        },
        kind: kind_of_words(target.kinds),
    }
}

/// The catalog's entry for a reported package.
pub open spec fn normal_package(package: PackageRecordModel) -> PackageModel {
    PackageModel {
        id: package.id,
        name: package.name,
        version: package.version,
        manifest_path: package.manifest_path,
        targets: package.targets.map_values(|t: TargetRecordModel| normal_target(t)),
    }
}

/// The test that a reported package is one of the workspace's own.
pub open spec fn is_member_of(members: Seq<Seq<char>>) -> spec_fn(PackageRecordModel) -> bool {
    |p: PackageRecordModel| members.contains(p.id)
}

/// The workspace's own packages among all that were reported, in the
/// reported order.
pub open spec fn member_packages(report: MetadataModel) -> Seq<PackageRecordModel> {
    report.packages.filter(is_member_of(report.workspace_members))
}

/// The catalog of a report: an entry for each of the workspace's own
/// packages, in the reported order.
pub open spec fn catalog(report: MetadataModel) -> Seq<PackageModel> {
    member_packages(report).map_values(|p: PackageRecordModel| normal_package(p))
}

/// What loading makes of a reading of the toolchain's output.
pub open spec fn catalog_of_reading(reading: Result<MetadataModel, Seq<char>>) -> Result<
    Seq<PackageModel>,
    ErrorModel,
> {
    match reading {
        Ok(report) => Ok(catalog(report)),
        Err(reason) => Err(ErrorModel::Manifest(reason)),
    }
}

/// What loading makes of a query's outcome.
pub open spec fn load_result(outcome: QueryModel) -> Result<Seq<PackageModel>, ErrorModel> {
    match outcome {
        QueryModel::Output(text) => catalog_of_reading(parsed_metadata(text)),
        QueryModel::Failed(detail) => Err(ErrorModel::Manifest(detail)),
        QueryModel::NotStarted(reason) => Err(ErrorModel::Manifest(reason)),
    }
}

/// The value of a loading: the catalog, or the failure.
pub open spec fn loading_model(loading: Result<WorkspaceDescriptor, CatalogError>) -> Result<
    Seq<PackageModel>,
    ErrorModel,
> {
    match loading {
        Ok(descriptor) => Ok(descriptor@),
        Err(error) => Err(error@),
    }
}

/// Taking one more element into a filtered prefix.
proof fn lemma_filter_next<A>(s: Seq<A>, keep: spec_fn(A) -> bool, i: int)
    requires
        0 <= i < s.len(),
    ensures
        s.take(i + 1).filter(keep) == if keep(s[i]) {
            s.take(i).filter(keep).push(s[i])
        } else {
            s.take(i).filter(keep)
        },
{
    reveal(Seq::filter);
    assert(s.take(i + 1).drop_last() =~= s.take(i));
}

/// Whether an identifier is among the workspace's members.
fn is_member(members: &Vec<String>, id: &String) -> (found: bool)
    ensures
        found == texts(members@).contains(id@),
{
    let mut i: usize = 0;
    while i < members.len()
        invariant
            i <= members.len(),
            forall|j: int| 0 <= j < i ==> texts(members@)[j] != id@,
        decreases members.len() - i,
    {
        if members[i] == *id {
            assert(texts(members@)[i as int] == id@);
            return true;
        }
        i += 1;
    }
    false
}

/// The kind of a target from its reported kind words.
pub fn classify_words(words: &Vec<String>) -> (kind: TargetKind)
    ensures
        kind@ == kind_of_words(texts(words@)),
{
    if words.len() == 0 {
        TargetKind::Other(String::new())
    } else {
        TargetKind::classify(words[0].as_str())
    }
}

/// The catalog's entry for a reported target: its name, its source path or
/// the empty string where none was resolved, and its kind.
pub fn normalize_target(target: &TargetRecord) -> (entry: Target)
    ensures
        entry@ == normal_target(target@),
{
    let src_path = match &target.src_path {
        Some(path) => path.clone(),
        None => String::new(),
    };
    Target { name: target.name.clone(), src_path, kind: classify_words(&target.kinds) }
}

/// The catalog's entry for a reported package, its targets in the reported
/// order.
pub fn normalize_package(package: &PackageRecord) -> (entry: Package)
    ensures
        entry@ == normal_package(package@),
{
    let mut targets: Vec<Target> = Vec::new();
    let mut i: usize = 0;
    while i < package.targets.len()
        invariant
            i <= package.targets.len(),
            targets@.len() == i,
            forall|j: int| 0 <= j < i ==> (#[trigger] targets@[j])@ == normal_target(package.targets@[j]@),
        decreases package.targets.len() - i,
    {
        targets.push(normalize_target(&package.targets[i]));
        i += 1;
    }
    assert(target_models(targets@) =~= normal_package(package@).targets);
    Package {
        id: package.id.clone(),
        name: package.name.clone(),
        version: package.version.clone(),
        manifest_path: package.manifest_path.clone(),
        targets,
    }
}

/// A report of the toolchain that was read successfully.
#[derive(Debug, Clone, PartialEq, Eq)]
pub struct CargoReader {
    pub metadata: MetadataRecord,
}

impl CargoReader {
    /// Keeps a report that was read successfully; fails with `Manifest`,
    /// and the reason, where the reading failed.
    pub fn from_reading(reading: Result<MetadataRecord, String>) -> (opened: Result<
        CargoReader,
        CatalogError,
    >)
        ensures
            match opened {
                Ok(reader) => reading == Ok::<MetadataRecord, String>(reader.metadata),
                Err(error) => reading is Err && error@ == ErrorModel::Manifest(
                    reading->Err_0@,
                ),
            },
    {
        match reading {
            Ok(metadata) => Ok(CargoReader { metadata }),
            Err(reason) => Err(CatalogError::Manifest(reason)),
        }
    }

    /// Reads the outcome of the metadata query. A query that could not be
    /// run, one that failed, and one whose output cannot be read all fail
    /// with `Manifest`, each with its own words.
    pub fn open(outcome: QueryOutcome) -> (opened: Result<CargoReader, CatalogError>)
        ensures
            match opened {
                Ok(reader) => outcome@ matches QueryModel::Output(text) && parsed_metadata(text)
                    == Ok::<MetadataModel, Seq<char>>(reader.metadata@),
                Err(error) => load_result(outcome@) == Err::<Seq<PackageModel>, ErrorModel>(
                    error@,
                ),
            },
    {
        match outcome {
            QueryOutcome::Output(text) => CargoReader::from_reading(parse_metadata(text.as_str())),
            QueryOutcome::Failed(detail) => Err(CatalogError::Manifest(detail)),
            QueryOutcome::NotStarted(reason) => Err(CatalogError::Manifest(reason)),
        }
    }

    /// The catalog's entries for the workspace's own packages, in the
    /// reported order; packages that the workspace only depends on are left
    /// out.
    pub fn list_packages(&self) -> (packages: Vec<Package>)
        ensures
            package_models(packages@) == catalog(self.metadata@),
    {
        let ghost report = self.metadata@;
        let ghost keep = is_member_of(report.workspace_members);
        let mut packages: Vec<Package> = Vec::new();
        let mut i: usize = 0;
        assert(report.packages.take(0).filter(keep) =~= Seq::empty()) by {
            reveal(Seq::filter);
        }
        while i < self.metadata.packages.len()
            invariant
                i <= self.metadata.packages.len(),
                report == self.metadata@,
                keep == is_member_of(report.workspace_members),
                package_models(packages@) =~= report.packages.take(i as int).filter(keep).map_values(
                    |p: PackageRecordModel| normal_package(p),
                ),
            decreases self.metadata.packages.len() - i,
        {
            let package = &self.metadata.packages[i];
            proof {
                lemma_filter_next(report.packages, keep, i as int);
                assert(report.packages[i as int] == package@);
            }
            let ghost before = packages@;
            let ghost kept = report.packages.take(i as int).filter(keep);
            if is_member(&self.metadata.workspace_members, &package.id) {
                packages.push(normalize_package(package));
                assert(keep(package@));
                assert(package_models(packages@) =~= package_models(before).push(
                    normal_package(package@),
                ));
                assert(kept.push(package@).map_values(|p: PackageRecordModel| normal_package(p))
                    =~= kept.map_values(|p: PackageRecordModel| normal_package(p)).push(
                    normal_package(package@),
                ));
            } else {
                assert(!keep(package@));
            }
            i += 1;
        }
        assert(report.packages.take(i as int) =~= report.packages);
        packages
    }
}

/// The value of a listing: the catalog's entries, or the failure.
pub open spec fn listing_model(listing: Result<Vec<Package>, CatalogError>) -> Result<
    Seq<PackageModel>,
    ErrorModel,
> {
    match listing {
        Ok(packages) => Ok(package_models(packages@)),
        Err(error) => Err(error@),
    }
}

/// The catalog's entries for the workspace behind a metadata query, or the
/// failure of the query or of the reading of its output.
pub fn list_packages_internal(outcome: QueryOutcome) -> (listing: Result<Vec<Package>, CatalogError>)
    ensures
        listing_model(listing) == load_result(outcome@),
{
    match CargoReader::open(outcome) {
        Ok(reader) => Ok(reader.list_packages()),
        Err(error) => Err(error),
    }
}

/// As `list_packages_internal`, with a failure given as the text to show.
pub fn list_packages(outcome: QueryOutcome) -> (listing: Result<Vec<Package>, String>)
    ensures
        match load_result(outcome@) {
            Ok(catalog) => listing is Ok && package_models(listing->Ok_0@) == catalog,
            Err(error) => listing is Err && listing->Err_0@ == message_of(error),
        },
{
    match list_packages_internal(outcome) {
        Ok(packages) => Ok(packages),
        Err(error) => Err(error.message()),
    }
}

/// Loads a workspace from the outcome of the toolchain's metadata query on
/// its manifest: all of the catalog, or a failure and nothing.
pub fn load(outcome: QueryOutcome) -> (loading: Result<WorkspaceDescriptor, CatalogError>)
    ensures
        loading_model(loading) == load_result(outcome@),
{
    match list_packages_internal(outcome) {
        Ok(packages) => Ok(WorkspaceDescriptor { packages }),
        Err(error) => Err(error),
    }
}

/// Every package of a workspace that is made of its members alone has its
/// entry in the catalog, at the place at which it was reported.
pub proof fn lemma_members_are_listed(report: MetadataModel)
    requires
        forall|i: int|
            0 <= i < report.packages.len() ==> report.workspace_members.contains(
                (#[trigger] report.packages[i]).id,
            ),
    ensures
        catalog(report).len() == report.packages.len(),
        forall|i: int|
            0 <= i < report.packages.len() ==> #[trigger] catalog(report)[i] == normal_package(
                report.packages[i],
            ),
{
    lemma_filter_keeps_all(report.packages, is_member_of(report.workspace_members));
}

/// Every entry of the catalog stands for a package that the workspace names
/// as a member, and the catalog is no longer than the report.
pub proof fn lemma_listed_are_members(report: MetadataModel, i: int)
    requires
        0 <= i < catalog(report).len(),
    ensures
        catalog(report).len() <= report.packages.len(),
        catalog(report)[i] == normal_package(member_packages(report)[i]),
        report.workspace_members.contains(catalog(report)[i].id),
        report.packages.contains(member_packages(report)[i]),
{
    let keep = is_member_of(report.workspace_members);
    report.packages.lemma_filter_len(keep);
    report.packages.lemma_filter_pred(keep, i);
    lemma_filter_is_part(report.packages, keep, i);
}

/// Where the workspace's own packages were reported with names, and no two
/// with the same, the names are keys of the catalog.
pub proof fn lemma_names_stay_keys(report: MetadataModel)
    requires
        forall|i: int|
            0 <= i < member_packages(report).len() ==> (#[trigger] member_packages(report)[i]).name.len()
                > 0,
        forall|i: int, j: int|
            0 <= i < j < member_packages(report).len() ==> (#[trigger] member_packages(report)[i]).name
                != (#[trigger] member_packages(report)[j]).name,
    ensures
        names_are_keys(catalog(report)),
{
    let members = member_packages(report);
    assert forall|i: int| 0 <= i < catalog(report).len() implies (#[trigger] catalog(report)[i]).name
        == members[i].name by {}
}

/// An entry has as many targets as were reported, each under its reported
/// name, in the reported order.
pub proof fn lemma_targets_are_kept(package: PackageRecordModel)
    ensures
        normal_package(package).name == package.name,
        normal_package(package).targets.len() == package.targets.len(),
        forall|j: int|
            0 <= j < package.targets.len() ==> (#[trigger] normal_package(package).targets[j])
                == normal_target(package.targets[j]),
{
}

/// A filter that every element passes changes nothing.
proof fn lemma_filter_keeps_all<A>(s: Seq<A>, keep: spec_fn(A) -> bool)
    requires
        forall|i: int| 0 <= i < s.len() ==> keep(#[trigger] s[i]),
    ensures
        s.filter(keep) == s,
    decreases s.len(),
{
    reveal(Seq::filter);
    if s.len() > 0 {
        lemma_filter_keeps_all(s.drop_last(), keep);
        assert(s.drop_last().push(s.last()) =~= s);
    } else {
        assert(s.filter(keep) =~= s);
    }
}

/// What a filter lets through was there before.
proof fn lemma_filter_is_part<A>(s: Seq<A>, keep: spec_fn(A) -> bool, i: int)
    requires
        0 <= i < s.filter(keep).len(),
    ensures
        s.contains(s.filter(keep)[i]),
    decreases s.len(),
{
    reveal(Seq::filter);
    if s.len() > 0 {
        let front = s.drop_last().filter(keep);
        if i < front.len() {
            lemma_filter_is_part(s.drop_last(), keep, i);
            let k = choose|k: int| 0 <= k < s.drop_last().len() && s.drop_last()[k] == front[i];
            assert(s[k] == front[i]);
        } else {
            assert(s[s.len() - 1] == s.filter(keep)[i]);
        }
    }
}

} // verus!
