//! From a target's name to a build request that covers that target and
//! nothing else.

use crate::error::{message_of, CatalogError, ErrorModel};
use crate::kind::KindModel;
use crate::loader::{load, load_result, QueryOutcome};
use crate::model::{Package, PackageModel, TargetModel, WorkspaceDescriptor};
use crate::record::texts;
use vstd::prelude::*;

verus! {

/// The mathematical value of a build request.
pub struct RequestModel {
    pub packages: Seq<Seq<char>>,
    pub all_targets: bool,
    pub lib: bool,
    pub bins: Seq<Seq<char>>,
    pub examples: Seq<Seq<char>>,
    pub tests: Seq<Seq<char>>,
    pub benches: Seq<Seq<char>>,
}

/// A request to the toolchain's build engine: the packages to build, by
/// name, and which of their targets.
#[derive(Debug, Clone, PartialEq, Eq)]
pub struct CompileRequest {
    pub packages: Vec<String>,
    pub all_targets: bool,
    pub lib: bool,
    pub bins: Vec<String>,
    pub examples: Vec<String>,
    pub tests: Vec<String>,
    pub benches: Vec<String>,
}

impl View for CompileRequest {
    type V = RequestModel;

    open spec fn view(&self) -> RequestModel {
        RequestModel {
            packages: texts(self.packages@),
            all_targets: self.all_targets,
            lib: self.lib,
            bins: texts(self.bins@),
            examples: texts(self.examples@),
            tests: texts(self.tests@),
            benches: texts(self.benches@),
        }
    }
}

/// The request that covers one example of one package and nothing else.
pub open spec fn scoped_request(package: Seq<char>, example: Seq<char>) -> RequestModel {
    RequestModel {
        packages: seq![package],
        all_targets: false,
        lib: false,
        bins: Seq::empty(),
        examples: seq![example],
        tests: Seq::empty(),
        benches: Seq::empty(),
    }
}

/// Whether a request covers a target of a package.
pub open spec fn covers(request: RequestModel, package: Seq<char>, target: TargetModel) -> bool {
    &&& request.packages.contains(package)
    &&& request.all_targets || match target.kind {
        KindModel::Library => request.lib,
        KindModel::Binary => request.bins.contains(target.name),
        KindModel::Example => request.examples.contains(target.name),
        KindModel::Test => request.tests.contains(target.name),
        KindModel::Benchmark => request.benches.contains(target.name),
        KindModel::Other(_) => false,
    }
}

/// Whether a target is the example of that name.
pub open spec fn is_example_named(target: TargetModel, name: Seq<char>) -> bool {
    target.kind == KindModel::Example && target.name == name
}

/// Whether a package has an example of that name.
pub open spec fn has_example(package: PackageModel, name: Seq<char>) -> bool {
    exists|j: int| 0 <= j < package.targets.len() && is_example_named(#[trigger] package.targets[j], name)
}

/// Whether the package at `i` is the first that has an example of that
/// name.
pub open spec fn is_owner(packages: Seq<PackageModel>, name: Seq<char>, i: int) -> bool {
    &&& 0 <= i < packages.len()
    &&& has_example(packages[i], name)
    &&& forall|k: int| 0 <= k < i ==> !has_example(#[trigger] packages[k], name)
}

/// What a request for the example of that name comes to: the request scoped
/// to the first package that has it, or `TargetNotFound` where none has.
pub open spec fn dispatch_result(packages: Seq<PackageModel>, name: Seq<char>) -> Result<
    RequestModel,
    ErrorModel,
> {
    if exists|i: int| is_owner(packages, name, i) {
        let i = choose|i: int| is_owner(packages, name, i);
        Ok(scoped_request(packages[i].name, name))
    } else {
        Err(ErrorModel::TargetNotFound)
    }
}

/// The value of a dispatch: the request, or the failure.
pub open spec fn dispatch_model(dispatch: Result<CompileRequest, CatalogError>) -> Result<
    RequestModel,
    ErrorModel,
> {
    match dispatch {
        Ok(request) => Ok(request@),
        Err(error) => Err(error@),
    }
}

/// At most one package is the first to have an example of a name.
pub proof fn lemma_owner_is_unique(packages: Seq<PackageModel>, name: Seq<char>, i: int, j: int)
    requires
        is_owner(packages, name, i),
        is_owner(packages, name, j),
    ensures
        i == j,
{
    if i < j {
        assert(!has_example(packages[i], name));
    } else if j < i {
        assert(!has_example(packages[j], name));
    }
}

/// Some package owns the name exactly when some package has an example of
/// it.
pub proof fn lemma_owner_exists(packages: Seq<PackageModel>, name: Seq<char>, i: int)
    requires
        0 <= i < packages.len(),
        has_example(packages[i], name),
    ensures
        exists|k: int| 0 <= k <= i && is_owner(packages, name, k),
    decreases i,
{
    if exists|k: int| 0 <= k < i && has_example(#[trigger] packages[k], name) {
        let k = choose|k: int| 0 <= k < i && has_example(#[trigger] packages[k], name);
        lemma_owner_exists(packages, name, k);
    } else {
        assert(is_owner(packages, name, i));
    }
}

/// A request fails with `TargetNotFound` exactly when no package of the
/// catalog has an example of that name, and fails in no other way.
pub proof fn lemma_not_found_means_absent(packages: Seq<PackageModel>, name: Seq<char>)
    ensures
        dispatch_result(packages, name) is Err <==> forall|i: int|
            0 <= i < packages.len() ==> !has_example(#[trigger] packages[i], name),
        dispatch_result(packages, name) is Err ==> dispatch_result(packages, name) == Err::<
            RequestModel,
            ErrorModel,
        >(ErrorModel::TargetNotFound),
{
    if exists|i: int| 0 <= i < packages.len() && has_example(#[trigger] packages[i], name) {
        let i = choose|i: int| 0 <= i < packages.len() && has_example(#[trigger] packages[i], name);
        lemma_owner_exists(packages, name, i);
    }
}

/// A scoped request covers a target exactly when the target is the named
/// example of the named package: not the package's library, nor any of its
/// binaries, tests, benchmarks or other examples, nor anything of another
/// package.
pub proof fn lemma_scope_is_exact(
    owner: Seq<char>,
    example: Seq<char>,
    package: Seq<char>,
    target: TargetModel,
)
    ensures
        covers(scoped_request(owner, example), package, target) <==> (package == owner
            && is_example_named(target, example)),
{
    let request = scoped_request(owner, example);
    assert(request.packages[0] == owner);
    assert(request.examples[0] == example);
}

/// Where the package names are keys, a dispatched request covers a target
/// of the catalog exactly when it is the named example of the owner.
pub proof fn lemma_dispatch_scope(
    packages: Seq<PackageModel>,
    name: Seq<char>,
    owner: int,
    p: int,
    t: int,
)
    requires
        crate::model::names_are_keys(packages),
        is_owner(packages, name, owner),
        0 <= p < packages.len(),
        0 <= t < packages[p].targets.len(),
    ensures
        dispatch_result(packages, name) == Ok::<RequestModel, ErrorModel>(
            scoped_request(packages[owner].name, name),
        ),
        covers(scoped_request(packages[owner].name, name), packages[p].name, packages[p].targets[t])
            <==> (p == owner && is_example_named(packages[p].targets[t], name)),
{
    let chosen = choose|i: int| is_owner(packages, name, i);
    lemma_owner_is_unique(packages, name, chosen, owner);
    lemma_scope_is_exact(packages[owner].name, name, packages[p].name, packages[p].targets[t]);
}

impl Package {
    /// Whether this package has an example of that name.
    pub fn has_example(&self, name: &String) -> (found: bool)
        ensures
            found == has_example(self@, name@),
    {
        let mut j: usize = 0;
        while j < self.targets.len()
            invariant
                j <= self.targets.len(),
                forall|k: int| 0 <= k < j ==> !is_example_named(#[trigger] self@.targets[k], name@),
            decreases self.targets.len() - j,
        {
            let target = &self.targets[j];
            assert(self@.targets[j as int] == target@);
            if target.kind.is_example() && target.name == *name {
                return true;
            }
            j += 1;
        }
        false
    }
}

/// The first package of the catalog that has an example of that name.
pub fn find_owner(descriptor: &WorkspaceDescriptor, name: &String) -> (owner: Option<usize>)
    ensures
        match owner {
            Some(i) => is_owner(descriptor@, name@, i as int),
            None => forall|i: int| 0 <= i < descriptor@.len() ==> !has_example(#[trigger] descriptor@[i], name@),
        },
{
    let mut i: usize = 0;
    while i < descriptor.packages.len()
        invariant
            i <= descriptor.packages.len(),
            descriptor@.len() == descriptor.packages@.len(),
            forall|k: int| 0 <= k < i ==> !has_example(#[trigger] descriptor@[k], name@),
        decreases descriptor.packages.len() - i,
    {
        assert(descriptor@[i as int] == descriptor.packages@[i as int]@);
        if descriptor.packages[i].has_example(name) {
            return Some(i);
        }
        i += 1;
    }
    None
}

/// The request that builds one example of one package and nothing else:
/// not the package's library, nor any binary, test or benchmark.
pub fn scope_to_example(package: &String, example: &String) -> (request: CompileRequest)
    ensures
        request@ == scoped_request(package@, example@),
{
    let mut packages: Vec<String> = Vec::new();
    packages.push(package.clone());
    let mut examples: Vec<String> = Vec::new();
    examples.push(example.clone());
    let request = CompileRequest {
        packages,
        all_targets: false,
        lib: false,
        bins: Vec::new(),
        examples,
        tests: Vec::new(),
        benches: Vec::new(),
    };
    assert(request@.packages =~= seq![package@]);
    assert(request@.examples =~= seq![example@]);
    assert(request@.bins =~= Seq::empty());
    assert(request@.tests =~= Seq::empty());
    assert(request@.benches =~= Seq::empty());
    request
}

/// Finds the example of that name in a loaded catalog and scopes a build to
/// it. The first package that has such an example, in the catalog's order,
/// is the one built; where none has, the request fails with
/// `TargetNotFound` and there is nothing to hand to the build engine.
pub fn build_target(descriptor: &WorkspaceDescriptor, target_name: &String) -> (dispatch: Result<
    CompileRequest,
    CatalogError,
>)
    ensures
        dispatch_model(dispatch) == dispatch_result(descriptor@, target_name@),
{
    match find_owner(descriptor, target_name) {
        Some(i) => {
            proof {
                let chosen = choose|k: int| is_owner(descriptor@, target_name@, k);
                lemma_owner_is_unique(descriptor@, target_name@, chosen, i as int);
            }
            assert(descriptor@[i as int] == descriptor.packages@[i as int]@);
            Ok(scope_to_example(&descriptor.packages[i].name, target_name))
        },
        None => Err(CatalogError::TargetNotFound),
    }
}

/// What a request on a freshly queried workspace comes to: the failure of
/// the loading, or the dispatch on the loaded catalog.
pub open spec fn run_result(outcome: crate::loader::QueryModel, name: Seq<char>) -> Result<
    RequestModel,
    ErrorModel,
> {
    match load_result(outcome) {
        Ok(packages) => dispatch_result(packages, name),
        Err(error) => Err(error),
    }
}

/// Loads the workspace from the outcome of the metadata query and scopes a
/// build to the example of that name.
pub fn run_example_internal(outcome: QueryOutcome, example_name: String) -> (dispatch: Result<
    CompileRequest,
    CatalogError,
>)
    ensures
        dispatch_model(dispatch) == run_result(outcome@, example_name@),
{
    match load(outcome) {
        Ok(descriptor) => build_target(&descriptor, &example_name),
        Err(error) => Err(error),
    }
}

/// As `run_example_internal`, with a failure given as the text to show.
pub fn run_example(outcome: QueryOutcome, example_name: String) -> (dispatch: Result<
    CompileRequest,
    String,
>)
    ensures
        match run_result(outcome@, example_name@) {
            Ok(request) => dispatch is Ok && dispatch->Ok_0@ == request,
            Err(error) => dispatch is Err && dispatch->Err_0@ == message_of(error),
        },
{
    match run_example_internal(outcome, example_name) {
        Ok(request) => Ok(request),
        Err(error) => Err(error.message()),
    }
}

/// The mathematical value of a build engine's report.
pub enum ReportModel {
    Succeeded,
    Failed(Seq<char>),
    NotStarted(Seq<char>),
}

/// How the build engine ended on a request.
#[derive(Debug, Clone, PartialEq, Eq)]
pub enum BuildReport {
    /// The build ran and reported no failure.
    Succeeded,
    /// The build ran and failed. Holds its diagnostics.
    Failed(String),
    /// The build could not be run. Holds the reason.
    NotStarted(String),
}

impl View for BuildReport {
    type V = ReportModel;

    open spec fn view(&self) -> ReportModel {
        match self {
            BuildReport::Succeeded => ReportModel::Succeeded,
            BuildReport::Failed(diagnostics) => ReportModel::Failed(diagnostics@),
            BuildReport::NotStarted(reason) => ReportModel::NotStarted(reason@),
        }
    }
}

/// What a build comes to: success, `Compile` with the diagnostics as they
/// came, or `ToolchainInvocation` with the reason.
pub open spec fn report_result(report: ReportModel) -> Result<(), ErrorModel> {
    match report {
        ReportModel::Succeeded => Ok(()),
        ReportModel::Failed(diagnostics) => Err(ErrorModel::Compile(diagnostics)),
        ReportModel::NotStarted(reason) => Err(ErrorModel::ToolchainInvocation(reason)),
    }
}

/// Concludes a build from the engine's report. Nothing is tried again.
pub fn conclude_build(report: BuildReport) -> (conclusion: Result<(), CatalogError>)
    ensures
        match conclusion {
            Ok(_) => report_result(report@) is Ok,
            Err(error) => report_result(report@) == Err::<(), ErrorModel>(error@),
        },
{
    match report {
        BuildReport::Succeeded => Ok(()),
        BuildReport::Failed(diagnostics) => Err(CatalogError::Compile(diagnostics)),
        BuildReport::NotStarted(reason) => Err(CatalogError::ToolchainInvocation(reason)),
    }
}

} // verus!
