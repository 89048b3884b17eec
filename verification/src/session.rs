//! The one workspace that a session has open.

use crate::error::{message_of, CatalogError, ErrorModel};
use crate::loader::{load, load_result, loading_model, QueryOutcome};
use crate::model::{PackageModel, WorkspaceDescriptor};
use vstd::prelude::*;

verus! {

/// The slot for the current workspace: empty until a workspace is loaded,
/// and from then on holding the catalog of the latest successful load.
#[derive(Debug, Clone, PartialEq, Eq)]
pub struct Session {
    current: Option<WorkspaceDescriptor>,
}

impl View for Session {
    type V = Option<Seq<PackageModel>>;

    closed spec fn view(&self) -> Option<Seq<PackageModel>> {
        match self.current {
            Some(descriptor) => Some(descriptor@),
            None => None,
        }
    }
}

/// The slot after a loading was put into it: the new catalog, whole, or
/// what the slot held before.
pub open spec fn installed(
    slot: Option<Seq<PackageModel>>,
    loading: Result<Seq<PackageModel>, ErrorModel>,
) -> Option<Seq<PackageModel>> {
    match loading {
        Ok(catalog) => Some(catalog),
        Err(_) => slot,
    }
}

/// The slot after a run of loadings was put into it, one after the other.
pub open spec fn after_loadings(
    slot: Option<Seq<PackageModel>>,
    loadings: Seq<Result<Seq<PackageModel>, ErrorModel>>,
) -> Option<Seq<PackageModel>>
    decreases loadings.len(),
{
    if loadings.len() == 0 {
        slot
    } else {
        installed(after_loadings(slot, loadings.drop_last()), loadings.last())
    }
}

/// Whatever loadings a slot went through, it holds the catalog of exactly
/// one of them, the last that succeeded, or, where none succeeded, what it
/// held at first: never parts of two.
pub proof fn lemma_slot_holds_one_loading(
    slot: Option<Seq<PackageModel>>,
    loadings: Seq<Result<Seq<PackageModel>, ErrorModel>>,
)
    ensures
        ({
            ||| (after_loadings(slot, loadings) == slot && forall|k: int|
                0 <= k < loadings.len() ==> (#[trigger] loadings[k]) is Err)
            ||| exists|i: int|
                {
                    &&& 0 <= i < loadings.len()
                    &&& (#[trigger] loadings[i]) matches Ok(catalog)
                    &&& after_loadings(slot, loadings) == Some(catalog)
                    &&& forall|k: int| i < k < loadings.len() ==> (#[trigger] loadings[k]) is Err
                }
        }),
    decreases loadings.len(),
{
    if loadings.len() > 0 {
        let front = loadings.drop_last();
        lemma_slot_holds_one_loading(slot, front);
        match loadings.last() {
            Ok(catalog) => {
                let i = loadings.len() - 1;
                assert(loadings[i] == Ok::<Seq<PackageModel>, ErrorModel>(catalog));
            },
            Err(_) => {
                if after_loadings(slot, front) == slot && forall|k: int|
                    0 <= k < front.len() ==> (#[trigger] front[k]) is Err {
                    assert forall|k: int| 0 <= k < loadings.len() implies (
                    #[trigger] loadings[k]) is Err by {
                        if k < front.len() {
                            assert(front[k] == loadings[k]);
                        }
                    }
                } else {
                    let i = choose|i: int|
                        {
                            &&& 0 <= i < front.len()
                            &&& (#[trigger] front[i]) matches Ok(catalog)
                            &&& after_loadings(slot, front) == Some(catalog)
                            &&& forall|k: int| i < k < front.len() ==> (#[trigger] front[k]) is Err
                        };
                    assert(front[i] == loadings[i]);
                    assert forall|k: int| i < k < loadings.len() implies (
                    #[trigger] loadings[k]) is Err by {
                        if k < front.len() {
                            assert(front[k] == loadings[k]);
                        }
                    }
                }
            },
        }
    }
}

impl Session {
    /// A session with no workspace open.
    pub fn new() -> (session: Session)
        ensures
            session@ is None,
    {
        Session { current: None }
    }

    /// Whether a workspace is open.
    pub fn is_open(&self) -> (open: bool)
        ensures
            open == (self@ is Some),
    {
        self.current.is_some()
    }

    /// Puts the result of a loading into the slot. A catalog replaces what
    /// was there as a whole; a failure leaves the slot as it was and is
    /// handed back.
    pub fn install(&mut self, loading: Result<WorkspaceDescriptor, CatalogError>) -> (done: Result<
        (),
        CatalogError,
    >)
        ensures
            final(self)@ == installed(old(self)@, loading_model(loading)),
            match loading {
                Ok(_) => done is Ok,
                Err(error) => done == Err::<(), CatalogError>(error) && *final(self) == *old(self),
            },
    {
        match loading {
            Ok(descriptor) => {
                self.current = Some(descriptor);
                Ok(())
            },
            Err(error) => Err(error),
        }
    }

    /// Loads the workspace behind a metadata query and keeps its catalog
    /// for later requests. Where the loading fails the session is as it was
    /// before, and the failure is given as the text to show.
    pub fn open_workspace(&mut self, outcome: QueryOutcome) -> (done: Result<(), String>)
        ensures
            final(self)@ == installed(old(self)@, load_result(outcome@)),
            match load_result(outcome@) {
                Ok(_) => done is Ok,
                Err(error) => done is Err && done->Err_0@ == message_of(error) && *final(self)
                    == *old(self),
            },
    {
        match self.install(load(outcome)) {
            Ok(_) => Ok(()),
            Err(error) => Err(error.message()),
        }
    }

    /// A copy of the current catalog; before any workspace was loaded, the
    /// text of `NotOpened`.
    pub fn list_packages(&self) -> (listing: Result<WorkspaceDescriptor, String>)
        ensures
            match self@ {
                Some(catalog) => listing is Ok && listing->Ok_0@ == catalog,
                None => listing is Err && listing->Err_0@ == message_of(ErrorModel::NotOpened),
            },
    {
        match &self.current {
            Some(descriptor) => Ok(descriptor.duplicate()),
            None => Err(CatalogError::NotOpened.message()),
        }
    }
}

} // verus!
