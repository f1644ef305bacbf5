//! What a run does, step by step. The library decides; the program around
//! it reads, writes, asks and sends, and reports back.

use vstd::prelude::*;
use vstd::string::*;

use crate::dispatch::{dispatchable, is_dispatch_error};
use crate::error::Error;
use crate::location::{is_url, is_url_text};
use crate::record::{effective_record, given_url, Invocation, InvocationView, RecordView};

verus! {

/// What a run does about storing the request that it sends.
#[derive(Debug, Clone, Copy, PartialEq, Eq, Structural)]
pub enum SaveDecision {
    /// Storing was not asked for.
    NotAsked,
    /// Storing was asked for, but the run names no namespace: the request
    /// is sent and not stored.
    NoNamespace,
    /// The request is stored under the namespace and method of the run.
    Store,
}

/// What a run is about.
#[derive(Debug, Clone, Copy, PartialEq, Eq, Structural)]
pub enum Step {
    /// Show the storage root, and nothing else.
    ShowDefaultDir,
    /// Pick a namespace by walking the storage tree, then decide again
    /// with that namespace as the target.
    Navigate,
    /// Delete the namespace with all below it.
    DeleteNamespace,
    /// Delete the stored record of the namespace and method.
    DeleteRecord,
    /// Send a request. With `lookup`, the stored record of the namespace
    /// and method is read first; without, nothing stored is read.
    Request { lookup: bool, save: SaveDecision },
}

/// The namespace of a run: its target, unless that is absent or is a
/// destination.
pub open spec fn namespace_of(run: InvocationView) -> Option<Seq<char>> {
    match run.target {
        Some(target) => if is_url_text(target) {
            None
        } else {
            Some(target)
        },
        None => None,
    }
}

/// What a run does about storing.
pub open spec fn save_decision_of(run: InvocationView) -> SaveDecision {
    if !run.save {
        SaveDecision::NotAsked
    } else if namespace_of(run) is Some {
        SaveDecision::Store
    } else {
        SaveDecision::NoNamespace
    }
}

/// What a run is about. Showing the storage root comes before all else;
/// a namespace is picked only where none is given; deleting a namespace
/// comes before deleting a record, and both need a namespace.
pub open spec fn planned(run: InvocationView) -> Result<Step, Error> {
    if run.show_default_dir {
        Ok(Step::ShowDefaultDir)
    } else if run.comp && run.target is None {
        Ok(Step::Navigate)
    } else if run.delete_all {
        if namespace_of(run) is Some {
            Ok(Step::DeleteNamespace)
        } else {
            Err(Error::DeleteAllWithoutTarget)
        }
    } else if run.delete {
        if namespace_of(run) is Some {
            Ok(Step::DeleteRecord)
        } else {
            Err(Error::DeleteWithoutTarget)
        }
    } else {
        Ok(Step::Request { lookup: namespace_of(run) is Some, save: save_decision_of(run) })
    }
}

/// The namespace of a run: where its records are stored.
pub fn storage_namespace(run: &Invocation) -> (namespace: Option<&str>)
    ensures
        match namespace {
            Some(name) => namespace_of(run@) == Some(name@),
            None => namespace_of(run@) is None,
        },
{
    match &run.target {
        Some(target) => if is_url(target.as_str()) {
            None
        } else {
            Some(target.as_str())
        },
        None => None,
    }
}

/// Decides what a run is about.
pub fn plan(run: &Invocation) -> (step: Result<Step, Error>)
    ensures
        step == planned(run@),
{
    let named = storage_namespace(run).is_some();
    if run.show_default_dir {
        Ok(Step::ShowDefaultDir)
    } else if run.comp && run.target.is_none() {
        Ok(Step::Navigate)
    } else if run.delete_all {
        if named {
            Ok(Step::DeleteNamespace)
        } else {
            Err(Error::DeleteAllWithoutTarget)
        }
    } else if run.delete {
        if named {
            Ok(Step::DeleteRecord)
        } else {
            Err(Error::DeleteWithoutTarget)
        }
    } else {
        let save = if !run.save {
            SaveDecision::NotAsked
        } else if named {
            SaveDecision::Store
        } else {
            SaveDecision::NoNamespace
        };
        Ok(Step::Request { lookup: named, save })
    }
}

/// A run that names neither a namespace nor a destination reads and
/// writes nothing stored, and the request it would send is refused for
/// its missing destination.
pub proof fn lemma_no_namespace_no_url(run: InvocationView, e: Error)
    requires
        namespace_of(run) is None,
        given_url(run).len() == 0,
    ensures
        planned(run) matches Ok(Step::Request { lookup, save }) ==> !lookup && save
            != SaveDecision::Store,
        planned(run) != Ok::<Step, Error>(Step::DeleteNamespace),
        planned(run) != Ok::<Step, Error>(Step::DeleteRecord),
        !dispatchable(effective_record(RecordView::empty(), run)),
        is_dispatch_error(effective_record(RecordView::empty(), run), e) ==> e == Error::MissingUrl
            && e.is_validation(),
{
}

} // verus!
