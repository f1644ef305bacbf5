//! Picking a namespace by walking the storage tree. The walk is a state
//! machine: it says what it waits for, and is told what was listed, chosen
//! or answered. Listing directories and asking the user are left to the
//! program around it.

use vstd::prelude::*;
use vstd::string::*;

use crate::error::Error;
use crate::order::{is_sorted, is_sorting_of, sort_texts};
use crate::text::{join_path, joined, texts};

verus! {

/// Where a walk stands.
#[derive(Debug, Clone, Copy, PartialEq, Eq, Structural)]
pub enum Stage {
    /// The place reached is to be listed, and one of its subdirectories
    /// chosen.
    Listing,
    /// The subdirectories are known; one of them is to be chosen.
    Choosing,
    /// A subdirectory was entered and is to be listed.
    Entered,
    /// The place entered has subdirectories; whether to go further is to
    /// be answered.
    Confirming,
    /// The walk has ended at the place reached.
    Done,
    /// The walk has ended without a namespace.
    Aborted,
}

/// What a walk waits for.
#[derive(Debug, Clone, Copy, PartialEq, Eq, Structural)]
pub enum Prompt {
    /// The names of the subdirectories of the place reached.
    List,
    /// The choice of one of the options.
    Choose,
    /// Whether to go further down.
    Confirm,
    /// Nothing: the walk has ended.
    Nothing,
}

/// What a walk holds.
#[verifier::ext_equal]
pub struct NavigatorView {
    /// The directories entered so far, from the storage root down.
    pub path: Seq<Seq<char>>,
    /// The subdirectories to choose from, in order.
    pub options: Seq<Seq<char>>,
    /// Where the walk stands.
    pub stage: Stage,
}

impl NavigatorView {
    /// The walk at the storage root, before anything is listed.
    pub open spec fn start() -> NavigatorView {
        NavigatorView { path: Seq::empty(), options: Seq::empty(), stage: Stage::Listing }
    }

    /// The walk that has ended at `path`.
    pub open spec fn done(path: Seq<Seq<char>>) -> NavigatorView {
        NavigatorView { path, options: Seq::empty(), stage: Stage::Done }
    }

    /// The walk that has ended without a namespace: nothing of the way
    /// gone so far is kept.
    pub open spec fn aborted() -> NavigatorView {
        NavigatorView { path: Seq::empty(), options: Seq::empty(), stage: Stage::Aborted }
    }

    /// Whether the walk has ended.
    pub open spec fn ended(self) -> bool {
        self.stage == Stage::Done || self.stage == Stage::Aborted
    }

    /// What every walk keeps: there are options, in order, exactly while
    /// one is to be chosen or going further is to be answered.
    pub open spec fn well_formed(self) -> bool {
        &&& is_sorted(self.options)
        &&& (self.stage == Stage::Choosing || self.stage == Stage::Confirming) <==> self.options.len()
            > 0
    }

    /// What the walk waits for.
    pub open spec fn prompt(self) -> Prompt {
        match self.stage {
            Stage::Listing => Prompt::List,
            Stage::Entered => Prompt::List,
            Stage::Choosing => Prompt::Choose,
            Stage::Confirming => Prompt::Confirm,
            Stage::Done => Prompt::Nothing,
            Stage::Aborted => Prompt::Nothing,
        }
    }

    /// Whether `next` is the walk after `names` were listed. A place
    /// without subdirectories ends the walk there. Else the names, sorted,
    /// become the options: to choose from at once, or, where the place was
    /// just entered, after the question whether to go further.
    pub open spec fn listed(self, names: Seq<Seq<char>>, next: NavigatorView) -> bool {
        match self.stage {
            Stage::Listing => if names.len() == 0 {
                next == NavigatorView::done(self.path)
            } else {
                &&& next.stage == Stage::Choosing
                &&& next.path == self.path
                &&& is_sorting_of(next.options, names)
            },
            Stage::Entered => if names.len() == 0 {
                next == NavigatorView::done(self.path)
            } else {
                &&& next.stage == Stage::Confirming
                &&& next.path == self.path
                &&& is_sorting_of(next.options, names)
            },
            Stage::Done => next == self,
            Stage::Aborted => next == self,
            _ => next == NavigatorView::aborted(),
        }
    }

    /// The walk after option `index` was chosen: the option is entered.
    pub open spec fn chose(self, index: int) -> NavigatorView {
        match self.stage {
            Stage::Choosing => if 0 <= index < self.options.len() {
                NavigatorView {
                    path: self.path.push(self.options[index]),
                    options: Seq::empty(),
                    stage: Stage::Entered,
                }
            } else {
                NavigatorView::aborted()
            },
            Stage::Done => self,
            Stage::Aborted => self,
            _ => NavigatorView::aborted(),
        }
    }

    /// The walk after the question whether to go further was answered:
    /// with yes, one of the options is to be chosen; with no, the walk
    /// ends at the place reached.
    pub open spec fn answered(self, yes: bool) -> NavigatorView {
        match self.stage {
            Stage::Confirming => if yes {
                NavigatorView { path: self.path, options: self.options, stage: Stage::Choosing }
            } else {
                NavigatorView::done(self.path)
            },
            Stage::Done => self,
            Stage::Aborted => self,
            _ => NavigatorView::aborted(),
        }
    }

    /// The walk after a listing or a question failed: it ends without a
    /// namespace, unless it had ended before.
    pub open spec fn failed(self) -> NavigatorView {
        if self.ended() {
            self
        } else {
            NavigatorView::aborted()
        }
    }

    /// The namespace that the walk has ended at: the directories entered,
    /// joined by slashes.
    pub open spec fn selection(self) -> Option<Seq<char>> {
        if self.stage == Stage::Done {
            Some(joined(self.path))
        } else {
            None
        }
    }
}

/// A walk through the storage tree.
#[derive(Debug)]
pub struct Navigator {
    path: Vec<String>,
    options: Vec<String>,
    stage: Stage,
}

impl View for Navigator {
    type V = NavigatorView;

    closed spec fn view(&self) -> NavigatorView {
        NavigatorView { path: texts(self.path@), options: texts(self.options@), stage: self.stage }
    }
}

impl Navigator {
    #[verifier::type_invariant]
    spec fn keeps_options(self) -> bool {
        self@.well_formed()
    }

    /// The walk at the storage root.
    pub fn new() -> (walk: Navigator)
        ensures
            walk@ == NavigatorView::start(),
    {
        Navigator { path: Vec::new(), options: Vec::new(), stage: Stage::Listing }
    }

    /// The walk that has ended at `path`.
    fn ended_at(path: Vec<String>) -> (walk: Navigator)
        ensures
            walk@ == NavigatorView::done(texts(path@)),
    {
        Navigator { path, options: Vec::new(), stage: Stage::Done }
    }

    /// The walk that has ended without a namespace.
    fn abort() -> (walk: Navigator)
        ensures
            walk@ == NavigatorView::aborted(),
    {
        Navigator { path: Vec::new(), options: Vec::new(), stage: Stage::Aborted }
    }

    /// Where the walk stands.
    pub fn stage(&self) -> (stage: Stage)
        ensures
            stage == self@.stage,
    {
        self.stage
    }

    /// What the walk waits for.
    pub fn prompt(&self) -> (prompt: Prompt)
        ensures
            prompt == self@.prompt(),
    {
        match self.stage {
            Stage::Listing => Prompt::List,
            Stage::Entered => Prompt::List,
            Stage::Choosing => Prompt::Choose,
            Stage::Confirming => Prompt::Confirm,
            Stage::Done => Prompt::Nothing,
            Stage::Aborted => Prompt::Nothing,
        }
    }

    /// The place reached, as a namespace: the directories entered,
    /// joined by slashes; empty at the storage root.
    pub fn location(&self) -> (namespace: String)
        ensures
            namespace@ == joined(self@.path),
    {
        join_path(&self.path)
    }

    /// The subdirectories to choose from, in order.
    pub fn options(&self) -> (options: &Vec<String>)
        ensures
            texts(options@) == self@.options,
            self@.well_formed(),
    {
        proof {
            use_type_invariant(self);
        }
        &self.options
    }

    /// Tells the walk the names of the subdirectories of the place
    /// reached.
    pub fn listed(self, names: Vec<String>) -> (next: Navigator)
        ensures
            self@.listed(texts(names@), next@),
    {
        proof {
            use_type_invariant(&self);
        }
        match self.stage {
            Stage::Listing | Stage::Entered => {
                if names.len() == 0 {
                    Navigator::ended_at(self.path)
                } else {
                    let options = sort_texts(&names);
                    proof {
                        texts(options@).to_multiset_ensures();
                        texts(names@).to_multiset_ensures();
                    }
                    let stage = match self.stage {
                        Stage::Listing => Stage::Choosing,
                        _ => Stage::Confirming,
                    };
                    Navigator { path: self.path, options, stage }
                }
            },
            Stage::Done | Stage::Aborted => self,
            _ => Navigator::abort(),
        }
    }

    /// Tells the walk which option was chosen, by its place among the
    /// options. A choice that is none of the options ends the walk without
    /// a namespace.
    pub fn chose(self, index: usize) -> (next: Navigator)
        ensures
            next@ == self@.chose(index as int),
    {
        proof {
            use_type_invariant(&self);
        }
        match self.stage {
            Stage::Choosing => {
                if index < self.options.len() {
                    let mut path = self.path;
                    let entered = self.options[index].clone();
                    path.push(entered);
                    Navigator { path, options: Vec::new(), stage: Stage::Entered }
                } else {
                    Navigator::abort()
                }
            },
            Stage::Done | Stage::Aborted => self,
            _ => Navigator::abort(),
        }
    }

    /// Tells the walk whether the user wants to go further down.
    pub fn answered(self, yes: bool) -> (next: Navigator)
        ensures
            next@ == self@.answered(yes),
    {
        proof {
            use_type_invariant(&self);
        }
        match self.stage {
            Stage::Confirming => {
                if yes {
                    Navigator { path: self.path, options: self.options, stage: Stage::Choosing }
                } else {
                    Navigator::ended_at(self.path)
                }
            },
            Stage::Done | Stage::Aborted => self,
            _ => Navigator::abort(),
        }
    }

    /// Tells the walk that a directory could not be listed or a question
    /// was not answered: nothing of the way gone so far is returned.
    pub fn failed(self) -> (next: Navigator)
        ensures
            next@ == self@.failed(),
    {
        match self.stage {
            Stage::Done | Stage::Aborted => self,
            _ => Navigator::abort(),
        }
    }

    /// The namespace that the walk has ended at. There is none unless the
    /// walk is done.
    pub fn selection(&self) -> (namespace: Result<String, Error>)
        ensures
            match namespace {
                Ok(name) => self@.selection() == Some(name@),
                Err(e) => self@.selection() is None && e == Error::SelectionAborted,
            },
    {
        match self.stage {
            Stage::Done => Ok(self.location()),
            _ => Err(Error::SelectionAborted),
        }
    }
}

} // verus!
