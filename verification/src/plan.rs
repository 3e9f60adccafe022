//! Changes to the file system, decided here and carried out by the caller.
//!
//! The functions of this library never touch the file system. One that has
//! something to change returns a [`Plan`]: the actions to perform, in order,
//! and the outcome to report once all of them have succeeded. Where an action
//! fails, the caller stops and reports what [`FsAction::failure`] makes of the
//! cause.

use vstd::prelude::*;
use crate::configuration::{
    Configuration,
    ConfigurationView,
    IdentityConfiguration,
    IdentityConfigurationView,
};
use crate::error::{IdentityError, IdentityErrorView, IoOperation};

verus! {

/// One change to the file system.
#[allow(inconsistent_fields)]
#[derive(Clone, Debug, PartialEq, Eq)]
pub enum FsAction {
    /// Create a directory and its missing parents.
    CreateDirAll { path: String },
    /// Copy a key file as it is.
    CopyFile { from: String, to: String },
    /// Write a private key in PEM form, replacing what the file held.
    WriteKeyFile { path: String, contents: String },
    /// Leave a key file readable by its owner alone and writable by nobody,
    /// as far as the platform has such permissions.
    ProtectKeyFile { path: String },
    /// Persist the global configuration.
    WriteConfiguration { path: String, configuration: Configuration },
    /// Persist an identity's own configuration.
    WriteIdentityConfiguration { path: String, configuration: IdentityConfiguration },
    /// Remove a file.
    RemoveFile { path: String },
    /// Remove an empty directory.
    RemoveDir { path: String },
    /// Rename a directory in one step.
    RenameDir { from: String, to: String },
}

#[allow(inconsistent_fields)]
pub enum FsActionView {
    CreateDirAll { path: Seq<char> },
    CopyFile { from: Seq<char>, to: Seq<char> },
    WriteKeyFile { path: Seq<char>, contents: Seq<char> },
    ProtectKeyFile { path: Seq<char> },
    WriteConfiguration { path: Seq<char>, configuration: ConfigurationView },
    WriteIdentityConfiguration { path: Seq<char>, configuration: IdentityConfigurationView },
    RemoveFile { path: Seq<char> },
    RemoveDir { path: Seq<char> },
    RenameDir { from: Seq<char>, to: Seq<char> },
}

impl View for FsAction {
    type V = FsActionView;

    open spec fn view(&self) -> FsActionView {
        match self {
            FsAction::CreateDirAll { path } => FsActionView::CreateDirAll { path: path@ },
            FsAction::CopyFile { from, to } => FsActionView::CopyFile { from: from@, to: to@ },
            FsAction::WriteKeyFile { path, contents } => FsActionView::WriteKeyFile {
                path: path@,
                contents: contents@,
            },
            FsAction::ProtectKeyFile { path } => FsActionView::ProtectKeyFile { path: path@ },
            FsAction::WriteConfiguration { path, configuration } => FsActionView::WriteConfiguration {
                path: path@,
                configuration: configuration@,
            },
            FsAction::WriteIdentityConfiguration {
                path,
                configuration,
            } => FsActionView::WriteIdentityConfiguration {
                path: path@,
                configuration: configuration@,
            },
            FsAction::RemoveFile { path } => FsActionView::RemoveFile { path: path@ },
            FsAction::RemoveDir { path } => FsActionView::RemoveDir { path: path@ },
            FsAction::RenameDir { from, to } => FsActionView::RenameDir { from: from@, to: to@ },
        }
    }
}

impl FsActionView {
    /// Whether the action changes what is at `place`: whether it creates,
    /// writes, protects, removes or renames it. A file that is copied from
    /// stays as it is.
    pub open spec fn changes(self, place: Seq<char>) -> bool {
        match self {
            FsActionView::CreateDirAll { path } => path == place,
            FsActionView::CopyFile { from, to } => to == place,
            FsActionView::WriteKeyFile { path, contents } => path == place,
            FsActionView::ProtectKeyFile { path } => path == place,
            FsActionView::WriteConfiguration { path, configuration } => path == place,
            FsActionView::WriteIdentityConfiguration { path, configuration } => path == place,
            FsActionView::RemoveFile { path } => path == place,
            FsActionView::RemoveDir { path } => path == place,
            FsActionView::RenameDir { from, to } => from == place || to == place,
        }
    }
}

/// The error that reports the failure of an action, for the cause that the
/// file system gave.
pub open spec fn failure_of(action: FsActionView, cause: Seq<char>) -> IdentityErrorView {
    match action {
        FsActionView::CreateDirAll { path } => IdentityErrorView::CannotCreateIdentityDirectory(
            path,
            cause,
        ),
        FsActionView::CopyFile { from, to } => IdentityErrorView::Io {
            operation: IoOperation::CopyKeyFile,
            path: from,
            cause,
        },
        FsActionView::WriteKeyFile { path, contents } => IdentityErrorView::Io {
            operation: IoOperation::WriteKeyFile,
            path,
            cause,
        },
        FsActionView::ProtectKeyFile { path } => IdentityErrorView::Io {
            operation: IoOperation::ProtectKeyFile,
            path,
            cause,
        },
        FsActionView::WriteConfiguration { path, configuration } => IdentityErrorView::Io {
            operation: IoOperation::WriteConfiguration,
            path,
            cause,
        },
        FsActionView::WriteIdentityConfiguration { path, configuration } => IdentityErrorView::Io {
            operation: IoOperation::WriteIdentityConfiguration,
            path,
            cause,
        },
        FsActionView::RemoveFile { path } => IdentityErrorView::Io {
            operation: IoOperation::RemoveIdentityFile,
            path,
            cause,
        },
        FsActionView::RemoveDir { path } => IdentityErrorView::Io {
            operation: IoOperation::RemoveIdentityDirectory,
            path,
            cause,
        },
        FsActionView::RenameDir { from, to } => IdentityErrorView::CannotRenameIdentityDirectory(
            from,
            to,
            cause,
        ),
    }
}

impl FsAction {
    /// The error to report where the file system refused this action.
    pub fn failure(&self, cause: String) -> (error: IdentityError)
        ensures
            error@ == failure_of(self@, cause@),
    {
        match self {
            FsAction::CreateDirAll { path } => IdentityError::CannotCreateIdentityDirectory(
                path.clone(),
                cause,
            ),
            FsAction::CopyFile { from, to } => IdentityError::Io {
                operation: IoOperation::CopyKeyFile,
                path: from.clone(),
                cause,
            },
            FsAction::WriteKeyFile { path, contents } => IdentityError::Io {
                operation: IoOperation::WriteKeyFile,
                path: path.clone(),
                cause,
            },
            FsAction::ProtectKeyFile { path } => IdentityError::Io {
                operation: IoOperation::ProtectKeyFile,
                path: path.clone(),
                cause,
            },
            FsAction::WriteConfiguration { path, configuration } => IdentityError::Io {
                operation: IoOperation::WriteConfiguration,
                path: path.clone(),
                cause,
            },
            FsAction::WriteIdentityConfiguration { path, configuration } => IdentityError::Io {
                operation: IoOperation::WriteIdentityConfiguration,
                path: path.clone(),
                cause,
            },
            FsAction::RemoveFile { path } => IdentityError::Io {
                operation: IoOperation::RemoveIdentityFile,
                path: path.clone(),
                cause,
            },
            FsAction::RemoveDir { path } => IdentityError::Io {
                operation: IoOperation::RemoveIdentityDirectory,
                path: path.clone(),
                cause,
            },
            FsAction::RenameDir { from, to } => IdentityError::CannotRenameIdentityDirectory(
                from.clone(),
                to.clone(),
                cause,
            ),
        }
    }
}

/// The views of a list of actions, in order.
pub open spec fn actions_view(actions: Seq<FsAction>) -> Seq<FsActionView> {
    Seq::new(actions.len(), |i: int| actions[i]@)
}

/// What to change, and what to report once that is done.
#[derive(Debug, PartialEq)]
pub struct Plan<T> {
    /// The actions to perform, first to last.
    pub actions: Vec<FsAction>,
    /// The result of the operation, provided that every action succeeded.
    pub outcome: Result<T, IdentityError>,
}

pub struct PlanView<V> {
    pub actions: Seq<FsActionView>,
    pub outcome: Result<V, IdentityErrorView>,
}

impl<T: View> View for Plan<T> {
    type V = PlanView<T::V>;

    open spec fn view(&self) -> PlanView<T::V> {
        PlanView {
            actions: actions_view(self.actions@),
            outcome: match self.outcome {
                Ok(value) => Ok(value@),
                Err(error) => Err(error@),
            },
        }
    }
}

impl<V> PlanView<V> {
    /// The plan that changes nothing and reports `value`.
    pub open spec fn done(value: V) -> PlanView<V> {
        PlanView { actions: Seq::empty(), outcome: Ok(value) }
    }

    /// The plan that changes nothing and reports `error`.
    pub open spec fn failed(error: IdentityErrorView) -> PlanView<V> {
        PlanView { actions: Seq::empty(), outcome: Err(error) }
    }

    /// This plan with `action` performed before it.
    pub open spec fn after(self, action: FsActionView) -> PlanView<V> {
        PlanView { actions: seq![action] + self.actions, outcome: self.outcome }
    }

    /// This plan, and `next` once it has succeeded. Where this plan reports
    /// an error, nothing of `next` is performed.
    pub open spec fn followed_by<W>(self, next: PlanView<W>) -> PlanView<W> {
        match self.outcome {
            Ok(_) => PlanView { actions: self.actions + next.actions, outcome: next.outcome },
            Err(error) => PlanView { actions: self.actions, outcome: Err(error) },
        }
    }

    /// Whether no action is left to perform.
    pub open spec fn changes_nothing(self) -> bool {
        self.actions.len() == 0
    }
}

impl<T: View> Plan<T> {
    /// The plan that changes nothing and reports `value`.
    pub fn done(value: T) -> (plan: Plan<T>)
        ensures
            plan@ == PlanView::<T::V>::done(value@),
    {
        let plan = Plan { actions: Vec::new(), outcome: Ok(value) };
        assert(plan@.actions =~= Seq::empty());
        plan
    }

    /// The plan that changes nothing and reports `error`.
    pub fn failed(error: IdentityError) -> (plan: Plan<T>)
        ensures
            plan@ == PlanView::<T::V>::failed(error@),
    {
        let plan = Plan { actions: Vec::new(), outcome: Err(error) };
        assert(plan@.actions =~= Seq::empty());
        plan
    }

    /// This plan with `action` performed before it.
    pub fn after(self, action: FsAction) -> (plan: Plan<T>)
        ensures
            plan@ == self@.after(action@),
    {
        let mut actions = self.actions;
        actions.insert(0, action);
        let plan = Plan { actions, outcome: self.outcome };
        assert(plan@.actions =~= seq![action@] + self@.actions);
        plan
    }

    /// This plan, and `next` once it has succeeded.
    pub fn followed_by<U: View>(self, next: Plan<U>) -> (plan: Plan<U>)
        ensures
            plan@ == self@.followed_by(next@),
    {
        match self.outcome {
            Ok(_) => {
                let mut actions = self.actions;
                let mut rest = next.actions;
                actions.append(&mut rest);
                let plan = Plan { actions, outcome: next.outcome };
                assert(plan@.actions =~= self@.actions + next@.actions);
                plan
            },
            Err(error) => {
                let plan = Plan { actions: self.actions, outcome: Err(error) };
                assert(plan@.actions =~= self@.actions);
                plan
            },
        }
    }
}

} // verus!
