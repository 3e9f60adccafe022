//! The first run: with no global configuration on disk, the default identity
//! is set up and persisted as the default.

use vstd::prelude::*;
use crate::configuration::{Configuration, ConfigurationView, DEFAULT_IDENTITY_NAME};
use crate::error::{IdentityError, IdentityErrorView};
use crate::identity_manager::naming;
use crate::key_file::{generate_key, key_file_plan};
use crate::layout::{
    dir_path,
    identity_dir_path_in,
    identity_pem_path_in,
    legacy_creds_path,
    legacy_creds_pem_path,
    pem_path,
};
use crate::plan::{FsAction, FsActionView, Plan, PlanView};

verus! {

/// What was found on disk when no global configuration existed yet.
#[derive(Clone, Debug, PartialEq, Eq)]
pub struct FirstRunProbe {
    /// Whether the default identity's key file exists.
    pub pem_exists: bool,
    /// Whether the default identity's directory exists.
    pub dir_exists: bool,
    /// The user's home directory, where it is known.
    pub home: Option<String>,
    /// Whether a legacy key file exists under the home directory.
    pub legacy_creds_exist: bool,
}

pub struct FirstRunProbeView {
    pub pem_exists: bool,
    pub dir_exists: bool,
    pub home: Option<Seq<char>>,
    pub legacy_creds_exist: bool,
}

impl View for FirstRunProbe {
    type V = FirstRunProbeView;

    open spec fn view(&self) -> FirstRunProbeView {
        FirstRunProbeView {
            pem_exists: self.pem_exists,
            dir_exists: self.dir_exists,
            home: match self.home {
                Some(home) => Some(home@),
                None => None,
            },
            legacy_creds_exist: self.legacy_creds_exist,
        }
    }
}

/// How a manager comes by the global configuration.
#[derive(Clone, Copy, Debug, PartialEq, Eq)]
pub enum Startup {
    /// The global configuration exists and is read.
    ReadConfiguration,
    /// There is none yet: this is the first run, which makes it.
    Initialize,
}

/// Decides how a manager comes by the global configuration, given whether one
/// exists: one that exists is read, and only where there is none is the
/// default identity set up.
pub fn startup(configuration_exists: bool) -> (step: Startup)
    ensures
        step == if configuration_exists {
            Startup::ReadConfiguration
        } else {
            Startup::Initialize
        },
{
    if configuration_exists {
        Startup::ReadConfiguration
    } else {
        Startup::Initialize
    }
}

/// Whether the first run has to generate a key: no key is in place and none
/// can be migrated.
pub open spec fn needs_new_key(probe: FirstRunProbeView) -> bool {
    !probe.pem_exists && probe.home is Some && !probe.legacy_creds_exist
}

/// The plan of the first run. A key that is in place is used; else a legacy
/// key is migrated where one exists; else `key`, the plan for a new key file,
/// is performed. At the end the default identity is persisted as the
/// default.
pub open spec fn initialization(
    json: Seq<char>,
    root: Seq<char>,
    probe: FirstRunProbeView,
    key: PlanView<()>,
) -> PlanView<ConfigurationView> {
    let name = DEFAULT_IDENTITY_NAME@;
    let populated: PlanView<()> = if probe.pem_exists {
        PlanView::done(())
    } else {
        let keyed: PlanView<()> = match probe.home {
            None => PlanView::failed(IdentityErrorView::CannotFindHomeDirectory),
            Some(home) => if probe.legacy_creds_exist {
                PlanView::done(()).after(
                    FsActionView::CopyFile {
                        from: legacy_creds_path(home),
                        to: pem_path(root, name),
                    },
                )
            } else {
                key
            },
        };
        if probe.dir_exists {
            keyed
        } else {
            keyed.after(FsActionView::CreateDirAll { path: dir_path(root, name) })
        }
    };
    populated.followed_by(
        PlanView::done(naming(name)).after(
            FsActionView::WriteConfiguration { path: json, configuration: naming(name) },
        ),
    )
}

/// The plan of the first run, where `key` is the plan for a new key file.
pub fn initialize_with_key(
    identity_json_path: &str,
    identity_root_path: &str,
    probe: &FirstRunProbe,
    key: Plan<()>,
) -> (plan: Plan<Configuration>)
    ensures
        plan@ == initialization(identity_json_path@, identity_root_path@, probe@, key@),
{
    let configuration = Configuration { default: DEFAULT_IDENTITY_NAME.to_owned() };
    let written = Plan::done(configuration.duplicate()).after(
        FsAction::WriteConfiguration { path: identity_json_path.to_owned(), configuration },
    );
    let populated: Plan<()> = if probe.pem_exists {
        Plan::done(())
    } else {
        let keyed: Plan<()> = match &probe.home {
            None => Plan::failed(IdentityError::CannotFindHomeDirectory()),
            Some(home) => {
                if probe.legacy_creds_exist {
                    let from = legacy_creds_pem_path(home.as_str());
                    let to = identity_pem_path_in(identity_root_path, DEFAULT_IDENTITY_NAME);
                    Plan::done(()).after(FsAction::CopyFile { from, to })
                } else {
                    key
                }
            },
        };
        if probe.dir_exists {
            keyed
        } else {
            keyed.after(
                FsAction::CreateDirAll {
                    path: identity_dir_path_in(identity_root_path, DEFAULT_IDENTITY_NAME),
                },
            )
        }
    };
    populated.followed_by(written)
}

/// Plans the first run: the default identity gets its directory and its key,
/// migrated from a legacy key file where one exists and generated otherwise,
/// and is persisted as the default.
///
/// A key is generated only where [`needs_new_key`] holds; it comes from the
/// system's random source, so the plan is one of those that
/// [`initialize_with_key`] gives for a plan of [`key_file`].
pub fn initialize(
    identity_json_path: &str,
    identity_root_path: &str,
    probe: &FirstRunProbe,
) -> (plan: Plan<Configuration>)
    ensures
        exists|generated: Option<Seq<u8>>|
            plan@ == initialization(
                identity_json_path@,
                identity_root_path@,
                probe@,
                #[trigger] key_file_plan(
                    pem_path(identity_root_path@, DEFAULT_IDENTITY_NAME@),
                    generated,
                ),
            ),
        !needs_new_key(probe@) ==> plan@ == initialization(
            identity_json_path@,
            identity_root_path@,
            probe@,
            PlanView::done(()),
        ),
{
    let pem_file = identity_pem_path_in(identity_root_path, DEFAULT_IDENTITY_NAME);
    let needed = !probe.pem_exists && probe.home.is_some() && !probe.legacy_creds_exist;
    if needed {
        let key = generate_key(pem_file.as_str());
        initialize_with_key(identity_json_path, identity_root_path, probe, key)
    } else {
        let plan = initialize_with_key(identity_json_path, identity_root_path, probe, Plan::done(()));
        assert(plan@ == initialization(
            identity_json_path@,
            identity_root_path@,
            probe@,
            key_file_plan(pem_file@, None),
        ));
        plan
    }
}

} // verus!
