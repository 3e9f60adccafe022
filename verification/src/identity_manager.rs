//! The registry of identities: which exist, which one is selected, which one
//! is the persisted default, and what creating, removing and renaming one
//! changes on disk.
//!
//! The manager reads nothing and writes nothing itself. Its caller tells it
//! what it found on disk ([`IdentityFiles`], [`DirectoryEntry`]) and performs
//! the [`Plan`] that comes back.

use vstd::prelude::*;
use crate::configuration::{
    Configuration,
    ConfigurationView,
    HardwareIdentityConfiguration,
    HardwareIdentityConfigurationView,
    IdentityConfiguration,
    IdentityConfigurationView,
    ANONYMOUS_IDENTITY_NAME,
};
use crate::error::{IdentityError, IdentityErrorView};
use crate::identity::{loading, stands_for, Identity, KeyMaterial, KeyMaterialView};
use crate::key_file::{generate_key, key_file_plan};
use crate::layout::{
    dir_path,
    identity_dir_path_in,
    identity_json_path,
    identity_json_path_in,
    identity_pem_path_in,
    identity_root_path,
    json_path,
    json_path_under,
    pem_path,
    root_path_under,
};
use crate::plan::{FsAction, FsActionView, Plan, PlanView};
use crate::text::{lemma_text_le_total, lemma_text_le_transitive, str_eq, str_le, text_le};

verus! {

/// The message for a missing PIN of a hardware module.
pub const MISSING_HSM_PIN: &'static str = "There is no DFX_HSM_PIN environment variable.";

/// Which of an identity's two files were found on disk.
#[derive(Clone, Copy, Debug, PartialEq, Eq)]
pub struct IdentityFiles {
    /// Whether the identity's key file exists.
    pub pem: bool,
    /// Whether the identity's own configuration exists.
    pub json: bool,
}

impl IdentityFiles {
    /// Whether the identity exists: it does where either file does.
    pub open spec fn present(self) -> bool {
        self.pem || self.json
    }

    /// Whether the identity exists.
    pub fn is_present(&self) -> (found: bool)
        ensures
            found == self.present(),
    {
        self.pem || self.json
    }
}

/// The file that holds an identity's key material.
#[derive(Clone, Debug, PartialEq, Eq)]
pub enum KeyLocation {
    /// The identity's own configuration, which delegates to a hardware module.
    Configuration(String),
    /// The identity's key file.
    Pem(String),
}

/// What an entry of the registry's root directory is.
#[derive(Clone, Copy, Debug, PartialEq, Eq)]
pub enum EntryKind {
    Directory,
    File,
    /// Anything else, and an entry whose kind could not be read.
    Other,
}

/// One entry of the registry's root directory.
#[derive(Clone, Debug, PartialEq, Eq)]
pub struct DirectoryEntry {
    pub name: String,
    pub kind: EntryKind,
}

/// How a new identity gets its key.
#[derive(Debug, PartialEq, Eq)]
pub enum IdentityCreationParameters {
    /// A fresh software key, kept in a PEM file.
    Pem(),
    /// A key that a hardware module holds.
    Hardware(HardwareIdentityConfiguration),
}

pub enum IdentityCreationParametersView {
    Pem,
    Hardware(HardwareIdentityConfigurationView),
}

impl View for IdentityCreationParameters {
    type V = IdentityCreationParametersView;

    open spec fn view(&self) -> IdentityCreationParametersView {
        match self {
            IdentityCreationParameters::Pem() => IdentityCreationParametersView::Pem,
            IdentityCreationParameters::Hardware(hsm) => IdentityCreationParametersView::Hardware(
                hsm@,
            ),
        }
    }
}

/// The PIN of the hardware module, given the value of the environment
/// variable that holds it.
pub fn get_dfx_hsm_pin(value: Option<String>) -> (pin: Result<String, String>)
    ensures
        match value {
            Some(given) => pin == Ok::<String, String>(given),
            None => pin matches Err(message) && message@ == MISSING_HSM_PIN@,
        },
{
    match value {
        Some(given) => Ok(given),
        None => Err(MISSING_HSM_PIN.to_owned()),
    }
}

/// The error for an identity that was not found under `root`.
pub open spec fn missing(root: Seq<char>, name: Seq<char>) -> IdentityErrorView {
    IdentityErrorView::IdentityDoesNotExist(name, pem_path(root, name))
}

/// The configuration that names `name` as the default.
pub open spec fn naming(name: Seq<char>) -> ConfigurationView {
    ConfigurationView { default: name }
}

/// The plan that persists `name` as the default.
pub open spec fn default_written(json: Seq<char>, name: Seq<char>) -> PlanView<()> {
    PlanView::done(()).after(
        FsActionView::WriteConfiguration { path: json, configuration: naming(name) },
    )
}

/// The plan that creates an identity, where `key` is the plan for a new key
/// file.
pub open spec fn creation(
    root: Seq<char>,
    name: Seq<char>,
    parameters: IdentityCreationParametersView,
    key: PlanView<()>,
) -> PlanView<()> {
    if name == ANONYMOUS_IDENTITY_NAME@ {
        PlanView::failed(IdentityErrorView::CannotCreateAnonymousIdentity)
    } else {
        let directory = FsActionView::CreateDirAll { path: dir_path(root, name) };
        match parameters {
            IdentityCreationParametersView::Pem => key.after(directory),
            IdentityCreationParametersView::Hardware(hsm) => PlanView::done(()).after(
                FsActionView::WriteIdentityConfiguration {
                    path: json_path(root, name),
                    configuration: IdentityConfigurationView { hsm: Some(hsm) },
                },
            ).after(directory),
        }
    }
}

/// The files to delete for an identity: its configuration and its key, as far
/// as they exist, and then its directory.
pub open spec fn removal_actions(
    root: Seq<char>,
    name: Seq<char>,
    files: IdentityFiles,
) -> Seq<FsActionView> {
    let configuration = if files.json {
        seq![FsActionView::RemoveFile { path: json_path(root, name) }]
    } else {
        seq![]
    };
    let key = if files.pem {
        seq![FsActionView::RemoveFile { path: pem_path(root, name) }]
    } else {
        seq![]
    };
    configuration + key + seq![FsActionView::RemoveDir { path: dir_path(root, name) }]
}

/// The plan that removes an identity.
pub open spec fn removal(
    root: Seq<char>,
    default: Seq<char>,
    name: Seq<char>,
    files: IdentityFiles,
) -> PlanView<()> {
    if !files.present() {
        PlanView::failed(missing(root, name))
    } else if default == name {
        PlanView::failed(IdentityErrorView::CannotDeleteDefaultIdentity)
    } else {
        PlanView { actions: removal_actions(root, name, files), outcome: Ok(()) }
    }
}

/// The plan that renames an identity. Its outcome tells whether the persisted
/// default changed with it.
pub open spec fn renaming(
    json: Seq<char>,
    root: Seq<char>,
    default: Seq<char>,
    from: Seq<char>,
    to: Seq<char>,
    from_files: IdentityFiles,
    to_dir_exists: bool,
) -> PlanView<bool> {
    if to == ANONYMOUS_IDENTITY_NAME@ {
        PlanView::failed(IdentityErrorView::CannotCreateAnonymousIdentity)
    } else if !from_files.present() {
        PlanView::failed(missing(root, from))
    } else if to_dir_exists {
        PlanView::failed(IdentityErrorView::IdentityAlreadyExists)
    } else {
        let moved = FsActionView::RenameDir { from: dir_path(root, from), to: dir_path(root, to) };
        if from == default {
            PlanView::done(true).after(
                FsActionView::WriteConfiguration { path: json, configuration: naming(to) },
            ).after(moved)
        } else {
            PlanView::done(false).after(moved)
        }
    }
}

/// The plan that makes an identity the persisted default.
pub open spec fn selection(
    json: Seq<char>,
    root: Seq<char>,
    name: Seq<char>,
    files: IdentityFiles,
) -> PlanView<()> {
    if !files.present() {
        PlanView::failed(missing(root, name))
    } else {
        default_written(json, name)
    }
}

/// Whether `identity` is what instantiating `name` comes to: the error for a
/// missing identity where neither of its files exists, and else what loading
/// the material gives, whose form the files decide.
pub open spec fn instantiated(
    root: Seq<char>,
    name: Seq<char>,
    files: IdentityFiles,
    material: KeyMaterialView,
    identity: Result<Identity, IdentityError>,
) -> bool {
    stands_for(
        identity,
        if files.present() {
            loading(root, name, files, material)
        } else {
            Err(missing(root, name))
        },
    )
}

/// The names of the directories among `entries`, in the order of the listing.
pub open spec fn directory_names(entries: Seq<DirectoryEntry>) -> Seq<Seq<char>>
    decreases entries.len(),
{
    if entries.len() == 0 {
        seq![]
    } else {
        let earlier = directory_names(entries.drop_last());
        if entries.last().kind is Directory {
            earlier.push(entries.last().name@)
        } else {
            earlier
        }
    }
}

/// Whether names stand in the order of texts, first to last.
pub open spec fn sorted(names: Seq<Seq<char>>) -> bool {
    forall|i: int, j: int| 0 <= i < j < names.len() ==> text_le(names[i], names[j])
}

/// The single authority over which identities exist, which one is selected
/// and which one is the persisted default.
#[derive(Clone, Debug)]
pub struct IdentityManager {
    identity_json_path: String,
    identity_root_path: String,
    selected_identity: String,
}

pub struct IdentityManagerView {
    /// The path of the global configuration.
    pub identity_json_path: Seq<char>,
    /// The directory that holds one directory per identity.
    pub identity_root_path: Seq<char>,
    /// The identity that this manager uses: the one that was resolved when
    /// it was made.
    pub selected_identity: Seq<char>,
}

impl View for IdentityManager {
    type V = IdentityManagerView;

    closed spec fn view(&self) -> IdentityManagerView {
        IdentityManagerView {
            identity_json_path: self.identity_json_path@,
            identity_root_path: self.identity_root_path@,
            selected_identity: self.selected_identity@,
        }
    }
}

impl IdentityManager {
    /// The manager for the registry under `config_dfx_dir_path`, with the
    /// configuration that was read or initialized there.
    ///
    /// The manager keeps the selection and no copy of the persisted default:
    /// the default can change on disk while the manager lives, so whoever
    /// asks for a removal or a rename hands in the configuration as it is
    /// persisted then.
    ///
    /// An override selects an identity for this manager alone, without
    /// persisting it; `override_files` tells which of its files exist, and an
    /// override that does not exist is refused.
    pub fn new(
        config_dfx_dir_path: &str,
        configuration: Configuration,
        identity_override: Option<String>,
        override_files: IdentityFiles,
    ) -> (manager: Result<IdentityManager, IdentityError>)
        ensures
            match identity_override {
                Some(name) => if override_files.present() {
                    manager matches Ok(m) && m@ == (IdentityManagerView {
                        identity_json_path: json_path_under(config_dfx_dir_path@),
                        identity_root_path: root_path_under(config_dfx_dir_path@),
                        selected_identity: name@,
                    })
                } else {
                    manager matches Err(e) && e@ == missing(
                        root_path_under(config_dfx_dir_path@),
                        name@,
                    )
                },
                None => manager matches Ok(m) && m@ == (IdentityManagerView {
                    identity_json_path: json_path_under(config_dfx_dir_path@),
                    identity_root_path: root_path_under(config_dfx_dir_path@),
                    selected_identity: configuration.default@,
                }),
            },
    {
        let identity_root_path = identity_root_path(config_dfx_dir_path);
        let identity_json_path = identity_json_path(config_dfx_dir_path);
        let selected_identity = match &identity_override {
            Some(name) => name.clone(),
            None => configuration.default.clone(),
        };
        let mgr = IdentityManager { identity_json_path, identity_root_path, selected_identity };
        match identity_override {
            Some(identity) => {
                match mgr.require_identity_exists(identity.as_str(), override_files) {
                    Ok(()) => Ok(mgr),
                    Err(error) => Err(error),
                }
            },
            None => Ok(mgr),
        }
    }

    /// Loads the selected identity, given which of its files exist and what
    /// was read from the one that [`IdentityManager::locate_key`] names.
    pub fn instantiate_selected_identity(
        &self,
        files: IdentityFiles,
        material: KeyMaterial,
    ) -> (identity: Result<Identity, IdentityError>)
        ensures
            instantiated(
                self@.identity_root_path,
                self@.selected_identity,
                files,
                material@,
                identity,
            ),
    {
        self.instantiate_identity_from_name(self.selected_identity.as_str(), files, material)
    }

    /// Loads an identity by name, given which of its files exist and what was
    /// read from the one that [`IdentityManager::locate_key`] names. An
    /// identity that does not exist is refused before anything is loaded.
    pub fn instantiate_identity_from_name(
        &self,
        identity_name: &str,
        files: IdentityFiles,
        material: KeyMaterial,
    ) -> (identity: Result<Identity, IdentityError>)
        ensures
            instantiated(self@.identity_root_path, identity_name@, files, material@, identity),
    {
        match self.require_identity_exists(identity_name, files) {
            Err(error) => Err(error),
            Ok(()) => Identity::load(self, identity_name, files, material),
        }
    }

    /// Which file holds an identity's key material: its own configuration
    /// where that exists, and else its key file.
    pub fn locate_key(
        &self,
        name: &str,
        files: IdentityFiles,
    ) -> (location: Result<KeyLocation, IdentityError>)
        ensures
            match location {
                Ok(KeyLocation::Configuration(path)) => files.json && path@ == json_path(
                    self@.identity_root_path,
                    name@,
                ),
                Ok(KeyLocation::Pem(path)) => !files.json && files.pem && path@ == pem_path(
                    self@.identity_root_path,
                    name@,
                ),
                Err(error) => !files.present() && error@ == missing(
                    self@.identity_root_path,
                    name@,
                ),
            },
    {
        match self.require_identity_exists(name, files) {
            Err(error) => Err(error),
            Ok(()) => {
                if files.json {
                    Ok(KeyLocation::Configuration(self.get_identity_json_path(name)))
                } else {
                    Ok(KeyLocation::Pem(self.get_identity_pem_path(name)))
                }
            },
        }
    }

    /// Plans a new identity: its directory and then, for a software key, a
    /// generated key file, or, for a hardware key, the configuration that
    /// delegates to the module. The reserved name is refused, and the
    /// persisted default stays as it is.
    ///
    /// A key is generated for a software key under another name than the
    /// reserved one, and only there; it comes from the system's random
    /// source, so the plan is one of those that
    /// [`IdentityManager::create_new_identity_with_key`] gives for a plan of
    /// [`key_file`].
    pub fn create_new_identity(
        &self,
        name: &str,
        parameters: IdentityCreationParameters,
    ) -> (plan: Plan<()>)
        ensures
            exists|generated: Option<Seq<u8>>|
                plan@ == creation(
                    self@.identity_root_path,
                    name@,
                    parameters@,
                    #[trigger] key_file_plan(pem_path(self@.identity_root_path, name@), generated),
                ),
            name@ == ANONYMOUS_IDENTITY_NAME@ ==> plan@ == PlanView::<()>::failed(
                IdentityErrorView::CannotCreateAnonymousIdentity,
            ),
            parameters@ is Hardware ==> plan@ == creation(
                self@.identity_root_path,
                name@,
                parameters@,
                PlanView::done(()),
            ),
    {
        let pem_file = self.get_identity_pem_path(name);
        let software = match &parameters {
            IdentityCreationParameters::Pem() => true,
            IdentityCreationParameters::Hardware(_) => false,
        };
        if software && !str_eq(name, ANONYMOUS_IDENTITY_NAME) {
            let key = generate_key(pem_file.as_str());
            self.create_new_identity_with_key(name, parameters, key)
        } else {
            let plan = self.create_new_identity_with_key(name, parameters, Plan::done(()));
            assert(plan@ == creation(
                self@.identity_root_path,
                name@,
                parameters@,
                key_file_plan(pem_file@, None),
            ));
            plan
        }
    }

    /// The plan for a new identity, where `key` is the plan for its key file.
    pub fn create_new_identity_with_key(
        &self,
        name: &str,
        parameters: IdentityCreationParameters,
        key: Plan<()>,
    ) -> (plan: Plan<()>)
        ensures
            plan@ == creation(self@.identity_root_path, name@, parameters@, key@),
    {
        if str_eq(name, ANONYMOUS_IDENTITY_NAME) {
            return Plan::failed(IdentityError::CannotCreateAnonymousIdentity());
        }
        let directory = FsAction::CreateDirAll { path: self.get_identity_dir_path(name) };
        match parameters {
            IdentityCreationParameters::Pem() => key.after(directory),
            IdentityCreationParameters::Hardware(hsm) => {
                let configuration = IdentityConfiguration { hsm: Some(hsm) };
                Plan::done(()).after(
                    FsAction::WriteIdentityConfiguration {
                        path: self.get_identity_json_path(name),
                        configuration,
                    },
                ).after(directory)
            },
        }
    }

    /// The names of all identities: the directories among the entries of the
    /// registry's root, in the order of texts.
    pub fn get_identity_names(&self, entries: &Vec<DirectoryEntry>) -> (names: Vec<String>)
        ensures
            sorted(names.deep_view()),
            names.deep_view().to_multiset() == directory_names(entries@).to_multiset(),
    {
        let mut names: Vec<String> = Vec::new();
        let mut i: usize = 0;
        assert(entries@.take(0) =~= Seq::empty());
        assert(names.deep_view() =~= Seq::empty());
        while i < entries.len()
            invariant
                i <= entries.len(),
                sorted(names.deep_view()),
                names.deep_view().to_multiset() == directory_names(
                    entries@.take(i as int),
                ).to_multiset(),
            decreases entries.len() - i,
        {
            let entry = &entries[i];
            let ghost before = names.deep_view();
            proof {
                assert(entries@.take(i + 1).drop_last() =~= entries@.take(i as int));
                assert(entries@.take(i + 1).last() == entries@[i as int]);
            }
            match entry.kind {
                EntryKind::Directory => {
                    insert_sorted(&mut names, entry.name.as_str());
                    proof {
                        vstd::seq_lib::to_multiset_build(before, entry.name@);
                        vstd::seq_lib::to_multiset_build(
                            directory_names(entries@.take(i as int)),
                            entry.name@,
                        );
                    }
                },
                _ => {},
            }
            i += 1;
        }
        assert(entries@.take(entries.len() as int) =~= entries@);
        names
    }

    /// The name of the identity that this manager uses: the override that it
    /// was constructed with, or else the default that was persisted then.
    pub fn get_selected_identity_name(&self) -> (name: &String)
        ensures
            name@ == self@.selected_identity,
    {
        &self.selected_identity
    }

    /// Plans the removal of an identity: its configuration and its key are
    /// deleted as far as they exist, then its directory. An identity that
    /// does not exist and the persisted default are refused, in that order,
    /// and then nothing is changed.
    ///
    /// `persisted` is the global configuration as it is persisted when the
    /// removal is asked for, whatever it was when the manager was made.
    pub fn remove(
        &self,
        name: &str,
        files: IdentityFiles,
        persisted: &Configuration,
    ) -> (plan: Plan<()>)
        ensures
            plan@ == removal(self@.identity_root_path, persisted@.default, name@, files),
    {
        match self.require_identity_exists(name, files) {
            Err(error) => {
                return Plan::failed(error);
            },
            Ok(()) => {},
        }
        if str_eq(persisted.default.as_str(), name) {
            return Plan::failed(IdentityError::CannotDeleteDefaultIdentity());
        }
        let mut actions: Vec<FsAction> = Vec::new();
        if files.json {
            actions.push(FsAction::RemoveFile { path: self.get_identity_json_path(name) });
        }
        if files.pem {
            actions.push(FsAction::RemoveFile { path: self.get_identity_pem_path(name) });
        }
        actions.push(FsAction::RemoveDir { path: self.get_identity_dir_path(name) });
        let plan = Plan { actions, outcome: Ok(()) };
        assert(plan@.actions =~= removal_actions(self@.identity_root_path, name@, files));
        plan
    }

    /// Plans the renaming of an identity: its directory is renamed in one
    /// step and, where it was the persisted default, the new name is
    /// persisted as the default. The outcome tells whether the default
    /// changed.
    ///
    /// Refused, in this order and with nothing changed: the reserved name as
    /// the new name, an identity that does not exist, and a new name whose
    /// directory exists. The new name is a destination only: nothing is asked
    /// of it but that its directory is free.
    ///
    /// `persisted` is the global configuration as it is persisted when the
    /// rename is asked for, whatever it was when the manager was made.
    pub fn rename(
        &self,
        from: &str,
        to: &str,
        from_files: IdentityFiles,
        to_dir_exists: bool,
        persisted: &Configuration,
    ) -> (plan: Plan<bool>)
        ensures
            plan@ == renaming(
                self@.identity_json_path,
                self@.identity_root_path,
                persisted@.default,
                from@,
                to@,
                from_files,
                to_dir_exists,
            ),
    {
        if str_eq(to, ANONYMOUS_IDENTITY_NAME) {
            return Plan::failed(IdentityError::CannotCreateAnonymousIdentity());
        }
        match self.require_identity_exists(from, from_files) {
            Err(error) => {
                return Plan::failed(error);
            },
            Ok(()) => {},
        }
        if to_dir_exists {
            return Plan::failed(IdentityError::IdentityAlreadyExists());
        }
        let moved = FsAction::RenameDir {
            from: self.get_identity_dir_path(from),
            to: self.get_identity_dir_path(to),
        };
        if str_eq(from, persisted.default.as_str()) {
            let written: Plan<()> = self.write_default_identity(to);
            written.followed_by(Plan::done(true)).after(moved)
        } else {
            Plan::done(false).after(moved)
        }
    }

    /// Plans the selection of an identity as the persisted default. An
    /// identity that does not exist is refused.
    pub fn use_identity_named(&self, name: &str, files: IdentityFiles) -> (plan: Plan<()>)
        ensures
            plan@ == selection(self@.identity_json_path, self@.identity_root_path, name@, files),
    {
        match self.require_identity_exists(name, files) {
            Err(error) => Plan::failed(error),
            Ok(()) => self.write_default_identity(name),
        }
    }

    /// The plan that persists `name` as the default.
    pub fn write_default_identity(&self, name: &str) -> (plan: Plan<()>)
        ensures
            plan@ == default_written(self@.identity_json_path, name@),
    {
        let config = Configuration { default: name.to_owned() };
        Plan::done(()).after(
            FsAction::WriteConfiguration {
                path: self.identity_json_path.clone(),
                configuration: config,
            },
        )
    }

    /// Whether an identity exists, given which of its files were found: it
    /// does where its key file or its configuration exists.
    pub fn require_identity_exists(
        &self,
        name: &str,
        files: IdentityFiles,
    ) -> (found: Result<(), IdentityError>)
        ensures
            files.present() ==> found is Ok,
            !files.present() ==> (found matches Err(e) && e@ == missing(
                self@.identity_root_path,
                name@,
            )),
    {
        let identity_pem_path = self.get_identity_pem_path(name);
        if !files.pem {
            if !files.json {
                Err(IdentityError::IdentityDoesNotExist(name.to_owned(), identity_pem_path))
            } else {
                Ok(())
            }
        } else {
            Ok(())
        }
    }

    /// The directory of an identity.
    pub fn get_identity_dir_path(&self, identity: &str) -> (path: String)
        ensures
            path@ == dir_path(self@.identity_root_path, identity@),
    {
        identity_dir_path_in(self.identity_root_path.as_str(), identity)
    }

    /// The key file of an identity.
    pub fn get_identity_pem_path(&self, identity: &str) -> (path: String)
        ensures
            path@ == pem_path(self@.identity_root_path, identity@),
    {
        identity_pem_path_in(self.identity_root_path.as_str(), identity)
    }

    /// The configuration of an identity.
    pub fn get_identity_json_path(&self, identity: &str) -> (path: String)
        ensures
            path@ == json_path(self@.identity_root_path, identity@),
    {
        identity_json_path_in(self.identity_root_path.as_str(), identity)
    }

    /// The directory that holds one directory per identity.
    pub fn get_identity_root_path(&self) -> (path: &String)
        ensures
            path@ == self@.identity_root_path,
    {
        &self.identity_root_path
    }

    /// The path of the global configuration.
    pub fn get_configuration_path(&self) -> (path: &String)
        ensures
            path@ == self@.identity_json_path,
    {
        &self.identity_json_path
    }
}

/// Puts `name` into a sorted list of names, behind the names that stand no
/// later than it.
fn insert_sorted(names: &mut Vec<String>, name: &str)
    requires
        sorted(old(names).deep_view()),
    ensures
        sorted(final(names).deep_view()),
        final(names).deep_view().to_multiset() == old(names).deep_view().to_multiset().insert(
            name@,
        ),
{
    let mut at: usize = 0;
    while at < names.len() && str_le(names[at].as_str(), name)
        invariant
            at <= names.len(),
            forall|k: int| 0 <= k < at ==> text_le(#[trigger] names.deep_view()[k], name@),
        decreases names.len() - at,
    {
        at += 1;
    }
    let ghost before = names.deep_view();
    names.insert(at, name.to_owned());
    proof {
        let after = names.deep_view();
        assert(after =~= before.insert(at as int, name@));
        assert(after.remove(at as int) =~= before);
        vstd::seq_lib::to_multiset_remove(after, at as int);
        assert(after.to_multiset().count(name@) > 0) by {
            after.to_multiset_ensures();
            assert(after[at as int] == name@);
            assert(after.contains(name@));
        }
        assert(after.to_multiset() =~= before.to_multiset().insert(name@));
        assert forall|i: int, j: int| 0 <= i < j < after.len() implies text_le(
            after[i],
            after[j],
        ) by {
            if j == at {
            } else if i == at {
                let next = before[at as int];
                lemma_text_le_total(next, name@);
                if j - 1 > at {
                    lemma_text_le_transitive(name@, next, before[j - 1]);
                }
            } else {
            }
        }
    }
}

} // verus!
