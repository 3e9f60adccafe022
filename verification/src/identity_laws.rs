//! What holds of the registry whatever is asked of it: laws over the plans
//! that the manager makes.

use vstd::prelude::*;
use vstd::relations::{sorted_by, total_ordering};
use vstd::seq_lib::lemma_sorted_unique;
use crate::configuration::{
    ConfigurationView,
    ANONYMOUS_IDENTITY_NAME,
    DEFAULT_IDENTITY_NAME,
    IDENTITY_JSON,
    IDENTITY_PEM,
};
use crate::error::IdentityErrorView;
use crate::first_run::{initialization, FirstRunProbe};
use crate::identity_manager::{
    creation,
    directory_names,
    missing,
    naming,
    removal,
    renaming,
    selection,
    sorted,
    DirectoryEntry,
    IdentityCreationParameters,
    IdentityFiles,
    IdentityManager,
};
use vstd::utf8::encode_utf8;
use crate::identity::{loading, software, IdentityKeyView, IdentityView, KeyMaterialView};
use crate::identity_manager::IdentityCreationParametersView;
use crate::key_file::{key_file_plan, PRIVATE_KEY_TAG};
use crate::keys::pem_text;
use crate::layout::{dir_path, json_path, json_path_under, pem_path, root_path_under, IDENTITY_ROOT};
use crate::paths::{
    is_component,
    lemma_component_is_determined,
    lemma_join_is_injective,
    lemma_join_stays_under_base,
    lemma_join_twice,
    path_join,
    SEPARATOR,
};
use crate::plan::{FsActionView, PlanView};
use crate::text::{
    lemma_text_le_antisymmetric,
    lemma_text_le_total,
    lemma_text_le_transitive,
    text_le,
};

verus! {

/// The default that is persisted once `actions` have been performed, where it
/// was `before`: the one that the last write to the global configuration at
/// `json` names.
pub open spec fn persisted_default(
    actions: Seq<FsActionView>,
    json: Seq<char>,
    before: Seq<char>,
) -> Seq<char>
    decreases actions.len(),
{
    if actions.len() == 0 {
        before
    } else {
        match actions.last() {
            FsActionView::WriteConfiguration { path, configuration } if path == json => configuration.default,
            _ => persisted_default(actions.drop_last(), json, before),
        }
    }
}

/// Actions that write no global configuration leave the persisted default as
/// it is.
pub proof fn lemma_default_survives(actions: Seq<FsActionView>, json: Seq<char>, before: Seq<char>)
    requires
        forall|i: int| 0 <= i < actions.len() ==> !(#[trigger] actions[i] is WriteConfiguration),
    ensures
        persisted_default(actions, json, before) == before,
    decreases actions.len(),
{
    if actions.len() > 0 {
        lemma_default_survives(actions.drop_last(), json, before);
    }
}

/// No identity is ever created under the reserved name: whatever the
/// parameters, and whatever key is at hand, the plan changes nothing and
/// reports that the name cannot be used.
pub proof fn lemma_reserved_name_is_never_created(
    manager: IdentityManager,
    parameters: IdentityCreationParameters,
    key: PlanView<()>,
)
    ensures
        creation(manager@.identity_root_path, ANONYMOUS_IDENTITY_NAME@, parameters@, key)
            == PlanView::<()>::failed(IdentityErrorView::CannotCreateAnonymousIdentity),
        creation(
            manager@.identity_root_path,
            ANONYMOUS_IDENTITY_NAME@,
            parameters@,
            key,
        ).changes_nothing(),
{
}

/// A key file that is planned holds a key that loads again: where a key file
/// is planned for a generated document, the file is written with the PEM
/// form of that document, and the contents of the file, read as an
/// identity's key file, make a software identity that holds that document.
pub proof fn lemma_planned_key_file_loads_back(
    root: Seq<char>,
    name: Seq<char>,
    generated: Option<Seq<u8>>,
)
    requires
        key_file_plan(pem_path(root, name), generated).outcome is Ok,
    ensures
        generated matches Some(document) && ({
            let contents = pem_text(PRIVATE_KEY_TAG@, document);
            &&& key_file_plan(pem_path(root, name), generated).actions == seq![
                FsActionView::WriteKeyFile { path: pem_path(root, name), contents },
                FsActionView::ProtectKeyFile { path: pem_path(root, name) },
            ]
            &&& software(root, name, encode_utf8(contents)) == Ok::<IdentityView, IdentityErrorView>(
                IdentityView {
                    name,
                    dir: dir_path(root, name),
                    key: IdentityKeyView::Software { document },
                },
            )
        }),
{
    let plan = key_file_plan(pem_path(root, name), generated);
    assert(plan.actions =~= seq![
        FsActionView::WriteKeyFile {
            path: pem_path(root, name),
            contents: pem_text(PRIVATE_KEY_TAG@, generated->Some_0),
        },
        FsActionView::ProtectKeyFile { path: pem_path(root, name) },
    ]);
}

/// An identity that was created loads again with the key that was generated
/// for it: where the creation of a software identity is planned, the plan
/// makes the identity's directory and writes and protects its key file; and
/// once that is done, so that the key file exists and no configuration
/// beside it, loading the identity from the contents of the key file gives
/// the identity that holds the generated document. Its signatures and its
/// public key are then those of that document.
pub proof fn lemma_created_identity_loads_its_own_key(
    manager: IdentityManager,
    name: Seq<char>,
    generated: Option<Seq<u8>>,
)
    requires
        creation(
            manager@.identity_root_path,
            name,
            IdentityCreationParametersView::Pem,
            key_file_plan(pem_path(manager@.identity_root_path, name), generated),
        ).outcome is Ok,
    ensures
        generated matches Some(document) && ({
            let root = manager@.identity_root_path;
            let contents = pem_text(PRIVATE_KEY_TAG@, document);
            &&& creation(
                root,
                name,
                IdentityCreationParametersView::Pem,
                key_file_plan(pem_path(root, name), generated),
            ).actions == seq![
                FsActionView::CreateDirAll { path: dir_path(root, name) },
                FsActionView::WriteKeyFile { path: pem_path(root, name), contents },
                FsActionView::ProtectKeyFile { path: pem_path(root, name) },
            ]
            &&& loading(
                root,
                name,
                IdentityFiles { pem: true, json: false },
                KeyMaterialView::Pem(encode_utf8(contents)),
            ) == Ok::<IdentityView, IdentityErrorView>(
                IdentityView {
                    name,
                    dir: dir_path(root, name),
                    key: IdentityKeyView::Software { document },
                },
            )
        }),
{
    let root = manager@.identity_root_path;
    lemma_planned_key_file_loads_back(root, name, generated);
    let plan = creation(
        root,
        name,
        IdentityCreationParametersView::Pem,
        key_file_plan(pem_path(root, name), generated),
    );
    assert(plan.actions =~= seq![
        FsActionView::CreateDirAll { path: dir_path(root, name) },
        FsActionView::WriteKeyFile {
            path: pem_path(root, name),
            contents: pem_text(PRIVATE_KEY_TAG@, generated->Some_0),
        },
        FsActionView::ProtectKeyFile { path: pem_path(root, name) },
    ]);
}

/// Creating an identity leaves the persisted default as it is.
pub proof fn lemma_creation_keeps_the_default(
    manager: IdentityManager,
    persisted: Seq<char>,
    name: Seq<char>,
    parameters: IdentityCreationParameters,
    generated: Option<Seq<u8>>,
)
    ensures
        persisted_default(
            creation(
                manager@.identity_root_path,
                name,
                parameters@,
                key_file_plan(pem_path(manager@.identity_root_path, name), generated),
            ).actions,
            manager@.identity_json_path,
            persisted,
        ) == persisted,
{
    let plan = creation(
        manager@.identity_root_path,
        name,
        parameters@,
        key_file_plan(pem_path(manager@.identity_root_path, name), generated),
    );
    lemma_default_survives(plan.actions, manager@.identity_json_path, persisted);
}

/// The persisted default is never removed: where the identity that is the
/// persisted default when the removal is asked for exists, its removal
/// changes nothing and is refused as the removal of the default.
pub proof fn lemma_default_is_never_removed(
    manager: IdentityManager,
    persisted: Seq<char>,
    files: IdentityFiles,
)
    requires
        files.present(),
    ensures
        removal(manager@.identity_root_path, persisted, persisted, files)
            == PlanView::<()>::failed(IdentityErrorView::CannotDeleteDefaultIdentity),
        removal(
            manager@.identity_root_path,
            persisted,
            persisted,
            files,
        ).changes_nothing(),
{
}

/// An identity that does not exist is never removed: its removal changes
/// nothing and is refused as the removal of a missing identity.
pub proof fn lemma_missing_identity_is_never_removed(
    manager: IdentityManager,
    persisted: Seq<char>,
    name: Seq<char>,
    files: IdentityFiles,
)
    requires
        !files.present(),
    ensures
        removal(manager@.identity_root_path, persisted, name, files) == PlanView::<
            (),
        >::failed(missing(manager@.identity_root_path, name)),
        removal(manager@.identity_root_path, persisted, name, files).changes_nothing(),
{
}

/// Removing an identity leaves the persisted default as it is.
pub proof fn lemma_removal_keeps_the_default(
    manager: IdentityManager,
    persisted: Seq<char>,
    name: Seq<char>,
    files: IdentityFiles,
)
    ensures
        persisted_default(
            removal(manager@.identity_root_path, persisted, name, files).actions,
            manager@.identity_json_path,
            persisted,
        ) == persisted,
{
    let plan = removal(manager@.identity_root_path, persisted, name, files);
    lemma_default_survives(plan.actions, manager@.identity_json_path, persisted);
}

/// An identity is never renamed onto one that exists: where the identity
/// exists and the new name is not the reserved one, a new name whose
/// directory exists is refused, and nothing is changed, so that both
/// identities stay as they are.
pub proof fn lemma_rename_onto_existing_is_refused(
    manager: IdentityManager,
    persisted: Seq<char>,
    from: Seq<char>,
    to: Seq<char>,
    from_files: IdentityFiles,
)
    requires
        from_files.present(),
        to != ANONYMOUS_IDENTITY_NAME@,
    ensures
        renaming(
            manager@.identity_json_path,
            manager@.identity_root_path,
            persisted,
            from,
            to,
            from_files,
            true,
        ) == PlanView::<bool>::failed(IdentityErrorView::IdentityAlreadyExists),
        renaming(
            manager@.identity_json_path,
            manager@.identity_root_path,
            persisted,
            from,
            to,
            from_files,
            true,
        ).changes_nothing(),
{
}

/// The persisted default follows a rename: a plan that renames the persisted
/// default persists the new name as the default and reports the change; one
/// that renames another identity leaves the persisted default as it is and
/// reports no change.
pub proof fn lemma_rename_moves_the_default(
    manager: IdentityManager,
    persisted: Seq<char>,
    from: Seq<char>,
    to: Seq<char>,
    from_files: IdentityFiles,
    to_dir_exists: bool,
)
    requires
        renaming(
            manager@.identity_json_path,
            manager@.identity_root_path,
            persisted,
            from,
            to,
            from_files,
            to_dir_exists,
        ).outcome is Ok,
    ensures
        ({
            let plan = renaming(
                manager@.identity_json_path,
                manager@.identity_root_path,
                persisted,
                from,
                to,
                from_files,
                to_dir_exists,
            );
            &&& plan.outcome == Ok::<bool, IdentityErrorView>(from == persisted)
            &&& persisted_default(plan.actions, manager@.identity_json_path, persisted) == (
            if from == persisted {
                to
            } else {
                persisted
            })
        }),
{
    let json = manager@.identity_json_path;
    let plan = renaming(
        json,
        manager@.identity_root_path,
        persisted,
        from,
        to,
        from_files,
        to_dir_exists,
    );
    if from == persisted {
        assert(plan.actions.len() == 2);
        assert(plan.actions.last() == FsActionView::WriteConfiguration {
            path: json,
            configuration: naming(to),
        });
    } else {
        lemma_default_survives(plan.actions, json, persisted);
    }
}

/// Every check is made before anything is changed: a removal, a rename or a
/// selection that is refused changes nothing.
pub proof fn lemma_refusals_change_nothing(
    manager: IdentityManager,
    persisted: Seq<char>,
    name: Seq<char>,
    to: Seq<char>,
    files: IdentityFiles,
    to_dir_exists: bool,
)
    ensures
        ({
            let json = manager@.identity_json_path;
            let root = manager@.identity_root_path;
            let default = persisted;
            &&& removal(root, default, name, files).outcome is Err ==> removal(
                root,
                default,
                name,
                files,
            ).changes_nothing()
            &&& renaming(json, root, default, name, to, files, to_dir_exists).outcome is Err
                ==> renaming(json, root, default, name, to, files, to_dir_exists).changes_nothing()
            &&& selection(json, root, name, files).outcome is Err ==> selection(
                json,
                root,
                name,
                files,
            ).changes_nothing()
        }),
{
}

/// The guard follows the default: once an identity was selected as the
/// default, whatever the default was before, its removal is refused, and a
/// rename of it takes the default along. The same holds of the new name of a
/// default that was renamed.
pub proof fn lemma_default_is_guarded_after_it_changed(
    manager: IdentityManager,
    before: Seq<char>,
    name: Seq<char>,
    to: Seq<char>,
    files: IdentityFiles,
)
    requires
        files.present(),
        to != ANONYMOUS_IDENTITY_NAME@,
    ensures
        ({
            let json = manager@.identity_json_path;
            let root = manager@.identity_root_path;
            let selected = persisted_default(selection(json, root, name, files).actions, json, before);
            let renamed = persisted_default(
                renaming(json, root, selected, name, to, files, false).actions,
                json,
                selected,
            );
            &&& selected == name
            &&& removal(root, selected, name, files) == PlanView::<()>::failed(
                IdentityErrorView::CannotDeleteDefaultIdentity,
            )
            &&& renaming(json, root, selected, name, to, files, false).outcome == Ok::<
                bool,
                IdentityErrorView,
            >(true)
            &&& renamed == to
            &&& removal(root, renamed, to, files) == PlanView::<()>::failed(
                IdentityErrorView::CannotDeleteDefaultIdentity,
            )
        }),
{
    lemma_selection_sets_the_default(manager, before, name, files);
    lemma_rename_moves_the_default(manager, name, name, to, files, false);
}

/// Selecting an identity that exists persists it as the default.
pub proof fn lemma_selection_sets_the_default(
    manager: IdentityManager,
    persisted: Seq<char>,
    name: Seq<char>,
    files: IdentityFiles,
)
    requires
        files.present(),
    ensures
        ({
            let plan = selection(
                manager@.identity_json_path,
                manager@.identity_root_path,
                name,
                files,
            );
            &&& plan.outcome == Ok::<(), IdentityErrorView>(())
            &&& persisted_default(plan.actions, manager@.identity_json_path, persisted)
                == name
        }),
{
    let plan = selection(manager@.identity_json_path, manager@.identity_root_path, name, files);
    assert(plan.actions.len() == 1);
    assert(plan.actions.last() == FsActionView::WriteConfiguration {
        path: manager@.identity_json_path,
        configuration: naming(name),
    });
}

/// The first run persists the default identity as the default, whatever was
/// found on disk, provided that it succeeds.
pub proof fn lemma_first_run_sets_the_default(
    json: Seq<char>,
    root: Seq<char>,
    probe: FirstRunProbe,
    key: PlanView<()>,
    before: Seq<char>,
)
    requires
        initialization(json, root, probe@, key).outcome is Ok,
    ensures
        initialization(json, root, probe@, key).outcome == Ok::<
            ConfigurationView,
            IdentityErrorView,
        >(naming(DEFAULT_IDENTITY_NAME@)),
        persisted_default(initialization(json, root, probe@, key).actions, json, before)
            == DEFAULT_IDENTITY_NAME@,
{
    let plan = initialization(json, root, probe@, key);
    assert(plan.actions.last() == FsActionView::WriteConfiguration {
        path: json,
        configuration: naming(DEFAULT_IDENTITY_NAME@),
    });
}

/// No two identities share storage: identities whose names are different
/// components of a path have different directories, both under the
/// registry's root, and no file of the one is a file of the other or its
/// directory.
pub proof fn lemma_identities_do_not_share_storage(
    manager: IdentityManager,
    first: Seq<char>,
    second: Seq<char>,
)
    requires
        is_component(first),
        is_component(second),
        first != second,
    ensures
        ({
            let root = manager@.identity_root_path;
            &&& root.is_prefix_of(dir_path(root, first))
            &&& root.is_prefix_of(dir_path(root, second))
            &&& dir_path(root, first) != dir_path(root, second)
            &&& pem_path(root, first) != pem_path(root, second)
            &&& json_path(root, first) != json_path(root, second)
            &&& pem_path(root, first) != json_path(root, second)
            &&& pem_path(root, first) != dir_path(root, second)
            &&& json_path(root, first) != dir_path(root, second)
        }),
{
    let root = manager@.identity_root_path;
    lemma_join_stays_under_base(root, first);
    lemma_join_stays_under_base(root, second);
    lemma_join_is_injective(root, first, second);
    let opening = path_join(root, Seq::empty());
    reveal_strlit("identity.pem");
    reveal_strlit("identity.json");
    let pem = IDENTITY_PEM@;
    let json = IDENTITY_JSON@;
    assert(pem.len() == 12 && json.len() == 13);
    assert(pem[0] == 'i' && json[0] == 'i');
    lemma_join_twice(root, first, pem);
    lemma_join_twice(root, first, json);
    lemma_join_twice(root, second, pem);
    lemma_join_twice(root, second, json);
    let cut = |path: Seq<char>| path.subrange(opening.len() as int, path.len() as int);
    assert(cut(dir_path(root, first)) =~= first);
    assert(cut(dir_path(root, second)) =~= second);
    assert(cut(pem_path(root, first)) =~= first + seq![SEPARATOR] + pem);
    assert(cut(pem_path(root, second)) =~= second + seq![SEPARATOR] + pem);
    assert(cut(json_path(root, first)) =~= first + seq![SEPARATOR] + json);
    assert(cut(json_path(root, second)) =~= second + seq![SEPARATOR] + json);
    if pem_path(root, first) == pem_path(root, second) {
        lemma_component_is_determined(first, pem, second, pem);
    }
    if json_path(root, first) == json_path(root, second) {
        lemma_component_is_determined(first, json, second, json);
    }
    if pem_path(root, first) == json_path(root, second) {
        lemma_component_is_determined(first, pem, second, json);
    }
    if pem_path(root, first) == dir_path(root, second) {
        assert(second == first + seq![SEPARATOR] + pem);
        assert(second[first.len() as int] == SEPARATOR);
    }
    if json_path(root, first) == dir_path(root, second) {
        assert(second == first + seq![SEPARATOR] + json);
        assert(second[first.len() as int] == SEPARATOR);
    }
}

/// Under a configuration root, the files of an identity whose name is a
/// component of a path are other files than the global configuration.
pub proof fn lemma_identity_files_are_not_the_global_configuration(
    config_dir: Seq<char>,
    name: Seq<char>,
)
    requires
        is_component(name),
    ensures
        ({
            let root = root_path_under(config_dir);
            let global = json_path_under(config_dir);
            &&& dir_path(root, name) != global
            &&& pem_path(root, name) != global
            &&& json_path(root, name) != global
        }),
{
    reveal_strlit("identity");
    reveal_strlit("identity.pem");
    reveal_strlit("identity.json");
    let opening = path_join(config_dir, Seq::empty());
    let root = root_path_under(config_dir);
    let global = json_path_under(config_dir);
    assert(IDENTITY_ROOT@.len() == 8 && IDENTITY_JSON@.len() == 13 && IDENTITY_PEM@.len() == 12);
    assert(IDENTITY_ROOT@[0] == 'i' && IDENTITY_ROOT@[7] == 'y');
    assert(IDENTITY_JSON@[0] == 'i' && IDENTITY_JSON@[8] == '.');
    assert(IDENTITY_PEM@[0] == 'i');
    assert(is_component(IDENTITY_ROOT@)) by {
        assert(IDENTITY_ROOT@ =~= seq!['i', 'd', 'e', 'n', 't', 'i', 't', 'y']);
    }
    lemma_join_twice(config_dir, IDENTITY_ROOT@, name);
    assert(root == opening + IDENTITY_ROOT@);
    assert(global =~= opening + IDENTITY_JSON@);
    assert(dir_path(root, name) == opening + IDENTITY_ROOT@ + seq![SEPARATOR] + name);
    let at = opening.len() as int + 8;
    assert(global[at] == '.');
    assert(dir_path(root, name)[at] == SEPARATOR);
    assert(dir_path(root, name).last() == name.last());
    assert(pem_path(root, name) =~= dir_path(root, name) + seq![SEPARATOR] + IDENTITY_PEM@);
    assert(json_path(root, name) =~= dir_path(root, name) + seq![SEPARATOR] + IDENTITY_JSON@);
    assert(pem_path(root, name)[at] == SEPARATOR);
    assert(json_path(root, name)[at] == SEPARATOR);
}

/// The global configuration is never deleted: whatever is created, removed,
/// renamed or selected, the only action that changes the global
/// configuration is a write of the configuration itself.
pub proof fn lemma_global_configuration_is_never_deleted(
    config_dir: Seq<char>,
    manager: IdentityManager,
    persisted: Seq<char>,
    name: Seq<char>,
    to: Seq<char>,
    parameters: IdentityCreationParameters,
    generated: Option<Seq<u8>>,
    files: IdentityFiles,
    to_dir_exists: bool,
)
    requires
        manager@.identity_json_path == json_path_under(config_dir),
        manager@.identity_root_path == root_path_under(config_dir),
        is_component(name),
        is_component(to),
    ensures
        ({
            let json = manager@.identity_json_path;
            let root = manager@.identity_root_path;
            let default = persisted;
            let created = creation(root, name, parameters@, key_file_plan(pem_path(root, name), generated));
            let removed = removal(root, default, name, files);
            let renamed = renaming(json, root, default, name, to, files, to_dir_exists);
            let selected = selection(json, root, name, files);
            &&& forall|i: int|
                0 <= i < created.actions.len() && (#[trigger] created.actions[i]).changes(json)
                    ==> created.actions[i] is WriteConfiguration
            &&& forall|i: int|
                0 <= i < removed.actions.len() && (#[trigger] removed.actions[i]).changes(json)
                    ==> removed.actions[i] is WriteConfiguration
            &&& forall|i: int|
                0 <= i < renamed.actions.len() && (#[trigger] renamed.actions[i]).changes(json)
                    ==> renamed.actions[i] is WriteConfiguration
            &&& forall|i: int|
                0 <= i < selected.actions.len() && (#[trigger] selected.actions[i]).changes(json)
                    ==> selected.actions[i] is WriteConfiguration
        }),
{
    lemma_identity_files_are_not_the_global_configuration(config_dir, name);
    lemma_identity_files_are_not_the_global_configuration(config_dir, to);
}

/// A listing shows the directories and nothing else: a name is listed where,
/// and only where, a directory among the entries bears it.
pub proof fn lemma_listing_shows_directories_only(entries: Seq<DirectoryEntry>, name: Seq<char>)
    ensures
        directory_names(entries).contains(name) <==> exists|i: int|
            0 <= i < entries.len() && (#[trigger] entries[i]).kind is Directory && entries[i].name@
                == name,
    decreases entries.len(),
{
    if entries.len() > 0 {
        let earlier = entries.drop_last();
        let last = entries.last();
        lemma_listing_shows_directories_only(earlier, name);
        let listed = directory_names(earlier);
        if directory_names(entries).contains(name) {
            if listed.contains(name) {
                let i = choose|i: int|
                    0 <= i < earlier.len() && (#[trigger] earlier[i]).kind is Directory
                        && earlier[i].name@ == name;
                assert(entries[i] == earlier[i]);
            } else {
                assert(last.kind is Directory && last.name@ == name) by {
                    if last.kind is Directory {
                        let k = choose|k: int|
                            0 <= k < listed.push(last.name@).len() && listed.push(last.name@)[k]
                                == name;
                        if k < listed.len() {
                            assert(listed[k] == name);
                        }
                    }
                }
                assert(entries[entries.len() - 1] == last);
            }
        }
        if exists|i: int|
            0 <= i < entries.len() && (#[trigger] entries[i]).kind is Directory && entries[i].name@
                == name {
            let i = choose|i: int|
                0 <= i < entries.len() && (#[trigger] entries[i]).kind is Directory
                    && entries[i].name@ == name;
            if i < earlier.len() {
                assert(earlier[i] == entries[i]);
                assert(listed.contains(name));
                let k = choose|k: int| 0 <= k < listed.len() && listed[k] == name;
                if last.kind is Directory {
                    assert(listed.push(last.name@)[k] == name);
                }
            } else {
                assert(listed.push(last.name@)[listed.len() as int] == name);
            }
        }
    }
}

/// A listing does not depend on the order in which the entries were read:
/// two sorted lists that hold the same names equally often are the same
/// list.
pub proof fn lemma_listing_is_determined(first: Seq<Seq<char>>, second: Seq<Seq<char>>)
    requires
        sorted(first),
        sorted(second),
        first.to_multiset() == second.to_multiset(),
    ensures
        first == second,
{
    let leq = |a: Seq<char>, b: Seq<char>| text_le(a, b);
    assert(total_ordering(leq)) by {
        assert forall|a: Seq<char>| #[trigger] leq(a, a) by {
            lemma_text_le_total(a, a);
        }
        assert forall|a: Seq<char>, b: Seq<char>| #[trigger] leq(a, b) && #[trigger] leq(b, a) implies a
            == b by {
            lemma_text_le_antisymmetric(a, b);
        }
        assert forall|a: Seq<char>, b: Seq<char>, c: Seq<char>| #[trigger]
            leq(a, b) && #[trigger] leq(b, c) implies leq(a, c) by {
            lemma_text_le_transitive(a, b, c);
        }
        assert forall|a: Seq<char>, b: Seq<char>| #[trigger] leq(a, b) || #[trigger] leq(b, a) by {
            lemma_text_le_total(a, b);
        }
    }
    assert(sorted_by(first, leq));
    assert(sorted_by(second, leq));
    lemma_sorted_unique(first, second, leq);
}

} // verus!
