//! What a gateway's configuration, actions and tables must be.
use vstd::prelude::*;

use crate::json::JsonView;
use crate::json_text;
use crate::laws::conversion;
use crate::laws::texts;
use crate::open_connector::action_registry;
use crate::open_connector::action_registry::{
    ActionMetadata, ActionView, DiscoveredAction,
};
use crate::open_connector::config;
use crate::open_connector::config::{BindingView, ConfigView};
use crate::open_connector::error::{ErrorView, OpenConnectorError};
use crate::open_connector::json_to_arrow;
use crate::open_connector::pagination;
use crate::open_connector::row_path;
use crate::open_connector::source_pack::TableView;
use crate::open_connector::table;

verus! {

/// Whether texts differ from each other and none is white space alone.
pub open spec fn proper_names(names: Seq<Seq<char>>) -> bool {
    &&& forall|i: int| 0 <= i < names.len() ==> !texts::all_white(#[trigger] names[i])
    &&& forall|i: int, j: int| 0 <= i < j < names.len() ==> #[trigger] names[i] != #[trigger] names[j]
}

/// Whether a binding is sound on its own: it names itself, its pack and at least
/// one table, and no table twice.
pub open spec fn sound_binding(binding: BindingView) -> bool {
    &&& !texts::all_white(binding.name)
    &&& !texts::all_white(binding.source_pack)
    &&& binding.tables.len() > 0
    &&& proper_names(binding.tables)
}

/// Whether a gateway block is sound: it names its token variable, its bindings are
/// sound and have names of their own, no allowed action is blank and no limit is
/// zero.
pub open spec fn sound_config(config: ConfigView) -> bool {
    &&& !texts::all_white(config.runtime_token_env)
    &&& forall|i: int| 0 <= i < config.bindings.len() ==> sound_binding(#[trigger] config.bindings[i])
    &&& forall|i: int, j: int|
        0 <= i < j < config.bindings.len() ==> (#[trigger] config.bindings[i]).name != (
        #[trigger] config.bindings[j]).name
    &&& forall|i: int|
        0 <= i < config.raw_action_allowlist.len() ==> !texts::all_white(
            #[trigger] config.raw_action_allowlist[i],
        )
    &&& config.max_pages matches Some(n) ==> n > 0
    &&& config.max_rows matches Some(n) ==> n > 0
}

proof fn sound_table_lists(binding: Seq<char>, tables: Seq<Seq<char>>)
    ensures
        config::tables_problem(binding, tables) is None <==> proper_names(tables),
        config::tables_problem(binding, tables) matches Some(e) ==> match e {
            ErrorView::EmptyTableName { binding: named } => named == binding,
            ErrorView::DuplicateTableName { binding: named, table } => named == binding
                && tables.contains(table),
            _ => false,
        },
    decreases tables.len(),
{
    if tables.len() > 0 {
        let shorter = tables.drop_last();
        let last = tables.len() - 1;
        sound_table_lists(binding, shorter);
        texts::nothing_is_left_of_white_space(tables.last());
        assert(tables[last] == tables.last());
        assert forall|i: int| 0 <= i < shorter.len() implies shorter[i] == #[trigger] tables[i] by {}
        if proper_names(tables) {
            assert forall|i: int| 0 <= i < shorter.len() implies !texts::all_white(
                #[trigger] shorter[i],
            ) by {
                assert(shorter[i] == tables[i]);
            }
            assert forall|i: int, j: int| 0 <= i < j < shorter.len() implies #[trigger] shorter[i]
                != #[trigger] shorter[j] by {
                assert(tables[i] != tables[j]);
            }
            if shorter.contains(tables.last()) {
                let k = choose|k: int| 0 <= k < shorter.len() && shorter[k] == tables.last();
                assert(tables[k] != tables[last]);
            }
        }
        if config::tables_problem(binding, tables) is None {
            assert forall|i: int| 0 <= i < tables.len() implies !texts::all_white(
                #[trigger] tables[i],
            ) by {
                if i < last {
                    assert(!texts::all_white(shorter[i]));
                }
            }
            assert forall|i: int, j: int| 0 <= i < j < tables.len() implies #[trigger] tables[i]
                != #[trigger] tables[j] by {
                if j < last {
                    assert(shorter[i] != shorter[j]);
                } else {
                    assert(shorter[i] == tables[i]);
                }
            }
        }
        if let Some(ErrorView::DuplicateTableName { table, .. }) = config::tables_problem(
            binding,
            tables,
        ) {
            if config::tables_problem(binding, shorter) is Some {
                let k = choose|k: int| 0 <= k < shorter.len() && shorter[k] == table;
                assert(tables[k] == table);
            } else {
                assert(tables[last] == table);
            }
        }
    }
}

proof fn sound_binding_lists(bindings: Seq<BindingView>)
    ensures
        config::bindings_problem(bindings) is None <==> {
            &&& forall|i: int| 0 <= i < bindings.len() ==> sound_binding(#[trigger] bindings[i])
            &&& forall|i: int, j: int|
                0 <= i < j < bindings.len() ==> (#[trigger] bindings[i]).name != (
                #[trigger] bindings[j]).name
        },
    decreases bindings.len(),
{
    if bindings.len() > 0 {
        let shorter = bindings.drop_last();
        let last = bindings.len() - 1;
        let one = bindings.last();
        sound_binding_lists(shorter);
        sound_table_lists(one.name, one.tables);
        texts::nothing_is_left_of_white_space(one.name);
        texts::nothing_is_left_of_white_space(one.source_pack);
        assert(bindings[last] == one);
        let names = config::binding_names(shorter);
        assert forall|i: int| 0 <= i < shorter.len() implies names[i] == (
        #[trigger] bindings[i]).name && shorter[i] == bindings[i] by {}
        if config::bindings_problem(bindings) is None {
            assert forall|i: int| 0 <= i < bindings.len() implies sound_binding(
                #[trigger] bindings[i],
            ) by {
                if i < last {
                    assert(sound_binding(shorter[i]));
                }
            }
            assert forall|i: int, j: int| 0 <= i < j < bindings.len() implies (
            #[trigger] bindings[i]).name != (#[trigger] bindings[j]).name by {
                if j < last {
                    assert(shorter[i].name != shorter[j].name);
                } else {
                    assert(names[i] == bindings[i].name);
                }
            }
        } else if (forall|i: int| 0 <= i < bindings.len() ==> sound_binding(#[trigger] bindings[i]))
            && (forall|i: int, j: int|
            0 <= i < j < bindings.len() ==> (#[trigger] bindings[i]).name != (
            #[trigger] bindings[j]).name) {
            assert forall|i: int| 0 <= i < shorter.len() implies sound_binding(
                #[trigger] shorter[i],
            ) by {
                assert(sound_binding(bindings[i]));
            }
            assert forall|i: int, j: int| 0 <= i < j < shorter.len() implies (
            #[trigger] shorter[i]).name != (#[trigger] shorter[j]).name by {
                assert(bindings[i].name != bindings[j].name);
            }
            if names.contains(one.name) {
                let k = choose|k: int| 0 <= k < names.len() && names[k] == one.name;
                assert(bindings[k].name != bindings[last].name);
            }
            assert(sound_binding(bindings[last]));
        }
    }
}

/// A gateway block is accepted exactly where it is sound.
pub proof fn sound_gateways_are_accepted(config: ConfigView)
    ensures
        config::config_problem(config) is None <==> sound_config(config),
{
    sound_binding_lists(config.bindings);
    texts::nothing_is_left_of_white_space(config.runtime_token_env);
    assert forall|i: int| 0 <= i < config.raw_action_allowlist.len() implies config::blank(
        #[trigger] config.raw_action_allowlist[i],
    ) == texts::all_white(config.raw_action_allowlist[i]) by {
        texts::nothing_is_left_of_white_space(config.raw_action_allowlist[i]);
    }
    if sound_config(config) {
        if exists|i: int|
            0 <= i < config.raw_action_allowlist.len() && config::blank(
                #[trigger] config.raw_action_allowlist[i],
            ) {
            let i = choose|i: int|
                0 <= i < config.raw_action_allowlist.len() && config::blank(
                    #[trigger] config.raw_action_allowlist[i],
                );
            assert(!texts::all_white(config.raw_action_allowlist[i]));
        }
    } else if config::config_problem(config) is None {
        assert forall|i: int| 0 <= i < config.raw_action_allowlist.len() implies !texts::all_white(
            #[trigger] config.raw_action_allowlist[i],
        ) by {
            assert(!config::blank(config.raw_action_allowlist[i]));
        }
    }
}

/// What is reported of a gateway block is so: a blank token variable, a blank or
/// repeated name, a binding without a pack or tables, a blank allowed action, a
/// limit of zero, by the field's name.
pub proof fn gateway_problems_are_so(config: ConfigView)
    ensures
        config::config_problem(config) matches Some(e) ==> match e {
            ErrorView::EmptyRuntimeTokenEnv => texts::all_white(config.runtime_token_env),
            ErrorView::EmptyBindingName => exists|i: int|
                0 <= i < config.bindings.len() && texts::all_white(
                    (#[trigger] config.bindings[i]).name,
                ),
            ErrorView::DuplicateBindingName { name } => exists|i: int, j: int|
                0 <= i < j < config.bindings.len() && (#[trigger] config.bindings[i]).name == name && (
                #[trigger] config.bindings[j]).name == name,
            ErrorView::EmptySourcePack { binding } => exists|i: int|
                0 <= i < config.bindings.len() && (#[trigger] config.bindings[i]).name == binding
                    && texts::all_white(config.bindings[i].source_pack),
            ErrorView::EmptyTableList { binding } => exists|i: int|
                0 <= i < config.bindings.len() && (#[trigger] config.bindings[i]).name == binding
                    && config.bindings[i].tables.len() == 0,
            ErrorView::EmptyTableName { binding } => exists|i: int|
                0 <= i < config.bindings.len() && (#[trigger] config.bindings[i]).name == binding
                    && !proper_names(config.bindings[i].tables),
            ErrorView::DuplicateTableName { binding, table } => exists|i: int|
                0 <= i < config.bindings.len() && (#[trigger] config.bindings[i]).name == binding
                    && config.bindings[i].tables.contains(table) && !proper_names(
                    config.bindings[i].tables,
                ),
            ErrorView::EmptyAllowlistEntry => exists|i: int|
                0 <= i < config.raw_action_allowlist.len() && texts::all_white(
                    #[trigger] config.raw_action_allowlist[i],
                ),
            ErrorView::ZeroSafetyBound { field } => (field == "max_pages"@ && config.max_pages
                == Some(0u32)) || (field == "max_rows"@ && config.max_rows == Some(0u64)),
            _ => false,
        },
{
    texts::nothing_is_left_of_white_space(config.runtime_token_env);
    binding_problems_are_so(config.bindings);
    assert forall|i: int| 0 <= i < config.raw_action_allowlist.len() implies config::blank(
        #[trigger] config.raw_action_allowlist[i],
    ) == texts::all_white(config.raw_action_allowlist[i]) by {
        texts::nothing_is_left_of_white_space(config.raw_action_allowlist[i]);
    }
}

proof fn binding_problems_are_so(bindings: Seq<BindingView>)
    ensures
        config::bindings_problem(bindings) matches Some(e) ==> match e {
            ErrorView::EmptyBindingName => exists|i: int|
                0 <= i < bindings.len() && texts::all_white((#[trigger] bindings[i]).name),
            ErrorView::DuplicateBindingName { name } => exists|i: int, j: int|
                0 <= i < j < bindings.len() && (#[trigger] bindings[i]).name == name && (
                #[trigger] bindings[j]).name == name,
            ErrorView::EmptySourcePack { binding } => exists|i: int|
                0 <= i < bindings.len() && (#[trigger] bindings[i]).name == binding
                    && texts::all_white(bindings[i].source_pack),
            ErrorView::EmptyTableList { binding } => exists|i: int|
                0 <= i < bindings.len() && (#[trigger] bindings[i]).name == binding
                    && bindings[i].tables.len() == 0,
            ErrorView::EmptyTableName { binding } => exists|i: int|
                0 <= i < bindings.len() && (#[trigger] bindings[i]).name == binding && !proper_names(
                    bindings[i].tables,
                ),
            ErrorView::DuplicateTableName { binding, table } => exists|i: int|
                0 <= i < bindings.len() && (#[trigger] bindings[i]).name == binding
                    && bindings[i].tables.contains(table) && !proper_names(bindings[i].tables),
            _ => false,
        },
    decreases bindings.len(),
{
    if bindings.len() > 0 {
        let shorter = bindings.drop_last();
        let last = bindings.len() - 1;
        let one = bindings.last();
        binding_problems_are_so(shorter);
        sound_table_lists(one.name, one.tables);
        texts::nothing_is_left_of_white_space(one.name);
        texts::nothing_is_left_of_white_space(one.source_pack);
        assert(bindings[last] == one);
        assert forall|i: int| 0 <= i < shorter.len() implies shorter[i] == #[trigger] bindings[i] by {}
        match config::bindings_problem(shorter) {
            Some(e) => match e {
                ErrorView::EmptyBindingName => {
                    let i = choose|i: int|
                        0 <= i < shorter.len() && texts::all_white((#[trigger] shorter[i]).name);
                    assert(texts::all_white(bindings[i].name));
                },
                ErrorView::DuplicateBindingName { name } => {
                    let (i, j) = choose|i: int, j: int|
                        0 <= i < j < shorter.len() && (#[trigger] shorter[i]).name == name && (
                        #[trigger] shorter[j]).name == name;
                    assert(bindings[i].name == name && bindings[j].name == name);
                },
                ErrorView::EmptySourcePack { binding } => {
                    let i = choose|i: int|
                        0 <= i < shorter.len() && (#[trigger] shorter[i]).name == binding
                            && texts::all_white(shorter[i].source_pack);
                    assert(bindings[i].name == binding);
                },
                ErrorView::EmptyTableList { binding } => {
                    let i = choose|i: int|
                        0 <= i < shorter.len() && (#[trigger] shorter[i]).name == binding
                            && shorter[i].tables.len() == 0;
                    assert(bindings[i].name == binding);
                },
                ErrorView::EmptyTableName { binding } => {
                    let i = choose|i: int|
                        0 <= i < shorter.len() && (#[trigger] shorter[i]).name == binding
                            && !proper_names(shorter[i].tables);
                    assert(bindings[i].name == binding);
                },
                ErrorView::DuplicateTableName { binding, table } => {
                    let i = choose|i: int|
                        0 <= i < shorter.len() && (#[trigger] shorter[i]).name == binding
                            && shorter[i].tables.contains(table) && !proper_names(shorter[i].tables);
                    assert(bindings[i].name == binding);
                },
                _ => {},
            },
            None => {
                let names = config::binding_names(shorter);
                if names.contains(one.name) {
                    let k = choose|k: int| 0 <= k < names.len() && names[k] == one.name;
                    assert(bindings[k].name == one.name);
                    assert(bindings[last].name == one.name);
                }
            },
        }
    }
}

/// An admitted action carries what the gateway said of it: its ID, its schemas
/// and whether it only reads; its fingerprint is the hash of its output schema's
/// text, and of the text `null` where it has none.
pub proof fn admitted_actions_carry_what_was_said(
    action_id: Seq<char>,
    discovered: DiscoveredAction,
)
    ensures
        action_registry::admitted(action_id, discovered) matches Ok(action) ==> {
            &&& action.action_id == action_id
            &&& action.read_only == discovered.read_only
            &&& match (action.input_schema, discovered.input_schema) {
                (Some(kept), Some(said)) => kept == said@,
                (None, None) => true,
                _ => false,
            }
            &&& match (action.output_schema, discovered.output_schema) {
                (Some(kept), Some(said)) => kept == said@,
                (None, None) => true,
                _ => false,
            }
            &&& action.fingerprint == action_registry::blake3_hex(
                vstd::utf8::encode_utf8(
                    match discovered.output_schema {
                        Some(said) => json_text::json_text(said@),
                        None => seq!['n', 'u', 'l', 'l'],
                    },
                ),
            )
        },
        discovered.locally_executable == Some(false) ==> action_registry::admitted(
            action_id,
            discovered,
        ) == Err::<ActionView, _>(ErrorView::ActionNotLocallyExecutable { action_id }),
{
    reveal_strlit("null");
    assert("null"@ =~= seq!['n', 'u', 'l', 'l']);
}

/// The fingerprint of an action is that of its output schema alone: actions whose
/// output schemas are the same have the same.
pub proof fn fingerprints_tell_output_schemas(
    a: DiscoveredAction,
    b: DiscoveredAction,
    id: Seq<char>,
    other: Seq<char>,
)
    requires
        match (a.output_schema, b.output_schema) {
            (Some(x), Some(y)) => x@ == y@,
            (None, None) => true,
            _ => false,
        },
    ensures
        action_registry::metadata_of(id, a).fingerprint == action_registry::metadata_of(
            other,
            b,
        ).fingerprint,
{
}

/// A registry holds an action under an ID exactly where it is made of one with
/// that ID.
pub proof fn registries_hold_their_actions(actions: Seq<ActionMetadata>, id: Seq<char>)
    ensures
        action_registry::by_id(actions).contains_key(id) <==> exists|i: int|
            0 <= i < actions.len() && (#[trigger] actions[i])@.action_id == id,
    decreases actions.len(),
{
    if actions.len() > 0 {
        let shorter = actions.drop_last();
        let last = actions.len() - 1;
        registries_hold_their_actions(shorter, id);
        assert(actions[last] == actions.last());
        if action_registry::by_id(shorter).contains_key(id) {
            let i = choose|i: int|
                0 <= i < shorter.len() && (#[trigger] shorter[i])@.action_id == id;
            assert(actions[i] == shorter[i]);
        }
        if exists|i: int| 0 <= i < actions.len() && (#[trigger] actions[i])@.action_id == id {
            let i = choose|i: int|
                0 <= i < actions.len() && (#[trigger] actions[i])@.action_id == id;
            if i < last {
                assert(shorter[i] == actions[i]);
            }
        }
    }
}

/// Where an ID comes more than once, a registry holds the last action with it.
pub proof fn the_last_action_counts(actions: Seq<ActionMetadata>, i: int)
    requires
        0 <= i < actions.len(),
        forall|j: int|
            i < j < actions.len() ==> (#[trigger] actions[j])@.action_id != actions[i]@.action_id,
    ensures
        action_registry::by_id(actions).contains_key(actions[i]@.action_id),
        action_registry::by_id(actions)[actions[i]@.action_id] == actions[i],
    decreases actions.len(),
{
    let last = actions.len() - 1;
    if i < last {
        assert(actions[last]@.action_id != actions[i]@.action_id);
        the_last_action_counts(actions.drop_last(), i);
    }
}

/// The actions of a loaded registry are the discovered ones, one for one, each
/// under the ID that it was asked for by; where one fails, the first failure is
/// the result.
pub proof fn registries_load_what_was_discovered(
    discovered: Seq<(String, Result<DiscoveredAction, OpenConnectorError>)>,
)
    ensures
        match action_registry::loaded(discovered) {
            Ok(actions) => actions.len() == discovered.len() && forall|i: int|
                0 <= i < discovered.len() ==> ((#[trigger] discovered[i]).1 matches Ok(said)
                    && action_registry::admitted(discovered[i].0@, said) == Ok::<_, ErrorView>(
                    actions[i],
                )),
            Err(e) => exists|i: int|
                0 <= i < discovered.len() && (match (#[trigger] discovered[i]).1 {
                    Ok(said) => action_registry::admitted(discovered[i].0@, said) == Err::<
                        ActionView,
                        _,
                    >(e),
                    Err(failure) => failure@ == e,
                }) && forall|j: int|
                    0 <= j < i ==> ((#[trigger] discovered[j]).1 matches Ok(said)
                        && action_registry::admitted(discovered[j].0@, said) is Ok),
        },
    decreases discovered.len(),
{
    if discovered.len() > 0 {
        let shorter = discovered.drop_last();
        let last = discovered.len() - 1;
        registries_load_what_was_discovered(shorter);
        assert(discovered[last] == discovered.last());
        assert forall|i: int| 0 <= i < shorter.len() implies shorter[i] == #[trigger] discovered[i] by {}
        match action_registry::loaded(shorter) {
            Ok(before) => {
                assert forall|i: int| 0 <= i < shorter.len() implies (
                (#[trigger] discovered[i]).1 matches Ok(said) && action_registry::admitted(
                    discovered[i].0@,
                    said,
                ) == Ok::<_, ErrorView>(before[i])) by {
                    assert(shorter[i] == discovered[i]);
                }
                if let Ok(actions) = action_registry::loaded(discovered) {
                    assert forall|i: int| 0 <= i < discovered.len() implies (
                    (#[trigger] discovered[i]).1 matches Ok(said) && action_registry::admitted(
                        discovered[i].0@,
                        said,
                    ) == Ok::<_, ErrorView>(actions[i])) by {
                        if i < last {
                            assert(actions[i] == before[i]);
                        }
                    }
                }
            },
            Err(e) => {
                let i = choose|i: int|
                    0 <= i < shorter.len() && (match (#[trigger] shorter[i]).1 {
                        Ok(said) => action_registry::admitted(shorter[i].0@, said) == Err::<
                            ActionView,
                            _,
                        >(e),
                        Err(failure) => failure@ == e,
                    }) && forall|j: int|
                        0 <= j < i ==> ((#[trigger] shorter[j]).1 matches Ok(said)
                            && action_registry::admitted(shorter[j].0@, said) is Ok);
                assert(discovered[i] == shorter[i]);
                assert forall|j: int| 0 <= j < i implies ((#[trigger] discovered[j]).1 matches Ok(
                    said,
                ) && action_registry::admitted(discovered[j].0@, said) is Ok) by {
                    assert(shorter[j] == discovered[j]);
                }
            },
        }
    }
}

/// The resource inputs of a bound table are sent as the binding gives them, and a
/// binding that gives no object is kept as it is.
pub proof fn declared_inputs_are_sent_as_given(
    spec: TableView,
    resource: JsonView,
    key: Seq<char>,
)
    ensures
        match resource {
            JsonView::Object(members) => table::declared_only(
                spec,
                resource,
            ) matches JsonView::Object(sent) && (sent.contains_key(key) <==> members.contains_key(
                key,
            ) && (spec.required_resources.contains(key) || spec.optional_resources.contains(key)))
                && (sent.contains_key(key) ==> sent[key] == members[key]),
            _ => table::declared_only(spec, resource) == resource,
        },
{
}

/// A table can be bound exactly where its columns compile, its paths are accepted
/// and its pagination is valid; the error is that of the part that is not.
pub proof fn tables_bind_where_their_parts_are_sound(spec: TableView)
    ensures
        table::binding_problem(spec) is None <==> {
            &&& forall|i: int|
                0 <= i < spec.fields.len() ==> json_to_arrow::column_problem(
                    #[trigger] spec.fields[i],
                ) is None
            &&& row_path::parsed_path(spec.row_path) is Ok
            &&& pagination::validated(spec.pagination) is Ok
            &&& spec.error_path matches Some(path) ==> row_path::parsed_path(path) is Ok
        },
        table::binding_problem(spec) matches Some(e) ==> e is InvalidRowPath,
{
    conversion::the_first_bad_column_is_reported(spec.fields);
}

} // verus!
