//! The actions of a gateway that a configuration refers to.
//!
//! Their metadata is discovered when the gateway is registered and kept in
//! memory, so that planning a query contacts nobody. Each entry carries a
//! fingerprint of the action's output schema, by which an incompatible change
//! upstream is noticed.
use vstd::hash_map::StringHashMap;
use vstd::prelude::*;

use crate::json;
use crate::json::{Json, JsonView};
use crate::json_text;
use crate::open_connector::error::{ErrorView, OpenConnectorError};
use crate::open_connector::row_path;
use crate::order;
use crate::order::sorted_once;
use crate::text;

verus! {

/// The lowercase hexadecimal of a BLAKE3 hash.
pub uninterp spec fn blake3_hex(bytes: Seq<u8>) -> Seq<char>;

/// Calls `blake3::hash` and, on the hash, `to_hex`, which gives two digits for
/// each of its 32 bytes.
#[verifier::external_body]
fn hash_hex(bytes: &[u8]) -> (hex: String)
    ensures
        hex@ == blake3_hex(bytes@),
        hex@.len() == 64,
{
    blake3::hash(bytes).to_hex().to_string()
}

/// The text of a schema with the keys of each object in order, `null` where
/// there is no schema.
pub open spec fn canonical_schema(schema: Option<JsonView>) -> Seq<char> {
    match schema {
        Some(schema) => json_text::json_text(schema),
        None => "null"@,
    }
}

/// The fingerprint of an output schema.
pub open spec fn fingerprint_of(schema: Option<JsonView>) -> Seq<char> {
    blake3_hex(vstd::utf8::encode_utf8(canonical_schema(schema)))
}

/// The model of an optional document.
pub open spec fn optional_json(json: Option<&Json>) -> Option<JsonView> {
    match json {
        Some(json) => Some(json@),
        None => None,
    }
}

/// The fingerprint of a schema's text.
pub fn fingerprint_text(canonical: &str) -> (hex: String)
    ensures
        hex@ == blake3_hex(vstd::utf8::encode_utf8(canonical@)),
        hex@.len() == 64,
{
    hash_hex(canonical.as_bytes())
}

/// The fingerprint of an output schema: two schemas that differ only in the
/// order of keys have the same.
pub fn fingerprint_schema(output_schema: Option<&Json>) -> (hex: String)
    ensures
        hex@ == fingerprint_of(optional_json(output_schema)),
        hex@.len() == 64,
{
    let canonical = match output_schema {
        Some(schema) => json_text::to_text(schema),
        None => "null".to_owned(),
    };
    fingerprint_text(canonical.as_str())
}

/// What a gateway says of one action.
#[derive(Debug)]
pub struct DiscoveredAction {
    /// Declared input schema, if there is one.
    pub input_schema: Option<Json>,
    /// Declared output schema, if there is one.
    pub output_schema: Option<Json>,
    /// Whether the action only reads, if the gateway says.
    pub read_only: Option<bool>,
    /// Whether the gateway can execute the action itself, if it says.
    pub locally_executable: Option<bool>,
}

/// Metadata of one admitted action.
#[derive(Debug)]
pub struct ActionMetadata {
    action_id: String,
    input_schema: Option<Json>,
    output_schema: Option<Json>,
    read_only: Option<bool>,
    fingerprint: String,
}

/// The model of an [`ActionMetadata`].
pub struct ActionView {
    pub action_id: Seq<char>,
    pub input_schema: Option<JsonView>,
    pub output_schema: Option<JsonView>,
    pub read_only: Option<bool>,
    pub fingerprint: Seq<char>,
}

/// The model of an optional owned document.
pub open spec fn owned_json(json: Option<Json>) -> Option<JsonView> {
    match json {
        Some(json) => Some(json@),
        None => None,
    }
}

impl View for ActionMetadata {
    type V = ActionView;

    closed spec fn view(&self) -> ActionView {
        ActionView {
            action_id: self.action_id@,
            input_schema: owned_json(self.input_schema),
            output_schema: owned_json(self.output_schema),
            read_only: self.read_only,
            fingerprint: self.fingerprint@,
        }
    }
}

/// The entry of a discovered action.
pub open spec fn metadata_of(action_id: Seq<char>, discovered: DiscoveredAction) -> ActionView {
    ActionView {
        action_id,
        input_schema: owned_json(discovered.input_schema),
        output_schema: owned_json(discovered.output_schema),
        read_only: discovered.read_only,
        fingerprint: fingerprint_of(owned_json(discovered.output_schema)),
    }
}

/// Whether a discovered action is admitted: only where the gateway says that
/// it can execute it.
pub open spec fn admitted(action_id: Seq<char>, discovered: DiscoveredAction) -> Result<
    ActionView,
    ErrorView,
> {
    match discovered.locally_executable {
        Some(true) => Ok(metadata_of(action_id, discovered)),
        Some(false) => Err(ErrorView::ActionNotLocallyExecutable { action_id }),
        None => Err(ErrorView::ActionExecutabilityUnknown { action_id }),
    }
}

impl ActionMetadata {
    /// The entry of a discovered action, with its fingerprint.
    pub fn from_discovered(action_id: &str, discovered: DiscoveredAction) -> (r: ActionMetadata)
        ensures
            r@ == metadata_of(action_id@, discovered),
    {
        let fingerprint = match &discovered.output_schema {
            Some(schema) => fingerprint_schema(Some(schema)),
            None => fingerprint_schema(None),
        };
        ActionMetadata {
            action_id: action_id.to_owned(),
            input_schema: discovered.input_schema,
            output_schema: discovered.output_schema,
            read_only: discovered.read_only,
            fingerprint,
        }
    }

    /// The action's ID.
    pub fn action_id(&self) -> (r: &str)
        ensures
            r@ == self@.action_id,
    {
        self.action_id.as_str()
    }

    /// The declared input schema, if there is one.
    pub fn input_schema(&self) -> (r: Option<&Json>)
        ensures
            optional_json(r) == self@.input_schema,
    {
        self.input_schema.as_ref()
    }

    /// The declared output schema, if there is one.
    pub fn output_schema(&self) -> (r: Option<&Json>)
        ensures
            optional_json(r) == self@.output_schema,
    {
        self.output_schema.as_ref()
    }

    /// Whether the action only reads. Where the gateway does not say, callers
    /// must refuse to execute it.
    pub fn read_only(&self) -> (r: Option<bool>)
        ensures
            r == self@.read_only,
    {
        self.read_only
    }

    /// The fingerprint of the output schema.
    pub fn fingerprint(&self) -> (r: &str)
        ensures
            r@ == self@.fingerprint,
    {
        self.fingerprint.as_str()
    }
}

/// Admits a discovered action, or says why not. A refusal and a missing
/// classification are told apart.
pub fn check_discovered(action_id: &str, discovered: DiscoveredAction) -> (r: Result<
    ActionMetadata,
    OpenConnectorError,
>)
    ensures
        row_path::result_view(r) == admitted(action_id@, discovered),
{
    match discovered.locally_executable {
        Some(true) => Ok(ActionMetadata::from_discovered(action_id, discovered)),
        Some(false) => Err(
            OpenConnectorError::ActionNotLocallyExecutable { action_id: action_id.to_owned() },
        ),
        None => Err(
            OpenConnectorError::ActionExecutabilityUnknown { action_id: action_id.to_owned() },
        ),
    }
}

/// The action IDs to discover: each once, in order.
pub fn ids_to_discover(action_ids: &Vec<String>) -> (ids: Vec<String>)
    ensures
        order::sorts(text::texts(action_ids@), text::texts(ids@)),
{
    sorted_once(action_ids)
}

/// The admitted actions of one gateway.
pub struct ActionRegistry {
    actions: StringHashMap<ActionMetadata>,
}

impl View for ActionRegistry {
    type V = Map<Seq<char>, ActionMetadata>;

    closed spec fn view(&self) -> Map<Seq<char>, ActionMetadata> {
        self.actions@
    }
}

/// Actions by their IDs; of two with one ID the later one counts.
pub open spec fn by_id(actions: Seq<ActionMetadata>) -> Map<Seq<char>, ActionMetadata>
    decreases actions.len(),
{
    if actions.len() == 0 {
        Map::empty()
    } else {
        by_id(actions.drop_last()).insert(actions.last()@.action_id, actions.last())
    }
}

/// The model of what discovering an action gave.
pub open spec fn discovery_result(
    action_id: Seq<char>,
    discovered: Result<DiscoveredAction, OpenConnectorError>,
) -> Result<ActionView, ErrorView> {
    match discovered {
        Ok(action) => admitted(action_id, action),
        Err(e) => Err(e@),
    }
}

/// The entries of discovered actions, or the first failure among them.
pub open spec fn loaded(
    discovered: Seq<(String, Result<DiscoveredAction, OpenConnectorError>)>,
) -> Result<Seq<ActionView>, ErrorView>
    decreases discovered.len(),
{
    if discovered.len() == 0 {
        Ok(Seq::empty())
    } else {
        match loaded(discovered.drop_last()) {
            Err(e) => Err(e),
            Ok(before) => match discovery_result(discovered.last().0@, discovered.last().1) {
                Ok(action) => Ok(before.push(action)),
                Err(e) => Err(e),
            },
        }
    }
}

/// The models of entries in a row.
pub open spec fn action_views(actions: Seq<ActionMetadata>) -> Seq<ActionView> {
    Seq::new(actions.len(), |i: int| actions[i]@)
}

proof fn load_failure_stands(
    discovered: Seq<(String, Result<DiscoveredAction, OpenConnectorError>)>,
    i: int,
)
    requires
        0 <= i <= discovered.len(),
        loaded(discovered.take(i)) is Err,
    ensures
        loaded(discovered) == loaded(discovered.take(i)),
    decreases discovered.len(),
{
    if i == discovered.len() {
        assert(discovered.take(i) =~= discovered);
    } else {
        assert(discovered.drop_last().take(i) =~= discovered.take(i));
        load_failure_stands(discovered.drop_last(), i);
    }
}

impl Default for ActionRegistry {
    /// A registry without actions.
    fn default() -> (r: Self)
        ensures
            r@ == Map::<Seq<char>, ActionMetadata>::empty(),
    {
        ActionRegistry { actions: StringHashMap::new() }
    }
}

impl ActionRegistry {
    /// The registry of actions that were admitted.
    pub fn from_actions(admitted: Vec<ActionMetadata>) -> (r: ActionRegistry)
        ensures
            r@ == by_id(admitted@),
    {
        let ghost all = admitted@;
        let mut actions: StringHashMap<ActionMetadata> = StringHashMap::new();
        let mut left = admitted;
        let ghost mut done: int = 0;
        assert(all.take(0) =~= Seq::empty());
        while left.len() > 0
            invariant
                0 <= done <= all.len(),
                left@ == all.skip(done),
                actions@ == by_id(all.take(done)),
            decreases left@.len(),
        {
            let action = left.remove(0);
            proof {
                assert(action == all[done]);
                assert(all.take(done + 1).drop_last() =~= all.take(done));
                assert(left@ =~= all.skip(done + 1));
                done = done + 1;
            }
            actions.insert(action.action_id.clone(), action);
        }
        assert(all.take(done) =~= all);
        ActionRegistry { actions }
    }

    /// The registry of discovered actions, given in the order in which the
    /// gateway answered. The first that failed or is not admitted fails the
    /// whole: a registry is never loaded in part.
    pub fn load(discovered: Vec<(String, Result<DiscoveredAction, OpenConnectorError>)>) -> (r:
        Result<ActionRegistry, OpenConnectorError>)
        ensures
            match r {
                Ok(registry) => exists|actions: Seq<ActionMetadata>|
                    loaded(discovered@) == Ok::<_, ErrorView>(#[trigger] action_views(actions))
                        && registry@ == by_id(actions),
                Err(e) => loaded(discovered@) == Err::<Seq<ActionView>, _>(e@),
            },
    {
        let ghost all = discovered@;
        let ghost mut done: int = 0;
        let mut left = discovered;
        let mut actions: Vec<ActionMetadata> = Vec::new();
        assert(all.take(0) =~= Seq::empty());
        assert(action_views(actions@) =~= Seq::empty());
        while left.len() > 0
            invariant
                all == discovered@,
                0 <= done <= all.len(),
                left@ == all.skip(done),
                loaded(all.take(done)) == Ok::<_, ErrorView>(action_views(actions@)),
            decreases left@.len(),
        {
            let ghost before = action_views(actions@);
            let (action_id, result) = left.remove(0);
            proof {
                assert((action_id, result) == all[done]);
                assert(all.take(done + 1).drop_last() =~= all.take(done));
                assert(all.take(done + 1).last() == all[done]);
                assert(left@ =~= all.skip(done + 1));
            }
            let action = match result {
                Ok(action) => action,
                Err(e) => {
                    proof {
                        load_failure_stands(all, done + 1);
                    }
                    return Err(e);
                },
            };
            match check_discovered(action_id.as_str(), action) {
                Ok(action) => {
                    let ghost entry = action@;
                    actions.push(action);
                    assert(action_views(actions@) =~= before.push(entry));
                },
                Err(e) => {
                    proof {
                        load_failure_stands(all, done + 1);
                    }
                    return Err(e);
                },
            }
            proof {
                done = done + 1;
            }
        }
        assert(all.take(done) =~= all);
        Ok(ActionRegistry::from_actions(actions))
    }

    /// One action's metadata.
    pub fn get(&self, action_id: &str) -> (r: Option<&ActionMetadata>)
        ensures
            match r {
                Some(action) => self@.contains_key(action_id@) && *action == self@[action_id@],
                None => !self@.contains_key(action_id@),
            },
    {
        self.actions.get(action_id)
    }

    /// The number of actions.
    pub fn len(&self) -> (n: usize)
        ensures
            n == self@.len(),
    {
        self.actions.len()
    }

    /// Whether there are no actions.
    pub fn is_empty(&self) -> (r: bool)
        ensures
            r == self@.is_empty(),
    {
        self.actions.is_empty()
    }
}

/// An action is admitted exactly where the gateway says that it can execute
/// it: silence is a refusal, told apart from a plain one.
pub proof fn admission_is_denied_by_default(action_id: Seq<char>, discovered: DiscoveredAction)
    ensures
        admitted(action_id, discovered) is Ok <==> discovered.locally_executable == Some(true),
        discovered.locally_executable is None ==> admitted(action_id, discovered) == Err::<
            ActionView,
            _,
        >(ErrorView::ActionExecutabilityUnknown { action_id }),
{
}

/// Two output schemas whose members differ only in their order have the same
/// fingerprint.
pub proof fn fingerprints_ignore_member_order(a: Seq<(String, Json)>, b: Seq<(String, Json)>)
    requires
        json::keys_differ(a),
        json::keys_differ(b),
        forall|key: Seq<char>, value: JsonView|
            json::holds_member(a, key, value) == json::holds_member(b, key, value),
    ensures
        fingerprint_of(Some(JsonView::Object(json::members_view(a)))) == fingerprint_of(
            Some(JsonView::Object(json::members_view(b))),
        ),
{
    json::member_order_does_not_matter(a, b);
}

/// A registry is loaded exactly where every action was discovered and
/// admitted.
pub proof fn registries_are_loaded_whole(
    discovered: Seq<(String, Result<DiscoveredAction, OpenConnectorError>)>,
)
    ensures
        loaded(discovered) is Ok <==> forall|i: int|
            0 <= i < discovered.len() ==> discovery_result(
                (#[trigger] discovered[i]).0@,
                discovered[i].1,
            ) is Ok,
    decreases discovered.len(),
{
    if discovered.len() > 0 {
        let shorter = discovered.drop_last();
        registries_are_loaded_whole(shorter);
        assert(discovered[discovered.len() - 1] == discovered.last());
        if loaded(discovered) is Ok {
            assert forall|i: int| 0 <= i < discovered.len() implies discovery_result(
                (#[trigger] discovered[i]).0@,
                discovered[i].1,
            ) is Ok by {
                if i < shorter.len() {
                    assert(shorter[i] == discovered[i]);
                }
            }
        }
        if forall|i: int|
            0 <= i < discovered.len() ==> discovery_result(
                (#[trigger] discovered[i]).0@,
                discovered[i].1,
            ) is Ok {
            assert forall|i: int| 0 <= i < shorter.len() implies discovery_result(
                (#[trigger] shorter[i]).0@,
                shorter[i].1,
            ) is Ok by {
                assert(shorter[i] == discovered[i]);
            }
        }
    }
}

/// Every action of a registry lies under its own ID.
pub proof fn actions_lie_under_their_ids(actions: Seq<ActionMetadata>, id: Seq<char>)
    requires
        by_id(actions).contains_key(id),
    ensures
        by_id(actions)[id]@.action_id == id,
        actions.contains(by_id(actions)[id]),
    decreases actions.len(),
{
    if actions.len() > 0 {
        let last = actions.len() - 1;
        if actions.last()@.action_id != id {
            let shorter = actions.drop_last();
            actions_lie_under_their_ids(shorter, id);
            let k = choose|k: int| 0 <= k < shorter.len() && shorter[k] == by_id(shorter)[id];
            assert(actions[k] == by_id(actions)[id]);
        } else {
            assert(actions[last] == by_id(actions)[id]);
        }
    }
}

} // verus!
