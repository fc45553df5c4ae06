//! The gateway block of a data source: the token, the bindings and the bounds
//! of scans.
use vstd::prelude::*;

use crate::json;
use crate::json::{Json, JsonView};
use crate::open_connector::error::{ErrorView, OpenConnectorError};
use crate::text;
use crate::text::{same_text, trimmed};

verus! {

/// Tables of one source pack, bound to a resource.
#[derive(Debug)]
pub struct BindingConfig {
    /// Name of the binding, which is that of its schema in the catalog.
    pub name: String,
    /// Name of the source pack.
    pub source_pack: String,
    /// Inputs of the pack's actions that name the resource.
    pub resource: Vec<(String, Json)>,
    /// Short names of the tables that are exposed.
    pub tables: Vec<String>,
}

/// A gateway block.
#[derive(Debug)]
pub struct OpenConnectorConfig {
    /// Environment variable that holds the gateway's token.
    pub runtime_token_env: String,
    pub bindings: Vec<BindingConfig>,
    /// Actions that may be scanned without a source pack.
    pub raw_action_allowlist: Vec<String>,
    /// Most pages of a scan, where it is limited.
    pub max_pages: Option<u32>,
    /// Most rows of a scan, where it is limited.
    pub max_rows: Option<u64>,
}

/// The model of a [`BindingConfig`].
pub struct BindingView {
    pub name: Seq<char>,
    pub source_pack: Seq<char>,
    pub resource: Map<Seq<char>, JsonView>,
    pub tables: Seq<Seq<char>>,
}

/// The model of an [`OpenConnectorConfig`].
pub struct ConfigView {
    pub runtime_token_env: Seq<char>,
    pub bindings: Seq<BindingView>,
    pub raw_action_allowlist: Seq<Seq<char>>,
    pub max_pages: Option<u32>,
    pub max_rows: Option<u64>,
}

impl View for BindingConfig {
    type V = BindingView;

    open spec fn view(&self) -> BindingView {
        BindingView {
            name: self.name@,
            source_pack: self.source_pack@,
            resource: json::members_view(self.resource@),
            tables: text::texts(self.tables@),
        }
    }
}

/// The models of bindings in a row.
pub open spec fn binding_views(bindings: Seq<BindingConfig>) -> Seq<BindingView> {
    Seq::new(bindings.len(), |i: int| bindings[i]@)
}

impl View for OpenConnectorConfig {
    type V = ConfigView;

    open spec fn view(&self) -> ConfigView {
        ConfigView {
            runtime_token_env: self.runtime_token_env@,
            bindings: binding_views(self.bindings@),
            raw_action_allowlist: text::texts(self.raw_action_allowlist@),
            max_pages: self.max_pages,
            max_rows: self.max_rows,
        }
    }
}

/// Whether a text is empty or made of white space.
pub open spec fn blank(s: Seq<char>) -> bool {
    text::trim(s).len() == 0
}

/// What is wrong with the tables of a binding: none is blank, and none is
/// listed twice.
pub open spec fn tables_problem(binding: Seq<char>, tables: Seq<Seq<char>>) -> Option<ErrorView>
    decreases tables.len(),
{
    if tables.len() == 0 {
        None
    } else {
        match tables_problem(binding, tables.drop_last()) {
            Some(e) => Some(e),
            None => if blank(tables.last()) {
                Some(ErrorView::EmptyTableName { binding })
            } else if tables.drop_last().contains(tables.last()) {
                Some(ErrorView::DuplicateTableName { binding, table: tables.last() })
            } else {
                None
            },
        }
    }
}

/// The names of bindings in a row.
pub open spec fn binding_names(bindings: Seq<BindingView>) -> Seq<Seq<char>> {
    Seq::new(bindings.len(), |i: int| bindings[i].name)
}

/// What is wrong with a binding, given the names of those before it.
pub open spec fn binding_problem(earlier: Seq<Seq<char>>, binding: BindingView) -> Option<
    ErrorView,
> {
    let name = binding.name;
    if blank(name) {
        Some(ErrorView::EmptyBindingName)
    } else if earlier.contains(name) {
        Some(ErrorView::DuplicateBindingName { name })
    } else if blank(binding.source_pack) {
        Some(ErrorView::EmptySourcePack { binding: name })
    } else if binding.tables.len() == 0 {
        Some(ErrorView::EmptyTableList { binding: name })
    } else {
        tables_problem(name, binding.tables)
    }
}

/// What is wrong with the first binding that something is wrong with.
pub open spec fn bindings_problem(bindings: Seq<BindingView>) -> Option<ErrorView>
    decreases bindings.len(),
{
    if bindings.len() == 0 {
        None
    } else {
        match bindings_problem(bindings.drop_last()) {
            Some(e) => Some(e),
            None => binding_problem(binding_names(bindings.drop_last()), bindings.last()),
        }
    }
}

/// What is wrong with a gateway block, if anything is.
pub open spec fn config_problem(config: ConfigView) -> Option<ErrorView> {
    if blank(config.runtime_token_env) {
        Some(ErrorView::EmptyRuntimeTokenEnv)
    } else {
        match bindings_problem(config.bindings) {
            Some(e) => Some(e),
            None => if exists|i: int|
                0 <= i < config.raw_action_allowlist.len() && blank(
                    #[trigger] config.raw_action_allowlist[i],
                ) {
                Some(ErrorView::EmptyAllowlistEntry)
            } else if config.max_pages == Some(0u32) {
                Some(ErrorView::ZeroSafetyBound { field: "max_pages"@ })
            } else if config.max_rows == Some(0u64) {
                Some(ErrorView::ZeroSafetyBound { field: "max_rows"@ })
            } else {
                None
            },
        }
    }
}

/// The model of an optional error.
pub open spec fn error_view(e: Option<OpenConnectorError>) -> Option<ErrorView> {
    match e {
        Some(e) => Some(e@),
        None => None,
    }
}

fn is_blank(s: &str) -> (r: bool)
    ensures
        r == blank(s@),
{
    trimmed(s).as_str().unicode_len() == 0
}

proof fn tables_problem_stands(binding: Seq<char>, tables: Seq<Seq<char>>, i: int)
    requires
        0 <= i <= tables.len(),
        tables_problem(binding, tables.take(i)) is Some,
    ensures
        tables_problem(binding, tables) == tables_problem(binding, tables.take(i)),
    decreases tables.len(),
{
    if i == tables.len() {
        assert(tables.take(i) =~= tables);
    } else {
        assert(tables.drop_last().take(i) =~= tables.take(i));
        tables_problem_stands(binding, tables.drop_last(), i);
    }
}

proof fn bindings_problem_stands(bindings: Seq<BindingView>, i: int)
    requires
        0 <= i <= bindings.len(),
        bindings_problem(bindings.take(i)) is Some,
    ensures
        bindings_problem(bindings) == bindings_problem(bindings.take(i)),
    decreases bindings.len(),
{
    if i == bindings.len() {
        assert(bindings.take(i) =~= bindings);
    } else {
        assert(bindings.drop_last().take(i) =~= bindings.take(i));
        bindings_problem_stands(bindings.drop_last(), i);
    }
}

fn listed_before(tables: &Vec<String>, i: usize) -> (r: bool)
    requires
        i < tables@.len(),
    ensures
        r == text::texts(tables@).take(i as int).contains(tables@[i as int]@),
{
    let ghost earlier = text::texts(tables@).take(i as int);
    let mut j: usize = 0;
    while j < i
        invariant
            i < tables@.len(),
            earlier == text::texts(tables@).take(i as int),
            j <= i,
            forall|k: int| 0 <= k < j ==> #[trigger] earlier[k] != tables@[i as int]@,
        decreases i - j,
    {
        if same_text(tables[j].as_str(), tables[i].as_str()) {
            assert(earlier[j as int] == tables@[i as int]@);
            return true;
        }
        j += 1;
    }
    false
}

fn check_tables(binding: &str, tables: &Vec<String>) -> (r: Option<OpenConnectorError>)
    ensures
        error_view(r) == tables_problem(binding@, text::texts(tables@)),
{
    let ghost all = text::texts(tables@);
    let mut i: usize = 0;
    assert(all.take(0) =~= Seq::empty());
    while i < tables.len()
        invariant
            all == text::texts(tables@),
            i <= tables@.len(),
            tables_problem(binding@, all.take(i as int)) is None,
        decreases tables@.len() - i,
    {
        proof {
            assert(all.take(i + 1).drop_last() =~= all.take(i as int));
            assert(all.take(i + 1).last() == tables@[i as int]@);
        }
        if is_blank(tables[i].as_str()) {
            proof {
                tables_problem_stands(binding@, all, i + 1);
            }
            return Some(OpenConnectorError::EmptyTableName { binding: binding.to_owned() });
        }
        if listed_before(tables, i) {
            proof {
                tables_problem_stands(binding@, all, i + 1);
            }
            return Some(
                OpenConnectorError::DuplicateTableName {
                    binding: binding.to_owned(),
                    table: tables[i].clone(),
                },
            );
        }
        i += 1;
    }
    assert(all.take(i as int) =~= all);
    None
}

fn named_before(bindings: &Vec<BindingConfig>, i: usize) -> (r: bool)
    requires
        i < bindings@.len(),
    ensures
        r == binding_names(binding_views(bindings@).take(i as int)).contains(
            bindings@[i as int].name@,
        ),
{
    let ghost earlier = binding_names(binding_views(bindings@).take(i as int));
    let mut j: usize = 0;
    while j < i
        invariant
            i < bindings@.len(),
            earlier == binding_names(binding_views(bindings@).take(i as int)),
            j <= i,
            forall|k: int| 0 <= k < j ==> #[trigger] earlier[k] != bindings@[i as int].name@,
        decreases i - j,
    {
        if same_text(bindings[j].name.as_str(), bindings[i].name.as_str()) {
            assert(earlier[j as int] == bindings@[i as int].name@);
            return true;
        }
        j += 1;
    }
    false
}

fn check_binding(bindings: &Vec<BindingConfig>, i: usize) -> (r: Option<OpenConnectorError>)
    requires
        i < bindings@.len(),
    ensures
        error_view(r) == binding_problem(
            binding_names(binding_views(bindings@).take(i as int)),
            bindings@[i as int]@,
        ),
{
    let binding = &bindings[i];
    assert(binding@.tables.len() == binding.tables@.len());
    if is_blank(binding.name.as_str()) {
        Some(OpenConnectorError::EmptyBindingName)
    } else if named_before(bindings, i) {
        Some(OpenConnectorError::DuplicateBindingName { name: binding.name.clone() })
    } else if is_blank(binding.source_pack.as_str()) {
        Some(OpenConnectorError::EmptySourcePack { binding: binding.name.clone() })
    } else if binding.tables.len() == 0 {
        Some(OpenConnectorError::EmptyTableList { binding: binding.name.clone() })
    } else {
        check_tables(binding.name.as_str(), &binding.tables)
    }
}

fn check_bindings(bindings: &Vec<BindingConfig>) -> (r: Option<OpenConnectorError>)
    ensures
        error_view(r) == bindings_problem(binding_views(bindings@)),
{
    let ghost all = binding_views(bindings@);
    let mut i: usize = 0;
    assert(all.take(0) =~= Seq::empty());
    while i < bindings.len()
        invariant
            all == binding_views(bindings@),
            i <= bindings@.len(),
            bindings_problem(all.take(i as int)) is None,
        decreases bindings@.len() - i,
    {
        proof {
            assert(all.take(i + 1).drop_last() =~= all.take(i as int));
            assert(all.take(i + 1).last() == bindings@[i as int]@);
        }
        match check_binding(bindings, i) {
            Some(e) => {
                proof {
                    bindings_problem_stands(all, i + 1);
                }
                return Some(e);
            },
            None => {},
        }
        i += 1;
    }
    assert(all.take(i as int) =~= all);
    None
}

fn holds_blank(entries: &Vec<String>) -> (r: bool)
    ensures
        r == exists|i: int|
            0 <= i < text::texts(entries@).len() && blank(#[trigger] text::texts(entries@)[i]),
{
    let ghost all = text::texts(entries@);
    let mut i: usize = 0;
    while i < entries.len()
        invariant
            all == text::texts(entries@),
            i <= entries@.len(),
            forall|k: int| 0 <= k < i ==> !blank(#[trigger] all[k]),
        decreases entries@.len() - i,
    {
        if is_blank(entries[i].as_str()) {
            assert(blank(all[i as int]));
            return true;
        }
        i += 1;
    }
    false
}

impl OpenConnectorConfig {
    /// Checks the block without contacting anybody.
    pub fn validate(&self) -> (r: Result<(), OpenConnectorError>)
        ensures
            match r {
                Ok(_) => config_problem(self@) is None,
                Err(e) => config_problem(self@) == Some(e@),
            },
    {
        if is_blank(self.runtime_token_env.as_str()) {
            return Err(OpenConnectorError::EmptyRuntimeTokenEnv);
        }
        match check_bindings(&self.bindings) {
            Some(e) => return Err(e),
            None => {},
        }
        if holds_blank(&self.raw_action_allowlist) {
            proof {
                let entries = self@.raw_action_allowlist;
                let i = choose|i: int| 0 <= i < entries.len() && blank(#[trigger] entries[i]);
                assert(blank(entries[i]));
            }
            return Err(OpenConnectorError::EmptyAllowlistEntry);
        }
        match self.max_pages {
            Some(0) => return Err(OpenConnectorError::ZeroSafetyBound { field: "max_pages" }),
            _ => {},
        }
        match self.max_rows {
            Some(0) => Err(OpenConnectorError::ZeroSafetyBound { field: "max_rows" }),
            _ => Ok(()),
        }
    }
}

proof fn sound_bindings(bindings: Seq<BindingView>, i: int, j: int)
    requires
        bindings_problem(bindings) is None,
        0 <= i < j < bindings.len(),
    ensures
        bindings[i].name != bindings[j].name,
    decreases bindings.len(),
{
    let shorter = bindings.drop_last();
    if j < shorter.len() {
        sound_bindings(shorter, i, j);
    } else {
        assert(binding_names(shorter)[i] == bindings[i].name);
        assert(bindings.last() == bindings[j]);
    }
}

/// No two bindings of a valid block share a name, so that each has its own
/// schema in the catalog.
pub proof fn bindings_have_their_own_schemas(config: ConfigView)
    requires
        config_problem(config) is None,
    ensures
        binding_names(config.bindings).no_duplicates(),
{
    let names = binding_names(config.bindings);
    assert forall|i: int, j: int|
        0 <= i < names.len() && 0 <= j < names.len() && i != j implies names[i] != names[j] by {
        if i < j {
            sound_bindings(config.bindings, i, j);
        } else {
            sound_bindings(config.bindings, j, i);
        }
    }
}

} // verus!
