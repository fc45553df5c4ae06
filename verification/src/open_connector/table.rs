//! A source-pack table bound to the resource of one binding.
use vstd::prelude::*;

use crate::json;
use crate::json::{Json, JsonView};
use crate::open_connector::error::{ErrorView, OpenConnectorError};
use crate::open_connector::json_to_arrow;
use crate::open_connector::json_to_arrow::RowConverter;
use crate::open_connector::packs::validate;
use crate::open_connector::pagination;
use crate::open_connector::row_path::RowPath;
use crate::open_connector::source_pack::{SourcePackTable, TableView};

verus! {

/// A table that is ready to be scanned. It only reads.
pub struct OpenConnectorTableProvider {
    gateway: String,
    binding: Option<String>,
    connection_alias: Option<String>,
    table: &'static SourcePackTable,
    source_pack_version: u32,
    converter: RowConverter,
    row_path: RowPath,
    resource: Json,
    max_pages: u32,
    max_rows: u64,
    scan_timeout_seconds: u64,
}

/// Why a table cannot be bound, if it cannot: its columns, its row path, its
/// pagination and its error path are checked in this order.
pub open spec fn binding_problem(table: TableView) -> Option<ErrorView> {
    match json_to_arrow::first_problem(table.fields) {
        Some(e) => Some(e),
        None => match pagination::checked_path(Some(table.row_path)) {
            Err(e) => Some(e),
            Ok(_) => match pagination::validated(table.pagination) {
                Err(e) => Some(e),
                Ok(_) => match pagination::checked_path(table.error_path) {
                    Err(e) => Some(e),
                    Ok(_) => None,
                },
            },
        },
    }
}

/// The resource inputs that a table's action declares. Actions take no others,
/// and a binding's inputs are shared by its tables.
pub open spec fn declared_only(table: TableView, resource: JsonView) -> JsonView {
    match resource {
        JsonView::Object(members) => JsonView::Object(
            members.restrict(members.dom().filter(|key: Seq<char>| table.declares(key))),
        ),
        _ => resource,
    }
}

proof fn kept_members(
    table: TableView,
    members: Seq<(String, Json)>,
    kept: Seq<(String, Json)>,
    member: (String, Json),
)
    requires
        ({
            let map = json::members_view(members);
            json::members_view(kept) == map.restrict(
                map.dom().filter(|key: Seq<char>| table.declares(key)),
            )
        }),
    ensures
        ({
            let map = json::members_view(members.push(member));
            let wanted = map.restrict(map.dom().filter(|key: Seq<char>| table.declares(key)));
            if table.declares(member.0@) {
                json::members_view(kept.push(member)) == wanted
            } else {
                json::members_view(kept) == wanted
            }
        }),
{
    assert(members.push(member).drop_last() =~= members);
    assert(kept.push(member).drop_last() =~= kept);
    let map = json::members_view(members.push(member));
    let wanted = map.restrict(map.dom().filter(|key: Seq<char>| table.declares(key)));
    if table.declares(member.0@) {
        assert(json::members_view(kept.push(member)) =~= wanted);
    } else {
        assert(json::members_view(kept) =~= wanted);
    }
}

/// Keeps the resource inputs that the table declares.
pub fn keep_declared(table: &SourcePackTable, resource: &Json) -> (r: Json)
    ensures
        r@ == declared_only(table@, resource@),
{
    match resource {
        Json::Object(members) => {
            let mut kept: Vec<(String, Json)> = Vec::new();
            let mut i: usize = 0;
            proof {
                assert(members@.take(0) =~= Seq::empty());
                let map = json::members_view(members@.take(0));
                assert(json::members_view(kept@) =~= map.restrict(
                    map.dom().filter(|key: Seq<char>| table@.declares(key)),
                ));
            }
            while i < members.len()
                invariant
                    resource@ == JsonView::Object(json::members_view(members@)),
                    i <= members@.len(),
                    ({
                        let map = json::members_view(members@.take(i as int));
                        json::members_view(kept@) == map.restrict(
                            map.dom().filter(|key: Seq<char>| table@.declares(key)),
                        )
                    }),
                decreases members@.len() - i,
            {
                let key = &members[i].0;
                let ghost before = kept@;
                assert(members@.take(i + 1) =~= members@.take(i as int).push(members@[i as int]));
                if table.declares_resource(key.as_str()) {
                    let copy = (key.clone(), members[i].1.clone());
                    proof {
                        kept_members(table@, members@.take(i as int), before, members@[i as int]);
                        assert(before.push(members@[i as int]).drop_last() =~= before);
                        assert(before.push(copy).drop_last() =~= before);
                    }
                    kept.push(copy);
                } else {
                    proof {
                        kept_members(table@, members@.take(i as int), before, members@[i as int]);
                    }
                }
                i += 1;
            }
            assert(members@.take(i as int) =~= members@);
            Json::Object(kept)
        },
        other => other.clone(),
    }
}

impl OpenConnectorTableProvider {
    /// The table that is scanned.
    pub closed spec fn spec_table(self) -> TableView {
        self.table@
    }

    /// The resource inputs that every request carries.
    pub closed spec fn spec_resource(self) -> JsonView {
        self.resource@
    }

    /// Binds a source-pack table to its resource inputs.
    pub fn new(
        gateway: String,
        binding: Option<String>,
        connection_alias: Option<String>,
        table: &'static SourcePackTable,
        source_pack_version: u32,
        resource: &Json,
        max_pages: u32,
        max_rows: u64,
        scan_timeout_seconds: u64,
    ) -> (r: Result<OpenConnectorTableProvider, OpenConnectorError>)
        ensures
            match r {
                Ok(bound) => {
                    &&& binding_problem(table@) is None
                    &&& bound.spec_table() == table@
                    &&& bound.spec_resource() == declared_only(table@, resource@)
                    &&& bound.spec_columns() == table@.fields
                    &&& bound.spec_row_path() == table@.row_path
                    &&& bound.spec_labels() == (gateway, binding, connection_alias)
                    &&& bound.spec_limits() == (
                        source_pack_version,
                        max_pages,
                        max_rows,
                        scan_timeout_seconds,
                    )
                },
                Err(e) => binding_problem(table@) == Some(e@),
            },
    {
        let converter = match RowConverter::new(table.fields) {
            Ok(converter) => converter,
            Err(e) => {
                return Err(e);
            },
        };
        let row_path = match RowPath::parse(table.row_path) {
            Ok(row_path) => row_path,
            Err(e) => {
                return Err(e);
            },
        };
        match table.pagination.validate() {
            Ok(_) => {},
            Err(e) => {
                return Err(e);
            },
        }
        if let Some(error_path) = table.error_path {
            match RowPath::parse(error_path) {
                Ok(_) => {},
                Err(e) => {
                    return Err(e);
                },
            }
        }
        Ok(
            OpenConnectorTableProvider {
                gateway,
                binding,
                connection_alias,
                table,
                source_pack_version,
                converter,
                row_path,
                resource: keep_declared(table, resource),
                max_pages,
                max_rows,
                scan_timeout_seconds,
            },
        )
    }

    /// The columns that rows are converted to.
    pub closed spec fn spec_columns(self) -> Seq<json_to_arrow::SpecView> {
        self.converter@
    }

    /// Where the rows lie in a response.
    pub closed spec fn spec_row_path(self) -> Seq<char> {
        self.row_path@
    }

    /// The gateway, binding and connection that the table belongs to.
    pub closed spec fn spec_labels(self) -> (String, Option<String>, Option<String>) {
        (self.gateway, self.binding, self.connection_alias)
    }

    /// The pack version, and the limits of pages, rows and seconds.
    pub closed spec fn spec_limits(self) -> (u32, u32, u64, u64) {
        (self.source_pack_version, self.max_pages, self.max_rows, self.scan_timeout_seconds)
    }

    /// The table that is scanned.
    pub fn table(&self) -> (r: &'static SourcePackTable)
        ensures
            r@ == self.spec_table(),
    {
        self.table
    }

    /// Converts rows to the table's columns.
    pub fn converter(&self) -> (r: &RowConverter)
        ensures
            r@ == self.spec_columns(),
    {
        &self.converter
    }

    /// Where the rows lie in a response.
    pub fn row_path(&self) -> (r: &RowPath)
        ensures
            r@ == self.spec_row_path(),
    {
        &self.row_path
    }

    /// Most pages and most rows of a scan.
    pub fn limits(&self) -> (r: (u32, u64))
        ensures
            r == (self.spec_limits().1, self.spec_limits().2),
    {
        (self.max_pages, self.max_rows)
    }

    /// Most seconds that a scan may take.
    pub fn scan_timeout_seconds(&self) -> (r: u64)
        ensures
            r == self.spec_limits().3,
    {
        self.scan_timeout_seconds
    }

    /// The resource inputs that every request carries.
    pub fn resource(&self) -> (r: &Json)
        ensures
            r@ == self.spec_resource(),
    {
        &self.resource
    }
}

/// A table that is valid in its pack can be bound.
pub proof fn valid_tables_bind(table: TableView)
    requires
        validate::table_problem(table) is None,
    ensures
        binding_problem(table) is None,
{
}

/// Requests of a bound table carry no resource input that its action does not
/// declare, and every declared one that the binding supplies.
pub proof fn only_declared_inputs_are_sent(table: TableView, members: Map<Seq<char>, JsonView>)
    ensures
        declared_only(table, JsonView::Object(members)) matches JsonView::Object(sent) && forall|
            key: Seq<char>,
        | #[trigger]
            sent.contains_key(key) <==> members.contains_key(key) && table.declares(key),
{
}

} // verus!
