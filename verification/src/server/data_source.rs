//! Data sources: what a context file says of each.
use vstd::prelude::*;

use crate::open_connector::config::{ConfigView, OpenConnectorConfig};
use crate::text;
use crate::text::begins;
use crate::text_map::TextMap;

verus! {

/// What kind of system a source is.
#[derive(Debug, Clone, Copy, PartialEq, Eq, Structural)]
pub enum DataSourceType {
    Csv,
    Parquet,
    Postgres,
    Mysql,
    Sqlite,
    Iceberg,
    Mongo,
    Redis,
    Seekdb,
    Influxdb,
    Clickhouse,
    Dynamodb,
    Lance,
    OpenConnector,
    Documents,
}

/// How a type is written in a context file and in replies.
pub open spec fn type_text(source_type: DataSourceType) -> Seq<char> {
    match source_type {
        DataSourceType::Csv => "csv"@,
        DataSourceType::Parquet => "parquet"@,
        DataSourceType::Postgres => "postgres"@,
        DataSourceType::Mysql => "mysql"@,
        DataSourceType::Sqlite => "sqlite"@,
        DataSourceType::Iceberg => "iceberg"@,
        DataSourceType::Mongo => "mongo"@,
        DataSourceType::Redis => "redis"@,
        DataSourceType::Seekdb => "seekdb"@,
        DataSourceType::Influxdb => "influxdb"@,
        DataSourceType::Clickhouse => "clickhouse"@,
        DataSourceType::Dynamodb => "dynamodb"@,
        DataSourceType::Lance => "lance"@,
        DataSourceType::OpenConnector => "open_connector"@,
        DataSourceType::Documents => "documents"@,
    }
}

/// How a type is shown to developers.
pub open spec fn variant_name(source_type: DataSourceType) -> Seq<char> {
    match source_type {
        DataSourceType::Csv => "Csv"@,
        DataSourceType::Parquet => "Parquet"@,
        DataSourceType::Postgres => "Postgres"@,
        DataSourceType::Mysql => "Mysql"@,
        DataSourceType::Sqlite => "Sqlite"@,
        DataSourceType::Iceberg => "Iceberg"@,
        DataSourceType::Mongo => "Mongo"@,
        DataSourceType::Redis => "Redis"@,
        DataSourceType::Seekdb => "Seekdb"@,
        DataSourceType::Influxdb => "Influxdb"@,
        DataSourceType::Clickhouse => "Clickhouse"@,
        DataSourceType::Dynamodb => "Dynamodb"@,
        DataSourceType::Lance => "Lance"@,
        DataSourceType::OpenConnector => "OpenConnector"@,
        DataSourceType::Documents => "Documents"@,
    }
}

impl DataSourceType {
    /// How the type is written in a context file and in replies.
    pub fn as_str(&self) -> (r: &'static str)
        ensures
            r@ == type_text(*self),
    {
        match self {
            DataSourceType::Csv => "csv",
            DataSourceType::Parquet => "parquet",
            DataSourceType::Postgres => "postgres",
            DataSourceType::Mysql => "mysql",
            DataSourceType::Sqlite => "sqlite",
            DataSourceType::Iceberg => "iceberg",
            DataSourceType::Mongo => "mongo",
            DataSourceType::Redis => "redis",
            DataSourceType::Seekdb => "seekdb",
            DataSourceType::Influxdb => "influxdb",
            DataSourceType::Clickhouse => "clickhouse",
            DataSourceType::Dynamodb => "dynamodb",
            DataSourceType::Lance => "lance",
            DataSourceType::OpenConnector => "open_connector",
            DataSourceType::Documents => "documents",
        }
    }

    /// How the type is shown to developers.
    pub fn variant(&self) -> (r: &'static str)
        ensures
            r@ == variant_name(*self),
    {
        match self {
            DataSourceType::Csv => "Csv",
            DataSourceType::Parquet => "Parquet",
            DataSourceType::Postgres => "Postgres",
            DataSourceType::Mysql => "Mysql",
            DataSourceType::Sqlite => "Sqlite",
            DataSourceType::Iceberg => "Iceberg",
            DataSourceType::Mongo => "Mongo",
            DataSourceType::Redis => "Redis",
            DataSourceType::Seekdb => "Seekdb",
            DataSourceType::Influxdb => "Influxdb",
            DataSourceType::Clickhouse => "Clickhouse",
            DataSourceType::Dynamodb => "Dynamodb",
            DataSourceType::Lance => "Lance",
            DataSourceType::OpenConnector => "OpenConnector",
            DataSourceType::Documents => "Documents",
        }
    }

    /// Whether a source of this type can be registered as a whole catalog.
    pub fn supports_catalog(&self) -> (r: bool)
        ensures
            r == catalog_type(*self),
    {
        matches!(
            self,
            DataSourceType::Postgres | DataSourceType::Mysql | DataSourceType::Sqlite
                | DataSourceType::Seekdb | DataSourceType::Dynamodb | DataSourceType::Clickhouse
                | DataSourceType::OpenConnector
        )
    }

    /// Whether a source of this type can be written to.
    pub fn supports_writes(&self) -> (r: bool)
        ensures
            r == writable_type(*self),
    {
        matches!(
            self,
            DataSourceType::Postgres | DataSourceType::Mysql | DataSourceType::Sqlite
                | DataSourceType::Mongo | DataSourceType::Redis | DataSourceType::Seekdb
                | DataSourceType::Dynamodb
        )
    }

    /// Whether a source of this type is reached by a connection string.
    pub fn needs_connection(&self) -> (r: bool)
        ensures
            r == connected_type(*self),
    {
        matches!(
            self,
            DataSourceType::Postgres | DataSourceType::Mysql | DataSourceType::Mongo
                | DataSourceType::Redis | DataSourceType::Seekdb | DataSourceType::Influxdb
                | DataSourceType::Clickhouse | DataSourceType::OpenConnector
                | DataSourceType::Dynamodb
        )
    }
}

/// Whether a source of a type can be registered as a whole catalog. The tables
/// of a gateway come from its bindings, so that it is always a catalog.
pub open spec fn catalog_type(source_type: DataSourceType) -> bool {
    ||| source_type is Postgres
    ||| source_type is Mysql
    ||| source_type is Sqlite
    ||| source_type is Seekdb
    ||| source_type is Dynamodb
    ||| source_type is Clickhouse
    ||| source_type is OpenConnector
}

/// Whether a source of a type can be written to.
pub open spec fn writable_type(source_type: DataSourceType) -> bool {
    ||| source_type is Postgres
    ||| source_type is Mysql
    ||| source_type is Sqlite
    ||| source_type is Mongo
    ||| source_type is Redis
    ||| source_type is Seekdb
    ||| source_type is Dynamodb
}

/// Whether a source of a type is reached by a connection string. The others
/// are files.
pub open spec fn connected_type(source_type: DataSourceType) -> bool {
    ||| source_type is Postgres
    ||| source_type is Mysql
    ||| source_type is Mongo
    ||| source_type is Redis
    ||| source_type is Seekdb
    ||| source_type is Influxdb
    ||| source_type is Clickhouse
    ||| source_type is OpenConnector
    ||| source_type is Dynamodb
}

/// Whether statements may write to a source.
#[derive(Debug, Clone, Copy, PartialEq, Eq, Structural)]
pub enum AccessMode {
    ReadOnly,
    ReadWrite,
}

impl Default for AccessMode {
    fn default() -> (r: Self)
        ensures
            r == AccessMode::ReadOnly,
    {
        AccessMode::ReadOnly
    }
}

impl AccessMode {
    /// Whether statements may write.
    pub fn is_read_write(&self) -> (r: bool)
        ensures
            r == (*self == AccessMode::ReadWrite),
    {
        matches!(self, AccessMode::ReadWrite)
    }
}

/// Whether a source is registered as a table or as a catalog of tables.
#[derive(Debug, Clone, Copy, PartialEq, Eq, Structural)]
pub enum HierarchyLevel {
    Table,
    Catalog,
}

impl Default for HierarchyLevel {
    fn default() -> (r: Self)
        ensures
            r == HierarchyLevel::Table,
    {
        HierarchyLevel::Table
    }
}

/// A path of the file system, which need not be text.
#[derive(Debug)]
pub enum SourcePath {
    /// A path that is text.
    Text(String),
    /// A path that is not: how it is displayed, and how it is shown to
    /// developers.
    NotText { displayed: String, debugged: String },
}

/// The model of a [`SourcePath`].
pub enum PathView {
    Text(Seq<char>),
    NotText { displayed: Seq<char>, debugged: Seq<char> },
}

impl View for SourcePath {
    type V = PathView;

    open spec fn view(&self) -> PathView {
        match self {
            SourcePath::Text(s) => PathView::Text(s@),
            SourcePath::NotText { displayed, debugged } => PathView::NotText {
                displayed: displayed@,
                debugged: debugged@,
            },
        }
    }
}

impl PathView {
    /// How the path is displayed.
    pub open spec fn displayed(self) -> Seq<char> {
        match self {
            PathView::Text(s) => s,
            PathView::NotText { displayed, .. } => displayed,
        }
    }

    /// Whether the path lies in an object store.
    pub open spec fn is_remote(self) -> bool {
        self matches PathView::Text(s) && text::has_prefix(s, "s3://"@)
    }
}

impl SourcePath {
    /// How the path is displayed.
    pub fn display(&self) -> (r: String)
        ensures
            r@ == self@.displayed(),
    {
        match self {
            SourcePath::Text(s) => s.clone(),
            SourcePath::NotText { displayed, .. } => displayed.clone(),
        }
    }

    /// Whether the path lies in an object store.
    pub fn is_remote(&self) -> (r: bool)
        ensures
            r == self@.is_remote(),
    {
        match self {
            SourcePath::Text(s) => begins(s.as_str(), "s3://"),
            SourcePath::NotText { .. } => false,
        }
    }
}

/// A source.
#[derive(Debug)]
pub struct DataSource {
    /// Its name, which is that of its table in SQL.
    pub name: String,
    pub source_type: DataSourceType,
    /// Where its file is, for sources that are files.
    pub path: SourcePath,
    /// How it is reached, for databases.
    pub connection_string: Option<String>,
    /// The types of its fields by their names.
    pub schema: Option<TextMap>,
    /// Options of its format or provider.
    pub options: Option<TextMap>,
    pub hierarchy_level: HierarchyLevel,
    pub access_mode: AccessMode,
    /// Whether the whole table is loaded into memory at the start.
    pub enable_cache: bool,
    /// What the table is, in words.
    pub description: Option<String>,
    /// The gateway block, which gateways need and others must not have.
    pub open_connector: Option<OpenConnectorConfig>,
}

/// The model of a [`DataSource`].
pub struct DataSourceView {
    pub name: Seq<char>,
    pub source_type: DataSourceType,
    pub path: PathView,
    pub connection_string: Option<Seq<char>>,
    pub schema: Option<Map<Seq<char>, Seq<char>>>,
    pub options: Option<Map<Seq<char>, Seq<char>>>,
    pub hierarchy_level: HierarchyLevel,
    pub access_mode: AccessMode,
    pub enable_cache: bool,
    pub description: Option<Seq<char>>,
    pub open_connector: Option<ConfigView>,
}

/// The model of an optional string.
pub open spec fn owned(s: Option<String>) -> Option<Seq<char>> {
    match s {
        Some(s) => Some(s@),
        None => None,
    }
}

/// The model of an optional map.
pub open spec fn owned_map(map: Option<TextMap>) -> Option<Map<Seq<char>, Seq<char>>> {
    match map {
        Some(map) => Some(map@),
        None => None,
    }
}

impl View for DataSource {
    type V = DataSourceView;

    open spec fn view(&self) -> DataSourceView {
        DataSourceView {
            name: self.name@,
            source_type: self.source_type,
            path: self.path@,
            connection_string: owned(self.connection_string),
            schema: owned_map(self.schema),
            options: owned_map(self.options),
            hierarchy_level: self.hierarchy_level,
            access_mode: self.access_mode,
            enable_cache: self.enable_cache,
            description: owned(self.description),
            open_connector: match self.open_connector {
                Some(config) => Some(config@),
                None => None,
            },
        }
    }
}

/// The models of sources in a row.
pub open spec fn source_views(sources: Seq<DataSource>) -> Seq<DataSourceView> {
    Seq::new(sources.len(), |i: int| sources[i]@)
}

/// The option of a source under a key.
pub open spec fn option_of(source: DataSourceView, key: Seq<char>) -> Option<Seq<char>> {
    match source.options {
        Some(options) => crate::text_map::lookup(options, key),
        None => None,
    }
}

impl DataSource {
    /// The option under a key.
    pub fn option(&self, key: &str) -> (r: Option<&str>)
        ensures
            text::optional(r) == option_of(self@, key@),
    {
        match &self.options {
            Some(options) => options.get(key),
            None => None,
        }
    }
}

/// Different types are written differently.
pub proof fn types_are_told_apart(a: DataSourceType, b: DataSourceType)
    requires
        type_text(a) == type_text(b),
    ensures
        a == b,
{
    reveal_strlit("csv");
    reveal_strlit("parquet");
    reveal_strlit("postgres");
    reveal_strlit("mysql");
    reveal_strlit("sqlite");
    reveal_strlit("iceberg");
    reveal_strlit("mongo");
    reveal_strlit("redis");
    reveal_strlit("seekdb");
    reveal_strlit("influxdb");
    reveal_strlit("clickhouse");
    reveal_strlit("dynamodb");
    reveal_strlit("lance");
    reveal_strlit("open_connector");
    reveal_strlit("documents");
    assert("csv"@.len() == 3 && "csv"@[0] == 'c' && "csv"@[1] == 's' && "csv"@[2] == 'v');
    assert("parquet"@.len() == 7 && "parquet"@[0] == 'p' && "parquet"@[1] == 'a' && "parquet"@[2] == 'r');
    assert("postgres"@.len() == 8 && "postgres"@[0] == 'p' && "postgres"@[1] == 'o' && "postgres"@[2] == 's');
    assert("mysql"@.len() == 5 && "mysql"@[0] == 'm' && "mysql"@[1] == 'y' && "mysql"@[2] == 's');
    assert("sqlite"@.len() == 6 && "sqlite"@[0] == 's' && "sqlite"@[1] == 'q' && "sqlite"@[2] == 'l');
    assert("iceberg"@.len() == 7 && "iceberg"@[0] == 'i' && "iceberg"@[1] == 'c' && "iceberg"@[2] == 'e');
    assert("mongo"@.len() == 5 && "mongo"@[0] == 'm' && "mongo"@[1] == 'o' && "mongo"@[2] == 'n');
    assert("redis"@.len() == 5 && "redis"@[0] == 'r' && "redis"@[1] == 'e' && "redis"@[2] == 'd');
    assert("seekdb"@.len() == 6 && "seekdb"@[0] == 's' && "seekdb"@[1] == 'e' && "seekdb"@[2] == 'e');
    assert("influxdb"@.len() == 8 && "influxdb"@[0] == 'i' && "influxdb"@[1] == 'n' && "influxdb"@[2] == 'f');
    assert("clickhouse"@.len() == 10 && "clickhouse"@[0] == 'c' && "clickhouse"@[1] == 'l' && "clickhouse"@[2] == 'i');
    assert("dynamodb"@.len() == 8 && "dynamodb"@[0] == 'd' && "dynamodb"@[1] == 'y' && "dynamodb"@[2] == 'n');
    assert("lance"@.len() == 5 && "lance"@[0] == 'l' && "lance"@[1] == 'a' && "lance"@[2] == 'n');
    assert("open_connector"@.len() == 14 && "open_connector"@[0] == 'o' && "open_connector"@[1] == 'p' && "open_connector"@[2] == 'e');
    assert("documents"@.len() == 9 && "documents"@[0] == 'd' && "documents"@[1] == 'o' && "documents"@[2] == 'c');
}

} // verus!
