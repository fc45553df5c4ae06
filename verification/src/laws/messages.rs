//! What the words of errors tell.
use vstd::prelude::*;

use crate::open_connector::error::ErrorView;
use crate::server::config_error::ConfigErrorView;
use crate::server::data_source;
use crate::text;

verus! {

proof fn two_pieces_are_told(a: Seq<char>, b: Seq<char>)
    ensures
        text::has_prefix(a + b, a + b),
{
    let whole = a + b;
    assert(whole.subrange(0, (a + b).len() as int) =~= a + b);
}

proof fn three_pieces_are_told(a: Seq<char>, b: Seq<char>, c: Seq<char>)
    ensures
        text::has_prefix(a + b + c, a + b),
{
    let whole = a + b + c;
    assert(whole.subrange(0, (a + b).len() as int) =~= a + b);
}

proof fn four_pieces_are_told(a: Seq<char>, b: Seq<char>, c: Seq<char>, d: Seq<char>)
    ensures
        text::has_prefix(a + b + c + d, a + b),
        text::occurs(a + b + c + d, c + d),
{
    let whole = a + b + c + d;
    assert(whole.subrange(0, (a + b).len() as int) =~= a + b);
    let front = a + b;
    let piece = c + d;
    assert(whole.subrange(front.len() as int, (front.len() + piece.len()) as int) =~= piece);
    assert(text::occurs_at(whole, piece, front.len() as int));
}

proof fn five_pieces_are_told(a: Seq<char>, b: Seq<char>, c: Seq<char>, d: Seq<char>, e: Seq<char>)
    ensures
        text::has_prefix(a + b + c + d + e, a + b),
        text::occurs(a + b + c + d + e, c + d),
{
    let whole = a + b + c + d + e;
    assert(whole.subrange(0, (a + b).len() as int) =~= a + b);
    let front = a + b;
    let piece = c + d;
    assert(whole.subrange(front.len() as int, (front.len() + piece.len()) as int) =~= piece);
    assert(text::occurs_at(whole, piece, front.len() as int));
}

proof fn six_pieces_are_told(
    a: Seq<char>,
    b: Seq<char>,
    c: Seq<char>,
    d: Seq<char>,
    e: Seq<char>,
    f: Seq<char>,
)
    ensures
        text::has_prefix(a + b + c + d + e + f, a + b),
        text::occurs(a + b + c + d + e + f, c + d),
        text::occurs(a + b + c + d + e + f, e + f),
{
    let whole = a + b + c + d + e + f;
    assert(whole.subrange(0, (a + b).len() as int) =~= a + b);
    let front = a + b;
    let piece = c + d;
    assert(whole.subrange(front.len() as int, (front.len() + piece.len()) as int) =~= piece);
    assert(text::occurs_at(whole, piece, front.len() as int));
    let front = a + b + c + d;
    let piece = e + f;
    assert(whole.subrange(front.len() as int, (front.len() + piece.len()) as int) =~= piece);
    assert(text::occurs_at(whole, piece, front.len() as int));
}

proof fn seven_pieces_are_told(
    a: Seq<char>,
    b: Seq<char>,
    c: Seq<char>,
    d: Seq<char>,
    e: Seq<char>,
    f: Seq<char>,
    g: Seq<char>,
)
    ensures
        text::has_prefix(a + b + c + d + e + f + g, a + b),
        text::occurs(a + b + c + d + e + f + g, c + d),
        text::occurs(a + b + c + d + e + f + g, e + f),
{
    let whole = a + b + c + d + e + f + g;
    assert(whole.subrange(0, (a + b).len() as int) =~= a + b);
    let front = a + b;
    let piece = c + d;
    assert(whole.subrange(front.len() as int, (front.len() + piece.len()) as int) =~= piece);
    assert(text::occurs_at(whole, piece, front.len() as int));
    let front = a + b + c + d;
    let piece = e + f;
    assert(whole.subrange(front.len() as int, (front.len() + piece.len()) as int) =~= piece);
    assert(text::occurs_at(whole, piece, front.len() as int));
}

proof fn eight_pieces_are_told(
    a: Seq<char>,
    b: Seq<char>,
    c: Seq<char>,
    d: Seq<char>,
    e: Seq<char>,
    f: Seq<char>,
    g: Seq<char>,
    h: Seq<char>,
)
    ensures
        text::has_prefix(a + b + c + d + e + f + g + h, a + b),
        text::occurs(a + b + c + d + e + f + g + h, c + d),
        text::occurs(a + b + c + d + e + f + g + h, e + f),
        text::occurs(a + b + c + d + e + f + g + h, g + h),
{
    let whole = a + b + c + d + e + f + g + h;
    assert(whole.subrange(0, (a + b).len() as int) =~= a + b);
    let front = a + b;
    let piece = c + d;
    assert(whole.subrange(front.len() as int, (front.len() + piece.len()) as int) =~= piece);
    assert(text::occurs_at(whole, piece, front.len() as int));
    let front = a + b + c + d;
    let piece = e + f;
    assert(whole.subrange(front.len() as int, (front.len() + piece.len()) as int) =~= piece);
    assert(text::occurs_at(whole, piece, front.len() as int));
    let front = a + b + c + d + e + f;
    let piece = g + h;
    assert(whole.subrange(front.len() as int, (front.len() + piece.len()) as int) =~= piece);
    assert(text::occurs_at(whole, piece, front.len() as int));
}

proof fn twelve_pieces_are_told(
    a: Seq<char>,
    b: Seq<char>,
    c: Seq<char>,
    d: Seq<char>,
    e: Seq<char>,
    f: Seq<char>,
    g: Seq<char>,
    h: Seq<char>,
    i: Seq<char>,
    j: Seq<char>,
    k: Seq<char>,
    l: Seq<char>,
)
    ensures
        text::has_prefix(a + b + c + d + e + f + g + h + i + j + k + l, a + b),
        text::occurs(a + b + c + d + e + f + g + h + i + j + k + l, c + d),
        text::occurs(a + b + c + d + e + f + g + h + i + j + k + l, e + f),
        text::occurs(a + b + c + d + e + f + g + h + i + j + k + l, g + h),
        text::occurs(a + b + c + d + e + f + g + h + i + j + k + l, i + j),
        text::occurs(a + b + c + d + e + f + g + h + i + j + k + l, k + l),
{
    let whole = a + b + c + d + e + f + g + h + i + j + k + l;
    assert(whole.subrange(0, (a + b).len() as int) =~= a + b);
    let front = a + b;
    let piece = c + d;
    assert(whole.subrange(front.len() as int, (front.len() + piece.len()) as int) =~= piece);
    assert(text::occurs_at(whole, piece, front.len() as int));
    let front = a + b + c + d;
    let piece = e + f;
    assert(whole.subrange(front.len() as int, (front.len() + piece.len()) as int) =~= piece);
    assert(text::occurs_at(whole, piece, front.len() as int));
    let front = a + b + c + d + e + f;
    let piece = g + h;
    assert(whole.subrange(front.len() as int, (front.len() + piece.len()) as int) =~= piece);
    assert(text::occurs_at(whole, piece, front.len() as int));
    let front = a + b + c + d + e + f + g + h;
    let piece = i + j;
    assert(whole.subrange(front.len() as int, (front.len() + piece.len()) as int) =~= piece);
    assert(text::occurs_at(whole, piece, front.len() as int));
    let front = a + b + c + d + e + f + g + h + i + j;
    let piece = k + l;
    assert(whole.subrange(front.len() as int, (front.len() + piece.len()) as int) =~= piece);
    assert(text::occurs_at(whole, piece, front.len() as int));
}

/// The words of an error of the configuration begin with what it is about and tell
/// every part of it behind the words that introduce the part.
pub proof fn configuration_errors_tell_their_parts(e: ConfigErrorView)
    ensures
        match e {
            ConfigErrorView::PipelineFileNotFound { path } => {
                &&& text::has_prefix(e.message(), "Pipeline file not found: "@ + path)
            },
            ConfigErrorView::PipelineDirectoryNotFound { path } => {
                &&& text::has_prefix(e.message(), "Pipeline directory not found: "@ + path)
            },
            ConfigErrorView::NoPipelineFilesInDirectory { path } => {
                &&& text::has_prefix(e.message(), "No pipeline files found in directory: "@ + path)
            },
            ConfigErrorView::ContextFileNotFound { path } => {
                &&& text::has_prefix(e.message(), "Context file not found: "@ + path)
            },
            ConfigErrorView::InvalidContextYaml { error } => {
                &&& text::has_prefix(e.message(), "Invalid YAML in context file: "@ + error)
            },
            ConfigErrorView::DataSourceFileNotFound { name, path } => {
                &&& text::has_prefix(e.message(), "Data source file not found: "@ + name)
                &&& text::occurs(e.message(), " -> "@ + path)
            },
            ConfigErrorView::DuplicateDataSourceName { name } => {
                &&& text::has_prefix(e.message(), "Duplicate data source name: "@ + name)
            },
            ConfigErrorView::DataSourceRegistrationFailed { name, error } => {
                &&& text::has_prefix(e.message(), "Data source registration failed: "@ + name)
                &&& text::occurs(e.message(), " - "@ + error)
            },
            ConfigErrorView::InvalidSchemaType { field, type_text } => {
                &&& text::has_prefix(e.message(), "Invalid schema type: "@ + field)
                &&& text::occurs(e.message(), " -> "@ + type_text)
            },
            ConfigErrorView::MissingConnectionString { name } => {
                &&& text::has_prefix(
                    e.message(),
                    "Missing connection string for data source: "@ + name,
                )
            },
            ConfigErrorView::PostgresConnectionFailed { name, error } => {
                &&& text::has_prefix(e.message(), "PostgreSQL connection failed: "@ + name)
                &&& text::occurs(e.message(), " - "@ + error)
            },
            ConfigErrorView::MySQLConnectionFailed { name, error } => {
                &&& text::has_prefix(e.message(), "MySQL connection failed: "@ + name)
                &&& text::occurs(e.message(), " - "@ + error)
            },
            ConfigErrorView::SQLiteConnectionFailed { name, error } => {
                &&& text::has_prefix(e.message(), "SQLite connection failed: "@ + name)
                &&& text::occurs(e.message(), " - "@ + error)
            },
            ConfigErrorView::SeekDbConnectionFailed { name, error } => {
                &&& text::has_prefix(e.message(), "SeekDB connection failed: "@ + name)
                &&& text::occurs(e.message(), " - "@ + error)
            },
            ConfigErrorView::InvalidS3Path { path } => {
                &&& text::has_prefix(
                    e.message(),
                    "S3 path must start with 's3://' prefix: "@ + path,
                )
            },
            ConfigErrorView::MissingAwsConfig { name, field } => {
                &&& text::has_prefix(
                    e.message(),
                    "Missing required AWS configuration for S3 data source: "@ + name,
                )
                &&& text::occurs(e.message(), " - missing "@ + field)
            },
            ConfigErrorView::S3ObjectStoreRegistrationFailed { name, error } => {
                &&& text::has_prefix(e.message(), "S3 object store registration failed: "@ + name)
                &&& text::occurs(e.message(), " - "@ + error)
            },
            ConfigErrorView::UnsupportedWriteMode { name, source_type } => {
                &&& text::has_prefix(e.message(), "Data source '"@ + name)
                &&& text::occurs(
                    e.message(),
                    "' has access_mode 'read_write' but type '"@ + data_source::variant_name(source_type),
                )
            },
            ConfigErrorView::DdlOperationNotAllowed { operation, table_name } => {
                &&& text::has_prefix(e.message(), "DDL operation not allowed: "@ + operation)
                &&& text::occurs(e.message(), " on data source '"@ + table_name)
            },
            ConfigErrorView::WriteOperationNotAllowed { table_name } => {
                &&& text::has_prefix(
                    e.message(),
                    "Write operation not allowed on data source '"@ + table_name,
                )
            },
            ConfigErrorView::CatalogModeConflictingOptions { name, option } => {
                &&& text::has_prefix(e.message(), "Data source '"@ + name)
                &&& text::occurs(
                    e.message(),
                    "' uses hierarchy_level 'catalog' but also specifies the '"@ + option,
                )
            },
            ConfigErrorView::EmptyAllowedSchemas { name } => {
                &&& text::has_prefix(e.message(), "Data source '"@ + name)
            },
            ConfigErrorView::EmptyAllowedTables { name } => {
                &&& text::has_prefix(e.message(), "Data source '"@ + name)
            },
            ConfigErrorView::MissingOpenConnectorConfig { name } => {
                &&& text::has_prefix(e.message(), "Data source '"@ + name)
            },
            ConfigErrorView::UnexpectedOpenConnectorConfig { name, source_type } => {
                &&& text::has_prefix(e.message(), "Data source '"@ + name)
                &&& text::occurs(
                    e.message(),
                    "' sets an 'open_connector' config block but its type is '"@ + data_source::type_text(source_type),
                )
            },
            ConfigErrorView::InvalidOpenConnectorConfig { name, reason } => {
                &&& text::has_prefix(e.message(), "Data source '"@ + name)
                &&& text::occurs(
                    e.message(),
                    "' has an invalid 'open_connector' config: "@ + reason,
                )
            },
            ConfigErrorView::OpenConnectorHierarchyRequired { name } => {
                &&& text::has_prefix(e.message(), "Data source '"@ + name)
            },
            ConfigErrorView::NonUtf8Path { name, path } => {
                &&& text::has_prefix(e.message(), "Data source '"@ + name)
                &&& text::occurs(e.message(), "' has a non-UTF8 path: "@ + path)
            },
        },
{
    match e {
        ConfigErrorView::PipelineFileNotFound { path } => two_pieces_are_told(
            "Pipeline file not found: "@,
            path,
        ),
        ConfigErrorView::PipelineDirectoryNotFound { path } => two_pieces_are_told(
            "Pipeline directory not found: "@,
            path,
        ),
        ConfigErrorView::NoPipelineFilesInDirectory { path } => two_pieces_are_told(
            "No pipeline files found in directory: "@,
            path,
        ),
        ConfigErrorView::ContextFileNotFound { path } => two_pieces_are_told(
            "Context file not found: "@,
            path,
        ),
        ConfigErrorView::InvalidContextYaml { error } => two_pieces_are_told(
            "Invalid YAML in context file: "@,
            error,
        ),
        ConfigErrorView::DataSourceFileNotFound { name, path } => four_pieces_are_told(
            "Data source file not found: "@,
            name,
            " -> "@,
            path,
        ),
        ConfigErrorView::DuplicateDataSourceName { name } => two_pieces_are_told(
            "Duplicate data source name: "@,
            name,
        ),
        ConfigErrorView::DataSourceRegistrationFailed { name, error } => four_pieces_are_told(
            "Data source registration failed: "@,
            name,
            " - "@,
            error,
        ),
        ConfigErrorView::InvalidSchemaType { field, type_text } => four_pieces_are_told(
            "Invalid schema type: "@,
            field,
            " -> "@,
            type_text,
        ),
        ConfigErrorView::MissingConnectionString { name } => two_pieces_are_told(
            "Missing connection string for data source: "@,
            name,
        ),
        ConfigErrorView::PostgresConnectionFailed { name, error } => four_pieces_are_told(
            "PostgreSQL connection failed: "@,
            name,
            " - "@,
            error,
        ),
        ConfigErrorView::MySQLConnectionFailed { name, error } => four_pieces_are_told(
            "MySQL connection failed: "@,
            name,
            " - "@,
            error,
        ),
        ConfigErrorView::SQLiteConnectionFailed { name, error } => four_pieces_are_told(
            "SQLite connection failed: "@,
            name,
            " - "@,
            error,
        ),
        ConfigErrorView::SeekDbConnectionFailed { name, error } => four_pieces_are_told(
            "SeekDB connection failed: "@,
            name,
            " - "@,
            error,
        ),
        ConfigErrorView::InvalidS3Path { path } => two_pieces_are_told(
            "S3 path must start with 's3://' prefix: "@,
            path,
        ),
        ConfigErrorView::MissingAwsConfig { name, field } => four_pieces_are_told(
            "Missing required AWS configuration for S3 data source: "@,
            name,
            " - missing "@,
            field,
        ),
        ConfigErrorView::S3ObjectStoreRegistrationFailed { name, error } => four_pieces_are_told(
            "S3 object store registration failed: "@,
            name,
            " - "@,
            error,
        ),
        ConfigErrorView::UnsupportedWriteMode { name, source_type } => five_pieces_are_told(
            "Data source '"@,
            name,
            "' has access_mode 'read_write' but type '"@,
            data_source::variant_name(source_type),
            "' does not support write operations. Only 'postgres', 'mysql', 'sqlite', 'mongo', 'redis', 'seekdb', and 'dynamodb' sources support read_write mode."@,
        ),
        ConfigErrorView::DdlOperationNotAllowed { operation, table_name } => five_pieces_are_told(
            "DDL operation not allowed: "@,
            operation,
            " on data source '"@,
            table_name,
            "'. DDL operations (CREATE, DROP, ALTER, etc.) are not permitted."@,
        ),
        ConfigErrorView::WriteOperationNotAllowed { table_name } => three_pieces_are_told(
            "Write operation not allowed on data source '"@,
            table_name,
            "'. The data source is configured with 'read_only' access mode. Set access_mode to 'read_write' to enable write operations."@,
        ),
        ConfigErrorView::CatalogModeConflictingOptions { name, option } => five_pieces_are_told(
            "Data source '"@,
            name,
            "' uses hierarchy_level 'catalog' but also specifies the '"@,
            option,
            "' option. In catalog mode use 'allowed_schemas' to filter schemas; 'table' and 'schema' are not allowed."@,
        ),
        ConfigErrorView::EmptyAllowedSchemas { name } => three_pieces_are_told(
            "Data source '"@,
            name,
            "' has an empty 'allowed_schemas' option. Either omit it to load all schemas, or provide a non-empty comma-separated list such as \"public,analytics\"."@,
        ),
        ConfigErrorView::EmptyAllowedTables { name } => three_pieces_are_told(
            "Data source '"@,
            name,
            "' has an empty 'allowed_tables' option. Either omit it to load all DynamoDB tables, or provide a non-empty comma-separated list such as \"products,orders\"."@,
        ),
        ConfigErrorView::MissingOpenConnectorConfig { name } => three_pieces_are_told(
            "Data source '"@,
            name,
            "' has type 'open_connector' but no 'open_connector' config block. The typed gateway configuration (runtime_token_env, bindings, …) is required."@,
        ),
        ConfigErrorView::UnexpectedOpenConnectorConfig { name, source_type } => five_pieces_are_told(
            "Data source '"@,
            name,
            "' sets an 'open_connector' config block but its type is '"@,
            data_source::type_text(source_type),
            "'. The 'open_connector' field is only valid for type 'open_connector'."@,
        ),
        ConfigErrorView::InvalidOpenConnectorConfig { name, reason } => four_pieces_are_told(
            "Data source '"@,
            name,
            "' has an invalid 'open_connector' config: "@,
            reason,
        ),
        ConfigErrorView::OpenConnectorHierarchyRequired { name } => three_pieces_are_told(
            "Data source '"@,
            name,
            "' has type 'open_connector' but does not set hierarchy_level to 'catalog'. Open Connector gateways are exposed as DataFusion catalogs; add `hierarchy_level: catalog`."@,
        ),
        ConfigErrorView::NonUtf8Path { name, path } => four_pieces_are_told(
            "Data source '"@,
            name,
            "' has a non-UTF8 path: "@,
            path,
        ),
    }
}

/// The words of an error about a gateway block begin with what it is about and
/// tell every part of it, numbers in decimal, behind the words that introduce it.
pub proof fn gateway_block_errors_tell_their_parts(e: ErrorView)
    ensures
        match e {
            ErrorView::EmptyRuntimeTokenEnv => e.message()
                == "Open Connector config field 'runtime_token_env' must not be empty"@,
            ErrorView::EmptyGatewayUrl { name } => {
                &&& text::has_prefix(e.message(), "Open Connector data source '"@ + name)
            },
            ErrorView::EmptyBindingName => e.message()
                == "Open Connector binding names must not be empty"@,
            ErrorView::DuplicateBindingName { name } => {
                &&& text::has_prefix(
                    e.message(),
                    "Open Connector config has duplicate binding name '"@ + name,
                )
            },
            ErrorView::EmptySourcePack { binding } => {
                &&& text::has_prefix(e.message(), "Open Connector binding '"@ + binding)
            },
            ErrorView::EmptyTableList { binding } => {
                &&& text::has_prefix(e.message(), "Open Connector binding '"@ + binding)
            },
            ErrorView::EmptyTableName { binding } => {
                &&& text::has_prefix(e.message(), "Open Connector binding '"@ + binding)
            },
            ErrorView::DuplicateTableName { binding, table } => {
                &&& text::has_prefix(e.message(), "Open Connector binding '"@ + binding)
                &&& text::occurs(e.message(), "' lists table '"@ + table)
            },
            ErrorView::EmptyAllowlistEntry => e.message()
                == "Open Connector 'raw_action_allowlist' must not contain empty entries"@,
            ErrorView::ZeroSafetyBound { field } => {
                &&& text::has_prefix(e.message(), "Open Connector safety bound '"@ + field)
            },
            ErrorView::CatalogHierarchyRequired { name } => {
                &&& text::has_prefix(e.message(), "Open Connector data source '"@ + name)
            },
            ErrorView::ReadWriteNotSupported { name } => {
                &&& text::has_prefix(e.message(), "Open Connector data source '"@ + name)
            },
            ErrorView::MissingConfig { name } => {
                &&& text::has_prefix(e.message(), "Open Connector data source '"@ + name)
            },
            _ => true,
        },
{
    match e {
        ErrorView::EmptyRuntimeTokenEnv => {},
        ErrorView::EmptyGatewayUrl { name } => three_pieces_are_told(
            "Open Connector data source '"@,
            name,
            "' requires a non-empty connection_string (the gateway URL, e.g. http://open-connector:3000)"@,
        ),
        ErrorView::EmptyBindingName => {},
        ErrorView::DuplicateBindingName { name } => three_pieces_are_told(
            "Open Connector config has duplicate binding name '"@,
            name,
            "'; binding names become catalog schema names and must be unique"@,
        ),
        ErrorView::EmptySourcePack { binding } => three_pieces_are_told(
            "Open Connector binding '"@,
            binding,
            "' must name a 'source_pack'"@,
        ),
        ErrorView::EmptyTableList { binding } => three_pieces_are_told(
            "Open Connector binding '"@,
            binding,
            "' must expose at least one table"@,
        ),
        ErrorView::EmptyTableName { binding } => three_pieces_are_told(
            "Open Connector binding '"@,
            binding,
            "' contains an empty table name"@,
        ),
        ErrorView::DuplicateTableName { binding, table } => five_pieces_are_told(
            "Open Connector binding '"@,
            binding,
            "' lists table '"@,
            table,
            "' more than once"@,
        ),
        ErrorView::EmptyAllowlistEntry => {},
        ErrorView::ZeroSafetyBound { field } => three_pieces_are_told(
            "Open Connector safety bound '"@,
            field,
            "' must be greater than zero"@,
        ),
        ErrorView::CatalogHierarchyRequired { name } => three_pieces_are_told(
            "Open Connector data source '"@,
            name,
            "' must use hierarchy_level 'catalog' — a gateway is exposed as a DataFusion catalog, not a single table"@,
        ),
        ErrorView::ReadWriteNotSupported { name } => three_pieces_are_told(
            "Open Connector data source '"@,
            name,
            "' requests access_mode 'read_write', but Open Connector is read-only — no mutating actions are exposed"@,
        ),
        ErrorView::MissingConfig { name } => three_pieces_are_told(
            "Open Connector data source '"@,
            name,
            "' requires an 'open_connector' config block (runtime_token_env, bindings, …)"@,
        ),
        _ => {},
    }
}

/// The words of an error about a request to a gateway begin with what it is about and
/// tell every part of it, numbers in decimal, behind the words that introduce it.
pub proof fn gateway_request_errors_tell_their_parts(e: ErrorView)
    ensures
        match e {
            ErrorView::MissingRuntimeToken { env } => {
                &&& text::has_prefix(e.message(), "Environment variable '"@ + env)
            },
            ErrorView::InvalidRuntimeToken { env, reason } => {
                &&& text::has_prefix(e.message(), "Open Connector runtime token from '"@ + env)
                &&& text::occurs(e.message(), "' is invalid: "@ + reason)
            },
            ErrorView::RequestBuildFailed { operation, reason } => {
                &&& text::has_prefix(e.message(), "Open Connector "@ + operation)
                &&& text::occurs(e.message(), " could not build the request: "@ + reason)
            },
            ErrorView::InvalidGatewayUrl { url } => {
                &&& text::has_prefix(e.message(), "Open Connector gateway URL '"@ + url)
            },
            ErrorView::GatewayUrlWithQueryOrFragment { url } => {
                &&& text::has_prefix(e.message(), "Open Connector gateway URL '"@ + url)
            },
            ErrorView::HttpClientBuild { reason } => {
                &&& text::has_prefix(
                    e.message(),
                    "Failed to build the Open Connector HTTP client: "@ + reason,
                )
            },
            ErrorView::HealthCheckFailed { url, reason } => {
                &&& text::has_prefix(
                    e.message(),
                    "Open Connector gateway health check failed for '"@ + url,
                )
                &&& text::occurs(e.message(), "': "@ + reason)
            },
            _ => true,
        },
{
    match e {
        ErrorView::MissingRuntimeToken { env } => three_pieces_are_told(
            "Environment variable '"@,
            env,
            "' not found: it must contain the Open Connector gateway runtime token"@,
        ),
        ErrorView::InvalidRuntimeToken { env, reason } => five_pieces_are_told(
            "Open Connector runtime token from '"@,
            env,
            "' is invalid: "@,
            reason,
            " (check for a trailing newline or other control characters)"@,
        ),
        ErrorView::RequestBuildFailed { operation, reason } => four_pieces_are_told(
            "Open Connector "@,
            operation,
            " could not build the request: "@,
            reason,
        ),
        ErrorView::InvalidGatewayUrl { url } => three_pieces_are_told(
            "Open Connector gateway URL '"@,
            url,
            "' must use http:// or https:// and must not embed credentials (the runtime token is sent as a Bearer header)"@,
        ),
        ErrorView::GatewayUrlWithQueryOrFragment { url } => three_pieces_are_told(
            "Open Connector gateway URL '"@,
            url,
            "' must not contain query parameters or a fragment (credentials in the URL would leak into logs and the data-sources API; the runtime token belongs in the configured environment variable)"@,
        ),
        ErrorView::HttpClientBuild { reason } => two_pieces_are_told(
            "Failed to build the Open Connector HTTP client: "@,
            reason,
        ),
        ErrorView::HealthCheckFailed { url, reason } => four_pieces_are_told(
            "Open Connector gateway health check failed for '"@,
            url,
            "': "@,
            reason,
        ),
        _ => {},
    }
}

/// The words of an error about an action begin with what it is about and
/// tell every part of it, numbers in decimal, behind the words that introduce it.
pub proof fn action_errors_tell_their_parts(e: ErrorView)
    ensures
        match e {
            ErrorView::ActionNotFound { action_id } => {
                &&& text::has_prefix(e.message(), "Open Connector action '"@ + action_id)
            },
            ErrorView::ActionDiscoveryFailed { action_id, reason } => {
                &&& text::has_prefix(
                    e.message(),
                    "Failed to discover Open Connector action '"@ + action_id,
                )
                &&& text::occurs(e.message(), "': "@ + reason)
            },
            ErrorView::ActionNotLocallyExecutable { action_id } => {
                &&& text::has_prefix(e.message(), "Open Connector action '"@ + action_id)
            },
            ErrorView::ActionExecutabilityUnknown { action_id } => {
                &&& text::has_prefix(e.message(), "Open Connector action '"@ + action_id)
            },
            ErrorView::InvalidActionId { action_id, reason } => {
                &&& text::has_prefix(e.message(), "Open Connector action ID '"@ + action_id)
                &&& text::occurs(e.message(), "' is invalid: "@ + reason)
            },
            ErrorView::ActionExecutionFailed { action_id, reason } => {
                &&& text::has_prefix(e.message(), "Open Connector action '"@ + action_id)
                &&& text::occurs(e.message(), "' execution failed: "@ + reason)
            },
            _ => true,
        },
{
    match e {
        ErrorView::ActionNotFound { action_id } => three_pieces_are_told(
            "Open Connector action '"@,
            action_id,
            "' was not found on the gateway"@,
        ),
        ErrorView::ActionDiscoveryFailed { action_id, reason } => four_pieces_are_told(
            "Failed to discover Open Connector action '"@,
            action_id,
            "': "@,
            reason,
        ),
        ErrorView::ActionNotLocallyExecutable { action_id } => three_pieces_are_told(
            "Open Connector action '"@,
            action_id,
            "' is not locally executable on this gateway"@,
        ),
        ErrorView::ActionExecutabilityUnknown { action_id } => three_pieces_are_told(
            "Open Connector action '"@,
            action_id,
            "' does not declare whether it is locally executable; refusing to treat it as executable (default-deny)"@,
        ),
        ErrorView::InvalidActionId { action_id, reason } => five_pieces_are_told(
            "Open Connector action ID '"@,
            action_id,
            "' is invalid: "@,
            reason,
            " (action IDs must be single path segments; '/', '.', and '..' are not allowed)"@,
        ),
        ErrorView::ActionExecutionFailed { action_id, reason } => four_pieces_are_told(
            "Open Connector action '"@,
            action_id,
            "' execution failed: "@,
            reason,
        ),
        _ => {},
    }
}

/// The words of an error about an execution begin with what it is about and
/// tell every part of it, numbers in decimal, behind the words that introduce it.
pub proof fn execution_errors_tell_their_parts(e: ErrorView)
    ensures
        match e {
            ErrorView::RetriesExhausted { operation, attempts, reason } => {
                &&& text::has_prefix(e.message(), "Open Connector "@ + operation)
                &&& text::occurs(e.message(), " failed after "@ + text::decimal(attempts as nat))
                &&& text::occurs(e.message(), " attempt(s); last error: "@ + reason)
            },
            ErrorView::NonIdempotentAmbiguousFailure { operation, reason } => {
                &&& text::has_prefix(e.message(), "Open Connector "@ + operation)
                &&& text::occurs(e.message(), " failed with a transport error ("@ + reason)
            },
            ErrorView::ProviderReportedError { action_id, page, code } => {
                &&& text::has_prefix(e.message(), "Open Connector action '"@ + action_id)
                &&& text::occurs(e.message(), "' page "@ + text::decimal(page as nat))
                &&& text::occurs(e.message(), ": the provider reported error '"@ + code)
            },
            _ => true,
        },
{
    match e {
        ErrorView::RetriesExhausted { operation, attempts, reason } => six_pieces_are_told(
            "Open Connector "@,
            operation,
            " failed after "@,
            text::decimal(attempts as nat),
            " attempt(s); last error: "@,
            reason,
        ),
        ErrorView::NonIdempotentAmbiguousFailure { operation, reason } => five_pieces_are_told(
            "Open Connector "@,
            operation,
            " failed with a transport error ("@,
            reason,
            "); not retried because the request may have reached the gateway and re-execution is not safe"@,
        ),
        ErrorView::ProviderReportedError { action_id, page, code } => seven_pieces_are_told(
            "Open Connector action '"@,
            action_id,
            "' page "@,
            text::decimal(page as nat),
            ": the provider reported error '"@,
            code,
            "'"@,
        ),
        _ => {},
    }
}

/// The words of an error about paging begin with what it is about and
/// tell every part of it, numbers in decimal, behind the words that introduce it.
pub proof fn paging_errors_tell_their_parts(e: ErrorView)
    ensures
        match e {
            ErrorView::PaginationTotalInvalid { path, page, found } => {
                &&& text::has_prefix(e.message(), "Open Connector pagination total at '"@ + path)
                &&& text::occurs(e.message(), "' on page "@ + text::decimal(page as nat))
                &&& text::occurs(e.message(), " is "@ + found)
            },
            ErrorView::PaginationRawPageSizeInvalid { path, page, found } => {
                &&& text::has_prefix(
                    e.message(),
                    "Open Connector pagination raw page size at '"@ + path,
                )
                &&& text::occurs(e.message(), "' on page "@ + text::decimal(page as nat))
                &&& text::occurs(e.message(), " is "@ + found)
            },
            ErrorView::PaginationCursorInvalid { path, page, found } => {
                &&& text::has_prefix(e.message(), "Open Connector pagination cursor at '"@ + path)
                &&& text::occurs(e.message(), "' on page "@ + text::decimal(page as nat))
                &&& text::occurs(e.message(), " is "@ + found)
            },
            ErrorView::PaginationHasMoreInvalid { path, page, found } => {
                &&& text::has_prefix(
                    e.message(),
                    "Open Connector pagination has-more signal at '"@ + path,
                )
                &&& text::occurs(e.message(), "' on page "@ + text::decimal(page as nat))
                &&& text::occurs(e.message(), " is "@ + found)
            },
            ErrorView::PaginationLoop { token } => {
                &&& text::has_prefix(
                    e.message(),
                    "Open Connector pagination loop detected: cursor '"@ + token,
                )
            },
            _ => true,
        },
{
    match e {
        ErrorView::PaginationTotalInvalid { path, page, found } => seven_pieces_are_told(
            "Open Connector pagination total at '"@,
            path,
            "' on page "@,
            text::decimal(page as nat),
            " is "@,
            found,
            ", expected a non-negative integer"@,
        ),
        ErrorView::PaginationRawPageSizeInvalid { path, page, found } => seven_pieces_are_told(
            "Open Connector pagination raw page size at '"@,
            path,
            "' on page "@,
            text::decimal(page as nat),
            " is "@,
            found,
            ", expected a non-negative integer"@,
        ),
        ErrorView::PaginationCursorInvalid { path, page, found } => seven_pieces_are_told(
            "Open Connector pagination cursor at '"@,
            path,
            "' on page "@,
            text::decimal(page as nat),
            " is "@,
            found,
            ", not a string; refusing to treat it as end-of-collection"@,
        ),
        ErrorView::PaginationHasMoreInvalid { path, page, found } => seven_pieces_are_told(
            "Open Connector pagination has-more signal at '"@,
            path,
            "' on page "@,
            text::decimal(page as nat),
            " is "@,
            found,
            ", expected a boolean"@,
        ),
        ErrorView::PaginationLoop { token } => three_pieces_are_told(
            "Open Connector pagination loop detected: cursor '"@,
            token,
            "' was already seen (the gateway is not advancing pagination)"@,
        ),
        _ => {},
    }
}

/// The words of an error about a source pack or a binding begin with what it is about and
/// tell every part of it, numbers in decimal, behind the words that introduce it.
pub proof fn pack_errors_tell_their_parts(e: ErrorView)
    ensures
        match e {
            ErrorView::SourcePackNotFound { name } => {
                &&& text::has_prefix(
                    e.message(),
                    "Open Connector binding references unknown source pack '"@ + name,
                )
            },
            ErrorView::SourcePackTableNotFound { pack, table } => {
                &&& text::has_prefix(e.message(), "Open Connector source pack '"@ + pack)
                &&& text::occurs(e.message(), "' has no table '"@ + table)
            },
            ErrorView::SourcePackTableAmbiguous { pack, table, candidates } => {
                &&& text::has_prefix(e.message(), "Open Connector source pack '"@ + pack)
                &&& text::occurs(e.message(), "' has multiple tables matching '"@ + table)
                &&& text::occurs(e.message(), "' ("@ + candidates)
            },
            ErrorView::SourcePackVersionMismatch { pack, pinned, actual } => {
                &&& text::has_prefix(e.message(), "Open Connector source pack '"@ + pack)
                &&& text::occurs(
                    e.message(),
                    "' pinned to version "@ + text::decimal(pinned as nat),
                )
                &&& text::occurs(
                    e.message(),
                    ", but this Skardi build ships version "@ + text::decimal(actual as nat),
                )
            },
            ErrorView::MissingResourceInput { binding, key } => {
                &&& text::has_prefix(e.message(), "Open Connector binding '"@ + binding)
                &&& text::occurs(e.message(), "' is missing required resource input '"@ + key)
            },
            ErrorView::NullResourceValue { binding, key } => {
                &&& text::has_prefix(e.message(), "Open Connector binding '"@ + binding)
                &&& text::occurs(e.message(), "' sets resource input '"@ + key)
            },
            ErrorView::UnknownResourceKey { binding, key } => {
                &&& text::has_prefix(e.message(), "Open Connector binding '"@ + binding)
                &&& text::occurs(e.message(), "' supplies resource key '"@ + key)
            },
            ErrorView::ActionContractMismatch { table, reason } => {
                &&& text::has_prefix(e.message(), "Open Connector source-pack table '"@ + table)
                &&& text::occurs(e.message(), "' failed its compatibility check: "@ + reason)
            },
            ErrorView::CatalogRegistrationFailed { name, reason } => {
                &&& text::has_prefix(
                    e.message(),
                    "Open Connector catalog registration failed for '"@ + name,
                )
                &&& text::occurs(e.message(), "': "@ + reason)
            },
            _ => true,
        },
{
    match e {
        ErrorView::SourcePackNotFound { name } => three_pieces_are_told(
            "Open Connector binding references unknown source pack '"@,
            name,
            "' (built-in packs are versioned with Skardi)"@,
        ),
        ErrorView::SourcePackTableNotFound { pack, table } => five_pieces_are_told(
            "Open Connector source pack '"@,
            pack,
            "' has no table '"@,
            table,
            "'"@,
        ),
        ErrorView::SourcePackTableAmbiguous { pack, table, candidates } => seven_pieces_are_told(
            "Open Connector source pack '"@,
            pack,
            "' has multiple tables matching '"@,
            table,
            "' ("@,
            candidates,
            "); use the full table ID"@,
        ),
        ErrorView::SourcePackVersionMismatch { pack, pinned, actual } => six_pieces_are_told(
            "Open Connector source pack '"@,
            pack,
            "' pinned to version "@,
            text::decimal(pinned as nat),
            ", but this Skardi build ships version "@,
            text::decimal(actual as nat),
        ),
        ErrorView::MissingResourceInput { binding, key } => five_pieces_are_told(
            "Open Connector binding '"@,
            binding,
            "' is missing required resource input '"@,
            key,
            "' for the bound source-pack table"@,
        ),
        ErrorView::NullResourceValue { binding, key } => five_pieces_are_told(
            "Open Connector binding '"@,
            binding,
            "' sets resource input '"@,
            key,
            "' to null"@,
        ),
        ErrorView::UnknownResourceKey { binding, key } => five_pieces_are_told(
            "Open Connector binding '"@,
            binding,
            "' supplies resource key '"@,
            key,
            "' that none of its bound tables declare; each table's requests carry only the resource inputs its action contract lists"@,
        ),
        ErrorView::ActionContractMismatch { table, reason } => four_pieces_are_told(
            "Open Connector source-pack table '"@,
            table,
            "' failed its compatibility check: "@,
            reason,
        ),
        ErrorView::CatalogRegistrationFailed { name, reason } => four_pieces_are_told(
            "Open Connector catalog registration failed for '"@,
            name,
            "': "@,
            reason,
        ),
        _ => {},
    }
}

/// The words of an error about a scan or a row path begin with what it is about and
/// tell every part of it, numbers in decimal, behind the words that introduce it.
pub proof fn scan_errors_tell_their_parts(e: ErrorView)
    ensures
        match e {
            ErrorView::ScanBoundsExceeded { table, bound, limit } => {
                &&& text::has_prefix(e.message(), "Open Connector scan of '"@ + table)
                &&& text::occurs(e.message(), "' exceeded "@ + bound)
                &&& text::occurs(e.message(), " (limit "@ + text::decimal(limit as nat))
            },
            ErrorView::ScanTimeout { table, seconds } => {
                &&& text::has_prefix(e.message(), "Open Connector scan of '"@ + table)
                &&& text::occurs(
                    e.message(),
                    "' timed out after "@ + text::decimal(seconds as nat),
                )
            },
            ErrorView::InvalidRowPath { path, reason } => {
                &&& text::has_prefix(e.message(), "Open Connector row path '"@ + path)
                &&& text::occurs(e.message(), "' is invalid: "@ + reason)
            },
            ErrorView::RowPathNotFound { path, segment, page } => {
                &&& text::has_prefix(e.message(), "Open Connector row path '"@ + path)
                &&& text::occurs(e.message(), "' failed at segment '"@ + segment)
                &&& text::occurs(e.message(), "' on page "@ + text::decimal(page as nat))
            },
            ErrorView::RowPathNotObject { path, segment, page, found } => {
                &&& text::has_prefix(e.message(), "Open Connector row path '"@ + path)
                &&& text::occurs(e.message(), "' cannot descend into segment '"@ + segment)
                &&& text::occurs(e.message(), "' on page "@ + text::decimal(page as nat))
                &&& text::occurs(e.message(), ": expected an object, found "@ + found)
            },
            ErrorView::RowPathNotArray { path, page, found } => {
                &&& text::has_prefix(e.message(), "Open Connector row path '"@ + path)
                &&& text::occurs(e.message(), "' on page "@ + text::decimal(page as nat))
                &&& text::occurs(e.message(), " resolved to "@ + found)
            },
            _ => true,
        },
{
    match e {
        ErrorView::ScanBoundsExceeded { table, bound, limit } => seven_pieces_are_told(
            "Open Connector scan of '"@,
            table,
            "' exceeded "@,
            bound,
            " (limit "@,
            text::decimal(limit as nat),
            "); the result would be incomplete"@,
        ),
        ErrorView::ScanTimeout { table, seconds } => five_pieces_are_told(
            "Open Connector scan of '"@,
            table,
            "' timed out after "@,
            text::decimal(seconds as nat),
            "s"@,
        ),
        ErrorView::InvalidRowPath { path, reason } => four_pieces_are_told(
            "Open Connector row path '"@,
            path,
            "' is invalid: "@,
            reason,
        ),
        ErrorView::RowPathNotFound { path, segment, page } => seven_pieces_are_told(
            "Open Connector row path '"@,
            path,
            "' failed at segment '"@,
            segment,
            "' on page "@,
            text::decimal(page as nat),
            ": the key is missing from an object"@,
        ),
        ErrorView::RowPathNotObject { path, segment, page, found } => eight_pieces_are_told(
            "Open Connector row path '"@,
            path,
            "' cannot descend into segment '"@,
            segment,
            "' on page "@,
            text::decimal(page as nat),
            ": expected an object, found "@,
            found,
        ),
        ErrorView::RowPathNotArray { path, page, found } => seven_pieces_are_told(
            "Open Connector row path '"@,
            path,
            "' on page "@,
            text::decimal(page as nat),
            " resolved to "@,
            found,
            ", expected an array of row objects"@,
        ),
        _ => {},
    }
}

/// The words of an error about rows and responses begin with what it is about and
/// tell every part of it, numbers in decimal, behind the words that introduce it.
pub proof fn row_errors_tell_their_parts(e: ErrorView)
    ensures
        match e {
            ErrorView::ConversionFailed { path, column, page, row, expected, found } => {
                &&& text::has_prefix(
                    e.message(),
                    "Open Connector conversion failed for column '"@ + column,
                )
                &&& text::occurs(e.message(), "' (path '"@ + path)
                &&& text::occurs(e.message(), "') at page "@ + text::decimal(page as nat))
                &&& text::occurs(e.message(), ", row "@ + text::decimal(row as nat))
                &&& text::occurs(e.message(), ": expected "@ + expected)
                &&& text::occurs(e.message(), ", found "@ + found)
            },
            ErrorView::SourcePackAssetInvalid { asset, reason } => {
                &&& text::has_prefix(e.message(), "embedded source pack asset '"@ + asset)
                &&& text::occurs(e.message(), "' is invalid: "@ + reason)
            },
            ErrorView::ResponseTooLarge { operation, limit_bytes } => {
                &&& text::has_prefix(e.message(), "Open Connector "@ + operation)
                &&& text::occurs(
                    e.message(),
                    " response exceeded the "@ + text::decimal(limit_bytes as nat),
                )
            },
            ErrorView::InvalidGatewayResponse { operation, reason } => {
                &&& text::has_prefix(e.message(), "Open Connector "@ + operation)
                &&& text::occurs(e.message(), " returned an invalid response: "@ + reason)
            },
            _ => true,
        },
{
    match e {
        ErrorView::ConversionFailed { path, column, page, row, expected, found } => twelve_pieces_are_told(
            "Open Connector conversion failed for column '"@,
            column,
            "' (path '"@,
            path,
            "') at page "@,
            text::decimal(page as nat),
            ", row "@,
            text::decimal(row as nat),
            ": expected "@,
            expected,
            ", found "@,
            found,
        ),
        ErrorView::SourcePackAssetInvalid { asset, reason } => four_pieces_are_told(
            "embedded source pack asset '"@,
            asset,
            "' is invalid: "@,
            reason,
        ),
        ErrorView::ResponseTooLarge { operation, limit_bytes } => five_pieces_are_told(
            "Open Connector "@,
            operation,
            " response exceeded the "@,
            text::decimal(limit_bytes as nat),
            "-byte bound"@,
        ),
        ErrorView::InvalidGatewayResponse { operation, reason } => four_pieces_are_told(
            "Open Connector "@,
            operation,
            " returned an invalid response: "@,
            reason,
        ),
        _ => {},
    }
}

/// The words of an error about a raw scan begin with what it is about and
/// tell every part of it, numbers in decimal, behind the words that introduce it.
pub proof fn raw_scan_errors_tell_their_parts(e: ErrorView)
    ensures
        match e {
            ErrorView::UdtfGatewayNotRegistered { name } => {
                &&& text::has_prefix(e.message(), "Open Connector gateway '"@ + name)
            },
            ErrorView::ActionNotDiscovered { gateway, action_id } => {
                &&& text::has_prefix(e.message(), "Open Connector action '"@ + action_id)
                &&& text::occurs(e.message(), "' was not discovered when gateway '"@ + gateway)
            },
            ErrorView::RawActionNotAllowlisted { gateway, action_id } => {
                &&& text::has_prefix(e.message(), "Open Connector action '"@ + action_id)
                &&& text::occurs(
                    e.message(),
                    "' is not in the 'raw_action_allowlist' of gateway '"@ + gateway,
                )
            },
            ErrorView::RawActionMutating { action_id } => {
                &&& text::has_prefix(e.message(), "Open Connector action '"@ + action_id)
            },
            ErrorView::RawActionReadOnlyUnknown { action_id } => {
                &&& text::has_prefix(e.message(), "Open Connector action '"@ + action_id)
            },
            ErrorView::RawRowTypeIndeterminate { action_id, row_path, reason } => {
                &&& text::has_prefix(
                    e.message(),
                    "Open Connector raw scan of action '"@ + action_id,
                )
                &&& text::occurs(
                    e.message(),
                    "' cannot derive a deterministic row type at '"@ + row_path,
                )
                &&& text::occurs(e.message(), "': "@ + reason)
            },
            _ => true,
        },
{
    match e {
        ErrorView::UdtfGatewayNotRegistered { name } => three_pieces_are_told(
            "Open Connector gateway '"@,
            name,
            "' is not registered; the first UDTF argument must name a 'type: open_connector' data source from the context configuration"@,
        ),
        ErrorView::ActionNotDiscovered { gateway, action_id } => five_pieces_are_told(
            "Open Connector action '"@,
            action_id,
            "' was not discovered when gateway '"@,
            gateway,
            "' was registered; bind its source-pack table in the context YAML or add the action to 'raw_action_allowlist' (query planning never contacts the gateway)"@,
        ),
        ErrorView::RawActionNotAllowlisted { gateway, action_id } => five_pieces_are_told(
            "Open Connector action '"@,
            action_id,
            "' is not in the 'raw_action_allowlist' of gateway '"@,
            gateway,
            "'; open_connector_scan executes explicitly allowlisted actions only (default-deny)"@,
        ),
        ErrorView::RawActionMutating { action_id } => three_pieces_are_told(
            "Open Connector action '"@,
            action_id,
            "' is classified as mutating by its gateway metadata; open_connector_scan executes non-mutating reads only"@,
        ),
        ErrorView::RawActionReadOnlyUnknown { action_id } => three_pieces_are_told(
            "Open Connector action '"@,
            action_id,
            "' does not declare a read-only classification in its gateway metadata; refusing to execute it (default-deny — the allowlist alone does not grant execution)"@,
        ),
        ErrorView::RawRowTypeIndeterminate { action_id, row_path, reason } => seven_pieces_are_told(
            "Open Connector raw scan of action '"@,
            action_id,
            "' cannot derive a deterministic row type at '"@,
            row_path,
            "': "@,
            reason,
            "; use a built-in source-pack table (open_connector_query) or contribute a source-pack definition instead"@,
        ),
        _ => {},
    }
}

} // verus!
