//! What can be wrong with the configuration of the server.
use vstd::prelude::*;

use crate::server::data_source;
use crate::server::data_source::DataSourceType;

verus! {

/// A failure to load the configuration. Paths are given as they are displayed.
#[derive(Debug)]
pub enum ConfigError {
    /// A pipeline file does not exist.
    PipelineFileNotFound { path: String },
    /// A pipeline directory does not exist.
    PipelineDirectoryNotFound { path: String },
    /// A directory holds no pipeline files.
    NoPipelineFilesInDirectory { path: String },
    /// The context file does not exist.
    ContextFileNotFound { path: String },
    /// The context file is not what it should be.
    InvalidContextYaml { error: String },
    /// A source's file does not exist.
    DataSourceFileNotFound { name: String, path: String },
    /// Two sources share a name.
    DuplicateDataSourceName { name: String },
    /// A source could not be registered.
    DataSourceRegistrationFailed { name: String, error: String },
    /// A schema names a type that there is not.
    InvalidSchemaType { field: String, type_text: String },
    /// A database source has no connection string.
    MissingConnectionString { name: String },
    /// A PostgreSQL source could not be registered.
    PostgresConnectionFailed { name: String, error: String },
    /// A MySQL source could not be registered.
    MySQLConnectionFailed { name: String, error: String },
    /// A SQLite source could not be registered.
    SQLiteConnectionFailed { name: String, error: String },
    /// A SeekDB source could not be registered.
    SeekDbConnectionFailed { name: String, error: String },
    /// A remote path is not one.
    InvalidS3Path { path: String },
    /// A remote source lacks part of its configuration.
    MissingAwsConfig { name: String, field: String },
    /// The store of a remote source could not be set up.
    S3ObjectStoreRegistrationFailed { name: String, error: String },
    /// A source asks for writes that its type cannot do.
    UnsupportedWriteMode { name: String, source_type: DataSourceType },
    /// A statement defines data.
    DdlOperationNotAllowed { operation: String, table_name: String },
    /// A statement writes to a source that may only be read.
    WriteOperationNotAllowed { table_name: String },
    /// A catalog has an option that only a table can have.
    CatalogModeConflictingOptions { name: String, option: String },
    /// A list of schemas is given and names none.
    EmptyAllowedSchemas { name: String },
    /// A list of tables is given and names none.
    EmptyAllowedTables { name: String },
    /// A gateway source has no gateway block.
    MissingOpenConnectorConfig { name: String },
    /// A source of another type has a gateway block.
    UnexpectedOpenConnectorConfig { name: String, source_type: DataSourceType },
    /// A gateway block is not valid.
    InvalidOpenConnectorConfig { name: String, reason: String },
    /// A gateway source is not a catalog.
    OpenConnectorHierarchyRequired { name: String },
    /// A path is not text; it is given as it is shown to developers.
    NonUtf8Path { name: String, path: String },
}

/// The model of a [`ConfigError`].
pub enum ConfigErrorView {
    PipelineFileNotFound { path: Seq<char> },
    PipelineDirectoryNotFound { path: Seq<char> },
    NoPipelineFilesInDirectory { path: Seq<char> },
    ContextFileNotFound { path: Seq<char> },
    InvalidContextYaml { error: Seq<char> },
    DataSourceFileNotFound { name: Seq<char>, path: Seq<char> },
    DuplicateDataSourceName { name: Seq<char> },
    DataSourceRegistrationFailed { name: Seq<char>, error: Seq<char> },
    InvalidSchemaType { field: Seq<char>, type_text: Seq<char> },
    MissingConnectionString { name: Seq<char> },
    PostgresConnectionFailed { name: Seq<char>, error: Seq<char> },
    MySQLConnectionFailed { name: Seq<char>, error: Seq<char> },
    SQLiteConnectionFailed { name: Seq<char>, error: Seq<char> },
    SeekDbConnectionFailed { name: Seq<char>, error: Seq<char> },
    InvalidS3Path { path: Seq<char> },
    MissingAwsConfig { name: Seq<char>, field: Seq<char> },
    S3ObjectStoreRegistrationFailed { name: Seq<char>, error: Seq<char> },
    UnsupportedWriteMode { name: Seq<char>, source_type: DataSourceType },
    DdlOperationNotAllowed { operation: Seq<char>, table_name: Seq<char> },
    WriteOperationNotAllowed { table_name: Seq<char> },
    CatalogModeConflictingOptions { name: Seq<char>, option: Seq<char> },
    EmptyAllowedSchemas { name: Seq<char> },
    EmptyAllowedTables { name: Seq<char> },
    MissingOpenConnectorConfig { name: Seq<char> },
    UnexpectedOpenConnectorConfig { name: Seq<char>, source_type: DataSourceType },
    InvalidOpenConnectorConfig { name: Seq<char>, reason: Seq<char> },
    OpenConnectorHierarchyRequired { name: Seq<char> },
    NonUtf8Path { name: Seq<char>, path: Seq<char> },
}

impl View for ConfigError {
    type V = ConfigErrorView;

    open spec fn view(&self) -> ConfigErrorView {
        match self {
            ConfigError::PipelineFileNotFound { path } => ConfigErrorView::PipelineFileNotFound {
                path: path@,
            },
            ConfigError::PipelineDirectoryNotFound { path } => ConfigErrorView::PipelineDirectoryNotFound {
                path: path@,
            },
            ConfigError::NoPipelineFilesInDirectory { path } => ConfigErrorView::NoPipelineFilesInDirectory {
                path: path@,
            },
            ConfigError::ContextFileNotFound { path } => ConfigErrorView::ContextFileNotFound {
                path: path@,
            },
            ConfigError::InvalidContextYaml { error } => ConfigErrorView::InvalidContextYaml {
                error: error@,
            },
            ConfigError::DataSourceFileNotFound { name, path } => ConfigErrorView::DataSourceFileNotFound {
                name: name@,
                path: path@,
            },
            ConfigError::DuplicateDataSourceName { name } => ConfigErrorView::DuplicateDataSourceName {
                name: name@,
            },
            ConfigError::DataSourceRegistrationFailed { name, error } => ConfigErrorView::DataSourceRegistrationFailed {
                name: name@,
                error: error@,
            },
            ConfigError::InvalidSchemaType { field, type_text } => ConfigErrorView::InvalidSchemaType {
                field: field@,
                type_text: type_text@,
            },
            ConfigError::MissingConnectionString { name } => ConfigErrorView::MissingConnectionString {
                name: name@,
            },
            ConfigError::PostgresConnectionFailed { name, error } => ConfigErrorView::PostgresConnectionFailed {
                name: name@,
                error: error@,
            },
            ConfigError::MySQLConnectionFailed { name, error } => ConfigErrorView::MySQLConnectionFailed {
                name: name@,
                error: error@,
            },
            ConfigError::SQLiteConnectionFailed { name, error } => ConfigErrorView::SQLiteConnectionFailed {
                name: name@,
                error: error@,
            },
            ConfigError::SeekDbConnectionFailed { name, error } => ConfigErrorView::SeekDbConnectionFailed {
                name: name@,
                error: error@,
            },
            ConfigError::InvalidS3Path { path } => ConfigErrorView::InvalidS3Path {
                path: path@,
            },
            ConfigError::MissingAwsConfig { name, field } => ConfigErrorView::MissingAwsConfig {
                name: name@,
                field: field@,
            },
            ConfigError::S3ObjectStoreRegistrationFailed { name, error } => ConfigErrorView::S3ObjectStoreRegistrationFailed {
                name: name@,
                error: error@,
            },
            ConfigError::UnsupportedWriteMode { name, source_type } => ConfigErrorView::UnsupportedWriteMode {
                name: name@,
                source_type: *source_type,
            },
            ConfigError::DdlOperationNotAllowed { operation, table_name } => ConfigErrorView::DdlOperationNotAllowed {
                operation: operation@,
                table_name: table_name@,
            },
            ConfigError::WriteOperationNotAllowed { table_name } => ConfigErrorView::WriteOperationNotAllowed {
                table_name: table_name@,
            },
            ConfigError::CatalogModeConflictingOptions { name, option } => ConfigErrorView::CatalogModeConflictingOptions {
                name: name@,
                option: option@,
            },
            ConfigError::EmptyAllowedSchemas { name } => ConfigErrorView::EmptyAllowedSchemas {
                name: name@,
            },
            ConfigError::EmptyAllowedTables { name } => ConfigErrorView::EmptyAllowedTables {
                name: name@,
            },
            ConfigError::MissingOpenConnectorConfig { name } => ConfigErrorView::MissingOpenConnectorConfig {
                name: name@,
            },
            ConfigError::UnexpectedOpenConnectorConfig { name, source_type } => ConfigErrorView::UnexpectedOpenConnectorConfig {
                name: name@,
                source_type: *source_type,
            },
            ConfigError::InvalidOpenConnectorConfig { name, reason } => ConfigErrorView::InvalidOpenConnectorConfig {
                name: name@,
                reason: reason@,
            },
            ConfigError::OpenConnectorHierarchyRequired { name } => ConfigErrorView::OpenConnectorHierarchyRequired {
                name: name@,
            },
            ConfigError::NonUtf8Path { name, path } => ConfigErrorView::NonUtf8Path {
                name: name@,
                path: path@,
            },
        }
    }
}

impl ConfigErrorView {
    /// The message that an operator reads.
    pub open spec fn message(self) -> Seq<char> {
        match self {
            ConfigErrorView::PipelineFileNotFound { path } => {
                "Pipeline file not found: "@
                    + path
            },
            ConfigErrorView::PipelineDirectoryNotFound { path } => {
                "Pipeline directory not found: "@
                    + path
            },
            ConfigErrorView::NoPipelineFilesInDirectory { path } => {
                "No pipeline files found in directory: "@
                    + path
            },
            ConfigErrorView::ContextFileNotFound { path } => {
                "Context file not found: "@
                    + path
            },
            ConfigErrorView::InvalidContextYaml { error } => {
                "Invalid YAML in context file: "@
                    + error
            },
            ConfigErrorView::DataSourceFileNotFound { name, path } => {
                "Data source file not found: "@
                    + name
                    + " -> "@
                    + path
            },
            ConfigErrorView::DuplicateDataSourceName { name } => {
                "Duplicate data source name: "@
                    + name
            },
            ConfigErrorView::DataSourceRegistrationFailed { name, error } => {
                "Data source registration failed: "@
                    + name
                    + " - "@
                    + error
            },
            ConfigErrorView::InvalidSchemaType { field, type_text } => {
                "Invalid schema type: "@
                    + field
                    + " -> "@
                    + type_text
            },
            ConfigErrorView::MissingConnectionString { name } => {
                "Missing connection string for data source: "@
                    + name
            },
            ConfigErrorView::PostgresConnectionFailed { name, error } => {
                "PostgreSQL connection failed: "@
                    + name
                    + " - "@
                    + error
            },
            ConfigErrorView::MySQLConnectionFailed { name, error } => {
                "MySQL connection failed: "@
                    + name
                    + " - "@
                    + error
            },
            ConfigErrorView::SQLiteConnectionFailed { name, error } => {
                "SQLite connection failed: "@
                    + name
                    + " - "@
                    + error
            },
            ConfigErrorView::SeekDbConnectionFailed { name, error } => {
                "SeekDB connection failed: "@
                    + name
                    + " - "@
                    + error
            },
            ConfigErrorView::InvalidS3Path { path } => {
                "S3 path must start with 's3://' prefix: "@
                    + path
            },
            ConfigErrorView::MissingAwsConfig { name, field } => {
                "Missing required AWS configuration for S3 data source: "@
                    + name
                    + " - missing "@
                    + field
            },
            ConfigErrorView::S3ObjectStoreRegistrationFailed { name, error } => {
                "S3 object store registration failed: "@
                    + name
                    + " - "@
                    + error
            },
            ConfigErrorView::UnsupportedWriteMode { name, source_type } => {
                "Data source '"@
                    + name
                    + "' has access_mode 'read_write' but type '"@
                    + data_source::variant_name(source_type)
                    + "' does not support write operations. Only 'postgres', 'mysql', 'sqlite', 'mongo', 'redis', 'seekdb', and 'dynamodb' sources support read_write mode."@
            },
            ConfigErrorView::DdlOperationNotAllowed { operation, table_name } => {
                "DDL operation not allowed: "@
                    + operation
                    + " on data source '"@
                    + table_name
                    + "'. DDL operations (CREATE, DROP, ALTER, etc.) are not permitted."@
            },
            ConfigErrorView::WriteOperationNotAllowed { table_name } => {
                "Write operation not allowed on data source '"@
                    + table_name
                    + "'. The data source is configured with 'read_only' access mode. Set access_mode to 'read_write' to enable write operations."@
            },
            ConfigErrorView::CatalogModeConflictingOptions { name, option } => {
                "Data source '"@
                    + name
                    + "' uses hierarchy_level 'catalog' but also specifies the '"@
                    + option
                    + "' option. In catalog mode use 'allowed_schemas' to filter schemas; 'table' and 'schema' are not allowed."@
            },
            ConfigErrorView::EmptyAllowedSchemas { name } => {
                "Data source '"@
                    + name
                    + "' has an empty 'allowed_schemas' option. Either omit it to load all schemas, or provide a non-empty comma-separated list such as \"public,analytics\"."@
            },
            ConfigErrorView::EmptyAllowedTables { name } => {
                "Data source '"@
                    + name
                    + "' has an empty 'allowed_tables' option. Either omit it to load all DynamoDB tables, or provide a non-empty comma-separated list such as \"products,orders\"."@
            },
            ConfigErrorView::MissingOpenConnectorConfig { name } => {
                "Data source '"@
                    + name
                    + "' has type 'open_connector' but no 'open_connector' config block. The typed gateway configuration (runtime_token_env, bindings, …) is required."@
            },
            ConfigErrorView::UnexpectedOpenConnectorConfig { name, source_type } => {
                "Data source '"@
                    + name
                    + "' sets an 'open_connector' config block but its type is '"@
                    + data_source::type_text(source_type)
                    + "'. The 'open_connector' field is only valid for type 'open_connector'."@
            },
            ConfigErrorView::InvalidOpenConnectorConfig { name, reason } => {
                "Data source '"@
                    + name
                    + "' has an invalid 'open_connector' config: "@
                    + reason
            },
            ConfigErrorView::OpenConnectorHierarchyRequired { name } => {
                "Data source '"@
                    + name
                    + "' has type 'open_connector' but does not set hierarchy_level to 'catalog'. Open Connector gateways are exposed as DataFusion catalogs; add `hierarchy_level: catalog`."@
            },
            ConfigErrorView::NonUtf8Path { name, path } => {
                "Data source '"@
                    + name
                    + "' has a non-UTF8 path: "@
                    + path
            },
        }
    }
}

impl ConfigError {
    /// The message that an operator reads.
    pub fn message(&self) -> (s: String)
        ensures
            s@ == self@.message(),
    {
        match self {
            ConfigError::PipelineFileNotFound { path } => {
                let mut s = "Pipeline file not found: ".to_owned();
                s.append(path.as_str());
                s
            },
            ConfigError::PipelineDirectoryNotFound { path } => {
                let mut s = "Pipeline directory not found: ".to_owned();
                s.append(path.as_str());
                s
            },
            ConfigError::NoPipelineFilesInDirectory { path } => {
                let mut s = "No pipeline files found in directory: ".to_owned();
                s.append(path.as_str());
                s
            },
            ConfigError::ContextFileNotFound { path } => {
                let mut s = "Context file not found: ".to_owned();
                s.append(path.as_str());
                s
            },
            ConfigError::InvalidContextYaml { error } => {
                let mut s = "Invalid YAML in context file: ".to_owned();
                s.append(error.as_str());
                s
            },
            ConfigError::DataSourceFileNotFound { name, path } => {
                let mut s = "Data source file not found: ".to_owned();
                s.append(name.as_str());
                s.append(" -> ");
                s.append(path.as_str());
                s
            },
            ConfigError::DuplicateDataSourceName { name } => {
                let mut s = "Duplicate data source name: ".to_owned();
                s.append(name.as_str());
                s
            },
            ConfigError::DataSourceRegistrationFailed { name, error } => {
                let mut s = "Data source registration failed: ".to_owned();
                s.append(name.as_str());
                s.append(" - ");
                s.append(error.as_str());
                s
            },
            ConfigError::InvalidSchemaType { field, type_text } => {
                let mut s = "Invalid schema type: ".to_owned();
                s.append(field.as_str());
                s.append(" -> ");
                s.append(type_text.as_str());
                s
            },
            ConfigError::MissingConnectionString { name } => {
                let mut s = "Missing connection string for data source: ".to_owned();
                s.append(name.as_str());
                s
            },
            ConfigError::PostgresConnectionFailed { name, error } => {
                let mut s = "PostgreSQL connection failed: ".to_owned();
                s.append(name.as_str());
                s.append(" - ");
                s.append(error.as_str());
                s
            },
            ConfigError::MySQLConnectionFailed { name, error } => {
                let mut s = "MySQL connection failed: ".to_owned();
                s.append(name.as_str());
                s.append(" - ");
                s.append(error.as_str());
                s
            },
            ConfigError::SQLiteConnectionFailed { name, error } => {
                let mut s = "SQLite connection failed: ".to_owned();
                s.append(name.as_str());
                s.append(" - ");
                s.append(error.as_str());
                s
            },
            ConfigError::SeekDbConnectionFailed { name, error } => {
                let mut s = "SeekDB connection failed: ".to_owned();
                s.append(name.as_str());
                s.append(" - ");
                s.append(error.as_str());
                s
            },
            ConfigError::InvalidS3Path { path } => {
                let mut s = "S3 path must start with 's3://' prefix: ".to_owned();
                s.append(path.as_str());
                s
            },
            ConfigError::MissingAwsConfig { name, field } => {
                let mut s = "Missing required AWS configuration for S3 data source: ".to_owned();
                s.append(name.as_str());
                s.append(" - missing ");
                s.append(field.as_str());
                s
            },
            ConfigError::S3ObjectStoreRegistrationFailed { name, error } => {
                let mut s = "S3 object store registration failed: ".to_owned();
                s.append(name.as_str());
                s.append(" - ");
                s.append(error.as_str());
                s
            },
            ConfigError::UnsupportedWriteMode { name, source_type } => {
                let mut s = "Data source '".to_owned();
                s.append(name.as_str());
                s.append("' has access_mode 'read_write' but type '");
                s.append(source_type.variant());
                s.append("' does not support write operations. Only 'postgres', 'mysql', 'sqlite', 'mongo', 'redis', 'seekdb', and 'dynamodb' sources support read_write mode.");
                s
            },
            ConfigError::DdlOperationNotAllowed { operation, table_name } => {
                let mut s = "DDL operation not allowed: ".to_owned();
                s.append(operation.as_str());
                s.append(" on data source '");
                s.append(table_name.as_str());
                s.append("'. DDL operations (CREATE, DROP, ALTER, etc.) are not permitted.");
                s
            },
            ConfigError::WriteOperationNotAllowed { table_name } => {
                let mut s = "Write operation not allowed on data source '".to_owned();
                s.append(table_name.as_str());
                s.append("'. The data source is configured with 'read_only' access mode. Set access_mode to 'read_write' to enable write operations.");
                s
            },
            ConfigError::CatalogModeConflictingOptions { name, option } => {
                let mut s = "Data source '".to_owned();
                s.append(name.as_str());
                s.append("' uses hierarchy_level 'catalog' but also specifies the '");
                s.append(option.as_str());
                s.append("' option. In catalog mode use 'allowed_schemas' to filter schemas; 'table' and 'schema' are not allowed.");
                s
            },
            ConfigError::EmptyAllowedSchemas { name } => {
                let mut s = "Data source '".to_owned();
                s.append(name.as_str());
                s.append("' has an empty 'allowed_schemas' option. Either omit it to load all schemas, or provide a non-empty comma-separated list such as \"public,analytics\".");
                s
            },
            ConfigError::EmptyAllowedTables { name } => {
                let mut s = "Data source '".to_owned();
                s.append(name.as_str());
                s.append("' has an empty 'allowed_tables' option. Either omit it to load all DynamoDB tables, or provide a non-empty comma-separated list such as \"products,orders\".");
                s
            },
            ConfigError::MissingOpenConnectorConfig { name } => {
                let mut s = "Data source '".to_owned();
                s.append(name.as_str());
                s.append("' has type 'open_connector' but no 'open_connector' config block. The typed gateway configuration (runtime_token_env, bindings, …) is required.");
                s
            },
            ConfigError::UnexpectedOpenConnectorConfig { name, source_type } => {
                let mut s = "Data source '".to_owned();
                s.append(name.as_str());
                s.append("' sets an 'open_connector' config block but its type is '");
                s.append(source_type.as_str());
                s.append("'. The 'open_connector' field is only valid for type 'open_connector'.");
                s
            },
            ConfigError::InvalidOpenConnectorConfig { name, reason } => {
                let mut s = "Data source '".to_owned();
                s.append(name.as_str());
                s.append("' has an invalid 'open_connector' config: ");
                s.append(reason.as_str());
                s
            },
            ConfigError::OpenConnectorHierarchyRequired { name } => {
                let mut s = "Data source '".to_owned();
                s.append(name.as_str());
                s.append("' has type 'open_connector' but does not set hierarchy_level to 'catalog'. Open Connector gateways are exposed as DataFusion catalogs; add `hierarchy_level: catalog`.");
                s
            },
            ConfigError::NonUtf8Path { name, path } => {
                let mut s = "Data source '".to_owned();
                s.append(name.as_str());
                s.append("' has a non-UTF8 path: ");
                s.append(path.as_str());
                s
            },
        }
    }
}

} // verus!
