//! What can go wrong while an Open Connector gateway is configured, bound and
//! scanned.
use vstd::prelude::*;

use crate::text;

verus! {

/// A failure of the Open Connector integration. The variants on configuration
/// and registration arise before any request is sent.
#[derive(Debug)]
pub enum OpenConnectorError {
    /// `runtime_token_env` was empty or whitespace-only.
    EmptyRuntimeTokenEnv,
    /// The gateway URL (`connection_string`) was empty or whitespace-only.
    EmptyGatewayUrl { name: String },
    /// A binding had an empty or whitespace-only name.
    EmptyBindingName,
    /// Two bindings share a name; binding names become schema names in the
    /// gateway catalog and must be unique.
    DuplicateBindingName { name: String },
    /// A binding did not name its source pack.
    EmptySourcePack { binding: String },
    /// A binding exposed no tables.
    EmptyTableList { binding: String },
    /// A binding listed an empty table name.
    EmptyTableName { binding: String },
    /// A binding listed the same table twice.
    DuplicateTableName { binding: String, table: String },
    /// `raw_action_allowlist` contained an empty entry.
    EmptyAllowlistEntry,
    /// A safety bound (`max_pages` / `max_rows`) was set to zero, which would
    /// make every scan fail.
    ZeroSafetyBound { field: &'static str },
    /// The source was registered with `hierarchy_level: table`; a gateway is
    /// always exposed as a catalog.
    CatalogHierarchyRequired { name: String },
    /// The source requested `read_write` access; the integration is read-only
    /// (milestone one exposes no mutating actions).
    ReadWriteNotSupported { name: String },
    /// The data source has no `open_connector` config block at all.
    MissingConfig { name: String },
    /// The environment variable holding the gateway runtime token was unset.
    MissingRuntimeToken { env: String },
    /// The runtime token is not usable as an HTTP header value — the classic
    /// cause is a trailing newline from `export TOKEN="$(cat token.txt)"`.
    /// Checked at client construction so a malformed credential fails fast
    /// with the actual cause instead of three retried "builder error"s.
    InvalidRuntimeToken { env: String, reason: String },
    /// reqwest could not build the request (e.g. an illegal header value).
    /// A permanent client-side failure — never retried.
    RequestBuildFailed { operation: String, reason: String },
    /// The gateway URL used a non-HTTP(S) scheme or embedded credentials.
    InvalidGatewayUrl { url: String },
    /// The gateway URL carried a query string or fragment. Neither has any
    /// meaning for a base URL, and query strings are a classic way to smuggle
    /// tokens (`?token=…`, `?access_token=…`) into logs, `Debug` output, and
    /// the data-sources API response.
    GatewayUrlWithQueryOrFragment { url: String },
    /// `reqwest::Client` construction failed.
    HttpClientBuild { reason: String },
    /// The gateway health check returned a terminal (non-retryable) failure.
    HealthCheckFailed { url: String, reason: String },
    /// The gateway answered action discovery with 404.
    ActionNotFound { action_id: String },
    /// Action discovery failed for a reason other than "not found".
    ActionDiscoveryFailed { action_id: String, reason: String },
    /// The action exists but cannot execute on this gateway runtime.
    ActionNotLocallyExecutable { action_id: String },
    /// The gateway omitted the executability flag entirely; default-deny
    /// treats "did not say" as "not executable".
    ActionExecutabilityUnknown { action_id: String },
    /// An action ID could escape the `/v1/actions/` namespace: `/` moves
    /// path segments, and a bare `.` / `..` is resolved away by `Url::join`
    /// even after percent-encoding (dots are preserved by the encode set).
    InvalidActionId { action_id: String, reason: String },
    /// An action execution call returned a terminal (non-retryable) failure.
    ActionExecutionFailed { action_id: String, reason: String },
    /// Retries on 429 / transient 5xx / transport errors were exhausted.
    RetriesExhausted { operation: String, attempts: u32, reason: String },
    /// A non-idempotent call (POST execute) failed with an ambiguous
    /// transport error: the request may have reached the gateway, so the
    /// client does not retry it — re-sending could re-execute the action
    /// against the SaaS provider.
    NonIdempotentAmbiguousFailure { operation: String, reason: String },
    /// The provider reported an in-band error inside an otherwise
    /// successful response envelope — Slack's HTTP-200 `ok: false` +
    /// `error` pattern. The code is a short provider-authored identifier
    /// (`missing_scope`, `not_authed`), bounded before display.
    ProviderReportedError { action_id: String, page: usize, code: String },
    /// A declared total-pages location resolved to a non-numeric value, so
    /// the scan cannot know when the collection ends.
    PaginationTotalInvalid { path: String, page: usize, found: String },
    /// The declared raw-page-size signal was present but not a non-negative
    /// integer. Treating it as anything else would either truncate the scan
    /// or loop it; carries the JSON *kind* only, never the value.
    PaginationRawPageSizeInvalid { path: String, page: usize, found: String },
    /// A continuation cursor was present at the declared path but was not a
    /// string. Treating it as end-of-collection would silently truncate the
    /// scan, so it fails instead. Carries the JSON *kind* only, never the
    /// value.
    PaginationCursorInvalid { path: String, page: usize, found: String },
    /// The declared has-more signal was absent or not a boolean. Guessing
    /// either way could truncate or loop the scan; carries the JSON *kind*
    /// only, never the value.
    PaginationHasMoreInvalid { path: String, page: usize, found: String },
    /// Pagination failed to advance: the gateway returned an already-seen
    /// cursor, which would loop the scan forever.
    PaginationLoop { token: String },
    /// A binding named a source pack that is not built in.
    SourcePackNotFound { name: String },
    /// A binding exposed a table the source pack does not define.
    SourcePackTableNotFound { pack: String, table: String },
    /// A short table name matched more than one table in the pack;
    /// first-match would silently bind the wrong relational contract.
    SourcePackTableAmbiguous { pack: String, table: String, candidates: String },
    /// A binding pinned a source-pack version that is not the built-in one.
    SourcePackVersionMismatch { pack: String, pinned: u32, actual: u32 },
    /// A binding omitted a resource input the source-pack table requires.
    MissingResourceInput { binding: String, key: String },
    /// A binding set a resource value to null, which would satisfy the
    /// required-key presence check while sending `null` to the gateway.
    NullResourceValue { binding: String, key: String },
    /// A binding supplied a resource key that none of its bound tables
    /// declare. Requests carry only declared keys (the gateway's strict
    /// action schemas reject the rest), so an unconsumed key is dead
    /// configuration — most likely a typo — and fails registration.
    UnknownResourceKey { binding: String, key: String },
    /// The discovered action contract does not match the source pack's
    /// expected fingerprint — the upstream action changed incompatibly.
    ActionContractMismatch { table: String, reason: String },
    /// Assembling the DataFusion catalog/schema failed (e.g. a duplicate
    /// registration). An internal consistency error, unrelated to the action
    /// contract.
    CatalogRegistrationFailed { name: String, reason: String },
    /// A scan hit a safety bound before the collection was exhausted, so the
    /// result would be incomplete — fail rather than return partial rows.
    ScanBoundsExceeded { table: String, bound: &'static str, limit: u64 },
    /// A scan exceeded its total time budget.
    ScanTimeout { table: String, seconds: u64 },
    /// A row path was malformed (must be `$.key[.key…]` object-key segments).
    InvalidRowPath { path: String, reason: String },
    /// A row path segment was absent from its parent object while extracting
    /// rows from a page. Absence is a *missing* key (nullable columns become
    /// null) — not a structural change.
    RowPathNotFound { path: String, segment: String, page: usize },
    /// A row path had to traverse into a value that is not an object — a
    /// structural mismatch (e.g. `user` changed from object to string
    /// upstream), which must fail even for nullable columns.
    RowPathNotObject {
        path: String,
        segment: String,
        page: usize,
        found: String,
    },
    /// The row path resolved to a non-array value; relational rows must be an
    /// array of objects.
    RowPathNotArray { path: String, page: usize, found: String },
    /// A row could not be converted to the table's fixed Arrow schema. The
    /// `found` carries the JSON *kind* only — never the value itself, which
    /// may contain sensitive data.
    ConversionFailed {
        path: String,
        column: String,
        page: usize,
        row: usize,
        expected: String,
        found: String,
    },
    /// An embedded source-pack asset failed to parse or validate. A build
    /// defect (assets ship inside the binary), surfaced as a registration /
    /// UDTF-setup diagnostic instead of a panic.
    SourcePackAssetInvalid { asset: String, reason: String },
    /// A response body grew past the configured decoding bound.
    ResponseTooLarge { operation: String, limit_bytes: usize },
    /// A response was not the JSON shape the client contract expects.
    InvalidGatewayResponse { operation: String, reason: String },
    /// A UDTF named a gateway that is not a registered `open_connector` data
    /// source (or whose registration failed).
    UdtfGatewayNotRegistered { name: String },
    /// A UDTF referenced an action whose metadata was never discovered.
    /// Discovery happens only at registration (query planning performs no
    /// network I/O), and only for bound source-pack tables and allowlisted
    /// raw actions.
    ActionNotDiscovered { gateway: String, action_id: String },
    /// `open_connector_scan` was called with an action outside the gateway's
    /// `raw_action_allowlist`. Raw-action access is default-deny.
    RawActionNotAllowlisted { gateway: String, action_id: String },
    /// An allowlisted raw action's metadata classifies it as mutating.
    /// The allowlist alone never grants execution.
    RawActionMutating { action_id: String },
    /// An allowlisted raw action's metadata does not say whether it mutates;
    /// default-deny refuses to execute it, naming the classification gap.
    RawActionReadOnlyUnknown { action_id: String },
    /// A raw scan's row path does not resolve to a deterministic object row
    /// type in the discovered action output schema, so no stable Arrow
    /// schema can be planned.
    RawRowTypeIndeterminate { action_id: String, row_path: String, reason: String },
}

/// The model of an [`OpenConnectorError`].
pub enum ErrorView {
    EmptyRuntimeTokenEnv,
    EmptyGatewayUrl { name: Seq<char> },
    EmptyBindingName,
    DuplicateBindingName { name: Seq<char> },
    EmptySourcePack { binding: Seq<char> },
    EmptyTableList { binding: Seq<char> },
    EmptyTableName { binding: Seq<char> },
    DuplicateTableName { binding: Seq<char>, table: Seq<char> },
    EmptyAllowlistEntry,
    ZeroSafetyBound { field: Seq<char> },
    CatalogHierarchyRequired { name: Seq<char> },
    ReadWriteNotSupported { name: Seq<char> },
    MissingConfig { name: Seq<char> },
    MissingRuntimeToken { env: Seq<char> },
    InvalidRuntimeToken { env: Seq<char>, reason: Seq<char> },
    RequestBuildFailed { operation: Seq<char>, reason: Seq<char> },
    InvalidGatewayUrl { url: Seq<char> },
    GatewayUrlWithQueryOrFragment { url: Seq<char> },
    HttpClientBuild { reason: Seq<char> },
    HealthCheckFailed { url: Seq<char>, reason: Seq<char> },
    ActionNotFound { action_id: Seq<char> },
    ActionDiscoveryFailed { action_id: Seq<char>, reason: Seq<char> },
    ActionNotLocallyExecutable { action_id: Seq<char> },
    ActionExecutabilityUnknown { action_id: Seq<char> },
    InvalidActionId { action_id: Seq<char>, reason: Seq<char> },
    ActionExecutionFailed { action_id: Seq<char>, reason: Seq<char> },
    RetriesExhausted { operation: Seq<char>, attempts: u32, reason: Seq<char> },
    NonIdempotentAmbiguousFailure { operation: Seq<char>, reason: Seq<char> },
    ProviderReportedError { action_id: Seq<char>, page: usize, code: Seq<char> },
    PaginationTotalInvalid { path: Seq<char>, page: usize, found: Seq<char> },
    PaginationRawPageSizeInvalid { path: Seq<char>, page: usize, found: Seq<char> },
    PaginationCursorInvalid { path: Seq<char>, page: usize, found: Seq<char> },
    PaginationHasMoreInvalid { path: Seq<char>, page: usize, found: Seq<char> },
    PaginationLoop { token: Seq<char> },
    SourcePackNotFound { name: Seq<char> },
    SourcePackTableNotFound { pack: Seq<char>, table: Seq<char> },
    SourcePackTableAmbiguous { pack: Seq<char>, table: Seq<char>, candidates: Seq<char> },
    SourcePackVersionMismatch { pack: Seq<char>, pinned: u32, actual: u32 },
    MissingResourceInput { binding: Seq<char>, key: Seq<char> },
    NullResourceValue { binding: Seq<char>, key: Seq<char> },
    UnknownResourceKey { binding: Seq<char>, key: Seq<char> },
    ActionContractMismatch { table: Seq<char>, reason: Seq<char> },
    CatalogRegistrationFailed { name: Seq<char>, reason: Seq<char> },
    ScanBoundsExceeded { table: Seq<char>, bound: Seq<char>, limit: u64 },
    ScanTimeout { table: Seq<char>, seconds: u64 },
    InvalidRowPath { path: Seq<char>, reason: Seq<char> },
    RowPathNotFound { path: Seq<char>, segment: Seq<char>, page: usize },
    RowPathNotObject { path: Seq<char>, segment: Seq<char>, page: usize, found: Seq<char> },
    RowPathNotArray { path: Seq<char>, page: usize, found: Seq<char> },
    ConversionFailed { path: Seq<char>, column: Seq<char>, page: usize, row: usize, expected: Seq<char>, found: Seq<char> },
    SourcePackAssetInvalid { asset: Seq<char>, reason: Seq<char> },
    ResponseTooLarge { operation: Seq<char>, limit_bytes: usize },
    InvalidGatewayResponse { operation: Seq<char>, reason: Seq<char> },
    UdtfGatewayNotRegistered { name: Seq<char> },
    ActionNotDiscovered { gateway: Seq<char>, action_id: Seq<char> },
    RawActionNotAllowlisted { gateway: Seq<char>, action_id: Seq<char> },
    RawActionMutating { action_id: Seq<char> },
    RawActionReadOnlyUnknown { action_id: Seq<char> },
    RawRowTypeIndeterminate { action_id: Seq<char>, row_path: Seq<char>, reason: Seq<char> },
}

impl View for OpenConnectorError {
    type V = ErrorView;

    open spec fn view(&self) -> ErrorView {
        match self {
            OpenConnectorError::EmptyRuntimeTokenEnv => ErrorView::EmptyRuntimeTokenEnv,
            OpenConnectorError::EmptyGatewayUrl { name } => ErrorView::EmptyGatewayUrl {
                name: name@,
            },
            OpenConnectorError::EmptyBindingName => ErrorView::EmptyBindingName,
            OpenConnectorError::DuplicateBindingName { name } => ErrorView::DuplicateBindingName {
                name: name@,
            },
            OpenConnectorError::EmptySourcePack { binding } => ErrorView::EmptySourcePack {
                binding: binding@,
            },
            OpenConnectorError::EmptyTableList { binding } => ErrorView::EmptyTableList {
                binding: binding@,
            },
            OpenConnectorError::EmptyTableName { binding } => ErrorView::EmptyTableName {
                binding: binding@,
            },
            OpenConnectorError::DuplicateTableName { binding, table } => ErrorView::DuplicateTableName {
                binding: binding@,
                table: table@,
            },
            OpenConnectorError::EmptyAllowlistEntry => ErrorView::EmptyAllowlistEntry,
            OpenConnectorError::ZeroSafetyBound { field } => ErrorView::ZeroSafetyBound {
                field: field@,
            },
            OpenConnectorError::CatalogHierarchyRequired { name } => ErrorView::CatalogHierarchyRequired {
                name: name@,
            },
            OpenConnectorError::ReadWriteNotSupported { name } => ErrorView::ReadWriteNotSupported {
                name: name@,
            },
            OpenConnectorError::MissingConfig { name } => ErrorView::MissingConfig {
                name: name@,
            },
            OpenConnectorError::MissingRuntimeToken { env } => ErrorView::MissingRuntimeToken {
                env: env@,
            },
            OpenConnectorError::InvalidRuntimeToken { env, reason } => ErrorView::InvalidRuntimeToken {
                env: env@,
                reason: reason@,
            },
            OpenConnectorError::RequestBuildFailed { operation, reason } => ErrorView::RequestBuildFailed {
                operation: operation@,
                reason: reason@,
            },
            OpenConnectorError::InvalidGatewayUrl { url } => ErrorView::InvalidGatewayUrl {
                url: url@,
            },
            OpenConnectorError::GatewayUrlWithQueryOrFragment { url } => ErrorView::GatewayUrlWithQueryOrFragment {
                url: url@,
            },
            OpenConnectorError::HttpClientBuild { reason } => ErrorView::HttpClientBuild {
                reason: reason@,
            },
            OpenConnectorError::HealthCheckFailed { url, reason } => ErrorView::HealthCheckFailed {
                url: url@,
                reason: reason@,
            },
            OpenConnectorError::ActionNotFound { action_id } => ErrorView::ActionNotFound {
                action_id: action_id@,
            },
            OpenConnectorError::ActionDiscoveryFailed { action_id, reason } => ErrorView::ActionDiscoveryFailed {
                action_id: action_id@,
                reason: reason@,
            },
            OpenConnectorError::ActionNotLocallyExecutable { action_id } => ErrorView::ActionNotLocallyExecutable {
                action_id: action_id@,
            },
            OpenConnectorError::ActionExecutabilityUnknown { action_id } => ErrorView::ActionExecutabilityUnknown {
                action_id: action_id@,
            },
            OpenConnectorError::InvalidActionId { action_id, reason } => ErrorView::InvalidActionId {
                action_id: action_id@,
                reason: reason@,
            },
            OpenConnectorError::ActionExecutionFailed { action_id, reason } => ErrorView::ActionExecutionFailed {
                action_id: action_id@,
                reason: reason@,
            },
            OpenConnectorError::RetriesExhausted { operation, attempts, reason } => ErrorView::RetriesExhausted {
                operation: operation@,
                attempts: *attempts,
                reason: reason@,
            },
            OpenConnectorError::NonIdempotentAmbiguousFailure { operation, reason } => ErrorView::NonIdempotentAmbiguousFailure {
                operation: operation@,
                reason: reason@,
            },
            OpenConnectorError::ProviderReportedError { action_id, page, code } => ErrorView::ProviderReportedError {
                action_id: action_id@,
                page: *page,
                code: code@,
            },
            OpenConnectorError::PaginationTotalInvalid { path, page, found } => ErrorView::PaginationTotalInvalid {
                path: path@,
                page: *page,
                found: found@,
            },
            OpenConnectorError::PaginationRawPageSizeInvalid { path, page, found } => ErrorView::PaginationRawPageSizeInvalid {
                path: path@,
                page: *page,
                found: found@,
            },
            OpenConnectorError::PaginationCursorInvalid { path, page, found } => ErrorView::PaginationCursorInvalid {
                path: path@,
                page: *page,
                found: found@,
            },
            OpenConnectorError::PaginationHasMoreInvalid { path, page, found } => ErrorView::PaginationHasMoreInvalid {
                path: path@,
                page: *page,
                found: found@,
            },
            OpenConnectorError::PaginationLoop { token } => ErrorView::PaginationLoop {
                token: token@,
            },
            OpenConnectorError::SourcePackNotFound { name } => ErrorView::SourcePackNotFound {
                name: name@,
            },
            OpenConnectorError::SourcePackTableNotFound { pack, table } => ErrorView::SourcePackTableNotFound {
                pack: pack@,
                table: table@,
            },
            OpenConnectorError::SourcePackTableAmbiguous { pack, table, candidates } => ErrorView::SourcePackTableAmbiguous {
                pack: pack@,
                table: table@,
                candidates: candidates@,
            },
            OpenConnectorError::SourcePackVersionMismatch { pack, pinned, actual } => ErrorView::SourcePackVersionMismatch {
                pack: pack@,
                pinned: *pinned,
                actual: *actual,
            },
            OpenConnectorError::MissingResourceInput { binding, key } => ErrorView::MissingResourceInput {
                binding: binding@,
                key: key@,
            },
            OpenConnectorError::NullResourceValue { binding, key } => ErrorView::NullResourceValue {
                binding: binding@,
                key: key@,
            },
            OpenConnectorError::UnknownResourceKey { binding, key } => ErrorView::UnknownResourceKey {
                binding: binding@,
                key: key@,
            },
            OpenConnectorError::ActionContractMismatch { table, reason } => ErrorView::ActionContractMismatch {
                table: table@,
                reason: reason@,
            },
            OpenConnectorError::CatalogRegistrationFailed { name, reason } => ErrorView::CatalogRegistrationFailed {
                name: name@,
                reason: reason@,
            },
            OpenConnectorError::ScanBoundsExceeded { table, bound, limit } => ErrorView::ScanBoundsExceeded {
                table: table@,
                bound: bound@,
                limit: *limit,
            },
            OpenConnectorError::ScanTimeout { table, seconds } => ErrorView::ScanTimeout {
                table: table@,
                seconds: *seconds,
            },
            OpenConnectorError::InvalidRowPath { path, reason } => ErrorView::InvalidRowPath {
                path: path@,
                reason: reason@,
            },
            OpenConnectorError::RowPathNotFound { path, segment, page } => ErrorView::RowPathNotFound {
                path: path@,
                segment: segment@,
                page: *page,
            },
            OpenConnectorError::RowPathNotObject { path, segment, page, found } => ErrorView::RowPathNotObject {
                path: path@,
                segment: segment@,
                page: *page,
                found: found@,
            },
            OpenConnectorError::RowPathNotArray { path, page, found } => ErrorView::RowPathNotArray {
                path: path@,
                page: *page,
                found: found@,
            },
            OpenConnectorError::ConversionFailed { path, column, page, row, expected, found } => ErrorView::ConversionFailed {
                path: path@,
                column: column@,
                page: *page,
                row: *row,
                expected: expected@,
                found: found@,
            },
            OpenConnectorError::SourcePackAssetInvalid { asset, reason } => ErrorView::SourcePackAssetInvalid {
                asset: asset@,
                reason: reason@,
            },
            OpenConnectorError::ResponseTooLarge { operation, limit_bytes } => ErrorView::ResponseTooLarge {
                operation: operation@,
                limit_bytes: *limit_bytes,
            },
            OpenConnectorError::InvalidGatewayResponse { operation, reason } => ErrorView::InvalidGatewayResponse {
                operation: operation@,
                reason: reason@,
            },
            OpenConnectorError::UdtfGatewayNotRegistered { name } => ErrorView::UdtfGatewayNotRegistered {
                name: name@,
            },
            OpenConnectorError::ActionNotDiscovered { gateway, action_id } => ErrorView::ActionNotDiscovered {
                gateway: gateway@,
                action_id: action_id@,
            },
            OpenConnectorError::RawActionNotAllowlisted { gateway, action_id } => ErrorView::RawActionNotAllowlisted {
                gateway: gateway@,
                action_id: action_id@,
            },
            OpenConnectorError::RawActionMutating { action_id } => ErrorView::RawActionMutating {
                action_id: action_id@,
            },
            OpenConnectorError::RawActionReadOnlyUnknown { action_id } => ErrorView::RawActionReadOnlyUnknown {
                action_id: action_id@,
            },
            OpenConnectorError::RawRowTypeIndeterminate { action_id, row_path, reason } => ErrorView::RawRowTypeIndeterminate {
                action_id: action_id@,
                row_path: row_path@,
                reason: reason@,
            },
        }
    }
}

impl ErrorView {
    /// The message that an operator reads.
    pub open spec fn message(self) -> Seq<char> {
        match self {
            ErrorView::EmptyRuntimeTokenEnv => {
                "Open Connector config field 'runtime_token_env' must not be empty"@
            },
            ErrorView::EmptyGatewayUrl { name } => {
                "Open Connector data source '"@
                    + name
                    + "' requires a non-empty connection_string (the gateway URL, e.g. http://open-connector:3000)"@
            },
            ErrorView::EmptyBindingName => {
                "Open Connector binding names must not be empty"@
            },
            ErrorView::DuplicateBindingName { name } => {
                "Open Connector config has duplicate binding name '"@
                    + name
                    + "'; binding names become catalog schema names and must be unique"@
            },
            ErrorView::EmptySourcePack { binding } => {
                "Open Connector binding '"@
                    + binding
                    + "' must name a 'source_pack'"@
            },
            ErrorView::EmptyTableList { binding } => {
                "Open Connector binding '"@
                    + binding
                    + "' must expose at least one table"@
            },
            ErrorView::EmptyTableName { binding } => {
                "Open Connector binding '"@
                    + binding
                    + "' contains an empty table name"@
            },
            ErrorView::DuplicateTableName { binding, table } => {
                "Open Connector binding '"@
                    + binding
                    + "' lists table '"@
                    + table
                    + "' more than once"@
            },
            ErrorView::EmptyAllowlistEntry => {
                "Open Connector 'raw_action_allowlist' must not contain empty entries"@
            },
            ErrorView::ZeroSafetyBound { field } => {
                "Open Connector safety bound '"@
                    + field
                    + "' must be greater than zero"@
            },
            ErrorView::CatalogHierarchyRequired { name } => {
                "Open Connector data source '"@
                    + name
                    + "' must use hierarchy_level 'catalog' — a gateway is exposed as a DataFusion catalog, not a single table"@
            },
            ErrorView::ReadWriteNotSupported { name } => {
                "Open Connector data source '"@
                    + name
                    + "' requests access_mode 'read_write', but Open Connector is read-only — no mutating actions are exposed"@
            },
            ErrorView::MissingConfig { name } => {
                "Open Connector data source '"@
                    + name
                    + "' requires an 'open_connector' config block (runtime_token_env, bindings, …)"@
            },
            ErrorView::MissingRuntimeToken { env } => {
                "Environment variable '"@
                    + env
                    + "' not found: it must contain the Open Connector gateway runtime token"@
            },
            ErrorView::InvalidRuntimeToken { env, reason } => {
                "Open Connector runtime token from '"@
                    + env
                    + "' is invalid: "@
                    + reason
                    + " (check for a trailing newline or other control characters)"@
            },
            ErrorView::RequestBuildFailed { operation, reason } => {
                "Open Connector "@
                    + operation
                    + " could not build the request: "@
                    + reason
            },
            ErrorView::InvalidGatewayUrl { url } => {
                "Open Connector gateway URL '"@
                    + url
                    + "' must use http:// or https:// and must not embed credentials (the runtime token is sent as a Bearer header)"@
            },
            ErrorView::GatewayUrlWithQueryOrFragment { url } => {
                "Open Connector gateway URL '"@
                    + url
                    + "' must not contain query parameters or a fragment (credentials in the URL would leak into logs and the data-sources API; the runtime token belongs in the configured environment variable)"@
            },
            ErrorView::HttpClientBuild { reason } => {
                "Failed to build the Open Connector HTTP client: "@
                    + reason
            },
            ErrorView::HealthCheckFailed { url, reason } => {
                "Open Connector gateway health check failed for '"@
                    + url
                    + "': "@
                    + reason
            },
            ErrorView::ActionNotFound { action_id } => {
                "Open Connector action '"@
                    + action_id
                    + "' was not found on the gateway"@
            },
            ErrorView::ActionDiscoveryFailed { action_id, reason } => {
                "Failed to discover Open Connector action '"@
                    + action_id
                    + "': "@
                    + reason
            },
            ErrorView::ActionNotLocallyExecutable { action_id } => {
                "Open Connector action '"@
                    + action_id
                    + "' is not locally executable on this gateway"@
            },
            ErrorView::ActionExecutabilityUnknown { action_id } => {
                "Open Connector action '"@
                    + action_id
                    + "' does not declare whether it is locally executable; refusing to treat it as executable (default-deny)"@
            },
            ErrorView::InvalidActionId { action_id, reason } => {
                "Open Connector action ID '"@
                    + action_id
                    + "' is invalid: "@
                    + reason
                    + " (action IDs must be single path segments; '/', '.', and '..' are not allowed)"@
            },
            ErrorView::ActionExecutionFailed { action_id, reason } => {
                "Open Connector action '"@
                    + action_id
                    + "' execution failed: "@
                    + reason
            },
            ErrorView::RetriesExhausted { operation, attempts, reason } => {
                "Open Connector "@
                    + operation
                    + " failed after "@
                    + text::decimal(attempts as nat)
                    + " attempt(s); last error: "@
                    + reason
            },
            ErrorView::NonIdempotentAmbiguousFailure { operation, reason } => {
                "Open Connector "@
                    + operation
                    + " failed with a transport error ("@
                    + reason
                    + "); not retried because the request may have reached the gateway and re-execution is not safe"@
            },
            ErrorView::ProviderReportedError { action_id, page, code } => {
                "Open Connector action '"@
                    + action_id
                    + "' page "@
                    + text::decimal(page as nat)
                    + ": the provider reported error '"@
                    + code
                    + "'"@
            },
            ErrorView::PaginationTotalInvalid { path, page, found } => {
                "Open Connector pagination total at '"@
                    + path
                    + "' on page "@
                    + text::decimal(page as nat)
                    + " is "@
                    + found
                    + ", expected a non-negative integer"@
            },
            ErrorView::PaginationRawPageSizeInvalid { path, page, found } => {
                "Open Connector pagination raw page size at '"@
                    + path
                    + "' on page "@
                    + text::decimal(page as nat)
                    + " is "@
                    + found
                    + ", expected a non-negative integer"@
            },
            ErrorView::PaginationCursorInvalid { path, page, found } => {
                "Open Connector pagination cursor at '"@
                    + path
                    + "' on page "@
                    + text::decimal(page as nat)
                    + " is "@
                    + found
                    + ", not a string; refusing to treat it as end-of-collection"@
            },
            ErrorView::PaginationHasMoreInvalid { path, page, found } => {
                "Open Connector pagination has-more signal at '"@
                    + path
                    + "' on page "@
                    + text::decimal(page as nat)
                    + " is "@
                    + found
                    + ", expected a boolean"@
            },
            ErrorView::PaginationLoop { token } => {
                "Open Connector pagination loop detected: cursor '"@
                    + token
                    + "' was already seen (the gateway is not advancing pagination)"@
            },
            ErrorView::SourcePackNotFound { name } => {
                "Open Connector binding references unknown source pack '"@
                    + name
                    + "' (built-in packs are versioned with Skardi)"@
            },
            ErrorView::SourcePackTableNotFound { pack, table } => {
                "Open Connector source pack '"@
                    + pack
                    + "' has no table '"@
                    + table
                    + "'"@
            },
            ErrorView::SourcePackTableAmbiguous { pack, table, candidates } => {
                "Open Connector source pack '"@
                    + pack
                    + "' has multiple tables matching '"@
                    + table
                    + "' ("@
                    + candidates
                    + "); use the full table ID"@
            },
            ErrorView::SourcePackVersionMismatch { pack, pinned, actual } => {
                "Open Connector source pack '"@
                    + pack
                    + "' pinned to version "@
                    + text::decimal(pinned as nat)
                    + ", but this Skardi build ships version "@
                    + text::decimal(actual as nat)
            },
            ErrorView::MissingResourceInput { binding, key } => {
                "Open Connector binding '"@
                    + binding
                    + "' is missing required resource input '"@
                    + key
                    + "' for the bound source-pack table"@
            },
            ErrorView::NullResourceValue { binding, key } => {
                "Open Connector binding '"@
                    + binding
                    + "' sets resource input '"@
                    + key
                    + "' to null"@
            },
            ErrorView::UnknownResourceKey { binding, key } => {
                "Open Connector binding '"@
                    + binding
                    + "' supplies resource key '"@
                    + key
                    + "' that none of its bound tables declare; each table's requests carry only the resource inputs its action contract lists"@
            },
            ErrorView::ActionContractMismatch { table, reason } => {
                "Open Connector source-pack table '"@
                    + table
                    + "' failed its compatibility check: "@
                    + reason
            },
            ErrorView::CatalogRegistrationFailed { name, reason } => {
                "Open Connector catalog registration failed for '"@
                    + name
                    + "': "@
                    + reason
            },
            ErrorView::ScanBoundsExceeded { table, bound, limit } => {
                "Open Connector scan of '"@
                    + table
                    + "' exceeded "@
                    + bound
                    + " (limit "@
                    + text::decimal(limit as nat)
                    + "); the result would be incomplete"@
            },
            ErrorView::ScanTimeout { table, seconds } => {
                "Open Connector scan of '"@
                    + table
                    + "' timed out after "@
                    + text::decimal(seconds as nat)
                    + "s"@
            },
            ErrorView::InvalidRowPath { path, reason } => {
                "Open Connector row path '"@
                    + path
                    + "' is invalid: "@
                    + reason
            },
            ErrorView::RowPathNotFound { path, segment, page } => {
                "Open Connector row path '"@
                    + path
                    + "' failed at segment '"@
                    + segment
                    + "' on page "@
                    + text::decimal(page as nat)
                    + ": the key is missing from an object"@
            },
            ErrorView::RowPathNotObject { path, segment, page, found } => {
                "Open Connector row path '"@
                    + path
                    + "' cannot descend into segment '"@
                    + segment
                    + "' on page "@
                    + text::decimal(page as nat)
                    + ": expected an object, found "@
                    + found
            },
            ErrorView::RowPathNotArray { path, page, found } => {
                "Open Connector row path '"@
                    + path
                    + "' on page "@
                    + text::decimal(page as nat)
                    + " resolved to "@
                    + found
                    + ", expected an array of row objects"@
            },
            ErrorView::ConversionFailed { path, column, page, row, expected, found } => {
                "Open Connector conversion failed for column '"@
                    + column
                    + "' (path '"@
                    + path
                    + "') at page "@
                    + text::decimal(page as nat)
                    + ", row "@
                    + text::decimal(row as nat)
                    + ": expected "@
                    + expected
                    + ", found "@
                    + found
            },
            ErrorView::SourcePackAssetInvalid { asset, reason } => {
                "embedded source pack asset '"@
                    + asset
                    + "' is invalid: "@
                    + reason
            },
            ErrorView::ResponseTooLarge { operation, limit_bytes } => {
                "Open Connector "@
                    + operation
                    + " response exceeded the "@
                    + text::decimal(limit_bytes as nat)
                    + "-byte bound"@
            },
            ErrorView::InvalidGatewayResponse { operation, reason } => {
                "Open Connector "@
                    + operation
                    + " returned an invalid response: "@
                    + reason
            },
            ErrorView::UdtfGatewayNotRegistered { name } => {
                "Open Connector gateway '"@
                    + name
                    + "' is not registered; the first UDTF argument must name a 'type: open_connector' data source from the context configuration"@
            },
            ErrorView::ActionNotDiscovered { gateway, action_id } => {
                "Open Connector action '"@
                    + action_id
                    + "' was not discovered when gateway '"@
                    + gateway
                    + "' was registered; bind its source-pack table in the context YAML or add the action to 'raw_action_allowlist' (query planning never contacts the gateway)"@
            },
            ErrorView::RawActionNotAllowlisted { gateway, action_id } => {
                "Open Connector action '"@
                    + action_id
                    + "' is not in the 'raw_action_allowlist' of gateway '"@
                    + gateway
                    + "'; open_connector_scan executes explicitly allowlisted actions only (default-deny)"@
            },
            ErrorView::RawActionMutating { action_id } => {
                "Open Connector action '"@
                    + action_id
                    + "' is classified as mutating by its gateway metadata; open_connector_scan executes non-mutating reads only"@
            },
            ErrorView::RawActionReadOnlyUnknown { action_id } => {
                "Open Connector action '"@
                    + action_id
                    + "' does not declare a read-only classification in its gateway metadata; refusing to execute it (default-deny — the allowlist alone does not grant execution)"@
            },
            ErrorView::RawRowTypeIndeterminate { action_id, row_path, reason } => {
                "Open Connector raw scan of action '"@
                    + action_id
                    + "' cannot derive a deterministic row type at '"@
                    + row_path
                    + "': "@
                    + reason
                    + "; use a built-in source-pack table (open_connector_query) or contribute a source-pack definition instead"@
            },
        }
    }
}

impl OpenConnectorError {
    /// The message that an operator reads.
    pub fn message(&self) -> (s: String)
        ensures
            s@ == self@.message(),
    {
        match self {
            OpenConnectorError::EmptyRuntimeTokenEnv => {
                "Open Connector config field 'runtime_token_env' must not be empty".to_owned()
            },
            OpenConnectorError::EmptyGatewayUrl { name } => {
                let mut s = "Open Connector data source '".to_owned();
                s.append(name.as_str());
                s.append("' requires a non-empty connection_string (the gateway URL, e.g. http://open-connector:3000)");
                s
            },
            OpenConnectorError::EmptyBindingName => {
                "Open Connector binding names must not be empty".to_owned()
            },
            OpenConnectorError::DuplicateBindingName { name } => {
                let mut s = "Open Connector config has duplicate binding name '".to_owned();
                s.append(name.as_str());
                s.append("'; binding names become catalog schema names and must be unique");
                s
            },
            OpenConnectorError::EmptySourcePack { binding } => {
                let mut s = "Open Connector binding '".to_owned();
                s.append(binding.as_str());
                s.append("' must name a 'source_pack'");
                s
            },
            OpenConnectorError::EmptyTableList { binding } => {
                let mut s = "Open Connector binding '".to_owned();
                s.append(binding.as_str());
                s.append("' must expose at least one table");
                s
            },
            OpenConnectorError::EmptyTableName { binding } => {
                let mut s = "Open Connector binding '".to_owned();
                s.append(binding.as_str());
                s.append("' contains an empty table name");
                s
            },
            OpenConnectorError::DuplicateTableName { binding, table } => {
                let mut s = "Open Connector binding '".to_owned();
                s.append(binding.as_str());
                s.append("' lists table '");
                s.append(table.as_str());
                s.append("' more than once");
                s
            },
            OpenConnectorError::EmptyAllowlistEntry => {
                "Open Connector 'raw_action_allowlist' must not contain empty entries".to_owned()
            },
            OpenConnectorError::ZeroSafetyBound { field } => {
                let mut s = "Open Connector safety bound '".to_owned();
                s.append(field);
                s.append("' must be greater than zero");
                s
            },
            OpenConnectorError::CatalogHierarchyRequired { name } => {
                let mut s = "Open Connector data source '".to_owned();
                s.append(name.as_str());
                s.append("' must use hierarchy_level 'catalog' — a gateway is exposed as a DataFusion catalog, not a single table");
                s
            },
            OpenConnectorError::ReadWriteNotSupported { name } => {
                let mut s = "Open Connector data source '".to_owned();
                s.append(name.as_str());
                s.append("' requests access_mode 'read_write', but Open Connector is read-only — no mutating actions are exposed");
                s
            },
            OpenConnectorError::MissingConfig { name } => {
                let mut s = "Open Connector data source '".to_owned();
                s.append(name.as_str());
                s.append("' requires an 'open_connector' config block (runtime_token_env, bindings, …)");
                s
            },
            OpenConnectorError::MissingRuntimeToken { env } => {
                let mut s = "Environment variable '".to_owned();
                s.append(env.as_str());
                s.append("' not found: it must contain the Open Connector gateway runtime token");
                s
            },
            OpenConnectorError::InvalidRuntimeToken { env, reason } => {
                let mut s = "Open Connector runtime token from '".to_owned();
                s.append(env.as_str());
                s.append("' is invalid: ");
                s.append(reason.as_str());
                s.append(" (check for a trailing newline or other control characters)");
                s
            },
            OpenConnectorError::RequestBuildFailed { operation, reason } => {
                let mut s = "Open Connector ".to_owned();
                s.append(operation.as_str());
                s.append(" could not build the request: ");
                s.append(reason.as_str());
                s
            },
            OpenConnectorError::InvalidGatewayUrl { url } => {
                let mut s = "Open Connector gateway URL '".to_owned();
                s.append(url.as_str());
                s.append("' must use http:// or https:// and must not embed credentials (the runtime token is sent as a Bearer header)");
                s
            },
            OpenConnectorError::GatewayUrlWithQueryOrFragment { url } => {
                let mut s = "Open Connector gateway URL '".to_owned();
                s.append(url.as_str());
                s.append("' must not contain query parameters or a fragment (credentials in the URL would leak into logs and the data-sources API; the runtime token belongs in the configured environment variable)");
                s
            },
            OpenConnectorError::HttpClientBuild { reason } => {
                let mut s = "Failed to build the Open Connector HTTP client: ".to_owned();
                s.append(reason.as_str());
                s
            },
            OpenConnectorError::HealthCheckFailed { url, reason } => {
                let mut s = "Open Connector gateway health check failed for '".to_owned();
                s.append(url.as_str());
                s.append("': ");
                s.append(reason.as_str());
                s
            },
            OpenConnectorError::ActionNotFound { action_id } => {
                let mut s = "Open Connector action '".to_owned();
                s.append(action_id.as_str());
                s.append("' was not found on the gateway");
                s
            },
            OpenConnectorError::ActionDiscoveryFailed { action_id, reason } => {
                let mut s = "Failed to discover Open Connector action '".to_owned();
                s.append(action_id.as_str());
                s.append("': ");
                s.append(reason.as_str());
                s
            },
            OpenConnectorError::ActionNotLocallyExecutable { action_id } => {
                let mut s = "Open Connector action '".to_owned();
                s.append(action_id.as_str());
                s.append("' is not locally executable on this gateway");
                s
            },
            OpenConnectorError::ActionExecutabilityUnknown { action_id } => {
                let mut s = "Open Connector action '".to_owned();
                s.append(action_id.as_str());
                s.append("' does not declare whether it is locally executable; refusing to treat it as executable (default-deny)");
                s
            },
            OpenConnectorError::InvalidActionId { action_id, reason } => {
                let mut s = "Open Connector action ID '".to_owned();
                s.append(action_id.as_str());
                s.append("' is invalid: ");
                s.append(reason.as_str());
                s.append(" (action IDs must be single path segments; '/', '.', and '..' are not allowed)");
                s
            },
            OpenConnectorError::ActionExecutionFailed { action_id, reason } => {
                let mut s = "Open Connector action '".to_owned();
                s.append(action_id.as_str());
                s.append("' execution failed: ");
                s.append(reason.as_str());
                s
            },
            OpenConnectorError::RetriesExhausted { operation, attempts, reason } => {
                let mut s = "Open Connector ".to_owned();
                s.append(operation.as_str());
                s.append(" failed after ");
                s.append(text::decimal_text(*attempts as u64).as_str());
                s.append(" attempt(s); last error: ");
                s.append(reason.as_str());
                s
            },
            OpenConnectorError::NonIdempotentAmbiguousFailure { operation, reason } => {
                let mut s = "Open Connector ".to_owned();
                s.append(operation.as_str());
                s.append(" failed with a transport error (");
                s.append(reason.as_str());
                s.append("); not retried because the request may have reached the gateway and re-execution is not safe");
                s
            },
            OpenConnectorError::ProviderReportedError { action_id, page, code } => {
                let mut s = "Open Connector action '".to_owned();
                s.append(action_id.as_str());
                s.append("' page ");
                s.append(text::decimal_text(*page as u64).as_str());
                s.append(": the provider reported error '");
                s.append(code.as_str());
                s.append("'");
                s
            },
            OpenConnectorError::PaginationTotalInvalid { path, page, found } => {
                let mut s = "Open Connector pagination total at '".to_owned();
                s.append(path.as_str());
                s.append("' on page ");
                s.append(text::decimal_text(*page as u64).as_str());
                s.append(" is ");
                s.append(found.as_str());
                s.append(", expected a non-negative integer");
                s
            },
            OpenConnectorError::PaginationRawPageSizeInvalid { path, page, found } => {
                let mut s = "Open Connector pagination raw page size at '".to_owned();
                s.append(path.as_str());
                s.append("' on page ");
                s.append(text::decimal_text(*page as u64).as_str());
                s.append(" is ");
                s.append(found.as_str());
                s.append(", expected a non-negative integer");
                s
            },
            OpenConnectorError::PaginationCursorInvalid { path, page, found } => {
                let mut s = "Open Connector pagination cursor at '".to_owned();
                s.append(path.as_str());
                s.append("' on page ");
                s.append(text::decimal_text(*page as u64).as_str());
                s.append(" is ");
                s.append(found.as_str());
                s.append(", not a string; refusing to treat it as end-of-collection");
                s
            },
            OpenConnectorError::PaginationHasMoreInvalid { path, page, found } => {
                let mut s = "Open Connector pagination has-more signal at '".to_owned();
                s.append(path.as_str());
                s.append("' on page ");
                s.append(text::decimal_text(*page as u64).as_str());
                s.append(" is ");
                s.append(found.as_str());
                s.append(", expected a boolean");
                s
            },
            OpenConnectorError::PaginationLoop { token } => {
                let mut s = "Open Connector pagination loop detected: cursor '".to_owned();
                s.append(token.as_str());
                s.append("' was already seen (the gateway is not advancing pagination)");
                s
            },
            OpenConnectorError::SourcePackNotFound { name } => {
                let mut s = "Open Connector binding references unknown source pack '".to_owned();
                s.append(name.as_str());
                s.append("' (built-in packs are versioned with Skardi)");
                s
            },
            OpenConnectorError::SourcePackTableNotFound { pack, table } => {
                let mut s = "Open Connector source pack '".to_owned();
                s.append(pack.as_str());
                s.append("' has no table '");
                s.append(table.as_str());
                s.append("'");
                s
            },
            OpenConnectorError::SourcePackTableAmbiguous { pack, table, candidates } => {
                let mut s = "Open Connector source pack '".to_owned();
                s.append(pack.as_str());
                s.append("' has multiple tables matching '");
                s.append(table.as_str());
                s.append("' (");
                s.append(candidates.as_str());
                s.append("); use the full table ID");
                s
            },
            OpenConnectorError::SourcePackVersionMismatch { pack, pinned, actual } => {
                let mut s = "Open Connector source pack '".to_owned();
                s.append(pack.as_str());
                s.append("' pinned to version ");
                s.append(text::decimal_text(*pinned as u64).as_str());
                s.append(", but this Skardi build ships version ");
                s.append(text::decimal_text(*actual as u64).as_str());
                s
            },
            OpenConnectorError::MissingResourceInput { binding, key } => {
                let mut s = "Open Connector binding '".to_owned();
                s.append(binding.as_str());
                s.append("' is missing required resource input '");
                s.append(key.as_str());
                s.append("' for the bound source-pack table");
                s
            },
            OpenConnectorError::NullResourceValue { binding, key } => {
                let mut s = "Open Connector binding '".to_owned();
                s.append(binding.as_str());
                s.append("' sets resource input '");
                s.append(key.as_str());
                s.append("' to null");
                s
            },
            OpenConnectorError::UnknownResourceKey { binding, key } => {
                let mut s = "Open Connector binding '".to_owned();
                s.append(binding.as_str());
                s.append("' supplies resource key '");
                s.append(key.as_str());
                s.append("' that none of its bound tables declare; each table's requests carry only the resource inputs its action contract lists");
                s
            },
            OpenConnectorError::ActionContractMismatch { table, reason } => {
                let mut s = "Open Connector source-pack table '".to_owned();
                s.append(table.as_str());
                s.append("' failed its compatibility check: ");
                s.append(reason.as_str());
                s
            },
            OpenConnectorError::CatalogRegistrationFailed { name, reason } => {
                let mut s = "Open Connector catalog registration failed for '".to_owned();
                s.append(name.as_str());
                s.append("': ");
                s.append(reason.as_str());
                s
            },
            OpenConnectorError::ScanBoundsExceeded { table, bound, limit } => {
                let mut s = "Open Connector scan of '".to_owned();
                s.append(table.as_str());
                s.append("' exceeded ");
                s.append(bound);
                s.append(" (limit ");
                s.append(text::decimal_text(*limit as u64).as_str());
                s.append("); the result would be incomplete");
                s
            },
            OpenConnectorError::ScanTimeout { table, seconds } => {
                let mut s = "Open Connector scan of '".to_owned();
                s.append(table.as_str());
                s.append("' timed out after ");
                s.append(text::decimal_text(*seconds as u64).as_str());
                s.append("s");
                s
            },
            OpenConnectorError::InvalidRowPath { path, reason } => {
                let mut s = "Open Connector row path '".to_owned();
                s.append(path.as_str());
                s.append("' is invalid: ");
                s.append(reason.as_str());
                s
            },
            OpenConnectorError::RowPathNotFound { path, segment, page } => {
                let mut s = "Open Connector row path '".to_owned();
                s.append(path.as_str());
                s.append("' failed at segment '");
                s.append(segment.as_str());
                s.append("' on page ");
                s.append(text::decimal_text(*page as u64).as_str());
                s.append(": the key is missing from an object");
                s
            },
            OpenConnectorError::RowPathNotObject { path, segment, page, found } => {
                let mut s = "Open Connector row path '".to_owned();
                s.append(path.as_str());
                s.append("' cannot descend into segment '");
                s.append(segment.as_str());
                s.append("' on page ");
                s.append(text::decimal_text(*page as u64).as_str());
                s.append(": expected an object, found ");
                s.append(found.as_str());
                s
            },
            OpenConnectorError::RowPathNotArray { path, page, found } => {
                let mut s = "Open Connector row path '".to_owned();
                s.append(path.as_str());
                s.append("' on page ");
                s.append(text::decimal_text(*page as u64).as_str());
                s.append(" resolved to ");
                s.append(found.as_str());
                s.append(", expected an array of row objects");
                s
            },
            OpenConnectorError::ConversionFailed { path, column, page, row, expected, found } => {
                let mut s = "Open Connector conversion failed for column '".to_owned();
                s.append(column.as_str());
                s.append("' (path '");
                s.append(path.as_str());
                s.append("') at page ");
                s.append(text::decimal_text(*page as u64).as_str());
                s.append(", row ");
                s.append(text::decimal_text(*row as u64).as_str());
                s.append(": expected ");
                s.append(expected.as_str());
                s.append(", found ");
                s.append(found.as_str());
                s
            },
            OpenConnectorError::SourcePackAssetInvalid { asset, reason } => {
                let mut s = "embedded source pack asset '".to_owned();
                s.append(asset.as_str());
                s.append("' is invalid: ");
                s.append(reason.as_str());
                s
            },
            OpenConnectorError::ResponseTooLarge { operation, limit_bytes } => {
                let mut s = "Open Connector ".to_owned();
                s.append(operation.as_str());
                s.append(" response exceeded the ");
                s.append(text::decimal_text(*limit_bytes as u64).as_str());
                s.append("-byte bound");
                s
            },
            OpenConnectorError::InvalidGatewayResponse { operation, reason } => {
                let mut s = "Open Connector ".to_owned();
                s.append(operation.as_str());
                s.append(" returned an invalid response: ");
                s.append(reason.as_str());
                s
            },
            OpenConnectorError::UdtfGatewayNotRegistered { name } => {
                let mut s = "Open Connector gateway '".to_owned();
                s.append(name.as_str());
                s.append("' is not registered; the first UDTF argument must name a 'type: open_connector' data source from the context configuration");
                s
            },
            OpenConnectorError::ActionNotDiscovered { gateway, action_id } => {
                let mut s = "Open Connector action '".to_owned();
                s.append(action_id.as_str());
                s.append("' was not discovered when gateway '");
                s.append(gateway.as_str());
                s.append("' was registered; bind its source-pack table in the context YAML or add the action to 'raw_action_allowlist' (query planning never contacts the gateway)");
                s
            },
            OpenConnectorError::RawActionNotAllowlisted { gateway, action_id } => {
                let mut s = "Open Connector action '".to_owned();
                s.append(action_id.as_str());
                s.append("' is not in the 'raw_action_allowlist' of gateway '");
                s.append(gateway.as_str());
                s.append("'; open_connector_scan executes explicitly allowlisted actions only (default-deny)");
                s
            },
            OpenConnectorError::RawActionMutating { action_id } => {
                let mut s = "Open Connector action '".to_owned();
                s.append(action_id.as_str());
                s.append("' is classified as mutating by its gateway metadata; open_connector_scan executes non-mutating reads only");
                s
            },
            OpenConnectorError::RawActionReadOnlyUnknown { action_id } => {
                let mut s = "Open Connector action '".to_owned();
                s.append(action_id.as_str());
                s.append("' does not declare a read-only classification in its gateway metadata; refusing to execute it (default-deny — the allowlist alone does not grant execution)");
                s
            },
            OpenConnectorError::RawRowTypeIndeterminate { action_id, row_path, reason } => {
                let mut s = "Open Connector raw scan of action '".to_owned();
                s.append(action_id.as_str());
                s.append("' cannot derive a deterministic row type at '");
                s.append(row_path.as_str());
                s.append("': ");
                s.append(reason.as_str());
                s.append("; use a built-in source-pack table (open_connector_query) or contribute a source-pack definition instead");
                s
            },
        }
    }
}

} // verus!
