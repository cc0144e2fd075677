//! Version identifiers for external risk records.
use vstd::prelude::*;

verus! {

/// Semantic schema version for serialized or external records.
#[derive(Debug, Clone, Copy, PartialEq, Eq, Structural, PartialOrd, Ord, Hash)]
pub struct SchemaVersion {
    /// Breaking schema version.
    pub major: u16,
    /// Backward-compatible schema addition version.
    pub minor: u16,
    /// Editorial or fixture-only schema patch version.
    pub patch: u16,
}

/// Whether a reader at version `reader` accepts records written at `writer`:
/// same major version and a writer minor version no newer than the reader's.
pub open spec fn readable(reader: SchemaVersion, writer: SchemaVersion) -> bool {
    reader.major == writer.major && reader.minor >= writer.minor
}

impl SchemaVersion {
    /// Creates a schema version.
    pub fn new(major: u16, minor: u16, patch: u16) -> (v: Self)
        ensures
            v == (SchemaVersion { major, minor, patch }),
    {
        SchemaVersion { major, minor, patch }
    }

    /// Returns whether `self` can read a record written with `writer`.
    ///
    /// Major versions must match. Readers accept records from the same major
    /// version when the writer's minor version is less than or equal to the
    /// reader's minor version.
    pub fn can_read(self, writer: Self) -> (r: bool)
        ensures
            r == readable(self, writer),
    {
        self.major == writer.major && self.minor >= writer.minor
    }
}

/// Every version reads its own records, and readability composes: a reader
/// that accepts an intermediate version also accepts everything that
/// intermediate version accepts. Patch versions never matter.
pub proof fn lemma_readable_reflexive_transitive(a: SchemaVersion, b: SchemaVersion, c: SchemaVersion)
    ensures
        readable(a, a),
        readable(a, b) && readable(b, c) ==> readable(a, c),
        readable(a, b) == readable(a, SchemaVersion { patch: c.patch, ..b }),
{
}

/// Externally versioned record families.
#[derive(Debug, Clone, Copy, PartialEq, Eq, Structural, Hash)]
pub enum SchemaRecordKind {
    /// Static instrument reference data.
    InstrumentReference,
    /// Static or file-backed pretrade limits.
    LimitTable,
    /// Order and operator audit records.
    AuditRecord,
    /// Market snapshot inputs and aggregate exposure snapshots.
    MarketSnapshot,
    /// Portfolio validation fixture records.
    PortfolioValidation,
}

/// The v1 version shared by every record family: 1.0.0.
pub open spec fn v1() -> SchemaVersion {
    SchemaVersion { major: 1, minor: 0, patch: 0 }
}

/// Current v1 instrument reference schema.
pub fn instrument_reference_schema() -> (v: SchemaVersion)
    ensures
        v == v1(),
{
    SchemaVersion::new(1, 0, 0)
}

/// Current v1 limit table schema.
pub fn limit_table_schema() -> (v: SchemaVersion)
    ensures
        v == v1(),
{
    SchemaVersion::new(1, 0, 0)
}

/// Current v1 audit record schema.
pub fn audit_record_schema() -> (v: SchemaVersion)
    ensures
        v == v1(),
{
    SchemaVersion::new(1, 0, 0)
}

/// Current v1 market snapshot schema.
pub fn market_snapshot_schema() -> (v: SchemaVersion)
    ensures
        v == v1(),
{
    SchemaVersion::new(1, 0, 0)
}

/// Current v1 portfolio validation fixture schema.
pub fn portfolio_validation_schema() -> (v: SchemaVersion)
    ensures
        v == v1(),
{
    SchemaVersion::new(1, 0, 0)
}

/// Versioned schema descriptor for a record family.
#[derive(Debug, Clone, Copy, PartialEq, Eq, Structural, Hash)]
pub struct SchemaDescriptor {
    /// Record family.
    pub kind: SchemaRecordKind,
    /// Current schema version.
    pub version: SchemaVersion,
}

impl SchemaDescriptor {
    /// Creates a schema descriptor.
    pub fn new(kind: SchemaRecordKind, version: SchemaVersion) -> (d: Self)
        ensures
            d.kind == kind,
            d.version == version,
    {
        SchemaDescriptor { kind, version }
    }
}

/// The current version of each record family.
pub open spec fn current_version(kind: SchemaRecordKind) -> SchemaVersion {
    match kind {
        SchemaRecordKind::InstrumentReference => v1(),
        SchemaRecordKind::LimitTable => v1(),
        SchemaRecordKind::AuditRecord => v1(),
        SchemaRecordKind::MarketSnapshot => v1(),
        SchemaRecordKind::PortfolioValidation => v1(),
    }
}

/// Returns the current schema descriptor for a record family.
pub fn current_schema(kind: SchemaRecordKind) -> (d: SchemaDescriptor)
    ensures
        d.kind == kind,
        d.version == current_version(kind),
{
    let version = match kind {
        SchemaRecordKind::InstrumentReference => instrument_reference_schema(),
        SchemaRecordKind::LimitTable => limit_table_schema(),
        SchemaRecordKind::AuditRecord => audit_record_schema(),
        SchemaRecordKind::MarketSnapshot => market_snapshot_schema(),
        SchemaRecordKind::PortfolioValidation => portfolio_validation_schema(),
    };
    SchemaDescriptor::new(kind, version)
}

} // verus!
