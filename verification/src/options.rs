//! Option keys and values, as the database, connection and statement objects
//! take them.
//!
//! These mirror the option model of ADBC: a key is one of a few well-known
//! names or any other string, and a value is a string, a byte string, an
//! integer or a double.

use vstd::prelude::*;
use vstd::string::*;
use crate::error::{plain, ErrorView, Status};

verus! {

/// The value of an option.
#[derive(Debug)]
pub enum OptionValue {
    String(String),
    Bytes(Vec<u8>),
    Int(i64),
    /// A double, held as its IEEE 754 bit pattern.
    Double(u64),
}

/// An option value as mathematical data.
pub enum OptionValueView {
    String(Seq<char>),
    Bytes(Seq<u8>),
    Int(int),
    Double(u64),
}

impl View for OptionValue {
    type V = OptionValueView;

    open spec fn view(&self) -> OptionValueView {
        match self {
            OptionValue::String(s) => OptionValueView::String(s@),
            OptionValue::Bytes(b) => OptionValueView::Bytes(b@),
            OptionValue::Int(n) => OptionValueView::Int(*n as int),
            OptionValue::Double(bits) => OptionValueView::Double(*bits),
        }
    }
}

/// A database option key.
#[derive(Debug)]
pub enum OptionDatabase {
    Uri,
    Username,
    Password,
    Other(String),
}

/// A connection option key.
#[derive(Debug)]
pub enum OptionConnection {
    AutoCommit,
    ReadOnly,
    CurrentCatalog,
    CurrentSchema,
    IsolationLevel,
    Other(String),
}

/// A statement option key.
#[derive(Debug)]
pub enum OptionStatement {
    IngestMode,
    TargetTable,
    TargetCatalog,
    TargetDbSchema,
    Temporary,
    Incremental,
    Progress,
    MaxProgress,
    Other(String),
}

/// How deep a catalog listing goes.
#[derive(Clone, Copy, Debug, PartialEq, Eq, Structural)]
pub enum ObjectDepth {
    All,
    Catalogs,
    Schemas,
    Tables,
    Columns,
}

/// A piece of driver or vendor metadata that a connection can report.
#[derive(Clone, Copy, Debug, PartialEq, Eq, Structural)]
pub enum InfoCode {
    VendorName,
    VendorVersion,
    VendorArrowVersion,
    VendorSql,
    VendorSubstrait,
    VendorSubstraitMinVersion,
    VendorSubstraitMaxVersion,
    DriverName,
    DriverVersion,
    DriverArrowVersion,
    DriverAdbcVersion,
    Other(u32),
}

impl InfoCode {
    /// The number that stands for this code on the wire.
    pub open spec fn number(self) -> u32 {
        match self {
            InfoCode::VendorName => 0,
            InfoCode::VendorVersion => 1,
            InfoCode::VendorArrowVersion => 2,
            InfoCode::VendorSql => 3,
            InfoCode::VendorSubstrait => 4,
            InfoCode::VendorSubstraitMinVersion => 5,
            InfoCode::VendorSubstraitMaxVersion => 6,
            InfoCode::DriverName => 100,
            InfoCode::DriverVersion => 101,
            InfoCode::DriverArrowVersion => 102,
            InfoCode::DriverAdbcVersion => 103,
            InfoCode::Other(n) => n,
        }
    }

    /// The number that stands for this code on the wire.
    pub fn code(&self) -> (n: u32)
        ensures
            n == self.number(),
    {
        match self {
            InfoCode::VendorName => 0,
            InfoCode::VendorVersion => 1,
            InfoCode::VendorArrowVersion => 2,
            InfoCode::VendorSql => 3,
            InfoCode::VendorSubstrait => 4,
            InfoCode::VendorSubstraitMinVersion => 5,
            InfoCode::VendorSubstraitMaxVersion => 6,
            InfoCode::DriverName => 100,
            InfoCode::DriverVersion => 101,
            InfoCode::DriverArrowVersion => 102,
            InfoCode::DriverAdbcVersion => 103,
            InfoCode::Other(n) => *n,
        }
    }
}

impl OptionDatabase {
    /// The name of this key.
    pub open spec fn name(self) -> Seq<char> {
        match self {
            OptionDatabase::Uri => "uri"@,
            OptionDatabase::Username => "username"@,
            OptionDatabase::Password => "password"@,
            OptionDatabase::Other(key) => key@,
        }
    }

    /// The name of this key.
    pub fn as_str(&self) -> (name: &str)
        ensures
            name@ == self.name(),
    {
        match self {
            OptionDatabase::Uri => "uri",
            OptionDatabase::Username => "username",
            OptionDatabase::Password => "password",
            OptionDatabase::Other(key) => key.as_str(),
        }
    }
}

impl OptionConnection {
    /// The name of this key.
    pub open spec fn name(self) -> Seq<char> {
        match self {
            OptionConnection::AutoCommit => "adbc.connection.autocommit"@,
            OptionConnection::ReadOnly => "adbc.connection.readonly"@,
            OptionConnection::CurrentCatalog => "adbc.connection.catalog"@,
            OptionConnection::CurrentSchema => "adbc.connection.db_schema"@,
            OptionConnection::IsolationLevel => "adbc.connection.transaction.isolation_level"@,
            OptionConnection::Other(key) => key@,
        }
    }

    /// The name of this key.
    pub fn as_str(&self) -> (name: &str)
        ensures
            name@ == self.name(),
    {
        match self {
            OptionConnection::AutoCommit => "adbc.connection.autocommit",
            OptionConnection::ReadOnly => "adbc.connection.readonly",
            OptionConnection::CurrentCatalog => "adbc.connection.catalog",
            OptionConnection::CurrentSchema => "adbc.connection.db_schema",
            OptionConnection::IsolationLevel => "adbc.connection.transaction.isolation_level",
            OptionConnection::Other(key) => key.as_str(),
        }
    }
}

impl OptionStatement {
    /// The name of this key.
    pub open spec fn name(self) -> Seq<char> {
        match self {
            OptionStatement::IngestMode => "adbc.ingest.mode"@,
            OptionStatement::TargetTable => "adbc.ingest.target_table"@,
            OptionStatement::TargetCatalog => "adbc.ingest.target_catalog"@,
            OptionStatement::TargetDbSchema => "adbc.ingest.target_db_schema"@,
            OptionStatement::Temporary => "adbc.ingest.temporary"@,
            OptionStatement::Incremental => "adbc.statement.exec.incremental"@,
            OptionStatement::Progress => "adbc.statement.exec.progress"@,
            OptionStatement::MaxProgress => "adbc.statement.exec.max_progress"@,
            OptionStatement::Other(key) => key@,
        }
    }

    /// The name of this key.
    pub fn as_str(&self) -> (name: &str)
        ensures
            name@ == self.name(),
    {
        match self {
            OptionStatement::IngestMode => "adbc.ingest.mode",
            OptionStatement::TargetTable => "adbc.ingest.target_table",
            OptionStatement::TargetCatalog => "adbc.ingest.target_catalog",
            OptionStatement::TargetDbSchema => "adbc.ingest.target_db_schema",
            OptionStatement::Temporary => "adbc.ingest.temporary",
            OptionStatement::Incremental => "adbc.statement.exec.incremental",
            OptionStatement::Progress => "adbc.statement.exec.progress",
            OptionStatement::MaxProgress => "adbc.statement.exec.max_progress",
            OptionStatement::Other(key) => key.as_str(),
        }
    }
}

/// The error for an option that is not known.
pub open spec fn unknown_option(name: Seq<char>) -> ErrorView {
    plain(Status::InvalidArgument, "unknown option: "@ + name)
}

/// The error for a value that an option does not take.
pub open spec fn invalid_option(name: Seq<char>) -> ErrorView {
    plain(Status::InvalidArgument, "invalid value for option: "@ + name)
}

/// The error for reading an option that has no value.
pub open spec fn unset_option(name: Seq<char>) -> ErrorView {
    plain(Status::InvalidArgument, "option is not set: "@ + name)
}

/// Whether `text` reads exactly as `literal`.
pub fn text_is(text: &str, literal: &str) -> (same: bool)
    ensures
        same == (text@ == literal@),
{
    String::from_str(text) == String::from_str(literal)
}

/// The view of an optional text.
pub open spec fn text_of(text: Option<String>) -> Option<Seq<char>> {
    match text {
        Some(t) => Some(t@),
        None => None,
    }
}

/// A copy of an optional text.
pub fn copy_text(text: &Option<String>) -> (copy: Option<String>)
    ensures
        text_of(copy) == text_of(*text),
{
    match text {
        Some(t) => Some(t.clone()),
        None => None,
    }
}

/// An optional text, borrowed.
pub fn borrow_text(text: &Option<String>) -> (borrowed: Option<&str>)
    ensures
        match borrowed {
            Some(t) => text_of(*text) == Some(t@),
            None => text_of(*text) is None,
        },
{
    match text {
        Some(t) => Some(t.as_str()),
        None => None,
    }
}

} // verus!
