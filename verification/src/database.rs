//! Database implementation for the Databricks ADBC driver.

use vstd::prelude::*;
use vstd::string::*;
use crate::connection::{Connection, ConnectionView};
use crate::error::{DatabricksErrorHelper, Error, ErrorView};
use crate::options::{
    borrow_text, copy_text, invalid_option, text_is, text_of, unknown_option, unset_option,
    OptionConnection, OptionDatabase, OptionValue, OptionValueView,
};
use crate::reader::link::CloudFetchConfig;

verus! {

/// The key of the HTTP path of the warehouse.
pub const HTTP_PATH: &'static str = "databricks.http_path";

/// The key of the access token.
pub const ACCESS_TOKEN: &'static str = "databricks.access_token";

/// The key of the default catalog.
pub const CATALOG: &'static str = "databricks.catalog";

/// The key of the default schema.
pub const SCHEMA: &'static str = "databricks.schema";

/// The key of the number of chunks that may be under download at once.
pub const PARALLEL_DOWNLOADS: &'static str = "databricks.cloudfetch.parallel_downloads";

/// The key of the number of chunks that may be held ahead of delivery.
pub const PREFETCH_COUNT: &'static str = "databricks.cloudfetch.prefetch_count";

/// The key of the buffer budget in bytes.
pub const MAX_BUFFER_SIZE: &'static str = "databricks.cloudfetch.max_buffer_size";

/// The options that a database knows.
#[derive(Clone, Copy, Debug, PartialEq, Eq, Structural)]
pub enum DatabaseKey {
    Uri,
    HttpPath,
    AccessToken,
    Catalog,
    Schema,
    ParallelDownloads,
    PrefetchCount,
    MaxBufferSize,
}

/// Represents a database instance that holds connection configuration.
///
/// A Database is created from a Driver and is used to establish Connections.
/// Configuration options like host, credentials, and HTTP path are set on
/// the Database before creating connections.
#[derive(Debug)]
pub struct Database {
    uri: Option<String>,
    http_path: Option<String>,
    access_token: Option<String>,
    catalog: Option<String>,
    schema: Option<String>,
    cloudfetch: CloudFetchConfig,
}

/// What a database is configured with.
pub struct DatabaseView {
    pub uri: Option<Seq<char>>,
    pub http_path: Option<Seq<char>>,
    pub access_token: Option<Seq<char>>,
    pub catalog: Option<Seq<char>>,
    pub schema: Option<Seq<char>>,
    pub cloudfetch: CloudFetchConfig,
}

impl View for Database {
    type V = DatabaseView;

    closed spec fn view(&self) -> DatabaseView {
        DatabaseView {
            uri: text_of(self.uri),
            http_path: text_of(self.http_path),
            access_token: text_of(self.access_token),
            catalog: text_of(self.catalog),
            schema: text_of(self.schema),
            cloudfetch: self.cloudfetch,
        }
    }
}

/// A database with nothing set and the default download settings.
pub open spec fn unconfigured() -> DatabaseView {
    DatabaseView {
        uri: None,
        http_path: None,
        access_token: None,
        catalog: None,
        schema: None,
        cloudfetch: CloudFetchConfig {
            parallel_downloads: 3,
            prefetch_count: 2,
            max_buffer_size: 209_715_200,
        },
    }
}

/// The option that `key` names, if the database knows it.
pub open spec fn database_key(key: OptionDatabase) -> Option<DatabaseKey> {
    match key {
        OptionDatabase::Uri => Some(DatabaseKey::Uri),
        OptionDatabase::Other(name) => if name@ == HTTP_PATH@ {
            Some(DatabaseKey::HttpPath)
        } else if name@ == ACCESS_TOKEN@ {
            Some(DatabaseKey::AccessToken)
        } else if name@ == CATALOG@ {
            Some(DatabaseKey::Catalog)
        } else if name@ == SCHEMA@ {
            Some(DatabaseKey::Schema)
        } else if name@ == PARALLEL_DOWNLOADS@ {
            Some(DatabaseKey::ParallelDownloads)
        } else if name@ == PREFETCH_COUNT@ {
            Some(DatabaseKey::PrefetchCount)
        } else if name@ == MAX_BUFFER_SIZE@ {
            Some(DatabaseKey::MaxBufferSize)
        } else {
            None
        },
        _ => None,
    }
}

/// The database with a known option set to `value`, if the option takes
/// that value. The text options take any string. The download settings take
/// an integer that is not negative and that a `usize` can hold, and
/// `parallel_downloads` takes no zero.
pub open spec fn with_option(db: DatabaseView, key: DatabaseKey, value: OptionValueView) -> Option<
    DatabaseView,
> {
    match (key, value) {
        (DatabaseKey::Uri, OptionValueView::String(s)) => Some(DatabaseView { uri: Some(s), ..db }),
        (DatabaseKey::HttpPath, OptionValueView::String(s)) => Some(
            DatabaseView { http_path: Some(s), ..db },
        ),
        (DatabaseKey::AccessToken, OptionValueView::String(s)) => Some(
            DatabaseView { access_token: Some(s), ..db },
        ),
        (DatabaseKey::Catalog, OptionValueView::String(s)) => Some(
            DatabaseView { catalog: Some(s), ..db },
        ),
        (DatabaseKey::Schema, OptionValueView::String(s)) => Some(
            DatabaseView { schema: Some(s), ..db },
        ),
        (DatabaseKey::ParallelDownloads, OptionValueView::Int(n)) => if 1 <= n <= usize::MAX {
            Some(
                DatabaseView {
                    cloudfetch: CloudFetchConfig { parallel_downloads: n as usize, ..db.cloudfetch },
                    ..db
                },
            )
        } else {
            None
        },
        (DatabaseKey::PrefetchCount, OptionValueView::Int(n)) => if 0 <= n <= usize::MAX {
            Some(
                DatabaseView {
                    cloudfetch: CloudFetchConfig { prefetch_count: n as usize, ..db.cloudfetch },
                    ..db
                },
            )
        } else {
            None
        },
        (DatabaseKey::MaxBufferSize, OptionValueView::Int(n)) => if 0 <= n <= usize::MAX {
            Some(
                DatabaseView {
                    cloudfetch: CloudFetchConfig { max_buffer_size: n as usize, ..db.cloudfetch },
                    ..db
                },
            )
        } else {
            None
        },
        _ => None,
    }
}

/// What setting `key` to `value` gives: the database with the option set,
/// or the error for an unknown option or for a value that the option does
/// not take.
pub open spec fn set_option_result(db: DatabaseView, key: OptionDatabase, value: OptionValueView)
    -> Result<DatabaseView, ErrorView> {
    match database_key(key) {
        None => Err(unknown_option(key.name())),
        Some(k) => match with_option(db, k, value) {
            Some(next) => Ok(next),
            None => Err(invalid_option(key.name())),
        },
    }
}

/// What reading the text option `key` gives: its value, or the error for an
/// option that has none or that cannot be read as text. The access token
/// cannot be read back.
pub open spec fn get_option_string_result(db: DatabaseView, key: OptionDatabase) -> Result<
    Seq<char>,
    ErrorView,
> {
    let value = match database_key(key) {
        Some(DatabaseKey::Uri) => Some(db.uri),
        Some(DatabaseKey::HttpPath) => Some(db.http_path),
        Some(DatabaseKey::Catalog) => Some(db.catalog),
        Some(DatabaseKey::Schema) => Some(db.schema),
        _ => None,
    };
    match value {
        Some(Some(text)) => Ok(text),
        Some(None) => Err(unset_option(key.name())),
        None => Err(unknown_option(key.name())),
    }
}

/// What reading the integer option `key` gives: a download setting, or the
/// error for an option that is no integer.
pub open spec fn get_option_int_result(db: DatabaseView, key: OptionDatabase) -> Result<
    int,
    ErrorView,
> {
    let value = match database_key(key) {
        Some(DatabaseKey::ParallelDownloads) => Some(db.cloudfetch.parallel_downloads),
        Some(DatabaseKey::PrefetchCount) => Some(db.cloudfetch.prefetch_count),
        Some(DatabaseKey::MaxBufferSize) => Some(db.cloudfetch.max_buffer_size),
        _ => None,
    };
    match value {
        Some(n) => if n <= i64::MAX {
            Ok(n as int)
        } else {
            Err(invalid_option(key.name()))
        },
        None => Err(unknown_option(key.name())),
    }
}

/// The database after the options `opts` were set in order, or the error of
/// the first of them that cannot be set.
pub open spec fn configured(db: DatabaseView, opts: Seq<(OptionDatabase, OptionValue)>) -> Result<
    DatabaseView,
    ErrorView,
>
    decreases opts.len(),
{
    if opts.len() == 0 {
        Ok(db)
    } else {
        match set_option_result(db, opts[0].0, opts[0].1@) {
            Ok(next) => configured(next, opts.subrange(1, opts.len() as int)),
            Err(e) => Err(e),
        }
    }
}

/// The connection that a database with these settings opens.
pub open spec fn connection_of(db: DatabaseView) -> ConnectionView {
    ConnectionView {
        uri: db.uri,
        http_path: db.http_path,
        access_token: db.access_token,
        catalog: db.catalog,
        schema: db.schema,
        cloudfetch: db.cloudfetch,
    }
}

/// The option that `key` names, if the database knows it.
pub fn classify(key: &OptionDatabase) -> (known: Option<DatabaseKey>)
    ensures
        known == database_key(*key),
{
    match key {
        OptionDatabase::Uri => Some(DatabaseKey::Uri),
        OptionDatabase::Other(name) => {
            let name = name.as_str();
            if text_is(name, HTTP_PATH) {
                Some(DatabaseKey::HttpPath)
            } else if text_is(name, ACCESS_TOKEN) {
                Some(DatabaseKey::AccessToken)
            } else if text_is(name, CATALOG) {
                Some(DatabaseKey::Catalog)
            } else if text_is(name, SCHEMA) {
                Some(DatabaseKey::Schema)
            } else if text_is(name, PARALLEL_DOWNLOADS) {
                Some(DatabaseKey::ParallelDownloads)
            } else if text_is(name, PREFETCH_COUNT) {
                Some(DatabaseKey::PrefetchCount)
            } else if text_is(name, MAX_BUFFER_SIZE) {
                Some(DatabaseKey::MaxBufferSize)
            } else {
                None
            }
        },
        _ => None,
    }
}

/// The count that `value` gives for a download setting: an integer of at
/// least `least` that a `usize` can hold.
fn count_of(value: &OptionValue, least: i64) -> (count: Option<usize>)
    requires
        0 <= least,
    ensures
        match count {
            Some(n) => value@ == OptionValueView::Int(n as int) && least <= n,
            None => !(value@ matches OptionValueView::Int(n) && least <= n <= usize::MAX),
        },
{
    match value {
        OptionValue::Int(n) => {
            if *n >= least && (*n as u64) <= usize::MAX as u64 {
                Some(*n as usize)
            } else {
                None
            }
        },
        _ => None,
    }
}

impl Database {
    /// Creates a new Database instance.
    pub fn new() -> (db: Self)
        ensures
            db@ == unconfigured(),
    {
        Database {
            uri: None,
            http_path: None,
            access_token: None,
            catalog: None,
            schema: None,
            cloudfetch: CloudFetchConfig::default(),
        }
    }

    /// Returns the configured URI.
    pub fn uri(&self) -> (uri: Option<&str>)
        ensures
            match uri {
                Some(t) => self@.uri == Some(t@),
                None => self@.uri is None,
            },
    {
        borrow_text(&self.uri)
    }

    /// Returns the configured HTTP path.
    pub fn http_path(&self) -> (path: Option<&str>)
        ensures
            match path {
                Some(t) => self@.http_path == Some(t@),
                None => self@.http_path is None,
            },
    {
        borrow_text(&self.http_path)
    }

    /// Returns the configured catalog.
    pub fn catalog(&self) -> (catalog: Option<&str>)
        ensures
            match catalog {
                Some(t) => self@.catalog == Some(t@),
                None => self@.catalog is None,
            },
    {
        borrow_text(&self.catalog)
    }

    /// Returns the configured schema.
    pub fn schema(&self) -> (schema: Option<&str>)
        ensures
            match schema {
                Some(t) => self@.schema == Some(t@),
                None => self@.schema is None,
            },
    {
        borrow_text(&self.schema)
    }

    /// Returns the configured download settings.
    pub fn cloudfetch(&self) -> (config: CloudFetchConfig)
        ensures
            config == self@.cloudfetch,
    {
        self.cloudfetch
    }

    /// Sets the option `key` to `value`. An option that the database does
    /// not know, and a value that the option does not take, are rejected
    /// with an `InvalidArgument` error, and the database stays as it was.
    pub fn set_option(&mut self, key: OptionDatabase, value: OptionValue) -> (r: Result<(), Error>)
        ensures
            match set_option_result(old(self)@, key, value@) {
                Ok(next) => r is Ok && final(self)@ == next,
                Err(e) => r is Err && r->Err_0@ == e && final(self)@ == old(self)@,
            },
    {
        let known = match classify(&key) {
            Some(k) => k,
            None => {
                return Err(DatabricksErrorHelper::set_unknown_option(key.as_str()));
            },
        };
        match known {
            DatabaseKey::Uri => {
                if let OptionValue::String(s) = value {
                    self.uri = Some(s);
                    Ok(())
                } else {
                    Err(DatabricksErrorHelper::set_invalid_option(key.as_str()))
                }
            },
            DatabaseKey::HttpPath => {
                if let OptionValue::String(s) = value {
                    self.http_path = Some(s);
                    Ok(())
                } else {
                    Err(DatabricksErrorHelper::set_invalid_option(key.as_str()))
                }
            },
            DatabaseKey::AccessToken => {
                if let OptionValue::String(s) = value {
                    self.access_token = Some(s);
                    Ok(())
                } else {
                    Err(DatabricksErrorHelper::set_invalid_option(key.as_str()))
                }
            },
            DatabaseKey::Catalog => {
                if let OptionValue::String(s) = value {
                    self.catalog = Some(s);
                    Ok(())
                } else {
                    Err(DatabricksErrorHelper::set_invalid_option(key.as_str()))
                }
            },
            DatabaseKey::Schema => {
                if let OptionValue::String(s) = value {
                    self.schema = Some(s);
                    Ok(())
                } else {
                    Err(DatabricksErrorHelper::set_invalid_option(key.as_str()))
                }
            },
            DatabaseKey::ParallelDownloads => {
                match count_of(&value, 1) {
                    Some(n) => {
                        self.cloudfetch.parallel_downloads = n;
                        Ok(())
                    },
                    None => Err(DatabricksErrorHelper::set_invalid_option(key.as_str())),
                }
            },
            DatabaseKey::PrefetchCount => {
                match count_of(&value, 0) {
                    Some(n) => {
                        self.cloudfetch.prefetch_count = n;
                        Ok(())
                    },
                    None => Err(DatabricksErrorHelper::set_invalid_option(key.as_str())),
                }
            },
            DatabaseKey::MaxBufferSize => {
                match count_of(&value, 0) {
                    Some(n) => {
                        self.cloudfetch.max_buffer_size = n;
                        Ok(())
                    },
                    None => Err(DatabricksErrorHelper::set_invalid_option(key.as_str())),
                }
            },
        }
    }

    /// Reads the text option `key`: the URI, the HTTP path, the catalog or
    /// the schema. An option that has no value, and one that is no such
    /// option, give an `InvalidArgument` error.
    pub fn get_option_string(&self, key: OptionDatabase) -> (r: Result<String, Error>)
        ensures
            match get_option_string_result(self@, key) {
                Ok(text) => r is Ok && r->Ok_0@ == text,
                Err(e) => r is Err && r->Err_0@ == e,
            },
    {
        let value = match classify(&key) {
            Some(DatabaseKey::Uri) => &self.uri,
            Some(DatabaseKey::HttpPath) => &self.http_path,
            Some(DatabaseKey::Catalog) => &self.catalog,
            Some(DatabaseKey::Schema) => &self.schema,
            _ => {
                return Err(DatabricksErrorHelper::get_unknown_option(key.as_str()));
            },
        };
        match value {
            Some(text) => Ok(text.clone()),
            None => {
                let mut message = String::from_str("option is not set: ");
                message.append(key.as_str());
                Err(DatabricksErrorHelper::invalid_argument().message(message.as_str()))
            },
        }
    }

    /// Reads a bytes option. The database has none: every key gives the
    /// error for an unknown option.
    pub fn get_option_bytes(&self, key: OptionDatabase) -> (r: Result<Vec<u8>, Error>)
        ensures
            r is Err,
            r->Err_0@ == unknown_option(key.name()),
    {
        Err(DatabricksErrorHelper::get_unknown_option(key.as_str()))
    }

    /// Reads the integer option `key`: one of the download settings. Another
    /// key gives the error for an unknown option.
    pub fn get_option_int(&self, key: OptionDatabase) -> (r: Result<i64, Error>)
        ensures
            match get_option_int_result(self@, key) {
                Ok(n) => r is Ok && r->Ok_0 == n,
                Err(e) => r is Err && r->Err_0@ == e,
            },
    {
        let value = match classify(&key) {
            Some(DatabaseKey::ParallelDownloads) => self.cloudfetch.parallel_downloads,
            Some(DatabaseKey::PrefetchCount) => self.cloudfetch.prefetch_count,
            Some(DatabaseKey::MaxBufferSize) => self.cloudfetch.max_buffer_size,
            _ => {
                return Err(DatabricksErrorHelper::get_unknown_option(key.as_str()));
            },
        };
        if value as u64 <= i64::MAX as u64 {
            Ok(value as i64)
        } else {
            Err(DatabricksErrorHelper::set_invalid_option(key.as_str()))
        }
    }

    /// Reads a double option, as its bit pattern. The database has none:
    /// every key gives the error for an unknown option.
    pub fn get_option_double(&self, key: OptionDatabase) -> (r: Result<u64, Error>)
        ensures
            r is Err,
            r->Err_0@ == unknown_option(key.name()),
    {
        Err(DatabricksErrorHelper::get_unknown_option(key.as_str()))
    }

    /// Opens a connection with the settings of this database.
    pub fn new_connection(&self) -> (r: Result<Connection, Error>)
        ensures
            r is Ok,
            r->Ok_0@ == connection_of(self@),
    {
        Ok(
            Connection::new(
                copy_text(&self.uri),
                copy_text(&self.http_path),
                copy_text(&self.access_token),
                copy_text(&self.catalog),
                copy_text(&self.schema),
            ).with_cloudfetch(self.cloudfetch),
        )
    }

    /// Opens a connection with the settings of this database and sets the
    /// options `opts` on it, in order. The first option that the connection
    /// rejects fails the call with the connection's error.
    pub fn new_connection_with_opts(&self, opts: Vec<(OptionConnection, OptionValue)>) -> (r:
        Result<Connection, Error>)
        ensures
            match crate::connection::first_rejected(opts@, 0) {
                None => r is Ok && r->Ok_0@ == connection_of(self@),
                Some(i) => r is Err && r->Err_0@ == unknown_option(opts@[i].0.name()),
            },
    {
        let mut connection = Connection::new(
            copy_text(&self.uri),
            copy_text(&self.http_path),
            copy_text(&self.access_token),
            copy_text(&self.catalog),
            copy_text(&self.schema),
        ).with_cloudfetch(self.cloudfetch);
        let ghost all = opts@;
        let mut rest = opts;
        let ghost mut done: int = 0;
        while rest.len() > 0
            invariant
                0 <= done <= all.len(),
                all == opts@,
                rest@ == all.subrange(done, all.len() as int),
                connection@ == connection_of(self@),
                crate::connection::first_rejected(all, 0) == crate::connection::first_rejected(
                    all,
                    done,
                ),
            decreases rest@.len(),
        {
            let (key, value) = rest.remove(0);
            assert(key == all[done].0);
            let ghost rejected = !(key is AutoCommit);
            match connection.set_option(key, value) {
                Ok(()) => {
                    assert(!rejected);
                },
                Err(e) => {
                    assert(rejected);
                    assert(crate::connection::first_rejected(all, done) == Some(done));
                    return Err(e);
                },
            }
            proof {
                assert(rest@ =~= all.subrange(done + 1, all.len() as int));
                assert(crate::connection::first_rejected(all, done)
                    == crate::connection::first_rejected(all, done + 1));
                done = done + 1;
            }
        }
        assert(crate::connection::first_rejected(all, done) is None);
        Ok(connection)
    }
}

} // verus!
