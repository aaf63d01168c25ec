//! Connection implementation for the Databricks ADBC driver.

use vstd::prelude::*;
use vstd::string::*;
use std::sync::Arc;
use crate::error::{plain, DatabricksErrorHelper, Error, Status};
use crate::features::{feature_name, missing, require, Feature};
use crate::options::{
    borrow_text, text_of, unknown_option, InfoCode, ObjectDepth, OptionConnection, OptionValue,
};
use crate::reader::link::CloudFetchConfig;
use crate::result::ResultSet;
use crate::statement::{idle, Endpoint, EndpointView, Statement};

verus! {

/// The name that this driver reports for itself.
pub const DRIVER_NAME: &'static str = "Databricks ADBC Driver";

/// The version that this driver reports for itself.
pub const DRIVER_VERSION: &'static str = "0.1.0";

/// The name that this driver reports for the vendor of the warehouse.
pub const VENDOR_NAME: &'static str = "Databricks";

/// Represents an active connection to a Databricks SQL endpoint.
///
/// A Connection is created from a Database and is used to create Statements
/// for executing SQL queries.
#[derive(Debug)]
pub struct Connection {
    uri: Option<String>,
    http_path: Option<String>,
    access_token: Option<String>,
    catalog: Option<String>,
    schema: Option<String>,
    cloudfetch: CloudFetchConfig,
}

/// What a connection is configured with.
pub struct ConnectionView {
    pub uri: Option<Seq<char>>,
    pub http_path: Option<Seq<char>>,
    pub access_token: Option<Seq<char>>,
    pub catalog: Option<Seq<char>>,
    pub schema: Option<Seq<char>>,
    pub cloudfetch: CloudFetchConfig,
}

impl View for Connection {
    type V = ConnectionView;

    closed spec fn view(&self) -> ConnectionView {
        ConnectionView {
            uri: text_of(self.uri),
            http_path: text_of(self.http_path),
            access_token: text_of(self.access_token),
            catalog: text_of(self.catalog),
            schema: text_of(self.schema),
            cloudfetch: self.cloudfetch,
        }
    }
}

/// The place of the first option from `from` on that a connection rejects:
/// a connection takes the auto-commit option, whatever its value, and no
/// other.
pub open spec fn first_rejected(opts: Seq<(OptionConnection, OptionValue)>, from: int) -> Option<
    int,
>
    decreases opts.len() - from,
{
    if from < 0 || from >= opts.len() {
        None
    } else if opts[from].0 is AutoCommit {
        first_rejected(opts, from + 1)
    } else {
        Some(from)
    }
}

/// The endpoint of a connection: it has one where it has a URI, an HTTP
/// path and an access token.
pub open spec fn endpoint_of_connection(c: ConnectionView) -> Option<EndpointView> {
    if c.uri is Some && c.http_path is Some && c.access_token is Some {
        Some(
            EndpointView {
                uri: c.uri->Some_0,
                http_path: c.http_path->Some_0,
                access_token: c.access_token->Some_0,
            },
        )
    } else {
        None
    }
}

/// Whether the metadata with `code` is asked for: all of it is where no
/// codes are given.
pub open spec fn wanted(codes: Option<Seq<InfoCode>>, code: InfoCode) -> bool {
    match codes {
        Some(asked) => asked.contains(code),
        None => true,
    }
}

/// The metadata that a connection reports for `codes`: the driver's name,
/// the driver's version and the vendor's name, in this order, each where it
/// is asked for, as pairs of the code's number and the text.
pub open spec fn info_entries(codes: Option<Seq<InfoCode>>) -> Seq<(u32, Seq<char>)> {
    (if wanted(codes, InfoCode::DriverName) {
        seq![(100u32, DRIVER_NAME@)]
    } else {
        Seq::empty()
    }) + (if wanted(codes, InfoCode::DriverVersion) {
        seq![(101u32, DRIVER_VERSION@)]
    } else {
        Seq::empty()
    }) + (if wanted(codes, InfoCode::VendorName) {
        seq![(0u32, VENDOR_NAME@)]
    } else {
        Seq::empty()
    })
}

/// The entries of a metadata report, as mathematical data.
pub open spec fn entry_views(entries: Seq<(u32, String)>) -> Seq<(u32, Seq<char>)> {
    Seq::new(entries.len(), |i: int| (entries[i].0, entries[i].1@))
}

/// Whether the metadata with `code` is asked for.
fn is_wanted(codes: &Option<Vec<InfoCode>>, code: InfoCode) -> (yes: bool)
    ensures
        yes == wanted(
            match codes {
                Some(asked) => Some(asked@),
                None => None,
            },
            code,
        ),
{
    match codes {
        None => true,
        Some(asked) => {
            let mut i: usize = 0;
            while i < asked.len()
                invariant
                    i <= asked@.len(),
                    *codes == Some(*asked),
                    forall|j: int| 0 <= j < i ==> asked@[j] != code,
                decreases asked@.len() - i,
            {
                if asked[i] == code {
                    assert(asked@[i as int] == code);
                    return true;
                }
                i = i + 1;
            }
            false
        },
    }
}

impl Connection {
    /// Creates a new Connection with the given configuration and the default
    /// download settings.
    pub fn new(
        uri: Option<String>,
        http_path: Option<String>,
        access_token: Option<String>,
        catalog: Option<String>,
        schema: Option<String>,
    ) -> (connection: Self)
        ensures
            connection@ == (ConnectionView {
                uri: text_of(uri),
                http_path: text_of(http_path),
                access_token: text_of(access_token),
                catalog: text_of(catalog),
                schema: text_of(schema),
                cloudfetch: CloudFetchConfig {
                    parallel_downloads: 3,
                    prefetch_count: 2,
                    max_buffer_size: 209_715_200,
                },
            }),
    {
        Connection {
            uri,
            http_path,
            access_token,
            catalog,
            schema,
            cloudfetch: CloudFetchConfig::default(),
        }
    }

    /// The same connection with the download settings `cloudfetch`.
    pub fn with_cloudfetch(self, cloudfetch: CloudFetchConfig) -> (connection: Self)
        ensures
            connection@ == (ConnectionView { cloudfetch, ..self@ }),
    {
        Connection { cloudfetch, ..self }
    }

    /// Returns the configured URI.
    pub fn uri(&self) -> (uri: Option<&str>)
        ensures
            match uri {
                Some(t) => self@.uri == Some(t@),
                None => self@.uri is None,
            },
    {
        borrow_text(&self.uri)
    }

    /// Returns the configured HTTP path.
    pub fn http_path(&self) -> (path: Option<&str>)
        ensures
            match path {
                Some(t) => self@.http_path == Some(t@),
                None => self@.http_path is None,
            },
    {
        borrow_text(&self.http_path)
    }

    /// Returns the configured catalog.
    pub fn catalog(&self) -> (catalog: Option<&str>)
        ensures
            match catalog {
                Some(t) => self@.catalog == Some(t@),
                None => self@.catalog is None,
            },
    {
        borrow_text(&self.catalog)
    }

    /// Returns the configured schema.
    pub fn schema(&self) -> (schema: Option<&str>)
        ensures
            match schema {
                Some(t) => self@.schema == Some(t@),
                None => self@.schema is None,
            },
    {
        borrow_text(&self.schema)
    }

    /// Returns the configured download settings.
    pub fn cloudfetch(&self) -> (config: CloudFetchConfig)
        ensures
            config == self@.cloudfetch,
    {
        self.cloudfetch
    }

    /// Sets an option. The auto-commit option is taken, whatever its value,
    /// and changes nothing: the warehouse commits each statement by itself.
    /// Every other key is rejected.
    pub fn set_option(&mut self, key: OptionConnection, value: OptionValue) -> (r: Result<
        (),
        Error,
    >)
        ensures
            final(self)@ == old(self)@,
            key is AutoCommit ==> r is Ok,
            !(key is AutoCommit) ==> r is Err && r->Err_0@ == unknown_option(key.name()),
    {
        match key {
            OptionConnection::AutoCommit => Ok(()),
            _ => Err(DatabricksErrorHelper::set_unknown_option(key.as_str())),
        }
    }

    /// Reads a text option. A connection has none to read: every key is
    /// rejected.
    pub fn get_option_string(&self, key: OptionConnection) -> (r: Result<String, Error>)
        ensures
            r is Err,
            r->Err_0@ == unknown_option(key.name()),
    {
        Err(DatabricksErrorHelper::get_unknown_option(key.as_str()))
    }

    /// Reads a bytes option. A connection has none: every key is rejected.
    pub fn get_option_bytes(&self, key: OptionConnection) -> (r: Result<Vec<u8>, Error>)
        ensures
            r is Err,
            r->Err_0@ == unknown_option(key.name()),
    {
        Err(DatabricksErrorHelper::get_unknown_option(key.as_str()))
    }

    /// Reads an integer option. A connection has none: every key is
    /// rejected.
    pub fn get_option_int(&self, key: OptionConnection) -> (r: Result<i64, Error>)
        ensures
            r is Err,
            r->Err_0@ == unknown_option(key.name()),
    {
        Err(DatabricksErrorHelper::get_unknown_option(key.as_str()))
    }

    /// Reads a double option, as its bit pattern. A connection has none:
    /// every key is rejected.
    pub fn get_option_double(&self, key: OptionConnection) -> (r: Result<u64, Error>)
        ensures
            r is Err,
            r->Err_0@ == unknown_option(key.name()),
    {
        Err(DatabricksErrorHelper::get_unknown_option(key.as_str()))
    }

    /// Creates a statement. The statement submits to the endpoint of this
    /// connection where the connection has a URI, an HTTP path and an access
    /// token; a statement of a connection that lacks one of them takes query
    /// text and cannot execute.
    pub fn new_statement(&mut self) -> (r: Result<Statement, Error>)
        ensures
            final(self)@ == old(self)@,
            r is Ok,
            r->Ok_0.wf(),
            r->Ok_0@ == idle(endpoint_of_connection(old(self)@), old(self)@.cloudfetch, None),
    {
        let endpoint = match (&self.uri, &self.http_path, &self.access_token) {
            (Some(uri), Some(http_path), Some(access_token)) => Some(
                Endpoint {
                    uri: uri.clone(),
                    http_path: http_path.clone(),
                    access_token: access_token.clone(),
                },
            ),
            _ => None,
        };
        Ok(Statement::with_endpoint(endpoint, self.cloudfetch))
    }

    /// Cancels what the connection is doing. A connection itself does
    /// nothing that could be cancelled: its statements are cancelled one by
    /// one.
    pub fn cancel(&mut self) -> (r: Result<(), Error>)
        ensures
            r is Ok,
            final(self)@ == old(self)@,
    {
        Ok(())
    }

    /// Reports metadata of the driver and the vendor: for each of `codes`
    /// that the driver knows, or for all that it knows where no codes are
    /// given, the code's number and the text.
    pub fn get_info(&self, codes: Option<Vec<InfoCode>>) -> (r: Result<Vec<(u32, String)>, Error>)
        ensures
            r is Ok,
            entry_views(r->Ok_0@) == info_entries(
                match codes {
                    Some(asked) => Some(asked@),
                    None => None,
                },
            ),
    {
        match require(Feature::GetInfo) {
            Ok(()) => {},
            Err(e) => {
                return Err(e);
            },
        }
        let mut entries: Vec<(u32, String)> = Vec::new();
        if is_wanted(&codes, InfoCode::DriverName) {
            entries.push((InfoCode::DriverName.code(), String::from_str(DRIVER_NAME)));
        }
        if is_wanted(&codes, InfoCode::DriverVersion) {
            entries.push((InfoCode::DriverVersion.code(), String::from_str(DRIVER_VERSION)));
        }
        if is_wanted(&codes, InfoCode::VendorName) {
            entries.push((InfoCode::VendorName.code(), String::from_str(VENDOR_NAME)));
        }
        assert(entry_views(entries@) =~= info_entries(
            match codes {
                Some(asked) => Some(asked@),
                None => None,
            },
        ));
        Ok(entries)
    }

    /// Catalog listings are not supported.
    pub fn get_objects(
        &self,
        depth: ObjectDepth,
        catalog: Option<&str>,
        db_schema: Option<&str>,
        table_name: Option<&str>,
        table_type: Option<Vec<&str>>,
        column_name: Option<&str>,
    ) -> (r: Result<ResultSet, Error>)
        ensures
            r is Err,
            r->Err_0@ == plain(Status::NotImplemented, feature_name(Feature::GetObjects)),
    {
        Err(missing(Feature::GetObjects))
    }

    /// Table schemas are not supported.
    pub fn get_table_schema(
        &self,
        catalog: Option<&str>,
        db_schema: Option<&str>,
        table_name: &str,
    ) -> (r: Result<Arc<arrow_schema::Schema>, Error>)
        ensures
            r is Err,
            r->Err_0@ == plain(Status::NotImplemented, feature_name(Feature::GetTableSchema)),
    {
        Err(missing(Feature::GetTableSchema))
    }

    /// Table type listings are not supported.
    pub fn get_table_types(&self) -> (r: Result<ResultSet, Error>)
        ensures
            r is Err,
            r->Err_0@ == plain(Status::NotImplemented, feature_name(Feature::GetTableTypes)),
    {
        Err(missing(Feature::GetTableTypes))
    }

    /// Partitioned results are not supported.
    pub fn read_partition(&self, partition: &[u8]) -> (r: Result<ResultSet, Error>)
        ensures
            r is Err,
            r->Err_0@ == plain(Status::NotImplemented, feature_name(Feature::ReadPartition)),
    {
        Err(missing(Feature::ReadPartition))
    }

    /// Commits. There is nothing to commit: the warehouse commits each
    /// statement by itself.
    pub fn commit(&mut self) -> (r: Result<(), Error>)
        ensures
            r is Ok,
            final(self)@ == old(self)@,
    {
        require(Feature::Commit)
    }

    /// Rolling back is not supported: the warehouse commits each statement
    /// by itself.
    pub fn rollback(&mut self) -> (r: Result<(), Error>)
        ensures
            r is Err,
            r->Err_0@ == plain(Status::NotImplemented, feature_name(Feature::Rollback)),
            final(self)@ == old(self)@,
    {
        Err(missing(Feature::Rollback))
    }

    /// Statistic names are not supported.
    pub fn get_statistic_names(&self) -> (r: Result<ResultSet, Error>)
        ensures
            r is Err,
            r->Err_0@ == plain(Status::NotImplemented, feature_name(Feature::GetStatisticNames)),
    {
        Err(missing(Feature::GetStatisticNames))
    }

    /// Statistics are not supported.
    pub fn get_statistics(
        &self,
        catalog: Option<&str>,
        db_schema: Option<&str>,
        table_name: Option<&str>,
        approximate: bool,
    ) -> (r: Result<ResultSet, Error>)
        ensures
            r is Err,
            r->Err_0@ == plain(Status::NotImplemented, feature_name(Feature::GetStatistics)),
    {
        Err(missing(Feature::GetStatistics))
    }
}

} // verus!
