//! ADBC Driver implementation for Databricks.

use vstd::prelude::*;
use crate::database::{configured, set_option_result, unconfigured, Database};
use crate::error::Error;
use crate::options::{OptionDatabase, OptionValue};

verus! {

/// The main entry point for the Databricks ADBC driver.
///
/// The Driver is responsible for creating Database instances, which in turn
/// create Connections.
#[derive(Debug)]
pub struct Driver {}

impl Driver {
    /// Creates a new Driver instance.
    pub fn new() -> (driver: Self) {
        Driver {  }
    }

    /// Creates a database with nothing set and the default download
    /// settings.
    pub fn new_database(&mut self) -> (r: Result<Database, Error>)
        ensures
            r is Ok,
            r->Ok_0@ == unconfigured(),
    {
        Ok(Database::new())
    }

    /// Creates a database and sets the options `opts` on it, in order. The
    /// first option that the database rejects fails the call with the
    /// database's error.
    pub fn new_database_with_opts(&mut self, opts: Vec<(OptionDatabase, OptionValue)>) -> (r:
        Result<Database, Error>)
        ensures
            match configured(unconfigured(), opts@) {
                Ok(db) => r is Ok && r->Ok_0@ == db,
                Err(e) => r is Err && r->Err_0@ == e,
            },
    {
        let mut database = Database::new();
        let mut rest = opts;
        while rest.len() > 0
            invariant
                configured(database@, rest@) == configured(unconfigured(), opts@),
            decreases rest@.len(),
        {
            let ghost before = rest@;
            let ghost settings = database@;
            let (key, value) = rest.remove(0);
            assert(rest@ =~= before.subrange(1, before.len() as int));
            assert(key == before[0].0 && value == before[0].1);
            assert(configured(settings, before) == match set_option_result(
                settings,
                key,
                value@,
            ) {
                Ok(next) => configured(next, rest@),
                Err(e) => Err(e),
            });
            match database.set_option(key, value) {
                Ok(()) => {},
                Err(e) => {
                    return Err(e);
                },
            }
        }
        Ok(database)
    }
}

impl Default for Driver {
    fn default() -> (driver: Self) {
        Driver::new()
    }
}

} // verus!
