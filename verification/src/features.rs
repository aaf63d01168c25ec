//! The table of what this driver can do.
//!
//! Every operation that a driver may or may not offer is a [`Feature`]. An
//! object asks [`require`] before it attempts one, and answers with
//! [`missing`] for one that it never attempts, so that what is missing fails
//! at once and in one way.

use vstd::prelude::*;
use vstd::string::*;
use crate::error::{plain, DatabricksErrorHelper, Error, Status};

verus! {

/// An operation that a driver may or may not offer.
#[derive(Clone, Copy, Debug, PartialEq, Eq, Structural)]
pub enum Feature {
    SqlQuery,
    Execute,
    Cancel,
    GetInfo,
    Commit,
    SubstraitPlan,
    Prepare,
    ParameterSchema,
    Bind,
    BindStream,
    ExecuteUpdate,
    ExecuteSchema,
    ExecutePartitions,
    GetObjects,
    GetTableSchema,
    GetTableTypes,
    ReadPartition,
    Rollback,
    GetStatisticNames,
    GetStatistics,
    OAuthTokenExchange,
}

/// Whether this driver offers `feature`.
pub open spec fn supported(feature: Feature) -> bool {
    match feature {
        Feature::SqlQuery | Feature::Execute | Feature::Cancel | Feature::GetInfo
        | Feature::Commit => true,
        _ => false,
    }
}

/// The name under which the lack of `feature` is reported.
pub open spec fn feature_name(feature: Feature) -> Seq<char> {
    match feature {
        Feature::SqlQuery => "set_sql_query"@,
        Feature::Execute => "execute"@,
        Feature::Cancel => "cancel"@,
        Feature::GetInfo => "get_info"@,
        Feature::Commit => "commit"@,
        Feature::SubstraitPlan => "Substrait plans"@,
        Feature::Prepare => "prepare"@,
        Feature::ParameterSchema => "get_parameter_schema"@,
        Feature::Bind => "bind parameters"@,
        Feature::BindStream => "bind_stream"@,
        Feature::ExecuteUpdate => "execute_update"@,
        Feature::ExecuteSchema => "execute_schema"@,
        Feature::ExecutePartitions => "execute_partitions"@,
        Feature::GetObjects => "get_objects"@,
        Feature::GetTableSchema => "get_table_schema"@,
        Feature::GetTableTypes => "get_table_types"@,
        Feature::ReadPartition => "read_partition"@,
        Feature::Rollback => "rollback - Databricks SQL is auto-commit only"@,
        Feature::GetStatisticNames => "get_statistic_names"@,
        Feature::GetStatistics => "get_statistics"@,
        Feature::OAuthTokenExchange => "OAuth token fetching not yet implemented"@,
    }
}

/// Whether this driver offers `feature`.
pub fn is_supported(feature: Feature) -> (yes: bool)
    ensures
        yes == supported(feature),
{
    match feature {
        Feature::SqlQuery | Feature::Execute | Feature::Cancel | Feature::GetInfo
        | Feature::Commit => true,
        _ => false,
    }
}

fn name_of(feature: Feature) -> (name: &'static str)
    ensures
        name@ == feature_name(feature),
{
    match feature {
        Feature::SqlQuery => "set_sql_query",
        Feature::Execute => "execute",
        Feature::Cancel => "cancel",
        Feature::GetInfo => "get_info",
        Feature::Commit => "commit",
        Feature::SubstraitPlan => "Substrait plans",
        Feature::Prepare => "prepare",
        Feature::ParameterSchema => "get_parameter_schema",
        Feature::Bind => "bind parameters",
        Feature::BindStream => "bind_stream",
        Feature::ExecuteUpdate => "execute_update",
        Feature::ExecuteSchema => "execute_schema",
        Feature::ExecutePartitions => "execute_partitions",
        Feature::GetObjects => "get_objects",
        Feature::GetTableSchema => "get_table_schema",
        Feature::GetTableTypes => "get_table_types",
        Feature::ReadPartition => "read_partition",
        Feature::Rollback => "rollback - Databricks SQL is auto-commit only",
        Feature::GetStatisticNames => "get_statistic_names",
        Feature::GetStatistics => "get_statistics",
        Feature::OAuthTokenExchange => "OAuth token fetching not yet implemented",
    }
}

/// The error that reports the lack of `feature`.
pub fn missing(feature: Feature) -> (e: Error)
    ensures
        e@ == plain(Status::NotImplemented, feature_name(feature)),
{
    DatabricksErrorHelper::not_implemented().message(name_of(feature))
}

/// Passes where this driver offers `feature`, and fails with a
/// `NotImplemented` error that names the feature where it does not.
pub fn require(feature: Feature) -> (r: Result<(), Error>)
    ensures
        supported(feature) ==> r is Ok,
        !supported(feature) ==> r is Err && r->Err_0@ == plain(
            Status::NotImplemented,
            feature_name(feature),
        ),
{
    if is_supported(feature) {
        Ok(())
    } else {
        Err(missing(feature))
    }
}

} // verus!
