//! Result set handling for query results.

pub mod batch;

use vstd::prelude::*;
use std::sync::Arc;
use crate::error::Error;
use crate::reader::retry::least;
use crate::result::batch::{batch_row_count, schema_field_types, total_rows};

pub use batch::Batch;

verus! {

/// Represents a result set from a query execution.
#[derive(Debug)]
pub struct ResultSet {
    schema: Option<Arc<arrow_schema::Schema>>,
    batches: Vec<Batch>,
    current_index: usize,
}

/// A result set as mathematical data.
pub struct ResultSetView {
    /// The field types of the schema, if the set has one.
    pub schema: Option<Seq<Seq<char>>>,
    pub batches: Seq<Batch>,
    /// How many batches were fetched since the set was made or reset.
    pub current_index: nat,
}

impl View for ResultSet {
    type V = ResultSetView;

    closed spec fn view(&self) -> ResultSetView {
        ResultSetView {
            schema: match self.schema {
                Some(s) => Some(schema_field_types(*s)),
                None => None,
            },
            batches: self.batches@,
            current_index: self.current_index as nat,
        }
    }
}

impl ResultSet {
    /// Creates an empty result set.
    pub fn empty() -> (set: Self)
        ensures
            set@ == (ResultSetView { schema: None, batches: Seq::empty(), current_index: 0 }),
    {
        ResultSet { schema: None, batches: Vec::new(), current_index: 0 }
    }

    /// Creates a result set with the given schema and batches.
    pub fn new(schema: Arc<arrow_schema::Schema>, batches: Vec<Batch>) -> (set: Self)
        ensures
            set@ == (ResultSetView {
                schema: Some(schema_field_types(*schema)),
                batches: batches@,
                current_index: 0,
            }),
    {
        ResultSet { schema: Some(schema), batches, current_index: 0 }
    }

    /// Returns the schema of the result set.
    pub fn schema(&self) -> (schema: Option<&Arc<arrow_schema::Schema>>)
        ensures
            match schema {
                Some(s) => self@.schema == Some(schema_field_types(**s)),
                None => self@.schema is None,
            },
    {
        self.schema.as_ref()
    }

    /// Returns the total number of batches.
    pub fn batch_count(&self) -> (count: usize)
        ensures
            count == self@.batches.len(),
    {
        self.batches.len()
    }

    /// Returns the total number of rows across all batches, or the largest
    /// `usize` where the total is larger than that.
    pub fn row_count(&self) -> (rows: usize)
        ensures
            rows == least(total_rows(self@.batches), usize::MAX as nat),
    {
        let mut rows: usize = 0;
        let mut i: usize = 0;
        while i < self.batches.len()
            invariant
                i <= self.batches@.len(),
                rows == least(total_rows(self.batches@.subrange(0, i as int)), usize::MAX as nat),
            decreases self.batches@.len() - i,
        {
            let more = batch_row_count(&self.batches[i]);
            proof {
                let longer = self.batches@.subrange(0, i as int + 1);
                assert(longer.drop_last() =~= self.batches@.subrange(0, i as int));
                assert(longer.last() == self.batches@[i as int]);
            }
            rows = if more > usize::MAX - rows {
                usize::MAX
            } else {
                rows + more
            };
            i = i + 1;
        }
        assert(self.batches@.subrange(0, i as int) =~= self.batches@);
        rows
    }

    /// Fetches the next record batch: the batches come in order, each once,
    /// and `None` comes after the last.
    pub fn next_batch(&mut self) -> (r: Result<Option<&Batch>, Error>)
        ensures
            final(self)@.schema == old(self)@.schema,
            final(self)@.batches == old(self)@.batches,
            if old(self)@.current_index < old(self)@.batches.len() {
                &&& r == Ok::<Option<&Batch>, Error>(
                    Some(&old(self)@.batches[old(self)@.current_index as int]),
                )
                &&& final(self)@.current_index == old(self)@.current_index + 1
            } else {
                &&& r == Ok::<Option<&Batch>, Error>(None)
                &&& final(self)@.current_index == old(self)@.current_index
            },
    {
        if self.current_index >= self.batches.len() {
            return Ok(None);
        }
        let i = self.current_index;
        self.current_index = self.current_index + 1;
        Ok(Some(&self.batches[i]))
    }

    /// Resets the iterator to the beginning.
    pub fn reset(&mut self)
        ensures
            final(self)@ == (ResultSetView { current_index: 0, ..old(self)@ }),
    {
        self.current_index = 0;
    }

    /// Closes the result set and releases resources: the batches are let go.
    /// Closing never fails, and closing again changes nothing.
    pub fn close(&mut self) -> (r: Result<(), Error>)
        ensures
            r is Ok,
            final(self)@ == (ResultSetView {
                batches: Seq::empty(),
                current_index: 0,
                ..old(self)@
            }),
    {
        self.batches.clear();
        self.current_index = 0;
        Ok(())
    }
}

impl Default for ResultSet {
    fn default() -> (set: Self)
        ensures
            set@ == (ResultSetView { schema: None, batches: Seq::empty(), current_index: 0 }),
    {
        ResultSet::empty()
    }
}

} // verus!
