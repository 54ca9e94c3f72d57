//! A purely client-side accumulator of pending put/delete operations.
//!
//! Operations append to an ordered list with no engine interaction.
//! `take` atomically swaps in a fresh empty list and returns the prior
//! contents by value, so one submission never observes another
//! submission's operations and the batch is reusable immediately after.

use vstd::prelude::*;

use crate::errors::{DbError, ErrorKind};
use crate::options::{OptionMap, PutOpts, spec_parse_put, parse_put_options};
use crate::validate::{spec_valid_key, spec_valid_value, check_key, check_value};

verus! {

/// One pending operation of a batch.
#[derive(Clone, Debug)]
pub enum BatchOp {
    /// Store `value` under `key`, optionally overriding the
    /// time-to-live in milliseconds.
    Put { key: String, value: String, ttl_ms: Option<u64> },
    /// Remove whatever is stored under `key`.
    Delete { key: String },
}

/// The mathematical shape of one pending operation.
pub enum BatchOpModel {
    Put { key: Seq<char>, value: Seq<char>, ttl_ms: Option<u64> },
    Delete { key: Seq<char> },
}

impl View for BatchOp {
    type V = BatchOpModel;

    open spec fn view(&self) -> BatchOpModel {
        match self {
            BatchOp::Put { key, value, ttl_ms } => BatchOpModel::Put {
                key: key@,
                value: value@,
                ttl_ms: *ttl_ms,
            },
            BatchOp::Delete { key } => BatchOpModel::Delete { key: key@ },
        }
    }
}

/// The ordered operations a batch holds.
pub open spec fn spec_ops(ops: Seq<BatchOp>) -> Seq<BatchOpModel> {
    ops.map_values(|op: BatchOp| op@)
}

/// The key an operation touches.
pub open spec fn spec_op_key(op: BatchOpModel) -> Seq<char> {
    match op {
        BatchOpModel::Put { key, value, ttl_ms } => key,
        BatchOpModel::Delete { key } => key,
    }
}

/// The net effect of an ordered operation list on the keys it touches:
/// for each key, the last operation on it wins.
pub open spec fn spec_batch_effect(ops: Seq<BatchOpModel>) -> Map<Seq<char>, BatchOpModel>
    decreases ops.len(),
{
    if ops.len() == 0 {
        Map::empty()
    } else {
        spec_batch_effect(ops.drop_last()).insert(spec_op_key(ops.last()), ops.last())
    }
}

/// Within one ordered operation list, the last operation on a key is
/// the one its net effect keeps: an operation followed by no later
/// operation on the same key is what the effect maps that key to.
pub proof fn lemma_batch_effect_last_wins(ops: Seq<BatchOpModel>, i: int)
    requires
        0 <= i < ops.len(),
        forall|j: int| i < j < ops.len() ==> spec_op_key(#[trigger] ops[j]) != spec_op_key(ops[i]),
    ensures
        spec_batch_effect(ops).contains_key(spec_op_key(ops[i])),
        spec_batch_effect(ops)[spec_op_key(ops[i])] == ops[i],
    decreases ops.len(),
{
    if i == ops.len() - 1 {
    } else {
        assert(forall|j: int|
            i < j < ops.drop_last().len() ==> spec_op_key(#[trigger] ops.drop_last()[j])
                != spec_op_key(ops.drop_last()[i]));
        lemma_batch_effect_last_wins(ops.drop_last(), i);
        assert(spec_op_key(ops.last()) != spec_op_key(ops[i]));
    }
}

/// The accumulator: an ordered list of pending operations, every one of
/// them already validated by the call that appended it.
#[derive(Debug)]
pub struct WriteBatch {
    ops: Vec<BatchOp>,
}

impl View for WriteBatch {
    type V = Seq<BatchOpModel>;

    closed spec fn view(&self) -> Seq<BatchOpModel> {
        spec_ops(self.ops@)
    }
}

impl WriteBatch {
    /// A fresh, empty batch.
    pub fn new() -> (r: WriteBatch)
        ensures
            r@ =~= Seq::<BatchOpModel>::empty(),
    {
        WriteBatch { ops: Vec::new() }
    }

    /// The number of pending operations.
    pub fn len(&self) -> (r: usize)
        ensures
            r == self@.len(),
    {
        self.ops.len()
    }

    /// Append a put of `value` under `key` with the default
    /// time-to-live. An empty or oversized key, or an oversized value,
    /// is rejected and the batch is left unchanged.
    pub fn put(&mut self, key: &str, value: &str) -> (r: Result<(), DbError>)
        ensures
            !(spec_valid_key(key@) && spec_valid_value(value@)) ==> (r matches Err(e) && e.kind
                == ErrorKind::Invalid) && final(self)@ == old(self)@,
            spec_valid_key(key@) && spec_valid_value(value@) ==> r is Ok && final(self)@ =~= old(
                self,
            )@.push(BatchOpModel::Put { key: key@, value: value@, ttl_ms: None }),
    {
        check_key(key)?;
        check_value(value)?;
        self.ops.push(BatchOp::Put { key: key.to_owned(), value: value.to_owned(), ttl_ms: None });
        Ok(())
    }

    /// Append a put of `value` under `key`, with an optional
    /// time-to-live override taken from the option map. A bad key or
    /// value, or an invalid option, rejects the call and the batch is
    /// left unchanged.
    pub fn put_with_options(&mut self, key: &str, value: &str, opts: &OptionMap) -> (r: Result<
        (),
        DbError,
    >)
        ensures
            !(spec_valid_key(key@) && spec_valid_value(value@)) ==> (r matches Err(e) && e.kind
                == ErrorKind::Invalid) && final(self)@ == old(self)@,
            spec_valid_key(key@) && spec_valid_value(value@) ==> match spec_parse_put(
                opts.entries@,
            ) {
                Some(p) => r is Ok && final(self)@ =~= old(self)@.push(
                    BatchOpModel::Put { key: key@, value: value@, ttl_ms: p.ttl_ms },
                ),
                None => (r matches Err(e) && e.kind == ErrorKind::Invalid) && final(self)@
                    == old(self)@,
            },
    {
        check_key(key)?;
        check_value(value)?;
        let p: PutOpts = parse_put_options(opts)?;
        self.ops.push(
            BatchOp::Put { key: key.to_owned(), value: value.to_owned(), ttl_ms: p.ttl_ms },
        );
        Ok(())
    }

    /// Append a delete of `key`. An empty or oversized key is rejected
    /// and the batch is left unchanged.
    pub fn delete(&mut self, key: &str) -> (r: Result<(), DbError>)
        ensures
            !spec_valid_key(key@) ==> (r matches Err(e) && e.kind == ErrorKind::Invalid)
                && final(self)@ == old(self)@,
            spec_valid_key(key@) ==> r is Ok && final(self)@ =~= old(self)@.push(
                BatchOpModel::Delete { key: key@ },
            ),
    {
        check_key(key)?;
        self.ops.push(BatchOp::Delete { key: key.to_owned() });
        Ok(())
    }

    /// Atomically replace the accumulated operations with a fresh empty
    /// list and hand the prior contents back for submission. The
    /// contents are yielded exactly once: a second take, with nothing
    /// appended in between, returns an empty list.
    pub fn take(&mut self) -> (r: Vec<BatchOp>)
        ensures
            final(self)@ =~= Seq::<BatchOpModel>::empty(),
            spec_ops(r@) == old(self)@,
    {
        let mut taken: Vec<BatchOp> = Vec::new();
        core::mem::swap(&mut self.ops, &mut taken);
        taken
    }
}

/// What two takes in sequence observe. A take leaves the accumulator
/// empty whatever it held before, so the second take returns exactly
/// the operations appended between the two calls: none of the earlier
/// contents appears again, and with nothing appended in between the
/// second take returns an empty list.
pub proof fn lemma_take_isolates_submissions(between: Seq<BatchOpModel>)
    ensures
        Seq::<BatchOpModel>::empty() + between =~= between,
        Seq::<BatchOpModel>::empty() + Seq::<BatchOpModel>::empty() =~= Seq::<
            BatchOpModel,
        >::empty(),
{
}

} // verus!
