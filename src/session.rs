use vstd::prelude::*;
use crate::bridge::new_bridge;
use crate::text::{text_of, text_spec};

verus! {

/// One query session: the engine's session state together with the task
/// scheduler that runs the session's work. Each context has a scheduler of
/// its own, shared with no other handle.
pub struct DataFusionContext<S> {
    session: S,
    bridge: tokio::runtime::Runtime,
}

impl<S> DataFusionContext<S> {
    pub closed spec fn session_spec(&self) -> S {
        self.session
    }

    /// The engine's session state.
    pub fn session(&self) -> (r: &S)
        ensures
            *r == self.session_spec(),
    {
        &self.session
    }

    /// The scheduler on which the work of this session runs, one call at a
    /// time, the caller blocking until it is done.
    pub fn bridge(&self) -> &tokio::runtime::Runtime {
        &self.bridge
    }
}

/// Puts a context together from a session and what starting its scheduler
/// gave: nothing when the scheduler could not be started.
pub fn context_with_bridge<S>(bridge: Option<tokio::runtime::Runtime>, session: S) -> (r: Option<
    DataFusionContext<S>,
>)
    ensures
        r is Some <==> bridge is Some,
        r matches Some(c) ==> c.session_spec() == session,
{
    match bridge {
        Some(bridge) => Some(DataFusionContext { session, bridge }),
        None => None,
    }
}

/// Opens a query context around `session`, with a scheduler of its own.
/// Gives nothing when the scheduler cannot be started.
pub fn datafusion_context_new<S>(session: S) -> (r: Option<DataFusionContext<S>>)
    ensures
        r matches Some(c) ==> c.session_spec() == session,
{
    context_with_bridge(new_bridge(), session)
}

/// Closes a context: its session and its scheduler are released. Nothing
/// happens for an absent context.
pub fn datafusion_context_free<S>(ctx: Option<DataFusionContext<S>>) {
    if let Some(c) = ctx {
        let DataFusionContext { session: _, bridge: _ } = c;
    }
}

/// Checks the arguments of a CSV registration: a context, and a table name and
/// a file path that are present and well-formed text. Hands back the two texts,
/// or nothing, in which case the registration fails before any engine work.
pub fn csv_registration<S>(
    ctx: Option<&DataFusionContext<S>>,
    table_name: Option<&[u8]>,
    file_path: Option<&[u8]>,
) -> (r: Option<(String, String)>)
    ensures
        r is Some <==> (ctx is Some && text_spec(table_name) is Some && text_spec(file_path)
            is Some),
        r matches Some((n, p)) ==> text_spec(table_name) == Some(n@) && text_spec(file_path)
            == Some(p@),
{
    if ctx.is_none() {
        return None;
    }
    let name = match text_of(table_name) {
        Some(n) => n,
        None => return None,
    };
    let path = match text_of(file_path) {
        Some(p) => p,
        None => return None,
    };
    Some((name, path))
}

/// Checks the arguments of a query: a context and a query text that is
/// present and well-formed. Hands back the text, or nothing, in which case the
/// query fails before any engine work.
pub fn query_text<S>(ctx: Option<&DataFusionContext<S>>, sql: Option<&[u8]>) -> (r: Option<
    String,
>)
    ensures
        r is Some <==> (ctx is Some && text_spec(sql) is Some),
        r matches Some(t) ==> text_spec(sql) == Some(t@),
{
    if ctx.is_none() {
        return None;
    }
    text_of(sql)
}

/// One columnar batch of query output, with its number of rows and columns.
pub struct Batch<B> {
    pub data: B,
    pub rows: usize,
    pub columns: usize,
}

/// Materialized query output: an ordered sequence of batches, fixed when the
/// result is made and independent of the context that ran the query.
pub struct DataFusionResult<B> {
    batches: Vec<Batch<B>>,
}

impl<B> View for DataFusionResult<B> {
    type V = Seq<Batch<B>>;

    closed spec fn view(&self) -> Seq<Batch<B>> {
        self.batches@
    }
}

impl<B> DataFusionResult<B> {
    /// The batches, in the order the query produced them.
    pub fn batches(&self) -> (r: &Vec<Batch<B>>)
        ensures
            r@ == self@,
    {
        &self.batches
    }
}

/// Makes the result handle of a query from what running it gave: every batch
/// in order when it ran to completion, nothing when it failed to compile or
/// to run. An empty output still gives a result.
pub fn datafusion_sql<B, E>(outcome: Result<Vec<Batch<B>>, E>) -> (r: Option<DataFusionResult<B>>)
    ensures
        r is Some <==> outcome is Ok,
        r matches Some(res) ==> res@ == outcome->Ok_0@,
{
    match outcome {
        Ok(batches) => Some(DataFusionResult { batches }),
        Err(_) => None,
    }
}

/// A count as a C `int`: itself where it fits, else the largest `int`.
pub open spec fn count_spec(n: int) -> i32 {
    if n <= i32::MAX {
        n as i32
    } else {
        i32::MAX
    }
}

fn count_of(n: usize) -> (r: i32)
    ensures
        r == count_spec(n as int),
{
    if n <= i32::MAX as usize {
        n as i32
    } else {
        i32::MAX
    }
}

/// The batch at `index` of a result, where there is one.
pub open spec fn batch_at<B>(result: Option<&DataFusionResult<B>>, index: i32) -> Option<Batch<B>> {
    match result {
        Some(res) => if 0 <= index < res@.len() {
            Some(res@[index as int])
        } else {
            None
        },
        None => None,
    }
}

/// The number of batches of a result; 0 for an absent result.
pub fn datafusion_result_batch_count<B>(result: Option<&DataFusionResult<B>>) -> (r: i32)
    ensures
        r == match result {
            Some(res) => count_spec(res@.len() as int),
            None => 0,
        },
{
    match result {
        Some(res) => count_of(res.batches.len()),
        None => 0,
    }
}

/// The number of rows of the batch at `batch_index`; 0 where there is no such
/// batch: an absent result, a negative index, or one at or past the count.
pub fn datafusion_result_batch_num_rows<B>(
    result: Option<&DataFusionResult<B>>,
    batch_index: i32,
) -> (r: i32)
    ensures
        r == match batch_at(result, batch_index) {
            Some(b) => count_spec(b.rows as int),
            None => 0,
        },
        result matches Some(res) && batch_index >= res@.len() ==> r == 0,
        batch_index < 0 ==> r == 0,
{
    match result {
        Some(res) => {
            if batch_index < 0 {
                return 0;
            }
            let index = batch_index as usize;
            if index >= res.batches.len() {
                return 0;
            }
            count_of(res.batches[index].rows)
        },
        None => 0,
    }
}

/// The number of columns of the batch at `batch_index`; 0 where there is no
/// such batch: an absent result, a negative index, or one at or past the count.
pub fn datafusion_result_batch_num_columns<B>(
    result: Option<&DataFusionResult<B>>,
    batch_index: i32,
) -> (r: i32)
    ensures
        r == match batch_at(result, batch_index) {
            Some(b) => count_spec(b.columns as int),
            None => 0,
        },
        result matches Some(res) && batch_index >= res@.len() ==> r == 0,
        batch_index < 0 ==> r == 0,
{
    match result {
        Some(res) => {
            if batch_index < 0 {
                return 0;
            }
            let index = batch_index as usize;
            if index >= res.batches.len() {
                return 0;
            }
            count_of(res.batches[index].columns)
        },
        None => 0,
    }
}

/// Releases a result and all its batches. Nothing happens for an absent
/// result.
pub fn datafusion_result_free<B>(result: Option<DataFusionResult<B>>) {
    if let Some(res) = result {
        let DataFusionResult { batches: _ } = res;
    }
}

} // verus!
