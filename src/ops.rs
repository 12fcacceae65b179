use vstd::prelude::*;
use crate::metrics::{call_trace, completed, dispatched, CallMode, OpMetrics};

verus! {

/// The incoming structured value did not have the shape the operation
/// expects.
pub struct DecodeError {
    pub message: String,
}

/// A domain failure raised by an operation's handler.
pub struct HandlerError {
    pub class_name: String,
    pub message: String,
}

/// A recoverable failure of a call, handed back to the script.
pub enum OpError {
    Decode(DecodeError),
    Handler(HandlerError),
}

/// What a buffer-shaped operation returns: one payload, or an ordered
/// sequence of them.
pub enum BufferResult {
    Single(Vec<u8>),
    Vector(Vec<Vec<u8>>),
}

/// The four calling conventions an operation can have.
#[derive(Clone, Copy, PartialEq, Eq, Structural)]
pub enum OpShape {
    JsonSync,
    JsonAsync,
    BufferSync,
    BufferAsync,
}

/// A named operation, ready to be installed in the engine's operation table.
/// Its shape is fixed when it is made.
pub struct Operation<H> {
    pub name: String,
    pub shape: OpShape,
    pub handler: H,
}

/// What a call returns when its handler returned `h`: the handler's value
/// untouched, or its error as a handler failure.
pub open spec fn lift<R>(h: Result<R, HandlerError>) -> Result<R, OpError> {
    match h {
        Ok(v) => Ok(v),
        Err(e) => Err(OpError::Handler(e)),
    }
}

fn lift_result<R>(h: Result<R, HandlerError>) -> (r: Result<R, OpError>)
    ensures
        r == lift(h),
{
    match h {
        Ok(v) => Ok(v),
        Err(e) => Err(OpError::Handler(e)),
    }
}

fn make_op<H>(name: &str, shape: OpShape, op_fn: H) -> (r: Operation<H>)
    ensures
        r.name@ == name@,
        r.shape == shape,
        r.handler == op_fn,
{
    Operation { name: name.to_owned(), shape, handler: op_fn }
}

/// Registers an asynchronous operation on structured values.
pub fn reg_json_async<H>(name: &str, op_fn: H) -> (r: Operation<H>)
    ensures
        r.name@ == name@,
        r.shape == OpShape::JsonAsync,
        r.handler == op_fn,
{
    make_op(name, OpShape::JsonAsync, op_fn)
}

/// Registers a synchronous operation on structured values.
pub fn reg_json_sync<H>(name: &str, op_fn: H) -> (r: Operation<H>)
    ensures
        r.name@ == name@,
        r.shape == OpShape::JsonSync,
        r.handler == op_fn,
{
    make_op(name, OpShape::JsonSync, op_fn)
}

/// Registers an asynchronous operation on raw buffers.
pub fn reg_buffer_async<H>(name: &str, op_fn: H) -> (r: Operation<H>)
    ensures
        r.name@ == name@,
        r.shape == OpShape::BufferAsync,
        r.handler == op_fn,
{
    make_op(name, OpShape::BufferAsync, op_fn)
}

/// Registers a synchronous operation on raw buffers.
pub fn reg_buffer_sync<H>(name: &str, op_fn: H) -> (r: Operation<H>)
    ensures
        r.name@ == name@,
        r.shape == OpShape::BufferSync,
        r.handler == op_fn,
{
    make_op(name, OpShape::BufferSync, op_fn)
}

/// Runs one synchronous call of a structured operation.
///
/// `args` is the incoming value as decoded for the operation. If it did not
/// decode, the handler is not run, the state is left as it was and the call
/// fails with that decode error. Otherwise the call returns exactly what the
/// handler returns. Either way one dispatch and one completion record are
/// added.
pub fn dispatch_json_sync<S, V, B, R, F>(
    metrics: &mut OpMetrics,
    op_id: usize,
    state: S,
    args: Result<V, DecodeError>,
    bufs: B,
    op_fn: &F,
) -> (r: (S, Result<R, OpError>))
    where
        F: Fn(S, V, B) -> (S, Result<R, HandlerError>),
    requires
        forall|s: S, v: V, b: B| op_fn.requires((s, v, b)),
    ensures
        match args {
            Err(e) => r.0 == state && r.1 == Err::<R, OpError>(OpError::Decode(e)),
            Ok(v) => exists|h: Result<R, HandlerError>|
                op_fn.ensures((state, v, bufs), (r.0, h)) && r.1 == lift(h),
        },
        final(metrics).records@ == call_trace(
            old(metrics).records@,
            op_id,
            CallMode::Sync,
            r.1 is Ok,
        ),
{
    metrics.record_dispatched(op_id, CallMode::Sync);
    match args {
        Err(e) => {
            metrics.record_completed(op_id, CallMode::Sync, false);
            (state, Err(OpError::Decode(e)))
        },
        Ok(v) => {
            let (s, h) = op_fn(state, v, bufs);
            let r = lift_result(h);
            metrics.record_completed(op_id, CallMode::Sync, r.is_ok());
            (s, r)
        },
    }
}

/// Runs one synchronous call of a buffer operation: the selector and the
/// buffers go to the handler as they came, and its payloads come back as
/// they left it. The adapter knows nothing of the payload types, so it
/// cannot look into the bytes. One dispatch and one completion record are
/// added.
pub fn dispatch_buffer_sync<S, B, P, F>(
    metrics: &mut OpMetrics,
    op_id: usize,
    state: S,
    selector: u32,
    bufs: B,
    op_fn: &F,
) -> (r: (S, Result<P, OpError>))
    where
        F: Fn(S, u32, B) -> (S, Result<P, HandlerError>),
    requires
        forall|s: S, n: u32, b: B| op_fn.requires((s, n, b)),
    ensures
        exists|h: Result<P, HandlerError>|
            op_fn.ensures((state, selector, bufs), (r.0, h)) && r.1 == lift(h),
        final(metrics).records@ == call_trace(
            old(metrics).records@,
            op_id,
            CallMode::Sync,
            r.1 is Ok,
        ),
{
    metrics.record_dispatched(op_id, CallMode::Sync);
    let (s, h) = op_fn(state, selector, bufs);
    let r = lift_result(h);
    metrics.record_completed(op_id, CallMode::Sync, r.is_ok());
    (s, r)
}

/// A buffer operation that hands its payloads straight back keeps every
/// byte through the adapter: the caller receives exactly the buffers it
/// sent, in the same order, and the call is recorded as a success.
pub fn dispatch_echo(metrics: &mut OpMetrics, op_id: usize, selector: u32, bufs: Vec<Vec<u8>>) -> (r:
    Result<BufferResult, OpError>)
    ensures
        r == Ok::<BufferResult, OpError>(BufferResult::Vector(bufs)),
        final(metrics).records@ == call_trace(old(metrics).records@, op_id, CallMode::Sync, true),
{
    let echo = |s: (), n: u32, b: Vec<Vec<u8>>| -> (e: ((), Result<BufferResult, HandlerError>))
        ensures
            e.1 == Ok::<BufferResult, HandlerError>(BufferResult::Vector(b)),
        { (s, Ok(BufferResult::Vector(b))) };
    let (_, r) = dispatch_buffer_sync(metrics, op_id, (), selector, bufs, &echo);
    r
}

/// Starts an asynchronous call of a structured operation.
///
/// If `args` did not decode, the call is over: it fails with that error,
/// with one dispatch and one completion record. Otherwise it is dispatched,
/// and the decoded value comes back unchanged, for the handler's task; the
/// caller ends the call with `complete_async`.
pub fn begin_json_async<V>(metrics: &mut OpMetrics, op_id: usize, args: Result<V, DecodeError>) -> (r:
    Result<V, OpError>)
    ensures
        match args {
            Err(e) => r == Err::<V, OpError>(OpError::Decode(e)) && final(metrics).records@
                == call_trace(old(metrics).records@, op_id, CallMode::Async, false),
            Ok(v) => r == Ok::<V, OpError>(v) && final(metrics).records@ == old(
                metrics,
            ).records@.push(dispatched(op_id, CallMode::Async)),
        },
{
    metrics.record_dispatched(op_id, CallMode::Async);
    match args {
        Err(e) => {
            metrics.record_completed(op_id, CallMode::Async, false);
            Err(OpError::Decode(e))
        },
        Ok(v) => Ok(v),
    }
}

/// Starts an asynchronous call of a buffer operation; the caller ends it
/// with `complete_async`.
pub fn begin_buffer_async(metrics: &mut OpMetrics, op_id: usize)
    ensures
        final(metrics).records@ == old(metrics).records@.push(dispatched(op_id, CallMode::Async)),
{
    metrics.record_dispatched(op_id, CallMode::Async);
}

/// Ends an asynchronous call whose handler finished with `h`: the call
/// returns exactly that outcome, and one completion record is added.
pub fn complete_async<R>(metrics: &mut OpMetrics, op_id: usize, h: Result<R, HandlerError>) -> (r:
    Result<R, OpError>)
    ensures
        r == lift(h),
        final(metrics).records@ == old(metrics).records@.push(
            completed(op_id, CallMode::Async, h is Ok),
        ),
{
    let r = lift_result(h);
    metrics.record_completed(op_id, CallMode::Async, r.is_ok());
    r
}

} // verus!
