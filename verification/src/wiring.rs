//! Turns the three resolved dispositions into a wiring plan for the child's
//! standard streams.
//!
//! The stdout/stderr pair is a small closed state space handled by one
//! explicit match: both shared is the cross swap (the child's
//! stdout takes a duplicate of the parent's current stderr and the child's
//! stderr a duplicate of the parent's current stdout); one shared beside a
//! redirect means both streams write through one shared handle onto one
//! file, never through a second open of the same path; every other pair is
//! routed independently.

use vstd::prelude::*;
use crate::disposition::{StdinDisposition, StreamDisposition};

verus! {

/// What to attach to one independently routed stream.
#[derive(Debug)]
pub enum SinkSpec {
    Null,
    Inherit,
    File(String),
}

/// How to wire the stdout/stderr pair.
#[derive(Debug)]
pub enum PairPlan {
    /// Both streams shared: the child's stdout takes a duplicate of the
    /// parent's current stderr and the child's stderr a duplicate of the
    /// parent's current stdout.
    CrossSwap,
    /// One stream redirected to the named file and the sibling shared: one
    /// sink is provisioned for the path and the sibling writes through a
    /// duplicate of that same handle.
    SharedFile(String),
    /// No sharing: stdout and stderr each get their own sink.
    Split(SinkSpec, SinkSpec),
}

/// The full wiring decision for one run.
#[derive(Debug)]
pub struct WirePlan {
    pub stdin: SinkSpec,
    pub pair: PairPlan,
}

/// A shared disposition is only meaningful while its sibling is shared too
/// or redirected to a file; any other pairing has no defined routing.
pub open spec fn pair_supported(out: StreamDisposition, err: StreamDisposition) -> bool {
    &&& (out is Shared ==> (err is Shared || err is Redirect))
    &&& (err is Shared ==> (out is Shared || out is Redirect))
}

/// The sink owed to one stream routed on its own.
pub open spec fn spec_sink(d: StreamDisposition) -> SinkSpec {
    match d {
        StreamDisposition::Null => SinkSpec::Null,
        StreamDisposition::Inherit => SinkSpec::Inherit,
        StreamDisposition::Redirect(p) => SinkSpec::File(p),
        StreamDisposition::Shared => SinkSpec::Inherit,
    }
}

/// The sink owed to stdin.
pub open spec fn spec_stdin_sink(d: StdinDisposition) -> SinkSpec {
    match d {
        StdinDisposition::Null => SinkSpec::Null,
        StdinDisposition::Inherit => SinkSpec::Inherit,
        StdinDisposition::Redirect(p) => SinkSpec::File(p),
    }
}

/// The plan owed to the stdout/stderr pair, for supported pairs: both
/// shared cross-swaps, one shared beside a redirect shares that one file,
/// and every other pair is split.
pub open spec fn spec_wire_pair(out: StreamDisposition, err: StreamDisposition) -> PairPlan {
    match (out, err) {
        (StreamDisposition::Shared, StreamDisposition::Shared) => PairPlan::CrossSwap,
        (StreamDisposition::Shared, StreamDisposition::Redirect(p)) => PairPlan::SharedFile(p),
        (StreamDisposition::Redirect(p), StreamDisposition::Shared) => PairPlan::SharedFile(p),
        (o, e) => PairPlan::Split(spec_sink(o), spec_sink(e)),
    }
}

/// Law: while neither stream is shared, the pair is split and each stream
/// is routed to its own sink — a redirected stdout and stderr never write
/// through one handle, so their files hold exactly what each stream got.
pub proof fn lemma_unshared_streams_are_independent(
    out: StreamDisposition,
    err: StreamDisposition,
)
    requires
        !(out is Shared),
        !(err is Shared),
    ensures
        spec_wire_pair(out, err) == PairPlan::Split(spec_sink(out), spec_sink(err)),
{
}

/// Computes the wiring plan for the three streams.
pub fn wire_plan(stdin: StdinDisposition, out: StreamDisposition, err: StreamDisposition) -> (p:
    WirePlan)
    requires
        pair_supported(out, err),
    ensures
        p.stdin == spec_stdin_sink(stdin),
        p.pair == spec_wire_pair(out, err),
{
    let stdin_sink = match stdin {
        StdinDisposition::Null => SinkSpec::Null,
        StdinDisposition::Inherit => SinkSpec::Inherit,
        StdinDisposition::Redirect(p) => SinkSpec::File(p),
    };
    let pair = match (out, err) {
        (StreamDisposition::Shared, StreamDisposition::Shared) => PairPlan::CrossSwap,
        (StreamDisposition::Shared, StreamDisposition::Redirect(p)) => PairPlan::SharedFile(p),
        (StreamDisposition::Redirect(p), StreamDisposition::Shared) => PairPlan::SharedFile(p),
        (o, e) => {
            let out_sink = match o {
                StreamDisposition::Null => SinkSpec::Null,
                StreamDisposition::Inherit => SinkSpec::Inherit,
                StreamDisposition::Redirect(p) => SinkSpec::File(p),
                StreamDisposition::Shared => SinkSpec::Inherit,
            };
            let err_sink = match e {
                StreamDisposition::Null => SinkSpec::Null,
                StreamDisposition::Inherit => SinkSpec::Inherit,
                StreamDisposition::Redirect(p) => SinkSpec::File(p),
                StreamDisposition::Shared => SinkSpec::Inherit,
            };
            PairPlan::Split(out_sink, err_sink)
        },
    };
    WirePlan { stdin: stdin_sink, pair }
}

/// Declares os_pipe::PipeWriter, an opaque duplicated stream handle fit
/// to be attached to a child process's standard stream.
#[verifier::external_type_specification]
#[verifier::external_body]
pub struct ExPipeWriter(os_pipe::PipeWriter);

/// Relies on os_pipe::dup_stdout: a duplicate of the parent's current
/// stdout handle, fit to become one of the child's standard streams.
#[verifier::external_body]
fn dup_parent_stdout() -> (r: Result<os_pipe::PipeWriter, String>) {
    match os_pipe::dup_stdout() {
        Ok(w) => Ok(w),
        Err(e) => Err(e.to_string()),
    }
}

/// Relies on os_pipe::dup_stderr: a duplicate of the parent's current
/// stderr handle, fit to become one of the child's standard streams.
#[verifier::external_body]
fn dup_parent_stderr() -> (r: Result<os_pipe::PipeWriter, String>) {
    match os_pipe::dup_stderr() {
        Ok(w) => Ok(w),
        Err(e) => Err(e.to_string()),
    }
}

/// Realizes the cross-swap arm of the plan. The first handle duplicates
/// the parent's current stderr and is owed to the child's stdout; the
/// second duplicates the parent's current stdout and is owed to the
/// child's stderr. Nothing more can be said of the opaque handles; the
/// swap itself lives in which duplicate lands in which slot.
pub fn cross_swap_handles() -> (r: Result<(os_pipe::PipeWriter, os_pipe::PipeWriter), String>) {
    let for_stdout = match dup_parent_stderr() {
        Result::Ok(w) => w,
        Result::Err(e) => {
            return Result::Err(e);
        },
    };
    let for_stderr = match dup_parent_stdout() {
        Result::Ok(w) => w,
        Result::Err(e) => {
            return Result::Err(e);
        },
    };
    Result::Ok((for_stdout, for_stderr))
}

/// Computes the wiring plan when the pair is supported and reports the
/// unsupported pairings (a shared stream whose sibling is neither shared
/// nor redirected) instead of routing them arbitrarily.
pub fn wire_plan_checked(
    stdin: StdinDisposition,
    out: StreamDisposition,
    err: StreamDisposition,
) -> (r: Option<WirePlan>)
    ensures
        r is Some <==> pair_supported(out, err),
        r is Some ==> r->0.stdin == spec_stdin_sink(stdin) && r->0.pair == spec_wire_pair(
            out,
            err,
        ),
{
    let out_shared = matches!(out, StreamDisposition::Shared);
    let err_shared = matches!(err, StreamDisposition::Shared);
    let out_ok = !err_shared || out_shared || matches!(out, StreamDisposition::Redirect(_));
    let err_ok = !out_shared || err_shared || matches!(err, StreamDisposition::Redirect(_));
    if out_ok && err_ok {
        Option::Some(wire_plan(stdin, out, err))
    } else {
        Option::None
    }
}

} // verus!
