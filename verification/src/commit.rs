//! Owns the staged output artifacts of one run and commits or abandons
//! them exactly once.
//!
//! In atomic mode every output file is first written to a uniquely named
//! temporary file in the staging directory; only after the child has been
//! waited on is each temporary file moved onto its destination. A
//! destination is never created or truncated before its move succeeds, and
//! each artifact is independent: one failed move does not stop the rest.

use vstd::prelude::*;
use std::io::Write;

verus! {

/// Declares tempfile::TempPath, the owned location of a staged temporary
/// file, as an opaque type: dropping it deletes the file, persisting it
/// moves the file onto a destination.
#[verifier::external_type_specification]
#[verifier::external_body]
pub struct ExTempPath(tempfile::TempPath);

/// Relies on tempfile::Builder::tempfile_in: creates a fresh, uniquely
/// named file inside `dir` (never reuses or truncates an existing path),
/// filled here with `text` before its handle is dropped. The returned value
/// owns the temporary path; dropping it deletes the file.
#[verifier::external_body]
fn create_staged(dir: &str, text: &str) -> (r: Result<tempfile::TempPath, String>) {
    match tempfile::Builder::new().tempfile_in(dir) {
        Ok(mut t) => match write!(t, "{}", text) {
            Ok(()) => Ok(t.into_temp_path()),
            Err(e) => Err(e.to_string()),
        },
        Err(e) => Err(e.to_string()),
    }
}

/// Relies on std::path::Path::to_string_lossy (through the deref of
/// tempfile::TempPath) to show the temporary file's location.
#[verifier::external_body]
fn temp_path_str(t: &tempfile::TempPath) -> (r: String) {
    t.to_string_lossy().into_owned()
}

/// Relies on tempfile::TempPath::persist: moves the temporary file onto
/// `dest` by a rename, atomically replacing whatever is there; on failure
/// `dest` is left untouched. Either way the temporary file's ownership is
/// consumed here, so the move is attempted at most once per artifact.
#[verifier::external_body]
fn persist_staged(t: tempfile::TempPath, dest: &str) -> (r: bool) {
    t.persist(dest).is_ok()
}

/// How one output file is provisioned: created at its final path at once,
/// or staged at a temporary path that a later commit moves into place.
#[derive(Debug)]
pub enum ProvisionedSink {
    Direct(String),
    Staged(String),
}

/// The pending staged artifacts of one run, each a temporary file owed to
/// a destination. Every artifact staged is later either committed or
/// abandoned, exactly once, whichever way the run ends.
pub struct CommitQueue {
    pending: Vec<(tempfile::TempPath, String)>,
}

impl CommitQueue {
    /// The destinations of the artifacts staged so far, in staging order.
    pub closed spec fn dests(self) -> Seq<Seq<char>> {
        self.pending@.map_values(|p: (tempfile::TempPath, String)| p.1@)
    }

    pub fn new() -> (q: CommitQueue)
        ensures
            q.dests() == Seq::<Seq<char>>::empty(),
    {
        let q = CommitQueue { pending: Vec::new() };
        proof {
            assert(q.dests() =~= Seq::<Seq<char>>::empty());
        }
        q
    }

    pub fn pending_count(&self) -> (n: usize)
        ensures
            n == self.dests().len(),
    {
        self.pending.len()
    }

    /// Stages one output artifact: creates a fresh temporary file under
    /// `dir` holding `text` and records that it is owed to `dest`. Returns
    /// the temporary file's path, where the artifact's content belongs
    /// until `commit_all` moves it onto `dest`.
    pub fn stage(&mut self, dir: &str, dest: String, text: &str) -> (r: Result<String, String>)
        ensures
            r is Ok ==> final(self).dests() == old(self).dests().push(dest@),
            r is Err ==> final(self).dests() == old(self).dests(),
    {
        match create_staged(dir, text) {
            Result::Ok(t) => {
                let tp = temp_path_str(&t);
                self.pending.push((t, dest));
                proof {
                    assert(self.dests() =~= old(self).dests().push(dest@));
                }
                Result::Ok(tp)
            },
            Result::Err(e) => Result::Err(e),
        }
    }

    /// Decides how one output file owed to `dest` is provisioned: direct
    /// mode hands back the destination itself for immediate creation;
    /// atomic mode stages a temporary file under `tmpdir` and owes a later
    /// commit to `dest`.
    pub fn provision_output(&mut self, atomic: bool, tmpdir: &str, dest: String) -> (r: Result<
        ProvisionedSink,
        String,
    >)
        ensures
            !atomic ==> r == Result::<ProvisionedSink, String>::Ok(
                ProvisionedSink::Direct(dest),
            ) && final(self).dests() == old(self).dests(),
            atomic && r is Ok ==> r->Ok_0 is Staged && final(self).dests() == old(
                self,
            ).dests().push(dest@),
            atomic && r is Err ==> final(self).dests() == old(self).dests(),
    {
        if atomic {
            match self.stage(tmpdir, dest, "") {
                Result::Ok(tp) => Result::Ok(ProvisionedSink::Staged(tp)),
                Result::Err(e) => Result::Err(e),
            }
        } else {
            Result::Ok(ProvisionedSink::Direct(dest))
        }
    }

    /// Commits every staged artifact: each temporary file is moved onto
    /// its destination, exactly once and independently, so one failed move
    /// does not stop the remaining ones. Returns, in staging order, each
    /// destination and whether its move succeeded; afterwards nothing is
    /// pending.
    pub fn commit_all(&mut self) -> (r: Vec<(String, bool)>)
        ensures
            final(self).dests().len() == 0,
            r@.len() == old(self).dests().len(),
            forall|i: int| 0 <= i < r@.len() ==> r@[i].0@ == old(self).dests()[i],
    {
        let mut results: Vec<(String, bool)> = Vec::new();
        while self.pending.len() > 0
            invariant
                results@.len() + self.pending@.len() == old(self).dests().len(),
                forall|i: int|
                    0 <= i < results@.len() ==> results@[i].0@ == old(self).dests()[i],
                self.dests() =~= old(self).dests().skip(results@.len() as int),
            decreases self.pending@.len(),
        {
            let ghost done = results@.len() as int;
            let ghost pre = *self;
            let (t, d) = self.pending.remove(0);
            proof {
                assert(pre.dests()[0] == d@);
                assert(self.dests() =~= pre.dests().skip(1));
                assert(pre.dests().skip(1) =~= old(self).dests().skip(done + 1));
                assert(old(self).dests()[done] == pre.dests()[0]);
            }
            let ok = persist_staged(t, d.as_str());
            results.push((d, ok));
        }
        results
    }

    /// Abandons every staged artifact without attempting any move: the
    /// temporary files are released and the destinations never touched.
    /// This is the teardown owed to a run that failed before the child was
    /// spawned.
    pub fn discard_all(&mut self) -> (n: usize)
        ensures
            final(self).dests().len() == 0,
            n == old(self).dests().len(),
    {
        let n = self.pending.len();
        self.pending = Vec::new();
        proof {
            assert(self.dests() =~= Seq::<Seq<char>>::empty());
        }
        n
    }
}

} // verus!
