//! The load and spawn pipeline: the requests and notices that carry a robot
//! from a file path to a spawned instance, and what each of them leads to.
//!
//! A caller issues [`LoadRobot`]. The load is started and answered at once
//! with [`RobotLoaded`], whose handle may not resolve yet. That notice is
//! forwarded as a [`SpawnRobot`] attempt. An attempt on a handle that does
//! not resolve yet is put off with [`WaitRobotLoaded`], which turns into a
//! fresh attempt on the next tick; an attempt on a handle that resolves
//! ends the pipeline for that handle: the robot is found ready to be
//! instantiated, once, or is refused.

use vstd::prelude::*;
use vstd::string::StringExecFns;
use vstd::string::StrSliceExecFns;
use crate::description::UrdfAsset;
use crate::error::SpawnError;
use crate::spawn::check_spawn;
use crate::spawn::spawn_refusal;

verus! {

/// Refers to a robot whose load has been started. It may resolve to a loaded
/// robot now, later, or never.
#[derive(Clone, Copy, Debug, PartialEq, Eq, Structural)]
pub struct LoadHandle {
    pub id: u64,
}

/// Asks for the robot described by the file at `urdf_path`, whose meshes are
/// found under `mesh_dir`.
#[derive(Debug)]
pub struct LoadRobot {
    pub urdf_path: String,
    pub mesh_dir: String,
}

/// Says that the load behind `handle` has been started.
#[derive(Debug)]
pub struct RobotLoaded {
    pub handle: LoadHandle,
    pub mesh_dir: String,
}

/// Asks for one attempt to spawn the robot behind `handle`.
#[derive(Debug)]
pub struct SpawnRobot {
    pub handle: LoadHandle,
    pub mesh_dir: String,
}

/// Says that the robot behind `handle` was not there yet when a spawn was
/// attempted.
#[derive(Debug)]
pub struct WaitRobotLoaded {
    pub handle: LoadHandle,
    pub mesh_dir: String,
}

impl Clone for LoadRobot {
    fn clone(&self) -> (copy: Self)
        ensures
            copy == *self,
    {
        LoadRobot { urdf_path: self.urdf_path.clone(), mesh_dir: self.mesh_dir.clone() }
    }
}

impl Clone for RobotLoaded {
    fn clone(&self) -> (copy: Self)
        ensures
            copy == *self,
    {
        RobotLoaded { handle: self.handle, mesh_dir: self.mesh_dir.clone() }
    }
}

impl Clone for SpawnRobot {
    fn clone(&self) -> (copy: Self)
        ensures
            copy == *self,
    {
        SpawnRobot { handle: self.handle, mesh_dir: self.mesh_dir.clone() }
    }
}

impl Clone for WaitRobotLoaded {
    fn clone(&self) -> (copy: Self)
        ensures
            copy == *self,
    {
        WaitRobotLoaded { handle: self.handle, mesh_dir: self.mesh_dir.clone() }
    }
}

/// What the loader is asked to do for a [`LoadRobot`]: load the file at
/// `path`, resolving the mesh references inside it against `mesh_dir`.
#[derive(Debug)]
pub struct LoadRequest {
    pub path: String,
    pub mesh_dir: Option<String>,
}

/// How a spawn attempt ended.
#[derive(Debug)]
pub enum SpawnOutcome {
    /// The handle did not resolve; the attempt is to be made again.
    Deferred(WaitRobotLoaded),
    /// The robot is there and nothing speaks against it: it is to be
    /// instantiated now, once. Nothing further follows for its handle.
    Ready,
    /// The robot is there and is refused: nothing is to be made of it.
    /// Nothing further follows for its handle.
    Failed(SpawnError),
}

impl SpawnOutcome {
    /// The wait that the outcome hands on, if it hands one on.
    pub open spec fn wait(self) -> Option<WaitRobotLoaded> {
        match self {
            SpawnOutcome::Deferred(wait) => Some(wait),
            SpawnOutcome::Ready => None,
            SpawnOutcome::Failed(error) => None,
        }
    }
}

/// How a run of the pipeline for one robot stands after the store has
/// answered some spawn attempts.
#[derive(Debug)]
pub struct PipelineRun {
    /// The attempt that is still to be made, while the handle has not
    /// resolved.
    pub pending: Option<SpawnRobot>,
    /// Once the handle has resolved: whether the robot is to be instantiated
    /// or why it is refused.
    pub finished: Option<Result<(), SpawnError>>,
    /// How many attempts were put off.
    pub waits: usize,
}

/// The name of the directory that the renderer's asset paths are relative to,
/// with its separator.
pub open spec fn asset_root() -> Seq<char> {
    seq!['a', 's', 's', 'e', 't', 's', '/']
}

/// `text` begins with `prefix`.
pub open spec fn starts_with(text: Seq<char>, prefix: Seq<char>) -> bool {
    prefix.len() <= text.len() && text.subrange(0, prefix.len() as int) == prefix
}

/// `dir` as the renderer addresses it: without the asset root in front, if
/// it has it there.
pub open spec fn without_asset_root(dir: Seq<char>) -> Seq<char> {
    if starts_with(dir, asset_root()) {
        dir.subrange(asset_root().len() as int, dir.len() as int)
    } else {
        dir
    }
}

/// The wait that puts off the attempt `event`.
pub open spec fn deferred(event: SpawnRobot) -> WaitRobotLoaded {
    WaitRobotLoaded { handle: event.handle, mesh_dir: event.mesh_dir }
}

/// The attempt that the wait `event` turns into.
pub open spec fn retried(event: WaitRobotLoaded) -> SpawnRobot {
    SpawnRobot { handle: event.handle, mesh_dir: event.mesh_dir }
}

/// What one spawn attempt on `event` hands on: the wait that puts it off
/// while the handle does not resolve, and nothing once it does.
pub open spec fn follow_up(event: SpawnRobot, resolved: bool) -> Option<WaitRobotLoaded> {
    if resolved {
        None
    } else {
        Some(deferred(event))
    }
}

/// The count of instantiations and the count of waits that follow from the
/// attempt `event` when the store answers the successive attempts for its
/// handle with `answers`: `true` where the handle resolves. An attempt that
/// hands nothing on has found the robot, to be instantiated or refused, and
/// ends the pipeline; one that hands a wait on is retried against the next
/// answer.
pub open spec fn pipeline_run(event: SpawnRobot, answers: Seq<bool>) -> (nat, nat)
    decreases answers.len(),
{
    if answers.len() == 0 {
        (0, 0)
    } else {
        match follow_up(event, answers[0]) {
            None => (1, 0),
            Some(wait) => {
                let rest = pipeline_run(retried(wait), answers.drop_first());
                (rest.0, rest.1 + 1)
            },
        }
    }
}

/// For each answer of the store, whether the handle resolved.
pub open spec fn resolved(answers: Seq<Option<&UrdfAsset>>) -> Seq<bool> {
    Seq::new(answers.len(), |k: int| answers[k] is Some)
}

/// Decides whether `text` begins with `prefix`.
pub fn has_prefix(text: &str, prefix: &str) -> (found: bool)
    ensures
        found == starts_with(text@, prefix@),
{
    let wanted = prefix.unicode_len();
    if text.unicode_len() < wanted {
        return false;
    }
    let mut at: usize = 0;
    while at < wanted
        invariant
            at <= wanted,
            wanted == prefix@.len(),
            wanted <= text@.len(),
            text@.subrange(0, at as int) == prefix@.subrange(0, at as int),
        decreases wanted - at,
    {
        if text.get_char(at) != prefix.get_char(at) {
            assert(text@.subrange(0, wanted as int)[at as int] != prefix@[at as int]);
            return false;
        }
        assert(text@.subrange(0, at + 1) =~= text@.subrange(0, at as int).push(text@[at as int]));
        assert(prefix@.subrange(0, at + 1) =~= prefix@.subrange(0, at as int).push(
            prefix@[at as int],
        ));
        at += 1;
    }
    assert(prefix@.subrange(0, wanted as int) =~= prefix@);
    true
}

/// `dir` as the renderer addresses it: the asset root in front of it, if
/// there is one, is taken off once.
pub fn strip_asset_root(dir: &str) -> (stripped: String)
    ensures
        stripped@ == without_asset_root(dir@),
{
    proof {
        reveal_strlit("assets/");
        assert("assets/"@ =~= asset_root());
    }
    if has_prefix(dir, "assets/") {
        String::from_str(dir.substring_char(7, dir.unicode_len()))
    } else {
        String::from_str(dir)
    }
}

/// What the loader is to be asked for `event`: the file it names, with the
/// mesh directory exactly as the event gives it.
pub fn load_request(event: &LoadRobot) -> (request: LoadRequest)
    ensures
        request.path == event.urdf_path,
        request.mesh_dir == Some(event.mesh_dir),
{
    LoadRequest { path: event.urdf_path.clone(), mesh_dir: Some(event.mesh_dir.clone()) }
}

/// Answers a load request once the loader has given `handle` for it: the
/// notice carries that handle and the mesh directory as the renderer
/// addresses it.
pub fn handle_load_robot(event: &LoadRobot, handle: LoadHandle) -> (loaded: RobotLoaded)
    ensures
        loaded.handle == handle,
        loaded.mesh_dir@ == without_asset_root(event.mesh_dir@),
{
    RobotLoaded { handle, mesh_dir: strip_asset_root(event.mesh_dir.as_str()) }
}

/// Forwards a loaded notice as a spawn attempt, whatever the handle resolves
/// to.
pub fn handle_robot_loaded(event: &RobotLoaded) -> (attempt: SpawnRobot)
    ensures
        attempt == (SpawnRobot { handle: event.handle, mesh_dir: event.mesh_dir }),
{
    SpawnRobot { handle: event.handle, mesh_dir: event.mesh_dir.clone() }
}

/// Turns a wait into a fresh spawn attempt for the same handle and mesh
/// directory.
pub fn handle_wait_robot_loaded(event: &WaitRobotLoaded) -> (attempt: SpawnRobot)
    ensures
        attempt == retried(*event),
{
    SpawnRobot { handle: event.handle, mesh_dir: event.mesh_dir.clone() }
}

/// Turns every wait into a fresh spawn attempt: one attempt per wait, in
/// the order of the waits, none left out and none made twice.
pub fn retry_all(waits: &Vec<WaitRobotLoaded>) -> (attempts: Vec<SpawnRobot>)
    ensures
        attempts@.len() == waits@.len(),
        forall|k: int| 0 <= k < waits@.len() ==> #[trigger] attempts@[k] == retried(waits@[k]),
{
    let mut attempts: Vec<SpawnRobot> = Vec::new();
    let mut k: usize = 0;
    while k < waits.len()
        invariant
            k <= waits@.len(),
            attempts@.len() == k,
            forall|n: int| 0 <= n < k ==> #[trigger] attempts@[n] == retried(waits@[n]),
        decreases waits@.len() - k,
    {
        attempts.push(handle_wait_robot_loaded(&waits[k]));
        k += 1;
    }
    attempts
}

/// Makes one spawn attempt. `asset` is what the handle of `event` resolves to
/// at this moment.
///
/// While the handle does not resolve, the attempt is put off. Once it
/// resolves, the robot is vetted with the event's mesh directory: it is
/// either ready to be instantiated or refused, and in both cases the
/// pipeline ends here for its handle.
pub fn handle_spawn_robot(event: &SpawnRobot, asset: Option<&UrdfAsset>) -> (outcome: SpawnOutcome)
    ensures
        outcome.wait() == follow_up(*event, asset is Some),
        match outcome {
            SpawnOutcome::Deferred(wait) => asset is None,
            SpawnOutcome::Ready => {
                &&& asset matches Some(robot)
                &&& spawn_refusal(*robot, event.mesh_dir@) is None
            },
            SpawnOutcome::Failed(error) => {
                &&& asset matches Some(robot)
                &&& spawn_refusal(*robot, event.mesh_dir@) == Some(error)
            },
        },
{
    match asset {
        Some(robot) => {
            match check_spawn(robot, event.mesh_dir.as_str()) {
                None => SpawnOutcome::Ready,
                Some(error) => SpawnOutcome::Failed(error),
            }
        },
        None => SpawnOutcome::Deferred(
            WaitRobotLoaded { handle: event.handle, mesh_dir: event.mesh_dir.clone() },
        ),
    }
}

/// Runs the pipeline for one robot from its first spawn attempt: makes one
/// attempt per answer of the store, in order, and stops at the first answer
/// that resolves the handle.
///
/// Every attempt before that one is put off. The attempt that finds the
/// robot says once that it is ready to be instantiated, or refused, and
/// nothing is attempted after it. If the answers run out first, the attempt
/// that is still to be made comes back.
pub fn spawn_when_loaded(event: SpawnRobot, answers: &Vec<Option<&UrdfAsset>>) -> (run: PipelineRun)
    ensures
        run.waits <= answers@.len(),
        forall|k: int| 0 <= k < run.waits ==> answers@[k] is None,
        pipeline_run(event, resolved(answers@)) == (
            if run.finished is Some {
                1nat
            } else {
                0nat
            },
            run.waits as nat,
        ),
        run.finished is None <==> run.waits == answers@.len(),
        run.pending == if run.finished is None {
            Some(event)
        } else {
            None
        },
        match run.finished {
            Some(Ok(ready)) => {
                &&& answers@[run.waits as int] matches Some(robot)
                &&& spawn_refusal(*robot, event.mesh_dir@) is None
            },
            Some(Err(error)) => {
                &&& answers@[run.waits as int] matches Some(robot)
                &&& spawn_refusal(*robot, event.mesh_dir@) == Some(error)
            },
            None => true,
        },
{
    let mut attempt = event;
    let mut waits: usize = 0;
    while waits < answers.len()
        invariant
            attempt == event,
            waits <= answers@.len(),
            forall|k: int| 0 <= k < waits ==> answers@[k] is None,
        decreases answers@.len() - waits,
    {
        let outcome = handle_spawn_robot(&attempt, answers[waits]);
        proof {
            assert(resolved(answers@)[waits as int] == (answers@[waits as int] is Some));
            if outcome.wait() is None {
                assert forall|k: int| 0 <= k < waits implies !resolved(answers@)[k] by {
                    assert(answers@[k] is None);
                }
                lemma_pipeline_run(event, resolved(answers@), waits as nat);
            }
        }
        match outcome {
            SpawnOutcome::Deferred(wait) => {
                attempt = handle_wait_robot_loaded(&wait);
                waits += 1;
            },
            SpawnOutcome::Ready => {
                return PipelineRun { pending: None, finished: Some(Ok(())), waits };
            },
            SpawnOutcome::Failed(error) => {
                return PipelineRun { pending: None, finished: Some(Err(error)), waits };
            },
        }
    }
    proof {
        assert forall|k: int| 0 <= k < waits implies !resolved(answers@)[k] by {
            assert(answers@[k] is None);
        }
        lemma_pipeline_run(event, resolved(answers@), waits as nat);
    }
    PipelineRun { pending: Some(attempt), finished: None, waits }
}

/// A wait and the attempt it turns into carry the handle and mesh directory
/// of the attempt that was put off.
pub proof fn lemma_retry_keeps_event(event: SpawnRobot)
    ensures
        retried(deferred(event)) == event,
{
}

/// A run whose first `waits` answers are "not yet" has waited `waits` times
/// when the next answer resolves the handle or the answers end there: with
/// one instantiation in the first case and none in the second.
pub proof fn lemma_pipeline_run(event: SpawnRobot, answers: Seq<bool>, waits: nat)
    requires
        waits <= answers.len(),
        forall|k: int| 0 <= k < waits ==> !answers[k],
        waits < answers.len() ==> answers[waits as int],
    ensures
        pipeline_run(event, answers) == (
            if waits < answers.len() {
                1nat
            } else {
                0nat
            },
            waits,
        ),
    decreases waits,
{
    if waits > 0 {
        let rest = answers.drop_first();
        assert forall|k: int| 0 <= k < waits - 1 implies !rest[k] by {
            assert(rest[k] == answers[k + 1]);
        }
        if waits < answers.len() {
            assert(rest[waits - 1] == answers[waits as int]);
        }
        assert(!answers[0]);
        lemma_pipeline_run(event, rest, (waits - 1) as nat);
    }
}

/// However often a spawn is put off before its handle resolves, the robot is
/// instantiated exactly once: after `waits` answers of "not yet" and one of
/// "resolved", the pipeline has instantiated once and waited `waits` times,
/// whatever the store would have answered afterwards.
pub proof fn lemma_retry_instantiates_once(
    event: SpawnRobot,
    waits: nat,
    afterwards: Seq<bool>,
)
    ensures
        pipeline_run(event, Seq::new(waits, |k: int| false) + seq![true] + afterwards) == (
            1nat,
            waits,
        ),
{
    lemma_pipeline_run(event, Seq::new(waits, |k: int| false) + seq![true] + afterwards, waits);
}

/// As long as the handle never resolves, nothing is instantiated and every
/// attempt is put off.
pub proof fn lemma_unresolved_never_instantiates(event: SpawnRobot, answers: Seq<bool>)
    requires
        forall|k: int| 0 <= k < answers.len() ==> !answers[k],
    ensures
        pipeline_run(event, answers) == (0nat, answers.len()),
{
    lemma_pipeline_run(event, answers, answers.len());
}

} // verus!
