use vstd::prelude::*;

use crate::error::ContextError;
use crate::frame::Frame;
use crate::hook::Hook;
use crate::input::InputPath;

verus! {

#[verifier::external_type_specification]
#[verifier::external_body]
#[verifier::reject_recursive_types(T)]
pub struct ExBus<T>(bus::Bus<T>);

#[verifier::external_type_specification]
#[verifier::external_body]
#[verifier::reject_recursive_types(T)]
pub struct ExBusReader<T>(bus::BusReader<T>);

/// Every frame broadcast on a bus so far, in broadcast order.
pub uninterp spec fn bus_sent(b: bus::Bus<Frame>) -> Seq<Frame>;

/// How many receiving endpoints a bus counts as attached: one more for each
/// endpoint added, and fewer once it notices that endpoints have been dropped.
pub uninterp spec fn bus_readers(b: bus::Bus<Frame>) -> nat;

/// The buffering slack a bus was made with.
pub uninterp spec fn bus_slack(b: bus::Bus<Frame>) -> nat;

/// Relies on bus::Bus::new: a bus with the given slack, no endpoint and nothing
/// sent. It adds one to `len` for its ring, hence the bound.
#[verifier::external_body]
fn new_bus(len: usize) -> (r: bus::Bus<Frame>)
    requires
        len < usize::MAX,
    ensures
        bus_sent(r) == Seq::<Frame>::empty(),
        bus_readers(r) == 0,
        bus_slack(r) == len,
{
    bus::Bus::new(len)
}

/// Relies on bus::Bus::add_rx: one more endpoint, which receives what is
/// broadcast from now on. It counts its endpoints in a `usize`, hence the bound.
#[verifier::external_body]
fn add_reader(b: &mut bus::Bus<Frame>) -> (r: bus::BusReader<Frame>)
    requires
        bus_readers(*old(b)) < usize::MAX,
    ensures
        bus_sent(*final(b)) == bus_sent(*old(b)),
        bus_readers(*final(b)) == bus_readers(*old(b)) + 1,
        bus_slack(*final(b)) == bus_slack(*old(b)),
{
    b.add_rx()
}

/// Relies on bus::Bus::broadcast: the frame is sent to every endpoint, after
/// those sent before; the call waits while the buffer is full, and while it
/// waits it drops from its count the endpoints that have left. A bus made with
/// no slack has a ring of one seat, which never frees for a second broadcast
/// while an endpoint is attached, hence the bound.
#[verifier::external_body]
fn broadcast(b: &mut bus::Bus<Frame>, f: Frame)
    requires
        bus_slack(*old(b)) >= 1,
    ensures
        bus_sent(*final(b)) == bus_sent(*old(b)).push(f),
        bus_readers(*final(b)) <= bus_readers(*old(b)),
        bus_slack(*final(b)) == bus_slack(*old(b)),
{
    b.broadcast(f)
}

/// The buffering slack of a run's bus for `n` tasks: one slot less than there
/// are tasks, and at least one, so that a bus with a single endpoint still
/// moves.
pub open spec fn run_slack(n: nat) -> nat {
    if n > 1 {
        (n - 1) as nat
    } else {
        1
    }
}

/// One encode job: picture size, output file, encoder and container format.
pub struct Task {
    pub width: u32,
    pub height: u32,
    pub output_file: String,
    pub encoder: String,
    pub format: String,
}

/// Which of the selected streams a packet feeds.
pub struct Route {
    pub video: bool,
    pub audio: bool,
}

/// The abstract state of the decode loop's publishing side.
pub struct DistributorView {
    pub sent: Seq<Frame>,
    pub readers: nat,
    pub slack: nat,
    pub video: Option<usize>,
    pub audio: Option<usize>,
    pub failed: bool,
}

/// The publishing side of a run: the broadcast bus that every worker's endpoint
/// hangs on, and the selected video and audio streams. Dropping it closes the
/// bus, so that the workers see the end of the stream.
pub struct Distributor {
    bus: bus::Bus<Frame>,
    video: Option<usize>,
    audio: Option<usize>,
    failed: bool,
}

impl View for Distributor {
    type V = DistributorView;

    closed spec fn view(&self) -> DistributorView {
        DistributorView {
            sent: bus_sent(self.bus),
            readers: bus_readers(self.bus),
            slack: bus_slack(self.bus),
            video: self.video,
            audio: self.audio,
            failed: self.failed,
        }
    }
}

impl Distributor {
    /// Which selected stream, if any, the packet of stream `stream` belongs to.
    pub fn route(&self, stream: usize) -> (r: Route)
        ensures
            r.video == (self@.video == Some(stream)),
            r.audio == (self@.audio == Some(stream)),
    {
        let video = match self.video {
            Some(v) => v == stream,
            None => false,
        };
        let audio = match self.audio {
            Some(a) => a == stream,
            None => false,
        };
        Route { video, audio }
    }

    /// Publishes what decoding one packet gave: a frame goes to every endpoint
    /// still attached, after those published before (endpoints that have left
    /// may drop out of the count); a decode error publishes nothing, marks
    /// the loop as failed, so that nothing more can be published, and is
    /// returned.
    pub fn publish(&mut self, decoded: Result<Frame, String>) -> (r: Result<(), ContextError>)
        requires
            !old(self)@.failed,
            old(self)@.slack >= 1,
        ensures
            decoded matches Ok(f) ==> (r is Ok && final(self)@ == (DistributorView {
                sent: old(self)@.sent.push(f),
                readers: final(self)@.readers,
                ..old(self)@
            }) && final(self)@.readers <= old(self)@.readers),
            decoded matches Err(m) ==> (r == Err::<(), ContextError>(ContextError::FFmpeg(m))
                && final(self)@ == (DistributorView { failed: true, ..old(self)@ })),
    {
        match decoded {
            Ok(f) => {
                broadcast(&mut self.bus, f);
                Ok(())
            },
            Err(m) => {
                self.failed = true;
                Err(ContextError::FFmpeg(m))
            },
        }
    }

    pub fn failed(&self) -> (r: bool)
        ensures
            r == self@.failed,
    {
        self.failed
    }
}

/// How a worker's thread ended, as seen when joining it.
pub enum Joined {
    /// The thread returned this result.
    Finished(Result<(), ContextError>),
    /// The thread panicked.
    Panicked,
}

pub open spec fn joined_ok(j: Joined) -> bool {
    j matches Joined::Finished(Ok(()))
}

/// The error a failed join stands for.
pub open spec fn join_error(j: Joined) -> ContextError {
    match j {
        Joined::Finished(Err(e)) => e,
        _ => ContextError::JoinFailed,
    }
}

/// Position `i` holds the first failed join of `s`.
pub open spec fn first_failed(s: Seq<Joined>, i: int) -> bool {
    &&& 0 <= i < s.len()
    &&& !joined_ok(s[i])
    &&& forall|j: int| 0 <= j < i ==> joined_ok(#[trigger] s[j])
}

/// The result of the join stage: the error of the first failed join, in join
/// order, or success when every worker succeeded.
pub open spec fn join_result(s: Seq<Joined>) -> Result<(), ContextError> {
    if exists|i: int| first_failed(s, i) {
        Err(join_error(s[choose|i: int| first_failed(s, i)]))
    } else {
        Ok(())
    }
}

proof fn lemma_first_failed_unique(s: Seq<Joined>, i: int, k: int)
    requires
        first_failed(s, i),
        first_failed(s, k),
    ensures
        i == k,
{
    if i < k {
        assert(joined_ok(s[i]));
    } else if k < i {
        assert(joined_ok(s[k]));
    }
}

/// When exactly one worker timed out and every other worker finished
/// normally, the join stage reports that worker's timeout, and only it.
pub proof fn lemma_single_timeout(s: Seq<Joined>, k: int)
    requires
        0 <= k < s.len(),
        s[k] == Joined::Finished(Err(ContextError::WorkerTimeout(k as usize))),
        forall|i: int| 0 <= i < s.len() && i != k ==> joined_ok(#[trigger] s[i]),
    ensures
        join_result(s) == Err::<(), ContextError>(ContextError::WorkerTimeout(k as usize)),
{
    assert(first_failed(s, k));
    let c = choose|i: int| first_failed(s, i);
    lemma_first_failed_unique(s, c, k);
}

/// The state of a transcoding run: a scratch directory, the resolved input,
/// and the hooks and tasks registered for the next run, in registration order.
pub struct Context {
    dest: String,
    input_path: InputPath,
    hooks: Vec<Hook>,
    tasks: Vec<Task>,
}

impl Context {
    pub closed spec fn spec_tasks(&self) -> Seq<Task> {
        self.tasks@
    }

    pub closed spec fn spec_hooks(&self) -> Seq<Hook> {
        self.hooks@
    }

    pub closed spec fn spec_dest(&self) -> Seq<char> {
        self.dest@
    }

    pub closed spec fn spec_input_path(&self) -> InputPath {
        self.input_path
    }

    /// A context for one input, with nothing registered yet.
    pub fn new(dest: String, input_path: InputPath) -> (r: Context)
        ensures
            r.spec_dest() == dest@,
            r.spec_input_path() == input_path,
            r.spec_tasks() == Seq::<Task>::empty(),
            r.spec_hooks() == Seq::<Hook>::empty(),
    {
        Context { dest, input_path, hooks: Vec::new(), tasks: Vec::new() }
    }

    /// Registers a hook after those registered before.
    pub fn add_hook(&mut self, hook: Hook)
        ensures
            final(self).spec_hooks() == old(self).spec_hooks().push(hook),
            final(self).spec_tasks() == old(self).spec_tasks(),
            final(self).spec_dest() == old(self).spec_dest(),
            final(self).spec_input_path() == old(self).spec_input_path(),
    {
        self.hooks.push(hook);
    }

    /// Registers a task after those registered before.
    pub fn add_task(&mut self, task: Task)
        ensures
            final(self).spec_tasks() == old(self).spec_tasks().push(task),
            final(self).spec_hooks() == old(self).spec_hooks(),
            final(self).spec_dest() == old(self).spec_dest(),
            final(self).spec_input_path() == old(self).spec_input_path(),
    {
        self.tasks.push(task);
    }

    /// The scratch directory of the run.
    pub fn dest(&self) -> (r: &String)
        ensures
            r@ == self.spec_dest(),
    {
        &self.dest
    }

    /// The local file that holds the input.
    pub fn input_path(&self) -> (r: &InputPath)
        ensures
            *r == self.spec_input_path(),
    {
        &self.input_path
    }

    pub fn tasks(&self) -> (r: &Vec<Task>)
        ensures
            r@ == self.spec_tasks(),
    {
        &self.tasks
    }

    pub fn hooks(&self) -> (r: &Vec<Hook>)
        ensures
            r@ == self.spec_hooks(),
    {
        &self.hooks
    }

    /// Starts a run on the selected video and audio streams. With no task it
    /// fails with `NoTask`, and with neither stream with `NoStream`, in both
    /// cases before any endpoint exists. Otherwise it makes a bus with one
    /// slot of slack less than there are tasks, but at least one, and adds one
    /// endpoint per task, in task order, all before anything is published.
    pub fn start(&self, video: Option<usize>, audio: Option<usize>) -> (r: Result<
        (Distributor, Vec<bus::BusReader<Frame>>),
        ContextError,
    >)
        ensures
            self.spec_tasks().len() == 0 ==> r matches Err(ContextError::NoTask),
            self.spec_tasks().len() > 0 && video is None && audio is None ==> r matches Err(
                ContextError::NoStream,
            ),
            self.spec_tasks().len() > 0 && (video is Some || audio is Some) ==> r is Ok,
            r matches Ok((d, rx)) ==> (rx@.len() == self.spec_tasks().len() && d@ == (
            DistributorView {
                sent: Seq::empty(),
                readers: self.spec_tasks().len(),
                slack: run_slack(self.spec_tasks().len()),
                video,
                audio,
                failed: false,
            })),
    {
        if self.tasks.len() == 0 {
            return Err(ContextError::NoTask);
        }
        if video.is_none() && audio.is_none() {
            return Err(ContextError::NoStream);
        }
        let n = self.tasks.len();
        let slack: usize = if n > 1 {
            n - 1
        } else {
            1
        };
        let mut b = new_bus(slack);
        let mut readers: Vec<bus::BusReader<Frame>> = Vec::new();
        let mut i: usize = 0;
        while i < n
            invariant
                n == self.spec_tasks().len(),
                i <= n,
                readers@.len() == i,
                bus_readers(b) == i,
                bus_sent(b) == Seq::<Frame>::empty(),
                bus_slack(b) == run_slack(n as nat),
            decreases n - i,
        {
            let rx = add_reader(&mut b);
            readers.push(rx);
            i = i + 1;
        }
        Ok((Distributor { bus: b, video, audio, failed: false }, readers))
    }

    /// Ends a run once the decode loop has stopped and every worker has been
    /// joined, one entry per task in task order. A decode error is the run's
    /// error; else the first failed join's; else the run succeeded and the
    /// hooks to fire are handed back in registration order. Either way the
    /// tasks and hooks are cleared, so that the context can take a new run.
    pub fn conclude(&mut self, decode: Result<(), ContextError>, joined: Vec<Joined>) -> (r: Result<
        Vec<Hook>,
        ContextError,
    >)
        requires
            joined@.len() == old(self).spec_tasks().len(),
        ensures
            decode matches Err(e) ==> r == Err::<Vec<Hook>, ContextError>(e),
            decode is Ok ==> (join_result(joined@) matches Err(e) ==> r == Err::<
                Vec<Hook>,
                ContextError,
            >(e)),
            decode is Ok && join_result(joined@) is Ok ==> (r matches Ok(h) && h@ == old(
                self,
            ).spec_hooks()),
            final(self).spec_tasks() == Seq::<Task>::empty(),
            final(self).spec_hooks() == Seq::<Hook>::empty(),
            final(self).spec_dest() == old(self).spec_dest(),
            final(self).spec_input_path() == old(self).spec_input_path(),
    {
        let mut hooks: Vec<Hook> = Vec::new();
        std::mem::swap(&mut hooks, &mut self.hooks);
        self.tasks.clear();
        match decode {
            Err(e) => {
                return Err(e);
            },
            Ok(()) => {},
        }
        let mut rest = joined;
        let ghost s = rest@;
        let mut i: usize = 0;
        while i < rest.len()
            invariant
                rest@ == s,
                s == joined@,
                decode is Ok,
                hooks@ == old(self).spec_hooks(),
                self.tasks@ == Seq::<Task>::empty(),
                self.hooks@ == Seq::<Hook>::empty(),
                self.dest == old(self).dest,
                self.input_path == old(self).input_path,
                i <= s.len(),
                forall|j: int| 0 <= j < i ==> joined_ok(#[trigger] s[j]),
            decreases s.len() - i,
        {
            let ok = match &rest[i] {
                Joined::Finished(Ok(())) => true,
                _ => false,
            };
            if !ok {
                proof {
                    assert(first_failed(s, i as int));
                    let c = choose|k: int| first_failed(s, k);
                    lemma_first_failed_unique(s, c, i as int);
                }
                let j = rest.remove(i);
                let e = match j {
                    Joined::Finished(Err(e)) => e,
                    _ => ContextError::JoinFailed,
                };
                return Err(e);
            }
            i = i + 1;
        }
        assert(!exists|k: int| first_failed(s, k));
        Ok(hooks)
    }
}

} // verus!
