use vstd::prelude::*;
use vstd::string::StringExecFns;
use crate::buffer::{Buffer, BufferData, Protection};
use crate::encoding::{scalar_u32_bytes, vector_u32x4_bytes};
use crate::error::Error;
use crate::image::{Color, Format, Image, Size2};
use crate::kernel::{
    count_kernel_entry_points, kernel_count, source_accepted, source_syntax_valid,
    well_formed_source,
};
use crate::profile_event::ProfileEvent;
use crate::program::Program;
use crate::queue::{binding_matches, Binding, Queue, Submission, Uniform, waits_of};
use crate::sync_event::SyncEvent;

verus! {

/// The record a device keeps for one buffer: its bytes are its whole device
/// memory, of the logical size fixed at creation.
#[derive(Debug)]
pub struct BufferRecord {
    pub alive: bool,
    pub protection: Protection,
    pub bytes: Vec<u8>,
}

/// The record a device keeps for one compiled program.
#[derive(Clone, Copy, Debug)]
pub struct ProgramRecord {
    pub alive: bool,
}

/// The record a device keeps for one image surface.
#[derive(Clone, Copy, Debug)]
pub struct ImageRecord {
    pub alive: bool,
    pub format: Format,
    pub size: Size2,
    pub protection: Protection,
}

/// The record a device keeps for one queue: the timeline of submissions in
/// submission order, and how far into it execution has completed. Completion
/// is always a prefix of the timeline.
#[derive(Debug)]
pub struct QueueRecord {
    pub alive: bool,
    pub timeline: Vec<Submission>,
    pub completed_upto: usize,
}

/// The record a device keeps for one sync event: the point of one queue's
/// timeline at which the event is satisfied.
#[derive(Clone, Copy, Debug)]
pub struct SyncEventRecord {
    pub alive: bool,
    pub queue: usize,
    pub tick: usize,
}

/// The record a device keeps for one profile token: the submission it was
/// returned for.
#[derive(Clone, Copy, Debug)]
pub struct ProfileEventRecord {
    pub alive: bool,
    pub queue: usize,
    pub tick: usize,
}

/// Event `e` is satisfied when the queue that produced it has completed past
/// the sync point that produced it.
pub open spec fn event_satisfied_in(
    events: Seq<SyncEventRecord>,
    queues: Seq<QueueRecord>,
    e: usize,
) -> bool {
    &&& (e as int) < events.len()
    &&& (events[e as int].queue as int) < queues.len()
    &&& events[e as int].tick < queues[events[e as int].queue as int].completed_upto
}

/// Every entry of a wait-list names a real event.
pub open spec fn waits_wf(waits: Seq<usize>, n_events: int) -> bool {
    forall|k: int| 0 <= k < waits.len() ==> (#[trigger] waits[k]) < n_events
}

/// Every event of a wait-list is satisfied.
pub open spec fn waits_satisfied(
    waits: Seq<usize>,
    events: Seq<SyncEventRecord>,
    queues: Seq<QueueRecord>,
) -> bool {
    forall|k: int| 0 <= k < waits.len() ==> event_satisfied_in(events, queues, #[trigger] waits[k])
}

/// Completion is a prefix of each timeline.
pub open spec fn queues_wf(queues: Seq<QueueRecord>) -> bool {
    forall|q: int|
        0 <= q < queues.len() ==> (#[trigger] queues[q]).completed_upto
            <= queues[q].timeline@.len()
}

/// Every sync event points at a real position of a real timeline.
pub open spec fn events_wf(events: Seq<SyncEventRecord>, queues: Seq<QueueRecord>) -> bool {
    forall|e: int|
        0 <= e < events.len() ==> ((#[trigger] events[e]).queue as int) < queues.len() && (
        events[e].tick as int) < queues[events[e].queue as int].timeline@.len()
}

/// Every profile token points at a real position of a real timeline.
pub open spec fn profiles_wf(profiles: Seq<ProfileEventRecord>, queues: Seq<QueueRecord>) -> bool {
    forall|e: int|
        0 <= e < profiles.len() ==> ((#[trigger] profiles[e]).queue as int) < queues.len() && (
        profiles[e].tick as int) < queues[profiles[e].queue as int].timeline@.len()
}

/// Every wait recorded anywhere names a real event.
pub open spec fn timelines_wf(queues: Seq<QueueRecord>, n_events: int) -> bool {
    forall|q: int, i: int|
        0 <= q < queues.len() && 0 <= i < queues[q].timeline@.len() ==> waits_wf(
            waits_of(#[trigger] queues[q].timeline@[i]),
            n_events,
        )
}

/// No submission is counted complete before every event it waits on is
/// satisfied: the ordering guarantee of the wait-list protocol.
pub open spec fn completion_gated(queues: Seq<QueueRecord>, events: Seq<SyncEventRecord>) -> bool {
    forall|q: int, i: int|
        0 <= q < queues.len() && 0 <= i < queues[q].completed_upto ==> waits_satisfied(
            waits_of(#[trigger] queues[q].timeline@[i]),
            events,
            queues,
        )
}

/// A device bound to one backend instance. It is the root owner of the
/// binding and the factory for every other handle; each object it creates
/// carries the same binding. This device is the library's reference backend:
/// it records the full submission protocol in plain state, so every contract
/// of the protocol is stated and checked against it.
#[derive(Debug)]
pub struct Device {
    /// the backend binding every created handle carries
    pub backend: usize,
    pub buffers: Vec<BufferRecord>,
    pub programs: Vec<ProgramRecord>,
    pub images: Vec<ImageRecord>,
    pub queues: Vec<QueueRecord>,
    pub sync_events: Vec<SyncEventRecord>,
    pub profile_events: Vec<ProfileEventRecord>,
}

impl Device {
    /// Internal consistency of all records; every operation requires and
    /// preserves it.
    pub open spec fn wf(self) -> bool {
        &&& queues_wf(self.queues@)
        &&& events_wf(self.sync_events@, self.queues@)
        &&& profiles_wf(self.profile_events@, self.queues@)
        &&& timelines_wf(self.queues@, self.sync_events@.len() as int)
        &&& completion_gated(self.queues@, self.sync_events@)
    }

    /// A queue handle this device created and has not destroyed.
    pub open spec fn queue_live(self, q: Queue) -> bool {
        &&& q.backend == self.backend
        &&& (q.handle as int) < self.queues@.len()
        &&& self.queues@[q.handle as int].alive
    }

    /// A buffer handle this device created and has not destroyed; its size
    /// and protection match the record.
    pub open spec fn buffer_live(self, b: Buffer) -> bool {
        &&& b.backend == self.backend
        &&& (b.handle as int) < self.buffers@.len()
        &&& self.buffers@[b.handle as int].alive
        &&& b.size == self.buffers@[b.handle as int].bytes@.len()
        &&& b.protection == self.buffers@[b.handle as int].protection
    }

    /// A program handle this device created and has not destroyed.
    pub open spec fn program_live(self, p: Program) -> bool {
        &&& p.backend == self.backend
        &&& (p.handle as int) < self.programs@.len()
        &&& self.programs@[p.handle as int].alive
    }

    /// An image handle this device created and has not destroyed.
    pub open spec fn image_live(self, i: Image) -> bool {
        &&& i.backend == self.backend
        &&& (i.handle as int) < self.images@.len()
        &&& self.images@[i.handle as int].alive
    }

    /// A sync event this device created and has not destroyed.
    pub open spec fn sync_event_live(self, e: SyncEvent) -> bool {
        &&& e.backend == self.backend
        &&& (e.handle as int) < self.sync_events@.len()
        &&& self.sync_events@[e.handle as int].alive
    }

    /// A profile token this device created and has not destroyed.
    pub open spec fn profile_event_live(self, e: ProfileEvent) -> bool {
        &&& e.backend == self.backend
        &&& (e.handle as int) < self.profile_events@.len()
        &&& self.profile_events@[e.handle as int].alive
    }

    /// A uniform whose resource handles, if any, are live on this device.
    pub open spec fn uniform_live(self, u: Uniform) -> bool {
        match u {
            Uniform::Buffer(b) => self.buffer_live(b),
            Uniform::Image(i) => self.image_live(i),
            Uniform::U32(_) => true,
            Uniform::UVec4(_, _, _, _) => true,
        }
    }

    /// Binds a fresh device to the backend instance numbered `backend`, with
    /// no objects created yet.
    pub fn new(backend: usize) -> (d: Device)
        ensures
            d.wf(),
            d.backend == backend,
            d.buffers@.len() == 0,
            d.programs@.len() == 0,
            d.images@.len() == 0,
            d.queues@.len() == 0,
            d.sync_events@.len() == 0,
            d.profile_events@.len() == 0,
    {
        Device {
            backend,
            buffers: Vec::new(),
            programs: Vec::new(),
            images: Vec::new(),
            queues: Vec::new(),
            sync_events: Vec::new(),
            profile_events: Vec::new(),
        }
    }

    /// Releases the device. Must be the last operation: the handle is moved,
    /// so any later use of it is refused at compile time.
    pub fn destroy(self) {
    }

    /// Allocates a new command-submission channel, bound to this device's
    /// backend, with an empty timeline.
    pub fn create_queue(&mut self) -> (r: Result<Queue, Error>)
        requires
            old(self).wf(),
        ensures
            final(self).wf(),
            r matches Ok(q) && q.handle == old(self).queues@.len() && q.backend == old(
                self,
            ).backend && final(self).queue_live(q),
            final(self).queues@.len() == old(self).queues@.len() + 1,
            final(self).queues@[old(self).queues@.len() as int].alive,
            final(self).queues@[old(self).queues@.len() as int].timeline@.len() == 0,
            final(self).queues@[old(self).queues@.len() as int].completed_upto == 0,
            forall|j: int|
                0 <= j < old(self).queues@.len() ==> final(self).queues@[j] == old(
                    self,
                ).queues@[j],
            final(self).backend == old(self).backend,
            final(self).buffers == old(self).buffers,
            final(self).programs == old(self).programs,
            final(self).images == old(self).images,
            final(self).sync_events == old(self).sync_events,
            final(self).profile_events == old(self).profile_events,
    {
        let handle = self.queues.len();
        self.queues.push(QueueRecord { alive: true, timeline: Vec::new(), completed_upto: 0 });
        proof {
            lemma_wf_extend(
                old(self).queues@,
                old(self).sync_events@,
                old(self).profile_events@,
                self.queues@,
                self.sync_events@,
                self.profile_events@,
            );
        }
        Ok(Queue { handle, backend: self.backend })
    }

    /// Allocates linear device memory: host-allocated data is copied into
    /// new memory of that exact length; uninitialized data gives memory of
    /// the requested length with unspecified content. The returned handle
    /// reports the logical size either way.
    pub fn create_buffer(&mut self, protection: Protection, data: BufferData) -> (r: Result<
        Buffer,
        Error,
    >)
        requires
            old(self).wf(),
        ensures
            final(self).wf(),
            r matches Ok(b) && b.handle == old(self).buffers@.len() && b.backend == old(
                self,
            ).backend && b.size as nat == data.spec_size() && b.protection == protection
                && final(self).buffer_live(b),
            final(self).buffers@.len() == old(self).buffers@.len() + 1,
            final(self).buffers@[old(self).buffers@.len() as int].alive,
            final(self).buffers@[old(self).buffers@.len() as int].protection == protection,
            final(self).buffers@[old(self).buffers@.len() as int].bytes@.len()
                == data.spec_size(),
            data matches BufferData::HostAllocated(h) ==> final(self).buffers@[old(
                self,
            ).buffers@.len() as int].bytes@ == h@,
            forall|j: int|
                0 <= j < old(self).buffers@.len() ==> final(self).buffers@[j] == old(
                    self,
                ).buffers@[j],
            final(self).backend == old(self).backend,
            final(self).programs == old(self).programs,
            final(self).images == old(self).images,
            final(self).queues == old(self).queues,
            final(self).sync_events == old(self).sync_events,
            final(self).profile_events == old(self).profile_events,
    {
        let handle = self.buffers.len();
        let bytes: Vec<u8> = match data {
            BufferData::HostAllocated(h) => h,
            BufferData::Uninitialized(n) => alloc_bytes(n),
        };
        let size = bytes.len();
        self.buffers.push(BufferRecord { alive: true, protection, bytes });
        Ok(Buffer { handle, backend: self.backend, size, protection })
    }

    /// Allocates a 2D pixel surface of the given format, dimensions and
    /// protection, all fixed at creation.
    pub fn create_image(&mut self, format: Format, protection: Protection, size: Size2) -> (r:
        Result<Image, Error>)
        requires
            old(self).wf(),
        ensures
            final(self).wf(),
            r matches Ok(i) && i.handle == old(self).images@.len() && i.backend == old(
                self,
            ).backend && i.format == format && i.size == size && i.protection == protection
                && final(self).image_live(i),
            final(self).images@.len() == old(self).images@.len() + 1,
            final(self).images@[old(self).images@.len() as int] == (ImageRecord {
                alive: true,
                format,
                size,
                protection,
            }),
            forall|j: int|
                0 <= j < old(self).images@.len() ==> final(self).images@[j] == old(
                    self,
                ).images@[j],
            final(self).backend == old(self).backend,
            final(self).buffers == old(self).buffers,
            final(self).programs == old(self).programs,
            final(self).queues == old(self).queues,
            final(self).sync_events == old(self).sync_events,
            final(self).profile_events == old(self).profile_events,
    {
        let handle = self.images.len();
        self.images.push(ImageRecord { alive: true, format, size, protection });
        Ok(Image { handle, backend: self.backend, format, size, protection })
    }

    /// Compiles a kernel source into a program. The source must have valid
    /// syntax, else compilation fails with the diagnostic; it must declare
    /// exactly one kernel entry point, else creation fails generically. A
    /// failure leaves no partially-constructed handle behind.
    pub fn create_program(&mut self, source: &str) -> (r: Result<Program, Error>)
        requires
            old(self).wf(),
        ensures
            final(self).wf(),
            source_accepted(source@) ==> (r matches Ok(p) && p.handle == old(
                self,
            ).programs@.len() && p.backend == old(self).backend && final(self).program_live(p)
                && final(self).programs@ == old(self).programs@.push(
                ProgramRecord { alive: true },
            )),
            well_formed_source(source@) && kernel_count(source@) != 1 ==> r == Err::<
                Program,
                Error,
            >(Error::Failed) && final(self).programs == old(self).programs,
            !well_formed_source(source@) ==> (r matches Err(e) && e matches Error::CompileFailed(m)
                && m@ == syntax_diagnostic()) && final(self).programs == old(self).programs,
            final(self).backend == old(self).backend,
            final(self).buffers == old(self).buffers,
            final(self).images == old(self).images,
            final(self).queues == old(self).queues,
            final(self).sync_events == old(self).sync_events,
            final(self).profile_events == old(self).profile_events,
    {
        if !source_syntax_valid(source) {
            return Err(
                Error::CompileFailed(String::from_str("unbalanced braces in kernel source")),
            );
        }
        let n = count_kernel_entry_points(source);
        if n != 1 {
            return Err(Error::Failed);
        }
        let handle = self.programs.len();
        self.programs.push(ProgramRecord { alive: true });
        Ok(Program { handle, backend: self.backend })
    }

    /// Releases a buffer's device memory. The handle must be live: calling
    /// destroy a second time on the same handle violates this contract.
    pub fn destroy_buffer(&mut self, buffer: &Buffer)
        requires
            old(self).wf(),
            old(self).buffer_live(*buffer),
        ensures
            final(self).wf(),
            !final(self).buffer_live(*buffer),
            final(self).buffers@.len() == old(self).buffers@.len(),
            !final(self).buffers@[buffer.handle as int].alive,
            forall|j: int|
                0 <= j < old(self).buffers@.len() && j != buffer.handle ==> final(self).buffers@[j]
                    == old(self).buffers@[j],
            final(self).backend == old(self).backend,
            final(self).programs == old(self).programs,
            final(self).images == old(self).images,
            final(self).queues == old(self).queues,
            final(self).sync_events == old(self).sync_events,
            final(self).profile_events == old(self).profile_events,
    {
        self.buffers[buffer.handle] = BufferRecord {
            alive: false,
            protection: buffer.protection,
            bytes: Vec::new(),
        };
    }

    /// Releases a program. The handle must be live: calling destroy a second
    /// time on the same handle violates this contract.
    pub fn destroy_program(&mut self, program: &Program)
        requires
            old(self).wf(),
            old(self).program_live(*program),
        ensures
            final(self).wf(),
            !final(self).program_live(*program),
            final(self).programs@.len() == old(self).programs@.len(),
            !final(self).programs@[program.handle as int].alive,
            forall|j: int|
                0 <= j < old(self).programs@.len() && j != program.handle ==> final(self).programs@[j]
                    == old(self).programs@[j],
            final(self).backend == old(self).backend,
            final(self).buffers == old(self).buffers,
            final(self).images == old(self).images,
            final(self).queues == old(self).queues,
            final(self).sync_events == old(self).sync_events,
            final(self).profile_events == old(self).profile_events,
    {
        self.programs[program.handle] = ProgramRecord { alive: false };
    }

    /// Releases an image. The handle must be live: calling destroy a second
    /// time on the same handle violates this contract.
    pub fn destroy_image(&mut self, image: &Image)
        requires
            old(self).wf(),
            old(self).image_live(*image),
        ensures
            final(self).wf(),
            !final(self).image_live(*image),
            final(self).images@.len() == old(self).images@.len(),
            !final(self).images@[image.handle as int].alive,
            forall|j: int|
                0 <= j < old(self).images@.len() && j != image.handle ==> final(self).images@[j]
                    == old(self).images@[j],
            final(self).backend == old(self).backend,
            final(self).buffers == old(self).buffers,
            final(self).programs == old(self).programs,
            final(self).queues == old(self).queues,
            final(self).sync_events == old(self).sync_events,
            final(self).profile_events == old(self).profile_events,
    {
        let rec = self.images[image.handle];
        self.images[image.handle] = ImageRecord { alive: false, ..rec };
    }

    /// Releases a queue. Every submission on it must have completed (see
    /// `finish`): destroying a queue with pending work, or a handle already
    /// destroyed, violates this contract.
    pub fn destroy_queue(&mut self, queue: &Queue)
        requires
            old(self).wf(),
            old(self).queue_live(*queue),
            old(self).queues@[queue.handle as int].completed_upto == old(self).queues@[queue.handle
                as int].timeline@.len(),
        ensures
            final(self).wf(),
            !final(self).queue_live(*queue),
            final(self).queues@.len() == old(self).queues@.len(),
            !final(self).queues@[queue.handle as int].alive,
            final(self).queues@[queue.handle as int].timeline == old(self).queues@[queue.handle
                as int].timeline,
            final(self).queues@[queue.handle as int].completed_upto == old(self).queues@[
                queue.handle as int].completed_upto,
            forall|j: int|
                0 <= j < old(self).queues@.len() && j != queue.handle ==> final(self).queues@[j]
                    == old(self).queues@[j],
            final(self).backend == old(self).backend,
            final(self).buffers == old(self).buffers,
            final(self).programs == old(self).programs,
            final(self).images == old(self).images,
            final(self).sync_events == old(self).sync_events,
            final(self).profile_events == old(self).profile_events,
    {
        self.queues[queue.handle].alive = false;
        proof {
            lemma_wf_extend(
                old(self).queues@,
                old(self).sync_events@,
                old(self).profile_events@,
                self.queues@,
                self.sync_events@,
                self.profile_events@,
            );
        }
    }

    /// Releases a sync event token. Once every dependent submission has
    /// consumed it, the caller may release it; the handle must be live, and
    /// destroying it twice violates this contract.
    pub fn destroy_sync_event(&mut self, event: &SyncEvent)
        requires
            old(self).wf(),
            old(self).sync_event_live(*event),
        ensures
            final(self).wf(),
            !final(self).sync_event_live(*event),
            final(self).sync_events@.len() == old(self).sync_events@.len(),
            !final(self).sync_events@[event.handle as int].alive,
            final(self).sync_events@[event.handle as int].queue == old(self).sync_events@[
                event.handle as int].queue,
            final(self).sync_events@[event.handle as int].tick == old(self).sync_events@[
                event.handle as int].tick,
            forall|j: int|
                0 <= j < old(self).sync_events@.len() && j != event.handle ==> final(self).sync_events@[j]
                    == old(self).sync_events@[j],
            final(self).backend == old(self).backend,
            final(self).buffers == old(self).buffers,
            final(self).programs == old(self).programs,
            final(self).images == old(self).images,
            final(self).queues == old(self).queues,
            final(self).profile_events == old(self).profile_events,
    {
        self.sync_events[event.handle].alive = false;
        proof {
            lemma_wf_extend(
                old(self).queues@,
                old(self).sync_events@,
                old(self).profile_events@,
                self.queues@,
                self.sync_events@,
                self.profile_events@,
            );
        }
    }

    /// Releases a profile token. The handle must be live, and destroying it
    /// twice violates this contract.
    pub fn destroy_profile_event(&mut self, event: &ProfileEvent)
        requires
            old(self).wf(),
            old(self).profile_event_live(*event),
        ensures
            final(self).wf(),
            !final(self).profile_event_live(*event),
            final(self).profile_events@.len() == old(self).profile_events@.len(),
            !final(self).profile_events@[event.handle as int].alive,
            forall|j: int|
                0 <= j < old(self).profile_events@.len() && j != event.handle ==> final(self).profile_events@[j]
                    == old(self).profile_events@[j],
            final(self).backend == old(self).backend,
            final(self).buffers == old(self).buffers,
            final(self).programs == old(self).programs,
            final(self).images == old(self).images,
            final(self).queues == old(self).queues,
            final(self).sync_events == old(self).sync_events,
    {
        self.profile_events[event.handle].alive = false;
        proof {
            lemma_wf_extend(
                old(self).queues@,
                old(self).sync_events@,
                old(self).profile_events@,
                self.queues@,
                self.sync_events@,
                self.profile_events@,
            );
        }
    }

    /// Appends one submission to a queue's timeline and returns the profile
    /// token for it. Commit returns immediately: the submission is recorded
    /// as not yet completed.
    fn record_submission(&mut self, queue: &Queue, sub: Submission) -> (pe: ProfileEvent)
        requires
            old(self).wf(),
            old(self).queue_live(*queue),
            waits_wf(waits_of(sub), old(self).sync_events@.len() as int),
        ensures
            final(self).wf(),
            final(self).profile_event_live(pe),
            pe.handle == old(self).profile_events@.len(),
            pe.backend == old(self).backend,
            final(self).profile_events@.len() == old(self).profile_events@.len() + 1,
            final(self).profile_events@[old(self).profile_events@.len() as int]
                == (ProfileEventRecord {
                alive: true,
                queue: queue.handle,
                tick: old(self).queues@[queue.handle as int].timeline@.len() as usize,
            }),
            forall|j: int|
                0 <= j < old(self).profile_events@.len() ==> final(self).profile_events@[j] == old(
                    self,
                ).profile_events@[j],
            final(self).queues@.len() == old(self).queues@.len(),
            final(self).queues@[queue.handle as int].timeline@ == old(self).queues@[queue.handle
                as int].timeline@.push(sub),
            final(self).queues@[queue.handle as int].completed_upto == old(self).queues@[
                queue.handle as int].completed_upto,
            final(self).queues@[queue.handle as int].alive == old(self).queues@[queue.handle
                as int].alive,
            forall|j: int|
                0 <= j < old(self).queues@.len() && j != queue.handle ==> final(self).queues@[j]
                    == old(self).queues@[j],
            final(self).backend == old(self).backend,
            final(self).buffers == old(self).buffers,
            final(self).programs == old(self).programs,
            final(self).images == old(self).images,
            final(self).sync_events == old(self).sync_events,
    {
        let tick = self.queues[queue.handle].timeline.len();
        self.queues[queue.handle].timeline.push(sub);
        let handle = self.profile_events.len();
        self.profile_events.push(
            ProfileEventRecord { alive: true, queue: queue.handle, tick },
        );
        proof {
            lemma_wf_extend(
                old(self).queues@,
                old(self).sync_events@,
                old(self).profile_events@,
                self.queues@,
                self.sync_events@,
                self.profile_events@,
            );
        }
        ProfileEvent { handle, backend: self.backend }
    }

    /// Inserts a synchronization point into the queue's timeline, with no
    /// other work, and returns the token later submissions can wait on. The
    /// token is satisfied once the queue completes past this point.
    pub fn submit_sync_event(&mut self, queue: &Queue) -> (r: Result<SyncEvent, Error>)
        requires
            old(self).wf(),
            old(self).queue_live(*queue),
        ensures
            final(self).wf(),
            r matches Ok(e) && e.handle == old(self).sync_events@.len() && e.backend == old(
                self,
            ).backend && final(self).sync_event_live(e),
            final(self).sync_events@.len() == old(self).sync_events@.len() + 1,
            final(self).sync_events@[old(self).sync_events@.len() as int] == (SyncEventRecord {
                alive: true,
                queue: queue.handle,
                tick: old(self).queues@[queue.handle as int].timeline@.len() as usize,
            }),
            forall|j: int|
                0 <= j < old(self).sync_events@.len() ==> final(self).sync_events@[j] == old(
                    self,
                ).sync_events@[j],
            final(self).queues@.len() == old(self).queues@.len(),
            final(self).queues@[queue.handle as int].timeline@ == old(self).queues@[queue.handle
                as int].timeline@.push(Submission::SyncPoint),
            final(self).queues@[queue.handle as int].completed_upto == old(self).queues@[
                queue.handle as int].completed_upto,
            final(self).queues@[queue.handle as int].alive == old(self).queues@[queue.handle
                as int].alive,
            forall|j: int|
                0 <= j < old(self).queues@.len() && j != queue.handle ==> final(self).queues@[j]
                    == old(self).queues@[j],
            final(self).backend == old(self).backend,
            final(self).buffers == old(self).buffers,
            final(self).programs == old(self).programs,
            final(self).images == old(self).images,
            final(self).profile_events == old(self).profile_events,
    {
        let tick = self.queues[queue.handle].timeline.len();
        self.queues[queue.handle].timeline.push(Submission::SyncPoint);
        let handle = self.sync_events.len();
        self.sync_events.push(SyncEventRecord { alive: true, queue: queue.handle, tick });
        proof {
            assert(waits_of(Submission::SyncPoint) =~= Seq::<usize>::empty());
            lemma_wf_extend(
                old(self).queues@,
                old(self).sync_events@,
                old(self).profile_events@,
                self.queues@,
                self.sync_events@,
                self.profile_events@,
            );
        }
        Ok(SyncEvent { handle, backend: self.backend })
    }

    /// Encodes a fill of `image` with `color`, waiting on every event of the
    /// wait-list before it begins, and returns this submission's token.
    pub fn submit_clear(
        &mut self,
        queue: &Queue,
        image: &Image,
        color: Color,
        wait_events: &Vec<SyncEvent>,
    ) -> (r: Result<ProfileEvent, Error>)
        requires
            old(self).wf(),
            old(self).queue_live(*queue),
            old(self).image_live(*image),
            forall|k: int|
                0 <= k < wait_events@.len() ==> old(self).sync_event_live(
                    #[trigger] wait_events@[k],
                ),
        ensures
            final(self).wf(),
            r matches Ok(pe) && pe.handle == old(self).profile_events@.len() && pe.backend == old(
                self,
            ).backend && final(self).profile_event_live(pe),
            final(self).queues@[queue.handle as int].timeline@.len() == old(self).queues@[
                queue.handle as int].timeline@.len() + 1,
            forall|i: int|
                0 <= i < old(self).queues@[queue.handle as int].timeline@.len() ==> final(self).queues@[queue.handle as int].timeline@[i] == old(self).queues@[queue.handle
                    as int].timeline@[i],
            final(self).queues@[queue.handle as int].timeline@.last() matches Submission::Clear {
                image: im,
                color: c,
                waits: w,
            } && im == image.handle && c == color && w@ == event_handles(wait_events@),
            final(self).queues@[queue.handle as int].completed_upto == old(self).queues@[
                queue.handle as int].completed_upto,
            final(self).queues@[queue.handle as int].alive == old(self).queues@[queue.handle
                as int].alive,
            forall|j: int|
                0 <= j < old(self).queues@.len() && j != queue.handle ==> final(self).queues@[j]
                    == old(self).queues@[j],
            final(self).queues@.len() == old(self).queues@.len(),
            final(self).profile_events@.len() == old(self).profile_events@.len() + 1,
            final(self).profile_events@[old(self).profile_events@.len() as int]
                == (ProfileEventRecord {
                alive: true,
                queue: queue.handle,
                tick: old(self).queues@[queue.handle as int].timeline@.len() as usize,
            }),
            forall|j: int|
                0 <= j < old(self).profile_events@.len() ==> final(self).profile_events@[j] == old(
                    self,
                ).profile_events@[j],
            final(self).backend == old(self).backend,
            final(self).buffers == old(self).buffers,
            final(self).programs == old(self).programs,
            final(self).images == old(self).images,
            final(self).sync_events == old(self).sync_events,
    {
        let waits = copy_event_handles(wait_events);
        proof {
            lemma_live_event_handles_wf(*old(self), wait_events@);
        }
        let sub = Submission::Clear { image: image.handle, color, waits };
        let pe = self.record_submission(queue, sub);
        Ok(pe)
    }

    /// Encodes a copy of `dest.len()` bytes out of `buffer`, starting at
    /// `start_offset`, into host memory `dest`, waiting on every event of
    /// the wait-list first. A range that exceeds the buffer's size fails
    /// with a generic failure and changes nothing.
    pub fn submit_read_buffer(
        &mut self,
        queue: &Queue,
        dest: &mut Vec<u8>,
        buffer: &Buffer,
        start_offset: usize,
        wait_events: &Vec<SyncEvent>,
    ) -> (r: Result<ProfileEvent, Error>)
        requires
            old(self).wf(),
            old(self).queue_live(*queue),
            old(self).buffer_live(*buffer),
            forall|k: int|
                0 <= k < wait_events@.len() ==> old(self).sync_event_live(
                    #[trigger] wait_events@[k],
                ),
        ensures
            final(self).wf(),
            start_offset + old(dest)@.len() > buffer.size ==> r == Err::<ProfileEvent, Error>(
                Error::Failed,
            ) && *final(self) == *old(self) && final(dest)@ == old(dest)@,
            start_offset + old(dest)@.len() <= buffer.size ==> (r matches Ok(pe) && pe.handle
                == old(self).profile_events@.len() && pe.backend == old(self).backend && final(self).profile_event_live(pe)) && final(dest)@ == old(self).buffers@[buffer.handle
                as int].bytes@.subrange(
                start_offset as int,
                start_offset + old(dest)@.len(),
            ) && final(self).queues@[queue.handle as int].timeline@.len() == old(self).queues@[
                queue.handle as int].timeline@.len() + 1 && (forall|i: int|
                0 <= i < old(self).queues@[queue.handle as int].timeline@.len() ==> final(self).queues@[queue.handle as int].timeline@[i] == old(self).queues@[queue.handle
                    as int].timeline@[i]),
            start_offset + old(dest)@.len() <= buffer.size ==> (final(self).queues@[queue.handle
                as int].timeline@.last() matches Submission::ReadBuffer {
                buffer: b,
                start: s,
                len: l,
                waits: w,
            } && b == buffer.handle && s == start_offset && l == old(dest)@.len() && w@
                == event_handles(wait_events@)),
            final(self).queues@[queue.handle as int].completed_upto == old(self).queues@[
                queue.handle as int].completed_upto,
            final(self).queues@[queue.handle as int].alive == old(self).queues@[queue.handle
                as int].alive,
            forall|j: int|
                0 <= j < old(self).queues@.len() && j != queue.handle ==> final(self).queues@[j]
                    == old(self).queues@[j],
            final(self).queues@.len() == old(self).queues@.len(),
            final(self).backend == old(self).backend,
            final(self).buffers == old(self).buffers,
            final(self).programs == old(self).programs,
            final(self).images == old(self).images,
            final(self).sync_events == old(self).sync_events,
    {
        let len = dest.len();
        if start_offset > buffer.size || len > buffer.size - start_offset {
            return Err(Error::Failed);
        }
        let mut out: Vec<u8> = Vec::new();
        let mut j: usize = 0;
        while j < len
            invariant
                j <= len,
                out@.len() == j,
                start_offset + len <= buffer.size,
                start_offset + len <= old(self).buffers@[buffer.handle as int].bytes@.len(),
                (buffer.handle as int) < self.buffers@.len(),
                self == old(self),
                forall|m: int|
                    0 <= m < j ==> out@[m] == old(self).buffers@[buffer.handle as int].bytes@[
                        start_offset + m],
            decreases len - j,
        {
            let byte = self.buffers[buffer.handle].bytes[start_offset + j];
            out.push(byte);
            j += 1;
        }
        proof {
            assert(out@ =~= old(self).buffers@[buffer.handle as int].bytes@.subrange(
                start_offset as int,
                start_offset + len,
            ));
        }
        *dest = out;
        let waits = copy_event_handles(wait_events);
        proof {
            lemma_live_event_handles_wf(*old(self), wait_events@);
        }
        let sub = Submission::ReadBuffer { buffer: buffer.handle, start: start_offset, len, waits };
        let pe = self.record_submission(queue, sub);
        Ok(pe)
    }

    /// Encodes a dispatch of `program` over a `num_groups`-sized
    /// thread-group grid. Each `(index, uniform)` pair binds at its argument
    /// index, which must be unique within the dispatch: buffers and images
    /// bind their handles; a 32-bit scalar materializes as a fresh four-byte
    /// buffer holding its native-order bytes, a 4x32-bit vector as sixteen.
    /// The dispatch waits on every event of the wait-list before it begins.
    pub fn submit_compute(
        &mut self,
        queue: &Queue,
        program: &Program,
        num_groups: &Vec<u32>,
        uniforms: &Vec<(u32, Uniform)>,
        wait_events: &Vec<SyncEvent>,
    ) -> (r: Result<ProfileEvent, Error>)
        requires
            old(self).wf(),
            old(self).queue_live(*queue),
            old(self).program_live(*program),
            forall|j: int|
                0 <= j < uniforms@.len() ==> old(self).uniform_live((#[trigger] uniforms@[j]).1),
            forall|j: int, k: int|
                0 <= j < uniforms@.len() && 0 <= k < uniforms@.len() && j != k ==> (
                #[trigger] uniforms@[j]).0 != (#[trigger] uniforms@[k]).0,
            forall|k: int|
                0 <= k < wait_events@.len() ==> old(self).sync_event_live(
                    #[trigger] wait_events@[k],
                ),
        ensures
            final(self).wf(),
            r matches Ok(pe) && pe.handle == old(self).profile_events@.len() && pe.backend == old(
                self,
            ).backend && final(self).profile_event_live(pe),
            final(self).queues@[queue.handle as int].timeline@.len() == old(self).queues@[
                queue.handle as int].timeline@.len() + 1,
            forall|i: int|
                0 <= i < old(self).queues@[queue.handle as int].timeline@.len() ==> final(self).queues@[queue.handle as int].timeline@[i] == old(self).queues@[queue.handle
                    as int].timeline@[i],
            final(self).queues@[queue.handle as int].timeline@.last() matches Submission::Compute {
                program: pr,
                num_groups: ng,
                bindings: bs,
                waits: w,
            } && pr == program.handle && ng@ == num_groups@ && w@ == event_handles(wait_events@)
                && bs@.len() == uniforms@.len() && (forall|j: int|
                0 <= j < uniforms@.len() ==> binding_matches(
                    bs@[j],
                    (#[trigger] uniforms@[j]).0,
                    uniforms@[j].1,
                )),
            final(self).queues@[queue.handle as int].completed_upto == old(self).queues@[
                queue.handle as int].completed_upto,
            final(self).queues@[queue.handle as int].alive == old(self).queues@[queue.handle
                as int].alive,
            forall|j: int|
                0 <= j < old(self).queues@.len() && j != queue.handle ==> final(self).queues@[j]
                    == old(self).queues@[j],
            final(self).queues@.len() == old(self).queues@.len(),
            final(self).profile_events@.len() == old(self).profile_events@.len() + 1,
            final(self).profile_events@[old(self).profile_events@.len() as int]
                == (ProfileEventRecord {
                alive: true,
                queue: queue.handle,
                tick: old(self).queues@[queue.handle as int].timeline@.len() as usize,
            }),
            forall|j: int|
                0 <= j < old(self).profile_events@.len() ==> final(self).profile_events@[j] == old(
                    self,
                ).profile_events@[j],
            final(self).backend == old(self).backend,
            final(self).buffers == old(self).buffers,
            final(self).programs == old(self).programs,
            final(self).images == old(self).images,
            final(self).sync_events == old(self).sync_events,
    {
        let mut bindings: Vec<Binding> = Vec::new();
        let mut j: usize = 0;
        while j < uniforms.len()
            invariant
                j <= uniforms@.len(),
                bindings@.len() == j,
                forall|k: int|
                    0 <= k < j ==> binding_matches(
                        #[trigger] bindings@[k],
                        uniforms@[k].0,
                        uniforms@[k].1,
                    ),
            decreases uniforms@.len() - j,
        {
            let (index, u) = uniforms[j];
            let b = match u {
                Uniform::Buffer(buf) => Binding::Buffer { index, handle: buf.handle },
                Uniform::Image(img) => Binding::Image { index, handle: img.handle },
                Uniform::U32(v) => Binding::Bytes { index, bytes: scalar_u32_bytes(v) },
                Uniform::UVec4(x, y, z, w) => Binding::Bytes {
                    index,
                    bytes: vector_u32x4_bytes(x, y, z, w),
                },
            };
            bindings.push(b);
            j += 1;
        }
        let groups = copy_u32s(num_groups);
        let waits = copy_event_handles(wait_events);
        proof {
            lemma_live_event_handles_wf(*old(self), wait_events@);
        }
        let sub = Submission::Compute {
            program: program.handle,
            num_groups: groups,
            bindings,
            waits,
        };
        let pe = self.record_submission(queue, sub);
        Ok(pe)
    }

    /// Compiles a source and dispatches the program once over the given
    /// grid, with no arguments and no waits. Its contract is the creation
    /// law in one place: a source with valid syntax and exactly one kernel
    /// entry point always yields a program, and that program can be
    /// submitted at least once without error.
    pub fn create_and_dispatch_once(
        &mut self,
        queue: &Queue,
        source: &str,
        num_groups: &Vec<u32>,
    ) -> (r: Result<ProfileEvent, Error>)
        requires
            old(self).wf(),
            old(self).queue_live(*queue),
            source_accepted(source@),
        ensures
            final(self).wf(),
            r is Ok,
    {
        let program = match self.create_program(source) {
            Ok(program) => program,
            Err(failure) => {
                proof {
                    assert(false);
                }
                return Err(failure);
            },
        };
        let uniforms: Vec<(u32, Uniform)> = Vec::new();
        let waits: Vec<SyncEvent> = Vec::new();
        self.submit_compute(queue, &program, num_groups, &uniforms, &waits)
    }

    /// Requests that all committed-but-not-yet-dispatched work begin; never
    /// blocks. The reference backend treats committed work as already
    /// dispatched, so this changes nothing and always succeeds.
    pub fn flush(&self, queue: &Queue) -> (r: Result<(), Error>)
        requires
            self.wf(),
            self.queue_live(*queue),
        ensures
            r == Ok::<(), Error>(()),
    {
        Ok(())
    }

    /// Whether every event the submission at `queues[q].timeline[i]` waits
    /// on is satisfied.
    fn submission_ready(&self, q: usize, i: usize) -> (b: bool)
        requires
            self.wf(),
            (q as int) < self.queues@.len(),
            (i as int) < self.queues@[q as int].timeline@.len(),
        ensures
            b == waits_satisfied(
                waits_of(self.queues@[q as int].timeline@[i as int]),
                self.sync_events@,
                self.queues@,
            ),
    {
        let sub = &self.queues[q].timeline[i];
        let waits: &Vec<usize> = match sub {
            Submission::Compute { waits, .. } => waits,
            Submission::Clear { waits, .. } => waits,
            Submission::ReadBuffer { waits, .. } => waits,
            Submission::SyncPoint => {
                return true;
            },
        };
        let ghost sub_waits = waits_of(self.queues@[q as int].timeline@[i as int]);
        assert(waits@ == sub_waits);
        let mut k: usize = 0;
        while k < waits.len()
            invariant
                k <= waits@.len(),
                waits@ == sub_waits,
                self.wf(),
                (q as int) < self.queues@.len(),
                (i as int) < self.queues@[q as int].timeline@.len(),
                sub_waits == waits_of(self.queues@[q as int].timeline@[i as int]),
                forall|m: int|
                    0 <= m < k ==> event_satisfied_in(
                        self.sync_events@,
                        self.queues@,
                        #[trigger] waits@[m],
                    ),
            decreases waits@.len() - k,
        {
            proof {
                assert(waits_wf(sub_waits, self.sync_events@.len() as int));
                assert(sub_waits[k as int] < self.sync_events@.len());
            }
            let w = waits[k];
            let ev = self.sync_events[w];
            proof {
                assert((ev.queue as int) < self.queues@.len());
            }
            if !(ev.tick < self.queues[ev.queue].completed_upto) {
                return false;
            }
            k += 1;
        }
        true
    }

    /// Blocks the caller until all work previously submitted to this queue
    /// has completed: a full barrier. The reference backend completes the
    /// timeline in submission order, each submission only once its whole
    /// wait-list is satisfied; if it reaches a submission whose wait-list
    /// cannot be satisfied without another queue making progress, it stops
    /// there and reports a generic failure rather than blocking forever.
    pub fn finish(&mut self, queue: &Queue) -> (r: Result<(), Error>)
        requires
            old(self).wf(),
            old(self).queue_live(*queue),
        ensures
            final(self).wf(),
            final(self).backend == old(self).backend,
            final(self).buffers == old(self).buffers,
            final(self).programs == old(self).programs,
            final(self).images == old(self).images,
            final(self).sync_events == old(self).sync_events,
            final(self).profile_events == old(self).profile_events,
            final(self).queues@.len() == old(self).queues@.len(),
            forall|j: int|
                0 <= j < old(self).queues@.len() && j != queue.handle ==> final(self).queues@[j]
                    == old(self).queues@[j],
            final(self).queues@[queue.handle as int].alive == old(self).queues@[queue.handle
                as int].alive,
            final(self).queues@[queue.handle as int].timeline == old(self).queues@[queue.handle
                as int].timeline,
            old(self).queues@[queue.handle as int].completed_upto <= final(self).queues@[
                queue.handle as int].completed_upto <= old(self).queues@[queue.handle
                as int].timeline@.len(),
            (r == Ok::<(), Error>(())) <==> final(self).queues@[queue.handle as int].completed_upto
                == old(self).queues@[queue.handle as int].timeline@.len(),
            r is Err ==> r == Err::<(), Error>(Error::Failed),
            final(self).queues@[queue.handle as int].completed_upto < old(self).queues@[
                queue.handle as int].timeline@.len() ==> !waits_satisfied(
                waits_of(
                    old(self).queues@[queue.handle as int].timeline@[final(self).queues@[
                        queue.handle as int].completed_upto as int],
                ),
                final(self).sync_events@,
                final(self).queues@,
            ),
    {
        let qh = queue.handle;
        let n = self.queues[qh].timeline.len();
        let mut i = self.queues[qh].completed_upto;
        while i < n
            invariant
                self.wf(),
                (qh as int) < self.queues@.len(),
                qh == queue.handle,
                n == self.queues@[qh as int].timeline@.len(),
                i == self.queues@[qh as int].completed_upto,
                old(self).queues@[qh as int].completed_upto <= i <= n,
                self.backend == old(self).backend,
                self.buffers == old(self).buffers,
                self.programs == old(self).programs,
                self.images == old(self).images,
                self.sync_events == old(self).sync_events,
                self.profile_events == old(self).profile_events,
                self.queues@.len() == old(self).queues@.len(),
                forall|j: int|
                    0 <= j < old(self).queues@.len() && j != qh ==> self.queues@[j] == old(
                        self,
                    ).queues@[j],
                self.queues@[qh as int].alive == old(self).queues@[qh as int].alive,
                self.queues@[qh as int].timeline == old(self).queues@[qh as int].timeline,
            decreases n - i,
        {
            if !self.submission_ready(qh, i) {
                return Err(Error::Failed);
            }
            let ghost pre = *self;
            i += 1;
            self.queues[qh].completed_upto = i;
            proof {
                lemma_wf_complete_one(
                    pre.queues@,
                    pre.sync_events@,
                    pre.profile_events@,
                    self.queues@,
                    qh as int,
                );
            }
        }
        Ok(())
    }

    /// Whether the submission this token was returned for has completed.
    pub fn event_completed(&self, event: &ProfileEvent) -> (b: bool)
        requires
            self.wf(),
            self.profile_event_live(*event),
        ensures
            b == (self.profile_events@[event.handle as int].tick < self.queues@[self.profile_events@[
                event.handle as int].queue as int].completed_upto),
    {
        let rec = self.profile_events[event.handle];
        rec.tick < self.queues[rec.queue].completed_upto
    }

    /// Whether a sync event's queue has completed past the sync point that
    /// produced the event.
    pub fn sync_event_satisfied(&self, event: &SyncEvent) -> (b: bool)
        requires
            self.wf(),
            self.sync_event_live(*event),
        ensures
            b == event_satisfied_in(self.sync_events@, self.queues@, event.handle),
    {
        let rec = self.sync_events[event.handle];
        rec.tick < self.queues[rec.queue].completed_upto
    }
}

/// The handles of a sequence of sync event tokens.
pub open spec fn event_handles(es: Seq<SyncEvent>) -> Seq<usize> {
    es.map_values(|e: SyncEvent| e.handle)
}

/// Copies the handles out of a wait-list.
fn copy_event_handles(events: &Vec<SyncEvent>) -> (r: Vec<usize>)
    ensures
        r@ == event_handles(events@),
{
    let mut r: Vec<usize> = Vec::new();
    let mut i: usize = 0;
    while i < events.len()
        invariant
            i <= events@.len(),
            r@.len() == i,
            forall|m: int| 0 <= m < i ==> r@[m] == events@[m].handle,
        decreases events@.len() - i,
    {
        let e = events[i];
        r.push(e.handle);
        i += 1;
    }
    proof {
        assert(r@ =~= event_handles(events@));
    }
    r
}

/// Copies a thread-group grid.
fn copy_u32s(v: &Vec<u32>) -> (r: Vec<u32>)
    ensures
        r@ == v@,
{
    let mut r: Vec<u32> = Vec::new();
    let mut i: usize = 0;
    while i < v.len()
        invariant
            i <= v@.len(),
            r@.len() == i,
            forall|m: int| 0 <= m < i ==> r@[m] == v@[m],
        decreases v@.len() - i,
    {
        let x = v[i];
        r.push(x);
        i += 1;
    }
    proof {
        assert(r@ =~= v@);
    }
    r
}

/// A wait-list of live events names only real events.
proof fn lemma_live_event_handles_wf(d: Device, es: Seq<SyncEvent>)
    requires
        forall|k: int| 0 <= k < es.len() ==> d.sync_event_live(#[trigger] es[k]),
    ensures
        waits_wf(event_handles(es), d.sync_events@.len() as int),
{
    let hs = event_handles(es);
    assert forall|k: int| 0 <= k < hs.len() implies (#[trigger] hs[k])
        < d.sync_events@.len() by {
        assert(d.sync_event_live(es[k]));
    }
}

/// Satisfaction of a wait-list never shrinks as queues complete more work.
proof fn lemma_waits_satisfied_monotone(
    waits: Seq<usize>,
    events: Seq<SyncEventRecord>,
    q1: Seq<QueueRecord>,
    q2: Seq<QueueRecord>,
)
    requires
        q1.len() <= q2.len(),
        forall|p: int|
            0 <= p < q1.len() ==> (#[trigger] q2[p]).completed_upto >= q1[p].completed_upto,
        waits_satisfied(waits, events, q1),
    ensures
        waits_satisfied(waits, events, q2),
{
    assert forall|k: int| 0 <= k < waits.len() implies event_satisfied_in(
        events,
        q2,
        #[trigger] waits[k],
    ) by {
        assert(event_satisfied_in(events, q1, waits[k]));
    }
}

/// Completing the next submission of one queue preserves well-formedness,
/// provided its whole wait-list is satisfied at that moment.
proof fn lemma_wf_complete_one(
    q1: Seq<QueueRecord>,
    events: Seq<SyncEventRecord>,
    profiles: Seq<ProfileEventRecord>,
    q2: Seq<QueueRecord>,
    qi: int,
)
    requires
        queues_wf(q1),
        events_wf(events, q1),
        profiles_wf(profiles, q1),
        timelines_wf(q1, events.len() as int),
        completion_gated(q1, events),
        0 <= qi < q1.len(),
        q2.len() == q1.len(),
        forall|p: int| 0 <= p < q1.len() && p != qi ==> #[trigger] q2[p] == q1[p],
        q2[qi].timeline == q1[qi].timeline,
        (q2[qi].completed_upto as int) == q1[qi].completed_upto + 1,
        (q1[qi].completed_upto as int) < q1[qi].timeline@.len(),
        waits_satisfied(
            waits_of(q1[qi].timeline@[q1[qi].completed_upto as int]),
            events,
            q1,
        ),
    ensures
        queues_wf(q2),
        events_wf(events, q2),
        profiles_wf(profiles, q2),
        timelines_wf(q2, events.len() as int),
        completion_gated(q2, events),
{
    assert forall|p: int|
        0 <= p < q1.len() implies (#[trigger] q2[p]).completed_upto >= q1[p].completed_upto by {}
    assert forall|q: int| 0 <= q < q2.len() implies (#[trigger] q2[q]).completed_upto
        <= q2[q].timeline@.len() by {
        assert(q1[q].completed_upto <= q1[q].timeline@.len());
    }
    assert forall|e: int| 0 <= e < events.len() implies ((#[trigger] events[e]).queue as int)
        < q2.len() && (events[e].tick as int) < q2[events[e].queue as int].timeline@.len() by {
        assert((events[e].queue as int) < q1.len());
        assert((events[e].tick as int) < q1[events[e].queue as int].timeline@.len());
    }
    assert forall|e: int| 0 <= e < profiles.len() implies ((#[trigger] profiles[e]).queue as int)
        < q2.len() && (profiles[e].tick as int) < q2[profiles[e].queue as int].timeline@.len() by {
        assert((profiles[e].queue as int) < q1.len());
        assert((profiles[e].tick as int) < q1[profiles[e].queue as int].timeline@.len());
    }
    assert forall|q: int, i: int|
        0 <= q < q2.len() && 0 <= i < q2[q].timeline@.len() implies waits_wf(
        waits_of(#[trigger] q2[q].timeline@[i]),
        events.len() as int,
    ) by {
        assert(q2[q].timeline@[i] == q1[q].timeline@[i]);
        assert(waits_wf(waits_of(q1[q].timeline@[i]), events.len() as int));
    }
    assert forall|q: int, i: int|
        0 <= q < q2.len() && 0 <= i < q2[q].completed_upto implies waits_satisfied(
        waits_of(#[trigger] q2[q].timeline@[i]),
        events,
        q2,
    ) by {
        assert(q2[q].timeline@[i] == q1[q].timeline@[i]);
        if q == qi && i == q1[qi].completed_upto {
            lemma_waits_satisfied_monotone(
                waits_of(q1[qi].timeline@[i]),
                events,
                q1,
                q2,
            );
        } else {
            assert(i < q1[q].completed_upto);
            assert(waits_satisfied(waits_of(q1[q].timeline@[i]), events, q1));
            lemma_waits_satisfied_monotone(waits_of(q1[q].timeline@[i]), events, q1, q2);
        }
    }
}

/// Law: a buffer created from host bytes reads back exactly those bytes over
/// its full range. `create_buffer` records the host bytes as the buffer's
/// content, and `submit_read_buffer` hands back
/// `bytes.subrange(start_offset, start_offset + len)`; over the full range
/// that is the recorded content itself.
pub proof fn lemma_full_read_returns_host_bytes(bytes: Seq<u8>)
    ensures
        bytes.subrange(0, bytes.len() as int) == bytes,
{
    assert(bytes.subrange(0, bytes.len() as int) =~= bytes);
}

/// Law: the wait-list gates completion. In any well-formed device state, a
/// submission counted complete has every event of its wait-list satisfied,
/// and the queue that produced each such event has itself completed past the
/// sync point that produced it: no dispatch is counted as having begun before
/// the events it waits on were passed, on whichever queue produced them.
pub proof fn lemma_completed_submission_waited(d: Device, q: int, i: int, k: int)
    requires
        d.wf(),
        0 <= q < d.queues@.len(),
        0 <= i < d.queues@[q].completed_upto,
        0 <= k < waits_of(d.queues@[q].timeline@[i]).len(),
    ensures
        event_satisfied_in(
            d.sync_events@,
            d.queues@,
            waits_of(d.queues@[q].timeline@[i])[k],
        ),
        ({
            let w = waits_of(d.queues@[q].timeline@[i])[k];
            d.sync_events@[w as int].tick < d.queues@[d.sync_events@[w as int].queue
                as int].completed_upto
        }),
{
    assert(i < d.queues@[q].timeline@.len());
    assert(waits_satisfied(waits_of(d.queues@[q].timeline@[i]), d.sync_events@, d.queues@));
    assert(event_satisfied_in(
        d.sync_events@,
        d.queues@,
        waits_of(d.queues@[q].timeline@[i])[k],
    ));
}

/// Law: a destroyed handle is dead. Each destroy operation requires a live
/// handle and returns nothing, so one destroy per created handle always
/// succeeds; it leaves the handle dead, so a second destroy of the same
/// handle violates that second call's precondition.
pub proof fn lemma_dead_buffer_not_live(d: Device, b: Buffer)
    requires
        (b.handle as int) < d.buffers@.len(),
        !d.buffers@[b.handle as int].alive,
    ensures
        !d.buffer_live(b),
{
}

/// The diagnostic the reference compiler reports for invalid syntax.
pub open spec fn syntax_diagnostic() -> Seq<char> {
    "unbalanced braces in kernel source"@
}

/// Uninitialized device memory of length `n`: the model gives it unspecified
/// (here, zeroed) content, and contracts promise only its length.
fn alloc_bytes(n: usize) -> (r: Vec<u8>)
    ensures
        r@.len() == n,
{
    let mut r: Vec<u8> = Vec::new();
    let mut i: usize = 0;
    while i < n
        invariant
            i <= n,
            r@.len() == i,
        decreases n - i,
    {
        r.push(0);
        i += 1;
    }
    r
}

/// The well-formedness clauses read only each queue's schedule (its timeline
/// and completion point) and each token's target. They therefore survive any
/// change that extends timelines past the completion point, adds queues with
/// nothing completed, adds events and tokens that point at real positions,
/// or flips alive flags.
pub proof fn lemma_wf_extend(
    q1: Seq<QueueRecord>,
    e1: Seq<SyncEventRecord>,
    p1: Seq<ProfileEventRecord>,
    q2: Seq<QueueRecord>,
    e2: Seq<SyncEventRecord>,
    p2: Seq<ProfileEventRecord>,
)
    requires
        queues_wf(q1),
        events_wf(e1, q1),
        profiles_wf(p1, q1),
        timelines_wf(q1, e1.len() as int),
        completion_gated(q1, e1),
        q1.len() <= q2.len(),
        forall|p: int|
            0 <= p < q1.len() ==> (#[trigger] q2[p]).completed_upto == q1[p].completed_upto,
        forall|p: int|
            0 <= p < q1.len() ==> q1[p].timeline@.len() <= (#[trigger] q2[p]).timeline@.len(),
        forall|p: int, i: int|
            0 <= p < q1.len() && 0 <= i < q1[p].timeline@.len() ==> (#[trigger] q2[p].timeline@[i])
                == q1[p].timeline@[i],
        forall|p: int| q1.len() <= p < q2.len() ==> (#[trigger] q2[p]).completed_upto == 0,
        forall|p: int, i: int|
            0 <= p < q2.len() && 0 <= i < q2[p].timeline@.len() && !(p < q1.len() && i
                < q1[p].timeline@.len()) ==> waits_wf(
                waits_of(#[trigger] q2[p].timeline@[i]),
                e2.len() as int,
            ),
        e1.len() <= e2.len(),
        forall|e: int|
            0 <= e < e1.len() ==> (#[trigger] e2[e]).queue == e1[e].queue && e2[e].tick
                == e1[e].tick,
        forall|e: int|
            e1.len() <= e < e2.len() ==> ((#[trigger] e2[e]).queue as int) < q2.len() && (
            e2[e].tick as int) < q2[e2[e].queue as int].timeline@.len(),
        p1.len() <= p2.len(),
        forall|e: int|
            0 <= e < p1.len() ==> (#[trigger] p2[e]).queue == p1[e].queue && p2[e].tick
                == p1[e].tick,
        forall|e: int|
            p1.len() <= e < p2.len() ==> ((#[trigger] p2[e]).queue as int) < q2.len() && (
            p2[e].tick as int) < q2[p2[e].queue as int].timeline@.len(),
    ensures
        queues_wf(q2),
        events_wf(e2, q2),
        profiles_wf(p2, q2),
        timelines_wf(q2, e2.len() as int),
        completion_gated(q2, e2),
{
    assert forall|q: int| 0 <= q < q2.len() implies (#[trigger] q2[q]).completed_upto
        <= q2[q].timeline@.len() by {
        if q < q1.len() {
            assert(q1[q].completed_upto <= q1[q].timeline@.len());
        }
    }
    assert forall|e: int| 0 <= e < e2.len() implies ((#[trigger] e2[e]).queue as int) < q2.len()
        && (e2[e].tick as int) < q2[e2[e].queue as int].timeline@.len() by {
        if e < e1.len() {
            assert(events_wf(e1, q1));
            assert((e1[e].queue as int) < q1.len());
        }
    }
    assert forall|e: int| 0 <= e < p2.len() implies ((#[trigger] p2[e]).queue as int) < q2.len()
        && (p2[e].tick as int) < q2[p2[e].queue as int].timeline@.len() by {
        if e < p1.len() {
            assert(profiles_wf(p1, q1));
            assert((p1[e].queue as int) < q1.len());
        }
    }
    assert forall|q: int, i: int|
        0 <= q < q2.len() && 0 <= i < q2[q].timeline@.len() implies waits_wf(
        waits_of(#[trigger] q2[q].timeline@[i]),
        e2.len() as int,
    ) by {
        if q < q1.len() && i < q1[q].timeline@.len() {
            assert(q2[q].timeline@[i] == q1[q].timeline@[i]);
            assert(waits_wf(waits_of(q1[q].timeline@[i]), e1.len() as int));
            let w = waits_of(q1[q].timeline@[i]);
            assert forall|k: int| 0 <= k < w.len() implies (#[trigger] w[k]) < e2.len() by {
                assert(w[k] < e1.len());
            }
        }
    }
    assert forall|q: int, i: int|
        0 <= q < q2.len() && 0 <= i < q2[q].completed_upto implies waits_satisfied(
        waits_of(#[trigger] q2[q].timeline@[i]),
        e2,
        q2,
    ) by {
        assert(q < q1.len());
        assert(q2[q].completed_upto == q1[q].completed_upto);
        assert(i < q1[q].completed_upto <= q1[q].timeline@.len());
        assert(q2[q].timeline@[i] == q1[q].timeline@[i]);
        let w = waits_of(q1[q].timeline@[i]);
        assert(waits_satisfied(w, e1, q1));
        assert forall|k: int| 0 <= k < w.len() implies event_satisfied_in(
            e2,
            q2,
            #[trigger] w[k],
        ) by {
            assert(event_satisfied_in(e1, q1, w[k]));
            let ev = w[k];
            assert(e2[ev as int].queue == e1[ev as int].queue);
            assert(e2[ev as int].tick == e1[ev as int].tick);
            assert(q2[e1[ev as int].queue as int].completed_upto == q1[e1[ev as int].queue
                as int].completed_upto);
        }
    }
}

} // verus!

