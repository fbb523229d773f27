//! The server: its configuration, the work that its workers do, and the
//! plan of a batch.
//!
//! A server holds the registry of its methods and the size of its worker
//! pool. The threads and the transport that drive it live outside; what a
//! worker does with a job is here, and so is the plan by which the requests
//! of a batch get their slots.

use vstd::prelude::*;
use crate::batch::{BatchContext, slot_view};
use crate::error::Error as Failure;
use crate::message::{Message, MessageView, lemma_batch_model, models};
use crate::methods::{HandlerFn, Methods};
use crate::shutdown::ShutdownSignal;
use crate::types::{Notification, NotificationView, Request, RequestView, Response, ResponseView};

verus! {

/// A request that a worker is to answer, with the slot of its batch where it
/// belongs to one.
pub struct Job {
    pub request: Request,
    pub batch_id: Option<usize>,
    pub batch_index: Option<usize>,
}

/// The model of a [`Job`].
pub struct JobView {
    pub request: RequestView,
    pub batch_id: Option<usize>,
    pub batch_index: Option<usize>,
}

impl View for Job {
    type V = JobView;

    open spec fn view(&self) -> JobView {
        JobView { request: self.request@, batch_id: self.batch_id, batch_index: self.batch_index }
    }
}

/// A response on its way from a worker to the coordinator, with the slot of
/// its batch where it belongs to one.
pub struct ResponseData {
    pub response: Response,
    pub batch_id: Option<usize>,
    pub batch_index: Option<usize>,
}

/// What a batch asks for: its slots, the jobs for its requests and its
/// notifications.
pub struct BatchPlan {
    pub context: BatchContext,
    pub jobs: Vec<Job>,
    pub notifications: Vec<Notification>,
}

/// The models of a sequence of jobs.
pub open spec fn job_models(jobs: Seq<Job>) -> Seq<JobView> {
    Seq::new(jobs.len(), |i: int| jobs[i]@)
}

/// The models of a sequence of notifications.
pub open spec fn notification_models(notifications: Seq<Notification>) -> Seq<NotificationView> {
    Seq::new(notifications.len(), |i: int| notifications[i]@)
}

/// The slots of a batch as it is accepted, in the order of the batch: an
/// empty slot for each request, a filled one for each response that the
/// batch already holds. Notifications get no slot.
pub open spec fn planned_slots(messages: Seq<MessageView>) -> Seq<Option<ResponseView>>
    decreases messages.len(),
{
    if messages.len() == 0 {
        Seq::empty()
    } else {
        let before = planned_slots(messages.drop_last());
        match messages.last() {
            MessageView::Request(_) => before.push(None),
            MessageView::Response(r) => before.push(Some(r)),
            _ => before,
        }
    }
}

/// The jobs of a batch, in the order of the batch: one for each request,
/// tagged with the batch and with the slot of the request.
pub open spec fn planned_jobs(messages: Seq<MessageView>, batch_id: usize) -> Seq<JobView>
    decreases messages.len(),
{
    if messages.len() == 0 {
        Seq::empty()
    } else {
        let before = planned_jobs(messages.drop_last(), batch_id);
        match messages.last() {
            MessageView::Request(q) => before.push(
                JobView {
                    request: q,
                    batch_id: Some(batch_id),
                    batch_index: Some(planned_slots(messages.drop_last()).len() as usize),
                },
            ),
            _ => before,
        }
    }
}

/// The notifications of a batch, in the order of the batch.
pub open spec fn planned_notifications(messages: Seq<MessageView>) -> Seq<NotificationView>
    decreases messages.len(),
{
    if messages.len() == 0 {
        Seq::empty()
    } else {
        let before = planned_notifications(messages.drop_last());
        match messages.last() {
            MessageView::Notification(n) => before.push(n),
            _ => before,
        }
    }
}

/// The number of logical CPUs, from `num_cpus::get`.
///
/// Trusted: the count depends on the machine; `num_cpus` documents that it
/// is at least 1.
#[verifier::external_body]
fn cpu_count() -> (out: usize)
    ensures
        out >= 1,
{
    num_cpus::get()
}

/// A JSON-RPC server: the registry of its methods and the size of its
/// worker pool.
pub struct Server<H> {
    methods: Methods<H>,
    thread_pool_size: usize,
    shutdown_signal: Option<ShutdownSignal>,
}

impl<H: HandlerFn> Server<H> {
    /// The registry of the server.
    pub closed spec fn methods(&self) -> Methods<H> {
        self.methods
    }

    /// The number of workers.
    pub closed spec fn pool_size(&self) -> usize {
        self.thread_pool_size
    }

    /// Whether a shutdown signal was set.
    pub closed spec fn has_shutdown_signal(&self) -> bool {
        self.shutdown_signal.is_some()
    }

    /// A server without methods. The pool has one worker for each CPU.
    pub fn new() -> (out: Self)
        ensures
            out.pool_size() >= 1,
            !out.has_shutdown_signal(),
            out.methods().entries() == Seq::<(Seq<char>, H)>::empty(),
    {
        Server { methods: Methods::new(), thread_pool_size: cpu_count(), shutdown_signal: None }
    }

    /// Sets the number of workers, which must be positive.
    pub fn with_thread_pool_size(self, size: usize) -> (out: Self)
        requires
            size > 0,
        ensures
            out.pool_size() == size,
            out.methods() == self.methods(),
            out.has_shutdown_signal() == self.has_shutdown_signal(),
    {
        Server {
            methods: self.methods,
            thread_pool_size: size,
            shutdown_signal: self.shutdown_signal,
        }
    }

    /// Sets the signal by which the server is asked to shut down.
    pub fn with_shutdown_signal(self, signal: ShutdownSignal) -> (out: Self)
        ensures
            out.has_shutdown_signal(),
            out.pool_size() == self.pool_size(),
            out.methods() == self.methods(),
    {
        Server {
            methods: self.methods,
            thread_pool_size: self.thread_pool_size,
            shutdown_signal: Some(signal),
        }
    }

    /// Registers `handler` under the name `method`. A later registration
    /// under the same name takes the place of an earlier one.
    pub fn register(&mut self, method: &str, handler: H) -> (out: Result<(), Failure>)
        ensures
            out is Ok,
            final(self).methods().entries() == old(self).methods().entries().push(
                (method@, handler),
            ),
            final(self).methods().handler_for(method@) == Some(handler),
            final(self).pool_size() == old(self).pool_size(),
            final(self).has_shutdown_signal() == old(self).has_shutdown_signal(),
    {
        let mut methods = Methods::new();
        std::mem::swap(&mut self.methods, &mut methods);
        self.methods = methods.add(method, handler);
        Ok(())
    }

    /// The number of workers.
    pub fn thread_pool_size(&self) -> (out: usize)
        ensures
            out == self.pool_size(),
    {
        self.thread_pool_size
    }

    /// The registry, for the workers to look methods up in.
    pub fn registry(&self) -> (out: &Methods<H>)
        ensures
            *out == self.methods(),
    {
        &self.methods
    }

    /// The shutdown signal, if one was set.
    pub fn shutdown_signal(&self) -> (out: Option<&ShutdownSignal>)
        ensures
            out.is_some() == self.has_shutdown_signal(),
    {
        self.shutdown_signal.as_ref()
    }

    /// Answers a request that belongs to no batch.
    pub fn process_request(&self, request: &Request) -> (out: ResponseData)
        ensures
            self.methods().answers(request@, out.response@),
            out.batch_id is None,
            out.batch_index is None,
    {
        ResponseData { response: self.methods.dispatch(request), batch_id: None, batch_index: None }
    }

    /// Answers the request of a job. The response carries the tags of the
    /// job, by which the coordinator finds its slot.
    pub fn process_request_with_batch(&self, job: &Job) -> (out: ResponseData)
        ensures
            self.methods().answers(job@.request, out.response@),
            out.batch_id == job.batch_id,
            out.batch_index == job.batch_index,
    {
        ResponseData {
            response: self.methods.dispatch(&job.request),
            batch_id: job.batch_id,
            batch_index: job.batch_index,
        }
    }

    /// Runs the handler of a notification, if there is one, and drops what
    /// it returns.
    pub fn process_notification(&self, notification: &Notification) -> (out: Result<(), Failure>)
        ensures
            out is Ok,
    {
        self.methods.notify(notification);
        Ok(())
    }
}

/// Plans a batch: gives each request and each response of the batch its
/// slot, in the order of the batch, and fills the slots of the responses.
pub fn process_batch(batch_id: usize, messages: &Vec<Message>) -> (out: BatchPlan)
    ensures
        out.context.wf(),
        out.context.expected() == planned_slots(models(messages@)).len(),
        out.context.slots() == planned_slots(models(messages@)),
        job_models(out.jobs@) == planned_jobs(models(messages@), batch_id),
        notification_models(out.notifications@) == planned_notifications(models(messages@)),
{
    let mut slots: Vec<Option<Response>> = Vec::new();
    let mut jobs: Vec<Job> = Vec::new();
    let mut notifications: Vec<Notification> = Vec::new();
    let mut i: usize = 0;
    proof {
        assert(models(messages@).take(0) =~= Seq::empty());
        assert(slot_models(slots@) =~= Seq::empty());
        assert(job_models(jobs@) =~= Seq::empty());
        assert(notification_models(notifications@) =~= Seq::empty());
    }
    while i < messages.len()
        invariant
            i <= messages.len(),
            slots.len() <= i,
            slot_models(slots@) == planned_slots(models(messages@).take(i as int)),
            job_models(jobs@) == planned_jobs(models(messages@).take(i as int), batch_id),
            notification_models(notifications@) == planned_notifications(
                models(messages@).take(i as int),
            ),
        decreases messages.len() - i,
    {
        let ghost next = models(messages@).take(i as int + 1);
        let ghost old_slots = slot_models(slots@);
        let ghost old_jobs = job_models(jobs@);
        let ghost old_notifications = notification_models(notifications@);
        proof {
            assert(next.drop_last() =~= models(messages@).take(i as int));
            assert(next.last() == messages[i as int]@);
        }
        match &messages[i] {
            Message::Request(request) => {
                let index = slots.len();
                jobs.push(
                    Job {
                        request: request.duplicate(),
                        batch_id: Some(batch_id),
                        batch_index: Some(index),
                    },
                );
                slots.push(None);
                proof {
                    assert(slot_models(slots@) =~= old_slots.push(None));
                    assert(job_models(jobs@) =~= old_jobs.push(jobs@.last()@));
                }
            },
            Message::Response(response) => {
                slots.push(Some(response.duplicate()));
                proof {
                    assert(slot_models(slots@) =~= old_slots.push(Some(response@)));
                }
            },
            Message::Notification(notification) => {
                notifications.push(notification.duplicate());
                proof {
                    assert(notification_models(notifications@) =~= old_notifications.push(
                        notification@,
                    ));
                }
            },
            Message::Batch(inner) => {
                proof {
                    lemma_batch_model(*inner);
                }
            },
        }
        i += 1;
    }
    proof {
        assert(models(messages@).take(i as int) =~= models(messages@));
    }
    BatchPlan { context: BatchContext::with_slots(slots), jobs, notifications }
}

/// The models of a sequence of slots.
pub open spec fn slot_models(slots: Seq<Option<Response>>) -> Seq<Option<ResponseView>> {
    Seq::new(slots.len(), |i: int| slot_view(slots[i]))
}

/// A batch has at most one slot for each of its messages.
pub proof fn lemma_planned_slots_len(messages: Seq<MessageView>)
    ensures
        planned_slots(messages).len() <= messages.len(),
    decreases messages.len(),
{
    if messages.len() > 0 {
        lemma_planned_slots_len(messages.drop_last());
    }
}

/// Whether `answer` fits the plan of the batch `messages`: it has one
/// response for each slot, the response of each job answers the request of
/// the job, and each slot that the plan fills holds its response.
pub open spec fn fits_plan<H: HandlerFn>(
    methods: Methods<H>,
    messages: Seq<MessageView>,
    batch_id: usize,
    answer: Seq<ResponseView>,
) -> bool {
    &&& answer.len() == planned_slots(messages).len()
    &&& forall|k: int|
        0 <= k < answer.len() && (#[trigger] planned_slots(messages)[k]).is_some()
            ==> planned_slots(messages)[k] == Some(answer[k])
    &&& forall|j: int|
        0 <= j < planned_jobs(messages, batch_id).len() ==> {
            let job = #[trigger] planned_jobs(messages, batch_id)[j];
            &&& job.batch_index.is_some()
            &&& job.batch_index->0 < answer.len()
            &&& methods.answers(job.request, answer[job.batch_index->0 as int])
        }
}

/// Reassembly: the responses that fit the plan of a batch, slot by slot,
/// are an answer to the batch in the order of the batch. So whatever the
/// order in which the workers finish, the array that is emitted once every
/// slot is filled answers the batch as if its messages had been answered
/// one after the other.
pub proof fn law_batch_reassembly<H: HandlerFn>(
    methods: Methods<H>,
    messages: Seq<MessageView>,
    batch_id: usize,
    answer: Seq<ResponseView>,
)
    requires
        messages.len() <= usize::MAX,
        forall|i: int| 0 <= i < messages.len() ==> !((#[trigger] messages[i]) is Batch),
        fits_plan(methods, messages, batch_id, answer),
    ensures
        methods.answers_batch(messages, answer),
    decreases messages.len(),
{
    if messages.len() > 0 {
        let front = messages.drop_last();
        let slots = planned_slots(messages);
        let jobs = planned_jobs(messages, batch_id);
        lemma_planned_slots_len(front);
        assert(!(messages[messages.len() - 1] is Batch));
        assert forall|i: int| 0 <= i < front.len() implies !((#[trigger] front[i]) is Batch) by {
            assert(front[i] == messages[i]);
        }
        match messages.last() {
            MessageView::Notification(_) => {
                law_batch_reassembly(methods, front, batch_id, answer);
            },
            MessageView::Batch(_) => {},
            MessageView::Request(q) => {
                let rest = answer.drop_last();
                assert(jobs.last().request == q);
                assert(jobs[jobs.len() - 1].batch_index == Some(planned_slots(front).len() as usize));
                assert forall|k: int|
                    0 <= k < rest.len() && (#[trigger] planned_slots(front)[k]).is_some()
                    implies planned_slots(front)[k] == Some(rest[k]) by {
                    assert(slots[k] == planned_slots(front)[k]);
                }
                assert forall|j: int| 0 <= j < planned_jobs(front, batch_id).len() implies {
                    let job = #[trigger] planned_jobs(front, batch_id)[j];
                    &&& job.batch_index.is_some()
                    &&& job.batch_index->0 < rest.len()
                    &&& methods.answers(job.request, rest[job.batch_index->0 as int])
                } by {
                    assert(jobs[j] == planned_jobs(front, batch_id)[j]);
                    lemma_job_slots(front, batch_id, j);
                }
                law_batch_reassembly(methods, front, batch_id, rest);
            },
            MessageView::Response(p) => {
                let rest = answer.drop_last();
                assert(slots[slots.len() - 1] == Some(p));
                assert forall|k: int|
                    0 <= k < rest.len() && (#[trigger] planned_slots(front)[k]).is_some()
                    implies planned_slots(front)[k] == Some(rest[k]) by {
                    assert(slots[k] == planned_slots(front)[k]);
                }
                assert forall|j: int| 0 <= j < planned_jobs(front, batch_id).len() implies {
                    let job = #[trigger] planned_jobs(front, batch_id)[j];
                    &&& job.batch_index.is_some()
                    &&& job.batch_index->0 < rest.len()
                    &&& methods.answers(job.request, rest[job.batch_index->0 as int])
                } by {
                    assert(jobs[j] == planned_jobs(front, batch_id)[j]);
                    lemma_job_slots(front, batch_id, j);
                }
                law_batch_reassembly(methods, front, batch_id, rest);
            },
        }
    }
}

/// The slot of each job of a batch is one of the slots of the batch, and it
/// is empty in the plan.
pub proof fn lemma_job_slots(messages: Seq<MessageView>, batch_id: usize, j: int)
    requires
        messages.len() <= usize::MAX,
        0 <= j < planned_jobs(messages, batch_id).len(),
    ensures
        planned_jobs(messages, batch_id)[j].batch_id == Some(batch_id),
        planned_jobs(messages, batch_id)[j].batch_index.is_some(),
        planned_jobs(messages, batch_id)[j].batch_index->0 < planned_slots(messages).len(),
        planned_slots(messages)[planned_jobs(messages, batch_id)[j].batch_index->0 as int].is_none(),
    decreases messages.len(),
{
    if messages.len() > 0 {
        let front = messages.drop_last();
        lemma_planned_slots_len(front);
        if j < planned_jobs(front, batch_id).len() {
            lemma_job_slots(front, batch_id, j);
            assert(planned_jobs(messages, batch_id)[j] == planned_jobs(front, batch_id)[j]);
            let k = planned_jobs(front, batch_id)[j].batch_index->0 as int;
            assert(planned_slots(messages)[k] == planned_slots(front)[k]);
        }
    }
}

/// The jobs of a batch have their slots in rising order, so no two of them
/// share a slot.
pub proof fn lemma_job_slots_rise(messages: Seq<MessageView>, batch_id: usize, i: int, j: int)
    requires
        messages.len() <= usize::MAX,
        0 <= i < j < planned_jobs(messages, batch_id).len(),
    ensures
        planned_jobs(messages, batch_id)[i].batch_index->0 < planned_jobs(
            messages,
            batch_id,
        )[j].batch_index->0,
    decreases messages.len(),
{
    if messages.len() > 0 {
        let front = messages.drop_last();
        lemma_planned_slots_len(front);
        if j < planned_jobs(front, batch_id).len() {
            lemma_job_slots_rise(front, batch_id, i, j);
        } else {
            lemma_job_slots(front, batch_id, i);
        }
    }
}

/// Whether one of the jobs of the batch has the slot `slot`.
pub open spec fn has_job_for(messages: Seq<MessageView>, batch_id: usize, slot: int) -> bool {
    exists|j: int|
        0 <= j < planned_jobs(messages, batch_id).len() && (#[trigger] planned_jobs(
            messages,
            batch_id,
        )[j]).batch_index == Some(slot as usize)
}

/// Each slot that the plan of a batch leaves empty is the slot of a job.
pub proof fn lemma_empty_slot_has_job(messages: Seq<MessageView>, batch_id: usize, slot: int)
    requires
        messages.len() <= usize::MAX,
        0 <= slot < planned_slots(messages).len(),
        planned_slots(messages)[slot].is_none(),
    ensures
        has_job_for(messages, batch_id, slot),
    decreases messages.len(),
{
    if messages.len() > 0 {
        let front = messages.drop_last();
        lemma_planned_slots_len(front);
        if slot < planned_slots(front).len() {
            assert(planned_slots(front)[slot] == planned_slots(messages)[slot]);
            lemma_empty_slot_has_job(front, batch_id, slot);
            let j = choose|j: int|
                0 <= j < planned_jobs(front, batch_id).len() && (#[trigger] planned_jobs(
                    front,
                    batch_id,
                )[j]).batch_index == Some(slot as usize);
            assert(planned_jobs(messages, batch_id)[j] == planned_jobs(front, batch_id)[j]);
        } else {
            let j = planned_jobs(messages, batch_id).len() - 1;
            assert(planned_jobs(messages, batch_id)[j].batch_index == Some(slot as usize));
        }
    }
}

} // verus!
