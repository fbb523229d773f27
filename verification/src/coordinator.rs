//! The coordinator: the state machine between the inbound messages and the
//! workers.
//!
//! It turns an inbound message into jobs for the workers and takes their
//! responses back, in any order. A single response is emitted as it arrives;
//! the responses of a batch are held until the batch is complete and are then
//! emitted as one array, in the order of the batch.

use std::collections::HashMap;
use vstd::prelude::*;
use crate::batch::{
    BatchContext,
    all_filled,
    deliver,
    filled,
    law_delivery_order,
    lemma_filled_complete,
};
use crate::codec::parsed_json;
use crate::message::{Message, MessageView, lemma_batch_model, lemma_elements_are_single, models};
use crate::methods::{
    HandlerFn,
    Methods,
    batch_output,
    batch_text,
    batch_wire_text,
    option_text,
    receive,
    response_text,
};
use crate::server::{
    BatchPlan,
    Job,
    JobView,
    ResponseData,
    Server,
    fits_plan,
    job_models,
    law_batch_reassembly,
    lemma_empty_slot_has_job,
    lemma_job_slots,
    lemma_job_slots_rise,
    lemma_planned_slots_len,
    notification_models,
    planned_jobs,
    planned_notifications,
    planned_slots,
    process_batch,
};
use crate::types::{Notification, NotificationView, ResponseView};

verus! {

/// What the coordinator makes of one inbound message.
pub struct Admission {
    /// The text to emit at once, if any.
    pub reply: Option<String>,
    /// The requests to hand to the workers.
    pub jobs: Vec<Job>,
    /// The notifications to run; they are owed no response.
    pub notifications: Vec<Notification>,
}

/// The batches that are being answered, each under its number.
pub type Table = Map<usize, Seq<Option<ResponseView>>>;

/// The number of the batch that a response with the given tags belongs to:
/// the response must carry both tags, the batch must be in the table, and
/// it must have the slot.
pub open spec fn target(table: Table, batch_id: Option<usize>, batch_index: Option<usize>) -> Option<
    usize,
> {
    match (batch_id, batch_index) {
        (Some(b), Some(i)) => if table.contains_key(b) && i < table[b].len() {
            Some(b)
        } else {
            None
        },
        _ => None,
    }
}

/// The batch number after `batch_id`; after the largest comes 0 again.
pub open spec fn following(batch_id: usize) -> usize {
    if batch_id == usize::MAX {
        0
    } else {
        (batch_id + 1) as usize
    }
}

/// The coordinator: the batches that are being answered and the number of
/// the next batch.
pub struct Coordinator {
    batches: HashMap<usize, BatchContext>,
    next_batch_id: usize,
}

impl Coordinator {
    /// The batches that are being answered: the slots of each, under its
    /// number.
    pub closed spec fn table(&self) -> Table {
        self.batches@.map_values(|context: BatchContext| context.slots())
    }

    /// The number that the next batch gets.
    pub closed spec fn next_id(&self) -> usize {
        self.next_batch_id
    }

    /// Whether the coordinator is well formed: each of its batches is.
    pub closed spec fn wf(&self) -> bool {
        forall|id: usize| #[trigger] self.batches@.contains_key(id) ==> self.batches@[id].wf()
    }

    /// Whether no batch is under way.
    pub open spec fn is_idle(&self) -> bool {
        self.table() == Map::<usize, Seq<Option<ResponseView>>>::empty()
    }

    /// A coordinator with no batch under way.
    pub fn new() -> (out: Coordinator)
        ensures
            out.wf(),
            out.is_idle(),
            out.next_id() == 0,
    {
        let out = Coordinator { batches: HashMap::new(), next_batch_id: 0 };
        proof {
            assert(out.table() =~= Map::<usize, Seq<Option<ResponseView>>>::empty());
        }
        out
    }

    /// Gives up every batch that is under way, as when the connection
    /// closes: nothing of them is emitted. Returns how many were given up.
    pub fn abandon(&mut self) -> (out: usize)
        ensures
            final(self).wf(),
            final(self).is_idle(),
            final(self).next_id() == old(self).next_id(),
            out == old(self).table().len(),
    {
        broadcast use vstd::std_specs::hash::group_hash_axioms;

        let open = self.batches.len();
        proof {
            assert(self.table().dom() =~= self.batches@.dom());
        }
        self.batches.clear();
        proof {
            assert(self.table() =~= Map::<usize, Seq<Option<ResponseView>>>::empty());
        }
        open
    }

    /// The number of batches under way.
    pub fn open_batches(&self) -> (out: usize)
        ensures
            out == self.table().len(),
            (out == 0) == self.is_idle(),
    {
        broadcast use vstd::std_specs::hash::group_hash_axioms;

        proof {
            assert(self.table().dom() =~= self.batches@.dom());
            if self.batches@.len() == 0 {
                assert(self.batches@.dom().finite());
                assert(self.batches@.dom() =~= Set::empty());
                assert(self.table() =~= Map::<usize, Seq<Option<ResponseView>>>::empty());
            }
        }
        self.batches.len()
    }

    /// Whether `admission` and the new table are what accepting the batch
    /// `messages` under the number `batch_id` gives.
    ///
    /// The notifications of the batch are to be run. Where the batch holds no
    /// request, what it owes is known at once: nothing, or the array of the
    /// responses that it already holds; the table stays as it was. Where it
    /// holds a request, its jobs go out and its slots enter the table under
    /// the number of the batch.
    pub open spec fn accepts_batch(
        before: Table,
        messages: Seq<MessageView>,
        batch_id: usize,
        reply: Option<Seq<char>>,
        jobs: Seq<JobView>,
        notifications: Seq<NotificationView>,
        after: Table,
    ) -> bool {
        &&& notifications == planned_notifications(messages)
        &&& jobs == planned_jobs(messages, batch_id)
        &&& if jobs.len() == 0 {
            reply == batch_output(filled(planned_slots(messages))) && after == before
        } else {
            reply.is_none() && after == before.insert(batch_id, planned_slots(messages))
        }
    }

    /// Accepts a message: says what is to be emitted at once, which jobs go
    /// to the workers and which notifications are to be run.
    ///
    /// A request becomes one job that belongs to no batch. A notification is
    /// to be run. A response is dropped. A batch is planned under the next
    /// batch number.
    pub fn accept(&mut self, message: &Message) -> (out: Admission)
        requires
            old(self).wf(),
        ensures
            final(self).wf(),
            match message@ {
                MessageView::Request(q) => {
                    &&& out.reply is None
                    &&& job_models(out.jobs@) == seq![
                        JobView { request: q, batch_id: None, batch_index: None },
                    ]
                    &&& out.notifications@.len() == 0
                    &&& final(self).table() == old(self).table()
                    &&& final(self).next_id() == old(self).next_id()
                },
                MessageView::Notification(n) => {
                    &&& out.reply is None
                    &&& out.jobs@.len() == 0
                    &&& notification_models(out.notifications@) == seq![n]
                    &&& final(self).table() == old(self).table()
                    &&& final(self).next_id() == old(self).next_id()
                },
                MessageView::Response(_) => {
                    &&& out.reply is None
                    &&& out.jobs@.len() == 0
                    &&& out.notifications@.len() == 0
                    &&& final(self).table() == old(self).table()
                    &&& final(self).next_id() == old(self).next_id()
                },
                MessageView::Batch(messages) => {
                    &&& Coordinator::accepts_batch(
                        old(self).table(),
                        messages,
                        old(self).next_id(),
                        option_text(out.reply),
                        job_models(out.jobs@),
                        notification_models(out.notifications@),
                        final(self).table(),
                    )
                    &&& final(self).next_id() == following(old(self).next_id())
                },
            },
    {
        broadcast use vstd::std_specs::hash::group_hash_axioms;

        match message {
            Message::Request(request) => {
                let mut jobs: Vec<Job> = Vec::new();
                jobs.push(Job { request: request.duplicate(), batch_id: None, batch_index: None });
                proof {
                    assert(job_models(jobs@) =~= seq![
                        JobView { request: request@, batch_id: None, batch_index: None },
                    ]);
                }
                Admission { reply: None, jobs, notifications: Vec::new() }
            },
            Message::Notification(notification) => {
                let mut notifications: Vec<Notification> = Vec::new();
                notifications.push(notification.duplicate());
                proof {
                    assert(notification_models(notifications@) =~= seq![notification@]);
                }
                Admission { reply: None, jobs: Vec::new(), notifications }
            },
            Message::Response(_) => Admission {
                reply: None,
                jobs: Vec::new(),
                notifications: Vec::new(),
            },
            Message::Batch(messages) => {
                proof {
                    lemma_batch_model(*messages);
                }
                let batch_id = self.next_batch_id;
                self.next_batch_id = if batch_id == usize::MAX {
                    0
                } else {
                    batch_id + 1
                };
                let plan = process_batch(batch_id, messages);
                let BatchPlan { context, jobs, notifications } = plan;
                if jobs.len() == 0 {
                    let responses = context.drain();
                    let reply = if responses.len() == 0 {
                        None
                    } else {
                        Some(batch_text(&responses))
                    };
                    proof {
                        assert(self.table() =~= old(self).table());
                    }
                    Admission { reply, jobs, notifications }
                } else {
                    let ghost slots = context.slots();
                    self.batches.insert(batch_id, context);
                    proof {
                        assert(self.table() =~= old(self).table().insert(batch_id, slots));
                    }
                    Admission { reply: None, jobs, notifications }
                }
            },
        }
    }

    /// Takes a response back from a worker and says what is to be emitted.
    ///
    /// A response that belongs to a slot of a batch under way fills the
    /// slot. Once every slot of the batch is filled, the batch leaves the
    /// table and its responses are emitted as one array, in slot order;
    /// until then nothing is emitted. Every other response is emitted by
    /// itself.
    pub fn complete(&mut self, data: ResponseData) -> (out: Option<String>)
        requires
            old(self).wf(),
        ensures
            final(self).wf(),
            final(self).next_id() == old(self).next_id(),
            match target(old(self).table(), data.batch_id, data.batch_index) {
                Some(b) => {
                    let slots = old(self).table()[b].update(
                        data.batch_index->0 as int,
                        Some(data.response@),
                    );
                    if all_filled(slots) {
                        &&& option_text(out) == Some(batch_wire_text(filled(slots)))
                        &&& final(self).table() == old(self).table().remove(b)
                    } else {
                        &&& out is None
                        &&& final(self).table() == old(self).table().insert(b, slots)
                    }
                },
                None => {
                    &&& option_text(out) == Some(data.response@.wire_text())
                    &&& final(self).table() == old(self).table()
                },
            },
    {
        broadcast use vstd::std_specs::hash::group_hash_axioms;

        let ResponseData { response, batch_id, batch_index } = data;
        let found = match (batch_id, batch_index) {
            (Some(b), Some(i)) => match self.batches.remove(&b) {
                Some(context) => Some((b, i, context)),
                None => None,
            },
            _ => None,
        };
        match found {
            Some((b, i, context)) => {
                let mut context = context;
                let ghost before = context.slots();
                proof {
                    assert(old(self).batches@.contains_key(b));
                    assert(old(self).table()[b] == before);
                    assert(self.table() =~= old(self).table().remove(b));
                }
                if i < context.len() {
                    let _ = context.fill(i, response);
                    if context.is_complete() {
                        let responses = context.drain();
                        Some(batch_text(&responses))
                    } else {
                        let ghost slots = context.slots();
                        self.batches.insert(b, context);
                        proof {
                            assert(self.table() =~= old(self).table().insert(b, slots));
                        }
                        None
                    }
                } else {
                    self.batches.insert(b, context);
                    proof {
                        assert(self.table() =~= old(self).table());
                    }
                    Some(response_text(&response))
                }
            },
            None => {
                proof {
                    assert(self.table() =~= old(self).table());
                }
                Some(response_text(&response))
            },
        }
    }
}

/// The first of the texts, if there is one.
pub open spec fn first_text(texts: Seq<String>) -> Option<Seq<char>> {
    if texts.len() == 0 {
        None
    } else {
        Some(texts[0]@)
    }
}

/// The slot of the job `j` of a batch.
pub open spec fn job_slot(messages: Seq<MessageView>, batch_id: usize, j: int) -> int {
    planned_jobs(messages, batch_id)[j].batch_index->0 as int
}

impl Coordinator {
    /// Serves one inbound text to its end on the calling thread: accepts
    /// it, runs its notifications, answers its jobs one after the other and
    /// takes each response back. Returns what is emitted, which is at most
    /// one text.
    ///
    /// What is emitted is what the engine emits for the text: the jobs go
    /// through the slots of their batch and come out in its order.
    pub fn submit<H: HandlerFn>(&mut self, server: &Server<H>, json_str: &str) -> (out: Vec<String>)
        requires
            old(self).wf(),
            old(self).is_idle(),
        ensures
            final(self).wf(),
            final(self).is_idle(),
            out@.len() <= 1,
            server.methods().emits_for(json_str@, first_text(out@)),
    {
        let mut out: Vec<String> = Vec::new();
        let message = match receive(json_str) {
            Ok(message) => message,
            Err(refusal) => {
                out.push(refusal);
                return out;
            },
        };
        let ghost batch_id = self.next_id();
        let Admission { reply, jobs, notifications } = self.accept(&message);
        let mut i: usize = 0;
        while i < notifications.len()
            invariant
                i <= notifications.len(),
            decreases notifications.len() - i,
        {
            let _ = server.process_notification(&notifications[i]);
            i += 1;
        }
        match &message {
            Message::Request(request) => {
                proof {
                    assert(job_models(jobs@).len() == 1);
                    assert(job_models(jobs@)[0] == jobs[0]@);
                }
                let data = server.process_request_with_batch(&jobs[0]);
                let ghost response = data.response@;
                match self.complete(data) {
                    Some(text) => {
                        out.push(text);
                    },
                    None => {},
                }
                proof {
                    assert(server.methods().emits_reply(request@, response, first_text(out@)));
                }
            },
            Message::Notification(_) => {},
            Message::Response(_) => {},
            Message::Batch(messages) => {
                proof {
                    lemma_batch_model(*messages);
                    let items = parsed_json(json_str@)->0->Array_0;
                    lemma_elements_are_single(items);
                    assert(job_models(jobs@).len() == jobs.len());
                }
                if jobs.len() == 0 {
                    match reply {
                        Some(text) => {
                            out.push(text);
                        },
                        None => {},
                    }
                    proof {
                        lemma_ready_batch(server.methods(), models(messages@), batch_id);
                        assert(server.methods().emits_batch(
                            models(messages@),
                            filled(planned_slots(models(messages@))),
                            first_text(out@),
                        ));
                    }
                } else {
                    proof {
                        assert(self.table() =~= Map::<
                            usize,
                            Seq<Option<ResponseView>>,
                        >::empty().insert(batch_id, planned_slots(models(messages@))));
                    }
                    let text = self.run_jobs(
                        server,
                        &jobs,
                        Ghost(models(messages@)),
                        Ghost(batch_id),
                    );
                    out.push(text);
                }
            },
        }
        out
    }

    /// Answers the jobs of a batch one after the other and takes each
    /// response back. Returns the array that is emitted with the last of
    /// them.
    fn run_jobs<H: HandlerFn>(
        &mut self,
        server: &Server<H>,
        jobs: &Vec<Job>,
        Ghost(messages): Ghost<Seq<MessageView>>,
        Ghost(batch_id): Ghost<usize>,
    ) -> (out: String)
        requires
            old(self).wf(),
            jobs.len() > 0,
            messages.len() <= usize::MAX,
            forall|i: int| 0 <= i < messages.len() ==> !((#[trigger] messages[i]) is Batch),
            job_models(jobs@) == planned_jobs(messages, batch_id),
            old(self).table() == Map::<usize, Seq<Option<ResponseView>>>::empty().insert(
                batch_id,
                planned_slots(messages),
            ),
        ensures
            final(self).wf(),
            final(self).is_idle(),
            final(self).next_id() == old(self).next_id(),
            server.methods().emits_answers(messages, Some(out@)),
    {
        let ghost planned = planned_slots(messages);
        let ghost mut deliveries: Seq<(int, ResponseView)> = Seq::empty();
        let mut emitted: Option<String> = None;
        let mut j: usize = 0;
        proof {
            assert(job_models(jobs@).len() == jobs.len());
        }
        while j < jobs.len()
            invariant
                j <= jobs.len(),
                self.wf(),
                self.next_id() == old(self).next_id(),
                jobs.len() > 0,
                messages.len() <= usize::MAX,
                planned == planned_slots(messages),
                job_models(jobs@) == planned_jobs(messages, batch_id),
                planned_jobs(messages, batch_id).len() == jobs.len(),
                deliveries.len() == j,
                forall|t: int|
                    0 <= t < j ==> (#[trigger] deliveries[t]).0 == job_slot(messages, batch_id, t)
                        && server.methods().answers(
                        planned_jobs(messages, batch_id)[t].request,
                        deliveries[t].1,
                    ),
                j < jobs.len() ==> emitted is None && self.table() == Map::<
                    usize,
                    Seq<Option<ResponseView>>,
                >::empty().insert(batch_id, deliver(planned, deliveries)),
                j == jobs.len() ==> self.is_idle() && all_filled(
                    deliver(planned, deliveries),
                ) && option_text(emitted) == Some(
                    batch_wire_text(filled(deliver(planned, deliveries))),
                ),
            decreases jobs.len() - j,
        {
            let ghost slot = job_slot(messages, batch_id, j as int);
            let ghost before = deliver(planned, deliveries);
            proof {
                assert(job_models(jobs@)[j as int] == jobs[j as int]@);
                lemma_job_slots(messages, batch_id, j as int);
                lemma_slots_in_range(messages, batch_id, deliveries);
                crate::batch::lemma_deliver_len(planned, deliveries);
            }
            let data = server.process_request_with_batch(&jobs[j]);
            let ghost response = data.response@;
            let text = self.complete(data);
            proof {
                let next = deliveries.push((slot, response));
                assert(next.drop_last() =~= deliveries);
                assert(deliver(planned, next) == before.update(slot, Some(response)));
                assert forall|t: int| 0 <= t < next.len() implies (#[trigger] next[t]).0
                    == job_slot(messages, batch_id, t) && server.methods().answers(
                    planned_jobs(messages, batch_id)[t].request,
                    next[t].1,
                ) by {
                    if t < j {
                        assert(next[t] == deliveries[t]);
                    }
                }
                lemma_slots_in_range(messages, batch_id, next);
                lemma_slots_distinct(messages, batch_id, next);
                law_delivery_order(planned, next);
                let after = deliver(planned, next);
                if j + 1 < jobs.len() {
                    let last = jobs.len() - 1;
                    let waiting = job_slot(messages, batch_id, last);
                    lemma_job_slots(messages, batch_id, last);
                    assert forall|t: int| 0 <= t < next.len() implies (#[trigger] next[t]).0
                        != waiting by {
                        lemma_job_slots_rise(messages, batch_id, t, last);
                    }
                    assert(after[waiting] == planned[waiting]);
                    assert(!all_filled(after));
                    assert(self.table() =~= Map::<usize, Seq<Option<ResponseView>>>::empty().insert(
                        batch_id,
                        after,
                    ));
                } else {
                    assert forall|k: int| 0 <= k < after.len() implies (#[trigger] after[k]).is_some() by {
                        if planned[k].is_none() {
                            lemma_empty_slot_has_job(messages, batch_id, k);
                            let t = choose|t: int|
                                0 <= t < planned_jobs(messages, batch_id).len() && (
                                #[trigger] planned_jobs(messages, batch_id)[t]).batch_index == Some(
                                    k as usize,
                                );
                            lemma_planned_slots_len(messages);
                            assert(t < next.len());
                            assert(next[t].0 == job_slot(messages, batch_id, t));
                            assert(next[t].0 == k);
                            assert(after[next[t].0] == Some(next[t].1));
                        } else {
                            if exists|t: int| 0 <= t < next.len() && (#[trigger] next[t]).0 == k {
                                let t = choose|t: int| 0 <= t < next.len() && (#[trigger] next[t]).0 == k;
                                assert(after[next[t].0] == Some(next[t].1));
                            } else {
                                assert(after[k] == planned[k]);
                            }
                        }
                    }
                    assert(all_filled(after));
                    assert(self.table() =~= Map::<usize, Seq<Option<ResponseView>>>::empty());
                }
                deliveries = next;
            }
            emitted = text;
            j += 1;
        }
        let ghost slots = deliver(planned, deliveries);
        let ghost answer = filled(slots);
        proof {
            lemma_slots_in_range(messages, batch_id, deliveries);
            lemma_slots_distinct(messages, batch_id, deliveries);
            law_delivery_order(planned, deliveries);
            lemma_filled_complete(slots);
            assert forall|k: int|
                0 <= k < answer.len() && (#[trigger] planned_slots(messages)[k]).is_some()
                implies planned_slots(messages)[k] == Some(answer[k]) by {
                lemma_kept_slot(messages, batch_id, deliveries, k);
            }
            assert forall|t: int| 0 <= t < planned_jobs(messages, batch_id).len() implies {
                let job = #[trigger] planned_jobs(messages, batch_id)[t];
                &&& job.batch_index.is_some()
                &&& job.batch_index->0 < answer.len()
                &&& server.methods().answers(job.request, answer[job.batch_index->0 as int])
            } by {
                lemma_job_slots(messages, batch_id, t);
                assert(slots[deliveries[t].0] == Some(deliveries[t].1));
            }
            assert(fits_plan(server.methods(), messages, batch_id, answer));
            law_batch_reassembly(server.methods(), messages, batch_id, answer);
            assert(answer.len() > 0) by {
                lemma_job_slots(messages, batch_id, 0);
            }
            assert(server.methods().emits_batch(messages, answer, Some(emitted->0@)));
        }
        match emitted {
            Some(text) => text,
            None => String::new(),
        }
    }
}

/// The deliveries to the slots of the first jobs of a batch are deliveries
/// to slots of the batch.
proof fn lemma_slots_in_range(
    messages: Seq<MessageView>,
    batch_id: usize,
    deliveries: Seq<(int, ResponseView)>,
)
    requires
        messages.len() <= usize::MAX,
        deliveries.len() <= planned_jobs(messages, batch_id).len(),
        forall|t: int|
            0 <= t < deliveries.len() ==> (#[trigger] deliveries[t]).0 == job_slot(
                messages,
                batch_id,
                t,
            ),
    ensures
        forall|t: int|
            0 <= t < deliveries.len() ==> 0 <= (#[trigger] deliveries[t]).0 < planned_slots(
                messages,
            ).len(),
{
    assert forall|t: int| 0 <= t < deliveries.len() implies 0 <= (#[trigger] deliveries[t]).0
        < planned_slots(messages).len() by {
        lemma_job_slots(messages, batch_id, t);
    }
}

/// The deliveries to the slots of the first jobs of a batch go to slots
/// that differ from each other.
proof fn lemma_slots_distinct(
    messages: Seq<MessageView>,
    batch_id: usize,
    deliveries: Seq<(int, ResponseView)>,
)
    requires
        messages.len() <= usize::MAX,
        deliveries.len() <= planned_jobs(messages, batch_id).len(),
        forall|t: int|
            0 <= t < deliveries.len() ==> (#[trigger] deliveries[t]).0 == job_slot(
                messages,
                batch_id,
                t,
            ),
    ensures
        forall|a: int, b: int|
            0 <= a < b < deliveries.len() ==> (#[trigger] deliveries[a]).0 != (
            #[trigger] deliveries[b]).0,
{
    assert forall|a: int, b: int| 0 <= a < b < deliveries.len() implies (
    #[trigger] deliveries[a]).0 != (#[trigger] deliveries[b]).0 by {
        lemma_job_slots_rise(messages, batch_id, a, b);
    }
}

/// A slot that the plan fills keeps its response through the deliveries to
/// the slots of the jobs.
proof fn lemma_kept_slot(
    messages: Seq<MessageView>,
    batch_id: usize,
    deliveries: Seq<(int, ResponseView)>,
    slot: int,
)
    requires
        messages.len() <= usize::MAX,
        deliveries.len() <= planned_jobs(messages, batch_id).len(),
        forall|t: int|
            0 <= t < deliveries.len() ==> (#[trigger] deliveries[t]).0 == job_slot(
                messages,
                batch_id,
                t,
            ),
        0 <= slot < planned_slots(messages).len(),
        planned_slots(messages)[slot].is_some(),
    ensures
        deliver(planned_slots(messages), deliveries)[slot] == planned_slots(messages)[slot],
{
    lemma_slots_in_range(messages, batch_id, deliveries);
    lemma_slots_distinct(messages, batch_id, deliveries);
    law_delivery_order(planned_slots(messages), deliveries);
    assert forall|t: int| 0 <= t < deliveries.len() implies (#[trigger] deliveries[t]).0
        != slot by {
        lemma_job_slots(messages, batch_id, t);
    }
}

/// A batch without requests is answered by the responses that it holds.
proof fn lemma_ready_batch<H: HandlerFn>(
    methods: Methods<H>,
    messages: Seq<MessageView>,
    batch_id: usize,
)
    requires
        messages.len() <= usize::MAX,
        forall|i: int| 0 <= i < messages.len() ==> !((#[trigger] messages[i]) is Batch),
        planned_jobs(messages, batch_id).len() == 0,
    ensures
        methods.answers_batch(messages, filled(planned_slots(messages))),
{
    let slots = planned_slots(messages);
    assert forall|k: int| 0 <= k < slots.len() implies (#[trigger] slots[k]).is_some() by {
        if slots[k].is_none() {
            lemma_empty_slot_has_job(messages, batch_id, k);
        }
    }
    lemma_filled_complete(slots);
    law_batch_reassembly(methods, messages, batch_id, filled(slots));
}

} // verus!
