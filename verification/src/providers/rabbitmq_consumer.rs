//! The queue consumer's connection lifecycle and the handling of deliveries.
//!
//! The consumer is connected once a connection and a channel are open and
//! the queue is declared. Shutting down is final: a consumer that began to
//! shut down never reports itself connected again and stops taking
//! deliveries. Acknowledgements need an open channel.

use vstd::prelude::*;

use crate::config::AmqpConfig;
use crate::error::{app_error, AppError, AppErrorView, ErrorKind};
use crate::models::QueueMessage;
use crate::services::message_processor::new_request_id;
use crate::text::{decimal, decimal_string, is_uuid_v4_text, join2, join3};

verus! {

/// A delivery handed on for processing, with the tag that acknowledges it
/// and the id it is logged under.
pub struct ProcessedMessage {
    pub message: QueueMessage,
    pub delivery_tag: u64,
    pub request_id: String,
}

/// The consumer: its configuration and its connection state.
pub struct RabbitMqConsumer {
    config: AmqpConfig,
    connected: bool,
    channel_open: bool,
    is_shutting_down: bool,
    active_workers: usize,
}

/// The consumer's state as the contracts see it.
pub struct ConsumerView {
    pub connected: bool,
    pub channel_open: bool,
    pub shutting_down: bool,
    pub active_workers: nat,
}

impl View for RabbitMqConsumer {
    type V = ConsumerView;

    closed spec fn view(&self) -> ConsumerView {
        ConsumerView {
            connected: self.connected,
            channel_open: self.channel_open,
            shutting_down: self.is_shutting_down,
            active_workers: self.active_workers as nat,
        }
    }
}

/// The things that change the consumer's state.
pub enum ConsumerEvent {
    /// A connection and a channel were opened and the queue declared.
    Connected,
    /// Shutting down began.
    ShutdownRequested,
    /// The channel and the connection were taken away and closed.
    Disconnected,
    /// A worker began to handle a delivery.
    WorkerStarted,
    /// A worker finished with a delivery.
    WorkerFinished,
}

/// What to do with the next item of the delivery stream.
pub enum DeliveryAction {
    /// Shutting down: stop reading the stream.
    Stop,
    /// Hand the delivery to a new worker.
    SpawnWorker,
    /// The stream reported an error: wait this long before reading on.
    PauseMillis { millis: u64 },
}

/// The options with which the queue is consumed.
pub struct ConsumerSettings {
    pub queue_name: String,
    pub consumer_tag: String,
    pub prefetch_count: u16,
    pub prefetch_global: bool,
    pub no_ack: bool,
    pub exclusive: bool,
    pub no_local: bool,
    pub nowait: bool,
    pub max_workers: usize,
    pub buffer_size: usize,
}

/// The number of rounds that disconnecting waits for busy workers.
pub const MAX_WORKER_WAIT_ROUNDS: u32 = 50;

/// The counter after one more worker (the counter wraps like an atomic one).
pub open spec fn inc_workers(n: nat) -> nat {
    if n >= usize::MAX { 0 } else { n + 1 }
}

/// The counter after one worker less (the counter wraps like an atomic one).
pub open spec fn dec_workers(n: nat) -> nat {
    if n == 0 { usize::MAX as nat } else { (n - 1) as nat }
}

/// The state after an event.
pub open spec fn consumer_step(st: ConsumerView, ev: ConsumerEvent) -> ConsumerView {
    match ev {
        ConsumerEvent::Connected => ConsumerView { connected: true, channel_open: true, ..st },
        ConsumerEvent::ShutdownRequested => ConsumerView { shutting_down: true, ..st },
        ConsumerEvent::Disconnected => ConsumerView { connected: false, channel_open: false, ..st },
        ConsumerEvent::WorkerStarted => ConsumerView { active_workers: inc_workers(st.active_workers), ..st },
        ConsumerEvent::WorkerFinished => ConsumerView { active_workers: dec_workers(st.active_workers), ..st },
    }
}

/// The state after a sequence of events.
pub open spec fn consumer_run(st: ConsumerView, evs: Seq<ConsumerEvent>) -> ConsumerView
    decreases evs.len(),
{
    if evs.len() == 0 {
        st
    } else {
        consumer_run(consumer_step(st, evs[0]), evs.drop_first())
    }
}

/// Whether the consumer reports itself connected.
pub open spec fn connected_spec(st: ConsumerView) -> bool {
    st.connected && !st.shutting_down
}

/// A state that a consumer can be in.
pub open spec fn valid_consumer(st: ConsumerView) -> bool {
    st.active_workers <= usize::MAX
}

/// The error of an acknowledgement without a channel.
pub open spec fn no_ack_channel_error() -> AppErrorView {
    app_error(ErrorKind::MessageProcessing, "Channel not available"@)
}

/// The error of consuming without a channel.
pub open spec fn no_consume_channel_error() -> AppErrorView {
    app_error(ErrorKind::MessageProcessing, "Channel not initialized"@)
}

/// The decision for the next item of the delivery stream.
pub open spec fn delivery_action_spec(st: ConsumerView, delivery_ok: bool) -> DeliveryAction {
    if st.shutting_down {
        DeliveryAction::Stop
    } else if delivery_ok {
        DeliveryAction::SpawnWorker
    } else {
        DeliveryAction::PauseMillis { millis: 1000 }
    }
}

/// The URL the consumer connects to: the configured user, password, host and
/// port, and the default virtual host `/`.
pub open spec fn amqp_url_spec(c: AmqpConfig) -> Seq<char> {
    "amqp://"@ + c.username@ + ":"@ + c.password@ + "@"@ + c.host@ + ":"@ + decimal(c.port as nat) + "/"@ + "/"@
}

/// Law: the connection URL carries the configured fields where a broker
/// reads them: after `amqp://` comes the user name, then `:`, the password,
/// `@`, the host, `:`, the port in decimal, and the virtual host `/` after a
/// separating `/`. When the user name has no `:`, the first `:` after the
/// scheme ends it, so the broker reads exactly the configured user name and
/// password.
pub proof fn law_amqp_url_fields(c: AmqpConfig)
    ensures
        ({
            let url = amqp_url_spec(c);
            let u = c.username@.len() as int;
            let p = c.password@.len() as int;
            let h = c.host@.len() as int;
            let d = decimal(c.port as nat).len() as int;
            &&& url.len() == 12 + u + p + h + d
            &&& url.subrange(0, 7) == "amqp://"@
            &&& url.subrange(7, 7 + u) == c.username@
            &&& url[7 + u] == ':'
            &&& url.subrange(8 + u, 8 + u + p) == c.password@
            &&& url[8 + u + p] == '@'
            &&& url.subrange(9 + u + p, 9 + u + p + h) == c.host@
            &&& url[9 + u + p + h] == ':'
            &&& url.subrange(10 + u + p + h, 10 + u + p + h + d) == decimal(c.port as nat)
            &&& url.subrange(10 + u + p + h + d, url.len() as int) == "//"@
            &&& (forall|i: int| 0 <= i < u ==> c.username@[i] != ':') ==> (forall|i: int|
                7 <= i < 7 + u ==> url[i] != ':')
        }),
{
    reveal_strlit("amqp://");
    reveal_strlit(":");
    reveal_strlit("@");
    reveal_strlit("/");
    reveal_strlit("//");
    let url = amqp_url_spec(c);
    let u = c.username@.len() as int;
    let p = c.password@.len() as int;
    let h = c.host@.len() as int;
    let d = decimal(c.port as nat).len() as int;
    assert(url.subrange(0, 7) =~= "amqp://"@);
    assert(url.subrange(7, 7 + u) =~= c.username@);
    assert(url.subrange(8 + u, 8 + u + p) =~= c.password@);
    assert(url.subrange(9 + u + p, 9 + u + p + h) =~= c.host@);
    assert(url.subrange(10 + u + p + h, 10 + u + p + h + d) =~= decimal(c.port as nat));
    assert(url.subrange(10 + u + p + h + d, url.len() as int) =~= "//"@);
    assert forall|i: int| 7 <= i < 7 + u implies url[i] == c.username@[i - 7] by {
        assert(url.subrange(7, 7 + u)[i - 7] == url[i]);
    }
}

/// Law: how the next item of the delivery stream is handled. A consumer that
/// is shutting down stops; otherwise every delivery goes to a new worker,
/// whatever the number of busy workers and the connection state, and only a
/// stream error makes it pause, for one second.
pub proof fn law_delivery_handling(st: ConsumerView, delivery_ok: bool)
    ensures
        st.shutting_down ==> delivery_action_spec(st, delivery_ok) is Stop,
        !st.shutting_down && delivery_ok ==> delivery_action_spec(st, delivery_ok) is SpawnWorker,
        !st.shutting_down && !delivery_ok ==> delivery_action_spec(st, delivery_ok) == (DeliveryAction::PauseMillis {
            millis: 1000,
        }),
{
}

/// Law: shutting down is final. Whatever happens afterwards, the consumer
/// stays shutting down and never reports itself connected.
pub proof fn law_shutdown_is_final(st: ConsumerView, evs: Seq<ConsumerEvent>)
    requires
        st.shutting_down,
    ensures
        consumer_run(st, evs).shutting_down,
        !connected_spec(consumer_run(st, evs)),
    decreases evs.len(),
{
    if evs.len() > 0 {
        law_shutdown_is_final(consumer_step(st, evs[0]), evs.drop_first());
    }
}

/// Law: a worker that starts and then finishes leaves the worker count as
/// it was, and changes nothing else.
pub proof fn law_workers_balance(st: ConsumerView)
    requires
        valid_consumer(st),
    ensures
        consumer_step(consumer_step(st, ConsumerEvent::WorkerStarted), ConsumerEvent::WorkerFinished) == st,
{
}

/// Whether every event of `evs` is a worker starting or finishing.
pub open spec fn worker_events_only(evs: Seq<ConsumerEvent>) -> bool {
    forall|i: int| 0 <= i < evs.len() ==> (#[trigger] evs[i] is WorkerStarted || evs[i] is WorkerFinished)
}

/// The number of workers that start in `evs`.
pub open spec fn started_count(evs: Seq<ConsumerEvent>) -> int
    decreases evs.len(),
{
    if evs.len() == 0 {
        0
    } else {
        (if evs[0] is WorkerStarted { 1int } else { 0int }) + started_count(evs.drop_first())
    }
}

/// The number of workers that finish in `evs`.
pub open spec fn finished_count(evs: Seq<ConsumerEvent>) -> int
    decreases evs.len(),
{
    if evs.len() == 0 {
        0
    } else {
        (if evs[0] is WorkerFinished { 1int } else { 0int }) + finished_count(evs.drop_first())
    }
}

/// The number of values the worker counter can take.
pub open spec fn counter_modulus() -> int {
    usize::MAX as int + 1
}

/// Law: however worker starts and finishes interleave, the counter ends at
/// its first value plus the starts minus the finishes (counted modulo the
/// counter's range, as an atomic counter wraps), and nothing else changes.
pub proof fn law_worker_count(st: ConsumerView, evs: Seq<ConsumerEvent>)
    requires
        valid_consumer(st),
        worker_events_only(evs),
    ensures
        consumer_run(st, evs).active_workers as int == (st.active_workers + started_count(evs) - finished_count(
            evs,
        )) % counter_modulus(),
        consumer_run(st, evs).connected == st.connected,
        consumer_run(st, evs).channel_open == st.channel_open,
        consumer_run(st, evs).shutting_down == st.shutting_down,
    decreases evs.len(),
{
    let m = counter_modulus();
    if evs.len() == 0 {
        vstd::arithmetic::div_mod::lemma_small_mod(st.active_workers, m as nat);
    } else {
        let st2 = consumer_step(st, evs[0]);
        let rest = evs.drop_first();
        assert forall|i: int| 0 <= i < rest.len() implies (#[trigger] rest[i] is WorkerStarted
            || rest[i] is WorkerFinished) by {
            assert(rest[i] == evs[i + 1]);
        }
        law_worker_count(st2, rest);
        let x = started_count(rest) - finished_count(rest);
        assert(evs[0] is WorkerStarted || evs[0] is WorkerFinished);
        if evs[0] is WorkerStarted {
            if st.active_workers >= usize::MAX {
                assert(st2.active_workers == 0);
                vstd::arithmetic::div_mod::lemma_mod_add_multiples_vanish(x, m);
                assert(st.active_workers + 1 == m);
            }
        } else {
            if st.active_workers == 0 {
                assert(st2.active_workers == usize::MAX as nat);
                vstd::arithmetic::div_mod::lemma_mod_add_multiples_vanish(x - 1, m);
            }
        }
    }
}

/// Law: while the workers busy at once stay within the counter's range (the
/// semaphore of the consumer bounds them by its concurrency), the counter
/// is exactly its first value plus the starts minus the finishes.
pub proof fn law_worker_count_exact(st: ConsumerView, evs: Seq<ConsumerEvent>)
    requires
        valid_consumer(st),
        worker_events_only(evs),
        0 <= st.active_workers + started_count(evs) - finished_count(evs) <= usize::MAX,
    ensures
        consumer_run(st, evs).active_workers == st.active_workers + started_count(evs) - finished_count(evs),
{
    law_worker_count(st, evs);
    vstd::arithmetic::div_mod::lemma_small_mod(
        (st.active_workers + started_count(evs) - finished_count(evs)) as nat,
        counter_modulus() as nat,
    );
}

/// Law: if, at every point of a run of worker starts and finishes, the
/// workers busy at once never exceed `k` (as the consumer's semaphore with
/// `k` permits ensures), the counter stays between 0 and `k` throughout.
pub proof fn law_worker_bound(st: ConsumerView, evs: Seq<ConsumerEvent>, k: nat)
    requires
        valid_consumer(st),
        worker_events_only(evs),
        k <= usize::MAX,
        forall|j: int|
            0 <= j <= evs.len() ==> 0 <= st.active_workers + started_count(#[trigger] evs.take(j)) - finished_count(
                evs.take(j),
            ) <= k,
    ensures
        forall|j: int| 0 <= j <= evs.len() ==> #[trigger] consumer_run(st, evs.take(j)).active_workers <= k,
{
    assert forall|j: int| 0 <= j <= evs.len() implies #[trigger] consumer_run(st, evs.take(j)).active_workers <= k by {
        let pre = evs.take(j);
        assert forall|i: int| 0 <= i < pre.len() implies (#[trigger] pre[i] is WorkerStarted
            || pre[i] is WorkerFinished) by {
            assert(pre[i] == evs[i]);
        }
        law_worker_count_exact(st, pre);
    }
}

/// Law: when as many workers have finished as have started, in any order,
/// the counter is back to where it was.
pub proof fn law_workers_balance_interleaved(st: ConsumerView, evs: Seq<ConsumerEvent>)
    requires
        valid_consumer(st),
        worker_events_only(evs),
        started_count(evs) == finished_count(evs),
    ensures
        consumer_run(st, evs) == st,
{
    law_worker_count(st, evs);
    vstd::arithmetic::div_mod::lemma_small_mod(st.active_workers, counter_modulus() as nat);
}

/// Law: after the consumer is disconnected, it is not connected and it has no
/// channel, so acknowledging and consuming are refused; after it connects,
/// and unless it is shutting down, it is connected.
pub proof fn law_connection_lifecycle(st: ConsumerView)
    ensures
        !connected_spec(consumer_step(st, ConsumerEvent::Disconnected)),
        !consumer_step(st, ConsumerEvent::Disconnected).channel_open,
        consumer_step(st, ConsumerEvent::Connected).channel_open,
        !st.shutting_down ==> connected_spec(consumer_step(st, ConsumerEvent::Connected)),
        connected_spec(consumer_step(st, ConsumerEvent::ShutdownRequested)) == false,
{
}

/// Law: once shutting down, no delivery is handed to a worker.
pub proof fn law_no_work_after_shutdown(st: ConsumerView, evs: Seq<ConsumerEvent>, delivery_ok: bool)
    requires
        st.shutting_down,
    ensures
        delivery_action_spec(consumer_run(st, evs), delivery_ok) is Stop,
{
    law_shutdown_is_final(st, evs);
}

impl RabbitMqConsumer {
    /// A consumer with the given configuration, not connected, not shutting
    /// down, with no busy workers.
    pub fn new(config: AmqpConfig) -> (r: RabbitMqConsumer)
        ensures
            r.settings() == config,
            r@ == (ConsumerView { connected: false, channel_open: false, shutting_down: false, active_workers: 0 }),
    {
        RabbitMqConsumer {
            config,
            connected: false,
            channel_open: false,
            is_shutting_down: false,
            active_workers: 0,
        }
    }

    /// The configuration.
    pub closed spec fn settings(&self) -> AmqpConfig {
        self.config
    }

    /// The configuration.
    pub fn config(&self) -> (r: &AmqpConfig)
        ensures
            *r == self.settings(),
    {
        &self.config
    }

    /// Whether shutting down has begun.
    pub fn is_shutting_down(&self) -> (r: bool)
        ensures
            r == self@.shutting_down,
    {
        self.is_shutting_down
    }

    /// The number of workers busy with a delivery.
    pub fn active_workers(&self) -> (r: usize)
        ensures
            r as nat == self@.active_workers,
    {
        self.active_workers
    }

    /// Whether the consumer has a connection and is not shutting down.
    pub fn is_connected(&self) -> (r: bool)
        ensures
            r == connected_spec(self@),
    {
        self.connected && !self.is_shutting_down
    }

    /// Applies an event to the consumer's state.
    pub fn apply(&mut self, event: ConsumerEvent)
        ensures
            final(self)@ == consumer_step(old(self)@, event),
            final(self).settings() == old(self).settings(),
    {
        match event {
            ConsumerEvent::Connected => {
                self.connected = true;
                self.channel_open = true;
            },
            ConsumerEvent::ShutdownRequested => {
                self.is_shutting_down = true;
            },
            ConsumerEvent::Disconnected => {
                self.connected = false;
                self.channel_open = false;
            },
            ConsumerEvent::WorkerStarted => {
                self.active_workers = if self.active_workers == usize::MAX {
                    0
                } else {
                    self.active_workers + 1
                };
            },
            ConsumerEvent::WorkerFinished => {
                self.active_workers = if self.active_workers == 0 {
                    usize::MAX
                } else {
                    self.active_workers - 1
                };
            },
        }
    }

    /// The URL to connect to.
    pub fn amqp_url(&self) -> (r: String)
        ensures
            r@ == amqp_url_spec(self.settings()),
            r@ == "amqp://"@ + self.settings().username@ + ":"@ + self.settings().password@ + "@"@
                + self.settings().host@ + ":"@ + decimal(self.settings().port as nat) + "//"@,
    {
        let port = decimal_string(self.config.port as u64);
        let mut url = join3("amqp://", self.config.username.as_str(), ":");
        url.append(self.config.password.as_str());
        url.append("@");
        url.append(self.config.host.as_str());
        url.append(":");
        url.append(port.as_str());
        url.append("/");
        url.append("/");
        proof {
            reveal_strlit("/");
            reveal_strlit("//");
            assert(url@ =~= "amqp://"@ + self.settings().username@ + ":"@ + self.settings().password@ + "@"@
                + self.settings().host@ + ":"@ + decimal(self.settings().port as nat) + "//"@);
        }
        url
    }

    /// The options with which the queue is consumed: the configured queue,
    /// prefetch count and scope; manual acknowledgement; as many workers as
    /// the configured concurrency and twice as many buffered messages.
    pub fn consumer_settings(&self) -> (r: ConsumerSettings)
        ensures
            r.queue_name@ == self.settings().queue_name@,
            r.consumer_tag@ == "rabbitmq-consumer"@,
            r.prefetch_count == self.settings().prefetch_count,
            r.prefetch_global == self.settings().global,
            !r.no_ack && !r.exclusive && !r.no_local && !r.nowait,
            r.max_workers == self.settings().concurrent as usize,
            r.buffer_size == 2 * (self.settings().concurrent as usize),
    {
        let max_workers = self.config.concurrent as usize;
        ConsumerSettings {
            queue_name: self.config.queue_name.clone(),
            consumer_tag: String::from_str("rabbitmq-consumer"),
            prefetch_count: self.config.prefetch_count,
            prefetch_global: self.config.global,
            no_ack: false,
            exclusive: false,
            no_local: false,
            nowait: false,
            max_workers,
            buffer_size: max_workers * 2,
        }
    }

    /// Whether disconnecting should wait another round for busy workers:
    /// while some are busy, for at most fifty rounds.
    pub fn should_wait_for_workers(&self, rounds_waited: u32) -> (r: bool)
        ensures
            r == (self@.active_workers > 0 && rounds_waited < MAX_WORKER_WAIT_ROUNDS),
    {
        self.active_workers > 0 && rounds_waited < MAX_WORKER_WAIT_ROUNDS
    }

    /// Checks that an acknowledgement can be sent.
    pub fn ack_channel(&self) -> (r: Result<(), AppError>)
        ensures
            match r {
                Ok(()) => self@.channel_open,
                Err(e) => !self@.channel_open && e@ == no_ack_channel_error(),
            },
    {
        if self.channel_open {
            Ok(())
        } else {
            Err(AppError::message_processing("Channel not available"))
        }
    }

    /// Checks that consuming can start.
    pub fn consume_channel(&self) -> (r: Result<(), AppError>)
        ensures
            match r {
                Ok(()) => self@.channel_open,
                Err(e) => !self@.channel_open && e@ == no_consume_channel_error(),
            },
    {
        if self.channel_open {
            Ok(())
        } else {
            Err(AppError::message_processing("Channel not initialized"))
        }
    }

    /// The result of an acknowledgement, given the broker's error text if it
    /// failed.
    pub fn ack_result(&self, failure: Option<String>) -> (r: Result<(), AppError>)
        ensures
            match failure {
                Some(text) => r matches Err(e) && e@ == app_error(ErrorKind::MessageProcessing, "ACK failed: "@ + text@),
                None => r is Ok,
            },
    {
        match failure {
            Some(text) => Err(AppError::message_processing(join2("ACK failed: ", text.as_str()).as_str())),
            None => Ok(()),
        }
    }

    /// The result of a negative acknowledgement, given the broker's error
    /// text if it failed.
    pub fn nack_result(&self, failure: Option<String>) -> (r: Result<(), AppError>)
        ensures
            match failure {
                Some(text) => r matches Err(e) && e@ == app_error(ErrorKind::MessageProcessing, "NACK failed: "@ + text@),
                None => r is Ok,
            },
    {
        match failure {
            Some(text) => Err(AppError::message_processing(join2("NACK failed: ", text.as_str()).as_str())),
            None => Ok(()),
        }
    }

    /// What to do with the next item of the delivery stream, given whether
    /// it is a delivery or an error.
    pub fn delivery_action(&self, delivery_ok: bool) -> (r: DeliveryAction)
        ensures
            r == delivery_action_spec(self@, delivery_ok),
            self@.shutting_down ==> r is Stop,
            !self@.shutting_down && delivery_ok ==> r is SpawnWorker,
            !self@.shutting_down && !delivery_ok ==> r == (DeliveryAction::PauseMillis { millis: 1000 }),
    {
        if self.is_shutting_down {
            DeliveryAction::Stop
        } else if delivery_ok {
            DeliveryAction::SpawnWorker
        } else {
            DeliveryAction::PauseMillis { millis: 1000 }
        }
    }
}

impl ProcessedMessage {
    /// A delivery ready for processing, under a fresh request id.
    pub fn new(message: QueueMessage, delivery_tag: u64) -> (r: ProcessedMessage)
        ensures
            r.message == message,
            r.delivery_tag == delivery_tag,
            r.request_id@.len() == 40,
            r.request_id@.subrange(0, 4) == "req-"@,
            is_uuid_v4_text(r.request_id@.subrange(4, 40)),
    {
        ProcessedMessage { message, delivery_tag, request_id: new_request_id() }
    }
}

} // verus!
