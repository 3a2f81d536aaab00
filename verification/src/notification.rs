use crate::bytes::{fmt_u64, opt_bytes_view, push_all, seq_views};
use crate::grafana::Priority;
use crate::text;
use vstd::prelude::*;

verus! {

/// Why a notification could not be built. The limits are the ones the
/// prowl API imposes, so that every built notification is deliverable.
#[derive(Debug, Clone, Copy, PartialEq, Eq, Structural)]
pub enum CreationError {
    /// URL length is over the maximum of 512 bytes.
    InvalidUrlLength(usize),
    /// Application label length is over the maximum of 256 bytes.
    ApplicationLength(usize),
    /// Event title length is over the maximum of 1024 bytes.
    EventLength(usize),
    /// Description length is over the maximum of 10000 bytes.
    DescriptionLength(usize),
}

/// The plain-text rendering of a creation failure.
pub open spec fn spec_creation_error_text(e: CreationError) -> Seq<u8> {
    match e {
        CreationError::InvalidUrlLength(n) => text::spec_err_url_length() + crate::bytes::dec_digits(
            n as nat,
        ) + text::spec_period(),
        CreationError::ApplicationLength(n) => text::spec_err_application_length()
            + crate::bytes::dec_digits(n as nat) + text::spec_period(),
        CreationError::EventLength(n) => text::spec_err_event_length() + crate::bytes::dec_digits(
            n as nat,
        ) + text::spec_period(),
        CreationError::DescriptionLength(n) => text::spec_err_description_length()
            + crate::bytes::dec_digits(n as nat) + text::spec_period(),
    }
}

impl CreationError {
    /// Renders the failure as plain text.
    pub fn describe(&self) -> (r: Vec<u8>)
        ensures
            r@ == spec_creation_error_text(*self),
    {
        let (mut r, n): (Vec<u8>, usize) = match self {
            CreationError::InvalidUrlLength(n) => (text::err_url_length(), *n),
            CreationError::ApplicationLength(n) => (text::err_application_length(), *n),
            CreationError::EventLength(n) => (text::err_event_length(), *n),
            CreationError::DescriptionLength(n) => (text::err_description_length(), *n),
        };
        let digits = fmt_u64(n as u64);
        push_all(&mut r, digits.as_slice());
        let tail = text::period();
        push_all(&mut r, tail.as_slice());
        r
    }
}

/// Why an alert's notification never reached the delivery queue.
#[derive(Debug, Clone, Copy, PartialEq, Eq, Structural)]
pub enum AddNotificationError {
    /// Building the notification failed validation.
    Creation(CreationError),
    /// The delivery queue no longer accepts notifications.
    Queue,
}

/// The plain-text rendering of an enqueueing failure.
pub open spec fn spec_add_notification_error_text(e: AddNotificationError) -> Seq<u8> {
    match e {
        AddNotificationError::Creation(c) => text::spec_err_creation() + spec_creation_error_text(
            c,
        ),
        AddNotificationError::Queue => text::spec_err_queue_send(),
    }
}

impl AddNotificationError {
    /// Renders the failure as plain text.
    pub fn describe(&self) -> (r: Vec<u8>)
        ensures
            r@ == spec_add_notification_error_text(*self),
    {
        match self {
            AddNotificationError::Creation(c) => {
                let mut r = text::err_creation();
                let inner = c.describe();
                push_all(&mut r, inner.as_slice());
                r
            },
            AddNotificationError::Queue => text::err_queue_send(),
        }
    }
}

/// An outbound push notification, validated against the provider's limits.
#[derive(Debug)]
pub struct Notification {
    pub api_keys: Vec<Vec<u8>>,
    pub priority: Option<Priority>,
    pub url: Option<Vec<u8>>,
    pub application: Vec<u8>,
    pub event: Vec<u8>,
    pub description: Vec<u8>,
}

/// The mathematical content of a notification.
pub ghost struct NotificationV {
    pub api_keys: Seq<Seq<u8>>,
    pub priority: Option<Priority>,
    pub url: Option<Seq<u8>>,
    pub application: Seq<u8>,
    pub event: Seq<u8>,
    pub description: Seq<u8>,
}

impl View for Notification {
    type V = NotificationV;

    open spec fn view(&self) -> NotificationV {
        NotificationV {
            api_keys: seq_views(self.api_keys@),
            priority: self.priority,
            url: opt_bytes_view(self.url),
            application: self.application@,
            event: self.event@,
            description: self.description@,
        }
    }
}

/// The validation a notification must pass, in the order the checks are
/// made: the application label, event title, description and URL must not
/// exceed the provider's documented length limits.
pub open spec fn spec_validate(
    url: Option<Seq<u8>>,
    application: Seq<u8>,
    event: Seq<u8>,
    description: Seq<u8>,
) -> Result<(), CreationError> {
    if application.len() > 256 {
        Err(CreationError::ApplicationLength(application.len() as usize))
    } else if event.len() > 1024 {
        Err(CreationError::EventLength(event.len() as usize))
    } else if description.len() > 10000 {
        Err(CreationError::DescriptionLength(description.len() as usize))
    } else if url is Some && url.unwrap().len() > 512 {
        Err(CreationError::InvalidUrlLength(url.unwrap().len() as usize))
    } else {
        Ok(())
    }
}

impl Notification {
    /// Builds a notification, applying the same validation that
    /// `prowl::Notification::new` applies, so that a value of this type
    /// always converts into a deliverable prowl notification.
    pub fn new(
        api_keys: Vec<Vec<u8>>,
        priority: Option<Priority>,
        url: Option<Vec<u8>>,
        application: Vec<u8>,
        event: Vec<u8>,
        description: Vec<u8>,
    ) -> (r: Result<Notification, CreationError>)
        ensures
            match r {
                Ok(n) => spec_validate(
                    opt_bytes_view(url),
                    application@,
                    event@,
                    description@,
                ) is Ok && n@ == (NotificationV {
                    api_keys: seq_views(api_keys@),
                    priority,
                    url: opt_bytes_view(url),
                    application: application@,
                    event: event@,
                    description: description@,
                }),
                Err(e) => spec_validate(opt_bytes_view(url), application@, event@, description@)
                    == Err::<(), CreationError>(e),
            },
    {
        if application.len() > 256 {
            return Err(CreationError::ApplicationLength(application.len()));
        }
        if event.len() > 1024 {
            return Err(CreationError::EventLength(event.len()));
        }
        if description.len() > 10000 {
            return Err(CreationError::DescriptionLength(description.len()));
        }
        if let Some(ref u) = url {
            if u.len() > 512 {
                return Err(CreationError::InvalidUrlLength(u.len()));
            }
        }
        Ok(Notification { api_keys, priority, url, application, event, description })
    }

    /// The recipients' credentials.
    pub fn api_keys(&self) -> (r: &Vec<Vec<u8>>)
        ensures
            seq_views(r@) == seq_views(self.api_keys@),
    {
        &self.api_keys
    }

    /// The notification's severity, if any.
    pub fn priority(&self) -> (r: &Option<Priority>)
        ensures
            r == &self.priority,
    {
        &self.priority
    }

    /// The notification's origin URL, if any.
    pub fn url(&self) -> (r: &Option<Vec<u8>>)
        ensures
            opt_bytes_view(*r) == opt_bytes_view(self.url),
    {
        &self.url
    }

    /// The application label.
    pub fn application(&self) -> (r: &Vec<u8>)
        ensures
            r@ == self.application@,
    {
        &self.application
    }

    /// The event title.
    pub fn event(&self) -> (r: &Vec<u8>)
        ensures
            r@ == self.event@,
    {
        &self.event
    }

    /// The event description.
    pub fn description(&self) -> (r: &Vec<u8>)
        ensures
            r@ == self.description@,
    {
        &self.description
    }
}

/// The views of a sequence of notifications.
pub open spec fn notif_views(s: Seq<Notification>) -> Seq<NotificationV> {
    Seq::new(s.len(), |i: int| s[i]@)
}

/// The ordered, unbounded queue of outbound notifications. Producers
/// append; one worker drains from the front. Once closed, nothing more is
/// accepted.
#[derive(Debug)]
pub struct DeliveryQueue {
    pub items: Vec<Notification>,
    pub closed: bool,
}

impl View for DeliveryQueue {
    type V = Seq<NotificationV>;

    open spec fn view(&self) -> Seq<NotificationV> {
        notif_views(self.items@)
    }
}

impl DeliveryQueue {
    /// An open, empty queue.
    pub fn new() -> (r: DeliveryQueue)
        ensures
            r@ =~= Seq::<NotificationV>::empty(),
            !r.closed,
    {
        DeliveryQueue { items: Vec::new(), closed: false }
    }

    /// Appends a notification, unless the queue is closed. The producer
    /// learns nothing of delivery: enqueueing is fire-and-forget.
    pub fn send(&mut self, n: Notification) -> (r: Result<(), AddNotificationError>)
        ensures
            final(self).closed == old(self).closed,
            old(self).closed ==> r == Err::<(), AddNotificationError>(AddNotificationError::Queue)
                && final(self)@ == old(self)@,
            !old(self).closed ==> r == Ok::<(), AddNotificationError>(()) && final(self)@ == old(
                self,
            )@.push(n@),
    {
        if self.closed {
            return Err(AddNotificationError::Queue);
        }
        let ghost before = self@;
        self.items.push(n);
        proof {
            assert(self@ =~= before.push(n@));
        }
        Ok(())
    }

    /// Takes the notification at the head of the queue, if there is one.
    pub fn recv(&mut self) -> (r: Option<Notification>)
        ensures
            final(self).closed == old(self).closed,
            match r {
                Some(n) => old(self)@.len() > 0 && n@ == old(self)@[0] && final(self)@ == old(
                    self,
                )@.drop_first(),
                None => old(self)@.len() == 0 && final(self)@ == old(self)@,
            },
    {
        if self.items.len() == 0 {
            return None;
        }
        let ghost before = self@;
        let n = self.items.remove(0);
        proof {
            assert(self@ =~= before.drop_first());
        }
        Some(n)
    }

    /// The number of queued notifications.
    pub fn len(&self) -> (r: usize)
        ensures
            r == self@.len(),
    {
        self.items.len()
    }

    /// Closes the queue: every later `send` fails.
    pub fn close(&mut self)
        ensures
            final(self).closed,
            final(self)@ == old(self)@,
    {
        self.closed = true;
        proof {
            assert(self@ =~= old(self)@);
        }
    }
}

/// Where the delivery worker stands with the notification at the head of
/// the queue: between items, mid-submission, pacing after a success, or
/// backing off after a failure with the same notification retained.
#[derive(Debug)]
pub enum DeliveryState {
    /// Waiting for the next queued notification.
    Idle,
    /// A submission of this notification is in flight.
    Sending(Notification),
    /// The last submission succeeded; waiting out the pacing delay.
    Pacing,
    /// The last submission failed; waiting out the retry delay before
    /// submitting the very same notification again.
    BackingOff(Notification),
    /// The queue is closed and drained; the worker is done.
    Stopped,
}

/// The mathematical content of a worker state.
pub ghost enum DeliveryStateV {
    Idle,
    Sending(NotificationV),
    Pacing,
    BackingOff(NotificationV),
    Stopped,
}

/// A spec-level view of a worker state.
pub open spec fn delivery_state_view(s: &DeliveryState) -> DeliveryStateV {
    match s {
        DeliveryState::Idle => DeliveryStateV::Idle,
        DeliveryState::Sending(n) => DeliveryStateV::Sending(n@),
        DeliveryState::Pacing => DeliveryStateV::Pacing,
        DeliveryState::BackingOff(n) => DeliveryStateV::BackingOff(n@),
        DeliveryState::Stopped => DeliveryStateV::Stopped,
    }
}

/// What the worker observed: a dequeued notification, a closed and empty
/// queue, the outcome of a submission, or an elapsed sleep.
#[derive(Debug)]
pub enum DeliveryEvent {
    Received(Notification),
    QueueClosed,
    SubmitSucceeded,
    SubmitFailed,
    Waited,
}

/// The mathematical content of a worker event.
pub ghost enum DeliveryEventV {
    Received(NotificationV),
    QueueClosed,
    SubmitSucceeded,
    SubmitFailed,
    Waited,
}

/// A spec-level view of a worker event.
pub open spec fn delivery_event_view(e: &DeliveryEvent) -> DeliveryEventV {
    match e {
        DeliveryEvent::Received(n) => DeliveryEventV::Received(n@),
        DeliveryEvent::QueueClosed => DeliveryEventV::QueueClosed,
        DeliveryEvent::SubmitSucceeded => DeliveryEventV::SubmitSucceeded,
        DeliveryEvent::SubmitFailed => DeliveryEventV::SubmitFailed,
        DeliveryEvent::Waited => DeliveryEventV::Waited,
    }
}

/// What the worker should do next.
#[derive(Debug, Clone, Copy, PartialEq, Eq, Structural)]
pub enum DeliveryAction {
    /// Take the next notification from the queue.
    Receive,
    /// Submit the notification held in the state.
    Submit,
    /// Sleep the pacing delay.
    SleepPacing,
    /// Sleep the retry delay.
    SleepRetry,
    /// Stop the worker.
    Stop,
}

/// Which events a state can observe.
pub open spec fn spec_step_allowed(s: DeliveryStateV, e: DeliveryEventV) -> bool {
    match (s, e) {
        (DeliveryStateV::Idle, DeliveryEventV::Received(_)) => true,
        (DeliveryStateV::Idle, DeliveryEventV::QueueClosed) => true,
        (DeliveryStateV::Sending(_), DeliveryEventV::SubmitSucceeded) => true,
        (DeliveryStateV::Sending(_), DeliveryEventV::SubmitFailed) => true,
        (DeliveryStateV::BackingOff(_), DeliveryEventV::Waited) => true,
        (DeliveryStateV::Pacing, DeliveryEventV::Waited) => true,
        _ => false,
    }
}

/// The worker's transition relation. A failed submission keeps the very
/// same notification and retries it after the delay: nothing is ever
/// discarded, at the price of head-of-line blocking while one recipient
/// keeps failing.
pub open spec fn spec_delivery_step(s: DeliveryStateV, e: DeliveryEventV) -> (
    DeliveryStateV,
    DeliveryAction,
) {
    match (s, e) {
        (DeliveryStateV::Idle, DeliveryEventV::Received(n)) => (
            DeliveryStateV::Sending(n),
            DeliveryAction::Submit,
        ),
        (DeliveryStateV::Idle, DeliveryEventV::QueueClosed) => (
            DeliveryStateV::Stopped,
            DeliveryAction::Stop,
        ),
        (DeliveryStateV::Sending(n), DeliveryEventV::SubmitSucceeded) => (
            DeliveryStateV::Pacing,
            DeliveryAction::SleepPacing,
        ),
        (DeliveryStateV::Sending(n), DeliveryEventV::SubmitFailed) => (
            DeliveryStateV::BackingOff(n),
            DeliveryAction::SleepRetry,
        ),
        (DeliveryStateV::BackingOff(n), DeliveryEventV::Waited) => (
            DeliveryStateV::Sending(n),
            DeliveryAction::Submit,
        ),
        (DeliveryStateV::Pacing, DeliveryEventV::Waited) => (
            DeliveryStateV::Idle,
            DeliveryAction::Receive,
        ),
        _ => (DeliveryStateV::Stopped, DeliveryAction::Stop),
    }
}

/// Advances the delivery worker by one observed event.
pub fn delivery_step(state: DeliveryState, event: DeliveryEvent) -> (r: (
    DeliveryState,
    DeliveryAction,
))
    requires
        spec_step_allowed(delivery_state_view(&state), delivery_event_view(&event)),
    ensures
        (delivery_state_view(&r.0), r.1) == spec_delivery_step(
            delivery_state_view(&state),
            delivery_event_view(&event),
        ),
{
    match (state, event) {
        (DeliveryState::Idle, DeliveryEvent::Received(n)) => (
            DeliveryState::Sending(n),
            DeliveryAction::Submit,
        ),
        (DeliveryState::Idle, DeliveryEvent::QueueClosed) => (
            DeliveryState::Stopped,
            DeliveryAction::Stop,
        ),
        (DeliveryState::Sending(n), DeliveryEvent::SubmitSucceeded) => (
            DeliveryState::Pacing,
            DeliveryAction::SleepPacing,
        ),
        (DeliveryState::Sending(n), DeliveryEvent::SubmitFailed) => (
            DeliveryState::BackingOff(n),
            DeliveryAction::SleepRetry,
        ),
        (DeliveryState::BackingOff(n), DeliveryEvent::Waited) => (
            DeliveryState::Sending(n),
            DeliveryAction::Submit,
        ),
        (DeliveryState::Pacing, DeliveryEvent::Waited) => (
            DeliveryState::Idle,
            DeliveryAction::Receive,
        ),
        (_, _) => (DeliveryState::Stopped, DeliveryAction::Stop),
    }
}

/// A failed submission never loses the in-flight notification: after any
/// failure and the retry wait, the worker submits the same notification.
pub proof fn lemma_retry_keeps_notification(n: NotificationV)
    ensures
        spec_delivery_step(DeliveryStateV::Sending(n), DeliveryEventV::SubmitFailed).0
            == DeliveryStateV::BackingOff(n),
        spec_delivery_step(DeliveryStateV::BackingOff(n), DeliveryEventV::Waited) == (
            DeliveryStateV::Sending(n),
            DeliveryAction::Submit,
        ),
{
}

} // verus!
