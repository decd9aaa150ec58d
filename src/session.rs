use vstd::prelude::*;

use crate::command::{dispatch_of, run_command, Dispatch};
use crate::config::{CHARACTERISTIC_UUID, ESP32_NAME, RETRY_DELAY_SECS, SERVICE_UUID};
use crate::payload::{notification_code, notification_code_of, parse_i32, trimmed};
use vstd::utf8::{decode_utf8, valid_utf8};

verus! {

/// Why a session attempt ended early.
#[derive(Clone, Copy, Debug, PartialEq, Eq, Structural)]
pub enum SessionError {
    NoAdapter,
    PeripheralNotFound,
    Connection,
    ServiceNotFound,
    CharacteristicNotFound,
    Subscription,
    StatusQuery,
}

impl SessionError {
    /// The text reported for the error.
    pub open spec fn message_spec(self) -> Seq<char> {
        match self {
            SessionError::NoAdapter => "No Bluetooth adapters found"@,
            SessionError::PeripheralNotFound => "ESP32_Remote not found"@,
            SessionError::Connection => "Connection failed"@,
            SessionError::ServiceNotFound => "Service not found"@,
            SessionError::CharacteristicNotFound => "Characteristic not found"@,
            SessionError::Subscription => "Subscription failed"@,
            SessionError::StatusQuery => "Connection status query failed"@,
        }
    }

    pub fn message(&self) -> (r: &'static str)
        ensures
            r@ == self.message_spec(),
    {
        match self {
            SessionError::NoAdapter => "No Bluetooth adapters found",
            SessionError::PeripheralNotFound => "ESP32_Remote not found",
            SessionError::Connection => "Connection failed",
            SessionError::ServiceNotFound => "Service not found",
            SessionError::CharacteristicNotFound => "Characteristic not found",
            SessionError::Subscription => "Subscription failed",
            SessionError::StatusQuery => "Connection status query failed",
        }
    }
}

/// A discovered GATT service: its identifier and those of its characteristics.
pub struct ServiceInfo {
    pub uuid: u128,
    pub characteristics: Vec<u128>,
}

/// What the Bluetooth side reports back after performing a step.
pub enum Event {
    /// The number of adapters found.
    Adapters(usize),
    ScanStarted,
    /// The scan settle period has passed.
    Settled,
    /// The advertised local name of each known peripheral, if it has one.
    Peripherals(Vec<Option<String>>),
    /// The answer to a connection-status query.
    LinkStatus(bool),
    Connected,
    /// The services discovered on the peripheral.
    Services(Vec<ServiceInfo>),
    Subscribed,
    FeedOpened,
    /// A notification: the characteristic it comes from and its payload.
    Notification(u128, Vec<u8>),
    /// A received code has been handled.
    Delivered,
    /// The check interval passed without a notification.
    TimerElapsed,
    /// The outside call of the current step returned an error.
    CallFailed,
}

/// The step a session asks to be performed next.
#[derive(Clone, Copy, Debug, PartialEq, Eq, Structural)]
pub enum Step {
    /// Open the Bluetooth manager and list its adapters.
    FindAdapter,
    /// Start an unfiltered scan on the first adapter.
    StartScan,
    /// Wait for the scan settle period.
    Settle,
    /// List the peripherals the scan has seen.
    ListPeripherals,
    /// Ask whether the peripheral at this index of the list is connected.
    CheckLink(usize),
    /// Connect to the chosen peripheral.
    Connect,
    /// Discover the peripheral's services and report them.
    DiscoverServices,
    /// Subscribe to the characteristic at these indices of the reported services.
    Subscribe(usize, usize),
    /// Open the notification feed.
    OpenFeed,
    /// Wait for a notification or for the check interval, whichever comes first.
    Listen,
    /// Report a received code and carry out its dispatch.
    Deliver(i32, Dispatch),
    /// Ask whether the peripheral is still connected.
    QueryStatus,
    /// The peripheral disconnected: the session is over, normally.
    Closed,
    /// The session is over because of an error.
    Failed(SessionError),
}

/// Whether a peripheral's advertised name is the remote's.
pub open spec fn is_target(name: Option<String>) -> bool {
    name matches Some(n) && n@ == ESP32_NAME@
}

/// The first index from `i` on whose name is the remote's.
pub open spec fn first_target_from(names: Seq<Option<String>>, i: int) -> Option<int>
    decreases names.len() - i,
{
    if i < 0 || i >= names.len() {
        None
    } else if is_target(names[i]) {
        Some(i)
    } else {
        first_target_from(names, i + 1)
    }
}

/// The first index from `i` on of a service with the command service's identifier.
pub open spec fn first_service_from(services: Seq<ServiceInfo>, i: int) -> Option<int>
    decreases services.len() - i,
{
    if i < 0 || i >= services.len() {
        None
    } else if services[i].uuid == SERVICE_UUID {
        Some(i)
    } else {
        first_service_from(services, i + 1)
    }
}

/// The first index from `i` on that holds `id`.
pub open spec fn first_index_from(ids: Seq<u128>, id: u128, i: int) -> Option<int>
    decreases ids.len() - i,
{
    if i < 0 || i >= ids.len() {
        None
    } else if ids[i] == id {
        Some(i)
    } else {
        first_index_from(ids, id, i + 1)
    }
}

pub open spec fn as_index(r: Option<usize>) -> Option<int> {
    match r {
        Some(i) => Some(i as int),
        None => None,
    }
}

/// The step after services are reported: subscribe to the command characteristic of
/// the command service, or fail for want of either.
pub open spec fn discovery_step(services: Seq<ServiceInfo>) -> Step {
    match first_service_from(services, 0) {
        None => Step::Failed(SessionError::ServiceNotFound),
        Some(si) => match first_index_from(services[si].characteristics@, CHARACTERISTIC_UUID, 0) {
            None => Step::Failed(SessionError::CharacteristicNotFound),
            Some(ci) => Step::Subscribe(si as usize, ci as usize),
        },
    }
}

/// The error a failed outside call ends the session with, for the steps that make one.
pub open spec fn failure_of(s: Step) -> Option<SessionError> {
    match s {
        Step::FindAdapter | Step::StartScan => Some(SessionError::NoAdapter),
        Step::ListPeripherals => Some(SessionError::PeripheralNotFound),
        Step::CheckLink(_) | Step::Connect | Step::DiscoverServices => Some(
            SessionError::Connection,
        ),
        Step::Subscribe(_, _) | Step::OpenFeed => Some(SessionError::Subscription),
        Step::QueryStatus => Some(SessionError::StatusQuery),
        _ => None,
    }
}

/// The session's transition: the step that follows `s` once `e` is reported.
/// An event that does not answer the current step leaves it as it is.
pub open spec fn next(s: Step, e: Event) -> Step {
    match e {
        Event::CallFailed => match failure_of(s) {
            Some(err) => Step::Failed(err),
            None => s,
        },
        Event::Adapters(n) => if s == Step::FindAdapter {
            if n == 0 {
                Step::Failed(SessionError::NoAdapter)
            } else {
                Step::StartScan
            }
        } else {
            s
        },
        Event::ScanStarted => if s == Step::StartScan {
            Step::Settle
        } else {
            s
        },
        Event::Settled => if s == Step::Settle {
            Step::ListPeripherals
        } else {
            s
        },
        Event::Peripherals(names) => if s == Step::ListPeripherals {
            match first_target_from(names@, 0) {
                Some(i) => Step::CheckLink(i as usize),
                None => Step::Failed(SessionError::PeripheralNotFound),
            }
        } else {
            s
        },
        Event::LinkStatus(up) => match s {
            Step::CheckLink(_) => if up {
                Step::DiscoverServices
            } else {
                Step::Connect
            },
            Step::QueryStatus => if up {
                Step::Listen
            } else {
                Step::Closed
            },
            _ => s,
        },
        Event::Connected => if s == Step::Connect {
            Step::DiscoverServices
        } else {
            s
        },
        Event::Services(services) => if s == Step::DiscoverServices {
            discovery_step(services@)
        } else {
            s
        },
        Event::Subscribed => if s is Subscribe {
            Step::OpenFeed
        } else {
            s
        },
        Event::FeedOpened => if s == Step::OpenFeed {
            Step::Listen
        } else {
            s
        },
        Event::Notification(source, payload) => if s == Step::Listen {
            match notification_code(source, payload@) {
                Some(code) => Step::Deliver(code, dispatch_of(code)),
                None => Step::Listen,
            }
        } else {
            s
        },
        Event::Delivered => if s is Deliver {
            Step::Listen
        } else {
            s
        },
        Event::TimerElapsed => if s == Step::Listen {
            Step::QueryStatus
        } else {
            s
        },
    }
}

/// Whether the session is over.
pub open spec fn is_over(s: Step) -> bool {
    s is Closed || s is Failed
}

/// Whether `e` is a report that performing step `s` can produce.
pub open spec fn answers(s: Step, e: Event) -> bool {
    match s {
        Step::FindAdapter => e is Adapters || e is CallFailed,
        Step::StartScan => e is ScanStarted || e is CallFailed,
        Step::Settle => e is Settled,
        Step::ListPeripherals => e is Peripherals || e is CallFailed,
        Step::CheckLink(_) => e is LinkStatus || e is CallFailed,
        Step::Connect => e is Connected || e is CallFailed,
        Step::DiscoverServices => e is Services || e is CallFailed,
        Step::Subscribe(_, _) => e is Subscribed || e is CallFailed,
        Step::OpenFeed => e is FeedOpened || e is CallFailed,
        Step::Listen => e is Notification || e is TimerElapsed,
        Step::Deliver(_, _) => e is Delivered,
        Step::QueryStatus => e is LinkStatus || e is CallFailed,
        Step::Closed | Step::Failed(_) => false,
    }
}

/// The step reached from `s` once `events` are reported in turn.
pub open spec fn run(s: Step, events: Seq<Event>) -> Step
    decreases events.len(),
{
    if events.len() == 0 {
        s
    } else {
        run(next(s, events[0]), events.drop_first())
    }
}

/// Whether each of `events`, reported in turn from `s`, answers the step it follows.
pub open spec fn answered(s: Step, events: Seq<Event>) -> bool
    decreases events.len(),
{
    events.len() == 0 || (answers(s, events[0]) && answered(next(s, events[0]), events.drop_first()))
}

/// How far establishment has come: the steps before listening count up from 0;
/// every later step counts as 9.
pub open spec fn establishment_rank(s: Step) -> int {
    match s {
        Step::FindAdapter => 0,
        Step::StartScan => 1,
        Step::Settle => 2,
        Step::ListPeripherals => 3,
        Step::CheckLink(_) => 4,
        Step::Connect => 5,
        Step::DiscoverServices => 6,
        Step::Subscribe(_, _) => 7,
        Step::OpenFeed => 8,
        _ => 9,
    }
}

/// Whether the session is still being established.
pub open spec fn is_establishing(s: Step) -> bool {
    establishment_rank(s) < 9
}

proof fn lemma_no_target(names: Seq<Option<String>>, i: int)
    requires
        forall|k: int| 0 <= k < names.len() ==> !is_target(#[trigger] names[k]),
    ensures
        first_target_from(names, i) is None,
    decreases names.len() - i,
{
    if 0 <= i < names.len() {
        lemma_no_target(names, i + 1);
    }
}

proof fn lemma_no_service(services: Seq<ServiceInfo>, i: int)
    requires
        forall|k: int| 0 <= k < services.len() ==> (#[trigger] services[k]).uuid != SERVICE_UUID,
    ensures
        first_service_from(services, i) is None,
    decreases services.len() - i,
{
    if 0 <= i < services.len() {
        lemma_no_service(services, i + 1);
    }
}

proof fn lemma_service_found(services: Seq<ServiceInfo>, i: int)
    ensures
        first_service_from(services, i) matches Some(k) ==> 0 <= k < services.len()
            && services[k].uuid == SERVICE_UUID,
    decreases services.len() - i,
{
    if 0 <= i < services.len() {
        lemma_service_found(services, i + 1);
    }
}

proof fn lemma_absent_id(ids: Seq<u128>, id: u128, i: int)
    requires
        forall|k: int| 0 <= k < ids.len() ==> #[trigger] ids[k] != id,
    ensures
        first_index_from(ids, id, i) is None,
    decreases ids.len() - i,
{
    if 0 <= i < ids.len() {
        lemma_absent_id(ids, id, i + 1);
    }
}

/// A notification from any characteristic but the command characteristic is
/// ignored, whatever its payload: the session keeps listening.
pub proof fn foreign_notification_ignored(source: u128, payload: Vec<u8>)
    requires
        source != CHARACTERISTIC_UUID,
    ensures
        next(Step::Listen, Event::Notification(source, payload)) == Step::Listen,
{
}

/// A notification whose payload is not UTF-8, or whose trimmed text is not a
/// decimal `i32`, dispatches nothing: the session keeps listening.
pub proof fn malformed_payload_ignored(source: u128, payload: Vec<u8>)
    requires
        !valid_utf8(payload@) || parse_i32(trimmed(decode_utf8(payload@))) is None,
    ensures
        next(Step::Listen, Event::Notification(source, payload)) == Step::Listen,
{
}

/// A well-formed notification on the command characteristic is delivered once,
/// with the dispatch its code selects, and then the session listens again.
pub proof fn notification_delivered_once(payload: Vec<u8>, code: i32)
    requires
        valid_utf8(payload@),
        parse_i32(trimmed(decode_utf8(payload@))) == Some(code),
    ensures
        next(Step::Listen, Event::Notification(CHARACTERISTIC_UUID, payload)) == Step::Deliver(
            code,
            dispatch_of(code),
        ),
        next(Step::Deliver(code, dispatch_of(code)), Event::Delivered) == Step::Listen,
{
}

/// Establishment fails at once when there is no adapter, when no peripheral has
/// the remote's name, when no service has the command service's identifier, and
/// when no such service has the command characteristic.
pub proof fn establishment_fails_fast(names: Vec<Option<String>>, services: Vec<ServiceInfo>)
    ensures
        next(Step::FindAdapter, Event::Adapters(0)) == Step::Failed(SessionError::NoAdapter),
        (forall|k: int| 0 <= k < names@.len() ==> !is_target(#[trigger] names@[k])) ==> next(
            Step::ListPeripherals,
            Event::Peripherals(names),
        ) == Step::Failed(SessionError::PeripheralNotFound),
        (forall|k: int| 0 <= k < services@.len() ==> (#[trigger] services@[k]).uuid != SERVICE_UUID)
            ==> next(Step::DiscoverServices, Event::Services(services)) == Step::Failed(
            SessionError::ServiceNotFound,
        ),
        (exists|k: int| 0 <= k < services@.len() && (#[trigger] services@[k]).uuid == SERVICE_UUID)
            && (forall|k: int, j: int|
            0 <= k < services@.len() && services@[k].uuid == SERVICE_UUID && 0 <= j
                < services@[k].characteristics@.len() ==> #[trigger] services@[k].characteristics@[j]
                != CHARACTERISTIC_UUID) ==> next(Step::DiscoverServices, Event::Services(services))
            == Step::Failed(SessionError::CharacteristicNotFound),
{
    if forall|k: int| 0 <= k < names@.len() ==> !is_target(#[trigger] names@[k]) {
        lemma_no_target(names@, 0);
    }
    if forall|k: int| 0 <= k < services@.len() ==> (#[trigger] services@[k]).uuid != SERVICE_UUID {
        lemma_no_service(services@, 0);
    }
    lemma_service_found(services@, 0);
    match first_service_from(services@, 0) {
        Some(si) => {
            if forall|k: int, j: int|
                0 <= k < services@.len() && services@[k].uuid == SERVICE_UUID && 0 <= j
                    < services@[k].characteristics@.len() ==> #[trigger] services@[k].characteristics@[j]
                    != CHARACTERISTIC_UUID {
                assert(services@[si].uuid == SERVICE_UUID);
                lemma_absent_id(services@[si].characteristics@, CHARACTERISTIC_UUID, 0);
            }
        },
        None => {
            if exists|k: int|
                0 <= k < services@.len() && (#[trigger] services@[k]).uuid == SERVICE_UUID {
                let k = choose|k: int|
                    0 <= k < services@.len() && (#[trigger] services@[k]).uuid == SERVICE_UUID;
                lemma_first_service_exists(services@, 0, k);
            }
        },
    }
}

proof fn lemma_first_service_exists(services: Seq<ServiceInfo>, i: int, k: int)
    requires
        0 <= i <= k < services.len(),
        services[k].uuid == SERVICE_UUID,
    ensures
        first_service_from(services, i) is Some,
    decreases services.len() - i,
{
    if services[i].uuid != SERVICE_UUID {
        lemma_first_service_exists(services, i + 1, k);
    }
}

/// One answered step of establishment either fails or moves strictly forward.
proof fn lemma_establishment_step(s: Step, e: Event)
    requires
        is_establishing(s),
        answers(s, e),
    ensures
        next(s, e) is Failed || establishment_rank(next(s, e)) > establishment_rank(s),
{
    if s == Step::DiscoverServices && e is Services {
        let services = e->Services_0@;
        match first_service_from(services, 0) {
            None => {},
            Some(si) => {
                match first_index_from(services[si].characteristics@, CHARACTERISTIC_UUID, 0) {
                    None => {},
                    Some(ci) => {},
                }
            },
        }
    }
}

/// Once listening has begun, no event takes the session back into establishment.
proof fn lemma_stays_established(s: Step, e: Event)
    requires
        !is_establishing(s),
    ensures
        !is_establishing(next(s, e)),
{
}

/// Establishing a session never hangs: when each step's outside call is answered,
/// the session is listening or over after at most nine answers.
pub proof fn establishment_is_bounded(s: Step, events: Seq<Event>)
    requires
        answered(s, events),
        events.len() >= 9 - establishment_rank(s),
    ensures
        !is_establishing(run(s, events)),
    decreases events.len(),
{
    if events.len() > 0 {
        let e = events[0];
        if is_establishing(s) {
            lemma_establishment_step(s, e);
        } else {
            lemma_stays_established(s, e);
        }
        establishment_is_bounded(next(s, e), events.drop_first());
    }
}

/// A status query that reports the link down ends the session normally, not as
/// an error; one that fails ends it with a status-query error; an ended session
/// stays ended whatever is reported.
pub proof fn disconnect_ends_session(e: Event)
    ensures
        next(Step::QueryStatus, Event::LinkStatus(false)) == Step::Closed,
        next(Step::QueryStatus, Event::CallFailed) == Step::Failed(SessionError::StatusQuery),
        is_over(Step::Closed),
        next(Step::Closed, e) == Step::Closed,
        forall|err: SessionError| next(Step::Failed(err), e) == Step::Failed(err),
{
}

/// Finds the remote among the named peripherals.
fn find_target(names: &Vec<Option<String>>) -> (r: Option<usize>)
    ensures
        as_index(r) == first_target_from(names@, 0),
{
    let target = ESP32_NAME.to_owned();
    let mut i: usize = 0;
    while i < names.len()
        invariant
            i <= names@.len(),
            target@ == ESP32_NAME@,
            first_target_from(names@, 0) == first_target_from(names@, i as int),
        decreases names@.len() - i,
    {
        match &names[i] {
            Some(n) => {
                if n.eq(&target) {
                    return Some(i);
                }
            },
            None => {},
        }
        i = i + 1;
    }
    None
}

/// Finds the command service among the reported services.
fn find_service(services: &Vec<ServiceInfo>) -> (r: Option<usize>)
    ensures
        as_index(r) == first_service_from(services@, 0),
        r matches Some(i) ==> i < services@.len(),
{
    let mut i: usize = 0;
    while i < services.len()
        invariant
            i <= services@.len(),
            first_service_from(services@, 0) == first_service_from(services@, i as int),
        decreases services@.len() - i,
    {
        if services[i].uuid == SERVICE_UUID {
            return Some(i);
        }
        i = i + 1;
    }
    None
}

/// Finds the first position of `id` in `ids`.
fn position_of(ids: &Vec<u128>, id: u128) -> (r: Option<usize>)
    ensures
        as_index(r) == first_index_from(ids@, id, 0),
{
    let mut i: usize = 0;
    while i < ids.len()
        invariant
            i <= ids@.len(),
            first_index_from(ids@, id, 0) == first_index_from(ids@, id, i as int),
        decreases ids@.len() - i,
    {
        if ids[i] == id {
            return Some(i);
        }
        i = i + 1;
    }
    None
}

/// Decides the step that follows the report of the services.
fn after_discovery(services: &Vec<ServiceInfo>) -> (r: Step)
    ensures
        r == discovery_step(services@),
{
    match find_service(services) {
        None => Step::Failed(SessionError::ServiceNotFound),
        Some(si) => match position_of(&services[si].characteristics, CHARACTERISTIC_UUID) {
            None => Step::Failed(SessionError::CharacteristicNotFound),
            Some(ci) => Step::Subscribe(si, ci),
        },
    }
}

/// The error a failed outside call of step `s` ends the session with.
fn failure_for(s: Step) -> (r: Option<SessionError>)
    ensures
        r == failure_of(s),
{
    match s {
        Step::FindAdapter | Step::StartScan => Some(SessionError::NoAdapter),
        Step::ListPeripherals => Some(SessionError::PeripheralNotFound),
        Step::CheckLink(_) | Step::Connect | Step::DiscoverServices => Some(
            SessionError::Connection,
        ),
        Step::Subscribe(_, _) | Step::OpenFeed => Some(SessionError::Subscription),
        Step::QueryStatus => Some(SessionError::StatusQuery),
        _ => None,
    }
}

/// One attempt at a session with the remote, from adapter discovery to its end.
pub struct Session {
    pub step: Step,
}

impl Session {
    /// A session that starts from full discovery.
    pub fn new() -> (r: Session)
        ensures
            r.step == Step::FindAdapter,
    {
        Session { step: Step::FindAdapter }
    }

    /// The step to perform now.
    pub fn current(&self) -> (r: Step)
        ensures
            r == self.step,
    {
        self.step
    }

    /// Whether the session has ended, normally or with an error.
    pub fn is_finished(&self) -> (r: bool)
        ensures
            r == is_over(self.step),
    {
        match self.step {
            Step::Closed | Step::Failed(_) => true,
            _ => false,
        }
    }

    /// Takes in what performing the current step produced.
    pub fn advance(&mut self, event: Event)
        ensures
            final(self).step == next(old(self).step, event),
    {
        let s = self.step;
        let n = match &event {
            Event::CallFailed => match failure_for(s) {
                Some(err) => Step::Failed(err),
                None => s,
            },
            Event::Adapters(count) => match s {
                Step::FindAdapter => if *count == 0 {
                    Step::Failed(SessionError::NoAdapter)
                } else {
                    Step::StartScan
                },
                _ => s,
            },
            Event::ScanStarted => match s {
                Step::StartScan => Step::Settle,
                _ => s,
            },
            Event::Settled => match s {
                Step::Settle => Step::ListPeripherals,
                _ => s,
            },
            Event::Peripherals(names) => match s {
                Step::ListPeripherals => match find_target(names) {
                    Some(i) => Step::CheckLink(i),
                    None => Step::Failed(SessionError::PeripheralNotFound),
                },
                _ => s,
            },
            Event::LinkStatus(up) => match s {
                Step::CheckLink(_) => if *up {
                    Step::DiscoverServices
                } else {
                    Step::Connect
                },
                Step::QueryStatus => if *up {
                    Step::Listen
                } else {
                    Step::Closed
                },
                _ => s,
            },
            Event::Connected => match s {
                Step::Connect => Step::DiscoverServices,
                _ => s,
            },
            Event::Services(services) => match s {
                Step::DiscoverServices => after_discovery(services),
                _ => s,
            },
            Event::Subscribed => match s {
                Step::Subscribe(_, _) => Step::OpenFeed,
                _ => s,
            },
            Event::FeedOpened => match s {
                Step::OpenFeed => Step::Listen,
                _ => s,
            },
            Event::Notification(source, payload) => match s {
                Step::Listen => match notification_code_of(*source, payload.as_slice()) {
                    Some(code) => Step::Deliver(code, run_command(code)),
                    None => Step::Listen,
                },
                _ => s,
            },
            Event::Delivered => match s {
                Step::Deliver(_, _) => Step::Listen,
                _ => s,
            },
            Event::TimerElapsed => match s {
                Step::Listen => Step::QueryStatus,
                _ => s,
            },
        };
        self.step = n;
    }

    /// Ends this attempt and starts the next one from full discovery, after the
    /// returned number of seconds.
    pub fn restart(&mut self) -> (delay_secs: u64)
        ensures
            final(self).step == Step::FindAdapter,
            delay_secs == RETRY_DELAY_SECS,
    {
        self.step = Step::FindAdapter;
        RETRY_DELAY_SECS
    }
}

} // verus!
