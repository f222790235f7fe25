//! The connected-device source: recognising the heart-rate service and its
//! measurement characteristic, the connection state machine with its
//! service-discovery retries, and the filtering of notifications.

use vstd::prelude::*;
use crate::payload::{measurement_bpm, parse_heart_rate_data};

verus! {

/// 16-bit short form of the heart-rate service.
pub const HEART_RATE_SERVICE_UUID_SHORT: u16 = 0x180D;

/// 16-bit short form of the heart-rate measurement characteristic.
pub const HEART_RATE_MEASUREMENT_CHAR_UUID_SHORT: u16 = 0x2A37;

/// Attempts at service discovery before the driver gives up.
pub const MAX_DISCOVERY_ATTEMPTS: u32 = 3;

/// Pause, in milliseconds, between two service-discovery attempts.
pub const DISCOVERY_RETRY_DELAY_MS: u64 = 2000;

/// The 16-bit short form carried by a 128-bit identifier (bits 96 to 111,
/// where the Bluetooth base form places it); the rest of the identifier,
/// which may be a vendor's base, is not looked at.
pub open spec fn short_id(uuid: u128) -> u16 {
    ((uuid >> 96u128) & 0xFFFFu128) as u16
}

/// Whether an identifier names the heart-rate service.
pub fn is_heart_rate_service_uuid(uuid: u128) -> (r: bool)
    ensures
        r == (short_id(uuid) == HEART_RATE_SERVICE_UUID_SHORT),
{
    ((uuid >> 96u128) & 0xFFFFu128) as u16 == HEART_RATE_SERVICE_UUID_SHORT
}

/// Whether an identifier names the heart-rate measurement characteristic.
pub fn is_heart_rate_measurement_char_uuid(uuid: u128) -> (r: bool)
    ensures
        r == (short_id(uuid) == HEART_RATE_MEASUREMENT_CHAR_UUID_SHORT),
{
    ((uuid >> 96u128) & 0xFFFFu128) as u16 == HEART_RATE_MEASUREMENT_CHAR_UUID_SHORT
}

/// A discovered service: its identifier and those of its characteristics.
pub struct ServiceInfo {
    pub uuid: u128,
    pub characteristics: Vec<u128>,
}

/// Why the measurement characteristic could not be located.
#[derive(PartialEq, Eq, Structural, Clone, Copy, Debug)]
pub enum LocateError {
    ServiceNotFound,
    CharacteristicNotFound,
}

/// Index of the first identifier in `ids` whose short form is `short`.
pub open spec fn first_with_short_id(ids: Seq<u128>, short: u16, i: int) -> bool {
    0 <= i < ids.len() && short_id(ids[i]) == short && forall|j: int|
        0 <= j < i ==> short_id(ids[j]) != short
}

pub open spec fn service_ids(services: Seq<ServiceInfo>) -> Seq<u128> {
    Seq::new(services.len(), |i: int| services[i].uuid)
}

/// Finds the heart-rate service (the first one listed) and, within it, the
/// first measurement characteristic; returns their indices.
pub fn locate_measurement(services: &Vec<ServiceInfo>) -> (r: Result<(usize, usize), LocateError>)
    ensures
        r matches Ok((s, c)) ==> first_with_short_id(
            service_ids(services@),
            HEART_RATE_SERVICE_UUID_SHORT,
            s as int,
        ) && first_with_short_id(
            services@[s as int].characteristics@,
            HEART_RATE_MEASUREMENT_CHAR_UUID_SHORT,
            c as int,
        ),
        r == Err::<(usize, usize), LocateError>(LocateError::ServiceNotFound) <==> forall|j: int|
            0 <= j < services@.len() ==> short_id(services@[j].uuid) != HEART_RATE_SERVICE_UUID_SHORT,
        r == Err::<(usize, usize), LocateError>(LocateError::CharacteristicNotFound) ==> exists|s: int|
            first_with_short_id(service_ids(services@), HEART_RATE_SERVICE_UUID_SHORT, s)
                && forall|j: int|
                0 <= j < services@[s].characteristics@.len() ==> short_id(
                    services@[s].characteristics@[j],
                ) != HEART_RATE_MEASUREMENT_CHAR_UUID_SHORT,
{
    let ghost ids = service_ids(services@);
    let mut s: usize = 0;
    while s < services.len()
        invariant
            s <= services@.len(),
            ids == service_ids(services@),
            forall|j: int| 0 <= j < s ==> short_id(services@[j].uuid) != HEART_RATE_SERVICE_UUID_SHORT,
        decreases services@.len() - s,
    {
        if is_heart_rate_service_uuid(services[s].uuid) {
            let chars = &services[s].characteristics;
            let mut c: usize = 0;
            while c < chars.len()
                invariant
                    s < services@.len(),
                    ids == service_ids(services@),
                    chars@ == services@[s as int].characteristics@,
                    short_id(services@[s as int].uuid) == HEART_RATE_SERVICE_UUID_SHORT,
                    forall|j: int|
                        0 <= j < s ==> short_id(services@[j].uuid) != HEART_RATE_SERVICE_UUID_SHORT,
                    c <= chars@.len(),
                    forall|j: int|
                        0 <= j < c ==> short_id(chars@[j]) != HEART_RATE_MEASUREMENT_CHAR_UUID_SHORT,
                decreases chars@.len() - c,
            {
                if is_heart_rate_measurement_char_uuid(chars[c]) {
                    assert(first_with_short_id(ids, HEART_RATE_SERVICE_UUID_SHORT, s as int));
                    return Ok((s, c));
                }
                c = c + 1;
            }
            assert(first_with_short_id(ids, HEART_RATE_SERVICE_UUID_SHORT, s as int));
            return Err(LocateError::CharacteristicNotFound);
        }
        s = s + 1;
    }
    Err(LocateError::ServiceNotFound)
}

/// The heart rate carried by a notification: only notifications of the
/// measurement characteristic count, and only when their payload decodes.
pub fn handle_notification(char_uuid: u128, value: &[u8]) -> (r: Option<u32>)
    ensures
        short_id(char_uuid) == HEART_RATE_MEASUREMENT_CHAR_UUID_SHORT ==> r == measurement_bpm(
            value@,
        ),
        short_id(char_uuid) != HEART_RATE_MEASUREMENT_CHAR_UUID_SHORT ==> r is None,
{
    if is_heart_rate_measurement_char_uuid(char_uuid) {
        parse_heart_rate_data(value)
    } else {
        None
    }
}

/// The state of the connected-device source.
#[derive(PartialEq, Eq, Structural, Clone, Copy, Debug)]
pub enum ConnectionState {
    Idle,
    Scanning,
    Connecting,
    Connected,
    Degraded,
    Closed,
}

/// What follows a failed service discovery.
#[derive(PartialEq, Eq, Structural, Clone, Copy, Debug)]
pub enum RetryDecision {
    RetryAfter(u64),
    GiveUp,
}

/// The connection state of the connected-device source and its count of
/// failed service discoveries.
pub struct GattSession {
    pub state: ConnectionState,
    pub failed_discoveries: u32,
}

impl GattSession {
    pub fn new() -> (r: GattSession)
        ensures
            r.state == ConnectionState::Idle,
            r.failed_discoveries == 0,
    {
        GattSession { state: ConnectionState::Idle, failed_discoveries: 0 }
    }

    /// The scan for the device has begun.
    pub fn scan_started(&mut self)
        ensures
            old(self).state == ConnectionState::Idle ==> final(self).state == ConnectionState::Scanning,
            old(self).state != ConnectionState::Idle ==> final(self).state == old(self).state,
            final(self).failed_discoveries == old(self).failed_discoveries,
    {
        if self.state == ConnectionState::Idle {
            self.state = ConnectionState::Scanning;
        }
    }

    /// The device was found and a connection is being made.
    pub fn device_found(&mut self)
        ensures
            old(self).state == ConnectionState::Scanning ==> final(self).state
                == ConnectionState::Connecting,
            old(self).state != ConnectionState::Scanning ==> final(self).state == old(self).state,
            final(self).failed_discoveries == old(self).failed_discoveries,
    {
        if self.state == ConnectionState::Scanning {
            self.state = ConnectionState::Connecting;
        }
    }

    /// The connection is up, or service discovery succeeded after a retry.
    pub fn connected(&mut self)
        ensures
            old(self).state == ConnectionState::Connecting || old(self).state
                == ConnectionState::Degraded ==> final(self).state == ConnectionState::Connected,
            !(old(self).state == ConnectionState::Connecting || old(self).state
                == ConnectionState::Degraded) ==> final(self).state == old(self).state,
            final(self).failed_discoveries == old(self).failed_discoveries,
    {
        if self.state == ConnectionState::Connecting || self.state == ConnectionState::Degraded {
            self.state = ConnectionState::Connected;
        }
    }

    /// A service discovery failed: retry after a pause, until the attempts
    /// are spent; then the session closes.
    pub fn discovery_failed(&mut self) -> (r: RetryDecision)
        ensures
            old(self).state == ConnectionState::Closed ==> r == RetryDecision::GiveUp && *final(self)
                == *old(self),
            old(self).state != ConnectionState::Closed ==> {
                &&& final(self).failed_discoveries == (if old(self).failed_discoveries
                    < MAX_DISCOVERY_ATTEMPTS {
                    old(self).failed_discoveries + 1
                } else {
                    old(self).failed_discoveries as int
                })
                &&& final(self).failed_discoveries < MAX_DISCOVERY_ATTEMPTS ==> r
                    == RetryDecision::RetryAfter(DISCOVERY_RETRY_DELAY_MS) && final(self).state
                    == ConnectionState::Degraded
                &&& final(self).failed_discoveries >= MAX_DISCOVERY_ATTEMPTS ==> r
                    == RetryDecision::GiveUp && final(self).state == ConnectionState::Closed
            },
    {
        if self.state == ConnectionState::Closed {
            return RetryDecision::GiveUp;
        }
        if self.failed_discoveries < MAX_DISCOVERY_ATTEMPTS {
            self.failed_discoveries = self.failed_discoveries + 1;
        }
        if self.failed_discoveries < MAX_DISCOVERY_ATTEMPTS {
            self.state = ConnectionState::Degraded;
            RetryDecision::RetryAfter(DISCOVERY_RETRY_DELAY_MS)
        } else {
            self.state = ConnectionState::Closed;
            RetryDecision::GiveUp
        }
    }

    /// The transport closed or the driver was stopped.
    pub fn closed(&mut self)
        ensures
            final(self).state == ConnectionState::Closed,
            final(self).failed_discoveries == old(self).failed_discoveries,
    {
        self.state = ConnectionState::Closed;
    }
}

} // verus!
