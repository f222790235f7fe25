//! Locating a peripheral: by advertised name, by address, or by its
//! advertised heart-rate service. The caller enumerates the visible
//! peripherals and sleeps between polls; this module decides.

use vstd::prelude::*;
use crate::config::{SourceConfig, option_view};
use crate::gatt::{HEART_RATE_SERVICE_UUID_SHORT, is_heart_rate_service_uuid, short_id};

verus! {

/// Poll timeout, in milliseconds, of a search by name or address.
pub const TARGETED_TIMEOUT_MS: u64 = 10_000;

/// Poll interval, in milliseconds, of a search by name or address.
pub const TARGETED_POLL_INTERVAL_MS: u64 = 500;

/// Poll timeout, in milliseconds, of a search by advertised service.
pub const HEURISTIC_TIMEOUT_MS: u64 = 30_000;

/// Poll interval, in milliseconds, of a search by advertised service.
pub const HEURISTIC_POLL_INTERVAL_MS: u64 = 1000;

/// What `str::to_lowercase` makes of a text.
pub uninterp spec fn lower_of(s: Seq<char>) -> Seq<char>;

/// Relies on `str::to_lowercase`: the Unicode lowercase mapping, which
/// depends on the characters alone.
#[verifier::external_body]
fn lowercase(s: &str) -> (r: String)
    ensures
        r@ == lower_of(s@),
{
    s.to_lowercase()
}

/// What a poll sees of one visible peripheral.
pub struct PeripheralInfo {
    pub local_name: Option<String>,
    pub address: String,
    pub services: Vec<u128>,
}

/// How the device is looked for.
pub enum DiscoveryCriteria {
    ByName(String),
    ByAddress(String),
    Heuristic,
}

pub ghost enum CriteriaKind {
    ByName(Seq<char>),
    ByAddress(Seq<char>),
    Heuristic,
}

impl View for DiscoveryCriteria {
    type V = CriteriaKind;

    open spec fn view(&self) -> CriteriaKind {
        match self {
            DiscoveryCriteria::ByName(n) => CriteriaKind::ByName(n@),
            DiscoveryCriteria::ByAddress(a) => CriteriaKind::ByAddress(a@),
            DiscoveryCriteria::Heuristic => CriteriaKind::Heuristic,
        }
    }
}

/// Whether some advertised service is the heart-rate service.
pub open spec fn advertises_heart_rate(services: Seq<u128>) -> bool {
    exists|i: int| 0 <= i < services.len() && short_id(services[i]) == HEART_RATE_SERVICE_UUID_SHORT
}

/// A match of texts compared exactly.
pub open spec fn exact_match(
    c: CriteriaKind,
    local_name: Option<Seq<char>>,
    address: Seq<char>,
    services: Seq<u128>,
) -> bool {
    match c {
        CriteriaKind::ByName(n) => local_name == Some(n),
        CriteriaKind::ByAddress(a) => address == a,
        CriteriaKind::Heuristic => advertises_heart_rate(services),
    }
}

/// A match of a peripheral, names and addresses compared without regard to
/// case.
pub open spec fn peripheral_matches(c: CriteriaKind, p: PeripheralInfo) -> bool {
    match c {
        CriteriaKind::ByName(n) => match p.local_name {
            Some(x) => lower_of(x@) == lower_of(n),
            None => false,
        },
        CriteriaKind::ByAddress(a) => lower_of(p.address@) == lower_of(a),
        CriteriaKind::Heuristic => advertises_heart_rate(p.services@),
    }
}

/// How long a search may take, in milliseconds.
pub open spec fn timeout_of(c: CriteriaKind) -> u64 {
    if c is Heuristic {
        HEURISTIC_TIMEOUT_MS
    } else {
        TARGETED_TIMEOUT_MS
    }
}

/// The pause between two polls of a search, in milliseconds.
pub open spec fn poll_interval_of(c: CriteriaKind) -> u64 {
    if c is Heuristic {
        HEURISTIC_POLL_INTERVAL_MS
    } else {
        TARGETED_POLL_INTERVAL_MS
    }
}

/// What one poll decides.
#[derive(PartialEq, Eq, Structural, Clone, Copy, Debug)]
pub enum PollDecision {
    /// The peripheral at this index of the poll matches.
    Found(usize),
    /// Nothing matched: poll again after this many milliseconds.
    Wait(u64),
    /// The search ran out of time.
    TimedOut,
}

/// Whether any service identifier names the heart-rate service.
pub fn has_heart_rate_service(services: &Vec<u128>) -> (r: bool)
    ensures
        r == advertises_heart_rate(services@),
{
    let mut i: usize = 0;
    while i < services.len()
        invariant
            i <= services@.len(),
            forall|j: int| 0 <= j < i ==> short_id(services@[j]) != HEART_RATE_SERVICE_UUID_SHORT,
        decreases services@.len() - i,
    {
        if is_heart_rate_service_uuid(services[i]) {
            return true;
        }
        i = i + 1;
    }
    false
}

impl DiscoveryCriteria {
    /// The search that a source needs; `None` for a source that connects to
    /// no device.
    pub fn for_source(source: &SourceConfig) -> (r: Option<DiscoveryCriteria>)
        ensures
            source matches SourceConfig::NamedBluetooth(n) ==> (r matches Some(c) && c@
                == CriteriaKind::ByName(n@)),
            source matches SourceConfig::AddressedBluetooth(a) ==> (r matches Some(c) && c@
                == CriteriaKind::ByAddress(a@)),
            source is HeuristicBluetooth ==> (r matches Some(c) && c@ == CriteriaKind::Heuristic),
            source is AdvertisementScan || source is HttpIngest ==> r is None,
    {
        match source {
            SourceConfig::NamedBluetooth(n) => Some(DiscoveryCriteria::ByName(n.clone())),
            SourceConfig::AddressedBluetooth(a) => Some(DiscoveryCriteria::ByAddress(a.clone())),
            SourceConfig::HeuristicBluetooth => Some(DiscoveryCriteria::Heuristic),
            SourceConfig::AdvertisementScan => None,
            SourceConfig::HttpIngest(_) => None,
        }
    }

    /// How long the search may take, in milliseconds.
    pub fn timeout_ms(&self) -> (r: u64)
        ensures
            r == timeout_of(self@),
    {
        match self {
            DiscoveryCriteria::Heuristic => HEURISTIC_TIMEOUT_MS,
            _ => TARGETED_TIMEOUT_MS,
        }
    }

    /// The pause between two polls, in milliseconds.
    pub fn poll_interval_ms(&self) -> (r: u64)
        ensures
            r == poll_interval_of(self@),
    {
        match self {
            DiscoveryCriteria::Heuristic => HEURISTIC_POLL_INTERVAL_MS,
            _ => TARGETED_POLL_INTERVAL_MS,
        }
    }

    /// Compares texts exactly; a caller that wants case to be ignored hands
    /// in lowercased texts.
    pub fn matches_exact(&self, local_name: &Option<String>, address: &String, services: &Vec<u128>) -> (r: bool)
        ensures
            r == exact_match(self@, option_view(*local_name), address@, services@),
    {
        match self {
            DiscoveryCriteria::ByName(n) => match local_name {
                Some(x) => *x == *n,
                None => false,
            },
            DiscoveryCriteria::ByAddress(a) => *address == *a,
            DiscoveryCriteria::Heuristic => has_heart_rate_service(services),
        }
    }

    /// Whether a peripheral matches; names and addresses are compared
    /// without regard to case.
    pub fn matches(&self, p: &PeripheralInfo) -> (r: bool)
        ensures
            r == peripheral_matches(self@, *p),
    {
        match self {
            DiscoveryCriteria::ByName(n) => match &p.local_name {
                Some(x) => {
                    let a = lowercase(x.as_str());
                    let b = lowercase(n.as_str());
                    a == b
                },
                None => false,
            },
            DiscoveryCriteria::ByAddress(t) => {
                let a = lowercase(p.address.as_str());
                let b = lowercase(t.as_str());
                a == b
            },
            DiscoveryCriteria::Heuristic => has_heart_rate_service(&p.services),
        }
    }

    /// Index of the first peripheral that matches.
    pub fn find_match(&self, peripherals: &Vec<PeripheralInfo>) -> (r: Option<usize>)
        ensures
            r matches Some(i) ==> i < peripherals@.len() && peripheral_matches(
                self@,
                peripherals@[i as int],
            ) && forall|j: int| 0 <= j < i ==> !peripheral_matches(self@, peripherals@[j]),
            r is None ==> forall|j: int|
                0 <= j < peripherals@.len() ==> !peripheral_matches(self@, peripherals@[j]),
    {
        let mut i: usize = 0;
        while i < peripherals.len()
            invariant
                i <= peripherals@.len(),
                forall|j: int| 0 <= j < i ==> !peripheral_matches(self@, peripherals@[j]),
            decreases peripherals@.len() - i,
        {
            if self.matches(&peripherals[i]) {
                return Some(i);
            }
            i = i + 1;
        }
        None
    }

    /// One poll, `elapsed_ms` after the search began, over the peripherals
    /// visible now: the first match is taken; with none, the search waits
    /// for the next poll, or times out once its time is spent.
    pub fn poll_step(&self, elapsed_ms: u64, peripherals: &Vec<PeripheralInfo>) -> (r: PollDecision)
        ensures
            elapsed_ms >= timeout_of(self@) ==> r == PollDecision::TimedOut,
            elapsed_ms < timeout_of(self@) ==> match r {
                PollDecision::Found(i) => i < peripherals@.len() && peripheral_matches(
                    self@,
                    peripherals@[i as int],
                ) && forall|j: int| 0 <= j < i ==> !peripheral_matches(self@, peripherals@[j]),
                PollDecision::Wait(ms) => ms == poll_interval_of(self@) && forall|j: int|
                    0 <= j < peripherals@.len() ==> !peripheral_matches(self@, peripherals@[j]),
                PollDecision::TimedOut => false,
            },
    {
        if elapsed_ms >= self.timeout_ms() {
            return PollDecision::TimedOut;
        }
        match self.find_match(peripherals) {
            Some(i) => PollDecision::Found(i),
            None => PollDecision::Wait(self.poll_interval_ms()),
        }
    }
}

} // verus!
