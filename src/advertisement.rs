//! The advertisement-scan source: heart rates read from the manufacturer
//! data of a vendor band's advertisements, without connecting to it.

use vstd::prelude::*;
use crate::config::option_view;
use crate::payload::{ManufacturerEntry, advertised_bpm, parse_manufacturer_data};

verus! {

/// The product name that a band advertises as part of its local name.
pub const PRODUCT_NAME: &'static str = "Xiaomi Smart Band";

/// Window, in milliseconds, within which repeated advertisements of one
/// address are not processed again.
pub const DEDUP_WINDOW_MS: u64 = 1000;

/// Whether `p` occurs in `s`.
pub open spec fn contains_text(s: Seq<char>, p: Seq<char>) -> bool {
    exists|i: int| 0 <= i && i + p.len() <= s.len() && #[trigger] s.subrange(i, i + p.len()) == p
}

/// Relies on `str::contains` with a `&str` pattern: whether the pattern
/// occurs in the text.
#[verifier::external_body]
fn contains(s: &str, p: &str) -> (r: bool)
    ensures
        r == contains_text(s@, p@),
{
    s.contains(p)
}

/// When an address was last processed.
pub struct SeenDevice {
    pub address: String,
    pub at: u64,
}

/// Row `i` is the first row for address `a`.
pub open spec fn first_row_of(s: Seq<SeenDevice>, a: Seq<char>, i: int) -> bool {
    0 <= i < s.len() && s[i].address@ == a && forall|j: int| 0 <= j < i ==> s[j].address@ != a
}

/// When address `a` was last processed, if ever.
pub open spec fn seen_at(s: Seq<SeenDevice>, a: Seq<char>) -> Option<u64> {
    if exists|i: int| first_row_of(s, a, i) {
        Some(s[choose|i: int| first_row_of(s, a, i)].at)
    } else {
        None
    }
}

/// The table keeps at most one row per address.
pub open spec fn one_row_per_address(s: Seq<SeenDevice>) -> bool {
    forall|i: int, j: int|
        0 <= i < j < s.len() ==> #[trigger] s[i].address@ != #[trigger] s[j].address@
}

proof fn lemma_first_row_unique(s: Seq<SeenDevice>, a: Seq<char>, i: int, j: int)
    requires
        first_row_of(s, a, i),
        first_row_of(s, a, j),
    ensures
        i == j,
{
}

/// Whether an advertisement of `a` at `now` falls within the window of the
/// last one processed. A clock that reads earlier than that keeps it shut.
pub open spec fn suppressed(s: Seq<SeenDevice>, a: Seq<char>, now: u64) -> bool {
    match seen_at(s, a) {
        Some(t) => now < t + DEDUP_WINDOW_MS,
        None => false,
    }
}

fn find_seen(seen: &Vec<SeenDevice>, address: &String) -> (r: Option<usize>)
    ensures
        r matches Some(i) ==> first_row_of(seen@, address@, i as int),
        r is None ==> forall|j: int| 0 <= j < seen@.len() ==> seen@[j].address@ != address@,
{
    let mut i: usize = 0;
    while i < seen.len()
        invariant
            i <= seen@.len(),
            forall|j: int| 0 <= j < i ==> seen@[j].address@ != address@,
        decreases seen@.len() - i,
    {
        if seen[i].address == *address {
            return Some(i);
        }
        i = i + 1;
    }
    None
}

fn record_seen(seen: &mut Vec<SeenDevice>, address: &String, now: u64)
    ensures
        one_row_per_address(old(seen)@) ==> one_row_per_address(final(seen)@),
        forall|a: Seq<char>|
            #[trigger] seen_at(final(seen)@, a) == if a == address@ {
                Some(now)
            } else {
                seen_at(old(seen)@, a)
            },
{
    let ghost s0 = seen@;
    let row = SeenDevice { address: address.clone(), at: now };
    match find_seen(seen, address) {
        Some(i) => {
            seen.set(i, row);
            proof {
                let s1 = seen@;
                assert forall|x: int| 0 <= x < s1.len() implies s1[x].address@ == s0[x].address@ by {}
                if one_row_per_address(s0) {
                    assert forall|x: int, y: int| 0 <= x < y < s1.len() implies #[trigger] s1[x].address@
                        != #[trigger] s1[y].address@ by {
                        assert(s1[x].address@ == s0[x].address@);
                        assert(s1[y].address@ == s0[y].address@);
                    }
                }
                assert(first_row_of(s1, address@, i as int));
                let k = choose|k: int| first_row_of(s1, address@, k);
                lemma_first_row_unique(s1, address@, i as int, k);
                assert forall|a: Seq<char>| a != address@ implies #[trigger] seen_at(s1, a)
                    == seen_at(s0, a) by {
                    assert forall|k: int| first_row_of(s1, a, k) <==> first_row_of(s0, a, k) by {
                        if 0 <= k < s1.len() {
                            assert forall|j: int| 0 <= j <= k implies s1[j].address@
                                == s0[j].address@ by {}
                        }
                    }
                    if exists|k: int| first_row_of(s0, a, k) {
                        let k0 = choose|k: int| first_row_of(s0, a, k);
                        let k1 = choose|k: int| first_row_of(s1, a, k);
                        lemma_first_row_unique(s0, a, k0, k1);
                    }
                }
            }
        },
        None => {
            seen.push(row);
            proof {
                let s1 = seen@;
                let n = s0.len() as int;
                if one_row_per_address(s0) {
                    assert forall|x: int, y: int| 0 <= x < y < s1.len() implies #[trigger] s1[x].address@
                        != #[trigger] s1[y].address@ by {
                        if y < n {
                            assert(s1[x] == s0[x] && s1[y] == s0[y]);
                        } else {
                            assert(s1[x] == s0[x]);
                        }
                    }
                }
                assert(first_row_of(s1, address@, n));
                let k = choose|k: int| first_row_of(s1, address@, k);
                lemma_first_row_unique(s1, address@, n, k);
                assert forall|a: Seq<char>| a != address@ implies #[trigger] seen_at(s1, a)
                    == seen_at(s0, a) by {
                    assert forall|k: int| first_row_of(s1, a, k) <==> first_row_of(s0, a, k) by {
                        if 0 <= k < s1.len() {
                            assert forall|j: int| 0 <= j <= k && j < n implies s1[j].address@
                                == s0[j].address@ by {}
                        }
                    }
                    if exists|k: int| first_row_of(s0, a, k) {
                        let k0 = choose|k: int| first_row_of(s0, a, k);
                        let k1 = choose|k: int| first_row_of(s1, a, k);
                        lemma_first_row_unique(s0, a, k0, k1);
                    }
                }
            }
        },
    }
}

/// An event of the advertisement stream.
pub enum AdvertisementEvent {
    /// A device's advertised properties changed.
    DeviceUpdated {
        address: String,
        local_name: Option<String>,
        manufacturer_data: Vec<ManufacturerEntry>,
    },
    /// A device advertised manufacturer data.
    ManufacturerData { id: String, manufacturer_data: Vec<ManufacturerEntry> },
}

/// The state of the advertisement-scan source: when each address was last
/// processed, and the band's address once one has delivered a heart rate.
pub struct XiaomiBandMonitor {
    pub last_seen: Vec<SeenDevice>,
    pub device_addr: Option<String>,
    pub running: bool,
}

/// The pinned address after an advertisement of `addr` that yielded `bpm`:
/// the first address to yield a heart rate is kept for the session.
pub open spec fn pinned_after(pinned: Option<Seq<char>>, addr: Seq<char>, bpm: Option<u32>) -> Option<
    Seq<char>,
> {
    if pinned is None && bpm is Some {
        Some(addr)
    } else {
        pinned
    }
}

/// The heart rate of an advertisement whose local name is `local_name`:
/// read only when the name carries the product name.
pub open spec fn named_bpm(local_name: Option<String>, data: Seq<ManufacturerEntry>) -> Option<u32> {
    match local_name {
        Some(n) => if contains_text(n@, PRODUCT_NAME@) {
            advertised_bpm(data)
        } else {
            None
        },
        None => None,
    }
}

/// The heart rate of an event once `pinned` is the band's address: only
/// manufacturer data tagged with that address is read.
pub open spec fn pinned_event_bpm(event: AdvertisementEvent, pinned: Seq<char>) -> Option<u32> {
    match event {
        AdvertisementEvent::ManufacturerData { id, manufacturer_data } => if id@ == pinned {
            advertised_bpm(manufacturer_data@)
        } else {
            None
        },
        AdvertisementEvent::DeviceUpdated { .. } => None,
    }
}

impl XiaomiBandMonitor {
    pub fn new() -> (r: XiaomiBandMonitor)
        ensures
            r.last_seen@.len() == 0,
            one_row_per_address(r.last_seen@),
            r.device_addr is None,
            !r.running,
    {
        XiaomiBandMonitor { last_seen: Vec::new(), device_addr: None, running: false }
    }

    /// The scan has begun.
    pub fn start_monitoring(&mut self)
        ensures
            final(self).running,
            final(self).last_seen == old(self).last_seen,
            final(self).device_addr == old(self).device_addr,
    {
        self.running = true;
    }

    /// The scan is to end.
    pub fn stop(&mut self)
        ensures
            !final(self).running,
            final(self).last_seen == old(self).last_seen,
            final(self).device_addr == old(self).device_addr,
    {
        self.running = false;
    }

    /// Reads the heart rate from an advertisement of `addr`, and pins `addr`
    /// when it is the first to deliver one.
    pub fn send_bpm(&mut self, manufacturer_data: &Vec<ManufacturerEntry>, addr: &str) -> (r: Option<u32>)
        ensures
            r == advertised_bpm(manufacturer_data@),
            option_view(final(self).device_addr) == pinned_after(
                option_view(old(self).device_addr),
                addr@,
                r,
            ),
            final(self).last_seen == old(self).last_seen,
            final(self).running == old(self).running,
    {
        let bpm = parse_manufacturer_data(manufacturer_data);
        if bpm.is_some() && self.device_addr.is_none() {
            self.device_addr = Some(String::from_str(addr));
        }
        bpm
    }

    /// Handles a device update seen before a band is pinned: repeated
    /// advertisements of one address within the window are skipped; others
    /// are recorded, and read when the local name carries the product name.
    pub fn handle_advertisement(
        &mut self,
        address: &String,
        local_name: &Option<String>,
        manufacturer_data: &Vec<ManufacturerEntry>,
        now: u64,
    ) -> (r: Option<u32>)
        ensures
            one_row_per_address(old(self).last_seen@) ==> one_row_per_address(
                final(self).last_seen@,
            ),
            suppressed(old(self).last_seen@, address@, now) ==> r is None && final(self).last_seen
                == old(self).last_seen && final(self).device_addr == old(self).device_addr,
            !suppressed(old(self).last_seen@, address@, now) ==> {
                &&& forall|a: Seq<char>|
                    #[trigger] seen_at(final(self).last_seen@, a) == if a == address@ {
                        Some(now)
                    } else {
                        seen_at(old(self).last_seen@, a)
                    }
                &&& r == named_bpm(*local_name, manufacturer_data@)
                &&& option_view(final(self).device_addr) == pinned_after(
                    option_view(old(self).device_addr),
                    address@,
                    r,
                )
            },
            final(self).running == old(self).running,
    {
        if let Some(i) = find_seen(&self.last_seen, address) {
            let t = self.last_seen[i].at;
            proof {
                let k = choose|k: int| first_row_of(self.last_seen@, address@, k);
                lemma_first_row_unique(self.last_seen@, address@, i as int, k);
            }
            if (now as u128) < t as u128 + DEDUP_WINDOW_MS as u128 {
                return None;
            }
        }
        record_seen(&mut self.last_seen, address, now);
        match local_name {
            Some(n) => {
                if contains(n.as_str(), PRODUCT_NAME) {
                    self.send_bpm(manufacturer_data, address.as_str())
                } else {
                    None
                }
            },
            None => None,
        }
    }

    /// Handles one event of the stream. Until a band is pinned, device
    /// updates are read; afterwards only manufacturer data tagged with the
    /// pinned address is.
    pub fn handle_event(&mut self, event: &AdvertisementEvent, now: u64) -> (r: Option<u32>)
        ensures
            one_row_per_address(old(self).last_seen@) ==> one_row_per_address(
                final(self).last_seen@,
            ),
            old(self).device_addr matches Some(p) ==> {
                &&& final(self).device_addr == old(self).device_addr
                &&& final(self).last_seen == old(self).last_seen
                &&& r == pinned_event_bpm(*event, p@)
            },
            old(self).device_addr is None && event is ManufacturerData ==> r is None && *final(self)
                == *old(self),
            old(self).device_addr is None ==> (event matches AdvertisementEvent::DeviceUpdated { address, local_name, manufacturer_data } ==> {
                &&& suppressed(old(self).last_seen@, address@, now) ==> r is None
                    && final(self).device_addr is None && final(self).last_seen
                    == old(self).last_seen
                &&& !suppressed(old(self).last_seen@, address@, now) ==> {
                    &&& forall|a: Seq<char>|
                        #[trigger] seen_at(final(self).last_seen@, a) == if a == address@ {
                            Some(now)
                        } else {
                            seen_at(old(self).last_seen@, a)
                        }
                    &&& r == named_bpm(*local_name, manufacturer_data@)
                    &&& option_view(final(self).device_addr) == pinned_after(None, address@, r)
                }
            }),
            final(self).running == old(self).running,
    {
        match &self.device_addr {
            Some(pinned) => match event {
                AdvertisementEvent::ManufacturerData { id, manufacturer_data } => {
                    if *id == *pinned {
                        parse_manufacturer_data(manufacturer_data)
                    } else {
                        None
                    }
                },
                AdvertisementEvent::DeviceUpdated { .. } => None,
            },
            None => match event {
                AdvertisementEvent::DeviceUpdated { address, local_name, manufacturer_data } => {
                    self.handle_advertisement(address, local_name, manufacturer_data, now)
                },
                AdvertisementEvent::ManufacturerData { .. } => None,
            },
        }
    }
}

/// Once a band is pinned it stays pinned, whatever later advertisements
/// carry, and an event tagged with any other address yields no heart rate.
pub proof fn lemma_pinned_band_is_kept(
    pinned: Seq<char>,
    addr: Seq<char>,
    bpm: Option<u32>,
    event: AdvertisementEvent,
)
    requires
        event matches AdvertisementEvent::ManufacturerData { id, .. } ==> id@ != pinned,
    ensures
        pinned_after(Some(pinned), addr, bpm) == Some(pinned),
        pinned_event_bpm(event, pinned) is None,
{
}

} // verus!
