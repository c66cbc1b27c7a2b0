//! Selection of the device to flash: by an explicit vendor and product id,
//! or by scanning the connected devices for a known pair.

use vstd::prelude::*;
use std::collections::HashMap;
use crate::error::Error;

verus! {

broadcast use vstd::std_specs::hash::group_hash_axioms;

/// The identity that a USB device reports.
#[derive(Clone, Copy, Debug, PartialEq, Eq, Structural)]
pub struct DeviceDescriptor {
    pub vendor_id: u16,
    pub product_id: u16,
}

/// For each known vendor, the products of that vendor that can be flashed.
pub struct VendorMap {
    products: HashMap<u16, Vec<u16>>,
}

impl View for VendorMap {
    type V = Map<u16, Set<u16>>;

    closed spec fn view(&self) -> Map<u16, Set<u16>> {
        Map::new(
            |vendor: u16| self.products@.contains_key(vendor),
            |vendor: u16| self.products@[vendor]@.to_set(),
        )
    }
}

/// Whether `list` holds `wanted`.
fn holds(list: &Vec<u16>, wanted: u16) -> (yes: bool)
    ensures
        yes == list@.contains(wanted),
{
    let mut i: usize = 0;
    while i < list.len()
        invariant
            i <= list.len(),
            forall|j: int| 0 <= j < i ==> list[j] != wanted,
        decreases list.len() - i,
    {
        if list[i] == wanted {
            return true;
        }
        i = i + 1;
    }
    false
}

impl VendorMap {
    /// Whether `device` is a known product of a known vendor.
    pub open spec fn spec_allows(self, device: DeviceDescriptor) -> bool {
        self@.contains_key(device.vendor_id) && self@[device.vendor_id].contains(
            device.product_id,
        )
    }

    /// The map that knows no vendor.
    pub fn new() -> (empty: VendorMap)
        ensures
            empty@ == Map::<u16, Set<u16>>::empty(),
    {
        let empty = VendorMap { products: HashMap::new() };
        assert(empty@ =~= Map::<u16, Set<u16>>::empty());
        empty
    }

    /// Makes `products` the products known of `vendor`, in place of any
    /// that were known of it before.
    pub fn insert(&mut self, vendor: u16, products: Vec<u16>)
        ensures
            final(self)@ == old(self)@.insert(vendor, products@.to_set()),
    {
        let ghost listed = products@.to_set();
        self.products.insert(vendor, products);
        assert(self@ =~= old(self)@.insert(vendor, listed));
    }

    /// Decides [`VendorMap::spec_allows`].
    pub fn allows(&self, device: &DeviceDescriptor) -> (yes: bool)
        ensures
            yes == self.spec_allows(*device),
    {
        match self.products.get(&device.vendor_id) {
            Some(list) => holds(list, device.product_id),
            None => false,
        }
    }
}

/// What the selection is waiting for: the one thing to do next.
#[derive(Clone, Copy, Debug, PartialEq, Eq, Structural)]
pub enum Request {
    /// Open the device with exactly this identity.
    OpenExact(DeviceDescriptor),
    /// Report the next connected device, in the order of enumeration.
    NextDevice,
    /// Open the device that was reported last; this is its identity.
    OpenListed(DeviceDescriptor),
    /// The device that was opened last is the one to flash. Nothing more is
    /// asked for.
    Use(DeviceDescriptor),
    /// No device could be opened. Nothing more is asked for.
    GiveUp,
}

/// What came of a request.
#[derive(Clone, Copy, Debug, PartialEq, Eq, Structural)]
pub enum Reply {
    /// The next connected device.
    Device(DeviceDescriptor),
    /// Every connected device has been reported.
    NoMoreDevices,
    /// The device was opened.
    Opened,
    /// The device could not be opened.
    NotOpened,
}

/// Where a selection stands.
#[derive(Clone, Copy, Debug, PartialEq, Eq, Structural)]
pub enum Selector {
    /// An explicit identity was given; its device is being opened.
    Explicit(DeviceDescriptor),
    /// The connected devices are being scanned.
    Scanning,
    /// A connected device with a known identity is being opened.
    Trying(DeviceDescriptor),
    /// A device was opened: the selection is over.
    Selected(DeviceDescriptor),
    /// No device could be opened: the selection is over.
    Failed,
}

impl Selector {
    /// Where a selection starts: with the explicit identity where both ids
    /// are given, with a scan otherwise.
    pub open spec fn spec_start(vid: Option<u16>, pid: Option<u16>) -> Selector {
        match (vid, pid) {
            (Some(v), Some(p)) => Selector::Explicit(
                DeviceDescriptor { vendor_id: v, product_id: p },
            ),
            _ => Selector::Scanning,
        }
    }

    /// What this state waits for.
    pub open spec fn pending(self) -> Request {
        match self {
            Selector::Explicit(device) => Request::OpenExact(device),
            Selector::Scanning => Request::NextDevice,
            Selector::Trying(device) => Request::OpenListed(device),
            Selector::Selected(device) => Request::Use(device),
            Selector::Failed => Request::GiveUp,
        }
    }

    /// The state after `reply`. An explicit identity is tried once. A scan
    /// passes over the devices that the map does not know, tries each that
    /// it knows, and ends with the first that opens or with the end of the
    /// enumeration. A reply that answers no pending request changes nothing.
    pub open spec fn next(self, map: VendorMap, reply: Reply) -> Selector {
        match (self, reply) {
            (Selector::Explicit(device), Reply::Opened) => Selector::Selected(device),
            (Selector::Explicit(_), Reply::NotOpened) => Selector::Failed,
            (Selector::Scanning, Reply::Device(device)) => if map.spec_allows(device) {
                Selector::Trying(device)
            } else {
                Selector::Scanning
            },
            (Selector::Scanning, Reply::NoMoreDevices) => Selector::Failed,
            (Selector::Trying(device), Reply::Opened) => Selector::Selected(device),
            (Selector::Trying(_), Reply::NotOpened) => Selector::Scanning,
            _ => self,
        }
    }

    /// How the selection ended, once it has.
    pub open spec fn spec_outcome(self) -> Option<Result<DeviceDescriptor, Error>> {
        match self {
            Selector::Selected(device) => Some(Ok(device)),
            Selector::Failed => Some(Err(Error::DeviceNotFound)),
            _ => None,
        }
    }

    /// Computes [`Selector::spec_start`].
    pub fn start(vid: Option<u16>, pid: Option<u16>) -> (state: Selector)
        ensures
            state == Selector::spec_start(vid, pid),
    {
        match (vid, pid) {
            (Some(v), Some(p)) => Selector::Explicit(
                DeviceDescriptor { vendor_id: v, product_id: p },
            ),
            _ => Selector::Scanning,
        }
    }

    /// Computes [`Selector::pending`].
    pub fn request(&self) -> (request: Request)
        ensures
            request == self.pending(),
    {
        match self {
            Selector::Explicit(device) => Request::OpenExact(*device),
            Selector::Scanning => Request::NextDevice,
            Selector::Trying(device) => Request::OpenListed(*device),
            Selector::Selected(device) => Request::Use(*device),
            Selector::Failed => Request::GiveUp,
        }
    }

    /// Computes [`Selector::next`].
    pub fn step(&self, map: &VendorMap, reply: Reply) -> (state: Selector)
        ensures
            state == self.next(*map, reply),
    {
        match (*self, reply) {
            (Selector::Explicit(device), Reply::Opened) => Selector::Selected(device),
            (Selector::Explicit(_), Reply::NotOpened) => Selector::Failed,
            (Selector::Scanning, Reply::Device(device)) => if map.allows(&device) {
                Selector::Trying(device)
            } else {
                Selector::Scanning
            },
            (Selector::Scanning, Reply::NoMoreDevices) => Selector::Failed,
            (Selector::Trying(device), Reply::Opened) => Selector::Selected(device),
            (Selector::Trying(_), Reply::NotOpened) => Selector::Scanning,
            _ => *self,
        }
    }

    /// Computes [`Selector::spec_outcome`].
    pub fn outcome(&self) -> (outcome: Option<Result<DeviceDescriptor, Error>>)
        ensures
            outcome == self.spec_outcome(),
    {
        match self {
            Selector::Selected(device) => Some(Ok(*device)),
            Selector::Failed => Some(Err(Error::DeviceNotFound)),
            _ => None,
        }
    }
}

/// With an explicit identity the map is never consulted: whatever it holds,
/// the device is used if it opens and the selection fails if it does not.
pub proof fn lemma_explicit_ignores_map(
    vid: u16,
    pid: u16,
    map: VendorMap,
    other: VendorMap,
    reply: Reply,
)
    ensures
        Selector::spec_start(Some(vid), Some(pid)).next(map, reply) == Selector::spec_start(
            Some(vid),
            Some(pid),
        ).next(other, reply),
        Selector::spec_start(Some(vid), Some(pid)).next(map, Reply::NotOpened).spec_outcome()
            == Some(Err::<DeviceDescriptor, Error>(Error::DeviceNotFound)),
        Selector::spec_start(Some(vid), Some(pid)).next(map, Reply::Opened).spec_outcome() == Some(
            Ok::<DeviceDescriptor, Error>(DeviceDescriptor { vendor_id: vid, product_id: pid }),
        ),
{
}

/// A selection that is over stays as it is and asks for nothing more:
/// after the first device that opens, no further device is enumerated.
pub proof fn lemma_over_is_final(state: Selector, map: VendorMap, reply: Reply)
    requires
        state.spec_outcome() is Some,
    ensures
        state.next(map, reply) == state,
        state.pending() != Request::NextDevice,
        state.pending() is Use || state.pending() is GiveUp,
{
}

/// A connected device, and whether an attempt to open it succeeds.
#[derive(Clone, Copy, Debug, PartialEq, Eq, Structural)]
pub struct Candidate {
    pub device: DeviceDescriptor,
    pub opens: bool,
}

/// Whether a scan stops at `candidate`: the map knows it, and it opens.
pub open spec fn usable(map: VendorMap, candidate: Candidate) -> bool {
    map.spec_allows(candidate.device) && candidate.opens
}

/// Scans `listed` in order and gives the position of the first device that
/// the map knows and that opens. Where there is none the scan fails with
/// [`Error::DeviceNotFound`].
pub fn scan(map: &VendorMap, listed: &Vec<Candidate>) -> (found: Result<usize, Error>)
    ensures
        match found {
            Ok(at) => {
                &&& at < listed.len()
                &&& usable(*map, listed[at as int])
                &&& forall|j: int| 0 <= j < at ==> !usable(*map, #[trigger] listed[j])
            },
            Err(e) => {
                &&& e == Error::DeviceNotFound
                &&& forall|j: int| 0 <= j < listed.len() ==> !usable(*map, #[trigger] listed[j])
            },
        },
{
    let mut state = Selector::start(None, None);
    let mut i: usize = 0;
    while i < listed.len()
        invariant
            i <= listed.len(),
            state == Selector::Scanning,
            forall|j: int| 0 <= j < i ==> !usable(*map, #[trigger] listed[j]),
        decreases listed.len() - i,
    {
        let candidate = listed[i];
        state = state.step(map, Reply::Device(candidate.device));
        match state.request() {
            Request::OpenListed(_) => {
                let reply = if candidate.opens { Reply::Opened } else { Reply::NotOpened };
                state = state.step(map, reply);
            },
            _ => {},
        }
        match state.outcome() {
            Some(_) => {
                return Ok(i);
            },
            None => {},
        }
        i = i + 1;
    }
    match state.step(map, Reply::NoMoreDevices).outcome() {
        Some(Err(e)) => Err(e),
        _ => Err(Error::DeviceNotFound),
    }
}

} // verus!
