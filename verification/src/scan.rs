//! The advertisement scan: which adapter events lead to a device record, when
//! the scan stops, and what a device record holds.

use vstd::prelude::*;
use std::collections::HashMap;
use crate::error::SessionError;
use crate::reader::{ends_loop, should_stop, StopPoll};

verus! {

/// Topic under which device records are published.
pub const SCAN_EVENT_TOPIC: &'static str = "ble_advertisement_scan_event";

/// Topic on which the host asks the scan to stop.
pub const SCAN_CANCEL_TOPIC: &'static str = "stop_ble_advertisement_scan";

/// What the adapter knows of a peripheral at one moment. The service payloads
/// stand in the order in which the adapter's table was walked.
#[derive(Clone, Debug, PartialEq, Eq)]
pub struct AdvertisementProperties {
    pub local_name: Option<String>,
    pub rssi: Option<i16>,
    pub manufacturer_data: HashMap<u16, Vec<u8>>,
    pub services: Vec<String>,
    pub service_data: Vec<(String, Vec<u8>)>,
}

/// One sighting of an advertising device.
#[derive(Clone, Debug, PartialEq, Eq)]
pub struct BleDevice {
    pub address: String,
    pub local_name: String,
    pub rssi: i16,
    pub manufacturer_data: HashMap<u16, Vec<u8>>,
    pub services: Vec<String>,
    pub service_data: Vec<(String, Vec<u8>)>,
    pub adv: Vec<u8>,
}

/// Whether no service identifier occurs twice.
pub open spec fn distinct_services(service_data: Seq<(String, Vec<u8>)>) -> bool {
    forall|i: int, j: int|
        0 <= i < j < service_data.len() ==> (#[trigger] service_data[i]).0@ != (
        #[trigger] service_data[j]).0@
}

/// All service payloads, one after the other.
pub open spec fn joined_payloads(service_data: Seq<(String, Vec<u8>)>) -> Seq<u8>
    decreases service_data.len(),
{
    if service_data.len() == 0 {
        Seq::empty()
    } else {
        joined_payloads(service_data.drop_last()) + service_data.last().1@
    }
}

impl AdvertisementProperties {
    /// Each service identifier has one payload.
    pub open spec fn wf(self) -> bool {
        distinct_services(self.service_data@)
    }
}

impl BleDevice {
    /// Each service identifier has one payload, and `adv` is all the payloads
    /// joined.
    pub open spec fn wf(self) -> bool {
        distinct_services(self.service_data@) && self.adv@ == joined_payloads(self.service_data@)
    }

    /// Whether the record shows `props` as seen at `address`: a missing name
    /// reads as empty and a missing signal strength as 0.
    pub open spec fn portrays(self, address: String, props: AdvertisementProperties) -> bool {
        &&& self.address == address
        &&& self.local_name@ == match props.local_name {
            Some(name) => name@,
            None => Seq::empty(),
        }
        &&& self.rssi == match props.rssi {
            Some(level) => level,
            None => 0i16,
        }
        &&& self.manufacturer_data == props.manufacturer_data
        &&& self.services == props.services
        &&& self.service_data == props.service_data
        &&& self.adv@ == joined_payloads(props.service_data@)
    }

    /// The record of a sighting at `address` with the properties `props`.
    pub fn from_properties(address: String, props: AdvertisementProperties) -> (r: BleDevice)
        ensures
            r.portrays(address, props),
            props.wf() ==> r.wf(),
    {
        let mut adv: Vec<u8> = Vec::new();
        let mut i: usize = 0;
        while i < props.service_data.len()
            invariant
                i <= props.service_data@.len(),
                adv@ == joined_payloads(props.service_data@.take(i as int)),
            decreases props.service_data@.len() - i,
        {
            let payload: &Vec<u8> = &props.service_data[i].1;
            adv.extend_from_slice(payload.as_slice());
            proof {
                let prefix = props.service_data@.take(i + 1);
                assert(prefix.drop_last() == props.service_data@.take(i as int));
                assert(prefix.last() == props.service_data@[i as int]);
            }
            i = i + 1;
        }
        assert(props.service_data@.take(props.service_data@.len() as int) == props.service_data@);
        let local_name = match props.local_name {
            Some(name) => name,
            None => String::new(),
        };
        let rssi: i16 = match props.rssi {
            Some(level) => level,
            None => 0,
        };
        BleDevice {
            address,
            local_name,
            rssi,
            manufacturer_data: props.manufacturer_data,
            services: props.services,
            service_data: props.service_data,
            adv,
        }
    }
}

/// The record to publish for a peripheral at `address`, given what looking up
/// its properties gave. Without properties there is no record: none is made
/// up from partial data.
pub fn record_for(address: String, lookup: Option<AdvertisementProperties>) -> (r: Option<
    BleDevice,
>)
    ensures
        match lookup {
            Some(props) => r matches Some(device) && device.portrays(address, props) && (
            props.wf() ==> device.wf()),
            None => r is None,
        },
{
    match lookup {
        Some(props) => Some(BleDevice::from_properties(address, props)),
        None => None,
    }
}

/// The first of the adapters that the system offers.
pub fn select_adapter<A>(adapters: Vec<A>) -> (r: Result<A, SessionError>)
    ensures
        match r {
            Ok(adapter) => adapters@.len() > 0 && adapter == adapters@[0],
            Err(e) => adapters@.len() == 0 && e == SessionError::NoAdapter,
        },
{
    let mut adapters = adapters;
    if adapters.len() == 0 {
        Err(SessionError::NoAdapter)
    } else {
        Ok(adapters.remove(0))
    }
}

/// An event of the adapter, with the identity of the peripheral it is about.
#[derive(Clone, Debug, PartialEq, Eq)]
pub enum ScanEvent<I> {
    DeviceDiscovered(I),
    ManufacturerDataAdvertisement(I),
    ServiceDataAdvertisement(I),
    ServicesAdvertisement(I),
    DeviceConnected(I),
    DeviceDisconnected(I),
    /// Any other kind of event.
    Other,
}

/// What the scan does with one event.
#[derive(Clone, Debug, PartialEq, Eq)]
pub enum ScanAction<I> {
    /// Leave the loop and unsubscribe.
    Stop,
    /// Look up the peripheral's properties and publish its record.
    Resolve(I),
    /// Nothing.
    Skip,
}

/// What an event leads to while the scan runs: a sighting of any kind is
/// resolved to a record; connections and other events are passed over.
pub open spec fn action_for<I>(event: ScanEvent<I>) -> ScanAction<I> {
    match event {
        ScanEvent::DeviceDiscovered(id) => ScanAction::Resolve(id),
        ScanEvent::ManufacturerDataAdvertisement(id) => ScanAction::Resolve(id),
        ScanEvent::ServiceDataAdvertisement(id) => ScanAction::Resolve(id),
        ScanEvent::ServicesAdvertisement(id) => ScanAction::Resolve(id),
        ScanEvent::DeviceConnected(_) => ScanAction::Skip,
        ScanEvent::DeviceDisconnected(_) => ScanAction::Skip,
        ScanEvent::Other => ScanAction::Skip,
    }
}

/// Whether the scan is over after a look at the cancel channel.
pub open spec fn cancelled_after(cancelled: bool, poll: StopPoll) -> bool {
    cancelled || ends_loop(poll)
}

/// What the scan does with an event that arrives together with `poll`, the
/// look at the cancel channel made on its arrival.
pub open spec fn scan_step<I>(cancelled: bool, poll: StopPoll, event: ScanEvent<I>) -> ScanAction<
    I,
> {
    if cancelled_after(cancelled, poll) {
        ScanAction::Stop
    } else {
        action_for(event)
    }
}

/// The state of one advertisement scan.
#[derive(Debug)]
pub struct ScanSession {
    cancelled: bool,
}

impl ScanSession {
    /// Whether cancellation has been observed.
    pub closed spec fn cancelled(self) -> bool {
        self.cancelled
    }

    /// A scan that has just been started.
    pub fn new() -> (r: Self)
        ensures
            !r.cancelled(),
    {
        ScanSession { cancelled: false }
    }

    /// Whether cancellation has been observed.
    pub fn is_cancelled(&self) -> (r: bool)
        ensures
            r == self.cancelled(),
    {
        self.cancelled
    }

    /// Takes one event of the adapter together with `poll`, the look at the
    /// cancel channel made on its arrival. Cancellation is looked for before
    /// the event is: once it has been observed, every event is answered with
    /// `Stop`.
    pub fn on_event<I>(&mut self, poll: StopPoll, event: ScanEvent<I>) -> (r: ScanAction<I>)
        ensures
            final(self).cancelled() == cancelled_after(old(self).cancelled(), poll),
            r == scan_step(old(self).cancelled(), poll, event),
    {
        if self.cancelled || should_stop(poll) {
            self.cancelled = true;
            return ScanAction::Stop;
        }
        match event {
            ScanEvent::DeviceDiscovered(id) => ScanAction::Resolve(id),
            ScanEvent::ManufacturerDataAdvertisement(id) => ScanAction::Resolve(id),
            ScanEvent::ServiceDataAdvertisement(id) => ScanAction::Resolve(id),
            ScanEvent::ServicesAdvertisement(id) => ScanAction::Resolve(id),
            ScanEvent::DeviceConnected(_) => ScanAction::Skip,
            ScanEvent::DeviceDisconnected(_) => ScanAction::Skip,
            ScanEvent::Other => ScanAction::Skip,
        }
    }
}

/// What a scan does over a series of events, each with the look at the
/// cancel channel made on its arrival.
pub open spec fn scan_actions<I>(cancelled: bool, arrivals: Seq<(StopPoll, ScanEvent<I>)>) -> Seq<
    ScanAction<I>,
>
    decreases arrivals.len(),
{
    if arrivals.len() == 0 {
        Seq::empty()
    } else {
        seq![scan_step(cancelled, arrivals[0].0, arrivals[0].1)] + scan_actions(
            cancelled_after(cancelled, arrivals[0].0),
            arrivals.drop_first(),
        )
    }
}

/// Each event is answered with one action. Until cancellation is observed
/// every event is answered by its kind alone.
pub proof fn law_events_before_cancel<I>(arrivals: Seq<(StopPoll, ScanEvent<I>)>, at: int)
    requires
        0 <= at < arrivals.len(),
        forall|i: int| 0 <= i <= at ==> !ends_loop((#[trigger] arrivals[i]).0),
    ensures
        scan_actions(false, arrivals).len() == arrivals.len(),
        scan_actions(false, arrivals)[at] == action_for(arrivals[at].1),
    decreases arrivals.len(),
{
    lemma_one_action_each(false, arrivals);
    assert(!ends_loop(arrivals[0].0));
    if at > 0 {
        let rest = arrivals.drop_first();
        assert forall|i: int| 0 <= i <= at - 1 implies !ends_loop((#[trigger] rest[i]).0) by {
            assert(rest[i] == arrivals[i + 1]);
        }
        law_events_before_cancel(rest, at - 1);
        assert(rest[at - 1] == arrivals[at]);
    }
}

/// From the event on whose arrival cancellation is observed, every event is
/// answered with `Stop`: no record is published any more.
pub proof fn law_no_record_after_cancel<I>(
    cancelled: bool,
    arrivals: Seq<(StopPoll, ScanEvent<I>)>,
    seen: int,
    later: int,
)
    requires
        0 <= seen <= later < arrivals.len(),
        ends_loop(arrivals[seen].0),
    ensures
        scan_actions(cancelled, arrivals).len() == arrivals.len(),
        scan_actions(cancelled, arrivals)[later] == ScanAction::<I>::Stop,
    decreases arrivals.len(),
{
    lemma_one_action_each(cancelled, arrivals);
    let rest = arrivals.drop_first();
    if later > 0 {
        if seen == 0 {
            lemma_stopped_stays_stopped(rest, later - 1);
        } else {
            assert(rest[seen - 1] == arrivals[seen]);
            law_no_record_after_cancel(
                cancelled_after(cancelled, arrivals[0].0),
                rest,
                seen - 1,
                later - 1,
            );
        }
    }
}

proof fn lemma_one_action_each<I>(cancelled: bool, arrivals: Seq<(StopPoll, ScanEvent<I>)>)
    ensures
        scan_actions(cancelled, arrivals).len() == arrivals.len(),
    decreases arrivals.len(),
{
    if arrivals.len() > 0 {
        lemma_one_action_each(cancelled_after(cancelled, arrivals[0].0), arrivals.drop_first());
    }
}

proof fn lemma_stopped_stays_stopped<I>(arrivals: Seq<(StopPoll, ScanEvent<I>)>, at: int)
    requires
        0 <= at < arrivals.len(),
    ensures
        scan_actions(true, arrivals).len() == arrivals.len(),
        scan_actions(true, arrivals)[at] == ScanAction::<I>::Stop,
    decreases arrivals.len(),
{
    lemma_one_action_each(true, arrivals);
    if at > 0 {
        lemma_stopped_stays_stopped(arrivals.drop_first(), at - 1);
    }
}

} // verus!
