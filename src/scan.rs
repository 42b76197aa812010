//! Device records built from a discovery pass, and the list they replace.

use vstd::prelude::*;

use crate::address::{address_text, address_text_of};

verus! {

/// What asking a discovered device for its name gave.
pub enum NameLookup {
    /// The query itself failed.
    Failed,
    /// The device exposes no name.
    Unnamed,
    /// The device's name.
    Named(String),
}

/// One item of the discovery stream.
pub enum Discovered {
    /// The stream reported an error in place of a device.
    Failed,
    /// A device, with its hardware address and the outcome of its name lookup.
    Found { address: [u8; 6], name: NameLookup },
}

/// A device shown to the user: its display name and its address in text form.
pub struct BluetoothDevice {
    pub name: String,
    pub address: String,
}

/// The mathematical value of a device record.
pub struct DeviceModel {
    pub name: Seq<char>,
    pub address: Seq<char>,
}

impl View for BluetoothDevice {
    type V = DeviceModel;

    open spec fn view(&self) -> DeviceModel {
        DeviceModel { name: self.name@, address: self.address@ }
    }
}

impl Clone for BluetoothDevice {
    fn clone(&self) -> (r: Self)
        ensures
            r@ == self@,
    {
        BluetoothDevice { name: self.name.clone(), address: self.address.clone() }
    }
}

/// The record a discovery item yields: only a device with a non-empty name
/// has one; failed items, failed lookups and nameless devices are skipped.
pub open spec fn record_of(d: Discovered) -> Option<DeviceModel> {
    match d {
        Discovered::Found { address, name: NameLookup::Named(n) } => {
            if n@.len() > 0 {
                Some(DeviceModel { name: n@, address: address_text_of(address@) })
            } else {
                None
            }
        },
        _ => None,
    }
}

/// The records of a whole discovery pass, in the order the devices came.
pub open spec fn scan_records(ds: Seq<Discovered>) -> Seq<DeviceModel>
    decreases ds.len(),
{
    if ds.len() == 0 {
        Seq::empty()
    } else {
        let prev = scan_records(ds.drop_last());
        match record_of(ds.last()) {
            Some(r) => prev.push(r),
            None => prev,
        }
    }
}

/// The view of each record in a vector of them.
pub open spec fn models(v: Seq<BluetoothDevice>) -> Seq<DeviceModel> {
    v.map_values(|d: BluetoothDevice| d@)
}

/// The record for one discovery item, if it has one.
pub fn record_for(item: &Discovered) -> (r: Option<BluetoothDevice>)
    ensures
        r matches Some(d) ==> record_of(*item) == Some(d@),
        r is None <==> record_of(*item) is None,
{
    match item {
        Discovered::Found { address, name: NameLookup::Named(n) } => {
            if n.as_str().is_empty() {
                None
            } else {
                Some(BluetoothDevice { name: n.clone(), address: address_text(*address) })
            }
        },
        _ => None,
    }
}

/// The records of a discovery pass: one per named device, in stream order.
pub fn collect_devices(items: &Vec<Discovered>) -> (r: Vec<BluetoothDevice>)
    ensures
        models(r@) == scan_records(items@),
{
    let mut out: Vec<BluetoothDevice> = Vec::new();
    let mut i: usize = 0;
    while i < items.len()
        invariant
            i <= items@.len(),
            models(out@) == scan_records(items@.subrange(0, i as int)),
        decreases items@.len() - i,
    {
        proof {
            assert(items@.subrange(0, i + 1).drop_last() =~= items@.subrange(0, i as int));
        }
        match record_for(&items[i]) {
            Some(d) => {
                out.push(d);
            },
            None => {},
        }
        assert(models(out@) =~= scan_records(items@.subrange(0, i + 1)));
        i = i + 1;
    }
    assert(items@.subrange(0, items@.len() as int) =~= items@);
    out
}

/// The device list after a scan: exactly the records of that scan, whatever
/// the list held before.
pub open spec fn after_scan(before: Seq<DeviceModel>, ds: Seq<Discovered>) -> Seq<DeviceModel> {
    scan_records(ds)
}

/// The devices found by the most recent scan.
pub struct DeviceList {
    devices: Vec<BluetoothDevice>,
}

impl View for DeviceList {
    type V = Seq<DeviceModel>;

    closed spec fn view(&self) -> Seq<DeviceModel> {
        models(self.devices@)
    }
}

impl DeviceList {
    /// An empty list, as before the first scan.
    pub fn new() -> (r: DeviceList)
        ensures
            r@ == Seq::<DeviceModel>::empty(),
    {
        let r = DeviceList { devices: Vec::new() };
        assert(r@ =~= Seq::<DeviceModel>::empty());
        r
    }

    /// Replaces the whole list by the records of a discovery pass.
    pub fn apply_scan(&mut self, items: &Vec<Discovered>)
        ensures
            final(self)@ == after_scan(old(self)@, items@),
    {
        self.devices = collect_devices(items);
    }

    /// The number of devices in the list.
    pub fn len(&self) -> (r: usize)
        ensures
            r == self@.len(),
    {
        self.devices.len()
    }

    /// The device at position `i`.
    pub fn get(&self, i: usize) -> (r: &BluetoothDevice)
        requires
            i < self@.len(),
        ensures
            r@ == self@[i as int],
    {
        &self.devices[i]
    }

    /// A copy of every device in the list, in order.
    pub fn to_vec(&self) -> (r: Vec<BluetoothDevice>)
        ensures
            models(r@) == self@,
    {
        let mut out: Vec<BluetoothDevice> = Vec::new();
        let mut i: usize = 0;
        while i < self.devices.len()
            invariant
                i <= self.devices@.len(),
                out@.len() == i,
                forall|k: int| 0 <= k < i ==> (#[trigger] out@[k])@ == self.devices@[k]@,
            decreases self.devices@.len() - i,
        {
            let d = &self.devices[i];
            out.push(BluetoothDevice { name: d.name.clone(), address: d.address.clone() });
            i = i + 1;
        }
        assert(models(out@) =~= models(self.devices@));
        out
    }
}

/// Whether `d` is a device that the platform reported under the name and
/// the address that `rec` shows.
pub open spec fn reported_by(d: Discovered, rec: DeviceModel) -> bool {
    match d {
        Discovered::Found { address, name: NameLookup::Named(n) } => n@ == rec.name
            && rec.address == address_text_of(address@),
        _ => false,
    }
}

/// Every record of a scan has a non-empty name, and its address is the text
/// form of the address that the platform reported for a device of that name.
pub proof fn scan_records_are_named(ds: Seq<Discovered>)
    ensures
        forall|i: int|
            0 <= i < scan_records(ds).len() ==> {
                let rec = #[trigger] scan_records(ds)[i];
                &&& rec.name.len() > 0
                &&& exists|j: int|
                    0 <= j < ds.len() && #[trigger] record_of(ds[j]) == Some(rec) && reported_by(ds[j], rec)
            },
    decreases ds.len(),
{
    if ds.len() > 0 {
        let prev = ds.drop_last();
        scan_records_are_named(prev);
        let recs = scan_records(ds);
        assert forall|i: int| 0 <= i < recs.len() implies {
            let rec = #[trigger] recs[i];
            &&& rec.name.len() > 0
            &&& exists|j: int|
                0 <= j < ds.len() && #[trigger] record_of(ds[j]) == Some(rec) && reported_by(ds[j], rec)
        } by {
            if i < scan_records(prev).len() {
                let rec = scan_records(prev)[i];
                let j = choose|j: int|
                    0 <= j < prev.len() && #[trigger] record_of(prev[j]) == Some(rec) && reported_by(prev[j], rec);
                assert(ds[j] == prev[j]);
            } else {
                let j = ds.len() - 1;
                assert(ds[j] == ds.last());
            }
        }
    }
}

/// A second scan replaces the list entirely: after two scans the list holds
/// the records of the second one alone, and nothing of the first survives
/// unless the second scan found it too.
pub proof fn rescan_replaces(before: Seq<DeviceModel>, first: Seq<Discovered>, second: Seq<Discovered>)
    ensures
        after_scan(after_scan(before, first), second) == scan_records(second),
        forall|r: DeviceModel|
            after_scan(after_scan(before, first), second).contains(r) && scan_records(first).contains(r)
                ==> #[trigger] scan_records(second).contains(r),
{
}

} // verus!
