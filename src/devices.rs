use vstd::prelude::*;
use crate::error::AudioError;

verus! {

/// A backend-neutral description of an output device.
#[derive(Clone, Debug)]
pub struct AudioDeviceInfo {
    pub id: String,
    pub name: String,
    pub is_default: bool,
    pub sample_rate: Option<u32>,
    pub channels: Option<u16>,
}

/// What a device descriptor holds, with its strings as character sequences.
pub struct DeviceView {
    pub id: Seq<char>,
    pub name: Seq<char>,
    pub is_default: bool,
    pub sample_rate: Option<u32>,
    pub channels: Option<u16>,
}

impl View for AudioDeviceInfo {
    type V = DeviceView;

    open spec fn view(&self) -> DeviceView {
        DeviceView {
            id: self.id@,
            name: self.name@,
            is_default: self.is_default,
            sample_rate: self.sample_rate,
            channels: self.channels,
        }
    }
}

impl AudioDeviceInfo {
    /// A copy of the descriptor.
    pub fn duplicate(&self) -> (r: AudioDeviceInfo)
        ensures
            r@ == self@,
    {
        AudioDeviceInfo {
            id: self.id.clone(),
            name: self.name.clone(),
            is_default: self.is_default,
            sample_rate: self.sample_rate,
            channels: self.channels,
        }
    }
}

/// One output device as a platform backend reported it; any attribute the
/// backend failed to read is absent.
pub struct ReportedDevice {
    pub uid: Option<String>,
    pub name: Option<String>,
    pub sample_rate: Option<u32>,
    pub channels: Option<u16>,
}

/// The outcome of one successful backend query.
pub struct BackendListing {
    pub devices: Vec<ReportedDevice>,
    /// Identifier of the system default output, when the backend knows it.
    pub default_uid: Option<String>,
}

pub open spec fn unknown_name() -> Seq<char> {
    "Unknown Device"@
}

pub open spec fn positive_u32(v: Option<u32>) -> Option<u32> {
    match v {
        Some(x) => if x > 0 {
            Some(x)
        } else {
            None
        },
        None => None,
    }
}

pub open spec fn positive_u16(v: Option<u16>) -> Option<u16> {
    match v {
        Some(x) => if x > 0 {
            Some(x)
        } else {
            None
        },
        None => None,
    }
}

/// The descriptor of a reported device whose identifier is `uid`.
pub open spec fn describe(r: ReportedDevice, uid: Seq<char>, default_uid: Option<Seq<char>>) -> DeviceView {
    DeviceView {
        id: uid,
        name: match r.name {
            Some(n) => n@,
            None => unknown_name(),
        },
        is_default: default_uid == Some(uid),
        sample_rate: positive_u32(r.sample_rate),
        channels: positive_u16(r.channels),
    }
}

/// The descriptors of a backend report, in order: devices whose identifier
/// could not be read are left out, and of devices that share an identifier
/// only the first is kept.
pub open spec fn described(rs: Seq<ReportedDevice>, default_uid: Option<Seq<char>>) -> Seq<DeviceView>
    decreases rs.len(),
{
    if rs.len() == 0 {
        Seq::empty()
    } else {
        let rest = described(rs.drop_last(), default_uid);
        match rs.last().uid {
            Some(u) => if has_no_id(rest, u@) {
                rest.push(describe(rs.last(), u@, default_uid))
            } else {
                rest
            },
            None => rest,
        }
    }
}

/// No two descriptors share an identifier.
pub open spec fn ids_distinct(ds: Seq<DeviceView>) -> bool {
    forall|i: int, j: int|
        0 <= i < ds.len() && 0 <= j < ds.len() && i != j ==> (#[trigger] ds[i]).id != (
        #[trigger] ds[j]).id
}

/// At most one descriptor is marked as the default.
pub open spec fn at_most_one_default(ds: Seq<DeviceView>) -> bool {
    forall|i: int, j: int|
        0 <= i < ds.len() && 0 <= j < ds.len() && (#[trigger] ds[i]).is_default && (
        #[trigger] ds[j]).is_default ==> i == j
}

/// Sample rates and channel counts, where given, are positive.
pub open spec fn formats_positive(ds: Seq<DeviceView>) -> bool {
    forall|i: int|
        0 <= i < ds.len() ==> (#[trigger] ds[i]).sample_rate != Some(0u32) && ds[i].channels
            != Some(0u16)
}

/// A list of descriptors that is consistent in itself: unique identifiers, at
/// most one default, and positive formats.
pub open spec fn self_consistent(ds: Seq<DeviceView>) -> bool {
    &&& ids_distinct(ds)
    &&& at_most_one_default(ds)
    &&& formats_positive(ds)
}

proof fn lemma_described_consistent(rs: Seq<ReportedDevice>, default_uid: Option<Seq<char>>)
    ensures
        self_consistent(described(rs, default_uid)),
        forall|i: int|
            0 <= i < described(rs, default_uid).len() ==> (#[trigger] described(
                rs,
                default_uid,
            )[i]).is_default == (default_uid == Some(described(rs, default_uid)[i].id)),
    decreases rs.len(),
{
    if rs.len() > 0 {
        lemma_described_consistent(rs.drop_last(), default_uid);
    }
}

pub open spec fn views(ds: Seq<AudioDeviceInfo>) -> Seq<DeviceView> {
    ds.map_values(|d: AudioDeviceInfo| d@)
}

pub open spec fn listing_view(l: BackendListing) -> Seq<DeviceView> {
    described(l.devices@, opt_view(l.default_uid))
}

pub open spec fn opt_view(o: Option<String>) -> Option<Seq<char>> {
    match o {
        Some(u) => Some(u@),
        None => None,
    }
}

fn positive_rate(v: Option<u32>) -> (r: Option<u32>)
    ensures
        r == positive_u32(v),
{
    match v {
        Some(x) => if x > 0 {
            Some(x)
        } else {
            None
        },
        None => None,
    }
}

fn positive_channels(v: Option<u16>) -> (r: Option<u16>)
    ensures
        r == positive_u16(v),
{
    match v {
        Some(x) => if x > 0 {
            Some(x)
        } else {
            None
        },
        None => None,
    }
}

/// Normalises what a backend reported into device descriptors, or passes on
/// the backend's failure.
pub fn list_audio_output_devices(report: Result<BackendListing, AudioError>) -> (r: Result<
    Vec<AudioDeviceInfo>,
    AudioError,
>)
    ensures
        match report {
            Err(e) => r == Err::<Vec<AudioDeviceInfo>, AudioError>(e),
            Ok(l) => r is Ok && views(r->Ok_0@) == listing_view(l) && self_consistent(
                views(r->Ok_0@),
            ),
        },
{
    match report {
        Err(e) => Err(e),
        Ok(listing) => {
            let ghost dflt = opt_view(listing.default_uid);
            let mut out: Vec<AudioDeviceInfo> = Vec::new();
            let mut i: usize = 0;
            while i < listing.devices.len()
                invariant
                    i <= listing.devices@.len(),
                    dflt == opt_view(listing.default_uid),
                    views(out@) == described(listing.devices@.subrange(0, i as int), dflt),
                decreases listing.devices@.len() - i,
            {
                let rd = &listing.devices[i];
                proof {
                    assert(listing.devices@.subrange(0, i + 1).drop_last()
                        =~= listing.devices@.subrange(0, i as int));
                    assert(listing.devices@.subrange(0, i + 1).last() == listing.devices@[i as int]);
                }
                match &rd.uid {
                    Some(uid) => if device_with_id(&out, uid).is_none() {
                        let is_default = match &listing.default_uid {
                            Some(d) => *d == *uid,
                            None => false,
                        };
                        let name = match &rd.name {
                            Some(n) => n.clone(),
                            None => {
                                proof {
                                    reveal_strlit("Unknown Device");
                                }
                                String::from_str("Unknown Device")
                            },
                        };
                        let info = AudioDeviceInfo {
                            id: uid.clone(),
                            name,
                            is_default,
                            sample_rate: positive_rate(rd.sample_rate),
                            channels: positive_channels(rd.channels),
                        };
                        let ghost before = out@;
                        let ghost added = info@;
                        out.push(info);
                        proof {
                            assert(views(out@) =~= views(before).push(added));
                        }
                    },
                    _ => {},
                }
                i = i + 1;
            }
            proof {
                assert(listing.devices@.subrange(0, listing.devices@.len() as int) =~= listing.devices@);
                lemma_described_consistent(listing.devices@, dflt);
            }
            Ok(out)
        },
    }
}

/// Listing of the output devices offered to the front end.
pub fn list_system_audio_devices(report: Result<BackendListing, AudioError>) -> (r: Result<
    Vec<AudioDeviceInfo>,
    AudioError,
>)
    ensures
        match report {
            Err(e) => r == Err::<Vec<AudioDeviceInfo>, AudioError>(e),
            Ok(l) => r is Ok && views(r->Ok_0@) == listing_view(l) && self_consistent(
                views(r->Ok_0@),
            ),
        },
{
    list_audio_output_devices(report)
}

/// `i` is the first position of `ds` that holds a default device.
pub open spec fn first_default_at(ds: Seq<DeviceView>, i: int) -> bool {
    &&& 0 <= i < ds.len()
    &&& ds[i].is_default
    &&& forall|j: int| 0 <= j < i ==> !(#[trigger] ds[j]).is_default
}

pub open spec fn has_no_default(ds: Seq<DeviceView>) -> bool {
    forall|j: int| 0 <= j < ds.len() ==> !(#[trigger] ds[j]).is_default
}

/// `i` is the first position of `ds` whose identifier is `id`.
pub open spec fn first_with_id_at(ds: Seq<DeviceView>, id: Seq<char>, i: int) -> bool {
    &&& 0 <= i < ds.len()
    &&& ds[i].id == id
    &&& forall|j: int| 0 <= j < i ==> (#[trigger] ds[j]).id != id
}

pub open spec fn has_no_id(ds: Seq<DeviceView>, id: Seq<char>) -> bool {
    forall|j: int| 0 <= j < ds.len() ==> (#[trigger] ds[j]).id != id
}

/// The first device marked as the default; none is made up where the list
/// marks none.
pub fn default_device(devices: &Vec<AudioDeviceInfo>) -> (r: Option<AudioDeviceInfo>)
    ensures
        match r {
            Some(d) => exists|i: int| first_default_at(views(devices@), i) && d@ == views(devices@)[i],
            None => has_no_default(views(devices@)),
        },
{
    let mut i: usize = 0;
    while i < devices.len()
        invariant
            i <= devices@.len(),
            forall|j: int| 0 <= j < i ==> !(#[trigger] views(devices@)[j]).is_default,
        decreases devices@.len() - i,
    {
        if devices[i].is_default {
            let d = devices[i].duplicate();
            assert(first_default_at(views(devices@), i as int));
            return Some(d);
        }
        i = i + 1;
    }
    None
}

/// The first device whose identifier is `id`.
pub fn device_with_id(devices: &Vec<AudioDeviceInfo>, id: &String) -> (r: Option<AudioDeviceInfo>)
    ensures
        match r {
            Some(d) => exists|i: int| first_with_id_at(views(devices@), id@, i) && d@ == views(devices@)[i],
            None => has_no_id(views(devices@), id@),
        },
{
    let mut i: usize = 0;
    while i < devices.len()
        invariant
            i <= devices@.len(),
            forall|j: int| 0 <= j < i ==> (#[trigger] views(devices@)[j]).id != id@,
        decreases devices@.len() - i,
    {
        if devices[i].id == *id {
            let d = devices[i].duplicate();
            assert(first_with_id_at(views(devices@), id@, i as int));
            return Some(d);
        }
        i = i + 1;
    }
    None
}

/// The system default output device, if the backend identifies one.
pub fn get_default_audio_device(report: Result<BackendListing, AudioError>) -> (r: Result<
    Option<AudioDeviceInfo>,
    AudioError,
>)
    ensures
        match report {
            Err(e) => r == Err::<Option<AudioDeviceInfo>, AudioError>(e),
            Ok(l) => match r {
                Ok(Some(d)) => exists|i: int| first_default_at(listing_view(l), i) && d@ == listing_view(l)[i],
                Ok(None) => has_no_default(listing_view(l)),
                Err(_) => false,
            },
        },
{
    let devices = list_audio_output_devices(report)?;
    Ok(default_device(&devices))
}

} // verus!
