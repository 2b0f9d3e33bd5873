//! The audio device model: parsing the device enumerator's listing,
//! selecting devices, and the volume arithmetic.

use crate::codes::{
    chars_of, digit_of, digit_val, is_digit, is_digit_x, is_line_ws, is_ws, lemma_trim_end_take,
    lemma_trim_start_skip, spec_dec_val, str_eq, trim_end, trim_start,
};
use crate::error::Error;
use vstd::prelude::*;

verus! {

/// The audio device kind: a playback (media) device or a capture
/// (microphone) device.
#[derive(Debug, Clone, Copy, PartialEq, Eq, Structural)]
pub enum DeviceKind {
    Media,
    Micro,
}

impl DeviceKind {
    /// Whether this is the playback (media) kind.
    pub fn is_media_device(&self) -> (r: bool)
        ensures
            r == (*self == DeviceKind::Media),
    {
        if let DeviceKind::Media = self {
            true
        } else {
            false
        }
    }

    /// Whether this is the capture (microphone) kind.
    pub fn is_micro_device(&self) -> (r: bool)
        ensures
            r == (*self == DeviceKind::Micro),
    {
        if let DeviceKind::Micro = self {
            true
        } else {
            false
        }
    }
}

/// One audio device as reported by the device enumerator.
#[derive(Debug, PartialEq)]
pub struct Device {
    pub name: String,
    pub kind: DeviceKind,
    pub is_active: bool,
}

impl Clone for Device {
    /// An exact copy of the device.
    fn clone(&self) -> (r: Self)
        ensures
            r == *self,
    {
        Device { name: self.name.clone(), kind: self.kind, is_active: self.is_active }
    }
}

/// Mathematical form of a [`Device`].
pub struct SpecDevice {
    pub name: Seq<char>,
    pub kind: DeviceKind,
    pub is_active: bool,
}

impl View for Device {
    type V = SpecDevice;

    open spec fn view(&self) -> SpecDevice {
        SpecDevice { name: self.name@, kind: self.kind, is_active: self.is_active }
    }
}

impl DeepView for Device {
    type V = SpecDevice;

    open spec fn deep_view(&self) -> SpecDevice {
        self.view()
    }
}

/// The audio controller: it remembers where the two external volume
/// tools live; the commands themselves run outside the library.
#[derive(Debug, Clone, PartialEq)]
pub struct Audio {
    svv_path: String,
    svcl_path: String,
}

impl Audio {
    /// The path of the device enumeration tool.
    pub closed spec fn spec_svv_path(&self) -> Seq<char> {
        self.svv_path@
    }

    /// The path of the volume query tool.
    pub closed spec fn spec_svcl_path(&self) -> Seq<char> {
        self.svcl_path@
    }

    /// Creates a new audio controller from the two tool paths.
    pub fn new(svv_path: String, svcl_path: String) -> (r: Result<Self, Error>)
        ensures
            r matches Ok(a) && a.spec_svv_path() == svv_path@ && a.spec_svcl_path()
                == svcl_path@,
    {
        Ok(Audio { svv_path, svcl_path })
    }

    /// Borrows the device enumeration tool's path.
    pub fn svv_path(&self) -> (r: &String)
        ensures
            r@ == self.spec_svv_path(),
    {
        &self.svv_path
    }

    /// Borrows the volume query tool's path.
    pub fn svcl_path(&self) -> (r: &String)
        ensures
            r@ == self.spec_svcl_path(),
    {
        &self.svcl_path
    }
}

/// What the comma-separated device listing parses to: for each data
/// record, its fields, or `None` for a malformed record.
pub uninterp spec fn csv_records_of(s: Seq<char>) -> Seq<Option<Seq<Seq<char>>>>;

/// Splits comma-separated text into its data records.  Relies on
/// `csv::Reader` in its default configuration: the first row is a header
/// row and is not yielded; every later row comes back as its fields, or
/// as `None` where the reader reports the row malformed.
#[verifier::external_body]
fn read_csv_records(text: &str) -> (r: Vec<Option<Vec<String>>>)
    ensures
        r.deep_view() == csv_records_of(text@),
{
    let mut reader = csv::Reader::from_reader(text.as_bytes());
    let mut out: Vec<Option<Vec<String>>> = Vec::new();
    for record in reader.records() {
        match record {
            Ok(fields) => out.push(Some(fields.iter().map(|f| f.to_string()).collect())),
            Err(_) => out.push(None),
        }
    }
    out
}

/// The device described by one record of the enumerator's listing, if
/// the record describes one: the record must be marked `Device`, carry a
/// `Render` or `Capture` kind and a non-empty name; it is active when
/// its state column says `Active` for its own direction.
pub open spec fn spec_device_of(rec: Seq<Seq<char>>) -> Option<SpecDevice> {
    if rec.len() < 2 || rec[1] != "Device"@ {
        None
    } else if rec.len() > 2 && (rec[2] == "Render"@ || rec[2] == "Capture"@) {
        if rec[0].len() == 0 {
            None
        } else {
            Some(
                SpecDevice {
                    name: rec[0],
                    kind: if rec[2] == "Render"@ {
                        DeviceKind::Media
                    } else {
                        DeviceKind::Micro
                    },
                    is_active: rec.len() > 7 && rec[7] == "Active"@ && (rec[5] == "Render"@
                        || rec[5] == "Capture"@),
                },
            )
        }
    } else {
        None
    }
}

/// The devices described by a listing's records, in listing order;
/// malformed records and records that describe no device are skipped.
pub open spec fn spec_devices_of(records: Seq<Option<Seq<Seq<char>>>>) -> Seq<SpecDevice>
    decreases records.len(),
{
    if records.len() == 0 {
        Seq::empty()
    } else {
        spec_devices_of(records.drop_last()) + (match records.last() {
            Some(rec) => match spec_device_of(rec) {
                Some(d) => seq![d],
                None => Seq::empty(),
            },
            None => Seq::empty(),
        })
    }
}

fn classify_record(rec: &Vec<String>) -> (r: Option<Device>)
    ensures
        r.deep_view() == spec_device_of(rec.deep_view()),
{
    if rec.len() < 2 {
        return None;
    }
    if !str_eq(&rec[1], "Device") {
        return None;
    }
    if rec.len() > 2 && (str_eq(&rec[2], "Render") || str_eq(&rec[2], "Capture")) {
        if rec[0].as_str().is_empty() {
            return None;
        }
        let kind = if str_eq(&rec[2], "Render") {
            DeviceKind::Media
        } else {
            DeviceKind::Micro
        };
        let is_active = rec.len() > 7 && str_eq(&rec[7], "Active") && (str_eq(&rec[5], "Render")
            || str_eq(&rec[5], "Capture"));
        Some(Device { name: rec[0].clone(), kind, is_active })
    } else {
        None
    }
}

/// Collects the devices that a listing's records describe; an empty
/// result is the "no devices set" error, exactly as the enumerator's
/// contract demands.
pub fn devices_from_records(records: &Vec<Option<Vec<String>>>) -> (r: Result<Vec<Device>, Error>)
    ensures
        ({
            let ds = spec_devices_of(records.deep_view());
            if ds.len() == 0 {
                r == Err::<Vec<Device>, Error>(Error::FoundNoDevices)
            } else {
                r matches Ok(v) && v.deep_view() == ds
            }
        }),
{
    let mut out: Vec<Device> = Vec::new();
    let mut idx: usize = 0;
    while idx < records.len()
        invariant
            idx <= records.len(),
            out.deep_view() == spec_devices_of(records.deep_view().take(idx as int)),
        decreases records.len() - idx,
    {
        assert(records.deep_view()[idx as int] == records@[idx as int].deep_view());
        match &records[idx] {
            Some(rec) => {
                match classify_record(rec) {
                    Some(d) => {
                        out.push(d);
                    },
                    None => {},
                }
            },
            None => {},
        }
        idx = idx + 1;
        proof {
            let rs = records.deep_view();
            assert(rs.take(idx as int).drop_last() =~= rs.take(idx - 1));
            assert(rs.take(idx as int).last() == rs[idx - 1]);
        }
    }
    proof {
        assert(records.deep_view().take(records.len() as int) =~= records.deep_view());
    }
    if out.len() == 0 {
        proof {
            assert(spec_devices_of(records.deep_view()).len() == out.deep_view().len());
        }
        Err(Error::FoundNoDevices)
    } else {
        Ok(out)
    }
}

/// Parses the device enumerator's comma-separated listing into the
/// devices it describes.
pub fn devices_from_csv(text: &str) -> (r: Result<Vec<Device>, Error>)
    ensures
        ({
            let ds = spec_devices_of(csv_records_of(text@));
            if ds.len() == 0 {
                r == Err::<Vec<Device>, Error>(Error::FoundNoDevices)
            } else {
                r matches Ok(v) && v.deep_view() == ds
            }
        }),
{
    let records = read_csv_records(text);
    devices_from_records(&records)
}

/// The devices of one kind, in order.
pub open spec fn spec_of_kind(ds: Seq<SpecDevice>, kind: DeviceKind) -> Seq<SpecDevice>
    decreases ds.len(),
{
    if ds.len() == 0 {
        Seq::empty()
    } else {
        spec_of_kind(ds.drop_last(), kind) + if ds.last().kind == kind {
            seq![ds.last()]
        } else {
            Seq::empty()
        }
    }
}

fn devices_of_kind(devices: &Vec<Device>, kind: DeviceKind) -> (r: Vec<Device>)
    ensures
        r.deep_view() == spec_of_kind(devices.deep_view(), kind),
{
    let mut out: Vec<Device> = Vec::new();
    let mut idx: usize = 0;
    while idx < devices.len()
        invariant
            idx <= devices.len(),
            out.deep_view() == spec_of_kind(devices.deep_view().take(idx as int), kind),
        decreases devices.len() - idx,
    {
        assert(devices.deep_view()[idx as int] == devices@[idx as int].deep_view());
        if devices[idx].kind.is_media_device() == (kind == DeviceKind::Media) {
            out.push(devices[idx].clone());
        }
        idx = idx + 1;
        proof {
            let ds = devices.deep_view();
            assert(ds.take(idx as int).drop_last() =~= ds.take(idx - 1));
            assert(ds.take(idx as int).last() == ds[idx - 1]);
        }
    }
    proof {
        assert(devices.deep_view().take(devices.len() as int) =~= devices.deep_view());
    }
    out
}

/// The playback devices of a listing, in order.
pub fn media_devices(devices: &Vec<Device>) -> (r: Vec<Device>)
    ensures
        r.deep_view() == spec_of_kind(devices.deep_view(), DeviceKind::Media),
{
    devices_of_kind(devices, DeviceKind::Media)
}

/// The capture devices of a listing, in order.
pub fn micro_devices(devices: &Vec<Device>) -> (r: Vec<Device>)
    ensures
        r.deep_view() == spec_of_kind(devices.deep_view(), DeviceKind::Micro),
{
    devices_of_kind(devices, DeviceKind::Micro)
}

/// The first active device of one kind, if any.
pub open spec fn spec_first_active(ds: Seq<SpecDevice>, kind: DeviceKind) -> Option<SpecDevice>
    decreases ds.len(),
{
    if ds.len() == 0 {
        None
    } else if ds[0].kind == kind && ds[0].is_active {
        Some(ds[0])
    } else {
        spec_first_active(ds.drop_first(), kind)
    }
}

fn first_active_of_kind(devices: &Vec<Device>, kind: DeviceKind) -> (r: Result<Device, Error>)
    ensures
        match spec_first_active(devices.deep_view(), kind) {
            Some(d) => r matches Ok(found) && found@ == d,
            None => r == Err::<Device, Error>(Error::ActiveDeviceNotFound),
        },
{
    let ghost all = devices.deep_view();
    proof {
        assert(all.skip(0) =~= all);
    }
    let mut idx: usize = 0;
    while idx < devices.len()
        invariant
            idx <= devices.len(),
            all == devices.deep_view(),
            spec_first_active(all.skip(idx as int), kind) == spec_first_active(all, kind),
        decreases devices.len() - idx,
    {
        assert(devices.deep_view()[idx as int] == devices@[idx as int].deep_view());
        assert(all.skip(idx as int)[0] == all[idx as int]);
        let matches_kind = devices[idx].kind.is_media_device() == (kind == DeviceKind::Media);
        if matches_kind && devices[idx].is_active {
            return Ok(devices[idx].clone());
        }
        idx = idx + 1;
        proof {
            assert(all.skip(idx - 1).drop_first() =~= all.skip(idx as int));
        }
    }
    proof {
        assert(all.skip(devices.len() as int) =~= Seq::<SpecDevice>::empty());
    }
    Err(Error::ActiveDeviceNotFound)
}

/// The first active playback device of a listing, or the "no active
/// device" error when none is active.
pub fn active_media_device(devices: &Vec<Device>) -> (r: Result<Device, Error>)
    ensures
        match spec_first_active(devices.deep_view(), DeviceKind::Media) {
            Some(d) => r matches Ok(found) && found@ == d,
            None => r == Err::<Device, Error>(Error::ActiveDeviceNotFound),
        },
{
    first_active_of_kind(devices, DeviceKind::Media)
}

/// The first active capture device of a listing, or the "no active
/// device" error when none is active.
pub fn active_micro_device(devices: &Vec<Device>) -> (r: Result<Device, Error>)
    ensures
        match spec_first_active(devices.deep_view(), DeviceKind::Micro) {
            Some(d) => r matches Ok(found) && found@ == d,
            None => r == Err::<Device, Error>(Error::ActiveDeviceNotFound),
        },
{
    first_active_of_kind(devices, DeviceKind::Micro)
}

/// Whether some playback device of a listing bears this name.
pub open spec fn spec_has_media_named(ds: Seq<SpecDevice>, name: Seq<char>) -> bool {
    exists|i: int|
        0 <= i < ds.len() && #[trigger] ds[i].kind == DeviceKind::Media && ds[i].name == name
}

/// Whether some playback device of the listing bears this name; the
/// device switcher refuses a name that matches none.
pub fn has_media_device(devices: &Vec<Device>, name: &String) -> (r: bool)
    ensures
        r == spec_has_media_named(devices.deep_view(), name@),
{
    let mut idx: usize = 0;
    while idx < devices.len()
        invariant
            idx <= devices.len(),
            forall|i: int|
                0 <= i < idx ==> !(#[trigger] devices.deep_view()[i].kind == DeviceKind::Media
                    && devices.deep_view()[i].name == name@),
        decreases devices.len() - idx,
    {
        assert(devices.deep_view()[idx as int] == devices@[idx as int].deep_view());
        if devices[idx].kind.is_media_device() && str_eq(&devices[idx].name, name.as_str()) {
            proof {
                assert(devices.deep_view()[idx as int].kind == DeviceKind::Media
                    && devices.deep_view()[idx as int].name == name@);
            }
            return true;
        }
        idx = idx + 1;
    }
    false
}

/// The index of the first occurrence of `target` among the configured
/// names, if it occurs at all.
pub open spec fn spec_position(names: Seq<Seq<char>>, target: Seq<char>) -> Option<int>
    decreases names.len(),
{
    if names.len() == 0 {
        None
    } else if names[0] == target {
        Some(0)
    } else {
        match spec_position(names.drop_first(), target) {
            Some(i) => Some(i + 1),
            None => None,
        }
    }
}

/// The configured output that follows the active one: the cyclic
/// successor of the active device's entry in the configured list, or
/// the first entry when the active device is not configured at all.
pub open spec fn spec_next_configured(names: Seq<Seq<char>>, active: Seq<char>) -> Seq<char>
    recommends
        names.len() > 0,
{
    match spec_position(names, active) {
        Some(i) => names[(i + 1) % (names.len() as int)],
        None => names[0],
    }
}

proof fn lemma_position_found(names: Seq<Seq<char>>, target: Seq<char>, k: int)
    requires
        0 <= k < names.len(),
        names[k] == target,
        forall|m: int| 0 <= m < k ==> names[m] != target,
    ensures
        spec_position(names, target) == Some(k),
    decreases k,
{
    if k == 0 {
    } else {
        let t = names.drop_first();
        assert(forall|m: int| 0 <= m < k - 1 ==> #[trigger] t[m] != target);
        lemma_position_found(t, target, k - 1);
    }
}

proof fn lemma_position_absent(names: Seq<Seq<char>>, target: Seq<char>)
    requires
        forall|m: int| 0 <= m < names.len() ==> names[m] != target,
    ensures
        spec_position(names, target) is None,
    decreases names.len(),
{
    if names.len() > 0 {
        let t = names.drop_first();
        assert(forall|m: int| 0 <= m < t.len() ==> #[trigger] t[m] != target);
        lemma_position_absent(t, target);
    }
}

/// Chooses the playback device the switcher should move to: the cyclic
/// successor, in the configured output list, of the entry naming the
/// first active playback device.  An empty configured list is the "no
/// devices set" error; a listing with no active playback device is the
/// "no active device" error; a successor that names no playback device
/// of the listing is reported as not found.
pub fn next_output_device(devices: &Vec<Device>, configured: &Vec<String>) -> (r: Result<
    String,
    Error,
>)
    ensures
        ({
            let ds = devices.deep_view();
            let names = configured.deep_view();
            if names.len() == 0 {
                r == Err::<String, Error>(Error::FoundNoDevices)
            } else {
                match spec_first_active(ds, DeviceKind::Media) {
                    None => r == Err::<String, Error>(Error::ActiveDeviceNotFound),
                    Some(a) => {
                        let next = spec_next_configured(names, a.name);
                        if spec_has_media_named(ds, next) {
                            r matches Ok(n) && n@ == next
                        } else {
                            r matches Err(Error::DeviceNotFound(n)) && n@ == next
                        }
                    },
                }
            }
        }),
{
    if configured.len() == 0 {
        return Err(Error::FoundNoDevices);
    }
    let active = match active_media_device(devices) {
        Ok(d) => d,
        Err(e) => {
            return Err(e);
        },
    };
    let ghost names = configured.deep_view();
    let mut idx: usize = 0;
    while idx < configured.len() && !str_eq(&configured[idx], active.name.as_str())
        invariant
            idx <= configured.len(),
            names == configured.deep_view(),
            forall|m: int| 0 <= m < idx ==> #[trigger] names[m] != active@.name,
        decreases configured.len() - idx,
    {
        assert(names[idx as int] == configured@[idx as int]@);
        idx = idx + 1;
    }
    let next_index = if idx < configured.len() {
        proof {
            assert(names[idx as int] == configured@[idx as int]@);
            lemma_position_found(names, active@.name, idx as int);
        }
        (idx + 1) % configured.len()
    } else {
        proof {
            lemma_position_absent(names, active@.name);
        }
        0
    };
    let next = configured[next_index].clone();
    assert(next@ == spec_next_configured(names, active@.name));
    if has_media_device(devices, &next) {
        Ok(next)
    } else {
        Err(Error::DeviceNotFound(next))
    }
}

/// The volume that an increase by `delta` reaches from `current`:
/// capped at one hundred percent.
pub open spec fn spec_volume_up(current: usize, delta: usize) -> usize {
    if current + delta > 100 {
        100
    } else {
        (current + delta) as usize
    }
}

/// The volume that a decrease by `delta` reaches from `current`:
/// floored at zero.
pub open spec fn spec_volume_down(current: usize, delta: usize) -> usize {
    if delta > current {
        0
    } else {
        (current - delta) as usize
    }
}

/// The new volume after an increase by `delta` percent.
pub fn volume_up(current: usize, delta: usize) -> (r: usize)
    ensures
        r == spec_volume_up(current, delta),
{
    if current >= 100 {
        100
    } else if delta >= 100 - current {
        100
    } else {
        current + delta
    }
}

/// The new volume after a decrease by `delta` percent.
pub fn volume_down(current: usize, delta: usize) -> (r: usize)
    ensures
        r == spec_volume_down(current, delta),
{
    if delta > current {
        0
    } else {
        current - delta
    }
}

/// What the volume query tool's output parses to.  The tool prints the
/// volume multiplied by ten; the result is on the zero-to-hundred scale.
/// Output that is not a plain decimal number counts as zero.
pub open spec fn spec_parse_volume(s: Seq<char>) -> usize {
    let t = trim_end(trim_start(s));
    if t.len() > 0 && (forall|i: int| 0 <= i < t.len() ==> is_digit(t[i])) && spec_dec_val(t)
        <= usize::MAX {
        (spec_dec_val(t) / 10) as usize
    } else {
        0
    }
}

proof fn lemma_dec_val_prefix_le(s: Seq<char>, k: int)
    requires
        0 <= k <= s.len(),
    ensures
        spec_dec_val(s.take(k)) <= spec_dec_val(s),
    decreases s.len() - k,
{
    if k == s.len() {
        assert(s.take(k) =~= s);
    } else {
        lemma_dec_val_prefix_le(s, k + 1);
        assert(s.take(k + 1).drop_last() =~= s.take(k));
        assert(spec_dec_val(s.take(k + 1)) == spec_dec_val(s.take(k)) * 10 + digit_val(
            s.take(k + 1).last(),
        ));
    }
}

/// Parses the volume query tool's output: the printed number, divided by
/// ten to reach the zero-to-hundred scale; anything unparsable is zero.
pub fn parse_volume(s: &str) -> (r: usize)
    ensures
        r == spec_parse_volume(s@),
{
    let v = chars_of(s);
    let n = v.len();
    let mut i: usize = 0;
    while i < n && is_ws(v[i])
        invariant
            0 <= i <= n,
            n == v.len(),
            forall|k: int| 0 <= k < i ==> is_line_ws(v@[k]),
        decreases n - i,
    {
        i = i + 1;
    }
    let mut j: usize = n;
    while j > i && is_ws(v[j - 1])
        invariant
            i <= j <= n,
            n == v.len(),
            forall|k: int| j <= k < n ==> is_line_ws(v@[k]),
        decreases j,
    {
        j = j - 1;
    }
    proof {
        lemma_trim_start_skip(v@, i as int);
        if j == i {
            lemma_trim_end_take(v@.skip(i as int), 0);
        } else {
            lemma_trim_end_take(v@.skip(i as int), j - i);
        }
        assert(v@.skip(i as int).take(j - i) =~= v@.subrange(i as int, j as int));
    }
    let ghost t = trim_end(trim_start(v@));

    if i == j {
        return 0;
    }

    let mut acc: usize = 0;
    let mut k: usize = i;
    while k < j
        invariant
            i <= k <= j <= n,
            n == v.len(),
            v@ == s@,
            t == trim_end(trim_start(s@)),
            t == v@.subrange(i as int, j as int),
            forall|m: int| i <= m < k ==> is_digit(v@[m]),
            acc == spec_dec_val(t.take(k - i)),
        decreases j - k,
    {
        let c = v[k];
        if !is_digit_x(c) {
            assert(!is_digit(t[k - i]));
            return 0;
        }
        let d = digit_of(c);
        proof {
            assert(t.take(k - i + 1).drop_last() =~= t.take(k - i));
            assert(t.take(k - i + 1).last() == v@[k as int]);
        }
        if acc > (usize::MAX - d as usize) / 10 {
            proof {
                let full = spec_dec_val(t.take(k - i + 1));
                assert(full == acc * 10 + d);
                assert(acc >= (usize::MAX - d as usize) / 10 + 1);
                assert(acc * 10 >= ((usize::MAX - d as usize) / 10 + 1) * 10) by (nonlinear_arith)
                    requires
                        acc >= (usize::MAX - d as usize) / 10 + 1,
                ;
                assert(((usize::MAX - d as usize) / 10 + 1) * 10 > usize::MAX - d);
                lemma_dec_val_prefix_le(t, k - i + 1);
                assert(spec_dec_val(t) > usize::MAX);
            }
            return 0;
        }
        proof {
            assert(acc <= (usize::MAX - d as usize) / 10);
            assert(acc * 10 <= ((usize::MAX - d as usize) / 10) * 10) by (nonlinear_arith)
                requires
                    acc <= (usize::MAX - d as usize) / 10,
            ;
            assert(((usize::MAX - d as usize) / 10) * 10 <= usize::MAX - d);
        }
        acc = acc * 10 + d as usize;
        k = k + 1;
    }
    assert(t.take(j - i) =~= t);
    acc / 10
}

} // verus!
