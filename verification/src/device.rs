//! Device records: one per line of the device-list output, which holds a
//! serial, a state, and optional `key:value` annotations.

use vstd::prelude::*;
use vstd::string::*;
use crate::text::fields_of;
use crate::text::split_char_of;
use crate::text::split_fields;
use crate::text::split_on_char;
use crate::text::split_lines;
use crate::text::str_eq;
use crate::text::lines_of;
use crate::text::trim_str;
use crate::text::trimmed;

verus! {

/// One connected device, as one line of the device list describes it.
#[derive(Debug, Clone, PartialEq, Eq)]
pub struct Device {
    pub serial: String,
    pub state: String,
    pub product: Option<String>,
    pub model: Option<String>,
    pub device: Option<String>,
    pub transport_id: Option<String>,
}

pub ghost struct DeviceView {
    pub serial: Seq<char>,
    pub state: Seq<char>,
    pub product: Option<Seq<char>>,
    pub model: Option<Seq<char>>,
    pub device: Option<Seq<char>>,
    pub transport_id: Option<Seq<char>>,
}

impl DeepView for Device {
    type V = DeviceView;

    open spec fn deep_view(&self) -> DeviceView {
        DeviceView {
            serial: self.serial@,
            state: self.state@,
            product: self.product.deep_view(),
            model: self.model.deep_view(),
            device: self.device.deep_view(),
            transport_id: self.transport_id.deep_view(),
        }
    }
}

/// The value of a `key:value` annotation, when `part` is exactly one
/// colon-separated pair with the given key.
pub open spec fn kv_value(part: Seq<char>, key: Seq<char>) -> Option<Seq<char>> {
    let pieces = split_char_of(part, ':');
    if pieces.len() == 2 && pieces[0] == key {
        Some(pieces[1])
    } else {
        None
    }
}

/// The value for `key` among the annotation parts, the last occurrence
/// winning, as repeated assignment in a scan makes it.
pub open spec fn scan_kv(parts: Seq<Seq<char>>, key: Seq<char>) -> Option<Seq<char>>
    decreases parts.len(),
{
    if parts.len() == 0 {
        None
    } else {
        match kv_value(parts.last(), key) {
            Some(v) => Some(v),
            None => scan_kv(parts.drop_last(), key),
        }
    }
}

/// The device a list line describes: the first two whitespace-separated
/// fields are the serial and the state, and the remaining fields may carry
/// `key:value` annotations.  A line with fewer than two fields describes
/// nothing.
pub open spec fn device_of_line(line: Seq<char>) -> Option<DeviceView> {
    let ps = fields_of(line);
    if ps.len() < 2 {
        None
    } else {
        Some(
            DeviceView {
                serial: ps[0],
                state: ps[1],
                product: scan_kv(ps.skip(2), "product"@),
                model: scan_kv(ps.skip(2), "model"@),
                device: scan_kv(ps.skip(2), "device"@),
                transport_id: scan_kv(ps.skip(2), "transport_id"@),
            },
        )
    }
}

pub fn parse_device_line(line: &str) -> (r: Option<Device>)
    ensures
        r is None <==> device_of_line(line@) is None,
        r matches Some(d) ==> device_of_line(line@) == Some(d.deep_view()),
{
    let parts = split_fields(line);
    let ghost ps = fields_of(line@);
    if parts.len() < 2 {
        return None;
    }
    let serial = parts[0].clone();
    let state = parts[1].clone();
    let mut product: Option<String> = None;
    let mut model: Option<String> = None;
    let mut device: Option<String> = None;
    let mut transport_id: Option<String> = None;
    let n = parts.len();
    let mut i: usize = 2;
    proof {
        assert(ps.take(2).skip(2) =~= Seq::<Seq<char>>::empty());
    }
    while i < n
        invariant
            parts.deep_view() == ps,
            n == ps.len(),
            n == parts@.len(),
            2 <= i <= n,
            product.deep_view() == scan_kv(ps.take(i as int).skip(2), "product"@),
            model.deep_view() == scan_kv(ps.take(i as int).skip(2), "model"@),
            device.deep_view() == scan_kv(ps.take(i as int).skip(2), "device"@),
            transport_id.deep_view() == scan_kv(ps.take(i as int).skip(2), "transport_id"@),
        decreases n - i,
    {
        let kv = split_on_char(parts[i].as_str(), ':');
        proof {
            assert(parts.deep_view()[i as int] == parts@[i as int]@);
            assert(ps.take(i + 1).skip(2) =~= ps.take(i as int).skip(2).push(ps[i as int]));
            assert(ps.take(i as int).skip(2).push(ps[i as int]).drop_last() =~= ps.take(
                i as int,
            ).skip(2));
            reveal_strlit("product");
            reveal_strlit("model");
            reveal_strlit("device");
            reveal_strlit("transport_id");
        }
        if kv.len() == 2 {
            proof {
                assert(kv.deep_view()[0] == kv@[0]@);
                assert(kv.deep_view()[1] == kv@[1]@);
            }
            if str_eq(kv[0].as_str(), "product") {
                product = Some(kv[1].clone());
            } else if str_eq(kv[0].as_str(), "model") {
                model = Some(kv[1].clone());
            } else if str_eq(kv[0].as_str(), "device") {
                device = Some(kv[1].clone());
            } else if str_eq(kv[0].as_str(), "transport_id") {
                transport_id = Some(kv[1].clone());
            }
        }
        i += 1;
    }
    proof {
        assert(ps.take(n as int) =~= ps);
    }
    Some(Device { serial, state, product, model, device, transport_id })
}

/// The devices that a whole device-list output describes: every line but
/// the first, blank lines passed over, each remaining line contributing
/// its device if it describes one.
pub open spec fn devices_of_lines(ls: Seq<Seq<char>>, i: int) -> Seq<DeviceView>
    decreases ls.len() - i,
    when 0 <= i <= ls.len()
{
    if i >= ls.len() {
        Seq::empty()
    } else if trimmed(ls[i]).len() == 0 {
        devices_of_lines(ls, i + 1)
    } else {
        match device_of_line(ls[i]) {
            Some(d) => seq![d] + devices_of_lines(ls, i + 1),
            None => devices_of_lines(ls, i + 1),
        }
    }
}

pub open spec fn devices_of_output(out: Seq<char>) -> Seq<DeviceView> {
    let ls = lines_of(out);
    if ls.len() < 1 {
        Seq::empty()
    } else {
        devices_of_lines(ls, 1)
    }
}

/// Parse a full device-list output, passing over its header line.
pub fn parse_device_list(output: &str) -> (r: Vec<Device>)
    ensures
        r.deep_view() == devices_of_output(output@),
{
    let lines = split_lines(output);
    let ghost ls = lines_of(output@);
    let mut out: Vec<Device> = Vec::new();
    let n = lines.len();
    proof {
        assert(out.deep_view() =~= Seq::<DeviceView>::empty());
    }
    if n < 1 {
        return out;
    }
    let mut i: usize = 1;
    proof {
        assert(out.deep_view() + devices_of_lines(ls, 1) =~= devices_of_lines(ls, 1));
    }
    while i < n
        invariant
            lines.deep_view() == ls,
            n == ls.len(),
            n == lines@.len(),
            1 <= i <= n,
            devices_of_output(output@) == out.deep_view() + devices_of_lines(ls, i as int),
        decreases n - i,
    {
        proof {
            assert(lines.deep_view()[i as int] == lines@[i as int]@);
        }
        let t = trim_str(lines[i].as_str());
        if t.unicode_len() != 0 {
            match parse_device_line(lines[i].as_str()) {
                Some(d) => {
                    let ghost prev = out.deep_view();
                    out.push(d);
                    proof {
                        assert(out.deep_view() =~= prev.push(d.deep_view()));
                        assert(prev + (seq![d.deep_view()] + devices_of_lines(ls, i + 1)) =~= out
                            .deep_view() + devices_of_lines(ls, i + 1));
                    }
                },
                None => {},
            }
        }
        i += 1;
    }
    proof {
        assert(out.deep_view() + Seq::<DeviceView>::empty() =~= out.deep_view());
    }
    out
}

/// Whether a device with the given serial is in the list.
pub fn device_present(devices: &Vec<Device>, serial: &str) -> (r: bool)
    ensures
        r == (exists|i: int|
            0 <= i < devices@.len() && devices@[i].serial@ == serial@),
{
    let n = devices.len();
    let mut i: usize = 0;
    while i < n
        invariant
            n == devices@.len(),
            0 <= i <= n,
            forall|j: int| 0 <= j < i ==> devices@[j].serial@ != serial@,
        decreases n - i,
    {
        if str_eq(devices[i].serial.as_str(), serial) {
            return true;
        }
        i += 1;
    }
    false
}

/// The argument string that asks a device for all its properties.
pub fn get_device_props_command(device: &str) -> (r: String)
    ensures
        r@ == "-s "@ + device@ + " shell getprop"@,
{
    let mut s = "-s ".to_owned();
    s.append(device);
    s.append(" shell getprop");
    s
}

/// The argument string that sets one property on a device.
pub fn set_device_prop_command(device: &str, prop: &str, value: &str) -> (r: String)
    ensures
        r@ == "-s "@ + device@ + " shell setprop "@ + prop@ + " "@ + value@,
{
    let mut s = "-s ".to_owned();
    s.append(device);
    s.append(" shell setprop ");
    s.append(prop);
    s.append(" ");
    s.append(value);
    s
}

} // verus!
