//! Receiver devices and the rule that picks exactly one of them: an address
//! hint wins, then a name hint (matched as a prefix), then a single candidate
//! stands alone; with several candidates and no hint the caller must prompt.

use vstd::prelude::*;
use crate::settings::Settings;
use crate::text::{all_digits, digits_value, is_ascii_digit, is_prefix_of, str_eq, str_starts_with};

verus! {

/// One resolved receiver service: its full name, the addresses it answers on,
/// and its control port.
pub struct DeviceRecord {
    pub name: String,
    pub addresses: Vec<String>,
    pub port: u16,
}

/// Why no device could be selected.
pub enum SelectError {
    /// The address hint matched no candidate's address.
    AddressNotFound { address: String },
    /// The name hint was a prefix of no candidate's name.
    NameNotFound { name: String },
    /// There was no candidate at all.
    NoDevicesFound,
}

/// What selection decided: a candidate, by its index in the list, or that the
/// caller must prompt the user to choose among several.
pub enum Selection {
    Chosen(usize),
    Prompt,
}

/// The device answers on the hinted address.
pub open spec fn addr_matches(d: DeviceRecord, hint: Seq<char>) -> bool {
    exists|j: int| 0 <= j < d.addresses@.len() && d.addresses@[j]@ == hint
}

/// The hinted name is a prefix of the device's name.
pub open spec fn name_matches(d: DeviceRecord, hint: Seq<char>) -> bool {
    is_prefix_of(hint, d.name@)
}

/// Some candidate answers on the hinted address.
pub open spec fn has_addr_match(devs: Seq<DeviceRecord>, hint: Seq<char>) -> bool {
    exists|i: int| 0 <= i < devs.len() && addr_matches(devs[i], hint)
}

/// Some candidate's name starts with the hint.
pub open spec fn has_name_match(devs: Seq<DeviceRecord>, hint: Seq<char>) -> bool {
    exists|i: int| 0 <= i < devs.len() && name_matches(devs[i], hint)
}

/// `i` is the first candidate answering on the hinted address.
pub open spec fn is_first_addr_match(devs: Seq<DeviceRecord>, hint: Seq<char>, i: int) -> bool {
    &&& 0 <= i < devs.len()
    &&& addr_matches(devs[i], hint)
    &&& forall|j: int| 0 <= j < i ==> !addr_matches(devs[j], hint)
}

/// `i` is the first candidate whose name starts with the hint.
pub open spec fn is_first_name_match(devs: Seq<DeviceRecord>, hint: Seq<char>, i: int) -> bool {
    &&& 0 <= i < devs.len()
    &&& name_matches(devs[i], hint)
    &&& forall|j: int| 0 <= j < i ==> !name_matches(devs[j], hint)
}

/// The device answers on the given address.
fn device_has_address(d: &DeviceRecord, hint: &String) -> (r: bool)
    ensures
        r == addr_matches(*d, hint@),
{
    let mut j: usize = 0;
    while j < d.addresses.len()
        invariant
            j <= d.addresses@.len(),
            forall|k: int| 0 <= k < j ==> d.addresses@[k]@ != hint@,
        decreases d.addresses@.len() - j,
    {
        if str_eq(d.addresses[j].as_str(), hint.as_str()) {
            return true;
        }
        j = j + 1;
    }
    false
}

/// Resolve exactly one device from the candidates and the hints in the
/// settings. First match wins: an address hint must match one of a
/// candidate's addresses exactly; failing that, a name hint must be a prefix
/// of a candidate's name; with no hint, a single candidate is chosen and an
/// empty list is an error; several candidates without a hint are handed back
/// to the caller to prompt for.
pub fn select_device(settings: &Settings, devices: &Vec<DeviceRecord>) -> (r: Result<
    Selection,
    SelectError,
>)
    ensures
        settings.address matches Some(a) ==> match r {
            Ok(sel) => sel matches Selection::Chosen(i) && is_first_addr_match(
                devices@,
                a@,
                i as int,
            ),
            Err(e) => !has_addr_match(devices@, a@) && (e matches SelectError::AddressNotFound {
                address,
            } && address@ == a@),
        },
        settings.address is None ==> match settings.device {
            Some(n) => match r {
                Ok(sel) => sel matches Selection::Chosen(i) && is_first_name_match(
                    devices@,
                    n@,
                    i as int,
                ),
                Err(e) => !has_name_match(devices@, n@) && (e matches SelectError::NameNotFound {
                    name,
                } && name@ == n@),
            },
            None => {
                &&& devices@.len() == 1 ==> r == Ok::<Selection, SelectError>(
                    Selection::Chosen(0usize),
                )
                &&& devices@.len() == 0 ==> r == Err::<Selection, SelectError>(
                    SelectError::NoDevicesFound,
                )
                &&& devices@.len() > 1 ==> r == Ok::<Selection, SelectError>(Selection::Prompt)
            },
        },
{
    if let Some(address) = &settings.address {
        let mut i: usize = 0;
        while i < devices.len()
            invariant
                i <= devices@.len(),
                settings.address == Some(*address),
                forall|j: int| 0 <= j < i ==> !addr_matches(devices@[j], address@),
            decreases devices@.len() - i,
        {
            if device_has_address(&devices[i], address) {
                return Ok(Selection::Chosen(i));
            }
            i = i + 1;
        }
        return Err(SelectError::AddressNotFound { address: address.clone() });
    }

    if let Some(device_name) = &settings.device {
        let mut i: usize = 0;
        while i < devices.len()
            invariant
                i <= devices@.len(),
                settings.address is None,
                settings.device == Some(*device_name),
                forall|j: int| 0 <= j < i ==> !name_matches(devices@[j], device_name@),
            decreases devices@.len() - i,
        {
            if str_starts_with(devices[i].name.as_str(), device_name.as_str()) {
                return Ok(Selection::Chosen(i));
            }
            i = i + 1;
        }
        return Err(SelectError::NameNotFound { name: device_name.clone() });
    }

    if devices.len() == 1 {
        return Ok(Selection::Chosen(0));
    }

    if devices.len() == 0 {
        return Err(SelectError::NoDevicesFound);
    }

    Ok(Selection::Prompt)
}

/// Validate one line of interactive input against a candidate list of
/// `n_devices` entries: accepted exactly when it is a decimal number between
/// 1 and `n_devices`, and then turned into the zero-based index of the chosen
/// candidate. Anything else is rejected and the caller prompts again.
pub fn parse_choice(input: &str, n_devices: usize) -> (r: Option<usize>)
    ensures
        r matches Some(i) ==> all_digits(input@) && 1 <= digits_value(input@) <= n_devices && i
            + 1 == digits_value(input@),
        r is None ==> !(all_digits(input@) && 1 <= digits_value(input@) <= n_devices),
{
    let len: usize = input.unicode_len();
    if len == 0 {
        return None;
    }
    let nd: u128 = n_devices as u128;
    let mut acc: u128 = 0;
    let mut over: bool = false;
    let mut i: usize = 0;
    while i < len
        invariant
            i <= len,
            len == input@.len(),
            nd == n_devices as int,
            forall|j: int| 0 <= j < i ==> is_ascii_digit(input@[j]),
            !over ==> acc == digits_value(input@.take(i as int)) && acc <= nd,
            over ==> digits_value(input@.take(i as int)) > nd,
        decreases len - i,
    {
        let c = input.get_char(i);
        let cu = c as u32;
        if cu < 48 || cu > 57 {
            return None;
        }
        let d: u128 = (cu - 48) as u128;
        proof {
            assert(input@.take(i + 1).drop_last() =~= input@.take(i as int));
            assert(input@.take(i + 1).last() == input@[i as int]);
        }
        if !over {
            acc = acc * 10 + d;
            if acc > nd {
                over = true;
            }
        } else {
            proof {
                let v = digits_value(input@.take(i as int));
                assert(v * 10 + (input@[i as int] as int - 48) > nd) by (nonlinear_arith)
                    requires
                        v > nd,
                        nd >= 0,
                        input@[i as int] as int - 48 >= 0,
                ;
            }
        }
        i = i + 1;
    }
    proof {
        assert(input@.take(len as int) =~= input@);
    }
    if over {
        return None;
    }
    if acc == 0 {
        return None;
    }
    Some((acc - 1) as usize)
}

} // verus!
