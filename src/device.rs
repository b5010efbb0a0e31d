use vstd::prelude::*;
use vstd::string::*;
use vstd::utf8::encode_utf8;

use crate::error::ScannrsError;
use crate::text::bytes_equal;

verus! {

/// A device found by enumeration.
#[derive(Debug, Clone)]
pub struct DeviceDescriptor {
    /// The name a device is opened by, as bytes.
    pub name: Vec<u8>,
    pub vendor: String,
    pub model: String,
    pub kind: String,
}

/// Whether device `d` carries the name `name`, byte for byte.
pub open spec fn has_name(d: DeviceDescriptor, name: Seq<char>) -> bool {
    d.name@ == encode_utf8(name)
}

/// The position of the first device named `name`. No device is opened here:
/// the caller opens the one found, and only then.
pub fn find_device(devices: &Vec<DeviceDescriptor>, name: &String) -> (r: Result<usize, ScannrsError>)
    ensures
        match r {
            Ok(i) => i < devices@.len() && has_name(devices@[i as int], name@)
                && forall|j: int| 0 <= j < i ==> !has_name(devices@[j], name@),
            Err(e) => (forall|j: int| 0 <= j < devices@.len() ==> !has_name(devices@[j], name@))
                && (e matches ScannrsError::CouldNotFindScanner { name: n } && n@ == name@),
        },
{
    let key = name.as_str().as_bytes_vec();
    let mut i: usize = 0;
    while i < devices.len()
        invariant
            i <= devices@.len(),
            key@ == encode_utf8(name@),
            forall|j: int| 0 <= j < i ==> !has_name(devices@[j], name@),
        decreases devices@.len() - i,
    {
        if bytes_equal(devices[i].name.as_slice(), key.as_slice()) {
            return Ok(i);
        }
        i = i + 1;
    }
    Err(ScannrsError::CouldNotFindScanner { name: name.clone() })
}

} // verus!
