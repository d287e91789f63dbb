//! Startup decisions: which layers and extensions the instance is created
//! with, which physical device qualifies, and which queue families carry
//! graphics and presentation.

use vstd::prelude::*;

use crate::context::QueueFamilyIndices;
use crate::error::Error;
use vstd::string::StringExecFns;

verus! {

pub const QUEUE_GRAPHICS_BIT: u32 = 0x1;
pub const PHYSICAL_DEVICE_TYPE_DISCRETE_GPU: u32 = 2;

/// Whether a name with the characters `name` occurs in `available`.
pub open spec fn spec_name_in(name: Seq<char>, available: Seq<String>) -> bool {
    exists|i: int| 0 <= i < available.len() && available[i]@ == name
}

/// Whether every required name occurs in `available`.
pub open spec fn spec_names_subset(required: Seq<String>, available: Seq<String>) -> bool {
    forall|k: int| 0 <= k < required.len() ==> spec_name_in(required[k]@, available)
}

fn string_eq(a: &String, b: &String) -> (r: bool)
    ensures
        r == (a@ == b@),
{
    a.eq(b)
}

/// Whether `name` occurs in `available`.
pub fn contains_name(name: &String, available: &Vec<String>) -> (r: bool)
    ensures
        r == spec_name_in(name@, available@),
{
    let n = available.len();
    let mut i: usize = 0;
    while i < n
        invariant
            n == available@.len(),
            i <= n,
            forall|j: int| 0 <= j < i ==> available@[j]@ != name@,
        decreases n - i,
    {
        if string_eq(&available[i], name) {
            return true;
        }
        i = i + 1;
    }
    false
}

/// The first required name that `available` lacks, if any.
pub fn find_missing_name(required: &Vec<String>, available: &Vec<String>) -> (r: Option<usize>)
    ensures
        r is None <==> spec_names_subset(required@, available@),
        r matches Some(i) ==> {
            &&& 0 <= i < required@.len()
            &&& !spec_name_in(required@[i as int]@, available@)
            &&& forall|j: int| 0 <= j < i ==> spec_name_in(required@[j]@, available@)
        },
{
    let n = required.len();
    let mut i: usize = 0;
    while i < n
        invariant
            n == required@.len(),
            i <= n,
            forall|j: int| 0 <= j < i ==> spec_name_in(required@[j]@, available@),
        decreases n - i,
    {
        if !contains_name(&required[i], available) {
            return Some(i);
        }
        i = i + 1;
    }
    None
}

/// Whether a physical device offers every required device extension.
pub fn check_device_extensions(required: &Vec<String>, available: &Vec<String>) -> (r: bool)
    ensures
        r == spec_names_subset(required@, available@),
{
    find_missing_name(required, available).is_none()
}

/// Verifies that every required instance layer is offered; reports the
/// first missing one by name.
pub fn check_required_layers(required: &Vec<String>, available: &Vec<String>) -> (r: Result<
    (),
    Error,
>)
    ensures
        r is Ok <==> spec_names_subset(required@, available@),
        r matches Err(e) ==> (e matches Error::Other(s) && exists|i: int|
            {
                &&& 0 <= i < required@.len()
                &&& !spec_name_in(required@[i]@, available@)
                &&& (forall|j: int| 0 <= j < i ==> spec_name_in(required@[j]@, available@))
                &&& s@ == "cannot find layer: "@ + required@[i]@
            }),
{
    match find_missing_name(required, available) {
        None => Ok(()),
        Some(i) => {
            let msg = String::from_str("cannot find layer: ").concat(required[i].as_str());
            Err(Error::Other(msg))
        },
    }
}

/// Verifies that every required instance extension is offered; reports the
/// first missing one by name.
pub fn check_required_extensions(required: &Vec<String>, available: &Vec<String>) -> (r: Result<
    (),
    Error,
>)
    ensures
        r is Ok <==> spec_names_subset(required@, available@),
        r matches Err(e) ==> (e matches Error::Other(s) && exists|i: int|
            {
                &&& 0 <= i < required@.len()
                &&& !spec_name_in(required@[i]@, available@)
                &&& (forall|j: int| 0 <= j < i ==> spec_name_in(required@[j]@, available@))
                &&& s@ == "cannot find extension: "@ + required@[i]@
            }),
{
    match find_missing_name(required, available) {
        None => Ok(()),
        Some(i) => {
            let msg = String::from_str("cannot find extension: ").concat(required[i].as_str());
            Err(Error::Other(msg))
        },
    }
}

/// The layers and extensions the instance is created with.
pub struct InstanceConfig {
    pub layers: Vec<String>,
    pub extensions: Vec<String>,
}

/// Decides the instance configuration. A debug build adds the validation
/// layer and the debug-utils extension to what the window system requires;
/// a release build enables no layers and only the required extensions.
pub fn instance_config(debug: bool, req_layers: Vec<String>, req_ext: Vec<String>) -> (c:
    InstanceConfig)
    ensures
        debug ==> {
            &&& c.layers@.len() == req_layers@.len() + 1
            &&& forall|i: int| 0 <= i < req_layers@.len() ==> c.layers@[i] == req_layers@[i]
            &&& c.layers@[req_layers@.len() as int]@ == "VK_LAYER_KHRONOS_validation"@
            &&& c.extensions@.len() == req_ext@.len() + 1
            &&& forall|i: int| 0 <= i < req_ext@.len() ==> c.extensions@[i] == req_ext@[i]
            &&& c.extensions@[req_ext@.len() as int]@ == "VK_EXT_debug_utils"@
        },
        !debug ==> {
            &&& c.layers@.len() == 0
            &&& c.extensions@ == req_ext@
        },
{
    if debug {
        let mut layers = req_layers;
        layers.push(String::from_str("VK_LAYER_KHRONOS_validation"));
        let mut extensions = req_ext;
        extensions.push(String::from_str("VK_EXT_debug_utils"));
        InstanceConfig { layers, extensions }
    } else {
        InstanceConfig { layers: Vec::new(), extensions: req_ext }
    }
}

/// What a physical device reports: its type, and the device extensions it
/// offers.
pub struct PhysicalDeviceInfo {
    pub device_type: u32,
    pub extensions: Vec<String>,
}

/// Whether a physical device qualifies: of the discrete class — no other
/// type value counts — and every required extension offered.
pub open spec fn spec_device_suitable(d: PhysicalDeviceInfo, required: Seq<String>) -> bool {
    &&& d.device_type == PHYSICAL_DEVICE_TYPE_DISCRETE_GPU
    &&& spec_names_subset(required, d.extensions@)
}

/// Picks the first physical device of discrete class that offers every
/// required device extension; fails when none qualifies.
pub fn pick_physical_device(devices: &Vec<PhysicalDeviceInfo>, required: &Vec<String>) -> (r:
    Result<usize, Error>)
    ensures
        r matches Ok(i) ==> {
            &&& 0 <= i < devices@.len()
            &&& spec_device_suitable(devices@[i as int], required@)
            &&& forall|j: int| 0 <= j < i ==> !spec_device_suitable(devices@[j], required@)
        },
        r is Err <==> forall|j: int|
            0 <= j < devices@.len() ==> !spec_device_suitable(devices@[j], required@),
        r matches Err(e) ==> (e matches Error::Other(s) && s@ == "no discrete GPU found"@),
{
    let n = devices.len();
    let mut i: usize = 0;
    while i < n
        invariant
            n == devices@.len(),
            i <= n,
            forall|j: int| 0 <= j < i ==> !spec_device_suitable(devices@[j], required@),
        decreases n - i,
    {
        let d = &devices[i];
        if d.device_type == PHYSICAL_DEVICE_TYPE_DISCRETE_GPU && check_device_extensions(
            required,
            &d.extensions,
        ) {
            proof {
                assert(spec_device_suitable(devices@[i as int], required@));
            }
            return Ok(i);
        }
        i = i + 1;
    }
    Err(Error::Other(String::from_str("no discrete GPU found")))
}

/// Whether queue family `j` is graphics-capable.
pub open spec fn spec_graphics_family(queue_flags: Seq<u32>, j: int) -> bool {
    queue_flags[j] & QUEUE_GRAPHICS_BIT != 0
}

/// Resolves the graphics-capable and present-capable queue family indices:
/// the first family whose flags carry the graphics bit, and the first
/// family the surface can present from. Fails, naming the missing
/// capability, when either does not exist.
pub fn pick_queue_families(queue_flags: &Vec<u32>, present_support: &Vec<bool>) -> (r: Result<
    QueueFamilyIndices,
    Error,
>)
    requires
        queue_flags@.len() == present_support@.len(),
        queue_flags@.len() <= 0xffff_ffffu32,
    ensures
        r is Ok <==> ((exists|j: int| 0 <= j < queue_flags@.len() && spec_graphics_family(
            queue_flags@,
            j,
        )) && (exists|j: int| 0 <= j < present_support@.len() && present_support@[j])),
        r matches Ok(q) ==> {
            &&& 0 <= q.graphics < queue_flags@.len()
            &&& spec_graphics_family(queue_flags@, q.graphics as int)
            &&& forall|j: int| 0 <= j < q.graphics ==> !spec_graphics_family(queue_flags@, j)
            &&& 0 <= q.present < present_support@.len()
            &&& present_support@[q.present as int]
            &&& forall|j: int| 0 <= j < q.present ==> !present_support@[j]
        },
        (forall|j: int|
            0 <= j < queue_flags@.len() ==> !spec_graphics_family(queue_flags@, j)) ==> (r matches
            Err(e) && e matches Error::Other(s) && s@ == "graphics queue needed"@),
        ((exists|j: int| 0 <= j < queue_flags@.len() && spec_graphics_family(queue_flags@, j))
            && (forall|j: int| 0 <= j < present_support@.len() ==> !present_support@[j])) ==> (
        r matches Err(e) && e matches Error::Other(s) && s@ == "present queue needed"@),
{
    let graphics: u32 = match first_graphics_family(queue_flags) {
        Some(g) => g,
        None => {
            return Err(Error::Other(String::from_str("graphics queue needed")));
        },
    };

    let present: u32 = match first_present_family(present_support) {
        Some(p) => p,
        None => {
            return Err(Error::Other(String::from_str("present queue needed")));
        },
    };

    Ok(QueueFamilyIndices { graphics, present })
}

fn first_graphics_family(queue_flags: &Vec<u32>) -> (r: Option<u32>)
    requires
        queue_flags@.len() <= 0xffff_ffffu32,
    ensures
        r is None <==> forall|j: int|
            0 <= j < queue_flags@.len() ==> !spec_graphics_family(queue_flags@, j),
        r matches Some(g) ==> {
            &&& 0 <= g < queue_flags@.len()
            &&& spec_graphics_family(queue_flags@, g as int)
            &&& forall|j: int| 0 <= j < g ==> !spec_graphics_family(queue_flags@, j)
        },
{
    let n = queue_flags.len();
    let mut i: usize = 0;
    while i < n
        invariant
            n == queue_flags@.len(),
            n <= 0xffff_ffffu32,
            i <= n,
            forall|j: int| 0 <= j < i ==> !spec_graphics_family(queue_flags@, j),
        decreases n - i,
    {
        if (queue_flags[i] & QUEUE_GRAPHICS_BIT) != 0 {
            proof {
                assert(spec_graphics_family(queue_flags@, i as int));
            }
            return Some(i as u32);
        }
        i = i + 1;
    }
    None
}

fn first_present_family(present_support: &Vec<bool>) -> (r: Option<u32>)
    requires
        present_support@.len() <= 0xffff_ffffu32,
    ensures
        r is None <==> forall|j: int| 0 <= j < present_support@.len() ==> !present_support@[j],
        r matches Some(p) ==> {
            &&& 0 <= p < present_support@.len()
            &&& present_support@[p as int]
            &&& forall|j: int| 0 <= j < p ==> !present_support@[j]
        },
{
    let n = present_support.len();
    let mut i: usize = 0;
    while i < n
        invariant
            n == present_support@.len(),
            n <= 0xffff_ffffu32,
            i <= n,
            forall|j: int| 0 <= j < i ==> !present_support@[j],
        decreases n - i,
    {
        if present_support[i] {
            return Some(i as u32);
        }
        i = i + 1;
    }
    None
}

/// The queue family indices the device is created with: queues may not be
/// created twice for one family, so equal indices collapse to one entry.
pub fn unique_queue_indices(indices: &QueueFamilyIndices) -> (r: Vec<u32>)
    ensures
        indices.graphics == indices.present ==> r@ =~= seq![indices.graphics],
        indices.graphics != indices.present ==> r@ =~= seq![indices.graphics, indices.present],
{
    let mut r: Vec<u32> = Vec::new();
    r.push(indices.graphics);
    if indices.present != indices.graphics {
        r.push(indices.present);
    }
    r
}

} // verus!
