//! Choice of the physical device and queue family, and the logical device
//! to create on them.

use vstd::prelude::*;
use crate::error::RendererError;
use crate::vk::{contains_all, queue_flags_contain, QUEUE_GRAPHICS};

verus! {

/// One queue family of a physical device.
#[derive(Clone, Copy, Debug, PartialEq, Eq)]
pub struct QueueFamily {
    /// `VkQueueFlags`: what queues of this family can execute.
    pub queue_flags: u32,
    /// Whether queues of this family can present to the surface.
    pub present_support: bool,
}

/// One physical device, with its queue families in index order.
#[derive(Debug, PartialEq, Eq)]
pub struct PhysicalDevice {
    pub handle: u64,
    pub families: Vec<QueueFamily>,
}

/// One physical device as the driver enumerates it: its handle and, in
/// index order, what the queues of each of its families can execute.
#[derive(Debug, PartialEq, Eq)]
pub struct DeviceFamilies {
    pub handle: u64,
    /// `VkQueueFlags` of each queue family.
    pub queue_flags: Vec<u32>,
}

/// A queue family that can draw, of which it is not known yet whether it
/// can present.
#[derive(Clone, Copy, Debug, PartialEq, Eq)]
pub struct Candidate {
    /// The position of the device in the enumeration.
    pub device_index: usize,
    pub queue_family_index: u32,
}

/// The physical device and queue family that the renderer runs on.
#[derive(Clone, Copy, Debug, PartialEq, Eq)]
pub struct QueueSelection {
    /// The position of the device in the enumeration.
    pub device_index: usize,
    pub physical_device: u64,
    pub queue_family_index: u32,
}

/// The logical device to create.
#[derive(Clone, Copy, Debug, PartialEq, Eq)]
pub struct DevicePlan {
    pub physical_device: u64,
    /// The one family that queues are created from.
    pub queue_family_index: u32,
    /// The number of queues of that family; each has the highest priority.
    pub queue_count: u32,
    /// Whether `VK_KHR_swapchain` is enabled.
    pub swapchain_extension: bool,
    /// Whether the `shaderClipDistance` feature is enabled.
    pub shader_clip_distance: bool,
}

/// Whether queues of `family` can both draw and present to the surface.
pub open spec fn family_suits(family: QueueFamily) -> bool {
    contains_all(family.queue_flags, QUEUE_GRAPHICS) && family.present_support
}

/// Whether family `family` of device `device` exists and suits. A family is
/// named by a 32-bit index, so none from 2^32 on exists.
pub open spec fn suits(devices: Seq<PhysicalDevice>, device: int, family: int) -> bool {
    &&& 0 <= device < devices.len()
    &&& 0 <= family < devices[device].families@.len()
    &&& family <= u32::MAX
    &&& family_suits(devices[device].families@[family])
}

/// Whether the first pair comes before the second in enumeration order:
/// devices in order, and within a device its families in order.
pub open spec fn precedes(device: int, family: int, other_device: int, other_family: int) -> bool {
    device < other_device || (device == other_device && family < other_family)
}

/// Whether `chosen` is the first suitable pair of `devices`.
pub open spec fn is_first_suitable(devices: Seq<PhysicalDevice>, chosen: QueueSelection) -> bool {
    &&& suits(devices, chosen.device_index as int, chosen.queue_family_index as int)
    &&& chosen.physical_device == devices[chosen.device_index as int].handle
    &&& forall|device: int, family: int|
        precedes(device, family, chosen.device_index as int, chosen.queue_family_index as int)
            ==> !suits(devices, device, family)
}

/// The first suitable pair of `devices`, if there is one.
pub open spec fn selected(devices: Seq<PhysicalDevice>) -> Option<QueueSelection> {
    if exists|chosen: QueueSelection| is_first_suitable(devices, chosen) {
        Some(choose|chosen: QueueSelection| is_first_suitable(devices, chosen))
    } else {
        None
    }
}

/// Whether family `family` of device `device` exists and can draw.
pub open spec fn draws(devices: Seq<DeviceFamilies>, device: int, family: int) -> bool {
    &&& 0 <= device < devices.len()
    &&& 0 <= family < devices[device].queue_flags@.len()
    &&& family <= u32::MAX
    &&& contains_all(devices[device].queue_flags@[family], QUEUE_GRAPHICS)
}

/// Whether family `family` of device `device` is the first that can draw
/// among those that do not come before family `from_family` of device
/// `from_device`.
pub open spec fn is_candidate(
    devices: Seq<DeviceFamilies>,
    from_device: int,
    from_family: int,
    device: int,
    family: int,
) -> bool {
    &&& draws(devices, device, family)
    &&& !precedes(device, family, from_device, from_family)
    &&& forall|d: int, f: int|
        !precedes(d, f, from_device, from_family) && precedes(d, f, device, family) ==> !draws(
            devices,
            d,
            f,
        )
}

/// The first family that can draw, from family `from_family` of device
/// `from_device` on, as a device and a family, if there is one.
pub open spec fn candidate(devices: Seq<DeviceFamilies>, from_device: int, from_family: int) -> Option<
    (int, int),
> {
    if exists|found: (int, int)|
        is_candidate(devices, from_device, from_family, found.0, found.1) {
        Some(
            choose|found: (int, int)|
                is_candidate(devices, from_device, from_family, found.0, found.1),
        )
    } else {
        None
    }
}

/// The device and the family of `found`.
pub open spec fn place(found: Option<Candidate>) -> Option<(int, int)> {
    match found {
        Some(next) => Some((next.device_index as int, next.queue_family_index as int)),
        None => None,
    }
}

/// Whether `full` tells of the devices `devices`, family by family, what
/// they can execute, and besides whether each family can present.
pub open spec fn agrees(devices: Seq<DeviceFamilies>, full: Seq<PhysicalDevice>) -> bool {
    &&& devices.len() == full.len()
    &&& forall|device: int|
        0 <= device < devices.len() ==> (#[trigger] devices[device]).handle == full[device].handle
            && devices[device].queue_flags@.len() == full[device].families@.len()
    &&& forall|device: int, family: int|
        0 <= device < devices.len() && 0 <= family < devices[device].queue_flags@.len()
            ==> #[trigger] devices[device].queue_flags@[family]
            == full[device].families@[family].queue_flags
}

/// Whether no family that comes before family `family` of device `device`
/// both draws and presents.
pub open spec fn none_suits_before(full: Seq<PhysicalDevice>, device: int, family: int) -> bool {
    forall|d: int, f: int| precedes(d, f, device, family) ==> !suits(full, d, f)
}

/// The logical device for a selection: one queue of the chosen family, the
/// swapchain extension, and clip distances in shaders.
pub open spec fn device_plan(physical_device: u64, queue_family_index: u32) -> DevicePlan {
    DevicePlan {
        physical_device,
        queue_family_index,
        queue_count: 1,
        swapchain_extension: true,
        shader_clip_distance: true,
    }
}

/// Whether queues with these capabilities can draw.
pub fn supports_graphics(queue_flags: u32) -> (can: bool)
    ensures
        can == contains_all(queue_flags, QUEUE_GRAPHICS),
{
    queue_flags_contain(queue_flags, QUEUE_GRAPHICS)
}

/// The first family of `device`, in index order, that suits.
fn first_suitable_family(devices: &Vec<PhysicalDevice>, device: usize) -> (found: Option<u32>)
    requires
        device < devices@.len(),
    ensures
        found matches Some(family) ==> suits(devices@, device as int, family as int),
        found matches Some(family) ==> forall|earlier: int|
            0 <= earlier < family ==> !suits(devices@, device as int, earlier),
        found is None ==> forall|any: int| !suits(devices@, device as int, any),
{
    let families = &devices[device].families;
    let mut family: u32 = 0;
    while (family as usize) < families.len()
        invariant
            device < devices@.len(),
            families@ == devices@[device as int].families@,
            family <= families@.len(),
            forall|earlier: int| 0 <= earlier < family ==> !suits(devices@, device as int, earlier),
        decreases families@.len() - family,
    {
        let info = families[family as usize];
        if supports_graphics(info.queue_flags) && info.present_support {
            return Some(family);
        }
        if family == u32::MAX {
            return None;
        }
        family = family + 1;
    }
    None
}

/// The first physical device, in enumeration order, with a queue family
/// that draws and presents, and the first such family of it. Fails where no
/// family of any device does both.
pub fn get_physical_device(devices: &Vec<PhysicalDevice>) -> (chosen: Result<
    QueueSelection,
    RendererError,
>)
    ensures
        chosen matches Ok(selection) ==> is_first_suitable(devices@, selection),
        chosen matches Err(error) ==> error == RendererError::NoSuitableDevice,
        chosen is Err <==> forall|device: int, family: int| !suits(devices@, device, family),
        chosen == match selected(devices@) {
            Some(selection) => Ok::<QueueSelection, RendererError>(selection),
            None => Err(RendererError::NoSuitableDevice),
        },
{
    let mut device: usize = 0;
    while device < devices.len()
        invariant
            device <= devices@.len(),
            forall|earlier: int, family: int|
                0 <= earlier < device ==> !suits(devices@, earlier, family),
        decreases devices@.len() - device,
    {
        match first_suitable_family(devices, device) {
            Some(family) => {
                let selection = QueueSelection {
                    device_index: device,
                    physical_device: devices[device].handle,
                    queue_family_index: family,
                };
                proof {
                    assert(is_first_suitable(devices@, selection));
                    selection_is_unique(devices@, selection, selected(devices@)->0);
                }
                return Ok(selection);
            },
            None => {},
        }
        device = device + 1;
    }
    assert forall|chosen: QueueSelection| !is_first_suitable(devices@, chosen) by {
        assert(!suits(devices@, chosen.device_index as int, chosen.queue_family_index as int));
    }
    Err(RendererError::NoSuitableDevice)
}

/// The first family of `device` that can draw, from `from_family` on.
fn first_drawing_family(devices: &Vec<DeviceFamilies>, device: usize, from_family: u32) -> (found:
    Option<u32>)
    requires
        device < devices@.len(),
    ensures
        found matches Some(family) ==> from_family <= family && draws(
            devices@,
            device as int,
            family as int,
        ),
        found matches Some(family) ==> forall|earlier: int|
            from_family <= earlier < family ==> !draws(devices@, device as int, earlier),
        found is None ==> forall|any: int|
            from_family <= any ==> !draws(devices@, device as int, any),
{
    let flags = &devices[device].queue_flags;
    let mut family: u32 = from_family;
    while (family as usize) < flags.len()
        invariant
            device < devices@.len(),
            flags@ == devices@[device as int].queue_flags@,
            from_family <= family,
            forall|earlier: int|
                from_family <= earlier < family ==> !draws(devices@, device as int, earlier),
        decreases flags@.len() - family,
    {
        if supports_graphics(flags[family as usize]) {
            return Some(family);
        }
        if family == u32::MAX {
            return None;
        }
        family = family + 1;
    }
    None
}

/// The first family that can draw, from family `from_family` of device
/// `from_device` on, in enumeration order.
pub fn next_candidate(devices: &Vec<DeviceFamilies>, from_device: usize, from_family: u32) -> (found:
    Option<Candidate>)
    ensures
        place(found) == candidate(devices@, from_device as int, from_family as int),
{
    let mut device: usize = from_device;
    let mut family: u32 = from_family;
    while device < devices.len()
        invariant
            from_device <= device,
            device == from_device ==> family == from_family,
            device > from_device ==> family == 0,
            forall|d: int, f: int|
                !precedes(d, f, from_device as int, from_family as int) && precedes(
                    d,
                    f,
                    device as int,
                    family as int,
                ) ==> !draws(devices@, d, f),
        decreases devices@.len() - device,
    {
        match first_drawing_family(devices, device, family) {
            Some(drawing) => {
                proof {
                    let here = (device as int, drawing as int);
                    assert(is_candidate(
                        devices@,
                        from_device as int,
                        from_family as int,
                        here.0,
                        here.1,
                    ));
                    let other = choose|other: (int, int)|
                        is_candidate(
                            devices@,
                            from_device as int,
                            from_family as int,
                            other.0,
                            other.1,
                        );
                    candidate_is_unique(
                        devices@,
                        from_device as int,
                        from_family as int,
                        here,
                        other,
                    );
                }
                return Some(Candidate { device_index: device, queue_family_index: drawing });
            },
            None => {},
        }
        device = device + 1;
        family = 0;
    }
    assert forall|found: (int, int)|
        !is_candidate(devices@, from_device as int, from_family as int, found.0, found.1) by {
        assert(!draws(devices@, found.0, found.1) || precedes(
            found.0,
            found.1,
            from_device as int,
            from_family as int,
        ));
    }
    None
}

/// The first family that can draw among those that come after `last`.
pub fn candidate_after(devices: &Vec<DeviceFamilies>, last: Candidate) -> (found: Option<Candidate>)
    ensures
        place(found) == candidate(
            devices@,
            last.device_index as int,
            last.queue_family_index + 1,
        ),
{
    if last.queue_family_index < u32::MAX {
        next_candidate(devices, last.device_index, last.queue_family_index + 1)
    } else if last.device_index >= devices.len() {
        proof {
            nothing_draws_past_the_end(
                devices@,
                last.device_index as int,
                last.queue_family_index + 1,
            );
        }
        None
    } else {
        // no family has an index beyond 32 bits: the next device is next
        let found = next_candidate(devices, last.device_index + 1, 0);
        proof {
            same_candidate_from_next_device(devices@, last.device_index as int);
        }
        found
    }
}

/// The logical device to create for the chosen family.
pub fn create_device(physical_device: u64, queue_family_index: u32) -> (plan: DevicePlan)
    ensures
        plan == device_plan(physical_device, queue_family_index),
{
    DevicePlan {
        physical_device,
        queue_family_index,
        queue_count: 1,
        swapchain_extension: true,
        shader_clip_distance: true,
    }
}

/// The choice is a function of the enumeration: two selections that are
/// both the first suitable pair are the same selection.
pub proof fn selection_is_unique(
    devices: Seq<PhysicalDevice>,
    one: QueueSelection,
    other: QueueSelection,
)
    requires
        is_first_suitable(devices, one),
        is_first_suitable(devices, other),
    ensures
        one == other,
{
    let (d1, f1) = (one.device_index as int, one.queue_family_index as int);
    let (d2, f2) = (other.device_index as int, other.queue_family_index as int);
    if precedes(d1, f1, d2, f2) {
        assert(!suits(devices, d1, f1));
    }
    if precedes(d2, f2, d1, f1) {
        assert(!suits(devices, d2, f2));
    }
}

/// The next family to ask about is a function of the enumeration: two
/// that are both the first to draw from one place on are the same.
pub proof fn candidate_is_unique(
    devices: Seq<DeviceFamilies>,
    from_device: int,
    from_family: int,
    one: (int, int),
    other: (int, int),
)
    requires
        is_candidate(devices, from_device, from_family, one.0, one.1),
        is_candidate(devices, from_device, from_family, other.0, other.1),
    ensures
        one == other,
{
    if precedes(one.0, one.1, other.0, other.1) {
        assert(!draws(devices, one.0, one.1));
    }
    if precedes(other.0, other.1, one.0, one.1) {
        assert(!draws(devices, other.0, other.1));
    }
}

/// Where a family can draw, there is a first one that can: the search for
/// a candidate comes up empty only where no family from its start on draws.
pub proof fn candidate_exists(
    devices: Seq<DeviceFamilies>,
    from_device: int,
    from_family: int,
    device: int,
    family: int,
)
    requires
        draws(devices, device, family),
        !precedes(device, family, from_device, from_family),
    ensures
        candidate(devices, from_device, from_family) matches Some(found) && is_candidate(
            devices,
            from_device,
            from_family,
            found.0,
            found.1,
        ),
    decreases device, family,
{
    if exists|d: int, f: int|
        !precedes(d, f, from_device, from_family) && precedes(d, f, device, family) && draws(
            devices,
            d,
            f,
        ) {
        let (d, f) = choose|d: int, f: int|
            !precedes(d, f, from_device, from_family) && precedes(d, f, device, family) && draws(
                devices,
                d,
                f,
            );
        candidate_exists(devices, from_device, from_family, d, f);
    } else {
        let here = (device, family);
        assert(is_candidate(devices, from_device, from_family, here.0, here.1));
    }
}

/// What the search returns is a candidate; where it returns nothing, no
/// family from its start on can draw.
pub proof fn candidate_is_first(devices: Seq<DeviceFamilies>, from_device: int, from_family: int)
    ensures
        candidate(devices, from_device, from_family) matches Some(found) ==> is_candidate(
            devices,
            from_device,
            from_family,
            found.0,
            found.1,
        ),
        candidate(devices, from_device, from_family) is None ==> forall|d: int, f: int|
            !precedes(d, f, from_device, from_family) ==> !draws(devices, d, f),
{
    if candidate(devices, from_device, from_family) is None {
        assert forall|d: int, f: int| !precedes(d, f, from_device, from_family) implies !draws(
            devices,
            d,
            f,
        ) by {
            if draws(devices, d, f) {
                candidate_exists(devices, from_device, from_family, d, f);
            }
        }
    }
}

/// From a device that does not exist on, nothing draws.
proof fn nothing_draws_past_the_end(devices: Seq<DeviceFamilies>, from_device: int, from_family: int)
    requires
        from_device >= devices.len(),
        from_family >= 0,
    ensures
        candidate(devices, from_device, from_family) is None,
{
    assert forall|found: (int, int)|
        !is_candidate(devices, from_device, from_family, found.0, found.1) by {
        assert(!draws(devices, found.0, found.1) || precedes(
            found.0,
            found.1,
            from_device,
            from_family,
        ));
    }
}

/// Past the last family that 32 bits can name, the search goes on with the
/// next device.
proof fn same_candidate_from_next_device(devices: Seq<DeviceFamilies>, device: int)
    ensures
        candidate(devices, device, u32::MAX + 1) == candidate(devices, device + 1, 0),
{
    let here = candidate(devices, device, u32::MAX + 1);
    let next = candidate(devices, device + 1, 0);
    candidate_is_first(devices, device, u32::MAX + 1);
    candidate_is_first(devices, device + 1, 0);
    match next {
        Some(found) => {
            assert(is_candidate(devices, device, u32::MAX + 1, found.0, found.1));
            candidate_is_unique(devices, device, u32::MAX + 1, found, here->0);
        },
        None => {
            if here is Some {
                let found = here->0;
                assert(draws(devices, found.0, found.1));
                assert(!precedes(found.0, found.1, device + 1, 0));
            }
        },
    }
}

} // verus!
