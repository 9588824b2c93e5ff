use vstd::prelude::*;

use crate::errors::DeviceError;
use crate::names::{contains_name, names_contain, names_contain_all};
use crate::queues::{QueueFamilyIndicesError, QueueIndices};
use crate::swapchain::SwapchainSupportDetails;

verus! {

/// The device extension that lets a device present images to a surface.
pub open spec fn swapchain_extension_name() -> Seq<char> {
    "VK_KHR_swapchain"@
}

/// What the engine learned of one enumerated physical device.
pub struct DeviceCandidate {
    pub queue_indices: Result<QueueIndices, QueueFamilyIndicesError>,
    /// Names of the device extensions the device offers.
    pub extensions: Vec<String>,
    pub swapchain_support: SwapchainSupportDetails,
}

/// The names of the device extensions every selected device must offer.
pub open spec fn required_device_extensions() -> Seq<Seq<char>> {
    seq![swapchain_extension_name()]
}

pub fn device_extension_names() -> (r: Vec<String>)
    ensures
        r@.len() == 1,
        r@[0]@ == swapchain_extension_name(),
{
    let mut r: Vec<String> = Vec::new();
    r.push("VK_KHR_swapchain".to_owned());
    r
}

impl DeviceCandidate {
    /// Complete queue indices, every required extension, and at least one
    /// surface format and one present mode.
    pub open spec fn spec_suitable(&self) -> bool {
        &&& self.queue_indices is Ok
        &&& self.queue_indices->Ok_0.spec_complete()
        &&& names_contain(self.extensions@, swapchain_extension_name())
        &&& self.swapchain_support.surface_formats@.len() > 0
        &&& self.swapchain_support.present_modes@.len() > 0
    }
}

/// Candidate `i` is the first suitable one of `candidates`.
pub open spec fn is_first_suitable(candidates: Seq<DeviceCandidate>, i: int) -> bool {
    &&& 0 <= i < candidates.len()
    &&& candidates[i].spec_suitable()
    &&& forall|j: int| 0 <= j < i ==> !(#[trigger] candidates[j]).spec_suitable()
}

/// No candidate is suitable.
pub open spec fn none_suitable(candidates: Seq<DeviceCandidate>) -> bool {
    forall|j: int| 0 <= j < candidates.len() ==> !(#[trigger] candidates[j]).spec_suitable()
}

/// Whether every name of `required` is among the extensions a device offers.
pub fn check_device_extensions(available: &Vec<String>, required: &Vec<String>) -> (r: bool)
    ensures
        r == names_contain_all(available@, required@),
{
    let mut i: usize = 0;
    while i < required.len()
        invariant
            0 <= i <= required@.len(),
            forall|k: int| 0 <= k < i ==> names_contain(available@, (#[trigger] required@[k])@),
        decreases required@.len() - i,
    {
        if !contains_name(available, &required[i]) {
            return false;
        }
        i = i + 1;
    }
    true
}

pub fn is_device_suitable(candidate: &DeviceCandidate) -> (r: bool)
    ensures
        r == candidate.spec_suitable(),
{
    let queues_complete = match candidate.queue_indices {
        Ok(queue_indices) => queue_indices.is_complete(),
        Err(_) => false,
    };
    let required = device_extension_names();
    let extensions_supported = check_device_extensions(&candidate.extensions, &required);
    proof {
        assert(names_contain_all(candidate.extensions@, required@) <==> names_contain(
            candidate.extensions@,
            swapchain_extension_name(),
        )) by {
            if names_contain_all(candidate.extensions@, required@) {
                assert(names_contain(candidate.extensions@, required@[0]@));
            }
        }
    }
    queues_complete && extensions_supported && candidate.swapchain_support.surface_formats.len()
        > 0 && candidate.swapchain_support.present_modes.len() > 0
}

/// Picks the first suitable device in enumeration order and returns its
/// position; a failed enumeration, or a list without a suitable device, is an
/// error.
pub fn find_physical_device(enumerated: &Result<Vec<DeviceCandidate>, i32>) -> (r: Result<
    usize,
    DeviceError,
>)
    ensures
        enumerated is Err ==> r == Err::<usize, DeviceError>(DeviceError::NoPhysicalDeviceFound),
        enumerated is Ok ==> match r {
            Ok(i) => is_first_suitable(enumerated->Ok_0@, i as int),
            Err(e) => e == DeviceError::NoPhysicalDeviceFound && none_suitable(enumerated->Ok_0@),
        },
{
    let candidates = match enumerated {
        Ok(candidates) => candidates,
        Err(_) => return Err(DeviceError::NoPhysicalDeviceFound),
    };
    let mut i: usize = 0;
    while i < candidates.len()
        invariant
            0 <= i <= candidates@.len(),
            enumerated is Ok,
            enumerated->Ok_0@ == candidates@,
            forall|j: int| 0 <= j < i ==> !(#[trigger] candidates@[j]).spec_suitable(),
        decreases candidates@.len() - i,
    {
        if is_device_suitable(&candidates[i]) {
            return Ok(i);
        }
        i = i + 1;
    }
    Err(DeviceError::NoPhysicalDeviceFound)
}

/// A selected device always comes with complete queue indices.
pub proof fn lemma_selected_has_complete_queues(candidates: Seq<DeviceCandidate>, i: int)
    requires
        is_first_suitable(candidates, i),
    ensures
        candidates[i].queue_indices is Ok,
        candidates[i].queue_indices->Ok_0.spec_complete(),
{
}

/// A device that lacks the swapchain extension is never selected, whatever
/// its queues, formats and present modes.
pub proof fn lemma_missing_swapchain_extension_never_selected(
    candidates: Seq<DeviceCandidate>,
    i: int,
)
    requires
        0 <= i < candidates.len(),
        !names_contain(candidates[i].extensions@, swapchain_extension_name()),
    ensures
        !is_first_suitable(candidates, i),
{
}

/// A device that reports no present mode is never selected; if it is the only
/// one, selection finds none.
pub proof fn lemma_no_present_mode_never_selected(candidates: Seq<DeviceCandidate>, i: int)
    requires
        0 <= i < candidates.len(),
        candidates[i].swapchain_support.present_modes@.len() == 0,
    ensures
        !is_first_suitable(candidates, i),
        candidates.len() == 1 ==> none_suitable(candidates),
{
}

} // verus!
