use vstd::prelude::*;

verus! {

/// The queue families chosen on one physical device: one that can run
/// graphics work and one that can present to the surface (possibly the same).
#[derive(Debug, Clone, Copy, PartialEq, Eq, Structural)]
pub struct QueueIndices {
    pub graphics_queue_index: Option<u32>,
    pub presentation_queue_index: Option<u32>,
}

/// The device offers no queue family with the required capabilities.
#[derive(Debug, Clone, Copy, PartialEq, Eq, Structural)]
pub enum QueueFamilyIndicesError {
    NotFoundError,
}

/// Queue capability bit for graphics work.
pub const QUEUE_GRAPHICS_BIT: u32 = 0x1;

/// `flags` carries every bit of `required`.
pub open spec fn has_flags(flags: u32, required: u32) -> bool {
    flags & required == required
}

/// `i` is the first family whose flags carry every bit of `required`.
pub open spec fn is_first_family_with(families: Seq<u32>, required: u32, i: int) -> bool {
    &&& 0 <= i < families.len()
    &&& has_flags(families[i], required)
    &&& forall|j: int| 0 <= j < i ==> !has_flags(#[trigger] families[j], required)
}

/// No family carries every bit of `required`.
pub open spec fn no_family_with(families: Seq<u32>, required: u32) -> bool {
    forall|j: int| 0 <= j < families.len() ==> !has_flags(#[trigger] families[j], required)
}

impl QueueIndices {
    /// Both indices are present.
    pub open spec fn spec_complete(self) -> bool {
        self.graphics_queue_index.is_some() && self.presentation_queue_index.is_some()
    }

    /// Resolution from the queue families of one device: `queue_flags[i]` are the
    /// capability bits of family `i` and `present_support[i]` tells whether family
    /// `i` can present to the surface. The graphics family is the first one with
    /// every bit of `required`; presentation is taken from that same family when
    /// it can present, and is left absent otherwise.
    pub open spec fn spec_resolved(
        self,
        queue_flags: Seq<u32>,
        required: u32,
        present_support: Seq<bool>,
    ) -> bool {
        &&& self.graphics_queue_index is Some
        &&& is_first_family_with(queue_flags, required, self.graphics_queue_index->Some_0 as int)
        &&& self.presentation_queue_index == if present_support[self.graphics_queue_index->Some_0 as int] {
            self.graphics_queue_index
        } else {
            None
        }
    }

    pub fn find_queue_family_indices(
        queue_flags: &Vec<u32>,
        required: u32,
        present_support: &Vec<bool>,
    ) -> (r: Result<QueueIndices, QueueFamilyIndicesError>)
        requires
            queue_flags@.len() == present_support@.len(),
            queue_flags@.len() <= u32::MAX as int + 1,
        ensures
            r is Err <==> no_family_with(queue_flags@, required),
            r is Ok ==> r->Ok_0.spec_resolved(queue_flags@, required, present_support@),
    {
        let mut i: usize = 0;
        while i < queue_flags.len()
            invariant
                0 <= i <= queue_flags@.len(),
                queue_flags@.len() == present_support@.len(),
                queue_flags@.len() <= u32::MAX as int + 1,
                forall|j: int| 0 <= j < i ==> !has_flags(#[trigger] queue_flags@[j], required),
            decreases queue_flags@.len() - i,
        {
            if queue_flags[i] & required == required {
                let index = i as u32;
                let presentation_queue_index = if present_support[i] {
                    Some(index)
                } else {
                    None
                };
                return Ok(QueueIndices { graphics_queue_index: Some(index), presentation_queue_index });
            }
            i = i + 1;
        }
        Err(QueueFamilyIndicesError::NotFoundError)
    }

    pub fn is_complete(self) -> (r: bool)
        ensures
            r == self.spec_complete(),
    {
        self.graphics_queue_index.is_some() && self.presentation_queue_index.is_some()
    }
}

} // verus!
