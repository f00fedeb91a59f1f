//! The choices that are made once, while the device is set up: which physical
//! device renders, which queue families serve it, and how many swap images
//! are asked for.

use vstd::prelude::*;

verus! {

/// The kind of a physical device.
#[derive(Debug, Clone, Copy, PartialEq, Eq, Structural)]
pub enum PhysicalDeviceType {
    Other,
    IntegratedGpu,
    DiscreteGpu,
    VirtualGpu,
    Cpu,
}

/// What the choice of queues reads of one queue family.
#[derive(Debug, Clone, Copy, PartialEq, Eq, Structural)]
pub struct QueueFamily {
    /// The number of queues that the family offers.
    pub queue_count: u32,
    /// Whether its queues take graphics work.
    pub graphics: bool,
    /// Whether its queues take transfer work.
    pub transfer: bool,
}

impl QueueFamily {
    /// Whether the family has a queue for graphics work.
    pub open spec fn serves_graphics(self) -> bool {
        self.queue_count > 0 && self.graphics
    }

    /// Whether the family has a queue for transfer work.
    pub open spec fn serves_transfer(self) -> bool {
        self.queue_count > 0 && self.transfer
    }

    /// Whether the family has a queue for transfer work and takes no graphics
    /// work, so that transfers do not compete with drawing.
    pub open spec fn dedicated_transfer(self) -> bool {
        self.serves_transfer() && !self.graphics
    }
}

/// The queue families that were chosen, by their indices.
#[derive(Debug, Clone, Copy, PartialEq, Eq, Structural)]
pub struct QueueFamilies {
    pub graphics_q_index: Option<u32>,
    pub transfer_q_index: Option<u32>,
}

/// Whether `index` is the graphics family to choose among `families`: the
/// last one that serves graphics, or none where no family does.
pub open spec fn is_graphics_choice(families: Seq<QueueFamily>, index: Option<u32>) -> bool {
    match index {
        Some(chosen) => {
            &&& chosen < families.len()
            &&& families[chosen as int].serves_graphics()
            &&& forall|later: int|
                chosen < later < families.len() ==> !(#[trigger] families[later]).serves_graphics()
        },
        None => forall|any: int|
            0 <= any < families.len() ==> !(#[trigger] families[any]).serves_graphics(),
    }
}

/// Whether `index` is the transfer family to choose among `families`: the
/// last dedicated one; where none is dedicated, the first that serves
/// transfers at all; or none where no family does.
pub open spec fn is_transfer_choice(families: Seq<QueueFamily>, index: Option<u32>) -> bool {
    match index {
        Some(chosen) => {
            &&& chosen < families.len()
            &&& families[chosen as int].serves_transfer()
            &&& if families[chosen as int].graphics {
                &&& forall|any: int|
                    0 <= any < families.len() ==> !(#[trigger] families[any]).dedicated_transfer()
                &&& forall|earlier: int|
                    0 <= earlier < chosen ==> !(#[trigger] families[earlier]).serves_transfer()
            } else {
                forall|later: int|
                    chosen < later < families.len() ==> !(#[trigger] families[later])
                        .dedicated_transfer()
            }
        },
        None => forall|any: int|
            0 <= any < families.len() ==> !(#[trigger] families[any]).serves_transfer(),
    }
}

impl QueueFamilies {
    /// Chooses the graphics and the transfer family among `families`, which
    /// are listed in the order of their indices.
    pub fn init(families: &Vec<QueueFamily>) -> (chosen: QueueFamilies)
        requires
            families.len() <= u32::MAX,
        ensures
            is_graphics_choice(families@, chosen.graphics_q_index),
            is_transfer_choice(families@, chosen.transfer_q_index),
    {
        let mut found_graphics_q_index: Option<u32> = None;
        let mut found_transfer_q_index: Option<u32> = None;
        let mut index: usize = 0;
        while index < families.len()
            invariant
                index <= families.len() <= u32::MAX,
                is_graphics_choice(families@.subrange(0, index as int), found_graphics_q_index),
                is_transfer_choice(families@.subrange(0, index as int), found_transfer_q_index),
            decreases families.len() - index,
        {
            let family = families[index];
            if family.queue_count > 0 && family.graphics {
                found_graphics_q_index = Some(index as u32);
            }
            if family.queue_count > 0 && family.transfer {
                if found_transfer_q_index.is_none() || !family.graphics {
                    found_transfer_q_index = Some(index as u32);
                }
            }
            index += 1;
        }
        assert(families@.subrange(0, index as int) =~= families@);
        QueueFamilies {
            graphics_q_index: found_graphics_q_index,
            transfer_q_index: found_transfer_q_index,
        }
    }
}

/// Whether `index` is the device to choose among devices of the kinds
/// `kinds`: the last discrete GPU, or none where there is no discrete GPU.
pub open spec fn is_device_choice(kinds: Seq<PhysicalDeviceType>, index: Option<usize>) -> bool {
    match index {
        Some(chosen) => {
            &&& chosen < kinds.len()
            &&& kinds[chosen as int] is DiscreteGpu
            &&& forall|later: int|
                chosen < later < kinds.len() ==> !(#[trigger] kinds[later] is DiscreteGpu)
        },
        None => forall|any: int| 0 <= any < kinds.len() ==> !(#[trigger] kinds[any] is DiscreteGpu),
    }
}

/// Chooses the physical device that renders, among devices of the kinds
/// `kinds`.
pub fn get_physical_device(kinds: &Vec<PhysicalDeviceType>) -> (chosen: Option<usize>)
    ensures
        is_device_choice(kinds@, chosen),
{
    let mut chosen: Option<usize> = None;
    let mut index: usize = 0;
    while index < kinds.len()
        invariant
            index <= kinds.len(),
            is_device_choice(kinds@.subrange(0, index as int), chosen),
        decreases kinds.len() - index,
    {
        match kinds[index] {
            PhysicalDeviceType::DiscreteGpu => {
                chosen = Some(index);
            },
            _ => {},
        }
        index += 1;
    }
    assert(kinds@.subrange(0, index as int) =~= kinds@);
    chosen
}

/// The number of swap images to ask for, where the surface needs at least
/// `min_image_count` and allows at most `max_image_count`, with 0 for "no
/// limit": one more than the minimum, unless that exceeds the limit.
pub open spec fn image_count(min_image_count: u32, max_image_count: u32) -> int {
    if max_image_count > 0 && min_image_count + 1 > max_image_count {
        max_image_count as int
    } else {
        min_image_count + 1
    }
}

/// Chooses the number of swap images to ask for.
pub fn desired_image_count(min_image_count: u32, max_image_count: u32) -> (count: u32)
    requires
        min_image_count < u32::MAX || max_image_count > 0,
    ensures
        count == image_count(min_image_count, max_image_count),
{
    if max_image_count > 0 && min_image_count >= max_image_count {
        max_image_count
    } else {
        min_image_count + 1
    }
}

} // verus!
