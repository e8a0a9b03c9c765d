//! Sharing a texture's memory with another process: what is asked of Vulkan, and what the two
//! processes tell each other.

use crate::texture_format::TextureFormat;
use crate::vulkan::{
    IMAGE_TYPE_1D, IMAGE_TYPE_2D, IMAGE_TYPE_3D, IMAGE_USAGE_COLOR_ATTACHMENT,
    IMAGE_USAGE_SAMPLED, IMAGE_USAGE_STORAGE, IMAGE_USAGE_TRANSFER_DST, IMAGE_USAGE_TRANSFER_SRC,
    MAX_MEMORY_TYPES,
};
use vstd::prelude::*;

verus! {

// Usage flags of a texture, as wgpu numbers them.
pub const USAGE_COPY_SRC: u32 = 1;

pub const USAGE_COPY_DST: u32 = 2;

pub const USAGE_TEXTURE_BINDING: u32 = 4;

pub const USAGE_STORAGE_BINDING: u32 = 8;

pub const USAGE_RENDER_ATTACHMENT: u32 = 16;

// Usage flags of a texture, as wgpu's hardware layer numbers them.
pub const HAL_COPY_SRC: u16 = 4;

pub const HAL_COPY_DST: u16 = 8;

pub const HAL_RESOURCE: u16 = 16;

pub const HAL_COLOR_TARGET: u16 = 32;

pub const HAL_STORAGE_READ_ONLY: u16 = 256;

pub const HAL_STORAGE_READ_WRITE: u16 = 1024;

/// How many dimensions a texture has.
#[derive(Clone, Copy, PartialEq, Eq, Structural, Debug)]
pub enum TextureDimension {
    D1,
    D2,
    D3,
}

/// Size of a texture in texels. The third number counts slices of a three-dimensional texture and
/// layers of any other.
#[derive(Clone, Copy, PartialEq, Eq, Structural, Debug)]
pub struct TextureSize {
    pub width: u32,
    pub height: u32,
    pub depth_or_array_layers: u32,
}

/// Description of a texture, as its owner asked for it.
pub struct TextureDescriptor {
    pub label: Option<String>,
    pub size: TextureSize,
    pub mip_level_count: u32,
    pub sample_count: u32,
    pub dimension: TextureDimension,
    pub format: TextureFormat,
    pub usage: u32,
    pub view_formats: Vec<TextureFormat>,
}

/// Size of a Vulkan image.
#[derive(Clone, Copy, PartialEq, Eq, Structural, Debug)]
pub struct ImageExtent {
    pub width: u32,
    pub height: u32,
    pub depth: u32,
}

/// Parameters of a Vulkan image whose memory is shared between processes.
#[derive(Clone, Copy, PartialEq, Eq, Structural, Debug)]
pub struct ImageCreateInfo {
    pub image_type: i32,
    pub format: i32,
    pub extent: ImageExtent,
    pub mip_levels: u32,
    pub array_layers: u32,
    pub samples: u32,
    pub tiling: i32,
    pub usage: u32,
    pub sharing_mode: i32,
    pub initial_layout: i32,
    pub handle_types: u32,
}

/// What an image asks of its memory.
#[derive(Clone, Copy, PartialEq, Eq, Structural, Debug)]
pub struct MemoryRequirements {
    pub size: u64,
    pub memory_type_bits: u32,
}

/// The memory types of a device, each with its property flags.
pub struct MemoryProperties {
    pub memory_type_count: u32,
    pub property_flags: [u32; 32],
}

/// `wgpu::TextureUsages::contains`: whether every bit of the flag is set in the usage.
#[verifier::external_body]
fn usage_contains(usage: u32, flag: u32) -> (contained: bool)
    ensures
        contained == (usage & flag == flag),
{
    wgpu::TextureUsages::from_bits_retain(usage).contains(
        wgpu::TextureUsages::from_bits_retain(flag),
    )
}

/// `ash::vk::MemoryPropertyFlags::contains`: whether every bit of `wanted` is set in `flags`.
#[verifier::external_body]
fn property_contains(flags: u32, wanted: u32) -> (contained: bool)
    ensures
        contained == (flags & wanted == wanted),
{
    ash::vk::MemoryPropertyFlags::from_raw(flags).contains(
        ash::vk::MemoryPropertyFlags::from_raw(wanted),
    )
}

/// The sample count that Vulkan is asked for: a power of two up to 64, and one sample in place of
/// any other number.
pub open spec fn vk_sample_count(count: u32) -> u32 {
    if count == 1 || count == 2 || count == 4 || count == 8 || count == 16 || count == 32 || count
        == 64 {
        count
    } else {
        1
    }
}

pub fn sample_count_to_vk(count: u32) -> (samples: u32)
    ensures
        samples == vk_sample_count(count),
{
    match count {
        1 => 1,
        2 => 2,
        4 => 4,
        8 => 8,
        16 => 16,
        32 => 32,
        64 => 64,
        _ => 1,
    }
}

/// The Vulkan usage flags of a texture: copying, sampling, storage and colour attachment have the
/// same bit in both numberings, and every other usage is dropped.
pub open spec fn vk_image_usage(usage: u32) -> u32 {
    usage & 0x1f
}

pub fn wgpu_usage_to_vk(usage: u32) -> (flags: u32)
    ensures
        flags == vk_image_usage(usage),
{
    let mut flags: u32 = 0;
    if usage_contains(usage, USAGE_COPY_SRC) {
        flags = flags | IMAGE_USAGE_TRANSFER_SRC;
    }
    if usage_contains(usage, USAGE_COPY_DST) {
        flags = flags | IMAGE_USAGE_TRANSFER_DST;
    }
    if usage_contains(usage, USAGE_TEXTURE_BINDING) {
        flags = flags | IMAGE_USAGE_SAMPLED;
    }
    if usage_contains(usage, USAGE_STORAGE_BINDING) {
        flags = flags | IMAGE_USAGE_STORAGE;
    }
    if usage_contains(usage, USAGE_RENDER_ATTACHMENT) {
        flags = flags | IMAGE_USAGE_COLOR_ATTACHMENT;
    }
    proof {
        let f0 = if usage & 1 == 1 { 0u32 | 1 } else { 0u32 };
        let f1 = if usage & 2 == 2 { f0 | 2 } else { f0 };
        let f2 = if usage & 4 == 4 { f1 | 4 } else { f1 };
        let f3 = if usage & 8 == 8 { f2 | 8 } else { f2 };
        let f4 = if usage & 16 == 16 { f3 | 16 } else { f3 };
        assert(f4 == usage & 0x1f) by (bit_vector)
            requires
                f0 == (if usage & 1 == 1 { 0u32 | 1 } else { 0u32 }),
                f1 == (if usage & 2 == 2 { f0 | 2 } else { f0 }),
                f2 == (if usage & 4 == 4 { f1 | 4 } else { f1 }),
                f3 == (if usage & 8 == 8 { f2 | 8 } else { f2 }),
                f4 == (if usage & 16 == 16 { f3 | 16 } else { f3 }),
        ;
    }
    flags
}

/// Whether every bit of a flag is set in a usage.
pub open spec fn has_usage(usage: u32, flag: u32) -> bool {
    usage & flag == flag
}

/// The hardware layer's flags for a usage: the union of the flags that each usage stands for.
/// Storage stands for both reading alone and reading with writing.
pub open spec fn hal_usage(usage: u32) -> u16 {
    (if has_usage(usage, USAGE_COPY_SRC) {
        HAL_COPY_SRC
    } else {
        0u16
    }) | (if has_usage(usage, USAGE_COPY_DST) {
        HAL_COPY_DST
    } else {
        0u16
    }) | (if has_usage(usage, USAGE_TEXTURE_BINDING) {
        HAL_RESOURCE
    } else {
        0u16
    }) | (if has_usage(usage, USAGE_STORAGE_BINDING) {
        HAL_STORAGE_READ_ONLY | HAL_STORAGE_READ_WRITE
    } else {
        0u16
    }) | (if has_usage(usage, USAGE_RENDER_ATTACHMENT) {
        HAL_COLOR_TARGET
    } else {
        0u16
    })
}

pub fn wgpu_usage_to_hal_usage(usage: u32) -> (flags: u16)
    ensures
        flags == hal_usage(usage),
{
    let copy_src: u16 = if usage_contains(usage, USAGE_COPY_SRC) {
        HAL_COPY_SRC
    } else {
        0
    };
    let copy_dst: u16 = if usage_contains(usage, USAGE_COPY_DST) {
        HAL_COPY_DST
    } else {
        0
    };
    let sampled: u16 = if usage_contains(usage, USAGE_TEXTURE_BINDING) {
        HAL_RESOURCE
    } else {
        0
    };
    let storage: u16 = if usage_contains(usage, USAGE_STORAGE_BINDING) {
        HAL_STORAGE_READ_ONLY | HAL_STORAGE_READ_WRITE
    } else {
        0
    };
    let target: u16 = if usage_contains(usage, USAGE_RENDER_ATTACHMENT) {
        HAL_COLOR_TARGET
    } else {
        0
    };
    copy_src | copy_dst | sampled | storage | target
}

/// Vulkan's image type for a number of dimensions.
pub open spec fn vk_image_type(dimension: TextureDimension) -> i32 {
    match dimension {
        TextureDimension::D1 => IMAGE_TYPE_1D,
        TextureDimension::D2 => IMAGE_TYPE_2D,
        TextureDimension::D3 => IMAGE_TYPE_3D,
    }
}

pub fn wgpu_dimension_to_image_type(dimension: TextureDimension) -> (image_type: i32)
    ensures
        image_type == vk_image_type(dimension),
{
    match dimension {
        TextureDimension::D1 => IMAGE_TYPE_1D,
        TextureDimension::D2 => IMAGE_TYPE_2D,
        TextureDimension::D3 => IMAGE_TYPE_3D,
    }
}

/// Index of the lowest set bit, and 32 where no bit is set.
pub fn lowest_set_bit(bits: u32) -> (index: u32)
    ensures
        bits == 0 <==> index == 32,
        bits != 0 ==> index < 32 && (bits >> index) & 1 == 1,
        forall|lower: u32| lower < index ==> #[trigger] (bits >> lower) & 1 == 0,
{
    let index = bits.trailing_zeros();
    proof {
        vstd::std_specs::bits::axiom_u32_trailing_zeros(bits);
    }
    index
}

/// Whether the mask admits a memory type.
pub open spec fn admits_type(type_bits: u32, index: u32) -> bool {
    type_bits & (1u32 << index) != 0
}

/// Whether a memory type is admitted by the mask and has all the wanted properties.
pub open spec fn suits(
    properties: MemoryProperties,
    type_bits: u32,
    wanted: u32,
    index: u32,
) -> bool {
    &&& admits_type(type_bits, index)
    &&& properties.property_flags@[index as int] & wanted == wanted
}

/// The first memory type from `start` on that suits, among the types that the device has.
pub open spec fn first_suitable(
    properties: MemoryProperties,
    type_bits: u32,
    wanted: u32,
    start: int,
) -> Option<u32>
    decreases properties.memory_type_count - start,
{
    if start >= properties.memory_type_count {
        None
    } else if suits(properties, type_bits, wanted, start as u32) {
        Some(start as u32)
    } else {
        first_suitable(properties, type_bits, wanted, start + 1)
    }
}

/// The first memory type from `start` on that the mask admits.
pub open spec fn first_admitted(
    properties: MemoryProperties,
    type_bits: u32,
    start: int,
) -> Option<u32>
    decreases properties.memory_type_count - start,
{
    if start >= properties.memory_type_count {
        None
    } else if admits_type(type_bits, start as u32) {
        Some(start as u32)
    } else {
        first_admitted(properties, type_bits, start + 1)
    }
}

/// The memory type to allocate from: the first with the preferred properties, else the first that
/// the mask admits at all, else type 0.
pub open spec fn selected_memory_type(
    properties: MemoryProperties,
    type_bits: u32,
    preferred: u32,
) -> u32 {
    match first_suitable(properties, type_bits, preferred, 0) {
        Some(index) => index,
        None => match first_admitted(properties, type_bits, 0) {
            Some(index) => index,
            None => 0,
        },
    }
}

/// Whether a choice can be made without looking past the last type that a device can have.
pub open spec fn selectable(
    properties: MemoryProperties,
    type_bits: u32,
    preferred: u32,
) -> bool {
    ||| properties.memory_type_count <= MAX_MEMORY_TYPES
    ||| exists|index: u32|
        index < MAX_MEMORY_TYPES && #[trigger] suits(properties, type_bits, preferred, index)
}

/// Picks the memory type to allocate from.
pub fn select_memory_type(
    properties: &MemoryProperties,
    type_bits: u32,
    preferred: u32,
) -> (index: u32)
    requires
        selectable(*properties, type_bits, preferred),
    ensures
        index == selected_memory_type(*properties, type_bits, preferred),
{
    let count: u32 = properties.memory_type_count;
    let mut i: u32 = 0;
    while i < count
        invariant
            count == properties.memory_type_count,
            i <= count,
            count <= MAX_MEMORY_TYPES || exists|index: u32|
                i <= index < MAX_MEMORY_TYPES && #[trigger] suits(
                    *properties,
                    type_bits,
                    preferred,
                    index,
                ),
            first_suitable(*properties, type_bits, preferred, 0) == first_suitable(
                *properties,
                type_bits,
                preferred,
                i as int,
            ),
        decreases count - i,
    {
        assert(i < MAX_MEMORY_TYPES);
        if (type_bits & (1u32 << i)) != 0 && property_contains(
            properties.property_flags[i as usize],
            preferred,
        ) {
            return i;
        }
        i += 1;
    }
    assert(count <= MAX_MEMORY_TYPES);
    let mut j: u32 = 0;
    while j < count
        invariant
            count == properties.memory_type_count,
            count <= MAX_MEMORY_TYPES,
            j <= count,
            first_suitable(*properties, type_bits, preferred, 0) is None,
            first_admitted(*properties, type_bits, 0) == first_admitted(
                *properties,
                type_bits,
                j as int,
            ),
        decreases count - j,
    {
        if (type_bits & (1u32 << j)) != 0 {
            return j;
        }
        j += 1;
    }
    0
}

proof fn lemma_first_suitable(
    properties: MemoryProperties,
    type_bits: u32,
    wanted: u32,
    start: int,
)
    requires
        0 <= start,
    ensures
        match first_suitable(properties, type_bits, wanted, start) {
            Some(index) => {
                &&& start <= index < properties.memory_type_count
                &&& suits(properties, type_bits, wanted, index)
                &&& forall|lower: u32|
                    start <= lower < index ==> !#[trigger] suits(
                        properties,
                        type_bits,
                        wanted,
                        lower,
                    )
            },
            None => forall|index: u32|
                start <= index < properties.memory_type_count ==> !#[trigger] suits(
                    properties,
                    type_bits,
                    wanted,
                    index,
                ),
        },
    decreases properties.memory_type_count - start,
{
    if start < properties.memory_type_count && !suits(
        properties,
        type_bits,
        wanted,
        start as u32,
    ) {
        lemma_first_suitable(properties, type_bits, wanted, start + 1);
    }
}

proof fn lemma_first_admitted(properties: MemoryProperties, type_bits: u32, start: int)
    requires
        0 <= start,
    ensures
        match first_admitted(properties, type_bits, start) {
            Some(index) => {
                &&& start <= index < properties.memory_type_count
                &&& admits_type(type_bits, index)
                &&& forall|lower: u32|
                    start <= lower < index ==> !#[trigger] admits_type(type_bits, lower)
            },
            None => forall|index: u32|
                start <= index < properties.memory_type_count ==> !#[trigger] admits_type(
                    type_bits,
                    index,
                ),
        },
    decreases properties.memory_type_count - start,
{
    if start < properties.memory_type_count && !admits_type(type_bits, start as u32) {
        lemma_first_admitted(properties, type_bits, start + 1);
    }
}

/// Wherever the device has a memory type that the mask admits, the selected type is one of them.
/// It has the preferred properties if any admitted type has them, and no type before it would have
/// served as well.
pub proof fn law_selected_memory_type(
    properties: MemoryProperties,
    type_bits: u32,
    preferred: u32,
)
    ensures
        ({
            let selected = selected_memory_type(properties, type_bits, preferred);
            let count = properties.memory_type_count;
            &&& (exists|index: u32| index < count && #[trigger] admits_type(type_bits, index))
                ==> selected < count && admits_type(type_bits, selected)
            &&& (exists|index: u32|
                index < count && #[trigger] suits(properties, type_bits, preferred, index)) ==> {
                &&& suits(properties, type_bits, preferred, selected)
                &&& forall|lower: u32|
                    lower < selected ==> !#[trigger] suits(
                        properties,
                        type_bits,
                        preferred,
                        lower,
                    )
            }
            &&& (forall|index: u32|
                index < count ==> !#[trigger] suits(properties, type_bits, preferred, index))
                ==> forall|lower: u32|
                lower < selected ==> !#[trigger] admits_type(type_bits, lower)
        }),
{
    lemma_first_suitable(properties, type_bits, preferred, 0);
    lemma_first_admitted(properties, type_bits, 0);
}

/// A sample count is passed on if it is a power of two up to 64, and one sample is asked for in the
/// place of any other.
pub proof fn law_sample_counts(count: u32, samples: u32)
    requires
        call_ensures(sample_count_to_vk, (count,), samples),
    ensures
        samples == count || samples == 1,
        samples == count <==> exists|k: u32| k <= 6 && #[trigger] (1u32 << k) == count,
{
    assert(1u32 << 0u32 == 1 && 1u32 << 1u32 == 2 && 1u32 << 2u32 == 4 && 1u32 << 3u32 == 8
        && 1u32 << 4u32 == 16 && 1u32 << 5u32 == 32 && 1u32 << 6u32 == 64) by (bit_vector);
    if exists|k: u32| k <= 6 && #[trigger] (1u32 << k) == count {
        let k = choose|k: u32| k <= 6 && #[trigger] (1u32 << k) == count;
        assert(k == 0 || k == 1 || k == 2 || k == 3 || k == 4 || k == 5 || k == 6);
    }
}

/// Uses are carried over one by one: what two sets of uses have together is carried over as what each
/// of them has. Nothing is made up, and uses that are not known are dropped.
pub proof fn law_uses_are_carried_over_one_by_one(
    a: u32,
    b: u32,
    vk_a: u32,
    vk_b: u32,
    vk_both: u32,
    hal_a: u16,
    hal_b: u16,
    hal_both: u16,
)
    requires
        call_ensures(wgpu_usage_to_vk, (a,), vk_a),
        call_ensures(wgpu_usage_to_vk, (b,), vk_b),
        call_ensures(wgpu_usage_to_vk, (a | b,), vk_both),
        call_ensures(wgpu_usage_to_hal_usage, (a,), hal_a),
        call_ensures(wgpu_usage_to_hal_usage, (b,), hal_b),
        call_ensures(wgpu_usage_to_hal_usage, (a | b,), hal_both),
    ensures
        vk_both == vk_a | vk_b,
        hal_both == hal_a | hal_b,
        vk_a & 1 == a & 1,
        vk_a & 2 == a & 2,
        vk_a & 4 == a & 4,
        vk_a & 8 == a & 8,
        vk_a & 16 == a & 16,
        vk_a < 32,
{
    assert((a | b) & 0x1f == (a & 0x1f) | (b & 0x1f)) by (bit_vector);
    assert((a & 0x1f) & 1 == a & 1 && (a & 0x1f) & 2 == a & 2 && (a & 0x1f) & 4 == a & 4 && (a
        & 0x1f) & 8 == a & 8 && (a & 0x1f) & 16 == a & 16 && a & 0x1f < 32) by (bit_vector);
    lemma_one_use(a, b, 1);
    lemma_one_use(a, b, 2);
    lemma_one_use(a, b, 4);
    lemma_one_use(a, b, 8);
    lemma_one_use(a, b, 16);
    let a1: u16 = if has_usage(a, 1) { 4 } else { 0 };
    let a2: u16 = if has_usage(a, 2) { 8 } else { 0 };
    let a3: u16 = if has_usage(a, 4) { 16 } else { 0 };
    let a4: u16 = if has_usage(a, 8) { 256u16 | 1024u16 } else { 0 };
    let a5: u16 = if has_usage(a, 16) { 32 } else { 0 };
    let b1: u16 = if has_usage(b, 1) { 4 } else { 0 };
    let b2: u16 = if has_usage(b, 2) { 8 } else { 0 };
    let b3: u16 = if has_usage(b, 4) { 16 } else { 0 };
    let b4: u16 = if has_usage(b, 8) { 256u16 | 1024u16 } else { 0 };
    let b5: u16 = if has_usage(b, 16) { 32 } else { 0 };
    let c1: u16 = if has_usage(a | b, 1) { 4 } else { 0 };
    let c2: u16 = if has_usage(a | b, 2) { 8 } else { 0 };
    let c3: u16 = if has_usage(a | b, 4) { 16 } else { 0 };
    let c4: u16 = if has_usage(a | b, 8) { 256u16 | 1024u16 } else { 0 };
    let c5: u16 = if has_usage(a | b, 16) { 32 } else { 0 };
    assert(0u16 | 0u16 == 0u16 && 4u16 | 0u16 == 4u16 && 0u16 | 4u16 == 4u16 && 4u16 | 4u16 == 4u16)
        by (bit_vector);
    assert(8u16 | 0u16 == 8u16 && 0u16 | 8u16 == 8u16 && 8u16 | 8u16 == 8u16) by (bit_vector);
    assert(16u16 | 0u16 == 16u16 && 0u16 | 16u16 == 16u16 && 16u16 | 16u16 == 16u16)
        by (bit_vector);
    assert(32u16 | 0u16 == 32u16 && 0u16 | 32u16 == 32u16 && 32u16 | 32u16 == 32u16)
        by (bit_vector);
    let s: u16 = 256u16 | 1024u16;
    assert(s | 0u16 == s && 0u16 | s == s && s | s == s) by (bit_vector);
    assert(c1 == a1 | b1);
    assert(c2 == a2 | b2);
    assert(c3 == a3 | b3);
    assert(c4 == a4 | b4);
    assert(c5 == a5 | b5);
    assert((a1 | b1) | (a2 | b2) | (a3 | b3) | (a4 | b4) | (a5 | b5) == (a1 | a2 | a3 | a4 | a5) | (
    b1 | b2 | b3 | b4 | b5)) by (bit_vector);
    assert(hal_a == a1 | a2 | a3 | a4 | a5);
    assert(hal_b == b1 | b2 | b3 | b4 | b5);
    assert(hal_both == c1 | c2 | c3 | c4 | c5);
}

/// A single use is among two sets of uses if it is in one of them.
proof fn lemma_one_use(a: u32, b: u32, flag: u32)
    requires
        flag == 1 || flag == 2 || flag == 4 || flag == 8 || flag == 16,
    ensures
        has_usage(a | b, flag) == (has_usage(a, flag) || has_usage(b, flag)),
{
    assert((a | b) & flag == flag <==> a & flag == flag || b & flag == flag) by (bit_vector)
        requires
            flag == 1 || flag == 2 || flag == 4 || flag == 8 || flag == 16,
    ;
}

/// What each single use stands for in the hardware layer, and that no use stands for nothing.
pub proof fn law_single_uses(
    none: u16,
    copy_src: u16,
    copy_dst: u16,
    sampled: u16,
    storage: u16,
    target: u16,
    unknown: u16,
    other: u32,
)
    requires
        call_ensures(wgpu_usage_to_hal_usage, (0u32,), none),
        call_ensures(wgpu_usage_to_hal_usage, (1u32,), copy_src),
        call_ensures(wgpu_usage_to_hal_usage, (2u32,), copy_dst),
        call_ensures(wgpu_usage_to_hal_usage, (4u32,), sampled),
        call_ensures(wgpu_usage_to_hal_usage, (8u32,), storage),
        call_ensures(wgpu_usage_to_hal_usage, (16u32,), target),
        other & 0x1f == 0,
        call_ensures(wgpu_usage_to_hal_usage, (other,), unknown),
    ensures
        none == 0,
        copy_src == 4,
        copy_dst == 8,
        sampled == 16,
        storage == 256u16 | 1024u16,
        target == 32,
        unknown == 0,
{
    assert(0u32 & 1 != 1 && 0u32 & 2 != 2 && 0u32 & 4 != 4 && 0u32 & 8 != 8 && 0u32 & 16 != 16)
        by (bit_vector);
    assert(1u32 & 1 == 1 && 1u32 & 2 != 2 && 1u32 & 4 != 4 && 1u32 & 8 != 8 && 1u32 & 16 != 16)
        by (bit_vector);
    assert(2u32 & 1 != 1 && 2u32 & 2 == 2 && 2u32 & 4 != 4 && 2u32 & 8 != 8 && 2u32 & 16 != 16)
        by (bit_vector);
    assert(4u32 & 1 != 1 && 4u32 & 2 != 2 && 4u32 & 4 == 4 && 4u32 & 8 != 8 && 4u32 & 16 != 16)
        by (bit_vector);
    assert(8u32 & 1 != 1 && 8u32 & 2 != 2 && 8u32 & 4 != 4 && 8u32 & 8 == 8 && 8u32 & 16 != 16)
        by (bit_vector);
    assert(16u32 & 1 != 1 && 16u32 & 2 != 2 && 16u32 & 4 != 4 && 16u32 & 8 != 8 && 16u32 & 16 == 16)
        by (bit_vector);
    assert(other & 1 != 1 && other & 2 != 2 && other & 4 != 4 && other & 8 != 8 && other & 16 != 16)
        by (bit_vector)
        requires
            other & 0x1f == 0,
    ;
    let s: u16 = 256u16 | 1024u16;
    assert(0u16 | 0u16 == 0u16 && 4u16 | 0u16 == 4u16 && 0u16 | 8u16 == 8u16 && 8u16 | 0u16 == 8u16
        && 0u16 | 16u16 == 16u16 && 16u16 | 0u16 == 16u16 && 0u16 | 32u16 == 32u16 && 0u16 | s == s
        && s | 0u16 == s) by (bit_vector);
}

/// What [`select_memory_type`] returns: a type that the mask admits and that has the preferred
/// properties, where the device has one, and the first of those; else the first that the mask admits;
/// and type 0 where the device has none that it admits.
pub proof fn law_first_fitting_memory_type_is_selected(
    properties: &MemoryProperties,
    type_bits: u32,
    preferred: u32,
    index: u32,
    other: u32,
)
    requires
        call_ensures(select_memory_type, (properties, type_bits, preferred), index),
        other < properties.memory_type_count,
    ensures
        ({
            let flags = properties.property_flags@;
            let admits = |i: u32| type_bits & (1u32 << i) != 0;
            let fits = |i: u32| admits(i) && flags[i as int] & preferred == preferred;
            &&& fits(other) ==> fits(index) && index <= other
            &&& admits(other) ==> admits(index) && index < properties.memory_type_count
            &&& admits(other) && !fits(index) ==> index <= other
            &&& index >= properties.memory_type_count ==> index == 0
            &&& !admits(index) ==> index == 0
        }),
{
    law_selected_memory_type(*properties, type_bits, preferred);
    lemma_first_suitable(*properties, type_bits, preferred, 0);
    lemma_first_admitted(*properties, type_bits, 0);
    assert(admits_type(type_bits, other) == (type_bits & (1u32 << other) != 0));
    assert(admits_type(type_bits, index) == (type_bits & (1u32 << index) != 0));
    if suits(*properties, type_bits, preferred, other) {
        assert(suits(*properties, type_bits, preferred, index));
    }
}

/// The lowest set bit is set, all bits below it are not, and only zero has none.
pub proof fn law_lowest_set_bit(bits: u32, index: u32, other: u32)
    requires
        call_ensures(lowest_set_bit, (bits,), index),
        other < 32,
    ensures
        (bits >> other) & 1 == 1 ==> index <= other && (bits >> index) & 1 == 1,
        index < 32 <==> bits != 0,
        index <= 32,
{
    if (bits >> other) & 1 == 1 {
        assert(bits != 0) by (bit_vector)
            requires
                (bits >> other) & 1 == 1,
                other < 32,
        ;
    }
}

} // verus!
