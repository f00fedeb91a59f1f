//! The record that the core keeps of one device buffer.

use vstd::prelude::*;
use crate::error::FatalError;

verus! {

/// What a buffer is bound as.
#[derive(Debug, Clone, Copy, PartialEq, Eq, Structural)]
pub enum BufferUsage {
    /// Per-vertex or per-instance input of a draw call.
    VertexBuffer,
    /// Shader constants, such as the camera transform.
    UniformBuffer,
}

/// Where the memory of a buffer should live.
#[derive(Debug, Clone, Copy, PartialEq, Eq, Structural)]
pub enum MemoryUsage {
    /// Device-local memory that the host cannot map.
    GpuOnly,
    /// Host-visible, coherent memory that the host fills and the device reads.
    CpuToGpu,
}

/// One device buffer with its allocation, as the core sees it: the raw device
/// handle and the parameters that the buffer was created with.
#[derive(Debug, Clone, Copy, PartialEq, Eq, Structural)]
pub struct Buffer {
    /// The raw handle by which the device knows the buffer.
    pub buffer: u64,
    /// The size that was asked for at creation.
    pub size_in_bytes: u64,
    pub usage: BufferUsage,
    pub memory_usage: MemoryUsage,
}

impl Buffer {
    /// Records a buffer that the device created with these parameters.
    pub fn new(
        buffer: u64,
        size_in_bytes: u64,
        usage: BufferUsage,
        memory_usage: MemoryUsage,
    ) -> (created: Buffer)
        ensures
            created == (Buffer { buffer, size_in_bytes, usage, memory_usage }),
    {
        Buffer { buffer, size_in_bytes, usage, memory_usage }
    }
}

/// What has to happen on the device so that a buffer mirrors the first
/// `count` items of its source.
#[derive(Debug, Clone, Copy, PartialEq, Eq, Structural)]
pub enum BufferUpdate {
    /// The buffer exists and is large enough: overwrite it in place with the
    /// first `count` items.
    Fill { buffer: Buffer, count: usize },
    /// There is no buffer that can hold the items: create one with these
    /// parameters, fill it with the first `count` items, and hand its record
    /// to the owner of the source, who gets back the record that it replaces.
    Create { size_in_bytes: u64, usage: BufferUsage, memory_usage: MemoryUsage, count: usize },
}

impl BufferUpdate {
    /// The number of items that the update puts into the buffer.
    pub open spec fn count(self) -> usize {
        match self {
            BufferUpdate::Fill { count, .. } => count,
            BufferUpdate::Create { count, .. } => count,
        }
    }

    /// The size of the buffer that holds the items once the update is carried
    /// out.
    pub open spec fn size_in_bytes(self) -> u64 {
        match self {
            BufferUpdate::Fill { buffer, .. } => buffer.size_in_bytes,
            BufferUpdate::Create { size_in_bytes, .. } => size_in_bytes,
        }
    }
}

/// The update that brings the mirror `existing` of a source up to date, where
/// the source shows `count` items of `item_size` bytes each. A buffer that
/// can hold these items is filled again. Where there is no buffer, or the
/// buffer is too small, a host-visible vertex buffer of exactly
/// `count * item_size` bytes is asked for. No buffer can have more than
/// `u64::MAX` bytes, so a larger one fails to be created.
pub open spec fn buffer_update(existing: Option<Buffer>, count: nat, item_size: nat) -> Result<
    BufferUpdate,
    FatalError,
> {
    if count * item_size > u64::MAX {
        Err(FatalError::ResourceCreationFailure)
    } else if existing is Some && count * item_size <= existing->0.size_in_bytes {
        Ok(BufferUpdate::Fill { buffer: existing->0, count: count as usize })
    } else {
        Ok(
            BufferUpdate::Create {
                size_in_bytes: (count * item_size) as u64,
                usage: BufferUsage::VertexBuffer,
                memory_usage: MemoryUsage::CpuToGpu,
                count: count as usize,
            },
        )
    }
}

/// Whatever buffer an update ends with can hold the items that are put into
/// it: a buffer that is filled is the existing one and has room for them,
/// and a buffer that is created has exactly their size.
pub proof fn lemma_buffer_update_fits(existing: Option<Buffer>, count: nat, item_size: nat)
    requires
        count <= usize::MAX,
    ensures
        match buffer_update(existing, count, item_size) {
            Ok(BufferUpdate::Fill { buffer, count: filled }) => {
                &&& existing == Some(buffer)
                &&& filled == count
                &&& count * item_size <= buffer.size_in_bytes
            },
            Ok(BufferUpdate::Create { size_in_bytes, count: filled, .. }) => {
                &&& filled == count
                &&& size_in_bytes == count * item_size
                &&& existing is Some ==> existing->0.size_in_bytes < count * item_size
            },
            Err(_) => count * item_size > u64::MAX,
        },
{
}

/// Decides how the mirror `existing` is brought up to date with `count`
/// items of `item_size` bytes each.
pub fn plan_buffer_update(existing: Option<Buffer>, count: usize, item_size: usize) -> (update:
    Result<BufferUpdate, FatalError>)
    ensures
        update == buffer_update(existing, count as nat, item_size as nat),
        update matches Ok(request) ==> request.count() == count && count * item_size
            <= request.size_in_bytes(),
        update is Err <==> count * item_size > u64::MAX,
{
    match (count as u64).checked_mul(item_size as u64) {
        Some(size_in_bytes) => {
            match existing {
                Some(buffer) => {
                    if size_in_bytes <= buffer.size_in_bytes {
                        return Ok(BufferUpdate::Fill { buffer, count });
                    }
                },
                None => {},
            }
            Ok(
                BufferUpdate::Create {
                    size_in_bytes,
                    usage: BufferUsage::VertexBuffer,
                    memory_usage: MemoryUsage::CpuToGpu,
                    count,
                },
            )
        },
        None => Err(FatalError::ResourceCreationFailure),
    }
}

} // verus!
