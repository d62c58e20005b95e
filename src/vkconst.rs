//! Raw values of the Vulkan constants that the renderer's rules use, read
//! from ash's generated bindings.
use vstd::prelude::*;

verus! {

/// Relies on ash's `vk::MemoryPropertyFlags::DEVICE_LOCAL`, bit 0.
#[verifier::external_body]
pub(crate) fn memory_device_local() -> (r: u32)
    ensures
        r == 1,
{
    ash::vk::MemoryPropertyFlags::DEVICE_LOCAL.as_raw()
}

/// Relies on ash's `vk::MemoryPropertyFlags::HOST_VISIBLE`, bit 1.
#[verifier::external_body]
pub(crate) fn memory_host_visible() -> (r: u32)
    ensures
        r == 2,
{
    ash::vk::MemoryPropertyFlags::HOST_VISIBLE.as_raw()
}

/// Relies on ash's `vk::MemoryPropertyFlags::HOST_COHERENT`, bit 2.
#[verifier::external_body]
pub(crate) fn memory_host_coherent() -> (r: u32)
    ensures
        r == 4,
{
    ash::vk::MemoryPropertyFlags::HOST_COHERENT.as_raw()
}

/// Relies on ash's `vk::GeometryInstanceFlagsNV::TRIANGLE_CULL_DISABLE`, bit 0.
#[verifier::external_body]
pub(crate) fn instance_triangle_cull_disable() -> (r: u32)
    ensures
        r == 1,
{
    ash::vk::GeometryInstanceFlagsNV::TRIANGLE_CULL_DISABLE.as_raw()
}

/// Relies on ash's `vk::SHADER_UNUSED_NV`, all bits set.
#[verifier::external_body]
pub(crate) fn shader_unused() -> (r: u32)
    ensures
        r == 0xffff_ffff,
{
    ash::vk::SHADER_UNUSED_NV
}

/// Relies on ash's `vk::QueueFlags::GRAPHICS`, bit 0.
#[verifier::external_body]
pub(crate) fn queue_graphics() -> (r: u32)
    ensures
        r == 1,
{
    ash::vk::QueueFlags::GRAPHICS.as_raw()
}

/// Relies on ash's `vk::Format::UNDEFINED`, value 0.
#[verifier::external_body]
pub(crate) fn format_undefined() -> (r: i32)
    ensures
        r == 0,
{
    ash::vk::Format::UNDEFINED.as_raw()
}

/// Relies on ash's `vk::Format::B8G8R8_UNORM`, value 30.
#[verifier::external_body]
pub(crate) fn format_b8g8r8_unorm() -> (r: i32)
    ensures
        r == 30,
{
    ash::vk::Format::B8G8R8_UNORM.as_raw()
}

/// Relies on ash's `vk::SurfaceTransformFlagsKHR::IDENTITY`, bit 0.
#[verifier::external_body]
pub(crate) fn transform_identity() -> (r: u32)
    ensures
        r == 1,
{
    ash::vk::SurfaceTransformFlagsKHR::IDENTITY.as_raw()
}

/// Relies on ash's `vk::PresentModeKHR::MAILBOX`, value 1.
#[verifier::external_body]
pub(crate) fn present_mode_mailbox() -> (r: i32)
    ensures
        r == 1,
{
    ash::vk::PresentModeKHR::MAILBOX.as_raw()
}

/// Relies on ash's `vk::PresentModeKHR::FIFO`, value 2.
#[verifier::external_body]
pub(crate) fn present_mode_fifo() -> (r: i32)
    ensures
        r == 2,
{
    ash::vk::PresentModeKHR::FIFO.as_raw()
}

} // verus!
