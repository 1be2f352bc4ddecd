use vstd::prelude::*;

verus! {

/// The pipeline bind point that the commands of a recorder bind to.
#[derive(Debug, Clone, Copy, PartialEq, Eq, Structural)]
pub enum PipelineBindPoint {
    Graphics,
    Compute,
}

/// The raw value of a bind point, as Vulkan numbers it.
pub open spec fn spec_bind_point_value(point: PipelineBindPoint) -> u32 {
    match point {
        PipelineBindPoint::Graphics => 0,
        PipelineBindPoint::Compute => 1,
    }
}

pub fn bind_point_value(point: PipelineBindPoint) -> (value: u32)
    ensures
        value == spec_bind_point_value(point),
{
    match point {
        PipelineBindPoint::Graphics => 0,
        PipelineBindPoint::Compute => 1,
    }
}

/// The kind of work that a command recorder records.
pub trait VkCommandType {
    /// The bind point of the recorded commands.
    spec fn spec_bind_point() -> PipelineBindPoint;

    fn bind_point() -> (point: PipelineBindPoint)
        ensures
            point == Self::spec_bind_point(),
    ;
}

/// Graphics commands.
#[derive(Debug, Clone, Copy, PartialEq, Eq, Structural)]
pub struct IGraphics;

/// Compute commands.
#[derive(Debug, Clone, Copy, PartialEq, Eq, Structural)]
pub struct ICompute;

/// Transfer commands; they are recorded at the graphics bind point.
#[derive(Debug, Clone, Copy, PartialEq, Eq, Structural)]
pub struct ITransfer;

impl VkCommandType for IGraphics {
    open spec fn spec_bind_point() -> PipelineBindPoint {
        PipelineBindPoint::Graphics
    }

    fn bind_point() -> (point: PipelineBindPoint) {
        PipelineBindPoint::Graphics
    }
}

impl VkCommandType for ICompute {
    open spec fn spec_bind_point() -> PipelineBindPoint {
        PipelineBindPoint::Compute
    }

    fn bind_point() -> (point: PipelineBindPoint) {
        PipelineBindPoint::Compute
    }
}

impl VkCommandType for ITransfer {
    open spec fn spec_bind_point() -> PipelineBindPoint {
        PipelineBindPoint::Graphics
    }

    fn bind_point() -> (point: PipelineBindPoint) {
        PipelineBindPoint::Graphics
    }
}

/// The compute commands of a recorder; none are offered yet.
pub trait CmdComputeApi {}

impl CmdComputeApi for ICompute {}

} // verus!
