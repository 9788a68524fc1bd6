use vstd::prelude::*;

verus! {

/// Register offsets that shift each kind of HLSL binding (`s`, `t`, `b`, `u`)
/// into its own Vulkan binding range.
#[derive(Clone, Copy, Debug, PartialEq, Eq, Structural)]
pub struct VKBindingOffsets {
    pub sRegister: u32,
    pub tRegister: u32,
    pub bRegister: u32,
    pub uRegister: u32,
}

impl Default for VKBindingOffsets {
    /// Samplers at 0, textures at 1, constant buffers at 2, storage at 3.
    fn default() -> (offsets: Self)
        ensures
            offsets.sRegister == 0,
            offsets.tRegister == 1,
            offsets.bRegister == 2,
            offsets.uRegister == 3,
    {
        VKBindingOffsets { sRegister: 0, tRegister: 1, bRegister: 2, uRegister: 3 }
    }
}

} // verus!
