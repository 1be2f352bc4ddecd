use vstd::prelude::*;

use crate::context::instance::spec_has_nul;

verus! {

/// The code of a shader module.
pub struct ShaderModuleCI {
    pub flags: u32,
    pub codes: Vec<u8>,
}

impl ShaderModuleCI {
    /// A module of SPIR-V code `codes`; its code size is the number of bytes.
    pub fn new(codes: Vec<u8>) -> (ci: ShaderModuleCI)
        ensures
            ci.flags == 0,
            ci.codes@ == codes@,
    {
        ShaderModuleCI { flags: 0, codes }
    }

    pub fn flags(self, flags: u32) -> (ci: ShaderModuleCI)
        ensures
            ci.flags == flags,
            ci.codes@ == self.codes@,
    {
        ShaderModuleCI { flags, codes: self.codes }
    }

    /// The size of the code in bytes.
    pub fn code_size(&self) -> (size: usize)
        ensures
            size == self.codes@.len(),
    {
        self.codes.len()
    }
}

/// A specialization of the constants of a shader stage, as far as its sizes
/// go: the number of its map entries and the size of its data, which the
/// caller keeps.
#[derive(Debug, Clone, Copy, PartialEq, Eq, Structural)]
pub struct SpecializationRef {
    pub map_entry_count: u32,
    pub data_size: usize,
}

/// A shader stage of a pipeline: the stage, its module and the name of its entry point.
pub struct ShaderStageCI {
    pub flags: u32,
    pub stage: u32,
    pub module: u64,
    pub main: String,
    pub specialization: Option<SpecializationRef>,
}

impl ShaderStageCI {
    /// Stage `stage` of module `module`, entered at `main`.
    pub fn new(stage: u32, module: u64) -> (ci: ShaderStageCI)
        ensures
            ci.flags == 0,
            ci.stage == stage,
            ci.module == module,
            ci.main@ == "main"@,
            ci.specialization.is_none(),
    {
        ShaderStageCI { flags: 0, stage, module, main: "main".to_owned(), specialization: None }
    }

    /// Enters the stage at `name`, which a C string must be able to hold.
    pub fn main(self, name: &str) -> (ci: ShaderStageCI)
        requires
            !spec_has_nul(name@),
        ensures
            ci.flags == self.flags,
            ci.stage == self.stage,
            ci.module == self.module,
            ci.main@ == name@,
            ci.specialization == self.specialization,
    {
        ShaderStageCI { main: name.to_owned(), ..self }
    }

    pub fn flags(self, flags: u32) -> (ci: ShaderStageCI)
        ensures
            ci.flags == flags,
            ci.stage == self.stage,
            ci.module == self.module,
            ci.main@ == self.main@,
            ci.specialization == self.specialization,
    {
        ShaderStageCI { flags, ..self }
    }

    pub fn specialization(self, info: SpecializationRef) -> (ci: ShaderStageCI)
        ensures
            ci.flags == self.flags,
            ci.stage == self.stage,
            ci.module == self.module,
            ci.main@ == self.main@,
            ci.specialization == Some(info),
    {
        ShaderStageCI { specialization: Some(info), ..self }
    }
}

} // verus!
