//! The ray-tracing pipeline's shader stages and shader groups, and where the
//! shader binaries come from.
use vstd::prelude::*;
use vstd::string::StringExecFns;
use crate::vkconst::shader_unused;

verus! {

/// Deepest ray recursion that the pipeline allows: no ray spawns another.
pub const MAX_RECURSION_DEPTH: u32 = 1;

/// Number of shader groups, and of handles in the binding table.
pub const GROUP_COUNT: u32 = 3;

/// The logical shader groups of the pipeline.
#[derive(Clone, Copy, PartialEq, Eq, Structural, Debug)]
pub enum ShaderGroup {
    Raygen,
    Hit,
    Miss,
}

/// Position of a group in the pipeline's group list, and so in the binding
/// table.
pub open spec fn group_index(g: ShaderGroup) -> nat {
    match g {
        ShaderGroup::Raygen => 0,
        ShaderGroup::Hit => 1,
        ShaderGroup::Miss => 2,
    }
}

/// The group at a position of the group list.
pub open spec fn group_at(i: int) -> ShaderGroup {
    if i == 0 {
        ShaderGroup::Raygen
    } else if i == 1 {
        ShaderGroup::Hit
    } else {
        ShaderGroup::Miss
    }
}

#[derive(Clone, Copy, PartialEq, Eq, Structural, Debug)]
pub enum GroupKind {
    General,
    TrianglesHitGroup,
}

/// One entry of the pipeline's group list. Shader fields hold a stage index,
/// or the all-ones value for an unused slot.
#[derive(Clone, Copy, PartialEq, Eq, Structural, Debug)]
pub struct ShaderGroupInfo {
    pub kind: GroupKind,
    pub general_shader: u32,
    pub closest_hit_shader: u32,
    pub any_hit_shader: u32,
    pub intersection_shader: u32,
}

pub open spec fn unused() -> u32 {
    0xffff_ffff
}

/// The group entry for `g`: raygen and miss are general groups over stages 0
/// and 2; hit is a triangles hit group whose closest-hit shader is stage 1.
pub open spec fn group_info(g: ShaderGroup) -> ShaderGroupInfo {
    match g {
        ShaderGroup::Raygen => ShaderGroupInfo {
            kind: GroupKind::General,
            general_shader: 0,
            closest_hit_shader: unused(),
            any_hit_shader: unused(),
            intersection_shader: unused(),
        },
        ShaderGroup::Hit => ShaderGroupInfo {
            kind: GroupKind::TrianglesHitGroup,
            general_shader: unused(),
            closest_hit_shader: 1,
            any_hit_shader: unused(),
            intersection_shader: unused(),
        },
        ShaderGroup::Miss => ShaderGroupInfo {
            kind: GroupKind::General,
            general_shader: 2,
            closest_hit_shader: unused(),
            any_hit_shader: unused(),
            intersection_shader: unused(),
        },
    }
}

/// The group list handed to pipeline creation, in binding-table order.
pub fn shader_groups() -> (r: Vec<ShaderGroupInfo>)
    ensures
        r@.len() == GROUP_COUNT,
        forall|g: ShaderGroup| #[trigger] r@[group_index(g) as int] == group_info(g),
{
    let none = shader_unused();
    let mut r: Vec<ShaderGroupInfo> = Vec::new();
    r.push(
        ShaderGroupInfo {
            kind: GroupKind::General,
            general_shader: 0,
            closest_hit_shader: none,
            any_hit_shader: none,
            intersection_shader: none,
        },
    );
    r.push(
        ShaderGroupInfo {
            kind: GroupKind::TrianglesHitGroup,
            general_shader: none,
            closest_hit_shader: 1,
            any_hit_shader: none,
            intersection_shader: none,
        },
    );
    r.push(
        ShaderGroupInfo {
            kind: GroupKind::General,
            general_shader: 2,
            closest_hit_shader: none,
            any_hit_shader: none,
            intersection_shader: none,
        },
    );
    assert forall|g: ShaderGroup| #[trigger] r@[group_index(g) as int] == group_info(g) by {
        match g {
            ShaderGroup::Raygen => {},
            ShaderGroup::Hit => {},
            ShaderGroup::Miss => {},
        }
    }
    r
}

#[derive(Clone, Copy, PartialEq, Eq, Structural, Debug)]
pub enum ShaderLanguage {
    Hlsl,
    Glsl,
}

/// Where the three shader stages are loaded from: one binary per stage, or
/// one library binary that holds all three entry points.
#[derive(Clone, Copy, PartialEq, Eq, Structural, Debug)]
pub enum ShaderSource {
    Separate(ShaderLanguage),
    Library,
}

/// Resolves the two build-time toggles once. The library binary exists in the
/// HLSL build only.
pub fn shader_source(use_lib: bool, use_hlsl: bool) -> (r: ShaderSource)
    ensures
        r == (if use_lib && use_hlsl {
            ShaderSource::Library
        } else if use_hlsl {
            ShaderSource::Separate(ShaderLanguage::Hlsl)
        } else {
            ShaderSource::Separate(ShaderLanguage::Glsl)
        }),
{
    if use_lib && use_hlsl {
        ShaderSource::Library
    } else if use_hlsl {
        ShaderSource::Separate(ShaderLanguage::Hlsl)
    } else {
        ShaderSource::Separate(ShaderLanguage::Glsl)
    }
}

/// Paths of the binaries to load for `src`, relative to the working
/// directory: the library binary, or the raygen, closest-hit and miss
/// binaries in that order.
pub open spec fn shader_files_spec(src: ShaderSource) -> Seq<Seq<char>> {
    match src {
        ShaderSource::Library => seq!["shaders/triangle.hlsl_lib.spv"@],
        ShaderSource::Separate(ShaderLanguage::Hlsl) => seq![
            "shaders/triangle.hlsl_rgen.spv"@,
            "shaders/triangle.hlsl_rchit.spv"@,
            "shaders/triangle.hlsl_rmiss.spv"@,
        ],
        ShaderSource::Separate(ShaderLanguage::Glsl) => seq![
            "shaders/triangle.glsl_rgen.spv"@,
            "shaders/triangle.glsl_rchit.spv"@,
            "shaders/triangle.glsl_rmiss.spv"@,
        ],
    }
}

/// The shader binaries that `src` reads.
pub fn shader_files(src: ShaderSource) -> (r: Vec<String>)
    ensures
        r@.len() == shader_files_spec(src).len(),
        forall|i: int| 0 <= i < r@.len() ==> #[trigger] r@[i]@ == shader_files_spec(src)[i],
{
    let mut r: Vec<String> = Vec::new();
    match src {
        ShaderSource::Library => {
            r.push(String::from_str("shaders/triangle.hlsl_lib.spv"));
        },
        ShaderSource::Separate(ShaderLanguage::Hlsl) => {
            r.push(String::from_str("shaders/triangle.hlsl_rgen.spv"));
            r.push(String::from_str("shaders/triangle.hlsl_rchit.spv"));
            r.push(String::from_str("shaders/triangle.hlsl_rmiss.spv"));
        },
        ShaderSource::Separate(ShaderLanguage::Glsl) => {
            r.push(String::from_str("shaders/triangle.glsl_rgen.spv"));
            r.push(String::from_str("shaders/triangle.glsl_rchit.spv"));
            r.push(String::from_str("shaders/triangle.glsl_rmiss.spv"));
        },
    }
    r
}

#[derive(Clone, Copy, PartialEq, Eq, Structural, Debug)]
pub enum StageKind {
    Raygen,
    ClosestHit,
    Miss,
}

/// Which loaded shader module a stage uses.
#[derive(Clone, Copy, PartialEq, Eq, Structural, Debug)]
pub enum ModuleSlot {
    Raygen,
    ClosestHit,
    Miss,
    Library,
}

/// One stage of the pipeline: its kind, its module and its entry point.
pub struct StageInfo {
    pub stage: StageKind,
    pub module: ModuleSlot,
    pub entry: String,
}

/// The stage at position `i`: raygen, closest-hit, miss.
pub open spec fn stage_kind_at(i: int) -> StageKind {
    if i == 0 {
        StageKind::Raygen
    } else if i == 1 {
        StageKind::ClosestHit
    } else {
        StageKind::Miss
    }
}

/// The module that stage `i` reads under `src`.
pub open spec fn stage_module_at(src: ShaderSource, i: int) -> ModuleSlot {
    match src {
        ShaderSource::Library => ModuleSlot::Library,
        ShaderSource::Separate(_) => if i == 0 {
            ModuleSlot::Raygen
        } else if i == 1 {
            ModuleSlot::ClosestHit
        } else {
            ModuleSlot::Miss
        },
    }
}

/// The entry point of stage `i` under `src`.
pub open spec fn stage_entry_at(src: ShaderSource, i: int) -> Seq<char> {
    match src {
        ShaderSource::Library => if i == 0 {
            "rgen_main"@
        } else if i == 1 {
            "rchit_main"@
        } else {
            "rmiss_main"@
        },
        ShaderSource::Separate(_) => "main"@,
    }
}

fn stage_info(kind: StageKind, module: ModuleSlot, entry: &str) -> (r: StageInfo)
    ensures
        r.stage == kind,
        r.module == module,
        r.entry@ == entry@,
{
    StageInfo { stage: kind, module, entry: String::from_str(entry) }
}

/// The three stages handed to pipeline creation, in the order that the group
/// list's stage indices refer to.
pub fn shader_stages(src: ShaderSource) -> (r: Vec<StageInfo>)
    ensures
        r@.len() == 3,
        forall|i: int|
            0 <= i < 3 ==> {
                &&& (#[trigger] r@[i]).stage == stage_kind_at(i)
                &&& r@[i].module == stage_module_at(src, i)
                &&& r@[i].entry@ == stage_entry_at(src, i)
            },
{
    let mut r: Vec<StageInfo> = Vec::new();
    match src {
        ShaderSource::Library => {
            r.push(stage_info(StageKind::Raygen, ModuleSlot::Library, "rgen_main"));
            r.push(stage_info(StageKind::ClosestHit, ModuleSlot::Library, "rchit_main"));
            r.push(stage_info(StageKind::Miss, ModuleSlot::Library, "rmiss_main"));
        },
        ShaderSource::Separate(_) => {
            r.push(stage_info(StageKind::Raygen, ModuleSlot::Raygen, "main"));
            r.push(stage_info(StageKind::ClosestHit, ModuleSlot::ClosestHit, "main"));
            r.push(stage_info(StageKind::Miss, ModuleSlot::Miss, "main"));
        },
    }
    r
}

} // verus!
