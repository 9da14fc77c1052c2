use crate::d3d12::{
    D3D12_ELEMENTS_LAYOUT_ARRAY, D3D12_RAYTRACING_ACCELERATION_STRUCTURE_BUILD_FLAG_NONE,
    D3D12_RAYTRACING_ACCELERATION_STRUCTURE_TYPE_BOTTOM_LEVEL,
    D3D12_RAYTRACING_ACCELERATION_STRUCTURE_TYPE_TOP_LEVEL, D3D12_RAYTRACING_GEOMETRY_FLAG_NONE,
    D3D12_RAYTRACING_GEOMETRY_TYPE_PROCEDURAL_PRIMITIVE_AABBS,
    D3D12_RAYTRACING_GEOMETRY_TYPE_TRIANGLES,
};
use crate::utility::{Float, GpuVirtualAddress, GpuVirtualAddressAndStride};
use vstd::prelude::*;

verus! {

#[derive(Clone, Copy, PartialEq, Eq, Structural, Debug)]
pub struct RaytracingGeometryTrianglesDesc {
    pub flags: i32,
    pub transform3x4: u64,
    pub index_format: i32,
    pub vertex_format: i32,
    pub index_count: u32,
    pub vertex_count: u32,
    pub index_buffer: u64,
    pub vertex_buffer: GpuVirtualAddressAndStride,
}

impl RaytracingGeometryTrianglesDesc {
    pub fn flags(self, flags: i32) -> (r: Self)
        ensures
            r == (RaytracingGeometryTrianglesDesc { flags, ..self }),
    {
        RaytracingGeometryTrianglesDesc { flags, ..self }
    }
    pub fn vertex_buffer(
        self,
        addr_and_stride: GpuVirtualAddressAndStride,
        count: u32,
        format: i32,
    ) -> (r: Self)
        ensures
            r == (
                RaytracingGeometryTrianglesDesc {
                    vertex_buffer: addr_and_stride,
                    vertex_count: count,
                    vertex_format: format,
                    ..self
                }
            ),
    {
        RaytracingGeometryTrianglesDesc {
            vertex_buffer: addr_and_stride,
            vertex_count: count,
            vertex_format: format,
            ..self
        }
    }
    pub fn index_buffer(self, addr: GpuVirtualAddress, count: u32, format: i32) -> (r: Self)
        ensures
            r == (
                RaytracingGeometryTrianglesDesc {
                    index_buffer: addr.0,
                    index_count: count,
                    index_format: format,
                    ..self
                }
            ),
    {
        RaytracingGeometryTrianglesDesc {
            index_buffer: addr.0,
            index_count: count,
            index_format: format,
            ..self
        }
    }
    pub fn transform3x4(self, addr: GpuVirtualAddress) -> (r: Self)
        ensures
            r == (RaytracingGeometryTrianglesDesc { transform3x4: addr.0, ..self }),
    {
        RaytracingGeometryTrianglesDesc { transform3x4: addr.0, ..self }
    }
}

#[derive(Clone, Copy, PartialEq, Eq, Structural, Debug)]
pub struct RaytracingGeometryAABBsDesc {
    pub flags: i32,
    pub aabb_count: u64,
    pub aabbs: GpuVirtualAddressAndStride,
}

impl RaytracingGeometryAABBsDesc {
    pub fn flags(self, flags: i32) -> (r: Self)
        ensures
            r == (RaytracingGeometryAABBsDesc { flags, ..self }),
    {
        RaytracingGeometryAABBsDesc { flags, ..self }
    }
    pub fn aabb_count(self, count: u64) -> (r: Self)
        ensures
            r == (RaytracingGeometryAABBsDesc { aabb_count: count, ..self }),
    {
        RaytracingGeometryAABBsDesc { aabb_count: count, ..self }
    }
    pub fn aabbs(self, aabbs: GpuVirtualAddressAndStride) -> (r: Self)
        ensures
            r == (RaytracingGeometryAABBsDesc { aabbs, ..self }),
    {
        RaytracingGeometryAABBsDesc { aabbs, ..self }
    }
}

/// The description of one geometry of a bottom-level acceleration structure.
#[derive(Clone, Copy, PartialEq, Eq, Structural, Debug)]
pub enum RaytracingGeometryDesc {
    Triangles(RaytracingGeometryTrianglesDesc),
    Aabbs(RaytracingGeometryAABBsDesc),
}

impl RaytracingGeometryDesc {
    pub fn triangles() -> (r: RaytracingGeometryTrianglesDesc)
        ensures
            r == (RaytracingGeometryTrianglesDesc {
                flags: D3D12_RAYTRACING_GEOMETRY_FLAG_NONE,
                transform3x4: 0,
                index_format: 0,
                vertex_format: 0,
                index_count: 0,
                vertex_count: 0,
                index_buffer: 0,
                vertex_buffer: GpuVirtualAddressAndStride { start_address: 0, stride_in_bytes: 0 },
            }),
    {
        RaytracingGeometryTrianglesDesc {
            flags: D3D12_RAYTRACING_GEOMETRY_FLAG_NONE,
            transform3x4: 0,
            index_format: 0,
            vertex_format: 0,
            index_count: 0,
            vertex_count: 0,
            index_buffer: 0,
            vertex_buffer: GpuVirtualAddressAndStride { start_address: 0, stride_in_bytes: 0 },
        }
    }

    pub fn aabbs() -> (r: RaytracingGeometryAABBsDesc)
        ensures
            r == (RaytracingGeometryAABBsDesc {
                flags: D3D12_RAYTRACING_GEOMETRY_FLAG_NONE,
                aabb_count: 0,
                aabbs: GpuVirtualAddressAndStride { start_address: 0, stride_in_bytes: 0 },
            }),
    {
        RaytracingGeometryAABBsDesc {
            flags: D3D12_RAYTRACING_GEOMETRY_FLAG_NONE,
            aabb_count: 0,
            aabbs: GpuVirtualAddressAndStride { start_address: 0, stride_in_bytes: 0 },
        }
    }

    /// The value by which the native layer knows the kind of the geometry.
    pub fn type_value(&self) -> (r: i32)
        ensures
            r == match *self {
                RaytracingGeometryDesc::Triangles(_) => D3D12_RAYTRACING_GEOMETRY_TYPE_TRIANGLES,
                RaytracingGeometryDesc::Aabbs(
                    _,
                ) => D3D12_RAYTRACING_GEOMETRY_TYPE_PROCEDURAL_PRIMITIVE_AABBS,
            },
    {
        match *self {
            RaytracingGeometryDesc::Triangles(_) => D3D12_RAYTRACING_GEOMETRY_TYPE_TRIANGLES,
            RaytracingGeometryDesc::Aabbs(
                _,
            ) => D3D12_RAYTRACING_GEOMETRY_TYPE_PROCEDURAL_PRIMITIVE_AABBS,
        }
    }
}

impl From<RaytracingGeometryTrianglesDesc> for RaytracingGeometryDesc {
    fn from(value: RaytracingGeometryTrianglesDesc) -> (r: Self) {
        RaytracingGeometryDesc::Triangles(value)
    }
}

impl vstd::std_specs::convert::FromSpecImpl<RaytracingGeometryTrianglesDesc> for RaytracingGeometryDesc {
    open spec fn obeys_from_spec() -> bool {
        true
    }

    open spec fn from_spec(value: RaytracingGeometryTrianglesDesc) -> Self {
        RaytracingGeometryDesc::Triangles(value)
    }
}

impl From<RaytracingGeometryAABBsDesc> for RaytracingGeometryDesc {
    fn from(value: RaytracingGeometryAABBsDesc) -> (r: Self) {
        RaytracingGeometryDesc::Aabbs(value)
    }
}

impl vstd::std_specs::convert::FromSpecImpl<RaytracingGeometryAABBsDesc> for RaytracingGeometryDesc {
    open spec fn obeys_from_spec() -> bool {
        true
    }

    open spec fn from_spec(value: RaytracingGeometryAABBsDesc) -> Self {
        RaytracingGeometryDesc::Aabbs(value)
    }
}

/// The inputs of a build, as mathematical values.
pub struct BuildInputsView {
    pub ty: i32,
    pub flags: i32,
    pub num_descs: u32,
    pub descs_layout: i32,
    pub instance_descs: u64,
    pub geometry_descs: Seq<RaytracingGeometryDesc>,
}

/// What can be handed to a build of an acceleration structure as its inputs.
pub trait BuildRaytracingAccelerationStructureInputsType {
    /// The inputs that the value stands for.
    spec fn inputs(&self) -> BuildInputsView;

    fn get(&self) -> (r: BuildRaytracingAccelerationStructureInputs)
        ensures
            r@ == self.inputs(),
    ;
}

/// The inputs of the build of a top-level structure: instances of bottom-level
/// structures, read from GPU memory.
#[derive(Clone, Copy, PartialEq, Eq, Structural, Debug)]
pub struct TopLevel {
    pub flags: i32,
    pub num_descs: u32,
    pub instance_descs: u64,
}

impl TopLevel {
    pub fn flags(self, flags: i32) -> (r: Self)
        ensures
            r == (TopLevel { flags, ..self }),
    {
        TopLevel { flags, ..self }
    }

    pub fn num_descs(self, num: u32) -> (r: Self)
        ensures
            r == (TopLevel { num_descs: num, ..self }),
    {
        TopLevel { num_descs: num, ..self }
    }

    pub fn instance_descs(self, descs: GpuVirtualAddress) -> (r: Self)
        ensures
            r == (TopLevel { instance_descs: descs.0, ..self }),
    {
        TopLevel { instance_descs: descs.0, ..self }
    }
}

/// The inputs of the build of a bottom-level structure: geometries.
#[derive(Debug)]
pub struct BottomLevel {
    pub flags: i32,
    pub geometry_descs: Vec<RaytracingGeometryDesc>,
}

/// Copies geometry descriptions.
fn copy_geometry_descs(descs: &[RaytracingGeometryDesc]) -> (r: Vec<RaytracingGeometryDesc>)
    ensures
        r@ == descs@,
{
    let mut out: Vec<RaytracingGeometryDesc> = Vec::new();
    let mut i: usize = 0;
    while i < descs.len()
        invariant
            i <= descs.len(),
            out@ == descs@.take(i as int),
        decreases descs.len() - i,
    {
        out.push(descs[i]);
        assert(out@ =~= descs@.take(i + 1));
        i += 1;
    }
    assert(descs@.take(descs@.len() as int) =~= descs@);
    out
}

impl BottomLevel {
    pub fn flags(self, flags: i32) -> (r: Self)
        ensures
            r.flags == flags,
            r.geometry_descs == self.geometry_descs,
    {
        BottomLevel { flags, ..self }
    }

    /// Sets the geometries, whose number has to fit in 32 bits.
    pub fn geometry_descs(self, descs: &[RaytracingGeometryDesc]) -> (r: Self)
        requires
            descs@.len() <= u32::MAX,
        ensures
            r.flags == self.flags,
            r.geometry_descs@ == descs@,
    {
        BottomLevel { geometry_descs: copy_geometry_descs(descs), ..self }
    }
}

/// The inputs of the build of an acceleration structure.
#[derive(Debug)]
pub enum BuildRaytracingAccelerationStructureInputs {
    TopLevel(TopLevel),
    BottomLevel(BottomLevel),
}

impl View for BuildRaytracingAccelerationStructureInputs {
    type V = BuildInputsView;

    open spec fn view(&self) -> BuildInputsView {
        match *self {
            BuildRaytracingAccelerationStructureInputs::TopLevel(t) => BuildInputsView {
                ty: D3D12_RAYTRACING_ACCELERATION_STRUCTURE_TYPE_TOP_LEVEL,
                flags: t.flags,
                num_descs: t.num_descs,
                descs_layout: D3D12_ELEMENTS_LAYOUT_ARRAY,
                instance_descs: t.instance_descs,
                geometry_descs: Seq::empty(),
            },
            BuildRaytracingAccelerationStructureInputs::BottomLevel(b) => BuildInputsView {
                ty: D3D12_RAYTRACING_ACCELERATION_STRUCTURE_TYPE_BOTTOM_LEVEL,
                flags: b.flags,
                num_descs: b.geometry_descs@.len() as u32,
                descs_layout: D3D12_ELEMENTS_LAYOUT_ARRAY,
                instance_descs: 0,
                geometry_descs: b.geometry_descs@,
            },
        }
    }
}

impl BuildRaytracingAccelerationStructureInputs {
    pub fn top_level() -> (r: TopLevel)
        ensures
            r == (TopLevel {
                flags: D3D12_RAYTRACING_ACCELERATION_STRUCTURE_BUILD_FLAG_NONE,
                num_descs: 0,
                instance_descs: 0,
            }),
    {
        TopLevel {
            flags: D3D12_RAYTRACING_ACCELERATION_STRUCTURE_BUILD_FLAG_NONE,
            num_descs: 0,
            instance_descs: 0,
        }
    }

    pub fn bottom_level() -> (r: BottomLevel)
        ensures
            r.flags == D3D12_RAYTRACING_ACCELERATION_STRUCTURE_BUILD_FLAG_NONE,
            r.geometry_descs@.len() == 0,
    {
        BottomLevel {
            flags: D3D12_RAYTRACING_ACCELERATION_STRUCTURE_BUILD_FLAG_NONE,
            geometry_descs: Vec::new(),
        }
    }
}

impl BuildRaytracingAccelerationStructureInputsType for TopLevel {
    open spec fn inputs(&self) -> BuildInputsView {
        BuildRaytracingAccelerationStructureInputs::TopLevel(*self)@
    }

    fn get(&self) -> (r: BuildRaytracingAccelerationStructureInputs) {
        BuildRaytracingAccelerationStructureInputs::TopLevel(*self)
    }
}

impl BuildRaytracingAccelerationStructureInputsType for BottomLevel {
    open spec fn inputs(&self) -> BuildInputsView {
        BuildInputsView {
            ty: D3D12_RAYTRACING_ACCELERATION_STRUCTURE_TYPE_BOTTOM_LEVEL,
            flags: self.flags,
            num_descs: self.geometry_descs@.len() as u32,
            descs_layout: D3D12_ELEMENTS_LAYOUT_ARRAY,
            instance_descs: 0,
            geometry_descs: self.geometry_descs@,
        }
    }

    fn get(&self) -> (r: BuildRaytracingAccelerationStructureInputs) {
        BuildRaytracingAccelerationStructureInputs::BottomLevel(
            BottomLevel {
                flags: self.flags,
                geometry_descs: copy_geometry_descs(self.geometry_descs.as_slice()),
            },
        )
    }
}

impl From<TopLevel> for BuildRaytracingAccelerationStructureInputs {
    fn from(value: TopLevel) -> (r: Self) {
        BuildRaytracingAccelerationStructureInputs::TopLevel(value)
    }
}

impl vstd::std_specs::convert::FromSpecImpl<TopLevel> for BuildRaytracingAccelerationStructureInputs {
    open spec fn obeys_from_spec() -> bool {
        true
    }

    open spec fn from_spec(value: TopLevel) -> Self {
        BuildRaytracingAccelerationStructureInputs::TopLevel(value)
    }
}

impl From<BottomLevel> for BuildRaytracingAccelerationStructureInputs {
    fn from(value: BottomLevel) -> (r: Self) {
        BuildRaytracingAccelerationStructureInputs::BottomLevel(value)
    }
}

impl vstd::std_specs::convert::FromSpecImpl<BottomLevel> for BuildRaytracingAccelerationStructureInputs {
    open spec fn obeys_from_spec() -> bool {
        true
    }

    open spec fn from_spec(value: BottomLevel) -> Self {
        BuildRaytracingAccelerationStructureInputs::BottomLevel(value)
    }
}

/// The sizes that a build needs, as the device reports them for its inputs.
#[derive(Clone, Copy, PartialEq, Eq, Structural, Debug)]
pub struct RaytracingAccelerationStructurePrebuildInfo {
    pub result_data_size_in_bytes: u64,
    pub scratch_data_size_in_bytes: u64,
    pub update_scratch_data_size_in_bytes: u64,
}

impl RaytracingAccelerationStructurePrebuildInfo {
    /// Wraps the three sizes that the device reports.
    pub fn new(
        result_data_max_size_in_bytes: u64,
        scratch_data_size_in_bytes: u64,
        update_scratch_data_size_in_bytes: u64,
    ) -> (r: Self)
        ensures
            r == (RaytracingAccelerationStructurePrebuildInfo {
                result_data_size_in_bytes: result_data_max_size_in_bytes,
                scratch_data_size_in_bytes,
                update_scratch_data_size_in_bytes,
            }),
    {
        RaytracingAccelerationStructurePrebuildInfo {
            result_data_size_in_bytes: result_data_max_size_in_bytes,
            scratch_data_size_in_bytes,
            update_scratch_data_size_in_bytes,
        }
    }

    /// Whether buffers of the given sizes are large enough for the build.
    pub open spec fn fits(self, scratch_size: u64, result_size: u64) -> bool {
        scratch_size >= self.scratch_data_size_in_bytes && result_size
            >= self.result_data_size_in_bytes
    }

    /// Whether a scratch buffer and a result buffer of the given sizes are large
    /// enough for the build.
    pub fn is_satisfied_by(&self, scratch_size: u64, result_size: u64) -> (r: bool)
        ensures
            r == self.fits(scratch_size, result_size),
    {
        scratch_size >= self.scratch_data_size_in_bytes && result_size
            >= self.result_data_size_in_bytes
    }

    /// The size of one scratch buffer that serves this build and `other`, one
    /// after the other: the larger of the two scratch sizes.
    pub fn shared_scratch_size(&self, other: &RaytracingAccelerationStructurePrebuildInfo) -> (r:
        u64)
        ensures
            r >= self.scratch_data_size_in_bytes,
            r >= other.scratch_data_size_in_bytes,
            r == self.scratch_data_size_in_bytes || r == other.scratch_data_size_in_bytes,
    {
        if self.scratch_data_size_in_bytes >= other.scratch_data_size_in_bytes {
            self.scratch_data_size_in_bytes
        } else {
            other.scratch_data_size_in_bytes
        }
    }
}

/// Buffers sized by what the device reports are never too small: a result buffer
/// of the reported result size, with a scratch buffer shared between two builds
/// and sized to the larger of their scratch sizes, is large enough for either
/// build, and stays so when the buffers are made larger.
pub proof fn lemma_buffers_sized_by_prebuild_info_fit(
    top: RaytracingAccelerationStructurePrebuildInfo,
    bottom: RaytracingAccelerationStructurePrebuildInfo,
    scratch_size: u64,
    top_result_size: u64,
    bottom_result_size: u64,
)
    requires
        scratch_size >= top.scratch_data_size_in_bytes,
        scratch_size >= bottom.scratch_data_size_in_bytes,
        top_result_size >= top.result_data_size_in_bytes,
        bottom_result_size >= bottom.result_data_size_in_bytes,
    ensures
        top.fits(scratch_size, top_result_size),
        bottom.fits(scratch_size, bottom_result_size),
{
}

/// The low 24 bits of a word.
pub open spec fn low24(word: u32) -> u32 {
    word & 0x00ff_ffff
}

/// The high 8 bits of a word.
pub open spec fn high8(word: u32) -> u32 {
    word >> 24
}

/// One instance of a bottom-level structure in a top-level structure.
///
/// The instance id and the instance mask share one 32-bit word, the id in the
/// low 24 bits and the mask in the high 8; so do the contribution to the hit
/// group index and the flags.
#[derive(Clone, Copy, PartialEq, Eq, Debug)]
pub struct RaytracingInstanceDesc {
    pub transform: [Float; 12],
    pub bitfield1: u32,
    pub bitfield2: u32,
    pub acceleration_structure: u64,
}

/// The 3x4 transform that leaves every point where it is, row by row.
pub open spec fn identity_transform() -> Seq<Float> {
    seq![
        Float { bits: Float::ONE_BITS },
        Float { bits: 0 },
        Float { bits: 0 },
        Float { bits: 0 },
        Float { bits: 0 },
        Float { bits: Float::ONE_BITS },
        Float { bits: 0 },
        Float { bits: 0 },
        Float { bits: 0 },
        Float { bits: 0 },
        Float { bits: Float::ONE_BITS },
        Float { bits: 0 },
    ]
}

impl RaytracingInstanceDesc {
    /// An instance with the identity transform, id 0 and mask 1.
    pub fn new() -> (r: Self)
        ensures
            r.transform@ == identity_transform(),
            low24(r.bitfield1) == 0,
            high8(r.bitfield1) == 1,
            r.bitfield2 == 0,
            r.acceleration_structure == 0,
    {
        let one = Float { bits: Float::ONE_BITS };
        let zero = Float { bits: 0 };
        let this = RaytracingInstanceDesc {
            transform: [zero, zero, zero, zero, zero, zero, zero, zero, zero, zero, zero, zero],
            bitfield1: 0,
            bitfield2: 0,
            acceleration_structure: 0,
        };
        let this = this.transform(
            [one, zero, zero, zero, zero, one, zero, zero, zero, zero, one, zero],
        );
        let r = this.instance_mask(1);
        assert(r.transform@ =~= identity_transform());
        assert(low24(0u32) == 0) by (bit_vector);
        r
    }

    pub fn transform(self, m: [Float; 12]) -> (r: Self)
        ensures
            r == (RaytracingInstanceDesc { transform: m, ..self }),
    {
        RaytracingInstanceDesc { transform: m, ..self }
    }

    /// Sets the instance id to the low 24 bits of `id`; the mask stays.
    pub fn instance_id(self, id: u32) -> (r: Self)
        ensures
            r == (RaytracingInstanceDesc {
                bitfield1: (self.bitfield1 & 0xff00_0000) | (id & 0x00ff_ffff),
                ..self
            }),
            low24(r.bitfield1) == low24(id),
            high8(r.bitfield1) == high8(self.bitfield1),
    {
        let old_word: u32 = self.bitfield1;
        let word: u32 = (old_word & 0xff00_0000) | (id & 0x00ff_ffff);
        assert(
            word & 0x00ff_ffff == id & 0x00ff_ffff && word >> 24 == old_word >> 24
        ) by (bit_vector)
            requires
                word == (old_word & 0xff00_0000) | (id & 0x00ff_ffff),
        ;
        RaytracingInstanceDesc { bitfield1: word, ..self }
    }

    /// Sets the instance mask; the id stays.
    pub fn instance_mask(self, mask: u8) -> (r: Self)
        ensures
            r == (RaytracingInstanceDesc {
                bitfield1: ((mask as u32) << 24) | (self.bitfield1 & 0x00ff_ffff),
                ..self
            }),
            high8(r.bitfield1) == mask,
            low24(r.bitfield1) == low24(self.bitfield1),
    {
        let old_word: u32 = self.bitfield1;
        let m: u32 = mask as u32;
        let word: u32 = (m << 24) | (old_word & 0x00ff_ffff);
        assert(word >> 24 == m && word & 0x00ff_ffff == old_word & 0x00ff_ffff) by (bit_vector)
            requires
                word == (m << 24) | (old_word & 0x00ff_ffff),
                m <= 0xff,
        ;
        RaytracingInstanceDesc { bitfield1: word, ..self }
    }

    /// Sets the contribution to the hit group index to the low 24 bits of
    /// `index`; the flags stay.
    pub fn instance_contribution_to_hit_group_index(self, index: u32) -> (r: Self)
        ensures
            r == (RaytracingInstanceDesc {
                bitfield2: (self.bitfield2 & 0xff00_0000) | (index & 0x00ff_ffff),
                ..self
            }),
            low24(r.bitfield2) == low24(index),
            high8(r.bitfield2) == high8(self.bitfield2),
    {
        let old_word: u32 = self.bitfield2;
        let word: u32 = (old_word & 0xff00_0000) | (index & 0x00ff_ffff);
        assert(word & 0x00ff_ffff == index & 0x00ff_ffff && word >> 24 == old_word >> 24)
            by (bit_vector)
            requires
                word == (old_word & 0xff00_0000) | (index & 0x00ff_ffff),
        ;
        RaytracingInstanceDesc { bitfield2: word, ..self }
    }

    /// Sets the flags to the low 8 bits of `flags`; the contribution to the hit
    /// group index stays.
    pub fn flags(self, flags: i32) -> (r: Self)
        ensures
            r == (RaytracingInstanceDesc {
                bitfield2: ((flags as u32) << 24) | (self.bitfield2 & 0x00ff_ffff),
                ..self
            }),
            high8(r.bitfield2) == (flags as u32) & 0xff,
            low24(r.bitfield2) == low24(self.bitfield2),
    {
        let old_word: u32 = self.bitfield2;
        let f: u32 = flags as u32;
        let word: u32 = (f << 24) | (old_word & 0x00ff_ffff);
        assert(word >> 24 == f & 0xff && word & 0x00ff_ffff == old_word & 0x00ff_ffff)
            by (bit_vector)
            requires
                word == (f << 24) | (old_word & 0x00ff_ffff),
        ;
        RaytracingInstanceDesc { bitfield2: word, ..self }
    }

    pub fn accelration_structure(self, addr: GpuVirtualAddress) -> (r: Self)
        ensures
            r == (RaytracingInstanceDesc { acceleration_structure: addr.0, ..self }),
    {
        RaytracingInstanceDesc { acceleration_structure: addr.0, ..self }
    }
}

impl Default for RaytracingInstanceDesc {
    fn default() -> (r: Self)
        ensures
            r.transform@ == identity_transform(),
            low24(r.bitfield1) == 0,
            high8(r.bitfield1) == 1,
            r.bitfield2 == 0,
            r.acceleration_structure == 0,
    {
        RaytracingInstanceDesc::new()
    }
}

/// The description of one build of an acceleration structure.
#[derive(Debug)]
pub struct BuildRaytracingAccelerationStructureDesc {
    pub dest_acceleration_structure_data: u64,
    pub inputs: Option<BuildRaytracingAccelerationStructureInputs>,
    pub source_acceleration_structure_data: u64,
    pub scratch_acceleration_structure_data: u64,
}

/// The inputs of a description as mathematical values, where it has any.
pub open spec fn inputs_view(inputs: Option<BuildRaytracingAccelerationStructureInputs>) -> Option<
    BuildInputsView,
> {
    match inputs {
        Some(i) => Some(i@),
        None => None,
    }
}

impl BuildRaytracingAccelerationStructureDesc {
    pub fn new() -> (r: Self)
        ensures
            r.dest_acceleration_structure_data == 0,
            r.inputs.is_none(),
            r.source_acceleration_structure_data == 0,
            r.scratch_acceleration_structure_data == 0,
    {
        BuildRaytracingAccelerationStructureDesc {
            dest_acceleration_structure_data: 0,
            inputs: None,
            source_acceleration_structure_data: 0,
            scratch_acceleration_structure_data: 0,
        }
    }

    pub fn dest_acceleration_structure_data(self, addr: GpuVirtualAddress) -> (r: Self)
        ensures
            r == (BuildRaytracingAccelerationStructureDesc {
                dest_acceleration_structure_data: addr.0,
                ..self
            }),
    {
        BuildRaytracingAccelerationStructureDesc {
            dest_acceleration_structure_data: addr.0,
            ..self
        }
    }

    pub fn inputs<T>(self, inputs: &T) -> (r: Self)
        where T: BuildRaytracingAccelerationStructureInputsType
        ensures
            inputs_view(r.inputs) == Some(inputs.inputs()),
            r.dest_acceleration_structure_data == self.dest_acceleration_structure_data,
            r.source_acceleration_structure_data == self.source_acceleration_structure_data,
            r.scratch_acceleration_structure_data == self.scratch_acceleration_structure_data,
    {
        BuildRaytracingAccelerationStructureDesc { inputs: Some(inputs.get()), ..self }
    }

    pub fn source_acceleration_structure_data(self, addr: GpuVirtualAddress) -> (r: Self)
        ensures
            r == (BuildRaytracingAccelerationStructureDesc {
                source_acceleration_structure_data: addr.0,
                ..self
            }),
    {
        BuildRaytracingAccelerationStructureDesc {
            source_acceleration_structure_data: addr.0,
            ..self
        }
    }

    pub fn scratch_acceleration_structure_data(self, addr: GpuVirtualAddress) -> (r: Self)
        ensures
            r == (BuildRaytracingAccelerationStructureDesc {
                scratch_acceleration_structure_data: addr.0,
                ..self
            }),
    {
        BuildRaytracingAccelerationStructureDesc {
            scratch_acceleration_structure_data: addr.0,
            ..self
        }
    }
}

impl BuildRaytracingAccelerationStructureDesc {
    /// A copy of the description.
    pub fn duplicate(&self) -> (r: Self)
        ensures
            r.dest_acceleration_structure_data == self.dest_acceleration_structure_data,
            inputs_view(r.inputs) == inputs_view(self.inputs),
            r.source_acceleration_structure_data == self.source_acceleration_structure_data,
            r.scratch_acceleration_structure_data == self.scratch_acceleration_structure_data,
    {
        BuildRaytracingAccelerationStructureDesc {
            dest_acceleration_structure_data: self.dest_acceleration_structure_data,
            inputs: match &self.inputs {
                Some(BuildRaytracingAccelerationStructureInputs::TopLevel(t)) => Some(t.get()),
                Some(BuildRaytracingAccelerationStructureInputs::BottomLevel(b)) => Some(b.get()),
                None => None,
            },
            source_acceleration_structure_data: self.source_acceleration_structure_data,
            scratch_acceleration_structure_data: self.scratch_acceleration_structure_data,
        }
    }
}

} // verus!
