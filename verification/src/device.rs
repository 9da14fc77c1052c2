use crate::adapter::{Adapter, Luid};
use crate::features::{answer, Feature, RequestFeature};
use crate::raytracing::{
    BuildRaytracingAccelerationStructureInputs, BuildRaytracingAccelerationStructureInputsType,
    RaytracingAccelerationStructurePrebuildInfo,
};
use crate::utility::{name_as_str, name_from_text, name_view, text_view, Error, Name, RawHandle};
use vstd::prelude::*;

verus! {

/// The feature level that a builder has not been given yet.
#[derive(Clone, Copy, PartialEq, Eq, Debug)]
pub struct NoFeatureLevel;

/// Collects what a device is created from. `Level` is `NoFeatureLevel` until a
/// minimum feature level is set; only then can the device be built.
pub struct Builder<Level = NoFeatureLevel> {
    pub adapter: Option<RawHandle>,
    pub min_feature_level: Level,
    pub name: Option<String>,
}

impl Builder<NoFeatureLevel> {
    pub(crate) fn new() -> (r: Self)
        ensures
            r.adapter.is_none(),
            r.name.is_none(),
    {
        Builder { adapter: None, min_feature_level: NoFeatureLevel, name: None }
    }
}

impl<Level> Builder<Level> {
    /// Chooses the adapter that the device is created on.
    pub fn adapter(self, adapter: &Adapter) -> (r: Self)
        ensures
            r == (Builder { adapter: Some(adapter.raw), ..self }),
    {
        Builder { adapter: Some(adapter.raw), ..self }
    }

    pub fn min_feature_level(self, min_feature_level: i32) -> (r: Builder<i32>)
        ensures
            r.adapter == self.adapter,
            r.min_feature_level == min_feature_level,
            r.name == self.name,
    {
        Builder { adapter: self.adapter, min_feature_level, name: self.name }
    }

    pub fn name(self, name: &str) -> (r: Self)
        ensures
            text_view(r.name) == Some(name@),
            r.adapter == self.adapter,
            r.min_feature_level == self.min_feature_level,
    {
        Builder { name: Some(name.to_owned()), ..self }
    }
}

impl Builder<i32> {
    /// Takes the outcome of the native call that creates the device, which was
    /// given the adapter and the minimum feature level of this builder.
    pub fn build(self, created: Result<RawHandle, Error>) -> (r: Result<Device, Error>)
        ensures
            match created {
                Ok(raw) => r.is_ok() && r.unwrap().raw == raw && name_view(r.unwrap().name)
                    == text_view(self.name),
                Err(e) => r == Err::<Device, Error>(e),
            },
    {
        match created {
            Ok(raw) => Ok(Device { raw, name: name_from_text(&self.name) }),
            Err(e) => Err(e),
        }
    }
}

#[derive(Clone, Copy, PartialEq, Eq, Structural, Debug)]
pub struct SubresourceFootprint {
    pub format: i32,
    pub width: u32,
    pub height: u32,
    pub depth: u32,
    pub row_pitch: u32,
}

impl Default for SubresourceFootprint {
    fn default() -> (r: Self)
        ensures
            r == (SubresourceFootprint { format: 0, width: 0, height: 0, depth: 0, row_pitch: 0 }),
    {
        SubresourceFootprint { format: 0, width: 0, height: 0, depth: 0, row_pitch: 0 }
    }
}

#[derive(Clone, Copy, PartialEq, Eq, Structural, Debug)]
pub struct PlacedSubresourceFootprint {
    pub offset: u64,
    pub footprint: SubresourceFootprint,
}

impl Default for PlacedSubresourceFootprint {
    fn default() -> (r: Self)
        ensures
            r.offset == 0,
            r.footprint == (SubresourceFootprint {
                format: 0,
                width: 0,
                height: 0,
                depth: 0,
                row_pitch: 0,
            }),
    {
        PlacedSubresourceFootprint { offset: 0, footprint: SubresourceFootprint::default() }
    }
}

#[derive(Clone, Copy, PartialEq, Eq, Structural, Debug)]
pub struct ResourceAllocationInfo {
    pub size_in_bytes: u64,
    pub alignment: u64,
}

/// What a query for copyable footprints is handed, and which of its outputs it fills.
#[derive(Clone, Copy, PartialEq, Eq, Structural, Debug)]
pub struct CopyableFootprintsQuery {
    pub first_subresource: u32,
    pub num_subresource: u32,
    pub base_offset: u64,
    pub wants_layouts: bool,
    pub wants_num_rows: bool,
    pub wants_row_size_in_bytes: bool,
    pub wants_total_size: bool,
}

/// The root object: every other object is created from a device.
#[derive(Debug)]
pub struct Device {
    pub raw: RawHandle,
    pub name: Option<Name>,
}

impl Device {
    pub fn new() -> (r: Builder)
        ensures
            r.adapter.is_none(),
            r.name.is_none(),
    {
        Builder::new()
    }

    /// Wraps the identifier of the adapter that the native layer reports.
    pub fn get_adapter_luid(&self, luid: Luid) -> (r: Luid)
        ensures
            r == luid,
    {
        luid
    }

    /// Asks the device which sizes a build with the inputs `desc` needs, by
    /// `query`, which is handed the inputs and gives the three sizes: of the
    /// result, of the scratch space, and of the scratch space of an update.
    pub fn get_raytracing_acceleration_structure_prebuild_info<T, F>(&self, desc: &T, query: F) -> (r:
        RaytracingAccelerationStructurePrebuildInfo)
        where
            T: BuildRaytracingAccelerationStructureInputsType,
            F: FnOnce(BuildRaytracingAccelerationStructureInputs) -> (u64, u64, u64),
        requires
            forall|inputs: BuildRaytracingAccelerationStructureInputs|
                inputs@ == desc.inputs() ==> #[trigger] query.requires((inputs,)),
        ensures
            exists|inputs: BuildRaytracingAccelerationStructureInputs, sizes: (u64, u64, u64)|
                {
                    &&& inputs@ == desc.inputs()
                    &&& #[trigger] query.ensures((inputs,), sizes)
                    &&& r == (RaytracingAccelerationStructurePrebuildInfo {
                        result_data_size_in_bytes: sizes.0,
                        scratch_data_size_in_bytes: sizes.1,
                        update_scratch_data_size_in_bytes: sizes.2,
                    })
                },
    {
        let inputs = desc.get();
        let ghost handed = inputs;
        let sizes = query(inputs);
        let r = RaytracingAccelerationStructurePrebuildInfo::new(sizes.0, sizes.1, sizes.2);
        assert(handed@ == desc.inputs() && query.ensures((handed,), sizes));
        r
    }

    /// Asks the device for a capability, by `query`, which is handed the
    /// identifier of the capability and the data to fill in.
    pub fn check_feature<T, F>(&self, query: F) -> (r: Result<T, Error>)
        where T: Feature, F: FnOnce(i32, T::Data) -> Result<T::Data, Error>
        requires
            query.requires((T::FEATURE, T::asks())),
        ensures
            exists|queried: Result<T::Data, Error>| #[trigger]
                query.ensures((T::FEATURE, T::asks()), queried) && r == answer(
                    queried,
                    |data: T::Data| T::reads(data),
                ),
    {
        let queried = query(T::FEATURE, T::query());
        T::check(queried)
    }

    /// Asks the device for a capability with the input that `feature` carries,
    /// by `query`, which is handed the identifier of the capability and the data
    /// to fill in.
    pub fn request_feature<T, F>(&self, feature: T, query: F) -> (r: Result<T, Error>)
        where T: RequestFeature, F: FnOnce(i32, T::Data) -> Result<T::Data, Error>
        requires
            query.requires((T::FEATURE, feature.asks())),
        ensures
            exists|queried: Result<T::Data, Error>| #[trigger]
                query.ensures((T::FEATURE, feature.asks()), queried) && r == answer(
                    queried,
                    |data: T::Data| feature.reads(data),
                ),
    {
        let queried = query(T::FEATURE, feature.query());
        feature.check(queried)
    }

    /// Wraps the size and the alignment that the native layer reports for a set
    /// of resource descriptions.
    pub fn get_resource_allocation_info(&self, size_in_bytes: u64, alignment: u64) -> (r:
        ResourceAllocationInfo)
        ensures
            r == (ResourceAllocationInfo { size_in_bytes, alignment }),
    {
        ResourceAllocationInfo { size_in_bytes, alignment }
    }

    /// Decides what a query for copyable footprints is handed.
    ///
    /// Where `layouts` is there it has room for each of the `num_subresource`
    /// footprints.
    pub fn get_copyable_footprints(
        &self,
        first_subresource: u32,
        num_subresource: u32,
        base_offset: u64,
        layouts: Option<&Vec<PlacedSubresourceFootprint>>,
        wants_num_rows: bool,
        wants_row_size_in_bytes: bool,
        wants_total_size: bool,
    ) -> (r: CopyableFootprintsQuery)
        requires
            layouts.is_some() ==> layouts.unwrap()@.len() >= num_subresource,
        ensures
            r == (CopyableFootprintsQuery {
                first_subresource,
                num_subresource,
                base_offset,
                wants_layouts: layouts.is_some(),
                wants_num_rows,
                wants_row_size_in_bytes,
                wants_total_size,
            }),
    {
        CopyableFootprintsQuery {
            first_subresource,
            num_subresource,
            base_offset,
            wants_layouts: layouts.is_some(),
            wants_num_rows,
            wants_row_size_in_bytes,
            wants_total_size,
        }
    }

    pub fn handle(&self) -> (r: RawHandle)
        ensures
            r == self.raw,
    {
        self.raw
    }

    pub fn name(&self) -> (r: Option<&str>)
        ensures
            r.is_some() == self.name.is_some(),
            r.is_some() ==> r.unwrap()@ == self.name.unwrap().text@,
    {
        name_as_str(&self.name)
    }

    /// Records the debug name that the native object is given.
    pub fn set_name(&mut self, name: &str)
        ensures
            final(self).raw == old(self).raw,
            name_view(final(self).name) == Some(name@),
    {
        self.name = Some(Name::new(name));
    }

    /// Whether two devices are the same native object.
    pub fn same(&self, other: &Device) -> (r: bool)
        ensures
            r == (self.raw == other.raw),
    {
        self.raw == other.raw
    }
}

} // verus!
