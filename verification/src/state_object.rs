use crate::d3d12::{
    D3D12_EXPORT_FLAG_NONE, D3D12_HIT_GROUP_TYPE_TRIANGLES, D3D12_RAYTRACING_PIPELINE_FLAG_NONE,
    D3D12_STATE_SUBOBJECT_TYPE_DXIL_LIBRARY,
    D3D12_STATE_SUBOBJECT_TYPE_DXIL_SUBOBJECT_TO_EXPORTS_ASSOCIATION,
    D3D12_STATE_SUBOBJECT_TYPE_EXISTING_COLLECTION,
    D3D12_STATE_SUBOBJECT_TYPE_GLOBAL_ROOT_SIGNATURE,
    D3D12_STATE_SUBOBJECT_TYPE_HIT_GROUP, D3D12_STATE_SUBOBJECT_TYPE_LOCAL_ROOT_SIGNATURE,
    D3D12_STATE_SUBOBJECT_TYPE_NODE_MASK, D3D12_STATE_SUBOBJECT_TYPE_RAYTRACING_PIPELINE_CONFIG1,
    D3D12_STATE_SUBOBJECT_TYPE_RAYTRACING_SHADER_CONFIG,
    D3D12_STATE_SUBOBJECT_TYPE_STATE_OBJECT_CONFIG,
    D3D12_STATE_SUBOBJECT_TYPE_SUBOBJECT_TO_EXPORTS_ASSOCIATION,
};
use crate::device::Device;
use crate::dxc::{own_strings, strings_view, strs_view};
use crate::pipeline_state::ShaderBytecode;
use crate::root_signature::RootSignature;
use crate::utility::{
    name_as_str, name_from_text, name_view, text_view, Error, Name, RawHandle,
};
use vstd::prelude::*;

verus! {

/// A part of a state object.
pub trait StateSubobject {
    /// The value by which the native layer knows the kind of the part.
    spec fn kind(&self) -> i32;

    fn type_value(&self) -> (r: i32)
        ensures
            r == self.kind(),
    ;
}

#[derive(Clone, Copy, PartialEq, Eq, Structural, Debug)]
pub struct StateObjectConfig {
    pub flags: i32,
}

impl StateObjectConfig {
    pub fn new(flags: i32) -> (r: Self)
        ensures
            r.flags == flags,
    {
        StateObjectConfig { flags }
    }
}

impl StateSubobject for StateObjectConfig {
    open spec fn kind(&self) -> i32 {
        D3D12_STATE_SUBOBJECT_TYPE_STATE_OBJECT_CONFIG
    }

    fn type_value(&self) -> (r: i32) {
        D3D12_STATE_SUBOBJECT_TYPE_STATE_OBJECT_CONFIG
    }
}

#[derive(Clone, Copy, PartialEq, Eq, Structural, Debug)]
pub struct GlobalRootSignature {
    pub root_signature: RawHandle,
}

impl GlobalRootSignature {
    pub fn new(root_sig: &RootSignature) -> (r: Self)
        ensures
            r.root_signature == root_sig.raw,
    {
        GlobalRootSignature { root_signature: root_sig.raw }
    }
}

impl StateSubobject for GlobalRootSignature {
    open spec fn kind(&self) -> i32 {
        D3D12_STATE_SUBOBJECT_TYPE_GLOBAL_ROOT_SIGNATURE
    }

    fn type_value(&self) -> (r: i32) {
        D3D12_STATE_SUBOBJECT_TYPE_GLOBAL_ROOT_SIGNATURE
    }
}

#[derive(Clone, Copy, PartialEq, Eq, Structural, Debug)]
pub struct LocalRootSignature {
    pub root_signature: RawHandle,
}

impl LocalRootSignature {
    pub fn new(root_sig: &RootSignature) -> (r: Self)
        ensures
            r.root_signature == root_sig.raw,
    {
        LocalRootSignature { root_signature: root_sig.raw }
    }
}

impl StateSubobject for LocalRootSignature {
    open spec fn kind(&self) -> i32 {
        D3D12_STATE_SUBOBJECT_TYPE_LOCAL_ROOT_SIGNATURE
    }

    fn type_value(&self) -> (r: i32) {
        D3D12_STATE_SUBOBJECT_TYPE_LOCAL_ROOT_SIGNATURE
    }
}

#[derive(Clone, Copy, PartialEq, Eq, Structural, Debug)]
pub struct NodeMask {
    pub node_mask: u32,
}

impl NodeMask {
    pub fn new(node_mask: u32) -> (r: Self)
        ensures
            r.node_mask == node_mask,
    {
        NodeMask { node_mask }
    }
}

impl StateSubobject for NodeMask {
    open spec fn kind(&self) -> i32 {
        D3D12_STATE_SUBOBJECT_TYPE_NODE_MASK
    }

    fn type_value(&self) -> (r: i32) {
        D3D12_STATE_SUBOBJECT_TYPE_NODE_MASK
    }
}

/// One export of a library or of a collection, with the name that it is to be
/// known by where that differs.
#[derive(Debug)]
pub struct ExportDesc {
    pub name: String,
    pub export_to_rename: Option<String>,
    pub flags: i32,
}

impl ExportDesc {
    pub fn new() -> (r: Self)
        ensures
            r.name@.len() == 0,
            r.export_to_rename.is_none(),
            r.flags == D3D12_EXPORT_FLAG_NONE,
    {
        ExportDesc { name: String::new(), export_to_rename: None, flags: D3D12_EXPORT_FLAG_NONE }
    }

    pub fn name(self, name: &str) -> (r: Self)
        ensures
            r.name@ == name@,
            r.export_to_rename == self.export_to_rename,
            r.flags == self.flags,
    {
        ExportDesc { name: name.to_owned(), ..self }
    }

    pub fn export_to_rename(self, name: Option<&str>) -> (r: Self)
        ensures
            r.name == self.name,
            text_view(r.export_to_rename) == match name {
                Some(n) => Some(n@),
                None => None,
            },
            r.flags == self.flags,
    {
        ExportDesc {
            export_to_rename: match name {
                Some(n) => Some(n.to_owned()),
                None => None,
            },
            ..self
        }
    }

    /// A copy of the export.
    pub fn duplicate(&self) -> (r: Self)
        ensures
            r == *self,
    {
        ExportDesc {
            name: self.name.clone(),
            export_to_rename: match &self.export_to_rename {
                Some(n) => Some(n.clone()),
                None => None,
            },
            flags: self.flags,
        }
    }
}

/// Copies exports.
fn copy_exports(exports: &[ExportDesc]) -> (r: Vec<ExportDesc>)
    ensures
        r@ == exports@,
{
    let mut out: Vec<ExportDesc> = Vec::new();
    let mut i: usize = 0;
    while i < exports.len()
        invariant
            i <= exports.len(),
            out@ == exports@.take(i as int),
        decreases exports.len() - i,
    {
        out.push(exports[i].duplicate());
        assert(out@ =~= exports@.take(i + 1));
        i += 1;
    }
    assert(exports@.take(exports@.len() as int) =~= exports@);
    out
}

/// Copies strings.
fn copy_strings(strings: &Vec<String>) -> (r: Vec<String>)
    ensures
        r@ == strings@,
{
    let mut out: Vec<String> = Vec::new();
    let mut i: usize = 0;
    while i < strings.len()
        invariant
            i <= strings.len(),
            out@ == strings@.take(i as int),
        decreases strings.len() - i,
    {
        out.push(strings[i].clone());
        assert(out@ =~= strings@.take(i + 1));
        i += 1;
    }
    assert(strings@.take(strings@.len() as int) =~= strings@);
    out
}

/// A library of shaders, with the exports that are taken from it.
#[derive(Debug)]
pub struct DxilLibraryDesc<'a> {
    pub dxil_library: ShaderBytecode<'a>,
    pub exports: Vec<ExportDesc>,
}

impl<'a> DxilLibraryDesc<'a> {
    pub fn new(dxil_library: ShaderBytecode<'a>) -> (r: Self)
        ensures
            r.dxil_library == dxil_library,
            r.exports@.len() == 0,
    {
        DxilLibraryDesc { dxil_library, exports: Vec::new() }
    }

    /// Sets the exports, whose number has to fit in 32 bits.
    pub fn exports(self, exports: &[ExportDesc]) -> (r: Self)
        requires
            exports@.len() <= u32::MAX,
        ensures
            r.dxil_library == self.dxil_library,
            r.exports@ == exports@,
    {
        DxilLibraryDesc { exports: copy_exports(exports), ..self }
    }
}

impl<'a> StateSubobject for DxilLibraryDesc<'a> {
    open spec fn kind(&self) -> i32 {
        D3D12_STATE_SUBOBJECT_TYPE_DXIL_LIBRARY
    }

    fn type_value(&self) -> (r: i32) {
        D3D12_STATE_SUBOBJECT_TYPE_DXIL_LIBRARY
    }
}

/// A state object that exists already, with the exports that are taken from it.
#[derive(Debug)]
pub struct ExistingCollectionDesc {
    pub existing_collection: RawHandle,
    pub exports: Vec<ExportDesc>,
}

impl ExistingCollectionDesc {
    pub fn new(state_object: &StateObject) -> (r: Self)
        ensures
            r.existing_collection == state_object.raw,
            r.exports@.len() == 0,
    {
        ExistingCollectionDesc { existing_collection: state_object.raw, exports: Vec::new() }
    }

    /// Sets the exports, whose number has to fit in 32 bits.
    pub fn exports(self, exports: &[ExportDesc]) -> (r: Self)
        requires
            exports@.len() <= u32::MAX,
        ensures
            r.existing_collection == self.existing_collection,
            r.exports@ == exports@,
    {
        ExistingCollectionDesc { exports: copy_exports(exports), ..self }
    }
}

impl StateSubobject for ExistingCollectionDesc {
    open spec fn kind(&self) -> i32 {
        D3D12_STATE_SUBOBJECT_TYPE_EXISTING_COLLECTION
    }

    fn type_value(&self) -> (r: i32) {
        D3D12_STATE_SUBOBJECT_TYPE_EXISTING_COLLECTION
    }
}

/// Ties a part of the state object to exports. The part is known by the address
/// of its description, by which the builder finds it among the parts it holds.
#[derive(Debug)]
pub struct SubobjectToExportsAssociation {
    pub assoc: usize,
    pub exports: Vec<String>,
}

impl SubobjectToExportsAssociation {
    pub fn new(assoc: usize) -> (r: Self)
        ensures
            r.assoc == assoc,
            r.exports@.len() == 0,
    {
        SubobjectToExportsAssociation { assoc, exports: Vec::new() }
    }

    /// Sets the exports, whose number has to fit in 32 bits.
    pub fn exports(self, exports: &[&str]) -> (r: Self)
        requires
            exports@.len() <= u32::MAX,
        ensures
            r.assoc == self.assoc,
            strings_view(r.exports@) == strs_view(exports@),
    {
        SubobjectToExportsAssociation { exports: own_strings(exports), ..self }
    }
}

/// Ties a part that a library defines, known by its name, to exports.
#[derive(Debug)]
pub struct DxilSubobjectToExportsAssociation {
    pub assoc: String,
    pub exports: Vec<String>,
}

impl DxilSubobjectToExportsAssociation {
    pub fn new(assoc: &str) -> (r: Self)
        ensures
            r.assoc@ == assoc@,
            r.exports@.len() == 0,
    {
        DxilSubobjectToExportsAssociation { assoc: assoc.to_owned(), exports: Vec::new() }
    }

    /// Sets the exports, whose number has to fit in 32 bits.
    pub fn exports(self, exports: &[&str]) -> (r: Self)
        requires
            exports@.len() <= u32::MAX,
        ensures
            r.assoc == self.assoc,
            strings_view(r.exports@) == strs_view(exports@),
    {
        DxilSubobjectToExportsAssociation { exports: own_strings(exports), ..self }
    }
}

impl StateSubobject for DxilSubobjectToExportsAssociation {
    open spec fn kind(&self) -> i32 {
        D3D12_STATE_SUBOBJECT_TYPE_DXIL_SUBOBJECT_TO_EXPORTS_ASSOCIATION
    }

    fn type_value(&self) -> (r: i32) {
        D3D12_STATE_SUBOBJECT_TYPE_DXIL_SUBOBJECT_TO_EXPORTS_ASSOCIATION
    }
}

#[derive(Clone, Copy, PartialEq, Eq, Structural, Debug)]
pub struct RaytracingShaderConfig {
    pub max_payload_size_in_bytes: u32,
    pub max_attribute_size_in_bytes: u32,
}

impl RaytracingShaderConfig {
    pub fn new() -> (r: Self)
        ensures
            r == (RaytracingShaderConfig {
                max_payload_size_in_bytes: 0,
                max_attribute_size_in_bytes: 0,
            }),
    {
        RaytracingShaderConfig { max_payload_size_in_bytes: 0, max_attribute_size_in_bytes: 0 }
    }

    pub fn max_payload_size_in_bytes(self, size: u32) -> (r: Self)
        ensures
            r == (RaytracingShaderConfig { max_payload_size_in_bytes: size, ..self }),
    {
        RaytracingShaderConfig { max_payload_size_in_bytes: size, ..self }
    }

    pub fn max_attribute_size_in_bytes(self, size: u32) -> (r: Self)
        ensures
            r == (RaytracingShaderConfig { max_attribute_size_in_bytes: size, ..self }),
    {
        RaytracingShaderConfig { max_attribute_size_in_bytes: size, ..self }
    }
}

impl StateSubobject for RaytracingShaderConfig {
    open spec fn kind(&self) -> i32 {
        D3D12_STATE_SUBOBJECT_TYPE_RAYTRACING_SHADER_CONFIG
    }

    fn type_value(&self) -> (r: i32) {
        D3D12_STATE_SUBOBJECT_TYPE_RAYTRACING_SHADER_CONFIG
    }
}

#[derive(Clone, Copy, PartialEq, Eq, Structural, Debug)]
pub struct RaytracingPipelineConfig {
    pub max_trace_recursion_depth: u32,
    pub flags: i32,
}

impl RaytracingPipelineConfig {
    pub fn new() -> (r: Self)
        ensures
            r == (RaytracingPipelineConfig {
                max_trace_recursion_depth: 0,
                flags: D3D12_RAYTRACING_PIPELINE_FLAG_NONE,
            }),
    {
        RaytracingPipelineConfig {
            max_trace_recursion_depth: 0,
            flags: D3D12_RAYTRACING_PIPELINE_FLAG_NONE,
        }
    }

    pub fn max_trace_recursion_depth(self, depth: u32) -> (r: Self)
        ensures
            r == (RaytracingPipelineConfig { max_trace_recursion_depth: depth, ..self }),
    {
        RaytracingPipelineConfig { max_trace_recursion_depth: depth, ..self }
    }

    pub fn flags(self, flags: i32) -> (r: Self)
        ensures
            r == (RaytracingPipelineConfig { flags, ..self }),
    {
        RaytracingPipelineConfig { flags, ..self }
    }
}

impl StateSubobject for RaytracingPipelineConfig {
    open spec fn kind(&self) -> i32 {
        D3D12_STATE_SUBOBJECT_TYPE_RAYTRACING_PIPELINE_CONFIG1
    }

    fn type_value(&self) -> (r: i32) {
        D3D12_STATE_SUBOBJECT_TYPE_RAYTRACING_PIPELINE_CONFIG1
    }
}

/// A hit group: the shaders that run where a ray meets a geometry.
#[derive(Debug)]
pub struct HitGroupDesc {
    pub ty: i32,
    pub export: String,
    pub any_hit_shader_import: Option<String>,
    pub closest_hit_shader_import: Option<String>,
    pub intersection_shader_import: Option<String>,
}

impl HitGroupDesc {
    pub fn new() -> (r: Self)
        ensures
            r.ty == D3D12_HIT_GROUP_TYPE_TRIANGLES,
            r.export@.len() == 0,
            r.any_hit_shader_import.is_none(),
            r.closest_hit_shader_import.is_none(),
            r.intersection_shader_import.is_none(),
    {
        HitGroupDesc {
            ty: D3D12_HIT_GROUP_TYPE_TRIANGLES,
            export: String::new(),
            any_hit_shader_import: None,
            closest_hit_shader_import: None,
            intersection_shader_import: None,
        }
    }

    pub fn hit_group_type(self, ty: i32) -> (r: Self)
        ensures
            r.ty == ty,
            r.export == self.export,
            r.any_hit_shader_import == self.any_hit_shader_import,
            r.closest_hit_shader_import == self.closest_hit_shader_import,
            r.intersection_shader_import == self.intersection_shader_import,
    {
        HitGroupDesc { ty, ..self }
    }

    pub fn export(self, export: &str) -> (r: Self)
        ensures
            r.ty == self.ty,
            r.export@ == export@,
            r.any_hit_shader_import == self.any_hit_shader_import,
            r.closest_hit_shader_import == self.closest_hit_shader_import,
            r.intersection_shader_import == self.intersection_shader_import,
    {
        HitGroupDesc { export: export.to_owned(), ..self }
    }

    pub fn any_hit_shader_import(self, import: &str) -> (r: Self)
        ensures
            r.ty == self.ty,
            r.export == self.export,
            text_view(r.any_hit_shader_import) == Some(import@),
            r.closest_hit_shader_import == self.closest_hit_shader_import,
            r.intersection_shader_import == self.intersection_shader_import,
    {
        HitGroupDesc { any_hit_shader_import: Some(import.to_owned()), ..self }
    }

    pub fn closest_hit_shader_import(self, import: &str) -> (r: Self)
        ensures
            r.ty == self.ty,
            r.export == self.export,
            r.any_hit_shader_import == self.any_hit_shader_import,
            text_view(r.closest_hit_shader_import) == Some(import@),
            r.intersection_shader_import == self.intersection_shader_import,
    {
        HitGroupDesc { closest_hit_shader_import: Some(import.to_owned()), ..self }
    }

    pub fn intersection_shader_import(self, import: &str) -> (r: Self)
        ensures
            r.ty == self.ty,
            r.export == self.export,
            r.any_hit_shader_import == self.any_hit_shader_import,
            r.closest_hit_shader_import == self.closest_hit_shader_import,
            text_view(r.intersection_shader_import) == Some(import@),
    {
        HitGroupDesc { intersection_shader_import: Some(import.to_owned()), ..self }
    }
}

impl StateSubobject for HitGroupDesc {
    open spec fn kind(&self) -> i32 {
        D3D12_STATE_SUBOBJECT_TYPE_HIT_GROUP
    }

    fn type_value(&self) -> (r: i32) {
        D3D12_STATE_SUBOBJECT_TYPE_HIT_GROUP
    }
}

/// A part that a builder holds: its kind and the address of its description.
#[derive(Clone, Copy, PartialEq, Eq, Structural, Debug)]
pub struct SubobjectRef {
    pub ty: i32,
    pub desc: usize,
}

/// One entry of the list of parts that the native layer is handed.
#[derive(Debug)]
pub enum StateSubobjectEntry {
    /// A part with a description of its own.
    Described { ty: i32, desc: usize },
    /// An association of exports with the part at `subobject_index` of the list.
    Association { subobject_index: usize, exports: Vec<String> },
}

impl StateSubobjectEntry {
    /// The value by which the native layer knows the kind of the entry.
    pub fn type_value(&self) -> (r: i32)
        ensures
            r == match *self {
                StateSubobjectEntry::Described { ty, .. } => ty,
                StateSubobjectEntry::Association {
                    ..
                } => D3D12_STATE_SUBOBJECT_TYPE_SUBOBJECT_TO_EXPORTS_ASSOCIATION,
            },
    {
        match self {
            StateSubobjectEntry::Described { ty, .. } => *ty,
            StateSubobjectEntry::Association {
                ..
            } => D3D12_STATE_SUBOBJECT_TYPE_SUBOBJECT_TO_EXPORTS_ASSOCIATION,
        }
    }
}

/// What the native call that creates a state object is handed.
#[derive(Debug)]
pub struct StateObjectDesc {
    pub ty: i32,
    pub subobjects: Vec<StateSubobjectEntry>,
}

/// Whether `index` is the first place of `subobjects` whose description lies at `desc`.
pub open spec fn is_first_position(subobjects: Seq<SubobjectRef>, desc: usize, index: int) -> bool {
    &&& 0 <= index < subobjects.len()
    &&& subobjects[index].desc == desc
    &&& forall|k: int| 0 <= k < index ==> (#[trigger] subobjects[k]).desc != desc
}

/// Whether some part of `subobjects` has its description at `desc`.
pub open spec fn holds(subobjects: Seq<SubobjectRef>, desc: usize) -> bool {
    exists|k: int| 0 <= k < subobjects.len() && (#[trigger] subobjects[k]).desc == desc
}

/// Whether `entries` is the list that stands for the parts and the associations
/// of a builder: the parts in their order, each with its kind and the address of
/// its description, then the associations in their order, each with the index
/// of the first part that lies at the address it names, and with its exports.
pub open spec fn lays_out(
    subobjects: Seq<SubobjectRef>,
    associations: Seq<SubobjectToExportsAssociation>,
    entries: Seq<StateSubobjectEntry>,
) -> bool {
    &&& entries.len() == subobjects.len() + associations.len()
    &&& forall|i: int|
        0 <= i < subobjects.len() ==> #[trigger] entries[i] == (StateSubobjectEntry::Described {
            ty: subobjects[i].ty,
            desc: subobjects[i].desc,
        })
    &&& forall|k: int|
        0 <= k < associations.len() ==> match #[trigger] entries[subobjects.len() + k] {
            StateSubobjectEntry::Association { subobject_index, exports } => is_first_position(
                subobjects,
                associations[k].assoc,
                subobject_index as int,
            ) && exports@ == associations[k].exports@,
            StateSubobjectEntry::Described { .. } => false,
        }
}

/// Collects the parts and the associations that a state object is created from.
#[derive(Debug)]
pub struct Builder {
    pub device: RawHandle,
    pub ty: i32,
    pub subobjects: Vec<SubobjectRef>,
    pub associations: Vec<SubobjectToExportsAssociation>,
    pub name: Option<String>,
}

/// What building a state object gives for the outcome of its creation.
pub open spec fn built(created: Result<RawHandle, Error>, name: Option<String>, r: Result<
    StateObject,
    Error,
>) -> bool {
    match created {
        Ok(raw) => r.is_ok() && r.unwrap().raw == raw && name_view(r.unwrap().name) == text_view(
            name,
        ),
        Err(e) => r == Err::<StateObject, Error>(e),
    }
}

/// Finds the first part whose description lies at `desc`.
fn position(subobjects: &Vec<SubobjectRef>, desc: usize) -> (r: usize)
    requires
        holds(subobjects@, desc),
    ensures
        is_first_position(subobjects@, desc, r as int),
{
    let mut i: usize = 0;
    while i < subobjects.len()
        invariant
            i <= subobjects.len(),
            holds(subobjects@, desc),
            forall|k: int| 0 <= k < i ==> (#[trigger] subobjects@[k]).desc != desc,
        decreases subobjects.len() - i,
    {
        if subobjects[i].desc == desc {
            return i;
        }
        i += 1;
    }
    proof {
        let k = choose|k: int| 0 <= k < subobjects@.len() && (#[trigger] subobjects@[k]).desc == desc;
        assert(subobjects@[k].desc != desc);
    }
    i
}

impl Builder {
    pub(crate) fn new(device: RawHandle, ty: i32) -> (r: Self)
        ensures
            r.device == device,
            r.ty == ty,
            r.subobjects@.len() == 0,
            r.associations@.len() == 0,
            r.name.is_none(),
    {
        Builder { device, ty, subobjects: Vec::new(), associations: Vec::new(), name: None }
    }

    /// Adds a part, whose description lies at the address `desc`.
    pub fn subobject<S>(self, subobject: &S, desc: usize) -> (r: Self)
        where S: StateSubobject
        ensures
            r.device == self.device,
            r.ty == self.ty,
            r.subobjects@ == self.subobjects@.push(SubobjectRef { ty: subobject.kind(), desc }),
            r.associations == self.associations,
            r.name == self.name,
    {
        let mut this = self;
        this.subobjects.push(SubobjectRef { ty: subobject.type_value(), desc });
        this
    }

    /// Adds an association of exports with a part.
    pub fn associate(self, assoc: SubobjectToExportsAssociation) -> (r: Self)
        ensures
            r.device == self.device,
            r.ty == self.ty,
            r.subobjects == self.subobjects,
            r.associations@ == self.associations@.push(assoc),
            r.name == self.name,
    {
        let mut this = self;
        this.associations.push(assoc);
        this
    }

    pub fn name(self, name: &str) -> (r: Self)
        ensures
            r.device == self.device,
            r.ty == self.ty,
            r.subobjects == self.subobjects,
            r.associations == self.associations,
            text_view(r.name) == Some(name@),
    {
        Builder { name: Some(name.to_owned()), ..self }
    }

    /// Lays out the list of parts that the native layer is handed.
    ///
    /// Every association names a part that the builder holds.
    pub fn layout(&self) -> (entries: Vec<StateSubobjectEntry>)
        requires
            self.subobjects@.len() + self.associations@.len() <= u32::MAX,
            forall|k: int|
                0 <= k < self.associations@.len() ==> holds(
                    self.subobjects@,
                    (#[trigger] self.associations@[k]).assoc,
                ),
        ensures
            lays_out(self.subobjects@, self.associations@, entries@),
    {
        let mut entries: Vec<StateSubobjectEntry> = Vec::new();
        let n = self.subobjects.len();
        let mut i: usize = 0;
        while i < n
            invariant
                n == self.subobjects@.len(),
                i <= n,
                entries@.len() == i,
                forall|j: int|
                    0 <= j < i ==> #[trigger] entries@[j] == (StateSubobjectEntry::Described {
                        ty: self.subobjects@[j].ty,
                        desc: self.subobjects@[j].desc,
                    }),
            decreases n - i,
        {
            entries.push(
                StateSubobjectEntry::Described {
                    ty: self.subobjects[i].ty,
                    desc: self.subobjects[i].desc,
                },
            );
            i += 1;
        }
        let m = self.associations.len();
        let mut k: usize = 0;
        while k < m
            invariant
                n == self.subobjects@.len(),
                m == self.associations@.len(),
                n + m <= u32::MAX,
                k <= m,
                entries@.len() == n + k,
                forall|j: int|
                    0 <= j < self.associations@.len() ==> holds(
                        self.subobjects@,
                        (#[trigger] self.associations@[j]).assoc,
                    ),
                forall|j: int|
                    0 <= j < n ==> #[trigger] entries@[j] == (StateSubobjectEntry::Described {
                        ty: self.subobjects@[j].ty,
                        desc: self.subobjects@[j].desc,
                    }),
                forall|j: int|
                    0 <= j < k ==> match #[trigger] entries@[n + j] {
                        StateSubobjectEntry::Association {
                            subobject_index,
                            exports,
                        } => is_first_position(
                            self.subobjects@,
                            self.associations@[j].assoc,
                            subobject_index as int,
                        ) && exports@ == self.associations@[j].exports@,
                        StateSubobjectEntry::Described { .. } => false,
                    },
            decreases m - k,
        {
            let assoc = &self.associations[k];
            let index = position(&self.subobjects, assoc.assoc);
            let ghost before = entries@;
            entries.push(
                StateSubobjectEntry::Association {
                    subobject_index: index,
                    exports: copy_strings(&assoc.exports),
                },
            );
            proof {
                assert(forall|j: int| 0 <= j < n + k ==> #[trigger] entries@[j] == before[j]);
                assert(forall|j: int| 0 <= j < k ==> #[trigger] entries@[n + j] == before[n + j]);
            }
            k += 1;
        }
        entries
    }

    /// Creates the state object.
    ///
    /// The native call `create` is handed the kind of the state object and the
    /// list that `layout` gives.
    pub fn build<C>(self, create: C) -> (r: Result<StateObject, Error>)
        where C: FnOnce(StateObjectDesc) -> Result<RawHandle, Error>
        requires
            self.subobjects@.len() + self.associations@.len() <= u32::MAX,
            forall|k: int|
                0 <= k < self.associations@.len() ==> holds(
                    self.subobjects@,
                    (#[trigger] self.associations@[k]).assoc,
                ),
            forall|desc: StateObjectDesc|
                desc.ty == self.ty && lays_out(
                    self.subobjects@,
                    self.associations@,
                    desc.subobjects@,
                ) ==> #[trigger] create.requires((desc,)),
        ensures
            exists|desc: StateObjectDesc, created: Result<RawHandle, Error>|
                {
                    &&& desc.ty == self.ty
                    &&& lays_out(self.subobjects@, self.associations@, desc.subobjects@)
                    &&& #[trigger] create.ensures((desc,), created)
                    &&& built(created, self.name, r)
                },
    {
        let desc = StateObjectDesc { ty: self.ty, subobjects: self.layout() };
        let ghost handed = desc;
        let created = create(desc);
        let r = match created {
            Ok(raw) => Ok(StateObject { raw, name: name_from_text(&self.name) }),
            Err(e) => Err(e),
        };
        assert(handed.ty == self.ty && lays_out(
            self.subobjects@,
            self.associations@,
            handed.subobjects@,
        ) && create.ensures((handed,), created) && built(created, self.name, r));
        r
    }
}

/// A state object: a graph of parts, built once.
#[derive(Debug)]
pub struct StateObject {
    pub raw: RawHandle,
    pub name: Option<Name>,
}

impl StateObject {
    pub fn new(device: &Device, ty: i32) -> (r: Builder)
        ensures
            r.device == device.raw,
            r.ty == ty,
            r.subobjects@.len() == 0,
            r.associations@.len() == 0,
            r.name.is_none(),
    {
        Builder::new(device.raw, ty)
    }

    pub fn handle(&self) -> (r: RawHandle)
        ensures
            r == self.raw,
    {
        self.raw
    }

    pub fn name(&self) -> (r: Option<&str>)
        ensures
            r.is_some() == self.name.is_some(),
            r.is_some() ==> r.unwrap()@ == self.name.unwrap().text@,
    {
        name_as_str(&self.name)
    }
}

/// The properties of a state object, by which the identifiers of its exports are
/// asked for.
#[derive(Clone, Copy, PartialEq, Eq, Structural, Debug)]
pub struct StateObjectProperties {
    pub raw: RawHandle,
}

impl StateObjectProperties {
    /// Wraps the properties interface `properties` of `state_object`.
    pub fn new(state_object: &StateObject, properties: RawHandle) -> (r: Self)
        ensures
            r.raw == properties,
    {
        StateObjectProperties { raw: properties }
    }

    pub fn handle(&self) -> (r: RawHandle)
        ensures
            r == self.raw,
    {
        self.raw
    }
}

} // verus!
