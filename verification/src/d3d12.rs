use vstd::prelude::*;

verus! {

// Values of the Direct3D 12 constants that the library hands to the native layer.

pub const D3D12_COMMAND_LIST_TYPE_DIRECT: i32 = 0;

pub const D3D12_COMMAND_LIST_TYPE_BUNDLE: i32 = 1;

pub const D3D12_COMMAND_LIST_TYPE_COMPUTE: i32 = 2;

pub const D3D12_COMMAND_LIST_TYPE_COPY: i32 = 3;

pub const D3D12_COMMAND_LIST_TYPE_VIDEO_DECODE: i32 = 4;

pub const D3D12_COMMAND_LIST_TYPE_VIDEO_PROCESS: i32 = 5;

pub const D3D12_COMMAND_LIST_TYPE_VIDEO_ENCODE: i32 = 6;

pub const D3D12_FENCE_FLAG_NONE: i32 = 0;

pub const D3D12_CONSTANT_BUFFER_DATA_PLACEMENT_ALIGNMENT: u32 = 256;

pub const D3D12_HEAP_TYPE_DEFAULT: i32 = 1;

pub const D3D12_HEAP_TYPE_UPLOAD: i32 = 2;

pub const D3D12_HEAP_TYPE_READBACK: i32 = 3;

pub const D3D12_HEAP_TYPE_CUSTOM: i32 = 4;

pub const D3D12_HEAP_TYPE_GPU_UPLOAD: i32 = 5;

pub const D3D12_CPU_PAGE_PROPERTY_UNKNOWN: i32 = 0;

pub const D3D12_MEMORY_POOL_UNKNOWN: i32 = 0;

pub const D3D12_RESOURCE_DIMENSION_BUFFER: i32 = 1;

pub const D3D12_RESOURCE_DIMENSION_TEXTURE1D: i32 = 2;

pub const D3D12_RESOURCE_DIMENSION_TEXTURE2D: i32 = 3;

pub const D3D12_RESOURCE_DIMENSION_TEXTURE3D: i32 = 4;

pub const D3D12_TEXTURE_LAYOUT_UNKNOWN: i32 = 0;

pub const D3D12_TEXTURE_LAYOUT_ROW_MAJOR: i32 = 1;

pub const D3D12_RESOURCE_FLAG_NONE: i32 = 0;

pub const D3D12_HEAP_FLAG_NONE: i32 = 0;

pub const D3D12_RESOURCE_STATE_COMMON: i32 = 0;

pub const D3D12_DESCRIPTOR_HEAP_TYPE_CBV_SRV_UAV: i32 = 0;

pub const D3D12_DESCRIPTOR_HEAP_TYPE_SAMPLER: i32 = 1;

pub const D3D12_DESCRIPTOR_HEAP_TYPE_RTV: i32 = 2;

pub const D3D12_DESCRIPTOR_HEAP_TYPE_DSV: i32 = 3;

pub const D3D12_DESCRIPTOR_HEAP_FLAG_NONE: i32 = 0;

pub const D3D12_DEFAULT_SHADER_4_COMPONENT_MAPPING: u32 = 5768;

pub const D3D12_BUFFER_SRV_FLAG_NONE: i32 = 0;

pub const D3D12_BUFFER_UAV_FLAG_NONE: i32 = 0;

pub const D3D12_DSV_FLAG_NONE: i32 = 0;

pub const D3D12_DSV_DIMENSION_TEXTURE1D: i32 = 1;

pub const D3D12_DSV_DIMENSION_TEXTURE1DARRAY: i32 = 2;

pub const D3D12_DSV_DIMENSION_TEXTURE2D: i32 = 3;

pub const D3D12_DSV_DIMENSION_TEXTURE2DARRAY: i32 = 4;

pub const D3D12_DSV_DIMENSION_TEXTURE2DMS: i32 = 5;

pub const D3D12_DSV_DIMENSION_TEXTURE2DMSARRAY: i32 = 6;

pub const D3D12_RTV_DIMENSION_BUFFER: i32 = 1;

pub const D3D12_RTV_DIMENSION_TEXTURE1D: i32 = 2;

pub const D3D12_RTV_DIMENSION_TEXTURE1DARRAY: i32 = 3;

pub const D3D12_RTV_DIMENSION_TEXTURE2D: i32 = 4;

pub const D3D12_RTV_DIMENSION_TEXTURE2DARRAY: i32 = 5;

pub const D3D12_RTV_DIMENSION_TEXTURE2DMS: i32 = 6;

pub const D3D12_RTV_DIMENSION_TEXTURE2DMSARRAY: i32 = 7;

pub const D3D12_RTV_DIMENSION_TEXTURE3D: i32 = 8;

pub const D3D12_SRV_DIMENSION_BUFFER: i32 = 1;

pub const D3D12_SRV_DIMENSION_RAYTRACING_ACCELERATION_STRUCTURE: i32 = 11;

pub const D3D12_SRV_DIMENSION_TEXTURE1D: i32 = 2;

pub const D3D12_SRV_DIMENSION_TEXTURE1DARRAY: i32 = 3;

pub const D3D12_SRV_DIMENSION_TEXTURE2D: i32 = 4;

pub const D3D12_SRV_DIMENSION_TEXTURE2DARRAY: i32 = 5;

pub const D3D12_SRV_DIMENSION_TEXTURE2DMS: i32 = 6;

pub const D3D12_SRV_DIMENSION_TEXTURE2DMSARRAY: i32 = 7;

pub const D3D12_SRV_DIMENSION_TEXTURE3D: i32 = 8;

pub const D3D12_SRV_DIMENSION_TEXTURECUBE: i32 = 9;

pub const D3D12_SRV_DIMENSION_TEXTURECUBEARRAY: i32 = 10;

pub const D3D12_UAV_DIMENSION_BUFFER: i32 = 1;

pub const D3D12_UAV_DIMENSION_TEXTURE1D: i32 = 2;

pub const D3D12_UAV_DIMENSION_TEXTURE1DARRAY: i32 = 3;

pub const D3D12_UAV_DIMENSION_TEXTURE2D: i32 = 4;

pub const D3D12_UAV_DIMENSION_TEXTURE2DARRAY: i32 = 5;

pub const D3D12_UAV_DIMENSION_TEXTURE2DMS: i32 = 6;

pub const D3D12_UAV_DIMENSION_TEXTURE2DMSARRAY: i32 = 7;

pub const D3D12_UAV_DIMENSION_TEXTURE3D: i32 = 8;

pub const D3D12_RESOURCE_BARRIER_TYPE_TRANSITION: i32 = 0;

pub const D3D12_RESOURCE_BARRIER_TYPE_ALIASING: i32 = 1;

pub const D3D12_RESOURCE_BARRIER_TYPE_UAV: i32 = 2;

pub const D3D12_RESOURCE_BARRIER_FLAG_NONE: i32 = 0;

pub const D3D12_RAYTRACING_GEOMETRY_TYPE_TRIANGLES: i32 = 0;

pub const D3D12_RAYTRACING_GEOMETRY_TYPE_PROCEDURAL_PRIMITIVE_AABBS: i32 = 1;

pub const D3D12_RAYTRACING_GEOMETRY_FLAG_NONE: i32 = 0;

pub const D3D12_RAYTRACING_ACCELERATION_STRUCTURE_TYPE_TOP_LEVEL: i32 = 0;

pub const D3D12_RAYTRACING_ACCELERATION_STRUCTURE_TYPE_BOTTOM_LEVEL: i32 = 1;

pub const D3D12_ELEMENTS_LAYOUT_ARRAY: i32 = 0;

pub const D3D12_RAYTRACING_ACCELERATION_STRUCTURE_BUILD_FLAG_NONE: i32 = 0;

pub const D3D12_DESCRIPTOR_RANGE_TYPE_SRV: i32 = 0;

pub const D3D12_DESCRIPTOR_RANGE_TYPE_UAV: i32 = 1;

pub const D3D12_DESCRIPTOR_RANGE_TYPE_CBV: i32 = 2;

pub const D3D12_DESCRIPTOR_RANGE_TYPE_SAMPLER: i32 = 3;

pub const D3D12_DESCRIPTOR_RANGE_OFFSET_APPEND: u32 = 4294967295;

pub const D3D12_ROOT_PARAMETER_TYPE_DESCRIPTOR_TABLE: i32 = 0;

pub const D3D12_ROOT_PARAMETER_TYPE_32BIT_CONSTANTS: i32 = 1;

pub const D3D12_ROOT_PARAMETER_TYPE_CBV: i32 = 2;

pub const D3D12_ROOT_PARAMETER_TYPE_SRV: i32 = 3;

pub const D3D12_ROOT_PARAMETER_TYPE_UAV: i32 = 4;

pub const D3D12_SHADER_VISIBILITY_ALL: i32 = 0;

pub const D3D12_FILTER_ANISOTROPIC: i32 = 85;

pub const D3D12_TEXTURE_ADDRESS_MODE_WRAP: i32 = 1;

pub const D3D12_COMPARISON_FUNC_LESS_EQUAL: i32 = 4;

pub const D3D12_STATIC_BORDER_COLOR_OPAQUE_BLACK: i32 = 1;

pub const D3D12_ROOT_SIGNATURE_FLAG_NONE: i32 = 0;

pub const D3D_ROOT_SIGNATURE_VERSION_1: i32 = 1;

pub const D3D12_BLEND_ONE: i32 = 2;

pub const D3D12_BLEND_ZERO: i32 = 1;

pub const D3D12_BLEND_OP_ADD: i32 = 1;

pub const D3D12_LOGIC_OP_NOOP: i32 = 4;

pub const D3D12_COLOR_WRITE_ENABLE_ALL: i32 = 15;

pub const D3D12_FILL_MODE_SOLID: i32 = 3;

pub const D3D12_CULL_MODE_BACK: i32 = 3;

pub const D3D12_CONSERVATIVE_RASTERIZATION_MODE_OFF: i32 = 0;

pub const D3D12_STENCIL_OP_KEEP: i32 = 1;

pub const D3D12_COMPARISON_FUNC_ALWAYS: i32 = 8;

pub const D3D12_COMPARISON_FUNC_LESS: i32 = 2;

pub const D3D12_DEPTH_WRITE_MASK_ALL: i32 = 1;

pub const D3D12_DEFAULT_STENCIL_READ_MASK: u32 = 255;

pub const D3D12_DEFAULT_STENCIL_WRITE_MASK: u32 = 255;

pub const D3D12_APPEND_ALIGNED_ELEMENT: u32 = 4294967295;

pub const D3D12_INPUT_CLASSIFICATION_PER_VERTEX_DATA: i32 = 0;

pub const D3D12_INDEX_BUFFER_STRIP_CUT_VALUE_DISABLED: i32 = 0;

pub const D3D12_PRIMITIVE_TOPOLOGY_TYPE_UNDEFINED: i32 = 0;

pub const D3D12_PIPELINE_STATE_FLAG_NONE: i32 = 0;

pub const D3D12_VIEW_INSTANCING_FLAG_NONE: i32 = 0;

pub const D3D12_PIPELINE_STATE_SUBOBJECT_TYPE_ROOT_SIGNATURE: i32 = 0;

pub const D3D12_PIPELINE_STATE_SUBOBJECT_TYPE_VS: i32 = 1;

pub const D3D12_PIPELINE_STATE_SUBOBJECT_TYPE_PS: i32 = 2;

pub const D3D12_PIPELINE_STATE_SUBOBJECT_TYPE_DS: i32 = 3;

pub const D3D12_PIPELINE_STATE_SUBOBJECT_TYPE_HS: i32 = 4;

pub const D3D12_PIPELINE_STATE_SUBOBJECT_TYPE_GS: i32 = 5;

pub const D3D12_PIPELINE_STATE_SUBOBJECT_TYPE_STREAM_OUTPUT: i32 = 7;

pub const D3D12_PIPELINE_STATE_SUBOBJECT_TYPE_BLEND: i32 = 8;

pub const D3D12_PIPELINE_STATE_SUBOBJECT_TYPE_SAMPLE_MASK: i32 = 9;

pub const D3D12_PIPELINE_STATE_SUBOBJECT_TYPE_RASTERIZER: i32 = 10;

pub const D3D12_PIPELINE_STATE_SUBOBJECT_TYPE_DEPTH_STENCIL: i32 = 11;

pub const D3D12_PIPELINE_STATE_SUBOBJECT_TYPE_INPUT_LAYOUT: i32 = 12;

pub const D3D12_PIPELINE_STATE_SUBOBJECT_TYPE_IB_STRIP_CUT_VALUE: i32 = 13;

pub const D3D12_PIPELINE_STATE_SUBOBJECT_TYPE_PRIMITIVE_TOPOLOGY: i32 = 14;

pub const D3D12_PIPELINE_STATE_SUBOBJECT_TYPE_RENDER_TARGET_FORMATS: i32 = 15;

pub const D3D12_PIPELINE_STATE_SUBOBJECT_TYPE_DEPTH_STENCIL_FORMAT: i32 = 16;

pub const D3D12_PIPELINE_STATE_SUBOBJECT_TYPE_SAMPLE_DESC: i32 = 17;

pub const D3D12_EXPORT_FLAG_NONE: i32 = 0;

pub const D3D12_HIT_GROUP_TYPE_TRIANGLES: i32 = 0;

pub const D3D12_RAYTRACING_PIPELINE_FLAG_NONE: i32 = 0;

pub const D3D12_STATE_SUBOBJECT_TYPE_DXIL_LIBRARY: i32 = 5;

pub const D3D12_STATE_SUBOBJECT_TYPE_DXIL_SUBOBJECT_TO_EXPORTS_ASSOCIATION: i32 = 8;

pub const D3D12_STATE_SUBOBJECT_TYPE_EXISTING_COLLECTION: i32 = 6;

pub const D3D12_STATE_SUBOBJECT_TYPE_GLOBAL_ROOT_SIGNATURE: i32 = 1;

pub const D3D12_STATE_SUBOBJECT_TYPE_HIT_GROUP: i32 = 11;

pub const D3D12_STATE_SUBOBJECT_TYPE_LOCAL_ROOT_SIGNATURE: i32 = 2;

pub const D3D12_STATE_SUBOBJECT_TYPE_NODE_MASK: i32 = 3;

pub const D3D12_STATE_SUBOBJECT_TYPE_RAYTRACING_PIPELINE_CONFIG1: i32 = 12;

pub const D3D12_STATE_SUBOBJECT_TYPE_RAYTRACING_SHADER_CONFIG: i32 = 9;

pub const D3D12_STATE_SUBOBJECT_TYPE_STATE_OBJECT_CONFIG: i32 = 0;

pub const D3D12_STATE_SUBOBJECT_TYPE_SUBOBJECT_TO_EXPORTS_ASSOCIATION: i32 = 7;

pub const D3D12_STATE_OBJECT_TYPE_COLLECTION: i32 = 0;

pub const D3D12_STATE_OBJECT_TYPE_RAYTRACING_PIPELINE: i32 = 3;

pub const D3D12_COMMAND_QUEUE_FLAG_NONE: i32 = 0;

pub const D3D12_CLEAR_FLAG_DEPTH: i32 = 1;

pub const D3D12_CLEAR_FLAG_STENCIL: i32 = 2;

pub const D3D12_TEXTURE_COPY_TYPE_SUBRESOURCE_INDEX: i32 = 0;

pub const D3D12_TEXTURE_COPY_TYPE_PLACED_FOOTPRINT: i32 = 1;

pub const D3D12_RESOURCE_STATE_PRESENT: i32 = 0;

pub const D3D12_RESOURCE_STATE_RENDER_TARGET: i32 = 4;

pub const D3D12_RESOURCE_STATE_GENERIC_READ: i32 = 2755;

pub const D3D12_RESOURCE_STATE_UNORDERED_ACCESS: i32 = 8;

pub const D3D12_DRED_ENABLEMENT_SYSTEM_CONTROLLED: i32 = 0;

pub const D3D12_DRED_ENABLEMENT_FORCED_ON: i32 = 2;

pub const D3D12_DRED_ENABLEMENT_FORCED_OFF: i32 = 1;

pub const D3D12_FEATURE_ARCHITECTURE1: i32 = 16;

pub const D3D12_FEATURE_COMMAND_QUEUE_PRIORITY: i32 = 20;

pub const D3D12_FEATURE_CROSS_NODE: i32 = 25;

pub const D3D12_FEATURE_D3D12_OPTIONS: i32 = 0;

pub const D3D12_FEATURE_D3D12_OPTIONS1: i32 = 8;

pub const D3D12_FEATURE_D3D12_OPTIONS10: i32 = 39;

pub const D3D12_FEATURE_D3D12_OPTIONS11: i32 = 40;

pub const D3D12_FEATURE_D3D12_OPTIONS12: i32 = 41;

pub const D3D12_FEATURE_D3D12_OPTIONS13: i32 = 42;

pub const D3D12_FEATURE_D3D12_OPTIONS2: i32 = 18;

pub const D3D12_FEATURE_D3D12_OPTIONS3: i32 = 21;

pub const D3D12_FEATURE_D3D12_OPTIONS4: i32 = 23;

pub const D3D12_FEATURE_D3D12_OPTIONS5: i32 = 27;

pub const D3D12_FEATURE_D3D12_OPTIONS6: i32 = 30;

pub const D3D12_FEATURE_D3D12_OPTIONS7: i32 = 32;

pub const D3D12_FEATURE_D3D12_OPTIONS8: i32 = 36;

pub const D3D12_FEATURE_D3D12_OPTIONS9: i32 = 37;

pub const D3D12_FEATURE_DISPLAYABLE: i32 = 28;

pub const D3D12_FEATURE_EXISTING_HEAPS: i32 = 22;

pub const D3D12_FEATURE_FEATURE_LEVELS: i32 = 2;

pub const D3D12_FEATURE_FORMAT_INFO: i32 = 5;

pub const D3D12_FEATURE_FORMAT_SUPPORT: i32 = 3;

pub const D3D12_FEATURE_GPU_VIRTUAL_ADDRESS_SUPPORT: i32 = 6;

pub const D3D12_FEATURE_MULTISAMPLE_QUALITY_LEVELS: i32 = 4;

pub const D3D12_FEATURE_PROTECTED_RESOURCE_SESSION_SUPPORT: i32 = 10;

pub const D3D12_FEATURE_PROTECTED_RESOURCE_SESSION_TYPES: i32 = 34;

pub const D3D12_FEATURE_PROTECTED_RESOURCE_SESSION_TYPE_COUNT: i32 = 33;

pub const D3D12_FEATURE_ROOT_SIGNATURE: i32 = 12;

pub const D3D12_FEATURE_SERIALIZATION: i32 = 24;

pub const D3D12_FEATURE_SHADER_CACHE: i32 = 19;

pub const D3D12_FEATURE_SHADER_MODEL: i32 = 7;

pub const D3D_ROOT_SIGNATURE_VERSION_1_1: i32 = 2;

pub const D3D_SHADER_MODEL_6_7: i32 = 103;

pub const D3D12_RESOURCE_STATE_ALL_SHADER_RESOURCE: i32 = 192;

pub const D3D12_RESOURCE_STATE_COPY_DEST: i32 = 1024;

pub const D3D12_RESOURCE_STATE_COPY_SOURCE: i32 = 2048;

pub const D3D12_RESOURCE_STATE_DEPTH_READ: i32 = 32;

pub const D3D12_RESOURCE_STATE_DEPTH_WRITE: i32 = 16;

pub const D3D12_RESOURCE_STATE_INDEX_BUFFER: i32 = 2;

pub const D3D12_RESOURCE_STATE_INDIRECT_ARGUMENT: i32 = 512;

pub const D3D12_RESOURCE_STATE_NON_PIXEL_SHADER_RESOURCE: i32 = 64;

pub const D3D12_RESOURCE_STATE_PIXEL_SHADER_RESOURCE: i32 = 128;

pub const D3D12_RESOURCE_STATE_PREDICATION: i32 = 512;

pub const D3D12_RESOURCE_STATE_RAYTRACING_ACCELERATION_STRUCTURE: i32 = 4194304;

pub const D3D12_RESOURCE_STATE_RESERVED_INTERNAL_100000: i32 = 1048576;

pub const D3D12_RESOURCE_STATE_RESERVED_INTERNAL_4000: i32 = 16384;

pub const D3D12_RESOURCE_STATE_RESERVED_INTERNAL_40000000: i32 = 1073741824;

pub const D3D12_RESOURCE_STATE_RESERVED_INTERNAL_8000: i32 = 32768;

pub const D3D12_RESOURCE_STATE_RESERVED_INTERNAL_80000000: i32 = -2147483648;

pub const D3D12_RESOURCE_STATE_RESOLVE_DEST: i32 = 4096;

pub const D3D12_RESOURCE_STATE_RESOLVE_SOURCE: i32 = 8192;

pub const D3D12_RESOURCE_STATE_SHADING_RATE_SOURCE: i32 = 16777216;

pub const D3D12_RESOURCE_STATE_STREAM_OUT: i32 = 256;

pub const D3D12_RESOURCE_STATE_VERTEX_AND_CONSTANT_BUFFER: i32 = 1;

pub const D3D12_RESOURCE_STATE_VIDEO_DECODE_READ: i32 = 65536;

pub const D3D12_RESOURCE_STATE_VIDEO_DECODE_WRITE: i32 = 131072;

pub const D3D12_RESOURCE_STATE_VIDEO_ENCODE_READ: i32 = 2097152;

pub const D3D12_RESOURCE_STATE_VIDEO_ENCODE_WRITE: i32 = 8388608;

pub const D3D12_RESOURCE_STATE_VIDEO_PROCESS_READ: i32 = 262144;

pub const D3D12_RESOURCE_STATE_VIDEO_PROCESS_WRITE: i32 = 524288;

pub const D3D12_RESOURCE_FLAG_ALLOW_CROSS_ADAPTER: i32 = 16;

pub const D3D12_RESOURCE_FLAG_ALLOW_DEPTH_STENCIL: i32 = 2;

pub const D3D12_RESOURCE_FLAG_ALLOW_RENDER_TARGET: i32 = 1;

pub const D3D12_RESOURCE_FLAG_ALLOW_SIMULTANEOUS_ACCESS: i32 = 32;

pub const D3D12_RESOURCE_FLAG_ALLOW_UNORDERED_ACCESS: i32 = 4;

pub const D3D12_RESOURCE_FLAG_DENY_SHADER_RESOURCE: i32 = 8;

pub const D3D12_RESOURCE_FLAG_RAYTRACING_ACCELERATION_STRUCTURE: i32 = 256;

pub const D3D12_RESOURCE_FLAG_VIDEO_DECODE_REFERENCE_ONLY: i32 = 64;

pub const D3D12_RESOURCE_FLAG_VIDEO_ENCODE_REFERENCE_ONLY: i32 = 128;

pub const D3D12_HEAP_FLAG_ALLOW_ALL_BUFFERS_AND_TEXTURES: i32 = 0;

pub const D3D12_HEAP_FLAG_ALLOW_DISPLAY: i32 = 8;

pub const D3D12_HEAP_FLAG_ALLOW_ONLY_BUFFERS: i32 = 192;

pub const D3D12_HEAP_FLAG_ALLOW_ONLY_NON_RT_DS_TEXTURES: i32 = 68;

pub const D3D12_HEAP_FLAG_ALLOW_ONLY_RT_DS_TEXTURES: i32 = 132;

pub const D3D12_HEAP_FLAG_ALLOW_SHADER_ATOMICS: i32 = 1024;

pub const D3D12_HEAP_FLAG_ALLOW_WRITE_WATCH: i32 = 512;

pub const D3D12_HEAP_FLAG_CREATE_NOT_RESIDENT: i32 = 2048;

pub const D3D12_HEAP_FLAG_CREATE_NOT_ZEROED: i32 = 4096;

pub const D3D12_HEAP_FLAG_DENY_BUFFERS: i32 = 4;

pub const D3D12_HEAP_FLAG_DENY_NON_RT_DS_TEXTURES: i32 = 128;

pub const D3D12_HEAP_FLAG_DENY_RT_DS_TEXTURES: i32 = 64;

pub const D3D12_HEAP_FLAG_HARDWARE_PROTECTED: i32 = 256;

pub const D3D12_HEAP_FLAG_SHARED: i32 = 1;

pub const D3D12_HEAP_FLAG_SHARED_CROSS_ADAPTER: i32 = 32;

pub const D3D12_HEAP_FLAG_TOOLS_USE_MANUAL_WRITE_TRACKING: i32 = 8192;

pub const D3D12_DESCRIPTOR_HEAP_FLAG_SHADER_VISIBLE: i32 = 1;

pub const D3D12_ROOT_SIGNATURE_FLAG_ALLOW_INPUT_ASSEMBLER_INPUT_LAYOUT: i32 = 1;

pub const D3D12_ROOT_SIGNATURE_FLAG_ALLOW_STREAM_OUTPUT: i32 = 64;

pub const D3D12_ROOT_SIGNATURE_FLAG_CBV_SRV_UAV_HEAP_DIRECTLY_INDEXED: i32 = 1024;

pub const D3D12_ROOT_SIGNATURE_FLAG_DENY_AMPLIFICATION_SHADER_ROOT_ACCESS: i32 = 256;

pub const D3D12_ROOT_SIGNATURE_FLAG_DENY_DOMAIN_SHADER_ROOT_ACCESS: i32 = 8;

pub const D3D12_ROOT_SIGNATURE_FLAG_DENY_GEOMETRY_SHADER_ROOT_ACCESS: i32 = 16;

pub const D3D12_ROOT_SIGNATURE_FLAG_DENY_HULL_SHADER_ROOT_ACCESS: i32 = 4;

pub const D3D12_ROOT_SIGNATURE_FLAG_DENY_MESH_SHADER_ROOT_ACCESS: i32 = 512;

pub const D3D12_ROOT_SIGNATURE_FLAG_DENY_PIXEL_SHADER_ROOT_ACCESS: i32 = 32;

pub const D3D12_ROOT_SIGNATURE_FLAG_DENY_VERTEX_SHADER_ROOT_ACCESS: i32 = 2;

pub const D3D12_ROOT_SIGNATURE_FLAG_LOCAL_ROOT_SIGNATURE: i32 = 128;

pub const D3D12_ROOT_SIGNATURE_FLAG_SAMPLER_HEAP_DIRECTLY_INDEXED: i32 = 2048;

pub const D3D12_SHADER_VISIBILITY_AMPLIFICATION: i32 = 6;

pub const D3D12_SHADER_VISIBILITY_DOMAIN: i32 = 3;

pub const D3D12_SHADER_VISIBILITY_GEOMETRY: i32 = 4;

pub const D3D12_SHADER_VISIBILITY_HULL: i32 = 2;

pub const D3D12_SHADER_VISIBILITY_MESH: i32 = 7;

pub const D3D12_SHADER_VISIBILITY_PIXEL: i32 = 5;

pub const D3D12_SHADER_VISIBILITY_VERTEX: i32 = 1;

pub const D3D12_PRIMITIVE_TOPOLOGY_TYPE_LINE: i32 = 2;

pub const D3D12_PRIMITIVE_TOPOLOGY_TYPE_PATCH: i32 = 4;

pub const D3D12_PRIMITIVE_TOPOLOGY_TYPE_POINT: i32 = 1;

pub const D3D12_PRIMITIVE_TOPOLOGY_TYPE_TRIANGLE: i32 = 3;

pub const D3D12_FILL_MODE_WIREFRAME: i32 = 2;

pub const D3D12_CULL_MODE_FRONT: i32 = 2;

pub const D3D12_CULL_MODE_NONE: i32 = 1;

pub const D3D12_COMPARISON_FUNC_EQUAL: i32 = 3;

pub const D3D12_COMPARISON_FUNC_GREATER: i32 = 5;

pub const D3D12_COMPARISON_FUNC_GREATER_EQUAL: i32 = 7;

pub const D3D12_COMPARISON_FUNC_NEVER: i32 = 1;

pub const D3D12_COMPARISON_FUNC_NONE: i32 = 0;

pub const D3D12_COMPARISON_FUNC_NOT_EQUAL: i32 = 6;

pub const D3D12_BLEND_ALPHA_FACTOR: i32 = 20;

pub const D3D12_BLEND_BLEND_FACTOR: i32 = 14;

pub const D3D12_BLEND_DEST_ALPHA: i32 = 7;

pub const D3D12_BLEND_DEST_COLOR: i32 = 9;

pub const D3D12_BLEND_INV_ALPHA_FACTOR: i32 = 21;

pub const D3D12_BLEND_INV_BLEND_FACTOR: i32 = 15;

pub const D3D12_BLEND_INV_DEST_ALPHA: i32 = 8;

pub const D3D12_BLEND_INV_DEST_COLOR: i32 = 10;

pub const D3D12_BLEND_INV_SRC1_ALPHA: i32 = 19;

pub const D3D12_BLEND_INV_SRC1_COLOR: i32 = 17;

pub const D3D12_BLEND_INV_SRC_ALPHA: i32 = 6;

pub const D3D12_BLEND_INV_SRC_COLOR: i32 = 4;

pub const D3D12_BLEND_OP_MAX: i32 = 5;

pub const D3D12_BLEND_OP_MIN: i32 = 4;

pub const D3D12_BLEND_OP_REV_SUBTRACT: i32 = 3;

pub const D3D12_BLEND_OP_SUBTRACT: i32 = 2;

pub const D3D12_BLEND_SRC1_ALPHA: i32 = 18;

pub const D3D12_BLEND_SRC1_COLOR: i32 = 16;

pub const D3D12_BLEND_SRC_ALPHA: i32 = 5;

pub const D3D12_BLEND_SRC_ALPHA_SAT: i32 = 11;

pub const D3D12_BLEND_SRC_COLOR: i32 = 3;

pub const D3D12_FILTER_COMPARISON_ANISOTROPIC: i32 = 213;

pub const D3D12_FILTER_COMPARISON_MIN_LINEAR_MAG_MIP_POINT: i32 = 144;

pub const D3D12_FILTER_COMPARISON_MIN_LINEAR_MAG_POINT_MIP_LINEAR: i32 = 145;

pub const D3D12_FILTER_COMPARISON_MIN_MAG_ANISOTROPIC_MIP_POINT: i32 = 212;

pub const D3D12_FILTER_COMPARISON_MIN_MAG_LINEAR_MIP_POINT: i32 = 148;

pub const D3D12_FILTER_COMPARISON_MIN_MAG_MIP_LINEAR: i32 = 149;

pub const D3D12_FILTER_COMPARISON_MIN_MAG_MIP_POINT: i32 = 128;

pub const D3D12_FILTER_COMPARISON_MIN_MAG_POINT_MIP_LINEAR: i32 = 129;

pub const D3D12_FILTER_COMPARISON_MIN_POINT_MAG_LINEAR_MIP_POINT: i32 = 132;

pub const D3D12_FILTER_COMPARISON_MIN_POINT_MAG_MIP_LINEAR: i32 = 133;

pub const D3D12_FILTER_MAXIMUM_ANISOTROPIC: i32 = 469;

pub const D3D12_FILTER_MAXIMUM_MIN_LINEAR_MAG_MIP_POINT: i32 = 400;

pub const D3D12_FILTER_MAXIMUM_MIN_LINEAR_MAG_POINT_MIP_LINEAR: i32 = 401;

pub const D3D12_FILTER_MAXIMUM_MIN_MAG_ANISOTROPIC_MIP_POINT: i32 = 468;

pub const D3D12_FILTER_MAXIMUM_MIN_MAG_LINEAR_MIP_POINT: i32 = 404;

pub const D3D12_FILTER_MAXIMUM_MIN_MAG_MIP_LINEAR: i32 = 405;

pub const D3D12_FILTER_MAXIMUM_MIN_MAG_MIP_POINT: i32 = 384;

pub const D3D12_FILTER_MAXIMUM_MIN_MAG_POINT_MIP_LINEAR: i32 = 385;

pub const D3D12_FILTER_MAXIMUM_MIN_POINT_MAG_LINEAR_MIP_POINT: i32 = 388;

pub const D3D12_FILTER_MAXIMUM_MIN_POINT_MAG_MIP_LINEAR: i32 = 389;

pub const D3D12_FILTER_MINIMUM_ANISOTROPIC: i32 = 341;

pub const D3D12_FILTER_MINIMUM_MIN_LINEAR_MAG_MIP_POINT: i32 = 272;

pub const D3D12_FILTER_MINIMUM_MIN_LINEAR_MAG_POINT_MIP_LINEAR: i32 = 273;

pub const D3D12_FILTER_MINIMUM_MIN_MAG_ANISOTROPIC_MIP_POINT: i32 = 340;

pub const D3D12_FILTER_MINIMUM_MIN_MAG_LINEAR_MIP_POINT: i32 = 276;

pub const D3D12_FILTER_MINIMUM_MIN_MAG_MIP_LINEAR: i32 = 277;

pub const D3D12_FILTER_MINIMUM_MIN_MAG_MIP_POINT: i32 = 256;

pub const D3D12_FILTER_MINIMUM_MIN_MAG_POINT_MIP_LINEAR: i32 = 257;

pub const D3D12_FILTER_MINIMUM_MIN_POINT_MAG_LINEAR_MIP_POINT: i32 = 260;

pub const D3D12_FILTER_MINIMUM_MIN_POINT_MAG_MIP_LINEAR: i32 = 261;

pub const D3D12_FILTER_MIN_LINEAR_MAG_MIP_POINT: i32 = 16;

pub const D3D12_FILTER_MIN_LINEAR_MAG_POINT_MIP_LINEAR: i32 = 17;

pub const D3D12_FILTER_MIN_MAG_ANISOTROPIC_MIP_POINT: i32 = 84;

pub const D3D12_FILTER_MIN_MAG_LINEAR_MIP_POINT: i32 = 20;

pub const D3D12_FILTER_MIN_MAG_MIP_LINEAR: i32 = 21;

pub const D3D12_FILTER_MIN_MAG_MIP_POINT: i32 = 0;

pub const D3D12_FILTER_MIN_MAG_POINT_MIP_LINEAR: i32 = 1;

pub const D3D12_FILTER_MIN_POINT_MAG_LINEAR_MIP_POINT: i32 = 4;

pub const D3D12_FILTER_MIN_POINT_MAG_MIP_LINEAR: i32 = 5;

pub const D3D12_FILTER_REDUCTION_TYPE_COMPARISON: i32 = 1;

pub const D3D12_FILTER_REDUCTION_TYPE_MASK: u32 = 3;

pub const D3D12_FILTER_REDUCTION_TYPE_MAXIMUM: i32 = 3;

pub const D3D12_FILTER_REDUCTION_TYPE_MINIMUM: i32 = 2;

pub const D3D12_FILTER_REDUCTION_TYPE_SHIFT: u32 = 7;

pub const D3D12_FILTER_REDUCTION_TYPE_STANDARD: i32 = 0;

pub const D3D12_FILTER_TYPE_LINEAR: i32 = 1;

pub const D3D12_FILTER_TYPE_MASK: u32 = 3;

pub const D3D12_FILTER_TYPE_POINT: i32 = 0;

pub const D3D12_TEXTURE_ADDRESS_MODE_BORDER: i32 = 4;

pub const D3D12_TEXTURE_ADDRESS_MODE_CLAMP: i32 = 3;

pub const D3D12_TEXTURE_ADDRESS_MODE_MIRROR: i32 = 2;

pub const D3D12_TEXTURE_ADDRESS_MODE_MIRROR_ONCE: i32 = 5;

pub const D3D12_STATE_OBJECT_TYPE_EXECUTABLE: i32 = 4;

pub const D3D12_HIT_GROUP_TYPE_PROCEDURAL_PRIMITIVE: i32 = 1;

pub const D3D12_RAYTRACING_ACCELERATION_STRUCTURE_BUILD_FLAG_ALLOW_COMPACTION: i32 = 2;

pub const D3D12_RAYTRACING_ACCELERATION_STRUCTURE_BUILD_FLAG_ALLOW_UPDATE: i32 = 1;

pub const D3D12_RAYTRACING_ACCELERATION_STRUCTURE_BUILD_FLAG_MINIMIZE_MEMORY: i32 = 16;

pub const D3D12_RAYTRACING_ACCELERATION_STRUCTURE_BUILD_FLAG_PERFORM_UPDATE: i32 = 32;

pub const D3D12_RAYTRACING_ACCELERATION_STRUCTURE_BUILD_FLAG_PREFER_FAST_BUILD: i32 = 8;

pub const D3D12_RAYTRACING_ACCELERATION_STRUCTURE_BUILD_FLAG_PREFER_FAST_TRACE: i32 = 4;

pub const D3D12_RAYTRACING_GEOMETRY_FLAG_NO_DUPLICATE_ANYHIT_INVOCATION: i32 = 2;

pub const D3D12_RAYTRACING_GEOMETRY_FLAG_OPAQUE: i32 = 1;

pub const D3D12_RAYTRACING_INSTANCE_FLAG_FORCE_NON_OPAQUE: i32 = 8;

pub const D3D12_RAYTRACING_INSTANCE_FLAG_FORCE_OPAQUE: i32 = 4;

pub const D3D12_RAYTRACING_INSTANCE_FLAG_NONE: i32 = 0;

pub const D3D12_RAYTRACING_INSTANCE_FLAG_TRIANGLE_CULL_DISABLE: i32 = 1;

pub const D3D12_RAYTRACING_INSTANCE_FLAG_TRIANGLE_FRONT_COUNTERCLOCKWISE: i32 = 2;

pub const D3D12_INPUT_CLASSIFICATION_PER_INSTANCE_DATA: i32 = 1;

pub const D3D12_COMMAND_QUEUE_FLAG_DISABLE_GPU_TIMEOUT: i32 = 1;

pub const D3D12_COMMAND_QUEUE_PRIORITY_GLOBAL_REALTIME: i32 = 10000;

pub const D3D12_COMMAND_QUEUE_PRIORITY_HIGH: i32 = 100;

pub const D3D12_COMMAND_QUEUE_PRIORITY_NORMAL: i32 = 0;

pub const D3D12_FENCE_FLAG_NON_MONITORED: i32 = 4;

pub const D3D12_FENCE_FLAG_SHARED: i32 = 1;

pub const D3D12_FENCE_FLAG_SHARED_CROSS_ADAPTER: i32 = 2;

pub const D3D12_RESOURCE_BARRIER_FLAG_BEGIN_ONLY: i32 = 1;

pub const D3D12_RESOURCE_BARRIER_FLAG_END_ONLY: i32 = 2;

pub const D3D12_TEXTURE_LAYOUT_64KB_STANDARD_SWIZZLE: i32 = 3;

pub const D3D12_TEXTURE_LAYOUT_64KB_UNDEFINED_SWIZZLE: i32 = 2;

pub const D3D12_DSV_FLAG_READ_ONLY_DEPTH: i32 = 1;

pub const D3D12_DSV_FLAG_READ_ONLY_STENCIL: i32 = 2;

pub const D3D12_BUFFER_SRV_FLAG_RAW: i32 = 1;

pub const D3D12_BUFFER_UAV_FLAG_RAW: i32 = 1;

pub const D3D12_RESOURCE_BARRIER_ALL_SUBRESOURCES: u32 = 4294967295;

pub const D3D12_STATE_OBJECT_FLAG_ALLOW_EXTERNAL_DEPENDENCIES_ON_LOCAL_DEFINITIONS: i32 = 2;

pub const D3D12_STATE_OBJECT_FLAG_ALLOW_LOCAL_DEPENDENCIES_ON_EXTERNAL_DEFINITIONS: i32 = 1;

pub const D3D12_STATE_OBJECT_FLAG_ALLOW_STATE_OBJECT_ADDITIONS: i32 = 4;

pub const D3D12_STATE_OBJECT_FLAG_NONE: i32 = 0;

pub const D3D12_RAYTRACING_PIPELINE_FLAG_SKIP_PROCEDURAL_PRIMITIVES: i32 = 512;

pub const D3D12_RAYTRACING_PIPELINE_FLAG_SKIP_TRIANGLES: i32 = 256;

pub const D3D12_PIPELINE_STATE_FLAG_DYNAMIC_DEPTH_BIAS: i32 = 4;

pub const D3D12_PIPELINE_STATE_FLAG_DYNAMIC_INDEX_BUFFER_STRIP_CUT: i32 = 8;

pub const D3D12_PIPELINE_STATE_FLAG_TOOL_DEBUG: i32 = 1;

pub const D3D12_SHADER_IDENTIFIER_SIZE_IN_BYTES: u32 = 32;

pub const D3D12_RAYTRACING_SHADER_RECORD_BYTE_ALIGNMENT: u32 = 32;

pub const D3D12_RAYTRACING_SHADER_TABLE_BYTE_ALIGNMENT: u32 = 64;

} // verus!
