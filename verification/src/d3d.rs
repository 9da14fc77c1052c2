use vstd::prelude::*;

verus! {

// Values of the Direct3D constants that the library reads or hands to the native layer.

pub const DXC_CP_ACP: u32 = 0;

pub const DXC_CP_UTF16: u32 = 1200;

pub const DXC_CP_UTF8: u32 = 65001;

pub const DXC_OUT_OBJECT: i32 = 1;

pub const DXC_OUT_ERRORS: i32 = 2;

pub const DXC_OUT_PDB: i32 = 3;

pub const DXC_OUT_SHADER_HASH: i32 = 4;

pub const DXC_OUT_DISASSEMBLY: i32 = 5;

pub const DXC_OUT_HLSL: i32 = 6;

pub const DXC_OUT_TEXT: i32 = 7;

pub const DXC_OUT_REFLECTION: i32 = 8;

pub const DXC_OUT_ROOT_SIGNATURE: i32 = 9;

pub const D3D_SVC_MATRIX_COLUMNS: i32 = 3;

pub const D3D_SVC_MATRIX_ROWS: i32 = 2;

pub const D3D_SVC_SCALAR: i32 = 0;

pub const D3D_SVC_STRUCT: i32 = 5;

pub const D3D_SVC_VECTOR: i32 = 1;

pub const D3D_SVT_BOOL: i32 = 1;

pub const D3D_SVT_FLOAT: i32 = 3;

pub const D3D_SVT_INT: i32 = 2;

pub const D3D_SVT_MIN10FLOAT: i32 = 53;

pub const D3D_SVT_MIN12INT: i32 = 55;

pub const D3D_SVT_MIN16INT: i32 = 56;

pub const D3D_SVT_MIN16UINT: i32 = 57;

pub const D3D_SVT_MIN8FLOAT: i32 = 52;

pub const D3D_SVT_STRING: i32 = 4;

pub const D3D_SVT_UINT: i32 = 19;

pub const D3D_SVT_VOID: i32 = 0;

pub const D3D_FEATURE_LEVEL_12_0: i32 = 49152;

pub const D3D_FEATURE_LEVEL_12_1: i32 = 49408;

pub const D3D_FEATURE_LEVEL_10_0: i32 = 40960;

pub const D3D_FEATURE_LEVEL_10_1: i32 = 41216;

pub const D3D_FEATURE_LEVEL_11_0: i32 = 45056;

pub const D3D_FEATURE_LEVEL_11_1: i32 = 45312;

pub const D3D_FEATURE_LEVEL_12_2: i32 = 49664;

pub const D3D_FEATURE_LEVEL_1_0_CORE: i32 = 4096;

pub const D3D_FEATURE_LEVEL_1_0_GENERIC: i32 = 256;

pub const D3D_FEATURE_LEVEL_9_1: i32 = 37120;

pub const D3D_FEATURE_LEVEL_9_2: i32 = 37376;

pub const D3D_FEATURE_LEVEL_9_3: i32 = 37632;

pub const D3D_PRIMITIVE_TOPOLOGY_10_CONTROL_POINT_PATCHLIST: i32 = 42;

pub const D3D_PRIMITIVE_TOPOLOGY_11_CONTROL_POINT_PATCHLIST: i32 = 43;

pub const D3D_PRIMITIVE_TOPOLOGY_12_CONTROL_POINT_PATCHLIST: i32 = 44;

pub const D3D_PRIMITIVE_TOPOLOGY_13_CONTROL_POINT_PATCHLIST: i32 = 45;

pub const D3D_PRIMITIVE_TOPOLOGY_14_CONTROL_POINT_PATCHLIST: i32 = 46;

pub const D3D_PRIMITIVE_TOPOLOGY_15_CONTROL_POINT_PATCHLIST: i32 = 47;

pub const D3D_PRIMITIVE_TOPOLOGY_16_CONTROL_POINT_PATCHLIST: i32 = 48;

pub const D3D_PRIMITIVE_TOPOLOGY_17_CONTROL_POINT_PATCHLIST: i32 = 49;

pub const D3D_PRIMITIVE_TOPOLOGY_18_CONTROL_POINT_PATCHLIST: i32 = 50;

pub const D3D_PRIMITIVE_TOPOLOGY_19_CONTROL_POINT_PATCHLIST: i32 = 51;

pub const D3D_PRIMITIVE_TOPOLOGY_1_CONTROL_POINT_PATCHLIST: i32 = 33;

pub const D3D_PRIMITIVE_TOPOLOGY_20_CONTROL_POINT_PATCHLIST: i32 = 52;

pub const D3D_PRIMITIVE_TOPOLOGY_21_CONTROL_POINT_PATCHLIST: i32 = 53;

pub const D3D_PRIMITIVE_TOPOLOGY_22_CONTROL_POINT_PATCHLIST: i32 = 54;

pub const D3D_PRIMITIVE_TOPOLOGY_23_CONTROL_POINT_PATCHLIST: i32 = 55;

pub const D3D_PRIMITIVE_TOPOLOGY_24_CONTROL_POINT_PATCHLIST: i32 = 56;

pub const D3D_PRIMITIVE_TOPOLOGY_25_CONTROL_POINT_PATCHLIST: i32 = 57;

pub const D3D_PRIMITIVE_TOPOLOGY_26_CONTROL_POINT_PATCHLIST: i32 = 58;

pub const D3D_PRIMITIVE_TOPOLOGY_27_CONTROL_POINT_PATCHLIST: i32 = 59;

pub const D3D_PRIMITIVE_TOPOLOGY_28_CONTROL_POINT_PATCHLIST: i32 = 60;

pub const D3D_PRIMITIVE_TOPOLOGY_29_CONTROL_POINT_PATCHLIST: i32 = 61;

pub const D3D_PRIMITIVE_TOPOLOGY_2_CONTROL_POINT_PATCHLIST: i32 = 34;

pub const D3D_PRIMITIVE_TOPOLOGY_30_CONTROL_POINT_PATCHLIST: i32 = 62;

pub const D3D_PRIMITIVE_TOPOLOGY_31_CONTROL_POINT_PATCHLIST: i32 = 63;

pub const D3D_PRIMITIVE_TOPOLOGY_32_CONTROL_POINT_PATCHLIST: i32 = 64;

pub const D3D_PRIMITIVE_TOPOLOGY_3_CONTROL_POINT_PATCHLIST: i32 = 35;

pub const D3D_PRIMITIVE_TOPOLOGY_4_CONTROL_POINT_PATCHLIST: i32 = 36;

pub const D3D_PRIMITIVE_TOPOLOGY_5_CONTROL_POINT_PATCHLIST: i32 = 37;

pub const D3D_PRIMITIVE_TOPOLOGY_6_CONTROL_POINT_PATCHLIST: i32 = 38;

pub const D3D_PRIMITIVE_TOPOLOGY_7_CONTROL_POINT_PATCHLIST: i32 = 39;

pub const D3D_PRIMITIVE_TOPOLOGY_8_CONTROL_POINT_PATCHLIST: i32 = 40;

pub const D3D_PRIMITIVE_TOPOLOGY_9_CONTROL_POINT_PATCHLIST: i32 = 41;

pub const D3D_PRIMITIVE_TOPOLOGY_LINELIST: i32 = 2;

pub const D3D_PRIMITIVE_TOPOLOGY_LINELIST_ADJ: i32 = 10;

pub const D3D_PRIMITIVE_TOPOLOGY_LINESTRIP: i32 = 3;

pub const D3D_PRIMITIVE_TOPOLOGY_LINESTRIP_ADJ: i32 = 11;

pub const D3D_PRIMITIVE_TOPOLOGY_POINTLIST: i32 = 1;

pub const D3D_PRIMITIVE_TOPOLOGY_TRIANGLEFAN: i32 = 6;

pub const D3D_PRIMITIVE_TOPOLOGY_TRIANGLELIST: i32 = 4;

pub const D3D_PRIMITIVE_TOPOLOGY_TRIANGLELIST_ADJ: i32 = 12;

pub const D3D_PRIMITIVE_TOPOLOGY_TRIANGLESTRIP: i32 = 5;

pub const D3D_PRIMITIVE_TOPOLOGY_TRIANGLESTRIP_ADJ: i32 = 13;

pub const D3D_PRIMITIVE_TOPOLOGY_UNDEFINED: i32 = 0;

} // verus!
