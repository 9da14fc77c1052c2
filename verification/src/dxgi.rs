use vstd::prelude::*;

verus! {

// Values of the DXGI constants that the library hands to the native layer.

pub const DXGI_ERROR_NOT_FOUND: i32 = -2005270526;

pub const DXGI_FORMAT_UNKNOWN: i32 = 0;

pub const DXGI_FORMAT_D16_UNORM: i32 = 55;

pub const DXGI_FORMAT_D32_FLOAT: i32 = 40;

pub const DXGI_FORMAT_D24_UNORM_S8_UINT: i32 = 45;

pub const DXGI_FORMAT_D32_FLOAT_S8X24_UINT: i32 = 20;

pub const DXGI_SCALING_STRETCH: i32 = 0;

pub const DXGI_SWAP_EFFECT_DISCARD: i32 = 0;

pub const DXGI_ALPHA_MODE_UNSPECIFIED: i32 = 0;

pub const DXGI_FORMAT_R8G8B8A8_UNORM: i32 = 28;

pub const DXGI_SWAP_EFFECT_FLIP_DISCARD: i32 = 4;

pub const DXGI_USAGE_RENDER_TARGET_OUTPUT: u32 = 32;

pub const DXGI_FORMAT_420_OPAQUE: i32 = 106;

pub const DXGI_FORMAT_A4B4G4R4_UNORM: i32 = 191;

pub const DXGI_FORMAT_A8P8: i32 = 114;

pub const DXGI_FORMAT_A8_UNORM: i32 = 65;

pub const DXGI_FORMAT_AI44: i32 = 111;

pub const DXGI_FORMAT_AYUV: i32 = 100;

pub const DXGI_FORMAT_B4G4R4A4_UNORM: i32 = 115;

pub const DXGI_FORMAT_B5G5R5A1_UNORM: i32 = 86;

pub const DXGI_FORMAT_B5G6R5_UNORM: i32 = 85;

pub const DXGI_FORMAT_B8G8R8A8_TYPELESS: i32 = 90;

pub const DXGI_FORMAT_B8G8R8A8_UNORM: i32 = 87;

pub const DXGI_FORMAT_B8G8R8A8_UNORM_SRGB: i32 = 91;

pub const DXGI_FORMAT_B8G8R8X8_TYPELESS: i32 = 92;

pub const DXGI_FORMAT_B8G8R8X8_UNORM: i32 = 88;

pub const DXGI_FORMAT_B8G8R8X8_UNORM_SRGB: i32 = 93;

pub const DXGI_FORMAT_BC1_TYPELESS: i32 = 70;

pub const DXGI_FORMAT_BC1_UNORM: i32 = 71;

pub const DXGI_FORMAT_BC1_UNORM_SRGB: i32 = 72;

pub const DXGI_FORMAT_BC2_TYPELESS: i32 = 73;

pub const DXGI_FORMAT_BC2_UNORM: i32 = 74;

pub const DXGI_FORMAT_BC2_UNORM_SRGB: i32 = 75;

pub const DXGI_FORMAT_BC3_TYPELESS: i32 = 76;

pub const DXGI_FORMAT_BC3_UNORM: i32 = 77;

pub const DXGI_FORMAT_BC3_UNORM_SRGB: i32 = 78;

pub const DXGI_FORMAT_BC4_SNORM: i32 = 81;

pub const DXGI_FORMAT_BC4_TYPELESS: i32 = 79;

pub const DXGI_FORMAT_BC4_UNORM: i32 = 80;

pub const DXGI_FORMAT_BC5_SNORM: i32 = 84;

pub const DXGI_FORMAT_BC5_TYPELESS: i32 = 82;

pub const DXGI_FORMAT_BC5_UNORM: i32 = 83;

pub const DXGI_FORMAT_BC6H_SF16: i32 = 96;

pub const DXGI_FORMAT_BC6H_TYPELESS: i32 = 94;

pub const DXGI_FORMAT_BC6H_UF16: i32 = 95;

pub const DXGI_FORMAT_BC7_TYPELESS: i32 = 97;

pub const DXGI_FORMAT_BC7_UNORM: i32 = 98;

pub const DXGI_FORMAT_BC7_UNORM_SRGB: i32 = 99;

pub const DXGI_FORMAT_DEFINED: u32 = 1;

pub const DXGI_FORMAT_G8R8_G8B8_UNORM: i32 = 69;

pub const DXGI_FORMAT_IA44: i32 = 112;

pub const DXGI_FORMAT_NV11: i32 = 110;

pub const DXGI_FORMAT_NV12: i32 = 103;

pub const DXGI_FORMAT_P010: i32 = 104;

pub const DXGI_FORMAT_P016: i32 = 105;

pub const DXGI_FORMAT_P208: i32 = 130;

pub const DXGI_FORMAT_P8: i32 = 113;

pub const DXGI_FORMAT_R10G10B10A2_TYPELESS: i32 = 23;

pub const DXGI_FORMAT_R10G10B10A2_UINT: i32 = 25;

pub const DXGI_FORMAT_R10G10B10A2_UNORM: i32 = 24;

pub const DXGI_FORMAT_R10G10B10_XR_BIAS_A2_UNORM: i32 = 89;

pub const DXGI_FORMAT_R11G11B10_FLOAT: i32 = 26;

pub const DXGI_FORMAT_R16G16B16A16_FLOAT: i32 = 10;

pub const DXGI_FORMAT_R16G16B16A16_SINT: i32 = 14;

pub const DXGI_FORMAT_R16G16B16A16_SNORM: i32 = 13;

pub const DXGI_FORMAT_R16G16B16A16_TYPELESS: i32 = 9;

pub const DXGI_FORMAT_R16G16B16A16_UINT: i32 = 12;

pub const DXGI_FORMAT_R16G16B16A16_UNORM: i32 = 11;

pub const DXGI_FORMAT_R16G16_FLOAT: i32 = 34;

pub const DXGI_FORMAT_R16G16_SINT: i32 = 38;

pub const DXGI_FORMAT_R16G16_SNORM: i32 = 37;

pub const DXGI_FORMAT_R16G16_TYPELESS: i32 = 33;

pub const DXGI_FORMAT_R16G16_UINT: i32 = 36;

pub const DXGI_FORMAT_R16G16_UNORM: i32 = 35;

pub const DXGI_FORMAT_R16_FLOAT: i32 = 54;

pub const DXGI_FORMAT_R16_SINT: i32 = 59;

pub const DXGI_FORMAT_R16_SNORM: i32 = 58;

pub const DXGI_FORMAT_R16_TYPELESS: i32 = 53;

pub const DXGI_FORMAT_R16_UINT: i32 = 57;

pub const DXGI_FORMAT_R16_UNORM: i32 = 56;

pub const DXGI_FORMAT_R1_UNORM: i32 = 66;

pub const DXGI_FORMAT_R24G8_TYPELESS: i32 = 44;

pub const DXGI_FORMAT_R24_UNORM_X8_TYPELESS: i32 = 46;

pub const DXGI_FORMAT_R32G32B32A32_FLOAT: i32 = 2;

pub const DXGI_FORMAT_R32G32B32A32_SINT: i32 = 4;

pub const DXGI_FORMAT_R32G32B32A32_TYPELESS: i32 = 1;

pub const DXGI_FORMAT_R32G32B32A32_UINT: i32 = 3;

pub const DXGI_FORMAT_R32G32B32_FLOAT: i32 = 6;

pub const DXGI_FORMAT_R32G32B32_SINT: i32 = 8;

pub const DXGI_FORMAT_R32G32B32_TYPELESS: i32 = 5;

pub const DXGI_FORMAT_R32G32B32_UINT: i32 = 7;

pub const DXGI_FORMAT_R32G32_FLOAT: i32 = 16;

pub const DXGI_FORMAT_R32G32_SINT: i32 = 18;

pub const DXGI_FORMAT_R32G32_TYPELESS: i32 = 15;

pub const DXGI_FORMAT_R32G32_UINT: i32 = 17;

pub const DXGI_FORMAT_R32G8X24_TYPELESS: i32 = 19;

pub const DXGI_FORMAT_R32_FLOAT: i32 = 41;

pub const DXGI_FORMAT_R32_FLOAT_X8X24_TYPELESS: i32 = 21;

pub const DXGI_FORMAT_R32_SINT: i32 = 43;

pub const DXGI_FORMAT_R32_TYPELESS: i32 = 39;

pub const DXGI_FORMAT_R32_UINT: i32 = 42;

pub const DXGI_FORMAT_R8G8B8A8_SINT: i32 = 32;

pub const DXGI_FORMAT_R8G8B8A8_SNORM: i32 = 31;

pub const DXGI_FORMAT_R8G8B8A8_TYPELESS: i32 = 27;

pub const DXGI_FORMAT_R8G8B8A8_UINT: i32 = 30;

pub const DXGI_FORMAT_R8G8B8A8_UNORM_SRGB: i32 = 29;

pub const DXGI_FORMAT_R8G8_B8G8_UNORM: i32 = 68;

pub const DXGI_FORMAT_R8G8_SINT: i32 = 52;

pub const DXGI_FORMAT_R8G8_SNORM: i32 = 51;

pub const DXGI_FORMAT_R8G8_TYPELESS: i32 = 48;

pub const DXGI_FORMAT_R8G8_UINT: i32 = 50;

pub const DXGI_FORMAT_R8G8_UNORM: i32 = 49;

pub const DXGI_FORMAT_R8_SINT: i32 = 64;

pub const DXGI_FORMAT_R8_SNORM: i32 = 63;

pub const DXGI_FORMAT_R8_TYPELESS: i32 = 60;

pub const DXGI_FORMAT_R8_UINT: i32 = 62;

pub const DXGI_FORMAT_R8_UNORM: i32 = 61;

pub const DXGI_FORMAT_R9G9B9E5_SHAREDEXP: i32 = 67;

pub const DXGI_FORMAT_SAMPLER_FEEDBACK_MIN_MIP_OPAQUE: i32 = 189;

pub const DXGI_FORMAT_SAMPLER_FEEDBACK_MIP_REGION_USED_OPAQUE: i32 = 190;

pub const DXGI_FORMAT_V208: i32 = 131;

pub const DXGI_FORMAT_V408: i32 = 132;

pub const DXGI_FORMAT_X24_TYPELESS_G8_UINT: i32 = 47;

pub const DXGI_FORMAT_X32_TYPELESS_G8X24_UINT: i32 = 22;

pub const DXGI_FORMAT_Y210: i32 = 108;

pub const DXGI_FORMAT_Y216: i32 = 109;

pub const DXGI_FORMAT_Y410: i32 = 101;

pub const DXGI_FORMAT_Y416: i32 = 102;

pub const DXGI_FORMAT_YUY2: i32 = 107;

pub const DXGI_SWAP_EFFECT_FLIP_SEQUENTIAL: i32 = 3;

pub const DXGI_SWAP_EFFECT_SEQUENTIAL: i32 = 1;

pub const DXGI_USAGE_BACK_BUFFER: u32 = 64;

pub const DXGI_USAGE_DISCARD_ON_PRESENT: u32 = 512;

pub const DXGI_USAGE_READ_ONLY: u32 = 256;

pub const DXGI_USAGE_SHADER_INPUT: u32 = 16;

pub const DXGI_USAGE_SHARED: u32 = 128;

pub const DXGI_USAGE_UNORDERED_ACCESS: u32 = 1024;

pub const DXGI_SCALING_ASPECT_RATIO_STRETCH: i32 = 2;

pub const DXGI_SCALING_NONE: i32 = 1;

pub const DXGI_ALPHA_MODE_IGNORE: i32 = 3;

pub const DXGI_ALPHA_MODE_PREMULTIPLIED: i32 = 1;

pub const DXGI_ALPHA_MODE_STRAIGHT: i32 = 2;

pub const DXGI_SWAP_CHAIN_FLAG_ALLOW_MODE_SWITCH: i32 = 2;

pub const DXGI_SWAP_CHAIN_FLAG_ALLOW_TEARING: i32 = 2048;

pub const DXGI_SWAP_CHAIN_FLAG_DISPLAY_ONLY: i32 = 32;

pub const DXGI_SWAP_CHAIN_FLAG_FOREGROUND_LAYER: i32 = 128;

pub const DXGI_SWAP_CHAIN_FLAG_FRAME_LATENCY_WAITABLE_OBJECT: i32 = 64;

pub const DXGI_SWAP_CHAIN_FLAG_FULLSCREEN_VIDEO: i32 = 256;

pub const DXGI_SWAP_CHAIN_FLAG_GDI_COMPATIBLE: i32 = 4;

pub const DXGI_SWAP_CHAIN_FLAG_HW_PROTECTED: i32 = 1024;

pub const DXGI_SWAP_CHAIN_FLAG_NONPREROTATED: i32 = 1;

pub const DXGI_SWAP_CHAIN_FLAG_RESTRICTED_CONTENT: i32 = 8;

pub const DXGI_SWAP_CHAIN_FLAG_RESTRICTED_TO_ALL_HOLOGRAPHIC_DISPLAYS: i32 = 4096;

pub const DXGI_SWAP_CHAIN_FLAG_RESTRICT_SHARED_RESOURCE_DRIVER: i32 = 16;

pub const DXGI_SWAP_CHAIN_FLAG_YUV_VIDEO: i32 = 512;

pub const DXGI_PRESENT_ALLOW_TEARING: u32 = 512;

pub const DXGI_PRESENT_DO_NOT_SEQUENCE: u32 = 2;

pub const DXGI_PRESENT_DO_NOT_WAIT: u32 = 8;

pub const DXGI_PRESENT_RESTART: u32 = 4;

pub const DXGI_PRESENT_RESTRICT_TO_OUTPUT: u32 = 64;

pub const DXGI_PRESENT_STEREO_PREFER_RIGHT: u32 = 16;

pub const DXGI_PRESENT_STEREO_TEMPORARY_MONO: u32 = 32;

pub const DXGI_PRESENT_TEST: u32 = 1;

pub const DXGI_PRESENT_USE_DURATION: u32 = 256;

} // verus!
