//! The numeric identifiers of the named pixel formats.
//!
//! An identifier crosses into the native pixel subsystem as it is, so each
//! value here is the one that subsystem assigns to the format of that name.

use vstd::prelude::*;

verus! {

pub const UNKNOWN: i32 = 0;

pub const INDEX1LSB: i32 = 0x11100100;

pub const INDEX1MSB: i32 = 0x11200100;

pub const INDEX4LSB: i32 = 0x12100400;

pub const INDEX4MSB: i32 = 0x12200400;

pub const INDEX8: i32 = 0x13000801;

pub const RGB332: i32 = 0x14110801;

pub const XRGB4444: i32 = 0x15120c02;

pub const XBGR4444: i32 = 0x15520c02;

pub const XRGB1555: i32 = 0x15130f02;

pub const XBGR1555: i32 = 0x15530f02;

pub const ARGB4444: i32 = 0x15321002;

pub const RGBA4444: i32 = 0x15421002;

pub const ABGR4444: i32 = 0x15721002;

pub const BGRA4444: i32 = 0x15821002;

pub const ARGB1555: i32 = 0x15331002;

pub const RGBA5551: i32 = 0x15441002;

pub const ABGR1555: i32 = 0x15731002;

pub const BGRA5551: i32 = 0x15841002;

pub const RGB565: i32 = 0x15151002;

pub const BGR565: i32 = 0x15551002;

pub const RGB24: i32 = 0x17101803;

pub const BGR24: i32 = 0x17401803;

pub const XRGB8888: i32 = 0x16161804;

pub const RGBX8888: i32 = 0x16261804;

pub const XBGR8888: i32 = 0x16561804;

pub const BGRX8888: i32 = 0x16661804;

pub const ARGB8888: i32 = 0x16362004;

pub const RGBA8888: i32 = 0x16462004;

pub const ABGR8888: i32 = 0x16762004;

pub const BGRA8888: i32 = 0x16862004;

pub const ARGB2101010: i32 = 0x16372004;

pub const YV12: i32 = 0x32315659;

pub const IYUV: i32 = 0x56555949;

pub const YUY2: i32 = 0x32595559;

pub const UYVY: i32 = 0x59565955;

pub const YVYU: i32 = 0x55595659;

} // verus!
