//! The bundled default font.
//!
//! Glyphs `0x00..=0x7F` are ASCII, `0x80..=0x9F` are the box-drawing characters from `U+2500` on,
//! and `0xA0..=0xFF` are Latin-1, all in the shapes of the public-domain `font8x8` set.

use vstd::prelude::*;

verus! {

/// One entry per glyph, one byte per row from the top, the leftmost column in bit 0.
pub const DEFAULT_FONT: [[u8; 8]; 256] = [
    [0x00, 0x00, 0x00, 0x00, 0x00, 0x00, 0x00, 0x00],
    [0x00, 0x00, 0x00, 0x00, 0x00, 0x00, 0x00, 0x00],
    [0x00, 0x00, 0x00, 0x00, 0x00, 0x00, 0x00, 0x00],
    [0x00, 0x00, 0x00, 0x00, 0x00, 0x00, 0x00, 0x00],
    [0x00, 0x00, 0x00, 0x00, 0x00, 0x00, 0x00, 0x00],
    [0x00, 0x00, 0x00, 0x00, 0x00, 0x00, 0x00, 0x00],
    [0x00, 0x00, 0x00, 0x00, 0x00, 0x00, 0x00, 0x00],
    [0x00, 0x00, 0x00, 0x00, 0x00, 0x00, 0x00, 0x00],
    [0x00, 0x00, 0x00, 0x00, 0x00, 0x00, 0x00, 0x00],
    [0x00, 0x00, 0x00, 0x00, 0x00, 0x00, 0x00, 0x00],
    [0x00, 0x00, 0x00, 0x00, 0x00, 0x00, 0x00, 0x00],
    [0x00, 0x00, 0x00, 0x00, 0x00, 0x00, 0x00, 0x00],
    [0x00, 0x00, 0x00, 0x00, 0x00, 0x00, 0x00, 0x00],
    [0x00, 0x00, 0x00, 0x00, 0x00, 0x00, 0x00, 0x00],
    [0x00, 0x00, 0x00, 0x00, 0x00, 0x00, 0x00, 0x00],
    [0x00, 0x00, 0x00, 0x00, 0x00, 0x00, 0x00, 0x00],
    [0x00, 0x00, 0x00, 0x00, 0x00, 0x00, 0x00, 0x00],
    [0x00, 0x00, 0x00, 0x00, 0x00, 0x00, 0x00, 0x00],
    [0x00, 0x00, 0x00, 0x00, 0x00, 0x00, 0x00, 0x00],
    [0x00, 0x00, 0x00, 0x00, 0x00, 0x00, 0x00, 0x00],
    [0x00, 0x00, 0x00, 0x00, 0x00, 0x00, 0x00, 0x00],
    [0x00, 0x00, 0x00, 0x00, 0x00, 0x00, 0x00, 0x00],
    [0x00, 0x00, 0x00, 0x00, 0x00, 0x00, 0x00, 0x00],
    [0x00, 0x00, 0x00, 0x00, 0x00, 0x00, 0x00, 0x00],
    [0x00, 0x00, 0x00, 0x00, 0x00, 0x00, 0x00, 0x00],
    [0x00, 0x00, 0x00, 0x00, 0x00, 0x00, 0x00, 0x00],
    [0x00, 0x00, 0x00, 0x00, 0x00, 0x00, 0x00, 0x00],
    [0x00, 0x00, 0x00, 0x00, 0x00, 0x00, 0x00, 0x00],
    [0x00, 0x00, 0x00, 0x00, 0x00, 0x00, 0x00, 0x00],
    [0x00, 0x00, 0x00, 0x00, 0x00, 0x00, 0x00, 0x00],
    [0x00, 0x00, 0x00, 0x00, 0x00, 0x00, 0x00, 0x00],
    [0x00, 0x00, 0x00, 0x00, 0x00, 0x00, 0x00, 0x00],
    [0x00, 0x00, 0x00, 0x00, 0x00, 0x00, 0x00, 0x00],
    [0x18, 0x3c, 0x3c, 0x18, 0x18, 0x00, 0x18, 0x00],
    [0x36, 0x36, 0x00, 0x00, 0x00, 0x00, 0x00, 0x00],
    [0x36, 0x36, 0x7f, 0x36, 0x7f, 0x36, 0x36, 0x00],
    [0x0c, 0x3e, 0x03, 0x1e, 0x30, 0x1f, 0x0c, 0x00],
    [0x00, 0x63, 0x33, 0x18, 0x0c, 0x66, 0x63, 0x00],
    [0x1c, 0x36, 0x1c, 0x6e, 0x3b, 0x33, 0x6e, 0x00],
    [0x06, 0x06, 0x03, 0x00, 0x00, 0x00, 0x00, 0x00],
    [0x18, 0x0c, 0x06, 0x06, 0x06, 0x0c, 0x18, 0x00],
    [0x06, 0x0c, 0x18, 0x18, 0x18, 0x0c, 0x06, 0x00],
    [0x00, 0x66, 0x3c, 0xff, 0x3c, 0x66, 0x00, 0x00],
    [0x00, 0x0c, 0x0c, 0x3f, 0x0c, 0x0c, 0x00, 0x00],
    [0x00, 0x00, 0x00, 0x00, 0x00, 0x0c, 0x0c, 0x06],
    [0x00, 0x00, 0x00, 0x3f, 0x00, 0x00, 0x00, 0x00],
    [0x00, 0x00, 0x00, 0x00, 0x00, 0x0c, 0x0c, 0x00],
    [0x60, 0x30, 0x18, 0x0c, 0x06, 0x03, 0x01, 0x00],
    [0x3e, 0x63, 0x73, 0x7b, 0x6f, 0x67, 0x3e, 0x00],
    [0x0c, 0x0e, 0x0c, 0x0c, 0x0c, 0x0c, 0x3f, 0x00],
    [0x1e, 0x33, 0x30, 0x1c, 0x06, 0x33, 0x3f, 0x00],
    [0x1e, 0x33, 0x30, 0x1c, 0x30, 0x33, 0x1e, 0x00],
    [0x38, 0x3c, 0x36, 0x33, 0x7f, 0x30, 0x78, 0x00],
    [0x3f, 0x03, 0x1f, 0x30, 0x30, 0x33, 0x1e, 0x00],
    [0x1c, 0x06, 0x03, 0x1f, 0x33, 0x33, 0x1e, 0x00],
    [0x3f, 0x33, 0x30, 0x18, 0x0c, 0x0c, 0x0c, 0x00],
    [0x1e, 0x33, 0x33, 0x1e, 0x33, 0x33, 0x1e, 0x00],
    [0x1e, 0x33, 0x33, 0x3e, 0x30, 0x18, 0x0e, 0x00],
    [0x00, 0x0c, 0x0c, 0x00, 0x00, 0x0c, 0x0c, 0x00],
    [0x00, 0x0c, 0x0c, 0x00, 0x00, 0x0c, 0x0c, 0x06],
    [0x18, 0x0c, 0x06, 0x03, 0x06, 0x0c, 0x18, 0x00],
    [0x00, 0x00, 0x3f, 0x00, 0x00, 0x3f, 0x00, 0x00],
    [0x06, 0x0c, 0x18, 0x30, 0x18, 0x0c, 0x06, 0x00],
    [0x1e, 0x33, 0x30, 0x18, 0x0c, 0x00, 0x0c, 0x00],
    [0x3e, 0x63, 0x7b, 0x7b, 0x7b, 0x03, 0x1e, 0x00],
    [0x0c, 0x1e, 0x33, 0x33, 0x3f, 0x33, 0x33, 0x00],
    [0x3f, 0x66, 0x66, 0x3e, 0x66, 0x66, 0x3f, 0x00],
    [0x3c, 0x66, 0x03, 0x03, 0x03, 0x66, 0x3c, 0x00],
    [0x1f, 0x36, 0x66, 0x66, 0x66, 0x36, 0x1f, 0x00],
    [0x7f, 0x46, 0x16, 0x1e, 0x16, 0x46, 0x7f, 0x00],
    [0x7f, 0x46, 0x16, 0x1e, 0x16, 0x06, 0x0f, 0x00],
    [0x3c, 0x66, 0x03, 0x03, 0x73, 0x66, 0x7c, 0x00],
    [0x33, 0x33, 0x33, 0x3f, 0x33, 0x33, 0x33, 0x00],
    [0x1e, 0x0c, 0x0c, 0x0c, 0x0c, 0x0c, 0x1e, 0x00],
    [0x78, 0x30, 0x30, 0x30, 0x33, 0x33, 0x1e, 0x00],
    [0x67, 0x66, 0x36, 0x1e, 0x36, 0x66, 0x67, 0x00],
    [0x0f, 0x06, 0x06, 0x06, 0x46, 0x66, 0x7f, 0x00],
    [0x63, 0x77, 0x7f, 0x7f, 0x6b, 0x63, 0x63, 0x00],
    [0x63, 0x67, 0x6f, 0x7b, 0x73, 0x63, 0x63, 0x00],
    [0x1c, 0x36, 0x63, 0x63, 0x63, 0x36, 0x1c, 0x00],
    [0x3f, 0x66, 0x66, 0x3e, 0x06, 0x06, 0x0f, 0x00],
    [0x1e, 0x33, 0x33, 0x33, 0x3b, 0x1e, 0x38, 0x00],
    [0x3f, 0x66, 0x66, 0x3e, 0x36, 0x66, 0x67, 0x00],
    [0x1e, 0x33, 0x07, 0x0e, 0x38, 0x33, 0x1e, 0x00],
    [0x3f, 0x2d, 0x0c, 0x0c, 0x0c, 0x0c, 0x1e, 0x00],
    [0x33, 0x33, 0x33, 0x33, 0x33, 0x33, 0x3f, 0x00],
    [0x33, 0x33, 0x33, 0x33, 0x33, 0x1e, 0x0c, 0x00],
    [0x63, 0x63, 0x63, 0x6b, 0x7f, 0x77, 0x63, 0x00],
    [0x63, 0x63, 0x36, 0x1c, 0x1c, 0x36, 0x63, 0x00],
    [0x33, 0x33, 0x33, 0x1e, 0x0c, 0x0c, 0x1e, 0x00],
    [0x7f, 0x63, 0x31, 0x18, 0x4c, 0x66, 0x7f, 0x00],
    [0x1e, 0x06, 0x06, 0x06, 0x06, 0x06, 0x1e, 0x00],
    [0x03, 0x06, 0x0c, 0x18, 0x30, 0x60, 0x40, 0x00],
    [0x1e, 0x18, 0x18, 0x18, 0x18, 0x18, 0x1e, 0x00],
    [0x08, 0x1c, 0x36, 0x63, 0x00, 0x00, 0x00, 0x00],
    [0x00, 0x00, 0x00, 0x00, 0x00, 0x00, 0x00, 0xff],
    [0x0c, 0x0c, 0x18, 0x00, 0x00, 0x00, 0x00, 0x00],
    [0x00, 0x00, 0x1e, 0x30, 0x3e, 0x33, 0x6e, 0x00],
    [0x07, 0x06, 0x06, 0x3e, 0x66, 0x66, 0x3b, 0x00],
    [0x00, 0x00, 0x1e, 0x33, 0x03, 0x33, 0x1e, 0x00],
    [0x38, 0x30, 0x30, 0x3e, 0x33, 0x33, 0x6e, 0x00],
    [0x00, 0x00, 0x1e, 0x33, 0x3f, 0x03, 0x1e, 0x00],
    [0x1c, 0x36, 0x06, 0x0f, 0x06, 0x06, 0x0f, 0x00],
    [0x00, 0x00, 0x6e, 0x33, 0x33, 0x3e, 0x30, 0x1f],
    [0x07, 0x06, 0x36, 0x6e, 0x66, 0x66, 0x67, 0x00],
    [0x0c, 0x00, 0x0e, 0x0c, 0x0c, 0x0c, 0x1e, 0x00],
    [0x30, 0x00, 0x30, 0x30, 0x30, 0x33, 0x33, 0x1e],
    [0x07, 0x06, 0x66, 0x36, 0x1e, 0x36, 0x67, 0x00],
    [0x0e, 0x0c, 0x0c, 0x0c, 0x0c, 0x0c, 0x1e, 0x00],
    [0x00, 0x00, 0x33, 0x7f, 0x7f, 0x6b, 0x63, 0x00],
    [0x00, 0x00, 0x1f, 0x33, 0x33, 0x33, 0x33, 0x00],
    [0x00, 0x00, 0x1e, 0x33, 0x33, 0x33, 0x1e, 0x00],
    [0x00, 0x00, 0x3b, 0x66, 0x66, 0x3e, 0x06, 0x0f],
    [0x00, 0x00, 0x6e, 0x33, 0x33, 0x3e, 0x30, 0x78],
    [0x00, 0x00, 0x3b, 0x6e, 0x66, 0x06, 0x0f, 0x00],
    [0x00, 0x00, 0x3e, 0x03, 0x1e, 0x30, 0x1f, 0x00],
    [0x08, 0x0c, 0x3e, 0x0c, 0x0c, 0x2c, 0x18, 0x00],
    [0x00, 0x00, 0x33, 0x33, 0x33, 0x33, 0x6e, 0x00],
    [0x00, 0x00, 0x33, 0x33, 0x33, 0x1e, 0x0c, 0x00],
    [0x00, 0x00, 0x63, 0x6b, 0x7f, 0x7f, 0x36, 0x00],
    [0x00, 0x00, 0x63, 0x36, 0x1c, 0x36, 0x63, 0x00],
    [0x00, 0x00, 0x33, 0x33, 0x33, 0x3e, 0x30, 0x1f],
    [0x00, 0x00, 0x3f, 0x19, 0x0c, 0x26, 0x3f, 0x00],
    [0x38, 0x0c, 0x0c, 0x07, 0x0c, 0x0c, 0x38, 0x00],
    [0x18, 0x18, 0x18, 0x00, 0x18, 0x18, 0x18, 0x00],
    [0x07, 0x0c, 0x0c, 0x38, 0x0c, 0x0c, 0x07, 0x00],
    [0x6e, 0x3b, 0x00, 0x00, 0x00, 0x00, 0x00, 0x00],
    [0x00, 0x00, 0x00, 0x00, 0x00, 0x00, 0x00, 0x00],
    [0x00, 0x00, 0x00, 0x00, 0xff, 0x00, 0x00, 0x00],
    [0x00, 0x00, 0x00, 0xff, 0xff, 0x00, 0x00, 0x00],
    [0x08, 0x08, 0x08, 0x08, 0x08, 0x08, 0x08, 0x08],
    [0x18, 0x18, 0x18, 0x18, 0x18, 0x18, 0x18, 0x18],
    [0x00, 0x00, 0x00, 0x00, 0xbb, 0x00, 0x00, 0x00],
    [0x00, 0x00, 0x00, 0xbb, 0xbb, 0x00, 0x00, 0x00],
    [0x08, 0x00, 0x08, 0x08, 0x08, 0x00, 0x08, 0x08],
    [0x18, 0x00, 0x18, 0x18, 0x18, 0x00, 0x18, 0x18],
    [0x00, 0x00, 0x00, 0x00, 0x55, 0x00, 0x00, 0x00],
    [0x00, 0x00, 0x00, 0x55, 0x55, 0x00, 0x00, 0x00],
    [0x00, 0x08, 0x00, 0x08, 0x00, 0x08, 0x00, 0x08],
    [0x00, 0x18, 0x00, 0x18, 0x00, 0x18, 0x00, 0x18],
    [0x00, 0x00, 0x00, 0x00, 0xf8, 0x08, 0x08, 0x08],
    [0x00, 0x00, 0x00, 0xf8, 0xf8, 0x08, 0x08, 0x08],
    [0x00, 0x00, 0x00, 0x00, 0xf8, 0x18, 0x18, 0x18],
    [0x00, 0x00, 0x00, 0xf8, 0xf8, 0x18, 0x18, 0x18],
    [0x00, 0x00, 0x00, 0x00, 0x0f, 0x08, 0x08, 0x08],
    [0x00, 0x00, 0x00, 0x0f, 0x0f, 0x08, 0x08, 0x08],
    [0x00, 0x00, 0x00, 0x00, 0x1f, 0x18, 0x18, 0x18],
    [0x00, 0x00, 0x00, 0x1f, 0x1f, 0x18, 0x18, 0x18],
    [0x08, 0x08, 0x08, 0x08, 0xf8, 0x00, 0x00, 0x00],
    [0x08, 0x08, 0x08, 0xf8, 0xf8, 0x00, 0x00, 0x00],
    [0x18, 0x18, 0x18, 0x18, 0xf8, 0x00, 0x00, 0x00],
    [0x18, 0x18, 0x18, 0xf8, 0xf8, 0x00, 0x00, 0x00],
    [0x08, 0x08, 0x08, 0x08, 0x0f, 0x00, 0x00, 0x00],
    [0x08, 0x08, 0x08, 0x0f, 0x0f, 0x00, 0x00, 0x00],
    [0x18, 0x18, 0x18, 0x18, 0x1f, 0x00, 0x00, 0x00],
    [0x18, 0x18, 0x18, 0x1f, 0x1f, 0x00, 0x00, 0x00],
    [0x08, 0x08, 0x08, 0x08, 0xf8, 0x08, 0x08, 0x08],
    [0x08, 0x08, 0x08, 0xf8, 0xf8, 0x08, 0x08, 0x08],
    [0x18, 0x18, 0x18, 0x18, 0xf8, 0x08, 0x08, 0x08],
    [0x08, 0x08, 0x08, 0x08, 0xf8, 0x18, 0x18, 0x18],
    [0x00, 0x00, 0x00, 0x00, 0x00, 0x00, 0x00, 0x00],
    [0x18, 0x18, 0x00, 0x18, 0x3c, 0x3c, 0x18, 0x00],
    [0x18, 0x18, 0x7e, 0x03, 0x03, 0x7e, 0x18, 0x18],
    [0x1c, 0x36, 0x26, 0x0f, 0x06, 0x67, 0x3f, 0x00],
    [0x00, 0x00, 0x63, 0x3e, 0x36, 0x3e, 0x63, 0x00],
    [0x33, 0x33, 0x1e, 0x3f, 0x0c, 0x3f, 0x0c, 0x0c],
    [0x18, 0x18, 0x18, 0x00, 0x18, 0x18, 0x18, 0x00],
    [0x7c, 0xc6, 0x1c, 0x36, 0x36, 0x1c, 0x33, 0x1e],
    [0x33, 0x00, 0x00, 0x00, 0x00, 0x00, 0x00, 0x00],
    [0x3c, 0x42, 0x99, 0x85, 0x85, 0x99, 0x42, 0x3c],
    [0x3c, 0x36, 0x36, 0x7c, 0x00, 0x00, 0x00, 0x00],
    [0x00, 0xcc, 0x66, 0x33, 0x66, 0xcc, 0x00, 0x00],
    [0x00, 0x00, 0x00, 0x3f, 0x30, 0x30, 0x00, 0x00],
    [0x00, 0x00, 0x00, 0x00, 0x00, 0x00, 0x00, 0x00],
    [0x3c, 0x42, 0x9d, 0xa5, 0x9d, 0xa5, 0x42, 0x3c],
    [0x7e, 0x00, 0x00, 0x00, 0x00, 0x00, 0x00, 0x00],
    [0x1c, 0x36, 0x36, 0x1c, 0x00, 0x00, 0x00, 0x00],
    [0x18, 0x18, 0x7e, 0x18, 0x18, 0x00, 0x7e, 0x00],
    [0x1c, 0x30, 0x18, 0x0c, 0x3c, 0x00, 0x00, 0x00],
    [0x1c, 0x30, 0x18, 0x30, 0x1c, 0x00, 0x00, 0x00],
    [0x18, 0x0c, 0x00, 0x00, 0x00, 0x00, 0x00, 0x00],
    [0x00, 0x00, 0x66, 0x66, 0x66, 0x3e, 0x06, 0x03],
    [0xfe, 0xdb, 0xdb, 0xde, 0xd8, 0xd8, 0xd8, 0x00],
    [0x00, 0x00, 0x00, 0x18, 0x18, 0x00, 0x00, 0x00],
    [0x00, 0x00, 0x00, 0x00, 0x00, 0x18, 0x30, 0x1e],
    [0x08, 0x0c, 0x08, 0x1c, 0x00, 0x00, 0x00, 0x00],
    [0x1c, 0x36, 0x36, 0x1c, 0x00, 0x00, 0x00, 0x00],
    [0x00, 0x33, 0x66, 0xcc, 0x66, 0x33, 0x00, 0x00],
    [0xc3, 0x63, 0x33, 0xbd, 0xec, 0xf6, 0xf3, 0x03],
    [0xc3, 0x63, 0x33, 0x7b, 0xcc, 0x66, 0x33, 0xf0],
    [0x03, 0xc4, 0x63, 0xb4, 0xdb, 0xac, 0xe6, 0x80],
    [0x0c, 0x00, 0x0c, 0x06, 0x03, 0x33, 0x1e, 0x00],
    [0x07, 0x00, 0x1c, 0x36, 0x63, 0x7f, 0x63, 0x00],
    [0x70, 0x00, 0x1c, 0x36, 0x63, 0x7f, 0x63, 0x00],
    [0x1c, 0x36, 0x00, 0x3e, 0x63, 0x7f, 0x63, 0x00],
    [0x6e, 0x3b, 0x00, 0x3e, 0x63, 0x7f, 0x63, 0x00],
    [0x63, 0x1c, 0x36, 0x63, 0x7f, 0x63, 0x63, 0x00],
    [0x0c, 0x0c, 0x00, 0x1e, 0x33, 0x3f, 0x33, 0x00],
    [0x7c, 0x36, 0x33, 0x7f, 0x33, 0x33, 0x73, 0x00],
    [0x1e, 0x33, 0x03, 0x33, 0x1e, 0x18, 0x30, 0x1e],
    [0x07, 0x00, 0x3f, 0x06, 0x1e, 0x06, 0x3f, 0x00],
    [0x38, 0x00, 0x3f, 0x06, 0x1e, 0x06, 0x3f, 0x00],
    [0x0c, 0x12, 0x3f, 0x06, 0x1e, 0x06, 0x3f, 0x00],
    [0x36, 0x00, 0x3f, 0x06, 0x1e, 0x06, 0x3f, 0x00],
    [0x07, 0x00, 0x1e, 0x0c, 0x0c, 0x0c, 0x1e, 0x00],
    [0x38, 0x00, 0x1e, 0x0c, 0x0c, 0x0c, 0x1e, 0x00],
    [0x0c, 0x12, 0x00, 0x1e, 0x0c, 0x0c, 0x1e, 0x00],
    [0x33, 0x00, 0x1e, 0x0c, 0x0c, 0x0c, 0x1e, 0x00],
    [0x3f, 0x66, 0x6f, 0x6f, 0x66, 0x66, 0x3f, 0x00],
    [0x3f, 0x00, 0x33, 0x37, 0x3f, 0x3b, 0x33, 0x00],
    [0x0e, 0x00, 0x18, 0x3c, 0x66, 0x3c, 0x18, 0x00],
    [0x70, 0x00, 0x18, 0x3c, 0x66, 0x3c, 0x18, 0x00],
    [0x3c, 0x66, 0x18, 0x3c, 0x66, 0x3c, 0x18, 0x00],
    [0x6e, 0x3b, 0x00, 0x3e, 0x63, 0x63, 0x3e, 0x00],
    [0xc3, 0x18, 0x3c, 0x66, 0x66, 0x3c, 0x18, 0x00],
    [0x00, 0x36, 0x1c, 0x08, 0x1c, 0x36, 0x00, 0x00],
    [0x5c, 0x36, 0x73, 0x7b, 0x6f, 0x36, 0x1d, 0x00],
    [0x0e, 0x00, 0x66, 0x66, 0x66, 0x66, 0x3c, 0x00],
    [0x70, 0x00, 0x66, 0x66, 0x66, 0x66, 0x3c, 0x00],
    [0x3c, 0x66, 0x00, 0x66, 0x66, 0x66, 0x3c, 0x00],
    [0x33, 0x00, 0x33, 0x33, 0x33, 0x33, 0x1e, 0x00],
    [0x70, 0x00, 0x66, 0x66, 0x3c, 0x18, 0x18, 0x00],
    [0x0f, 0x06, 0x3e, 0x66, 0x66, 0x3e, 0x06, 0x0f],
    [0x00, 0x1e, 0x33, 0x1f, 0x33, 0x1f, 0x03, 0x03],
    [0x07, 0x00, 0x1e, 0x30, 0x3e, 0x33, 0x7e, 0x00],
    [0x38, 0x00, 0x1e, 0x30, 0x3e, 0x33, 0x7e, 0x00],
    [0x7e, 0xc3, 0x3c, 0x60, 0x7c, 0x66, 0xfc, 0x00],
    [0x6e, 0x3b, 0x1e, 0x30, 0x3e, 0x33, 0x7e, 0x00],
    [0x33, 0x00, 0x1e, 0x30, 0x3e, 0x33, 0x7e, 0x00],
    [0x0c, 0x0c, 0x1e, 0x30, 0x3e, 0x33, 0x7e, 0x00],
    [0x00, 0x00, 0xfe, 0x30, 0xfe, 0x33, 0xfe, 0x00],
    [0x00, 0x00, 0x1e, 0x03, 0x03, 0x1e, 0x30, 0x1c],
    [0x07, 0x00, 0x1e, 0x33, 0x3f, 0x03, 0x1e, 0x00],
    [0x38, 0x00, 0x1e, 0x33, 0x3f, 0x03, 0x1e, 0x00],
    [0x7e, 0xc3, 0x3c, 0x66, 0x7e, 0x06, 0x3c, 0x00],
    [0x33, 0x00, 0x1e, 0x33, 0x3f, 0x03, 0x1e, 0x00],
    [0x07, 0x00, 0x0e, 0x0c, 0x0c, 0x0c, 0x1e, 0x00],
    [0x1c, 0x00, 0x0e, 0x0c, 0x0c, 0x0c, 0x1e, 0x00],
    [0x3e, 0x63, 0x1c, 0x18, 0x18, 0x18, 0x3c, 0x00],
    [0x33, 0x00, 0x0e, 0x0c, 0x0c, 0x0c, 0x1e, 0x00],
    [0x1b, 0x0e, 0x1b, 0x30, 0x3e, 0x33, 0x1e, 0x00],
    [0x00, 0x1f, 0x00, 0x1f, 0x33, 0x33, 0x33, 0x00],
    [0x00, 0x07, 0x00, 0x1e, 0x33, 0x33, 0x1e, 0x00],
    [0x00, 0x38, 0x00, 0x1e, 0x33, 0x33, 0x1e, 0x00],
    [0x1e, 0x33, 0x00, 0x1e, 0x33, 0x33, 0x1e, 0x00],
    [0x6e, 0x3b, 0x00, 0x1e, 0x33, 0x33, 0x1e, 0x00],
    [0x00, 0x33, 0x00, 0x1e, 0x33, 0x33, 0x1e, 0x00],
    [0x18, 0x18, 0x00, 0x7e, 0x00, 0x18, 0x18, 0x00],
    [0x00, 0x60, 0x3c, 0x76, 0x7e, 0x6e, 0x3c, 0x06],
    [0x00, 0x07, 0x00, 0x33, 0x33, 0x33, 0x7e, 0x00],
    [0x00, 0x38, 0x00, 0x33, 0x33, 0x33, 0x7e, 0x00],
    [0x1e, 0x33, 0x00, 0x33, 0x33, 0x33, 0x7e, 0x00],
    [0x00, 0x33, 0x00, 0x33, 0x33, 0x33, 0x7e, 0x00],
    [0x00, 0x38, 0x00, 0x33, 0x33, 0x3e, 0x30, 0x1f],
    [0x00, 0x00, 0x06, 0x3e, 0x66, 0x3e, 0x06, 0x00],
    [0x00, 0x33, 0x00, 0x33, 0x33, 0x3e, 0x30, 0x1f],
];

} // verus!
