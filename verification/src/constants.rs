//! Byte-order marks and the limits of the binary heuristic.

use vstd::prelude::*;

verus! {

/// Byte-order mark of big-endian UTF-16.
pub const UTF16BE_BOM: [u8; 2] = [0xFE, 0xFF];

/// Byte-order mark of little-endian UTF-16.
pub const UTF16LE_BOM: [u8; 2] = [0xFF, 0xFE];

/// Byte-order mark that may open a UTF-8 buffer.
pub const UTF8_BOM: [u8; 3] = [0xEF, 0xBB, 0xBF];

/// The byte whose presence marks a buffer as binary.
pub const ZERO_BYTE: u8 = 0x00;

/// Number of leading bytes that the binary heuristic inspects.
pub const BINARY_DETECTION_THRESHOLD: usize = 8_000;

/// Length in bytes of [`UTF8_BOM`].
pub const UTF8_BOM_LENGTH: usize = 3;

/// Length in bytes of [`UTF16BE_BOM`] and of [`UTF16LE_BOM`].
pub const UTF16_BOM_LENGTH: usize = 2;

} // verus!
