//! The firmware's records, field by field, and the offsets and sizes that the
//! firmware interface publishes for them.
//!
//! All of them are laid out for a 64-bit machine: a reference, a function
//! reference and an address take 8 bytes and are aligned to 8.

use crate::layout::{
    all_valid, is_multiple_of, is_power_of_two, spec_field_offset, spec_fields_end,
    spec_largest_align, spec_record_align, spec_record_size, FieldShape,
};
use vstd::prelude::*;

verus! {

/// Offset of the boot services reference in the system table.
pub const BOOT_SERVICES_OFFSET: usize = 96;

/// Offset of the protocol lookup function in the boot services table.
pub const LOCATE_PROTOCOL_OFFSET: usize = 320;

/// Size of a service identifier: 128 bits.
pub const GUID_SIZE: usize = 16;

/// Size of the pixel information record.
pub const PIXEL_INFO_SIZE: usize = 36;

/// Offset of the base address of the frame buffer in the mode record.
pub const FRAME_BUFFER_BASE_OFFSET: usize = 24;

/// Offset of the byte length of the frame buffer in the mode record.
pub const FRAME_BUFFER_SIZE_OFFSET: usize = 32;

/// Offset of the mode reference in the graphics output protocol.
pub const PROTOCOL_MODE_OFFSET: usize = 24;

/// Index of the boot services reference among the fields of the system table.
pub const BOOT_SERVICES_FIELD: usize = 1;

/// Index of the protocol lookup function among the fields of the boot services
/// table.
pub const LOCATE_PROTOCOL_FIELD: usize = 1;

/// Index of the base address of the frame buffer among the fields of the mode
/// record.
pub const FRAME_BUFFER_BASE_FIELD: usize = 4;

/// Index of the byte length of the frame buffer among the fields of the mode
/// record.
pub const FRAME_BUFFER_SIZE_FIELD: usize = 5;

/// Index of the mode reference among the fields of the graphics output
/// protocol.
pub const PROTOCOL_MODE_FIELD: usize = 1;

/// The records of the firmware interface that are read here.
#[derive(Debug, PartialEq, Eq, Copy, Clone)]
pub enum Record {
    /// The root record that the firmware hands over at entry.
    SystemTable,
    /// The dispatch record that holds the protocol lookup function.
    BootServicesTable,
    /// A service identifier.
    Guid,
    /// The pixel information of a display mode.
    PixelInfo,
    /// The description of the active display mode.
    Mode,
    /// The graphics output protocol.
    GraphicsOutputProtocol,
}

impl Record {
    /// The fields of the record, in declaration order.
    pub open spec fn spec_fields(self) -> Seq<FieldShape> {
        match self {
            // An opaque header of twelve 8-byte words, then the reference to
            // the boot services table.
            Record::SystemTable => seq![
                FieldShape { size: 96, align: 8 },
                FieldShape { size: 8, align: 8 },
            ],
            // An opaque header of forty 8-byte words, then the reference to
            // the protocol lookup function.
            Record::BootServicesTable => seq![
                FieldShape { size: 320, align: 8 },
                FieldShape { size: 8, align: 8 },
            ],
            // A 32-bit word, two 16-bit words and eight bytes.
            Record::Guid => seq![
                FieldShape { size: 4, align: 4 },
                FieldShape { size: 2, align: 2 },
                FieldShape { size: 2, align: 2 },
                FieldShape { size: 8, align: 1 },
            ],
            // Version, horizontal and vertical resolution, five reserved
            // 32-bit words, and the pixels per scan line.
            Record::PixelInfo => seq![
                FieldShape { size: 4, align: 4 },
                FieldShape { size: 4, align: 4 },
                FieldShape { size: 4, align: 4 },
                FieldShape { size: 20, align: 4 },
                FieldShape { size: 4, align: 4 },
            ],
            // The number of modes and the current mode as 32-bit words, the
            // reference to the pixel information, the size of that
            // information, and the base address and byte length of the frame
            // buffer.
            Record::Mode => seq![
                FieldShape { size: 4, align: 4 },
                FieldShape { size: 4, align: 4 },
                FieldShape { size: 8, align: 8 },
                FieldShape { size: 8, align: 8 },
                FieldShape { size: 8, align: 8 },
                FieldShape { size: 8, align: 8 },
            ],
            // An opaque header of three 8-byte words, then the reference to
            // the mode record.
            Record::GraphicsOutputProtocol => seq![
                FieldShape { size: 24, align: 8 },
                FieldShape { size: 8, align: 8 },
            ],
        }
    }

    /// The fields of the record, in declaration order.
    pub fn fields(&self) -> (fields: Vec<FieldShape>)
        ensures
            fields@ == self.spec_fields(),
    {
        match self {
            Record::SystemTable => vec![
                FieldShape { size: 96, align: 8 },
                FieldShape { size: 8, align: 8 },
            ],
            Record::BootServicesTable => vec![
                FieldShape { size: 320, align: 8 },
                FieldShape { size: 8, align: 8 },
            ],
            Record::Guid => vec![
                FieldShape { size: 4, align: 4 },
                FieldShape { size: 2, align: 2 },
                FieldShape { size: 2, align: 2 },
                FieldShape { size: 8, align: 1 },
            ],
            Record::PixelInfo => vec![
                FieldShape { size: 4, align: 4 },
                FieldShape { size: 4, align: 4 },
                FieldShape { size: 4, align: 4 },
                FieldShape { size: 20, align: 4 },
                FieldShape { size: 4, align: 4 },
            ],
            Record::Mode => vec![
                FieldShape { size: 4, align: 4 },
                FieldShape { size: 4, align: 4 },
                FieldShape { size: 8, align: 8 },
                FieldShape { size: 8, align: 8 },
                FieldShape { size: 8, align: 8 },
                FieldShape { size: 8, align: 8 },
            ],
            Record::GraphicsOutputProtocol => vec![
                FieldShape { size: 24, align: 8 },
                FieldShape { size: 8, align: 8 },
            ],
        }
    }
}

/// Every record is made of valid fields.
pub proof fn lemma_records_are_valid(record: Record)
    ensures
        all_valid(record.spec_fields()),
{
    reveal_with_fuel(is_power_of_two, 4);
    let fields = record.spec_fields();
    assert forall|i: int| 0 <= i < fields.len() implies (#[trigger] fields[i]).valid() by {
        let shape = fields[i];
        assert(shape.align == 1 || shape.align == 2 || shape.align == 4 || shape.align == 8);
    }
}

/// The boot services reference lies at its published offset in the system
/// table.
pub proof fn lemma_system_table_layout()
    ensures
        spec_field_offset(Record::SystemTable.spec_fields(), BOOT_SERVICES_FIELD as int)
            == BOOT_SERVICES_OFFSET,
{
    reveal_with_fuel(spec_field_offset, 2);
}

/// The protocol lookup function lies at its published offset in the boot
/// services table.
pub proof fn lemma_boot_services_table_layout()
    ensures
        spec_field_offset(Record::BootServicesTable.spec_fields(), LOCATE_PROTOCOL_FIELD as int)
            == LOCATE_PROTOCOL_OFFSET,
{
    reveal_with_fuel(spec_field_offset, 2);
}

/// A service identifier takes 128 bits, without padding between its parts.
pub proof fn lemma_guid_layout()
    ensures
        spec_field_offset(Record::Guid.spec_fields(), 1) == 4,
        spec_field_offset(Record::Guid.spec_fields(), 2) == 6,
        spec_field_offset(Record::Guid.spec_fields(), 3) == 8,
        spec_record_size(Record::Guid.spec_fields()) == GUID_SIZE,
{
    // The last field, the offsets of the fields before it, and the largest
    // alignment so far, field by field.
    let fields = Record::Guid.spec_fields();
    assert(fields[3] == FieldShape { size: 8, align: 1 });
    assert(spec_field_offset(fields, 0) == 0);
    assert(spec_field_offset(fields, 1) == 4);
    assert(spec_field_offset(fields, 2) == 6);
    assert(spec_largest_align(fields, 0) == 1);
    assert(spec_largest_align(fields, 1) == 4);
    assert(spec_largest_align(fields, 2) == 4);
    assert(spec_largest_align(fields, 3) == 4);
    assert(spec_record_align(fields) == 4);
}

/// The pixel information record has its published size.
pub proof fn lemma_pixel_info_layout()
    ensures
        spec_record_size(Record::PixelInfo.spec_fields()) == PIXEL_INFO_SIZE,
{
    // The last field, the offsets of the fields before it, and the largest
    // alignment so far, field by field.
    let fields = Record::PixelInfo.spec_fields();
    assert(fields[4] == FieldShape { size: 4, align: 4 });
    assert(spec_field_offset(fields, 0) == 0);
    assert(spec_field_offset(fields, 1) == 4);
    assert(spec_field_offset(fields, 2) == 8);
    assert(spec_field_offset(fields, 3) == 12);
    assert(spec_largest_align(fields, 0) == 1);
    assert(spec_largest_align(fields, 1) == 4);
    assert(spec_largest_align(fields, 2) == 4);
    assert(spec_largest_align(fields, 3) == 4);
    assert(spec_largest_align(fields, 4) == 4);
    assert(spec_record_align(fields) == 4);
}

/// The base address and the byte length of the frame buffer lie at their
/// published offsets in the mode record.
pub proof fn lemma_mode_layout()
    ensures
        spec_field_offset(Record::Mode.spec_fields(), FRAME_BUFFER_BASE_FIELD as int)
            == FRAME_BUFFER_BASE_OFFSET,
        spec_field_offset(Record::Mode.spec_fields(), FRAME_BUFFER_SIZE_FIELD as int)
            == FRAME_BUFFER_SIZE_OFFSET,
{
    // The last field, then the offsets of the fields before it in order.
    let fields = Record::Mode.spec_fields();
    assert(fields[5] == FieldShape { size: 8, align: 8 });
    assert(spec_field_offset(fields, 0) == 0);
    assert(spec_field_offset(fields, 1) == 4);
    assert(spec_field_offset(fields, 2) == 8);
    assert(spec_field_offset(fields, 3) == 16);
    assert(spec_field_offset(fields, 4) == 24);
}

/// The mode reference lies at its published offset in the graphics output
/// protocol.
pub proof fn lemma_graphics_output_protocol_layout()
    ensures
        spec_field_offset(
            Record::GraphicsOutputProtocol.spec_fields(),
            PROTOCOL_MODE_FIELD as int,
        ) == PROTOCOL_MODE_OFFSET,
{
    reveal_with_fuel(spec_field_offset, 2);
}

} // verus!
