use wasabi::layout::{align_to, field_offset, record_align, record_size, FieldShape};

fn shape(size: usize, align: usize) -> FieldShape {
    FieldShape { size, align }
}

#[test]
fn align_to_keeps_a_multiple() {
    assert_eq!(align_to(0, 8), Some(0));
    assert_eq!(align_to(8, 8), Some(8));
    assert_eq!(align_to(96, 8), Some(96));
    assert_eq!(align_to(5, 1), Some(5));
}

#[test]
fn align_to_moves_up_to_the_next_multiple() {
    assert_eq!(align_to(1, 8), Some(8));
    assert_eq!(align_to(7, 8), Some(8));
    assert_eq!(align_to(9, 4), Some(12));
    assert_eq!(align_to(9, 8), Some(16));
    assert_eq!(align_to(13, 2), Some(14));
}

#[test]
fn align_to_result_is_the_least_multiple() {
    for offset in 0..64usize {
        for align in [1usize, 2, 4, 8, 16] {
            let aligned = align_to(offset, align).unwrap();
            assert_eq!(aligned % align, 0);
            assert!(offset <= aligned);
            assert!(aligned < offset + align);
        }
    }
}

#[test]
fn align_to_rejects_alignment_zero() {
    assert_eq!(align_to(0, 0), None);
    assert_eq!(align_to(12, 0), None);
}

#[test]
fn align_to_reports_overflow() {
    assert_eq!(align_to(usize::MAX, 2), None);
    assert_eq!(align_to(usize::MAX - 6, 8), None);
    assert_eq!(align_to(usize::MAX - 1, 2), Some(usize::MAX - 1));
    assert_eq!(align_to(usize::MAX, 1), Some(usize::MAX));
}

#[test]
fn shapes_with_power_of_two_alignment_are_valid() {
    assert!(shape(4, 4).is_valid());
    assert!(shape(8, 1).is_valid());
    assert!(shape(320, 8).is_valid());
    assert!(shape(0, 1).is_valid());
    assert!(shape(0, 16).is_valid());
    assert!(shape(1, 1).is_valid());
}

#[test]
fn shapes_with_other_alignment_are_not_valid() {
    assert!(!shape(4, 0).is_valid());
    assert!(!shape(0, 0).is_valid());
    assert!(!shape(6, 3).is_valid());
    assert!(!shape(12, 6).is_valid());
    assert!(!shape(24, 12).is_valid());
}

#[test]
fn shapes_whose_size_is_no_multiple_of_the_alignment_are_not_valid() {
    assert!(!shape(6, 4).is_valid());
    assert!(!shape(1, 2).is_valid());
    assert!(!shape(9, 8).is_valid());
}

#[test]
fn first_field_starts_at_zero() {
    assert_eq!(field_offset(&[shape(4, 4)], 0), Some(0));
    assert_eq!(field_offset(&[shape(8, 8), shape(1, 1)], 0), Some(0));
}

#[test]
fn fields_are_padded_to_their_alignment() {
    let fields = [shape(1, 1), shape(4, 4), shape(1, 1), shape(8, 8)];
    assert_eq!(field_offset(&fields, 0), Some(0));
    assert_eq!(field_offset(&fields, 1), Some(4));
    assert_eq!(field_offset(&fields, 2), Some(8));
    assert_eq!(field_offset(&fields, 3), Some(16));
    assert_eq!(record_align(&fields), Some(8));
    assert_eq!(record_size(&fields), Some(24));
}

#[test]
fn fields_that_fit_are_not_padded() {
    let fields = [shape(4, 4), shape(2, 2), shape(2, 2), shape(8, 1)];
    assert_eq!(field_offset(&fields, 1), Some(4));
    assert_eq!(field_offset(&fields, 2), Some(6));
    assert_eq!(field_offset(&fields, 3), Some(8));
    assert_eq!(record_size(&fields), Some(16));
}

#[test]
fn record_size_is_padded_to_the_record_alignment() {
    let fields = [shape(8, 8), shape(1, 1)];
    assert_eq!(field_offset(&fields, 1), Some(8));
    assert_eq!(record_align(&fields), Some(8));
    assert_eq!(record_size(&fields), Some(16));
}

#[test]
fn record_without_fields_is_empty() {
    let fields: [FieldShape; 0] = [];
    assert_eq!(record_align(&fields), Some(1));
    assert_eq!(record_size(&fields), Some(0));
    assert_eq!(field_offset(&fields, 0), None);
}

#[test]
fn field_offset_of_a_missing_field_is_none() {
    let fields = [shape(4, 4), shape(4, 4)];
    assert_eq!(field_offset(&fields, 2), None);
    assert_eq!(field_offset(&fields, usize::MAX), None);
}

#[test]
fn field_offset_needs_valid_fields_up_to_the_index() {
    let fields = [shape(4, 4), shape(4, 3), shape(8, 8)];
    assert_eq!(field_offset(&fields, 0), Some(0));
    assert_eq!(field_offset(&fields, 1), None);
    assert_eq!(field_offset(&fields, 2), None);
    let first_is_bad = [shape(3, 2), shape(4, 4)];
    assert_eq!(field_offset(&first_is_bad, 0), None);
    assert_eq!(field_offset(&first_is_bad, 1), None);
}

#[test]
fn field_offset_ignores_fields_after_the_index() {
    let fields = [shape(4, 4), shape(8, 8), shape(5, 0)];
    assert_eq!(field_offset(&fields, 1), Some(8));
    assert_eq!(field_offset(&fields, 2), None);
}

#[test]
fn record_align_and_size_need_valid_fields() {
    let fields = [shape(4, 4), shape(8, 8), shape(5, 0)];
    assert_eq!(record_align(&fields), None);
    assert_eq!(record_size(&fields), None);
    let odd = [shape(6, 4)];
    assert_eq!(record_align(&odd), None);
    assert_eq!(record_size(&odd), None);
}

#[test]
fn record_align_is_the_largest_alignment() {
    assert_eq!(record_align(&[shape(2, 2), shape(16, 16), shape(4, 4)]), Some(16));
    assert_eq!(record_align(&[shape(3, 1), shape(5, 1)]), Some(1));
    assert_eq!(record_align(&[shape(4, 4)]), Some(4));
}

#[test]
fn offsets_that_do_not_fit_are_none() {
    let huge = usize::MAX - 7;
    let fields = [shape(huge, 8), shape(8, 8), shape(8, 8)];
    assert_eq!(field_offset(&fields, 0), Some(0));
    assert_eq!(field_offset(&fields, 1), Some(huge));
    assert_eq!(field_offset(&fields, 2), None);
    assert_eq!(record_size(&fields), None);
    assert_eq!(record_align(&fields), Some(8));
}

#[test]
fn sizes_that_do_not_fit_are_none() {
    let fields = [shape(usize::MAX - 7, 8), shape(1, 1)];
    assert_eq!(field_offset(&fields, 1), Some(usize::MAX - 7));
    assert_eq!(record_size(&fields), None);
    let fits = [shape(usize::MAX - 7, 8)];
    assert_eq!(record_size(&fits), Some(usize::MAX - 7));
}

#[test]
fn every_field_is_aligned_and_follows_the_one_before() {
    let fields = [
        shape(1, 1),
        shape(2, 2),
        shape(1, 1),
        shape(8, 8),
        shape(4, 4),
        shape(16, 16),
        shape(3, 1),
    ];
    let mut end = 0;
    for index in 0..fields.len() {
        let offset = field_offset(&fields, index).unwrap();
        assert_eq!(offset % fields[index].align, 0);
        assert!(end <= offset);
        assert!(offset < end + fields[index].align);
        end = offset + fields[index].size;
    }
    let size = record_size(&fields).unwrap();
    let align = record_align(&fields).unwrap();
    assert_eq!(align, 16);
    assert_eq!(size % align, 0);
    assert!(end <= size);
    assert!(size < end + align);
    assert_eq!(size, 64);
}
