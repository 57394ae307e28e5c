use target_tester::error::ImageError;
use target_tester::image::LoadSegment;
use target_tester::image::ProgramHeader;
use target_tester::image::TestBinary;

fn header(p_type: u32, p_offset: u32, p_paddr: u32, p_filesz: u32) -> ProgramHeader {
    ProgramHeader { p_type, p_offset, p_paddr, p_filesz }
}

fn file_of_sixteen() -> Vec<u8> {
    (0u8..16).collect()
}

#[test]
fn extraction_takes_the_bytes_of_loadable_headers() {
    let binary = TestBinary::new(
        file_of_sixteen(),
        vec![header(1, 4, 0x0800_0000, 4), header(1, 10, 0x0800_0100, 2)],
        vec![],
    );
    assert!(binary.is_well_formed());
    let segments = LoadSegment::get_from_file(&binary);
    assert_eq!(segments.len(), 2);
    assert_eq!(segments[0].start_addr(), 0x0800_0000);
    assert_eq!(segments[0].data(), &[4, 5, 6, 7]);
    assert_eq!(segments[1].start_addr(), 0x0800_0100);
    assert_eq!(segments[1].data(), &[10, 11]);
}

#[test]
fn extraction_skips_other_types_and_empty_headers() {
    let binary = TestBinary::new(
        file_of_sixteen(),
        vec![
            header(6, 0, 0x100, 4),
            header(1, 0, 0x200, 0),
            header(2, 4, 0x300, 4),
            header(1, 8, 0x400, 8),
            header(7, 0, 0x500, 4),
        ],
        vec![],
    );
    let segments = LoadSegment::get_from_file(&binary);
    assert_eq!(segments.len(), 1);
    assert_eq!(segments[0].start_addr(), 0x400);
    assert_eq!(segments[0].data(), &[8, 9, 10, 11, 12, 13, 14, 15]);
}

#[test]
fn extraction_keeps_header_order() {
    let binary = TestBinary::new(
        file_of_sixteen(),
        vec![header(1, 8, 0x900, 2), header(1, 0, 0x100, 2)],
        vec![],
    );
    let segments = LoadSegment::get_from_file(&binary);
    assert_eq!(segments[0].start_addr(), 0x900);
    assert_eq!(segments[1].start_addr(), 0x100);
}

#[test]
fn a_header_past_the_end_of_the_file_is_not_well_formed() {
    let binary = TestBinary::new(file_of_sixteen(), vec![header(1, 12, 0, 5)], vec![]);
    assert!(!binary.is_well_formed());
    let ignored = TestBinary::new(file_of_sixteen(), vec![header(2, 12, 0, 5)], vec![]);
    assert!(ignored.is_well_formed());
    let exact = TestBinary::new(file_of_sixteen(), vec![header(1, 12, 0, 4)], vec![]);
    assert!(exact.is_well_formed());
    let huge = TestBinary::new(
        file_of_sixteen(),
        vec![header(1, u32::MAX, 0, u32::MAX)],
        vec![],
    );
    assert!(!huge.is_well_formed());
}

#[test]
fn merging_nothing_gives_nothing() {
    assert!(LoadSegment::collapse_segments(vec![]).is_none());
}

#[test]
fn merging_one_segment_gives_it_back() {
    let merged = LoadSegment::collapse_segments(vec![LoadSegment::new(0x100, vec![1, 2, 3])])
        .unwrap();
    assert_eq!(merged.start_addr(), 0x100);
    assert_eq!(merged.end_addr(), 0x103);
    assert_eq!(merged.data(), &[1, 2, 3]);
}

#[test]
fn merging_fills_the_gap_with_erased_flash() {
    let merged = LoadSegment::collapse_segments(vec![
        LoadSegment::new(0x100, vec![1, 2]),
        LoadSegment::new(0x105, vec![3, 4, 5]),
    ])
    .unwrap();
    assert_eq!(merged.start_addr(), 0x100);
    assert_eq!(merged.data(), &[1, 2, 0xFF, 0xFF, 0xFF, 3, 4, 5]);
    assert_eq!(merged.end_addr(), 0x108);
}

#[test]
fn merging_sorts_by_address() {
    let merged = LoadSegment::collapse_segments(vec![
        LoadSegment::new(0x20, vec![7]),
        LoadSegment::new(0x10, vec![1, 2]),
        LoadSegment::new(0x14, vec![3]),
    ])
    .unwrap();
    assert_eq!(merged.start_addr(), 0x10);
    let mut expected = vec![1, 2, 0xFF, 0xFF, 3];
    expected.extend(vec![0xFF; 11]);
    expected.push(7);
    assert_eq!(merged.data(), expected.as_slice());
}

#[test]
fn merged_length_is_lengths_plus_gaps() {
    let lengths = [5usize, 1, 9, 3];
    let starts = [0x1000u32, 0x1005, 0x1010, 0x1100];
    let segments: Vec<LoadSegment> = (0..4)
        .rev()
        .map(|i| LoadSegment::new(starts[i], vec![i as u8; lengths[i]]))
        .collect();
    let merged = LoadSegment::collapse_segments(segments).unwrap();
    let gaps = 0 + (0x1010 - 0x1006) + (0x1100 - 0x1019);
    assert_eq!(merged.data().len(), 5 + 1 + 9 + 3 + gaps);
    for (offset, byte) in merged.data().iter().enumerate() {
        let addr = 0x1000 + offset as u32;
        let owner = (0..4).find(|&i| starts[i] <= addr && addr < starts[i] + lengths[i] as u32);
        match owner {
            Some(i) => assert_eq!(*byte, i as u8),
            None => assert_eq!(*byte, 0xFF),
        }
    }
}

#[test]
fn adjacent_segments_merge_without_fill() {
    let merged = LoadSegment::collapse_segments(vec![
        LoadSegment::new(4, vec![5, 6]),
        LoadSegment::new(0, vec![1, 2, 3, 4]),
    ])
    .unwrap();
    assert_eq!(merged.start_addr(), 0);
    assert_eq!(merged.data(), &[1, 2, 3, 4, 5, 6]);
}

#[test]
fn overlapping_segments_are_appended_as_they_are() {
    let merged = LoadSegment::collapse_segments(vec![
        LoadSegment::new(0, vec![1, 2, 3, 4]),
        LoadSegment::new(2, vec![9, 9]),
        LoadSegment::new(6, vec![7]),
    ])
    .unwrap();
    assert_eq!(merged.data(), &[1, 2, 3, 4, 9, 9, 0xFF, 0xFF, 7]);
}

#[test]
fn segments_of_one_address_keep_their_order() {
    let merged = LoadSegment::collapse_segments(vec![
        LoadSegment::new(8, vec![1]),
        LoadSegment::new(8, vec![2]),
        LoadSegment::new(0, vec![0]),
    ])
    .unwrap();
    assert_eq!(merged.data(), &[0, 0xFF, 0xFF, 0xFF, 0xFF, 0xFF, 0xFF, 0xFF, 1, 2]);
}

#[test]
fn a_segment_may_reach_the_top_of_the_address_space() {
    let merged = LoadSegment::collapse_segments(vec![
        LoadSegment::new(0xFFFF_FFFE, vec![1, 2]),
        LoadSegment::new(0xFFFF_FFF0, vec![3]),
    ])
    .unwrap();
    assert_eq!(merged.start_addr(), 0xFFFF_FFF0);
    assert_eq!(merged.data().len(), 16);
    assert_eq!(merged.data()[0], 3);
    assert_eq!(merged.data()[13], 0xFF);
    assert_eq!(&merged.data()[14..], &[1, 2]);
}

fn image_with_vectors() -> LoadSegment {
    let mut data = vec![0u8; 16];
    data[4..8].copy_from_slice(&[0x00, 0x80, 0x00, 0x20]);
    data[8..12].copy_from_slice(&[0x41, 0x01, 0x00, 0x08]);
    LoadSegment::new(0x0800_0000, data)
}

#[test]
fn the_vector_table_holds_stack_pointer_and_entry_point() {
    let image = image_with_vectors();
    assert_eq!(image.resolve_vector_table(0x0800_0004), Ok((0x2000_8000, 0x0800_0141)));
    assert_eq!(image.resolve_vector_table(0x0800_0000), Ok((0, 0x2000_8000)));
}

#[test]
fn a_vector_table_before_the_image_is_out_of_range() {
    let image = image_with_vectors();
    assert_eq!(image.resolve_vector_table(0x07FF_FFFF), Err(ImageError::VectorTableOutOfRange));
    assert_eq!(image.resolve_vector_table(0), Err(ImageError::VectorTableOutOfRange));
}

#[test]
fn a_vector_table_past_the_end_of_the_image_is_out_of_range() {
    let image = image_with_vectors();
    assert_eq!(image.resolve_vector_table(0x0800_0008), Ok((0x0800_0141, 0)));
    assert_eq!(image.resolve_vector_table(0x0800_0009), Err(ImageError::VectorTableOutOfRange));
    assert_eq!(image.resolve_vector_table(0x0800_0010), Err(ImageError::VectorTableOutOfRange));
    assert_eq!(image.resolve_vector_table(0xFFFF_FFFC), Err(ImageError::VectorTableOutOfRange));
}

#[test]
fn a_vector_table_at_the_top_of_the_address_space_is_read() {
    let image = LoadSegment::new(0xFFFF_FFF8, vec![1, 0, 0, 0, 2, 0, 0, 0]);
    assert_eq!(image.resolve_vector_table(0xFFFF_FFF8), Ok((1, 2)));
}

#[test]
fn a_segment_in_a_few_words() {
    let segment = LoadSegment::new(0x0800_0000, vec![0; 0x1a2]);
    assert_eq!(segment.describe(), "LoadSegment(0x8000000, 0x1a2)");
    assert_eq!(LoadSegment::new(0, vec![]).describe(), "LoadSegment(0x0, 0x0)");
}
