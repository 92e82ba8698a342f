use wasm_snapshot::image::{build_image, maybe_mem_image, update, Image, ImageError};
use wasm_snapshot::memory::{MemImage, WASM_PAGE};
use wasm_snapshot::module::{
    GlobalData, MemoryData, MemorySegment, Module, TableData, Type,
};
use wasm_snapshot::value::WasmVal;

fn empty_module() -> Module {
    Module {
        memories: vec![],
        globals: vec![],
        tables: vec![],
        funcs: vec![],
        signatures: vec![],
        imports: vec![],
        exports: vec![],
    }
}

fn one_page(segments: Vec<MemorySegment>) -> MemoryData {
    MemoryData { initial_pages: 1, segments }
}

fn seg(offset: usize, data: &[u8]) -> MemorySegment {
    MemorySegment { offset, data: data.to_vec() }
}

fn image_with(segments: Vec<MemorySegment>) -> Image {
    let mut m = empty_module();
    m.memories.push(one_page(segments));
    build_image(&m).unwrap()
}

#[test]
fn no_segments_gives_zeroed_pages() {
    let mut m = empty_module();
    m.memories.push(MemoryData { initial_pages: 2, segments: vec![] });
    let im = build_image(&m).unwrap();
    assert_eq!(im.memories.len(), 1);
    assert_eq!(im.memories[0].len, 2 * 65536);
    assert_eq!(im.memories[0].image.len(), 2 * 65536);
    assert!(im.memories[0].image.iter().all(|b| *b == 0));
    assert_eq!(im.main_heap, Some(0));
}

#[test]
fn zero_pages_gives_empty_memory() {
    let mi = maybe_mem_image(&MemoryData { initial_pages: 0, segments: vec![] }).unwrap();
    assert_eq!(mi.len, 0);
    assert!(mi.image.is_empty());
}

#[test]
fn segments_are_copied_at_their_offsets() {
    let im = image_with(vec![seg(4, &[1, 2, 3]), seg(100, &[9])]);
    let bytes = &im.memories[0].image;
    assert_eq!(&bytes[0..8], &[0, 0, 0, 0, 1, 2, 3, 0]);
    assert_eq!(bytes[99], 0);
    assert_eq!(bytes[100], 9);
    assert_eq!(bytes[101], 0);
    assert_eq!(bytes[WASM_PAGE - 1], 0);
}

#[test]
fn later_segment_overwrites_earlier() {
    let im = image_with(vec![seg(0, &[1, 1, 1]), seg(1, &[7])]);
    assert_eq!(&im.memories[0].image[0..4], &[1, 7, 1, 0]);
}

#[test]
fn segment_reaching_the_last_byte_fits() {
    let im = image_with(vec![seg(WASM_PAGE - 2, &[5, 6])]);
    assert_eq!(im.memories[0].image[WASM_PAGE - 1], 6);
}

#[test]
fn segment_past_the_end_is_rejected() {
    let mut m = empty_module();
    m.memories.push(one_page(vec![seg(WASM_PAGE - 1, &[5, 6])]));
    assert_eq!(build_image(&m).unwrap_err(), ImageError::SegmentOutOfBounds);
}

#[test]
fn memory_beyond_32_bit_space_is_rejected() {
    let r = maybe_mem_image(&MemoryData { initial_pages: 65537, segments: vec![] });
    assert_eq!(r.unwrap_err(), ImageError::MemoryTooLarge);
}

#[test]
fn globals_tables_and_roles_are_collected() {
    let mut m = empty_module();
    m.globals.push(GlobalData { ty: Type::I32, value: Some(0x1_0000_0005) });
    m.globals.push(GlobalData { ty: Type::I64, value: None });
    m.globals.push(GlobalData { ty: Type::F64, value: Some(7) });
    m.globals.push(GlobalData { ty: Type::V128, value: Some(1) });
    m.tables.push(TableData { func_elements: Some(vec![3, 1]) });
    m.tables.push(TableData { func_elements: None });
    let im = build_image(&m).unwrap();
    assert_eq!(im.globals, vec![Some(WasmVal::I32(5)), None, Some(WasmVal::F64(7)), None]);
    assert_eq!(im.tables, vec![vec![3, 1], vec![]]);
    assert_eq!(im.stack_pointer, Some(0));
    assert_eq!(im.main_table, Some(0));
    assert_eq!(im.main_heap, None);
    assert_eq!(im.main_heap(), Err(ImageError::NoMainHeap));
}

#[test]
fn from_bits_decodes_by_type() {
    assert_eq!(WasmVal::from_bits(Type::I64, u64::MAX), Some(WasmVal::I64(u64::MAX)));
    assert_eq!(WasmVal::from_bits(Type::F32, 0xffff_ffff_3f80_0000), Some(WasmVal::F32(0x3f80_0000)));
    assert_eq!(WasmVal::from_bits(Type::FuncRef, 0), None);
}

#[test]
fn main_heap_is_first_memory() {
    let im = image_with(vec![]);
    assert_eq!(im.main_heap(), Ok(0));
}

#[test]
fn can_read_checks_bounds_and_overflow() {
    let im = image_with(vec![]);
    assert!(im.can_read(0, 0, 65536));
    assert!(im.can_read(0, 65535, 1));
    assert!(!im.can_read(0, 65535, 2));
    assert!(!im.can_read(0, u32::MAX, 2));
    assert!(!im.can_read(1, 0, 1));
}

#[test]
fn fixed_width_reads_are_little_endian() {
    let im = image_with(vec![seg(0, &[0x01, 0x02, 0x03, 0x04, 0x05, 0x06, 0x07, 0x08,
        0x09, 0x0a, 0x0b, 0x0c, 0x0d, 0x0e, 0x0f, 0x10])]);
    assert_eq!(im.read_u8(0, 1), Ok(0x02));
    assert_eq!(im.read_u16(0, 0), Ok(0x0201));
    assert_eq!(im.read_u32(0, 0), Ok(0x0403_0201));
    assert_eq!(im.read_u64(0, 0), Ok(0x0807_0605_0403_0201));
    assert_eq!(im.read_u128(0, 0), Ok(0x100f_0e0d_0c0b_0a09_0807_0605_0403_0201));
}

#[test]
fn reads_past_the_end_fail() {
    let im = image_with(vec![]);
    assert_eq!(im.read_u8(0, 65536), Err(ImageError::OutOfBounds));
    assert_eq!(im.read_u16(0, 65535), Err(ImageError::OutOfBounds));
    assert_eq!(im.read_u32(0, 65533), Err(ImageError::OutOfBounds));
    assert_eq!(im.read_u32(0, 65532), Ok(0));
    assert_eq!(im.read_u64(0, 65529), Err(ImageError::OutOfBounds));
    assert_eq!(im.read_u128(0, 65521), Err(ImageError::OutOfBounds));
    assert_eq!(im.read_u64(0, u32::MAX - 2), Err(ImageError::OutOfBounds));
}

#[test]
fn read_size_dispatches_by_width() {
    let im = image_with(vec![seg(0, &[0xff, 0xee, 0xdd, 0xcc, 0xbb, 0xaa, 0x99, 0x88])]);
    assert_eq!(im.read_size(0, 0, 1), Ok(0xff));
    assert_eq!(im.read_size(0, 0, 2), Ok(0xeeff));
    assert_eq!(im.read_size(0, 0, 4), Ok(0xccdd_eeff));
    assert_eq!(im.read_size(0, 0, 8), Ok(0x8899_aabb_ccdd_eeff));
    assert_eq!(im.read_size(0, 65535, 2), Err(ImageError::OutOfBounds));
}

#[test]
fn write_then_read_u8_and_u32() {
    let mut im = image_with(vec![]);
    assert_eq!(im.write_u8(0, 10, 0xab), Ok(()));
    assert_eq!(im.read_u8(0, 10), Ok(0xab));
    assert_eq!(im.write_u32(0, 20, 0xdead_beef), Ok(()));
    assert_eq!(im.read_u32(0, 20), Ok(0xdead_beef));
    assert_eq!(&im.memories[0].image[20..24], &[0xef, 0xbe, 0xad, 0xde]);
    assert_eq!(im.write_u8(0, 65536, 1), Err(ImageError::OutOfBounds));
    assert_eq!(im.write_u32(0, 65533, 1), Err(ImageError::OutOfBounds));
}

#[test]
fn u32_writes_compose_into_u64_and_u128() {
    let mut im = image_with(vec![]);
    let v: u128 = 0x0123_4567_89ab_cdef_fedc_ba98_7654_3210;
    for k in 0..4u32 {
        im.write_u32(0, 64 + 4 * k, (v >> (32 * k)) as u32).unwrap();
    }
    assert_eq!(im.read_u128(0, 64), Ok(v));
    assert_eq!(im.read_u64(0, 64), Ok(v as u64));
    let lo = im.read_u32(0, 64).unwrap() as u64;
    let hi = im.read_u32(0, 68).unwrap() as u64;
    assert_eq!(im.read_u64(0, 64), Ok(lo | (hi << 32)));
}

#[test]
fn read_str_stops_at_nul() {
    let im = image_with(vec![seg(0, b"hi\0")]);
    assert_eq!(im.read_str(0, 0), Ok("hi".to_string()));
    assert_eq!(im.read_str(0, 1), Ok("i".to_string()));
    assert_eq!(im.read_str(0, 2), Ok(String::new()));
}

#[test]
fn read_str_decodes_utf8() {
    let im = image_with(vec![seg(0, &[0x63, 0xc3, 0xa9, 0x00])]);
    assert_eq!(im.read_str(0, 0), Ok("c\u{e9}".to_string()));
}

#[test]
fn read_str_rejects_invalid_utf8() {
    let im = image_with(vec![seg(0, &[0xc3, 0x28, 0x00])]);
    assert_eq!(im.read_str(0, 0), Err(ImageError::InvalidUtf8));
}

#[test]
fn read_str_without_terminator_is_out_of_bounds() {
    let im = image_with(vec![seg(WASM_PAGE - 3, b"abc")]);
    assert_eq!(im.read_str(0, (WASM_PAGE - 3) as u32), Err(ImageError::OutOfBounds));
    assert_eq!(im.read_str(0, 70000), Err(ImageError::OutOfBounds));
}

#[test]
fn func_ptr_indexes_primary_table() {
    let mut m = empty_module();
    m.tables.push(TableData { func_elements: Some(vec![4, 2]) });
    let im = build_image(&m).unwrap();
    assert_eq!(im.func_ptr(1), Ok(2));
    assert_eq!(im.func_ptr(2), Err(ImageError::FuncPtrOutOfBounds));
    let none = build_image(&empty_module()).unwrap();
    assert_eq!(none.func_ptr(0), Err(ImageError::NoMainTable));
}

#[test]
fn update_replaces_segments_with_one() {
    let mut m = empty_module();
    m.memories.push(one_page(vec![seg(0, &[1]), seg(8, &[2, 3])]));
    let mut im = build_image(&m).unwrap();
    im.write_u8(0, 3, 9).unwrap();
    update(&mut m, &im);
    assert_eq!(m.memories[0].segments.len(), 1);
    assert_eq!(m.memories[0].segments[0].offset, 0);
    assert_eq!(m.memories[0].segments[0].data, im.memories[0].image);
    assert_eq!(&m.memories[0].segments[0].data[0..10], &[1, 0, 0, 9, 0, 0, 0, 0, 2, 3]);
    assert_eq!(m.memories[0].initial_pages, 1);
}

#[test]
fn mem_image_store_reads_directly() {
    let mut mi = MemImage { image: vec![0; 8], len: 8 };
    assert!(mi.can_read(4, 4));
    assert!(!mi.can_read(5, 4));
    mi.write_u32(4, 0x0102_0304).unwrap();
    assert_eq!(mi.read_u64(0), Ok(0x0102_0304_0000_0000));
}
