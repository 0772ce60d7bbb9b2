use squarebob::layout::{
    request_size,
    checked_2d_buffer_len, checked_2d_buffer_size, checked_2d_byte_len, checked_2d_element_count,
    checked_2d_storage_buffer_size_for_limits, checked_aligned_bytes_per_row,
    checked_storage_buffer_size_for_limits, checked_texture_extent_2d_for_limits, try_vec_filled,
    unpad_readback_rows, DeviceLimits, GpuLayoutError, ReadbackError, TextureReadback,
    TextureReadbackLayout,
};

#[test]
fn checked_layout_rejects_zero_extent() {
    assert!(matches!(
        checked_2d_buffer_size("test", 0, 1, 4),
        Err(GpuLayoutError::ZeroExtent { .. })
    ));
}

#[test]
fn checked_layout_rejects_byte_overflow() {
    assert!(matches!(
        checked_2d_buffer_size("test", u32::MAX, u32::MAX, 32),
        Err(GpuLayoutError::Overflow { .. })
    ));
}

#[test]
fn rgba8_readback_layout_accounts_for_padding() {
    let layout = TextureReadbackLayout::rgba8(65, 3).unwrap();
    assert_eq!(layout.row_bytes(), 260);
    assert_eq!(layout.padded_row_bytes(), 512);
    assert_eq!(layout.buffer_size(), 1536);
    assert_eq!(layout.output_size(), 780);
}

#[test]
fn element_count_is_product() {
    assert_eq!(checked_2d_element_count("c", 7, 9), Ok(63));
    assert_eq!(
        checked_2d_element_count("c", u32::MAX, u32::MAX),
        Ok(u32::MAX as u64 * u32::MAX as u64)
    );
    assert_eq!(
        checked_2d_element_count("c", 5, 0),
        Err(GpuLayoutError::ZeroExtent { context: "c", width: 5, height: 0 })
    );
}

#[test]
fn buffer_size_reports_each_error() {
    assert_eq!(checked_2d_buffer_size("b", 4, 4, 16), Ok(256));
    assert_eq!(
        checked_2d_buffer_size("b", 4, 4, 0),
        Err(GpuLayoutError::ZeroBytesPerElement { context: "b" })
    );
    assert_eq!(
        checked_2d_buffer_size("b", u32::MAX, u32::MAX, 2),
        Err(GpuLayoutError::Overflow {
            context: "b",
            width: u32::MAX,
            height: u32::MAX,
            bytes_per_element: 2,
        })
    );
    // A zero byte size is reported before a zero extent.
    assert_eq!(
        checked_2d_buffer_size("b", 0, 0, 0),
        Err(GpuLayoutError::ZeroBytesPerElement { context: "b" })
    );
}

#[test]
fn storage_size_checks_both_limits() {
    let limits = DeviceLimits {
        max_buffer_size: 1000,
        max_storage_buffer_binding_size: 500,
        max_texture_dimension_2d: 64,
    };
    assert_eq!(checked_storage_buffer_size_for_limits(&limits, "s", 500), Ok(500));
    assert_eq!(
        checked_storage_buffer_size_for_limits(&limits, "s", 1001),
        Err(GpuLayoutError::LimitExceeded {
            context: "s",
            value: 1001,
            limit: 1000,
            limit_name: "max_buffer_size",
        })
    );
    assert_eq!(
        checked_storage_buffer_size_for_limits(&limits, "s", 501),
        Err(GpuLayoutError::LimitExceeded {
            context: "s",
            value: 501,
            limit: 500,
            limit_name: "max_storage_buffer_binding_size",
        })
    );
    assert_eq!(checked_2d_storage_buffer_size_for_limits(&limits, "s", 10, 10, 4), Ok(400));
    assert!(matches!(
        checked_2d_storage_buffer_size_for_limits(&limits, "s", 10, 20, 4),
        Err(GpuLayoutError::LimitExceeded { value: 800, .. })
    ));
    assert!(matches!(
        checked_2d_storage_buffer_size_for_limits(&limits, "s", 0, 20, 4),
        Err(GpuLayoutError::ZeroExtent { .. })
    ));
}

#[test]
fn texture_extent_checks_largest_side() {
    let limits = DeviceLimits {
        max_buffer_size: u64::MAX,
        max_storage_buffer_binding_size: u64::MAX,
        max_texture_dimension_2d: 64,
    };
    assert_eq!(checked_texture_extent_2d_for_limits(&limits, "t", 64, 3), Ok(()));
    assert_eq!(
        checked_texture_extent_2d_for_limits(&limits, "t", 3, 65),
        Err(GpuLayoutError::LimitExceeded {
            context: "t",
            value: 65,
            limit: 64,
            limit_name: "max_texture_dimension_2d",
        })
    );
    assert_eq!(
        checked_texture_extent_2d_for_limits(&limits, "t", 0, 65),
        Err(GpuLayoutError::ZeroExtent { context: "t", width: 0, height: 65 })
    );
}

#[test]
fn host_lengths_follow_byte_sizes() {
    assert_eq!(checked_2d_buffer_len("h", 3, 5), Ok(15));
    assert_eq!(checked_2d_byte_len("h", 3, 5, 4), Ok(60));
    assert!(matches!(checked_2d_buffer_len("h", 0, 5), Err(GpuLayoutError::ZeroExtent { .. })));
    assert!(matches!(
        checked_2d_byte_len("h", 3, 5, 0),
        Err(GpuLayoutError::ZeroBytesPerElement { .. })
    ));
}

#[test]
fn try_vec_filled_fills_every_slot() {
    let v = try_vec_filled("v", 5, 7u8).unwrap();
    assert_eq!(v, vec![7u8; 5]);
    let empty: Vec<u16> = try_vec_filled("v", 0, 1u16).unwrap();
    assert!(empty.is_empty());
    assert_eq!(
        try_vec_filled("v", usize::MAX, 0u64),
        Err(GpuLayoutError::HostAllocation { context: "v", elements: usize::MAX })
    );
}

#[test]
fn aligned_row_rounds_up_to_alignment() {
    assert_eq!(checked_aligned_bytes_per_row("a", 65, 4, 256), Ok(512));
    assert_eq!(checked_aligned_bytes_per_row("a", 64, 4, 256), Ok(256));
    assert_eq!(checked_aligned_bytes_per_row("a", 0, 4, 256), Ok(0));
    assert_eq!(checked_aligned_bytes_per_row("a", 3, 3, 8), Ok(16));
    assert_eq!(checked_aligned_bytes_per_row("a", 3, 3, 1), Ok(9));
    assert_eq!(
        checked_aligned_bytes_per_row("a", 3, 3, 12),
        Err(GpuLayoutError::InvalidAlignment { context: "a", alignment: 12 })
    );
    assert_eq!(
        checked_aligned_bytes_per_row("a", 3, 3, 0),
        Err(GpuLayoutError::InvalidAlignment { context: "a", alignment: 0 })
    );
    assert_eq!(
        checked_aligned_bytes_per_row("a", 3, 0, 4),
        Err(GpuLayoutError::ZeroBytesPerElement { context: "a" })
    );
    assert_eq!(
        checked_aligned_bytes_per_row("a", u32::MAX, 4, 256),
        Err(GpuLayoutError::ValueTooLarge {
            context: "a",
            value: (u32::MAX as u64 * 4 + 255) / 256 * 256,
            target: "u32",
        })
    );
}

#[test]
fn readback_layout_errors_in_order() {
    assert_eq!(
        TextureReadbackLayout::new("r", u32::MAX, 1, 2),
        Err(GpuLayoutError::ValueTooLarge { context: "r", value: u32::MAX as u64 * 2, target: "u32" })
    );
    assert_eq!(
        TextureReadbackLayout::new("r", 4, 4, 0),
        Err(GpuLayoutError::ZeroBytesPerElement { context: "r" })
    );
    assert_eq!(
        TextureReadbackLayout::new("r", 0, 4, 4),
        Err(GpuLayoutError::ZeroExtent { context: "r", width: 0, height: 4 })
    );
    assert_eq!(
        TextureReadbackLayout::new("r", u32::MAX, 1, 1),
        Err(GpuLayoutError::ValueTooLarge {
            context: "r",
            value: (u32::MAX as u64 + 255) / 256 * 256,
            target: "u32",
        })
    );
    let l = TextureReadbackLayout::new("r", 2, 3, 1).unwrap();
    assert_eq!((l.width(), l.height()), (2, 3));
    assert_eq!((l.row_bytes(), l.padded_row_bytes()), (2, 256));
    assert_eq!((l.buffer_size(), l.output_size()), (768, 6));
}

#[test]
fn unpad_strips_row_padding() {
    let layout = TextureReadbackLayout::new("u", 2, 3, 1).unwrap();
    let mut data = vec![0u8; 768];
    for row in 0..3 {
        data[row * 256] = (10 * row + 1) as u8;
        data[row * 256 + 1] = (10 * row + 2) as u8;
        data[row * 256 + 2] = 99;
    }
    let pixels = unpad_readback_rows(&layout, &data).unwrap();
    assert_eq!(pixels, vec![1, 2, 11, 12, 21, 22]);
    match unpad_readback_rows(&layout, &data[..767]) {
        Err(ReadbackError::MappedRangeTooSmall { expected, actual }) => {
            assert_eq!((expected, actual), (768, 767));
        }
        other => panic!("unexpected {other:?}"),
    }
}

#[test]
fn fresh_staging_has_no_capacity() {
    let staging = TextureReadback::default();
    assert_eq!(staging.capacity(), 0);
}

#[test]
fn layout_error_messages() {
    let e = GpuLayoutError::ZeroExtent { context: "tex", width: 0, height: 12 };
    assert_eq!(e.message(), "tex: zero extent 0x12");
    let e = GpuLayoutError::Overflow { context: "buf", width: 65536, height: 65536, bytes_per_element: 4096 };
    assert_eq!(e.message(), "buf: 65536x65536 at 4096 bytes per element overflows");
    let e = GpuLayoutError::LimitExceeded { context: "s", value: 300, limit: 256, limit_name: "max_buffer_size" };
    assert_eq!(e.message(), "s: 300 exceeds device max_buffer_size limit 256");
    let e = GpuLayoutError::ValueTooLarge { context: "c", value: u64::MAX, target: "u32" };
    assert_eq!(e.message(), "c: 18446744073709551615 does not fit u32");
    let e = GpuLayoutError::InvalidAlignment { context: "row", alignment: 3 };
    assert_eq!(e.message(), "row: alignment 3 is not a non-zero power of two");
    let e = GpuLayoutError::HostAllocation { context: "h", elements: 10 };
    assert_eq!(e.message(), "h: failed to allocate 10 host elements");
    let e = GpuLayoutError::LengthMismatch { context: "l", left: 1, right: 20 };
    assert_eq!(e.message(), "l: length mismatch (1 != 20)");
    let e = GpuLayoutError::ZeroBytesPerElement { context: "z" };
    assert_eq!(e.message(), "z: bytes per element must be non-zero");
}

#[test]
fn readback_error_messages() {
    let e = ReadbackError::Layout(GpuLayoutError::ZeroExtent { context: "t", width: 0, height: 0 });
    assert_eq!(e.message(), "invalid readback layout: t: zero extent 0x0");
    assert_eq!(ReadbackError::MissingTarget.message(), "readback has no encoded target");
    let e = ReadbackError::StagingBufferTooSmall { required: 1024, capacity: 16 };
    assert_eq!(e.message(), "readback staging buffer too small: requires 1024 bytes, capacity 16");
    let e = ReadbackError::MappedRangeTooSmall { expected: 8, actual: 4 };
    assert_eq!(e.message(), "mapped range too small: expected at least 8 bytes, got 4");
    let e = ReadbackError::SceneBuild("no cubes".to_string());
    assert_eq!(e.message(), "scene build failed: no cubes");
    let e = ReadbackError::MapFailed(wgpu::BufferAsyncError);
    assert_eq!(e.message(), "map_async failed: BufferAsyncError");
    let e = ReadbackError::PollFailed(wgpu::PollError::Timeout);
    assert_eq!(e.message(), "device poll failed: Timeout");
    let e = ReadbackError::CallbackDropped(std::sync::mpsc::RecvError);
    assert!(e.message().starts_with("map callback dropped before completion: "));
    assert!(e.message().len() > "map callback dropped before completion: ".len());
}

#[test]
fn buffer_requests_are_at_least_sixteen_bytes() {
    assert_eq!(request_size(0), 16);
    assert_eq!(request_size(15), 16);
    assert_eq!(request_size(16), 16);
    assert_eq!(request_size(1000), 1000);
}

#[test]
fn aligned_row_accepts_only_powers_of_two_up_to_the_top_bit() {
    assert_eq!(checked_aligned_bytes_per_row("a", 1, 1, 0x8000_0000), Ok(0x8000_0000));
    assert_eq!(checked_aligned_bytes_per_row("a", 1, 1, 2), Ok(2));
    for alignment in [3u32, 0xC000_0000, u32::MAX, 0x8000_0001] {
        assert_eq!(
            checked_aligned_bytes_per_row("a", 1, 1, alignment),
            Err(GpuLayoutError::InvalidAlignment { context: "a", alignment })
        );
    }
}
