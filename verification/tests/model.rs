use npyiter::flags::{
    NPY_ITER_BUFFERED, NPY_ITER_COMMON_DTYPE, NPY_ITER_COPY_IF_OVERLAP, NPY_ITER_DELAY_BUFALLOC,
    NPY_ITER_DONT_NEGATE_STRIDES, NPY_ITER_GROWINNER, NPY_ITER_RANGED, NPY_ITER_READONLY,
    NPY_ITER_READWRITE, NPY_ITER_REDUCE_OK, NPY_ITER_REFS_OK, NPY_ITER_ZEROSIZE_OK,
};
use npyiter::laws::{
    double_multi_into_writable, double_single_readwrite, double_then_reread,
    product_sum_multi_readonly, sum_single_readonly,
};
use npyiter::{
    MultiIterMode, NpyBuffer, NpyError, NpyIterFlag, NpyMultiIterBuilder, NpySingleIterBuilder,
    RO, RW,
};

#[test]
fn flag_constants() {
    assert_eq!(NpyIterFlag::CommonDtype.to_c_enum(), NPY_ITER_COMMON_DTYPE);
    assert_eq!(NpyIterFlag::RefsOk.to_c_enum(), NPY_ITER_REFS_OK);
    assert_eq!(NpyIterFlag::ZerosizeOk.to_c_enum(), NPY_ITER_ZEROSIZE_OK);
    assert_eq!(NpyIterFlag::ReduceOk.to_c_enum(), NPY_ITER_REDUCE_OK);
    assert_eq!(NpyIterFlag::Ranged.to_c_enum(), NPY_ITER_RANGED);
    assert_eq!(NpyIterFlag::Buffered.to_c_enum(), NPY_ITER_BUFFERED);
    assert_eq!(NpyIterFlag::GrowInner.to_c_enum(), NPY_ITER_GROWINNER);
    assert_eq!(NpyIterFlag::DelayBufAlloc.to_c_enum(), NPY_ITER_DELAY_BUFALLOC);
    assert_eq!(NpyIterFlag::DontNegateStrides.to_c_enum(), NPY_ITER_DONT_NEGATE_STRIDES);
    assert_eq!(NpyIterFlag::CopyIfOverlap.to_c_enum(), NPY_ITER_COPY_IF_OVERLAP);
    assert_eq!(NpyIterFlag::CommonDtype.to_c_enum(), 0x10);
    assert_eq!(NpyIterFlag::ZerosizeOk.to_c_enum(), 0x40);
}

#[test]
fn mode_list_flags_in_registration_order() {
    assert_eq!(<() as MultiIterMode>::flags(), Vec::<u32>::new());
    assert_eq!(<RO<RW<()>> as MultiIterMode>::flags(), vec![NPY_ITER_READWRITE, NPY_ITER_READONLY]);
    assert_eq!(
        <RW<RO<RO<()>>> as MultiIterMode>::flags(),
        vec![NPY_ITER_READONLY, NPY_ITER_READONLY, NPY_ITER_READWRITE]
    );
}

#[test]
fn buffer_accessors() {
    let buffer = NpyBuffer::new(vec![2, 2], vec![1u64, 2, 3, 4]).unwrap();
    assert_eq!(buffer.len(), 4);
    assert_eq!(buffer.shape(), &vec![2, 2]);
    assert_eq!(buffer.get(2), 3);
    assert_eq!(buffer.into_elems(), vec![1, 2, 3, 4]);
}

#[test]
fn default_multi_builder_is_empty() {
    let builder: NpyMultiIterBuilder<u64, ()> = Default::default();
    assert_eq!(builder.flags, 0);
    assert!(builder.buffers.is_empty());
}

#[test]
fn builder_accumulates_flags() {
    let buffer = NpyBuffer::from_elems(vec![1.0, 2.0]);
    let builder = NpySingleIterBuilder::readonly(buffer)
        .set(NpyIterFlag::Buffered)
        .set(NpyIterFlag::GrowInner);
    assert_eq!(builder.flags, NPY_ITER_READONLY | NPY_ITER_BUFFERED | NPY_ITER_GROWINNER);

    let buffer = NpyBuffer::from_elems(vec![1.0, 2.0]);
    let builder = NpySingleIterBuilder::readwrite(buffer).set(NpyIterFlag::ZerosizeOk);
    assert_eq!(builder.flags, NPY_ITER_READWRITE | NPY_ITER_ZEROSIZE_OK);

    let builder = NpyMultiIterBuilder::<f64, ()>::new().set(NpyIterFlag::ReduceOk);
    assert_eq!(builder.flags, NPY_ITER_REDUCE_OK);
}

#[test]
fn buffer_shape_must_match_data() {
    match NpyBuffer::new(vec![2, 3], vec![1.0, 2.0, 3.0, 4.0, 5.0]) {
        Ok(_) => panic!("a six-element shape must not accept five elements"),
        Err((shape, data)) => {
            assert_eq!(shape, vec![2, 3]);
            assert_eq!(data, vec![1.0, 2.0, 3.0, 4.0, 5.0]);
        }
    }
    let buffer = NpyBuffer::new(vec![2, 0, 4], Vec::<f64>::new()).unwrap();
    assert_eq!(buffer.len(), 0);

    // A shape whose mathematical element count exceeds the machine is
    // rejected as well.
    assert!(NpyBuffer::new(vec![usize::MAX, 2], vec![1.0, 2.0]).is_err());
}

#[test]
fn zero_size_single_fails_without_flag() {
    let buffer = NpyBuffer::from_elems(Vec::<i64>::new());
    let err = match NpySingleIterBuilder::readonly(buffer).build() {
        Ok(_) => panic!("zero-size construction must be refused without the flag"),
        Err(err) => err,
    };
    assert_eq!(err.kind(), NpyError::ZeroSize);
    // Nothing leaks: the registered buffer comes back intact.
    let buffers = err.into_buffers();
    assert_eq!(buffers.len(), 1);
    assert_eq!(buffers[0].len(), 0);
}

#[test]
fn zero_size_single_succeeds_with_flag() {
    let buffer = NpyBuffer::from_elems(Vec::<i64>::new());
    let mut iter = NpySingleIterBuilder::readonly(buffer)
        .set(NpyIterFlag::ZerosizeOk)
        .build()
        .unwrap();
    assert_eq!(iter.len(), 0);
    assert_eq!(iter.next(), None);
}

#[test]
fn zero_size_multi_fails_without_flag() {
    let b1 = NpyBuffer::from_elems(Vec::<u64>::new());
    let b2 = NpyBuffer::from_elems(Vec::<u64>::new());
    let err = match NpyMultiIterBuilder::new().add_readonly(b1).add_readonly(b2).build() {
        Ok(_) => panic!("zero-size construction must be refused without the flag"),
        Err(err) => err,
    };
    assert_eq!(err.kind(), NpyError::ZeroSize);
    assert_eq!(err.into_buffers().len(), 2);
}

#[test]
fn mismatched_shapes_fail() {
    let b1 = NpyBuffer::new(vec![2, 3], vec![0u64; 6]).unwrap();
    let b2 = NpyBuffer::new(vec![3, 2], vec![0u64; 6]).unwrap();
    let err = match NpyMultiIterBuilder::new().add_readonly(b1).add_readonly(b2).build() {
        Ok(_) => panic!("disagreeing shapes must be refused"),
        Err(err) => err,
    };
    assert_eq!(err.kind(), NpyError::ShapeMismatch);
    // Nothing leaks: both registered buffers come back, in order.
    let buffers = err.into_buffers();
    assert_eq!(buffers.len(), 2);
    assert_eq!(buffers[0].shape(), &vec![2, 3]);
    assert_eq!(buffers[1].shape(), &vec![3, 2]);
}

#[test]
fn exhausted_iterators_stay_exhausted() {
    let buffer = NpyBuffer::from_elems(vec![7u64, 8]);
    let mut iter = NpySingleIterBuilder::readonly(buffer).build().unwrap();
    assert_eq!(iter.size_hint(), (2, Some(2)));
    assert_eq!(iter.next(), Some(7));
    assert_eq!(iter.next(), Some(8));
    assert_eq!(iter.next(), None);
    assert_eq!(iter.next(), None);
    assert_eq!(iter.next(), None);
    assert_eq!(iter.len(), 0);

    let b1 = NpyBuffer::from_elems(vec![1u64]);
    let b2 = NpyBuffer::from_elems(vec![2u64]);
    let mut iter = NpyMultiIterBuilder::new().add_readonly(b1).add_readonly(b2).build().unwrap();
    assert_eq!(iter.size_hint(), (1, Some(1)));
    assert_eq!(iter.next(), Some(vec![1, 2]));
    assert_eq!(iter.next(), None);
    assert_eq!(iter.next(), None);
    assert_eq!(iter.peek(), None);
    assert_eq!(iter.size_hint(), (0, Some(0)));
}

#[test]
fn single_readonly_counts_and_sums() {
    let buffer = NpyBuffer::new(vec![2, 2], vec![3u64, 5, 11, 2]).unwrap();
    let iter = NpySingleIterBuilder::readonly(buffer).build().unwrap();
    let (count, sum) = sum_single_readonly(iter);
    assert_eq!(count, 4);
    assert_eq!(sum, 21);
}

#[test]
fn single_readwrite_doubles_in_place() {
    let buffer = NpyBuffer::new(vec![3, 2], vec![0u64, 1, 2, 3, 4, 5]).unwrap();
    let iter = NpySingleIterBuilder::readwrite(buffer).build().unwrap();
    let buffer = double_single_readwrite(iter);
    // Re-read the same buffer through a fresh read-only iterator.
    let iter = NpySingleIterBuilder::readonly(buffer).build().unwrap();
    let reread = iter.collect_remaining();
    assert_eq!(reread, vec![0, 2, 4, 6, 8, 10]);
}

#[test]
fn double_then_reread_roundtrip() {
    let buffer = NpyBuffer::new(vec![2, 3], vec![5u64, 10, 15, 20, 25, 30]).unwrap();
    assert_eq!(double_then_reread(buffer), vec![10, 20, 30, 40, 50, 60]);
    // An empty buffer round-trips too: the pass enables zero-size iteration.
    let empty = NpyBuffer::from_elems(Vec::<u64>::new());
    assert_eq!(double_then_reread(empty), Vec::<u64>::new());
}

#[test]
fn lockstep_product_sum() {
    // Two-by-three buffers zipped read-only: the products over all six
    // steps sum to 0*6 + 1*7 + 2*8 + 3*9 + 4*10 + 5*11 = 145.
    let b1 = NpyBuffer::new(vec![3, 2], vec![0u64, 1, 2, 3, 4, 5]).unwrap();
    let b2 = NpyBuffer::new(vec![3, 2], vec![6u64, 7, 8, 9, 10, 11]).unwrap();
    let iter = NpyMultiIterBuilder::new().add_readonly(b1).add_readonly(b2).build().unwrap();
    assert_eq!(product_sum_multi_readonly(iter), 145);
}

#[test]
fn lockstep_write_doubles_left_into_right() {
    let left = NpyBuffer::new(vec![2, 2], vec![1u64, 2, 3, 4]).unwrap();
    let right = NpyBuffer::new(vec![2, 2], vec![0u64, 0, 0, 0]).unwrap();
    let iter = NpyMultiIterBuilder::new().add_readonly(left).add_readwrite(right).build().unwrap();
    let mut buffers = double_multi_into_writable(iter);
    let right = buffers.pop().unwrap();
    let left = buffers.pop().unwrap();
    assert_eq!(left.into_elems(), vec![1, 2, 3, 4]);
    assert_eq!(right.into_elems(), vec![2, 4, 6, 8]);
}

#[test]
fn three_buffer_lockstep() {
    let b1 = NpyBuffer::from_elems(vec![1u64, 2, 3]);
    let b2 = NpyBuffer::from_elems(vec![10u64, 20, 30]);
    let b3 = NpyBuffer::from_elems(vec![0u64, 0, 0]);
    let mut iter = NpyMultiIterBuilder::new()
        .add_readonly(b1)
        .add_readonly(b2)
        .add_readwrite(b3)
        .build()
        .unwrap();
    assert_eq!(iter.len(), 3);
    while let Some(row) = iter.peek() {
        iter.write(2, row[0] + row[1]);
        iter.next();
    }
    let sums = iter.into_buffers().pop().unwrap();
    assert_eq!(sums.into_elems(), vec![11, 22, 33]);
}

#[test]
fn collect_rows_is_exact() {
    let b1 = NpyBuffer::from_elems(vec![1u64, 2]);
    let b2 = NpyBuffer::from_elems(vec![3u64, 4]);
    let iter = NpyMultiIterBuilder::new().add_readonly(b1).add_readonly(b2).build().unwrap();
    assert_eq!(iter.collect_rows(), vec![vec![1, 3], vec![2, 4]]);
}

#[test]
fn collect_remaining_is_exact() {
    let buffer = NpyBuffer::new(vec![1, 4], vec![9u64, 8, 7, 6]).unwrap();
    let mut iter = NpySingleIterBuilder::readonly(buffer).build().unwrap();
    assert_eq!(iter.next(), Some(9));
    assert_eq!(iter.collect_remaining(), vec![8, 7, 6]);
}
