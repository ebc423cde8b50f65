use npyiter::{NpyBuffer, NpyMultiIterBuilder, NpySingleIterBuilder};

#[test]
fn readonly_iter() {
    let data = vec![0.0, 1.0, 2.0, 3.0, 4.0, 5.0];
    let buffer = NpyBuffer::new(vec![3, 2], data).unwrap();

    let mut iter = NpySingleIterBuilder::readonly(buffer).build().unwrap();

    // The order of iteration is not specified, so we should restrict ourselves
    // to tests that don't verify a given order.
    let mut sum = 0.0;
    while let Some(x) = iter.next() {
        sum += x;
    }
    assert_eq!(sum, 15.0);
}

#[test]
fn mutable_iter() {
    let data = vec![0.0, 1.0, 2.0, 3.0, 4.0, 5.0];
    let buffer = NpyBuffer::new(vec![3, 2], data).unwrap();

    let mut iter = NpySingleIterBuilder::readwrite(buffer).build().unwrap();
    while let Some(x) = iter.peek() {
        iter.write(x * 2.0); // Elements can be mutated.
        iter.next();
    }

    let buffer = iter.into_buffer();
    let mut iter = NpySingleIterBuilder::readonly(buffer).build().unwrap();
    let mut sum = 0.0;
    while let Some(x) = iter.next() {
        sum += x;
    }
    assert_eq!(sum, 30.0);
}

#[test]
fn multiiter_rr() {
    let data1 = vec![0.0, 1.0, 2.0, 3.0, 4.0, 5.0];
    let data2 = vec![6.0, 7.0, 8.0, 9.0, 10.0, 11.0];

    let arr1 = NpyBuffer::new(vec![3, 2], data1).unwrap();
    let arr2 = NpyBuffer::new(vec![3, 2], data2).unwrap();
    let mut iter = NpyMultiIterBuilder::new()
        .add_readonly(arr1)
        .add_readonly(arr2)
        .build()
        .unwrap();

    let mut sum = 0.0;
    while let Some(row) = iter.next() {
        sum += row[0] * row[1];
    }

    assert_eq!(sum, 145.0);
}

#[test]
fn multiiter_rw() {
    let data1 = vec![0.0, 1.0, 2.0, 3.0, 4.0, 5.0];
    let data2 = vec![0.0, 0.0, 0.0, 0.0, 0.0, 0.0];

    let arr1 = NpyBuffer::new(vec![3, 2], data1).unwrap();
    let arr2 = NpyBuffer::new(vec![3, 2], data2).unwrap();
    let mut iter = NpyMultiIterBuilder::new()
        .add_readonly(arr1)
        .add_readwrite(arr2)
        .build()
        .unwrap();

    while let Some(row) = iter.peek() {
        iter.write(1, row[0] * 2.0);
        iter.next();
    }

    let mut buffers = iter.into_buffers();
    let arr2 = buffers.pop().unwrap();
    let arr1 = buffers.pop().unwrap();

    let mut iter = NpyMultiIterBuilder::new()
        .add_readonly(arr1)
        .add_readonly(arr2)
        .build()
        .unwrap();

    while let Some(row) = iter.next() {
        assert_eq!(row[0] * 2.0, row[1]);
    }
}
