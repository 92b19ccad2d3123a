use cowtensor::tensor::Tensor;
use cowtensor::Error;

#[test]
fn zeros_two_by_three_loads_six_zeros() {
    let t = Tensor::<i32>::zeros(&vec![2, 3]);
    assert_eq!(t.shape(), &vec![2, 3]);
    let mut dst = vec![5i32; 6];
    assert_eq!(t.load(&mut dst), Ok(()));
    assert_eq!(dst, vec![0i32; 6]);
}

#[test]
fn new_filled_four_loads_four_sevens() {
    let t = Tensor::<i32>::new_filled(&vec![4], 7);
    let mut dst = vec![0i32; 4];
    assert_eq!(t.load(&mut dst), Ok(()));
    assert_eq!(dst, vec![7, 7, 7, 7]);
}

#[test]
fn new_zeroed_matches_type_zero_for_various_shapes() {
    // the empty shape describes a single element
    let t = Tensor::<u8>::new_zeroed(&vec![]);
    let mut dst = vec![9u8; 1];
    assert_eq!(t.load(&mut dst), Ok(()));
    assert_eq!(dst, vec![0u8]);

    // a zero entry makes the element count zero
    let t = Tensor::<u8>::new_zeroed(&vec![3, 0, 2]);
    let mut empty: Vec<u8> = Vec::new();
    assert_eq!(t.load(&mut empty), Ok(()));
    assert_eq!(empty, Vec::<u8>::new());

    let t = Tensor::<i64>::new_zeroed(&vec![5]);
    let mut dst = vec![1i64; 5];
    assert_eq!(t.load(&mut dst), Ok(()));
    assert_eq!(dst, vec![0i64; 5]);
}

#[test]
fn new_filled_fills_entirely_with_value() {
    let t = Tensor::<i64>::new_filled(&vec![2, 2], -3);
    let mut dst = vec![0i64; 4];
    assert_eq!(t.load(&mut dst), Ok(()));
    assert_eq!(dst, vec![-3, -3, -3, -3]);
}

#[test]
fn reshape_succeeds_iff_products_match() {
    let t = Tensor::<i32>::zeros(&vec![2, 3]);
    let r = t.reshape(&vec![3, 2]);
    assert!(r.is_ok());
    assert_eq!(r.unwrap().shape(), &vec![3, 2]);
    let bad = t.reshape(&vec![4]);
    assert_eq!(bad.err(), Some(Error::SizeMismatch));
}

#[test]
fn failed_reshape_leaves_original_unchanged() {
    let t = Tensor::<i32>::new_filled(&vec![2, 3], 2);
    let bad = t.reshape(&vec![7]);
    assert_eq!(bad.err(), Some(Error::SizeMismatch));
    assert_eq!(t.shape(), &vec![2, 3]);
    let mut dst = vec![0i32; 6];
    assert_eq!(t.load(&mut dst), Ok(()));
    assert_eq!(dst, vec![2i32; 6]);
}

#[test]
fn load_and_store_succeed_iff_lengths_match() {
    let mut t = Tensor::<u32>::new_filled(&vec![3], 4);

    let mut short = vec![8u32; 2];
    assert_eq!(t.load(&mut short), Err(Error::SizeMismatch));
    assert_eq!(short, vec![8u32; 2]); // untouched

    assert_eq!(t.store(&vec![1u32; 5]), Err(Error::SizeMismatch));
    let mut dst = vec![0u32; 3];
    assert_eq!(t.load(&mut dst), Ok(()));
    assert_eq!(dst, vec![4u32; 3]); // untouched

    assert_eq!(t.store(&vec![1, 2, 3]), Ok(()));
    assert_eq!(t.load(&mut dst), Ok(()));
    assert_eq!(dst, vec![1, 2, 3]);
}

#[test]
fn store_then_load_round_trips() {
    let mut t = Tensor::<u64>::new_uninit(&vec![2, 2]);
    assert_eq!(t.shape(), &vec![2, 2]);
    let contents = vec![10u64, 20, 30, 40];
    assert_eq!(t.store(&contents), Ok(()));
    let mut dst = vec![0u64; 4];
    assert_eq!(t.load(&mut dst), Ok(()));
    assert_eq!(dst, contents);
}

#[test]
fn store_through_one_tensor_is_invisible_to_its_sibling() {
    let a = Tensor::<i32>::new_filled(&vec![2, 3], 1);
    let mut b = a.reshape(&vec![6]).unwrap();

    let mut before = vec![0i32; 6];
    assert_eq!(b.load(&mut before), Ok(()));
    assert_eq!(before, vec![1i32; 6]); // b shares a's contents

    assert_eq!(b.store(&vec![9i32; 6]), Ok(()));

    let mut from_a = vec![0i32; 6];
    assert_eq!(a.load(&mut from_a), Ok(()));
    assert_eq!(from_a, vec![1i32; 6]); // a still reads its pre-store contents

    let mut from_b = vec![0i32; 6];
    assert_eq!(b.load(&mut from_b), Ok(()));
    assert_eq!(from_b, vec![9i32; 6]);
}

#[test]
fn writes_stay_private_along_a_reshape_chain() {
    let a = Tensor::<i16>::new_filled(&vec![4], 2);
    let b = a.reshape(&vec![2, 2]).unwrap();
    let mut c = b.reshape(&vec![1, 4]).unwrap();

    assert_eq!(c.store(&vec![7i16; 4]), Ok(()));

    let mut dst = vec![0i16; 4];
    assert_eq!(a.load(&mut dst), Ok(()));
    assert_eq!(dst, vec![2i16; 4]);
    assert_eq!(b.load(&mut dst), Ok(()));
    assert_eq!(dst, vec![2i16; 4]);
    assert_eq!(c.load(&mut dst), Ok(()));
    assert_eq!(dst, vec![7i16; 4]);
}

#[test]
fn empty_element_count_store_and_load() {
    let mut t = Tensor::<u8>::zeros(&vec![0]);
    let mut dst: Vec<u8> = Vec::new();
    assert_eq!(t.store(&Vec::new()), Ok(()));
    assert_eq!(t.load(&mut dst), Ok(()));
    assert!(dst.is_empty());
    assert_eq!(t.load(&mut vec![1u8]), Err(Error::SizeMismatch));
}
