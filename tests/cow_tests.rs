use rock::cow::CowCell;
use rock::math::{LuaTransform, LuaVector, Transform};

#[test]
fn shared_handles_read_the_same_value() {
    let a = CowCell::new(5u32);
    let b = a.share();
    assert_eq!(*a.get(), 5);
    assert_eq!(*b.get(), 5);
}

#[test]
fn writing_one_handle_leaves_the_other() {
    let mut a = CowCell::new(vec![1u8, 2, 3]);
    let b = a.share();
    a.set(vec![9]);
    assert_eq!(a.get(), &vec![9]);
    assert_eq!(b.get(), &vec![1, 2, 3]);
}

#[test]
fn transform_setters_copy_on_write() {
    let mut t = LuaTransform::from_transform(Transform::identity());
    let shared = t.share();
    t.set_position([1, 2, 3]);
    t.set_rotation([4, 5, 6, 7]);
    t.set_scale([8, 9, 10]);
    assert_eq!(t.get(), Transform::new([1, 2, 3], [4, 5, 6, 7], [8, 9, 10]));
    assert_eq!(t.get_position(), [1, 2, 3]);
    assert_eq!(t.get_rotation(), [4, 5, 6, 7]);
    assert_eq!(t.get_scale(), [8, 9, 10]);
    assert_eq!(shared.get(), Transform::identity());
}

#[test]
fn vector_components_copy_on_write() {
    let mut a = LuaVector::new(vec![1, 2, 3]);
    let b = a.share();
    a.set(1, 7);
    assert_eq!(a.components(), vec![1, 7, 3]);
    assert_eq!(a.get(1), 7);
    assert_eq!(a.len(), 3);
    assert_eq!(b.components(), vec![1, 2, 3]);
}
