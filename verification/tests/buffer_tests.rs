use attestation_verification::buffer::{BytesView, RustBytes};

#[test]
fn bytes_view_exposes_the_borrowed_bytes() {
    let data = [1u8, 2, 3, 4];
    let view = BytesView::new(&data);
    assert_eq!(view.as_slice(), &data);

    let view = BytesView::new_from_slice(&data[1..3]);
    assert_eq!(view.as_slice(), &[2u8, 3]);
}

#[test]
fn rust_bytes_owns_and_exposes_its_bytes() {
    let owned = RustBytes::new(vec![9u8, 8, 7]);
    assert_eq!(owned.as_slice(), &[9u8, 8, 7]);

    let view = owned.as_bytes_view();
    assert_eq!(view.as_slice(), &[9u8, 8, 7]);
}
