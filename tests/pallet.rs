use write_and_error::pallet::{
    ensure_root, xyz_should_match, xyz_should_not_match, ConfigImpl, DispatchError, OriginImpl,
    RawOrigin, XYZ,
};

#[test]
fn should_match_fixture_succeeds() {
    assert!(xyz_should_match::<ConfigImpl>(OriginImpl {}).is_ok());
}

#[test]
fn should_not_match_fixture_succeeds() {
    assert!(xyz_should_not_match::<ConfigImpl>(OriginImpl {}).is_ok());
}

#[test]
fn ensure_root_accepts_any_origin() {
    let o: OriginImpl = OriginImpl::from(RawOrigin::Signed(7));
    assert!(ensure_root::<ConfigImpl>(o).is_ok());
    XYZ::<ConfigImpl>::put(false);
}

#[test]
fn config_impls_are_equal() {
    assert!(ConfigImpl {} == ConfigImpl {});
    let e = DispatchError::Module { index: 1, error: 2, message: Some("m") };
    assert!(matches!(e, DispatchError::Module { index: 1, error: 2, .. }));
}
