use hwrng::error::{to_result, Error};

#[test]
fn every_error_has_its_code() {
    assert_eq!(Error::RangeExceeded.to_kernel_errno(), -34);
    assert_eq!(Error::Timeout.to_kernel_errno(), -110);
    assert_eq!(Error::OutOfRange.to_kernel_errno(), -22);
    assert_eq!(Error::NotReady.to_kernel_errno(), -6);
    assert_eq!(Error::Unsupported.to_kernel_errno(), -22);
    assert_eq!(Error::ResourceUnavailable { errno: -16 }.to_kernel_errno(), -16);
}

#[test]
fn codes_outside_the_range_become_invalid_argument() {
    assert_eq!(Error::ResourceUnavailable { errno: 0 }.to_kernel_errno(), -22);
    assert_eq!(Error::ResourceUnavailable { errno: 5 }.to_kernel_errno(), -22);
    assert_eq!(Error::ResourceUnavailable { errno: -4096 }.to_kernel_errno(), -22);
    assert_eq!(Error::ResourceUnavailable { errno: -4095 }.to_kernel_errno(), -4095);
    assert_eq!(Error::from_kernel_errno(-4096), Error::ResourceUnavailable { errno: -22 });
    assert_eq!(Error::from_kernel_errno(3), Error::ResourceUnavailable { errno: -22 });
    assert_eq!(Error::from_kernel_errno(-517), Error::ResourceUnavailable { errno: -517 });
}

#[test]
fn to_result_splits_at_zero() {
    assert_eq!(to_result(0), Ok(()));
    assert_eq!(to_result(1), Ok(()));
    assert_eq!(to_result(-1), Err(Error::ResourceUnavailable { errno: -1 }));
    assert_eq!(to_result(i32::MIN), Err(Error::ResourceUnavailable { errno: -22 }));
}
