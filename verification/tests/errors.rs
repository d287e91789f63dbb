use frameloop::error::{
    maybe_vulkan_error, to_other, to_vulkan, vulkan_error_name, Error, ERROR_DEVICE_LOST,
    ERROR_OUT_OF_DATE_KHR, SUBOPTIMAL_KHR, SUCCESS, TIMEOUT,
};

#[test]
fn success_code_is_ok() {
    assert!(maybe_vulkan_error(SUCCESS).is_ok());
}

#[test]
fn nonzero_code_is_kept() {
    match maybe_vulkan_error(ERROR_DEVICE_LOST) {
        Err(Error::VulkanError(code)) => assert_eq!(code, ERROR_DEVICE_LOST),
        _ => panic!("a non-success code must be kept"),
    }
}

#[test]
fn conversions_wrap_their_argument() {
    assert!(matches!(to_vulkan(TIMEOUT), Error::VulkanError(2)));
    match to_other("boom".to_string()) {
        Error::Other(msg) => assert_eq!(msg, "boom"),
        _ => panic!("to_other wraps the text"),
    }
}

#[test]
fn error_codes_have_their_names() {
    assert_eq!(vulkan_error_name(TIMEOUT), "TIMEOUT");
    assert_eq!(vulkan_error_name(ERROR_OUT_OF_DATE_KHR), "ERROR_OUT_OF_DATE_KHR");
    assert_eq!(vulkan_error_name(SUBOPTIMAL_KHR), "SUBOPTIMAL_KHR");
    assert_eq!(vulkan_error_name(ERROR_DEVICE_LOST), "ERROR_DEVICE_LOST");
    assert_eq!(vulkan_error_name(0xdeadbeef), "unknown vulkan error");
}

#[test]
fn errors_describe_themselves() {
    let e = Error::VulkanError(ERROR_OUT_OF_DATE_KHR);
    assert_eq!(e.describe(), "Vulkan error: ERROR_OUT_OF_DATE_KHR");
    let o = Error::Other("no good format found".to_string());
    assert_eq!(o.describe(), "Other error: no good format found");
}

#[test]
fn out_of_date_code_matches_the_driver_value() {
    // the driver's value is -1000001004 as a signed 32-bit number
    assert_eq!(ERROR_OUT_OF_DATE_KHR, (-1000001004i32) as u32);
}
