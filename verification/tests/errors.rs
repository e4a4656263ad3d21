use syphon::utils::check_objc_string;
use syphon::SyphonError;

#[test]
fn error_messages() {
    let cases = vec![
        (SyphonError::NotAvailable, "Syphon is not available on this platform"),
        (SyphonError::FrameworkNotFound("x".to_string()), "Syphon framework not found: x"),
        (SyphonError::CreateFailed("boom".to_string()), "Failed to create Syphon object: boom"),
        (SyphonError::ServerNotFound("Arena".to_string()), "Syphon server 'Arena' not found"),
        (
            SyphonError::AmbiguousServerName("Arena".to_string()),
            "Multiple Syphon servers named 'Arena' \u{2014} use connect_by_info() with a UUID for precise selection",
        ),
        (SyphonError::InvalidParameter("bad".to_string()), "Invalid parameter: bad"),
        (SyphonError::PublishFailed("p".to_string()), "Failed to publish frame: p"),
        (SyphonError::ReceiveFailed("r".to_string()), "Failed to receive frame: r"),
        (SyphonError::ObjcException, "Objective-C exception was thrown"),
        (SyphonError::LockFailed, "Failed to lock/unlock IOSurface"),
        (SyphonError::InvalidFrame, "Invalid frame received"),
        (SyphonError::IOSurfaceError(3758097084), "IOSurface error: 3758097084"),
        (SyphonError::IOSurfaceError(0), "IOSurface error: 0"),
        (SyphonError::TextureError("t".to_string()), "Texture error: t"),
        (SyphonError::Other("plain".to_string()), "plain"),
    ];
    for (e, text) in cases {
        assert_eq!(e.to_string(), text);
    }
}

#[test]
fn objc_string_without_nul_is_accepted() {
    assert_eq!(check_objc_string("My App"), Ok(()));
    assert_eq!(check_objc_string(""), Ok(()));
    assert_eq!(check_objc_string("caf\u{e9}"), Ok(()));
}

#[test]
fn objc_string_with_nul_names_its_byte_offset() {
    assert_eq!(
        check_objc_string("ab\0cd\0"),
        Err(SyphonError::InvalidParameter(
            "Invalid string: nul byte found in provided data at position: 2".to_string()
        ))
    );
    // 'é' takes two bytes, so the NUL after it is at byte 2.
    assert_eq!(
        check_objc_string("\u{e9}\0"),
        Err(SyphonError::InvalidParameter(
            "Invalid string: nul byte found in provided data at position: 2".to_string()
        ))
    );
    let long = format!("{}\0", "x".repeat(123));
    assert_eq!(
        check_objc_string(&long),
        Err(SyphonError::InvalidParameter(
            "Invalid string: nul byte found in provided data at position: 123".to_string()
        ))
    );
}
