use syphon::is_available;

#[test]
fn lib_test_availability() {
    // Off macOS the class lookup finds nothing, and Syphon is not available.
    let available = is_available(false);
    println!("Syphon available: {}", available);
    assert!(!available);
}

#[test]
fn test_availability() {
    println!("Syphon available: {}", is_available(false));
}

#[test]
fn availability_follows_class_lookup() {
    assert!(is_available(true));
    assert!(!is_available(false));
}
