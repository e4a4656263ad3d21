use syphon::surface_pool::{surface_properties, BYTES_PER_ELEMENT};
use syphon::utils::pixel_format::BGRA;
use syphon::IOSurfacePool;

#[test]
fn test_surface_pool() {
    let mut pool = IOSurfacePool::new(640, 480, 3, vec![1u32, 2, 3]);
    assert_eq!(pool.capacity(), 3);

    assert_eq!(pool.available(), 3);

    let surface = pool.acquire();
    assert!(surface.is_some());
    assert_eq!(pool.available(), 2);

    pool.release(surface.unwrap());
    assert_eq!(pool.available(), 3);
}

#[test]
fn pool_is_last_in_first_out() {
    let mut pool = IOSurfacePool::new(64, 64, 2, vec!["a", "b"]);
    assert_eq!(pool.acquire(), Some("b"));
    pool.release("c");
    assert_eq!(pool.acquire(), Some("c"));
    assert_eq!(pool.acquire(), Some("a"));
    assert_eq!(pool.acquire(), None);
    assert_eq!(pool.available(), 0);
    assert_eq!(pool.capacity(), 2);
}

#[test]
fn surface_properties_describe_bgra_surface() {
    let props = surface_properties(1920, 1080);
    assert_eq!(
        props,
        vec![
            ("IOSurfaceWidth".to_string(), 1920),
            ("IOSurfaceHeight".to_string(), 1080),
            ("IOSurfaceBytesPerElement".to_string(), BYTES_PER_ELEMENT),
            ("IOSurfacePixelFormat".to_string(), BGRA as i64),
        ]
    );
    assert_eq!(BYTES_PER_ELEMENT, 4);
    assert_eq!(BGRA as i64, 0x42475241);
}
