use shape_render::cache::{describe_fill, describe_shape, AddStep, Fill, ShapeCache};
use shape_render::shape::Shape;

#[test]
fn equal_inputs_have_equal_keys() {
    let shapes = [
        Shape::Ellipse(4, (64, 64)),
        Shape::Rectangle(4, (64, 64)),
        Shape::RoundedRectangle(4, (64, 64), 8),
    ];
    let fills = [Fill::Solid((255, 0, 0, 255)), Fill::Image(3)];
    for shape in shapes {
        for fill in fills {
            let copy = shape;
            let fill_copy = fill;
            assert_eq!(ShapeCache::key(&shape, &fill), ShapeCache::key(&copy, &fill_copy));
        }
    }
}

#[test]
fn different_inputs_have_different_keys() {
    let red = Fill::Solid((255, 0, 0, 255));
    let base = ShapeCache::key(&Shape::Ellipse(4, (64, 64)), &red);
    assert_ne!(base, ShapeCache::key(&Shape::Ellipse(5, (64, 64)), &red));
    assert_ne!(base, ShapeCache::key(&Shape::Ellipse(4, (64, 65)), &red));
    assert_ne!(base, ShapeCache::key(&Shape::Rectangle(4, (64, 64)), &red));
    assert_ne!(base, ShapeCache::key(&Shape::Ellipse(4, (64, 64)), &Fill::Solid((255, 0, 0, 254))));
    assert_ne!(base, ShapeCache::key(&Shape::Ellipse(4, (64, 64)), &Fill::Image(0)));
}

#[test]
fn shapes_are_described_field_by_field() {
    assert_eq!(
        describe_shape(&Shape::Ellipse(1, (0x0201, 0x04030201))),
        vec![0, 1, 0, 0, 0, 1, 2, 0, 0, 1, 2, 3, 4]
    );
    assert_eq!(
        describe_shape(&Shape::Rectangle(0, (3, 2))),
        vec![1, 0, 0, 0, 0, 3, 0, 0, 0, 2, 0, 0, 0]
    );
    assert_eq!(
        describe_shape(&Shape::RoundedRectangle(9, (3, 2), 256)),
        vec![2, 9, 0, 0, 0, 3, 0, 0, 0, 2, 0, 0, 0, 0, 1, 0, 0]
    );
}

#[test]
fn fills_are_described_field_by_field() {
    assert_eq!(describe_fill(&Fill::Solid((1, 2, 3, 4))), vec![0, 1, 2, 3, 4]);
    assert_eq!(
        describe_fill(&Fill::Image(0x0807060504030201)),
        vec![1, 1, 2, 3, 4, 5, 6, 7, 8]
    );
}

#[test]
fn shape_is_built_once() {
    let mut cache = ShapeCache::new();
    let shape = Shape::Ellipse(4, (64, 64));
    let fill = Fill::Solid((255, 0, 0, 255));
    let mut builds = 0;
    for _ in 0..2 {
        match cache.add(&shape, &fill) {
            AddStep::Build(key) => {
                builds += 1;
                cache.complete(key, 40 + builds);
            }
            AddStep::Cached(key) => assert_eq!(cache.get(key), 41),
        }
    }
    assert_eq!(builds, 1);
    let key = ShapeCache::key(&shape, &fill);
    assert_eq!(cache.add(&shape, &fill), AddStep::Cached(key));
}

#[test]
fn add_without_complete_asks_to_build_again() {
    let cache = ShapeCache::new();
    let shape = Shape::Rectangle(0, (8, 8));
    let fill = Fill::Image(5);
    let key = ShapeCache::key(&shape, &fill);
    assert_eq!(cache.add(&shape, &fill), AddStep::Build(key));
    assert_eq!(cache.add(&shape, &fill), AddStep::Build(key));
    assert!(!cache.contains(key));
}

#[test]
fn complete_keeps_the_first_handle() {
    let mut cache = ShapeCache::new();
    cache.complete(1, 10);
    cache.complete(1, 11);
    cache.complete(2, 20);
    assert_eq!(cache.get(1), 10);
    assert_eq!(cache.get(2), 20);
    assert!(cache.contains(1));
    assert!(!cache.contains(3));
}

#[test]
fn remove_drops_the_entry() {
    let mut cache = ShapeCache::new();
    let shape = Shape::Ellipse(0, (8, 8));
    let fill = Fill::Solid((0, 0, 0, 255));
    let key = ShapeCache::key(&shape, &fill);
    cache.complete(key, 3);
    cache.complete(key + 1, 4);
    cache.remove(key);
    assert!(!cache.contains(key));
    assert_eq!(cache.get(key + 1), 4);
    assert_eq!(cache.add(&shape, &fill), AddStep::Build(key));
    cache.remove(key);
    assert!(!cache.contains(key));
}
