use anyof::AnyOf;
use anyof::AnyTag;

trait Shape {
    fn area(&self) -> f64;
}

#[derive(Debug, PartialEq)]
struct Circle {
    radius: f64,
}

impl AnyTag for Circle {
    fn token_spec() -> u64 {
        201
    }
    fn token() -> u64 {
        201
    }
}

impl Shape for Circle {
    fn area(&self) -> f64 {
        std::f64::consts::PI * self.radius * self.radius
    }
}

#[derive(Debug, PartialEq)]
struct Square {
    side: f64,
}

impl AnyTag for Square {
    fn token_spec() -> u64 {
        202
    }
    fn token() -> u64 {
        202
    }
}

impl Shape for Square {
    fn area(&self) -> f64 {
        self.side * self.side
    }
}

#[test]
fn test_circle_box() {
    let shape = AnyOf::new(Circle { radius: 2.0 });
    assert!(shape.is::<Circle>());
    assert!(!shape.is::<Square>());
    let circle = shape.downcast_ref::<Circle>().unwrap();
    assert_eq!(circle.radius, 2.0);
    assert!(shape.downcast_ref::<Square>().is_none());
    let area = shape.inner().area();
    assert!((area - 12.566370614359172).abs() < 1e-9);
}

#[test]
fn test_circle_mutation() {
    let mut shape = AnyOf::new(Circle { radius: 0.0 });
    let circle = shape.downcast_mut::<Circle>().unwrap();
    circle.radius = 5.0;
    assert_eq!(shape.downcast_ref::<Circle>().unwrap().radius, 5.0);
    let area = shape.inner().area();
    assert!((area - 78.53981633974483).abs() < 1e-9);
}
