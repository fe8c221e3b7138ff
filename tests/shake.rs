use bevy_pong::collider;
use bevy_pong::collision::Collision;
use bevy_pong::shake::{Dimensions, Event, Shake, Shaker};

#[test]
fn shake_from_collision() {
    let e = Event::from_collision(collider::Event { intensity: 30_000, kind: Collision::Left });
    assert_eq!(e.intensity, 10_000);
    assert_eq!(e.duration_ms, 1000);
    let e = Event::from_collision(collider::Event { intensity: 600, kind: Collision::Left });
    assert_eq!(e.intensity, 200);
    assert_eq!(e.duration_ms, 200);
    let e = Event::from_collision(collider::Event { intensity: 3_000, kind: Collision::Top });
    assert_eq!(e.duration_ms, 500);
}

#[test]
fn shake_fades_and_ends() {
    let mut s = Shake::from_event(Event { intensity: 1000, duration_ms: 100 });
    assert_eq!(s.calculate_from(0x8000_0000, 0, u32::MAX), (500, 0, 999));
    s.tick(50);
    assert!(!s.done());
    assert_eq!(s.calculate_from(0x8000_0000, 0, 0), (250, 0, 0));
    s.tick(60);
    assert!(s.done());
    assert_eq!(s.elapsed_ms, 100);
    assert_eq!(s.calculate_from(0x8000_0000, 1, 1), (0, 0, 0));
    assert_eq!(s.calculate(), (0, 0, 0));
}

#[test]
fn shakers_by_dimension() {
    assert_eq!(Shaker::new_2d().0, Dimensions::Two);
    assert_eq!(Shaker::new_3d().0, Dimensions::Three);
    assert_eq!(Shaker::new_2d().offset((1, 2, 3)), (1, 2, 0));
    assert_eq!(Shaker::new_3d().offset((1, 2, 3)), (1, 2, 3));
    let d = Shake::default().with_intensity(7);
    assert_eq!(d.intensity, 7);
    let (x, y, z) = d.calculate();
    assert!(x <= 7 && y <= 7 && z <= 7);
}
