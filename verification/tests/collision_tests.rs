use rusty_ship::collision::{check_collision, rects_overlap, Hitbox};

#[test]
fn test_overlap() {
    let a = Hitbox::new(0, 0, 10, 10);
    let b = Hitbox::new(5, 5, 10, 10);
    assert!(check_collision(&a, &b));
}

#[test]
fn test_no_overlap() {
    let a = Hitbox::new(0, 0, 10, 10);
    let b = Hitbox::new(20, 20, 10, 10);
    assert!(!check_collision(&a, &b));
}

#[test]
fn test_contained() {
    let a = Hitbox::new(0, 0, 20, 20);
    let b = Hitbox::new(5, 5, 5, 5);
    assert!(check_collision(&a, &b));
}

#[test]
fn test_edge_touching() {
    let a = Hitbox::new(0, 0, 10, 10);
    let b = Hitbox::new(10, 0, 10, 10);
    assert!(!check_collision(&a, &b));
}

#[test]
fn test_negative_coords() {
    let a = Hitbox::new(-5, -5, 10, 10);
    let b = Hitbox::new(0, 0, 10, 10);
    assert!(check_collision(&a, &b));
}

#[test]
fn test_zero_size() {
    let a = Hitbox::new(5, 5, 0, 0);
    let b = Hitbox::new(5, 5, 10, 10);
    assert!(!check_collision(&a, &b));
}

#[test]
fn test_rects_overlap() {
    assert!(rects_overlap((0, 0, 10, 10), (5, 5, 10, 10)));
    assert!(!rects_overlap((0, 0, 5, 5), (10, 10, 5, 5)));
}

#[test]
fn overlap_does_not_depend_on_order() {
    let boxes = [
        Hitbox::new(0, 0, 10, 10),
        Hitbox::new(5, 5, 10, 10),
        Hitbox::new(10, 0, 10, 10),
        Hitbox::new(-5, -5, 3, 3),
        Hitbox::new(6, 6, 0, 0),
    ];
    for a in &boxes {
        for b in &boxes {
            assert_eq!(check_collision(a, b), check_collision(b, a));
        }
    }
}

#[test]
fn a_box_with_area_overlaps_itself() {
    let a = Hitbox::new(3, 4, 7, 2);
    assert!(check_collision(&a, &a));
}

#[test]
fn a_point_strictly_inside_a_box_collides() {
    let point = Hitbox::new(6, 6, 0, 0);
    let b = Hitbox::new(5, 5, 10, 10);
    assert!(check_collision(&point, &b));
}

#[test]
fn extreme_coordinates_do_not_overflow() {
    let a = Hitbox::new(i32::MAX - 1, i32::MAX - 1, i32::MAX, i32::MAX);
    let b = Hitbox::new(i32::MIN, i32::MIN, 1, 1);
    assert!(!check_collision(&a, &b));
    assert!(check_collision(&a, &Hitbox::new(i32::MAX - 1, i32::MAX - 1, 1, 1)));
}
