use kb_engine::kb_collision::{
    KbCollisionAABB, KbCollisionHandle, KbCollisionManager, KbCollisionShape, KbCollisionSphere,
    KbRayHit, KbRaySpan,
};
use kb_engine::kb_utils::{CgVec3, KbFloat};

fn f(v: f32) -> KbFloat {
    KbFloat::from_bits(v.to_bits())
}

fn v3(x: f32, y: f32, z: f32) -> CgVec3 {
    CgVec3::new(f(x), f(y), f(z))
}

fn aabb(x: f32, block: bool) -> KbCollisionShape {
    KbCollisionShape::AABB(KbCollisionAABB {
        position: v3(x, 0.0, 0.0),
        extents: v3(1.0, 2.0, 3.0),
        block,
    })
}

fn sphere(x: f32) -> KbCollisionShape {
    KbCollisionShape::Sphere(KbCollisionSphere { position: v3(x, 0.0, 0.0), radius: f(1.5) })
}

fn span(handle: KbCollisionHandle, enter: f32, leave: f32) -> KbRaySpan {
    KbRaySpan { handle, enter: f(enter), leave: f(leave) }
}

fn miss() -> KbRayHit {
    KbRayHit {
        distance: f(f32::MAX),
        handle: Some(KbCollisionHandle::make_invalid()),
        blocks: None,
    }
}

#[test]
fn collision_handles_count_up_from_zero() {
    let mut manager = KbCollisionManager::new();
    assert_eq!(manager.num_collision_objects(), 0);
    let a = manager.add_collision(&aabb(1.0, true));
    let b = manager.add_collision(&sphere(2.0));
    let c = manager.add_collision(&aabb(3.0, false));
    assert_eq!((a.index, b.index, c.index), (0, 1, 2));
    assert!(a.is_valid());
    assert_eq!(manager.num_collision_objects(), 3);
    assert_eq!(manager.get_collision(&a), aabb(1.0, true));
    assert_eq!(manager.get_collision(&b), sphere(2.0));
    assert_eq!(manager.get_collision(&c), aabb(3.0, false));
}

#[test]
fn removed_shapes_are_gone_and_handles_are_not_reused() {
    let mut manager = KbCollisionManager::new();
    let a = manager.add_collision(&aabb(1.0, true));
    let b = manager.add_collision(&aabb(2.0, true));
    manager.remove_collision(&a);
    assert!(!manager.has_collision(&a));
    assert!(manager.has_collision(&b));
    assert_eq!(manager.num_collision_objects(), 1);
    manager.remove_collision(&a);
    manager.remove_collision(&KbCollisionHandle::make_invalid());
    assert_eq!(manager.num_collision_objects(), 1);
    let c = manager.add_collision(&aabb(3.0, true));
    assert_eq!(c.index, 2);
}

#[test]
fn moving_a_shape_keeps_its_size() {
    let mut manager = KbCollisionManager::new();
    let a = manager.add_collision(&aabb(1.0, true));
    let b = manager.add_collision(&sphere(2.0));
    manager.update_collision_position(&a, &v3(7.0, 8.0, 9.0));
    manager.update_collision_position(&b, &v3(-1.0, -2.0, -3.0));
    assert_eq!(
        manager.get_collision(&a),
        KbCollisionShape::AABB(KbCollisionAABB {
            position: v3(7.0, 8.0, 9.0),
            extents: v3(1.0, 2.0, 3.0),
            block: true,
        })
    );
    assert_eq!(
        manager.get_collision(&b),
        KbCollisionShape::Sphere(KbCollisionSphere {
            position: v3(-1.0, -2.0, -3.0),
            radius: f(1.5)
        })
    );
    assert_eq!(manager.num_collision_objects(), 2);
}

#[test]
fn handles_lists_every_shape_once() {
    let mut manager = KbCollisionManager::new();
    assert!(manager.handles().is_empty());
    for i in 0..6 {
        manager.add_collision(&aabb(i as f32, true));
    }
    manager.remove_collision(&KbCollisionHandle { index: 4 });
    let mut indices: Vec<u32> = manager.handles().iter().map(|h| h.index).collect();
    indices.sort();
    assert_eq!(indices, vec![0, 1, 2, 3, 5]);
}

#[test]
fn a_ray_that_meets_nothing_hits_nothing() {
    let mut manager = KbCollisionManager::new();
    assert_eq!(manager.cast_ray(&vec![]), miss());
    let a = manager.add_collision(&aabb(1.0, true));
    assert_eq!(manager.cast_ray(&vec![]), miss());
    // behind the start, or touching it
    assert_eq!(manager.cast_ray(&vec![span(a, -1.0, 5.0)]), miss());
    assert_eq!(manager.cast_ray(&vec![span(a, 0.0, 5.0)]), miss());
    assert_eq!(manager.cast_ray(&vec![span(a, -0.0, 5.0)]), miss());
    // leaves before it enters
    assert_eq!(manager.cast_ray(&vec![span(a, 3.0, 2.0)]), miss());
    // not a number
    assert_eq!(manager.cast_ray(&vec![span(a, f32::NAN, 2.0)]), miss());
    assert_eq!(manager.cast_ray(&vec![span(a, 1.0, f32::NAN)]), miss());
    // too far
    assert_eq!(manager.cast_ray(&vec![span(a, f32::MAX, f32::INFINITY)]), miss());
    assert_eq!(manager.cast_ray(&vec![span(a, f32::INFINITY, f32::INFINITY)]), miss());
}

#[test]
fn spheres_and_unknown_handles_are_not_hit() {
    let mut manager = KbCollisionManager::new();
    let ball = manager.add_collision(&sphere(1.0));
    let gone = manager.add_collision(&aabb(1.0, true));
    manager.remove_collision(&gone);
    let spans = vec![
        span(ball, 1.0, 2.0),
        span(gone, 1.0, 2.0),
        span(KbCollisionHandle { index: 77 }, 1.0, 2.0),
        span(KbCollisionHandle::make_invalid(), 1.0, 2.0),
    ];
    assert_eq!(manager.cast_ray(&spans), miss());
}

#[test]
fn the_nearest_box_is_hit() {
    let mut manager = KbCollisionManager::new();
    let a = manager.add_collision(&aabb(1.0, true));
    let b = manager.add_collision(&aabb(2.0, false));
    let c = manager.add_collision(&aabb(3.0, true));
    let spans = vec![span(a, 5.0, 6.0), span(b, 2.5, 2.5), span(c, 4.0, 9.0)];
    assert_eq!(
        manager.cast_ray(&spans),
        KbRayHit { distance: f(2.5), handle: Some(b), blocks: Some(false) }
    );
    let spans = vec![span(c, 4.0, 9.0), span(b, -2.5, 2.5), span(a, 5.0, 6.0)];
    assert_eq!(
        manager.cast_ray(&spans),
        KbRayHit { distance: f(4.0), handle: Some(c), blocks: Some(true) }
    );
    let spans = vec![span(a, 1.0e-30, 1.0)];
    assert_eq!(
        manager.cast_ray(&spans),
        KbRayHit { distance: f(1.0e-30), handle: Some(a), blocks: Some(true) }
    );
}

#[test]
fn of_equal_hits_the_first_wins() {
    let mut manager = KbCollisionManager::new();
    let a = manager.add_collision(&aabb(1.0, true));
    let b = manager.add_collision(&aabb(2.0, false));
    let spans = vec![span(b, 3.0, 4.0), span(a, 3.0, 4.0)];
    assert_eq!(
        manager.cast_ray(&spans),
        KbRayHit { distance: f(3.0), handle: Some(b), blocks: Some(false) }
    );
    let spans = vec![span(a, 3.0, 4.0), span(b, 3.0, 4.0)];
    assert_eq!(
        manager.cast_ray(&spans),
        KbRayHit { distance: f(3.0), handle: Some(a), blocks: Some(true) }
    );
}

#[test]
fn the_default_table_is_empty() {
    let mut manager = KbCollisionManager::default();
    assert_eq!(manager.num_collision_objects(), 0);
    assert!(manager.handles().is_empty());
    assert_eq!(manager.add_collision(&aabb(1.0, true)).index, 0);
}

#[test]
fn a_new_shape_gets_a_handle_that_none_has() {
    let mut manager = KbCollisionManager::new();
    assert!(manager.can_add());
    let mut seen = Vec::new();
    for i in 0..10 {
        let before = manager.num_collision_objects();
        let handle = manager.add_collision(&aabb(i as f32, true));
        assert!(!seen.contains(&handle));
        assert_eq!(manager.num_collision_objects(), before + 1);
        seen.push(handle);
        if i % 3 == 0 {
            manager.remove_collision(&handle);
        }
        assert!(manager.can_add());
    }
}
