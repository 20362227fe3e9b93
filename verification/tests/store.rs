use canvas::shapes::{Draw, Shape, Sqaure, Triangle};
use canvas::store::{AccessError, Canvas};

#[test]
fn insert_yields_consecutive_indices_and_render_order() {
    let mut c: Canvas<f32> = Canvas::new();
    let a = c.add(Triangle { size: 1.0 });
    let b = c.add(Sqaure { w: 2.0, h: 3.0 });
    let d = c.add(Triangle { size: 4.0 });
    assert_eq!(a.index(), 0);
    assert_eq!(b.index(), 1);
    assert_eq!(d.index(), 2);
    let drawn = c.draw_all();
    assert_eq!(
        drawn,
        vec![
            Shape::Triangle(Triangle { size: 1.0 }),
            Shape::Sqaure(Sqaure { w: 2.0, h: 3.0 }),
            Shape::Triangle(Triangle { size: 4.0 }),
        ]
    );
}

#[test]
fn get_ref_round_trips_the_inserted_object() {
    let mut c: Canvas<f32> = Canvas::new();
    let t = c.add(Triangle { size: 1.5 });
    match c.get_ref(&t) {
        Ok(Shape::Triangle(tr)) => assert_eq!(tr.size, 1.5),
        other => panic!("expected the inserted triangle, got {:?}", other),
    }
}

#[test]
fn get_mut_round_trips_the_last_mutation() {
    let mut c: Canvas<f32> = Canvas::new();
    let t = c.add(Triangle { size: 1.5 });
    match c.get_mut(&t) {
        Ok(Shape::Triangle(tr)) => tr.size = 7.25,
        other => panic!("expected the inserted triangle, got {:?}", other),
    }
    match c.get_ref(&t) {
        Ok(Shape::Triangle(tr)) => assert_eq!(tr.size, 7.25),
        other => panic!("expected the mutated triangle, got {:?}", other),
    }
}

#[test]
fn removed_handle_fails_with_slot_empty() {
    let mut c: Canvas<f32> = Canvas::new();
    let t = c.add(Triangle { size: 1.5 });
    assert_eq!(
        c.remove(t),
        Ok(Shape::Triangle(Triangle { size: 1.5 }))
    );
    assert_eq!(c.get_ref(&t), Err(AccessError::SlotEmpty));
    assert_eq!(c.get_mut(&t).unwrap_err(), AccessError::SlotEmpty);
    assert_eq!(c.remove(t), Err(AccessError::SlotEmpty));
}

#[test]
fn foreign_handle_fails_with_identity_mismatch() {
    let mut a: Canvas<f32> = Canvas::new();
    let mut b: Canvas<f32> = Canvas::new();
    let ha = a.add(Triangle { size: 1.5 });
    // `b` holds a matching slot with a matching type: the identity check
    // still comes first.
    let _hb = b.add(Triangle { size: 1.5 });
    assert_eq!(b.get_ref(&ha), Err(AccessError::IdentityMismatch));
    assert_eq!(b.get_mut(&ha).unwrap_err(), AccessError::IdentityMismatch);
    assert_eq!(b.remove(ha), Err(AccessError::IdentityMismatch));
    // An empty store refuses the handle for its identity too, not for the
    // missing slot.
    let mut empty: Canvas<f32> = Canvas::new();
    assert_eq!(empty.remove(ha), Err(AccessError::IdentityMismatch));
}

#[test]
fn changed_variant_fails_with_type_mismatch() {
    let mut c: Canvas<f32> = Canvas::new();
    let t = c.add(Triangle { size: 1.5 });
    match c.get_mut(&t) {
        Ok(slot) => *slot = Shape::Sqaure(Sqaure { w: 1.0, h: 1.0 }),
        other => panic!("expected the inserted triangle, got {:?}", other),
    }
    assert_eq!(c.get_ref(&t), Err(AccessError::TypeMismatch));
    assert_eq!(c.remove(t), Err(AccessError::TypeMismatch));
}

#[test]
fn mutation_is_visible_in_the_next_rendering() {
    let mut c: Canvas<f32> = Canvas::new();
    let t = c.add(Triangle { size: 1.5 });
    match c.get_mut(&t) {
        Ok(Shape::Triangle(tr)) => tr.size = 2.0,
        other => panic!("expected the inserted triangle, got {:?}", other),
    }
    assert_eq!(c.draw_all(), vec![Shape::Triangle(Triangle { size: 2.0 })]);
}

#[test]
fn remove_returns_the_mutated_state_and_stops_rendering_it() {
    let mut c: Canvas<f32> = Canvas::new();
    let t = c.add(Triangle { size: 1.5 });
    let s = c.add(Sqaure { w: 2.5, h: 3.5 });
    match c.get_mut(&t) {
        Ok(Shape::Triangle(tr)) => tr.size = 2.0,
        other => panic!("expected the inserted triangle, got {:?}", other),
    }
    assert_eq!(
        c.remove(t),
        Ok(Shape::Triangle(Triangle { size: 2.0 }))
    );
    assert_eq!(c.draw_all(), vec![Shape::Sqaure(Sqaure { w: 2.5, h: 3.5 })]);
    let _keep = s;
}

#[test]
fn full_scenario() {
    let mut c: Canvas<f32> = Canvas::new();
    let t = c.add(Triangle { size: 1.5 });
    let s = c.add(Sqaure { w: 2.5, h: 3.5 });
    assert_eq!(
        c.draw_all(),
        vec![
            Shape::Triangle(Triangle { size: 1.5 }),
            Shape::Sqaure(Sqaure { w: 2.5, h: 3.5 }),
        ]
    );
    match c.get_mut(&t) {
        Ok(Shape::Triangle(tr)) => tr.size = 2.0,
        other => panic!("expected the inserted triangle, got {:?}", other),
    }
    match c.get_mut(&s) {
        Ok(Shape::Sqaure(sq)) => sq.w = 10.2,
        other => panic!("expected the inserted square, got {:?}", other),
    }
    assert_eq!(
        c.draw_all(),
        vec![
            Shape::Triangle(Triangle { size: 2.0 }),
            Shape::Sqaure(Sqaure { w: 10.2, h: 3.5 }),
        ]
    );
    assert_eq!(
        c.remove(t),
        Ok(Shape::Triangle(Triangle { size: 2.0 }))
    );
    assert_eq!(c.draw_all(), vec![Shape::Sqaure(Sqaure { w: 10.2, h: 3.5 })]);
}

#[test]
fn empty_store_renders_nothing() {
    let c: Canvas<f32> = Canvas::default();
    assert_eq!(c.draw_all(), vec![]);
}

#[test]
fn drawables_render_their_representation() {
    let t = Triangle { size: 1.5f32 };
    let s = Sqaure { w: 2.5f32, h: 3.5 };
    assert_eq!(t.draw(), Shape::Triangle(Triangle { size: 1.5 }));
    assert_eq!(s.draw(), Shape::Sqaure(Sqaure { w: 2.5, h: 3.5 }));
    assert_ne!(t.draw().kind_of(), s.draw().kind_of());
    let erased: Shape<f32> = t.draw();
    assert_eq!(erased.draw(), erased);
}
