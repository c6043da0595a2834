use fgsim::framedata::{
    bdash_data, dead_data, fdash_moves, guard_break_moves, hit_moves, idle_data, idle_moves,
    lookup, move_length, mspecial_moves, nnormal_data, nnormal_moves, nspecial_data,
    nspecial_moves, CBox, FrameData,
};

fn cb(offsetx: i16, offsety: i16, x: i16, y: i16) -> CBox {
    CBox { offsetx, offsety, x, y }
}

#[test]
fn overlap_is_symmetric() {
    let boxes = [cb(0, 0, 125, 153), cb(0, 0, -125, 153), cb(140, 0, 159, 46), cb(-149, 0, -175, 61)];
    for a in boxes {
        for b in boxes {
            for ax in [0i16, 100, 400, 1130] {
                for bx in [0i16, 200, 500, 1130] {
                    assert_eq!(a.overlap(ax, b, bx), b.overlap(bx, a, ax));
                }
            }
        }
    }
}

#[test]
fn overlap_of_touching_and_apart_boxes() {
    let body = CBox::collision();
    // Bodies 250 apart: the mirrored box of the right one just touches.
    assert!(!body.overlap(400, -body, 650));
    assert!(body.overlap(400, -body, 649));
    // Far apart horizontally.
    assert!(!body.overlap(0, -body, 1530));
}

#[test]
fn overlap_vertical_check() {
    // Anchored at zero, the vertical ranges decide.
    let low = cb(0, 0, 10, 10);
    let high = cb(0, 100, 10, 10);
    assert!(!low.overlap(0, high, 0));
    assert!(low.overlap(0, cb(0, 5, 10, 10), 0));
}

#[test]
fn overlap_amount_halves_toward_zero() {
    let body = CBox::collision();
    assert_eq!(body.overlap_amount(400, -body, 600), 25);
    assert_eq!(body.overlap_amount(400, -body, 601), 24);
    assert_eq!(body.overlap_amount(400, -body, 651), 0);
    assert_eq!(body.overlap_amount(0, -body, 1001), -375);
}

#[test]
fn mirror_negates_x_only() {
    let b = cb(140, 3, 159, 46);
    assert_eq!(-b, cb(-140, 3, -159, 46));
    assert_eq!(b * 2, cb(280, 3, 318, 46));
}

#[test]
fn script_lengths() {
    assert_eq!(move_length(&idle_moves()), 24);
    assert_eq!(move_length(&nnormal_moves()), 23);
    assert_eq!(move_length(&nspecial_moves()), 43);
    assert_eq!(move_length(&mspecial_moves()), 55);
    assert_eq!(move_length(&fdash_moves()), 16);
    assert_eq!(move_length(&hit_moves()), 17);
    assert_eq!(move_length(&guard_break_moves()), 36);
    let durations: u32 = nspecial_moves().iter().map(|m| m.duration as u32).sum();
    assert_eq!(durations, 43);
}

#[test]
fn lookup_defined_until_the_end() {
    for f in 0..24u8 {
        assert!(idle_data(f).is_some());
    }
    assert!(idle_data(24).is_none());
    assert!(idle_data(255).is_none());
    assert!(bdash_data(21).is_some());
    assert!(bdash_data(22).is_none());
}

#[test]
fn lookup_picks_the_covering_entry() {
    // nnormal: 2 + 3 frames of wind-up, then 2 active frames.
    assert_eq!(nnormal_data(4).unwrap().animation_frame, "nnormal_1");
    let active = nnormal_data(5).unwrap();
    assert_eq!(active.animation_frame, "nnormal_2");
    assert!(active.data.low && active.data.cancel);
    assert_eq!(active.data.hitbox, Some(cb(140, 0, 159, 46)));
    assert!(nnormal_data(7).unwrap().data.hitbox.is_none());
    assert_eq!(nnormal_data(22).unwrap().animation_frame, "nnormal_4");
    // nspecial's first active frame ends the match.
    let ender = nspecial_data(11).unwrap();
    assert!(ender.data.ender);
    assert_eq!(ender.data.speed, 16);
    assert!(!nspecial_data(10).unwrap().data.ender);
}

#[test]
fn lookup_on_any_script() {
    let moves = nnormal_moves();
    let mut covered = 0u32;
    for (k, m) in moves.iter().enumerate() {
        for f in covered..covered + m.duration as u32 {
            assert_eq!(lookup(&moves, f as u8).unwrap().animation_frame, moves[k].animation_frame);
        }
        covered += m.duration as u32;
    }
    assert!(lookup(&moves, covered as u8).is_none());
    assert!(lookup(&[], 0).is_none());
}

#[test]
fn default_frame_and_death() {
    let d = FrameData::default();
    assert_eq!(d.speed, 0);
    assert_eq!(d.collision, CBox::collision());
    assert_eq!(d.hurtbox, [Some(CBox::base_hurtbox()), None]);
    assert!(d.hitbox.is_none() && !d.cancel && !d.ender && !d.low);
    let dead = dead_data();
    assert_eq!(dead.animation_frame, "dead_0");
    assert_eq!(dead.duration, 1);
    assert_eq!(CBox::guard_break_hurtbox(), cb(0, 0, 184, 184));
}
