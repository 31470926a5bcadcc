use ball_drop::variant::{variant_from_weight, BallVariant, WEIGHT_TOTAL};

const ALL_VARIANTS: [BallVariant; 11] = [
    BallVariant::Sad,
    BallVariant::Angry,
    BallVariant::Surprised,
    BallVariant::Embarrassed,
    BallVariant::Happy,
    BallVariant::Joyful,
    BallVariant::Spite,
    BallVariant::Love,
    BallVariant::Pride,
    BallVariant::Rage,
    BallVariant::Win,
];

#[test]
fn orders_run_from_one_to_eleven() {
    for (k, v) in ALL_VARIANTS.iter().enumerate() {
        assert_eq!(v.order() as usize, k + 1);
    }
}

#[test]
fn every_successor_is_one_order_higher() {
    for v in ALL_VARIANTS.iter() {
        match v.next_variant() {
            Some(s) => assert_eq!(s.order(), v.order() + 1),
            None => assert_eq!(*v, BallVariant::Win),
        }
    }
}

#[test]
fn only_the_terminal_variant_has_no_successor() {
    assert_eq!(BallVariant::Sad.next_variant(), Some(BallVariant::Angry));
    assert_eq!(BallVariant::Angry.next_variant(), Some(BallVariant::Surprised));
    assert_eq!(BallVariant::Rage.next_variant(), Some(BallVariant::Win));
    assert_eq!(BallVariant::Win.next_variant(), None);
}

#[test]
fn sizes_grow_strictly_with_the_order() {
    for pair in ALL_VARIANTS.windows(2) {
        assert!(
            pair[0].size_milli() < pair[1].size_milli(),
            "size must grow from order {} to {}",
            pair[0].order(),
            pair[1].order()
        );
    }
}

#[test]
fn size_table_is_exact() {
    assert_eq!(BallVariant::Sad.size_milli(), 27000);
    assert_eq!(BallVariant::Angry.size_milli(), 34290);
    assert_eq!(BallVariant::Surprised.size_milli(), 43548);
    assert_eq!(BallVariant::Rage.size_milli(), 232046);
    assert_eq!(BallVariant::Win.size_milli(), 294698);
}

#[test]
fn sprite_paths_name_each_variant() {
    assert_eq!(BallVariant::Sad.sprite_path(), "sad_sprite.png");
    assert_eq!(BallVariant::Surprised.sprite_path(), "surprise_sprite.png");
    assert_eq!(BallVariant::Embarrassed.sprite_path(), "embarassed_sprite.png");
    assert_eq!(BallVariant::Win.sprite_path(), "win_sprite.png");
}

#[test]
fn weight_spans_pick_the_expected_variants() {
    let expected: [(u32, BallVariant); 20] = [
        (0, BallVariant::Sad),
        (9999, BallVariant::Sad),
        (10000, BallVariant::Angry),
        (17999, BallVariant::Angry),
        (18000, BallVariant::Surprised),
        (23999, BallVariant::Surprised),
        (24000, BallVariant::Embarrassed),
        (26499, BallVariant::Embarrassed),
        (26500, BallVariant::Happy),
        (27499, BallVariant::Happy),
        (27500, BallVariant::Joyful),
        (27899, BallVariant::Joyful),
        (27900, BallVariant::Spite),
        (27999, BallVariant::Spite),
        (28000, BallVariant::Love),
        (28039, BallVariant::Love),
        (28040, BallVariant::Pride),
        (28049, BallVariant::Pride),
        (28050, BallVariant::Rage),
        (WEIGHT_TOTAL - 1, BallVariant::Rage),
    ];
    for (w, v) in expected {
        assert_eq!(variant_from_weight(w), v, "weight {w}");
    }
}

#[test]
fn random_variant_is_always_spawnable() {
    for _ in 0..300 {
        let v = BallVariant::random();
        assert!(v.next_variant().is_some());
        assert!(v.order() <= 10);
    }
}
