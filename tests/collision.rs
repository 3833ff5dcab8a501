use game_rules::{
    collision_side, reflect, resolve_hits, Collision, ContactOffset, Heading, Hit, Sign,
};

fn offset(x: Sign, y: Sign, x_dominant: bool) -> ContactOffset {
    ContactOffset { x, y, x_dominant }
}

#[test]
fn side_follows_the_dominant_axis() {
    assert_eq!(collision_side(offset(Sign::Negative, Sign::Positive, true)), Collision::Left);
    assert_eq!(collision_side(offset(Sign::Positive, Sign::Negative, true)), Collision::Right);
    assert_eq!(collision_side(offset(Sign::Negative, Sign::Positive, false)), Collision::Top);
    assert_eq!(collision_side(offset(Sign::Positive, Sign::Negative, false)), Collision::Bottom);
}

#[test]
fn equal_offsets_count_as_vertical() {
    // Inside the box the offset is zero: that is a hit from below.
    assert_eq!(collision_side(offset(Sign::Zero, Sign::Zero, false)), Collision::Bottom);
}

#[test]
fn reflect_reverses_only_an_approaching_component() {
    let h = Heading { x: Sign::Positive, y: Sign::Negative };
    assert_eq!(reflect(h, Collision::Left), Heading { x: Sign::Negative, y: Sign::Negative });
    assert_eq!(reflect(h, Collision::Right), h);
    assert_eq!(reflect(h, Collision::Top), Heading { x: Sign::Positive, y: Sign::Positive });
    assert_eq!(reflect(h, Collision::Bottom), h);
    let still = Heading { x: Sign::Zero, y: Sign::Zero };
    assert_eq!(reflect(still, Collision::Left), still);
}

#[test]
fn bricks_score_and_disappear_in_order() {
    let hits = vec![
        Hit { collider: 4, side: Collision::Bottom, brick: true },
        Hit { collider: 0, side: Collision::Left, brick: false },
        Hit { collider: 9, side: Collision::Top, brick: true },
    ];
    let out = resolve_hits(Heading { x: Sign::Positive, y: Sign::Positive }, 3, &hits);
    assert_eq!(out.score, 5);
    assert_eq!(out.despawned, vec![4, 9]);
    // Bottom turns the ball down, the wall turns it left, Top turns it up again.
    assert_eq!(out.heading, Heading { x: Sign::Negative, y: Sign::Positive });
}

#[test]
fn no_hits_change_nothing() {
    let h = Heading { x: Sign::Negative, y: Sign::Positive };
    let out = resolve_hits(h, 7, &Vec::new());
    assert_eq!(out.score, 7);
    assert!(out.despawned.is_empty());
    assert_eq!(out.heading, h);
}

#[test]
fn second_hit_on_the_same_side_changes_nothing() {
    let sides = [Collision::Left, Collision::Right, Collision::Top, Collision::Bottom];
    let signs = [Sign::Negative, Sign::Zero, Sign::Positive];
    for side in sides {
        for x in signs {
            for y in signs {
                let once = reflect(Heading { x, y }, side);
                assert_eq!(reflect(once, side), once);
            }
        }
    }
}

#[test]
fn paddle_hit_does_not_score() {
    let hits = vec![Hit { collider: 2, side: Collision::Top, brick: false }];
    let out = resolve_hits(Heading { x: Sign::Positive, y: Sign::Negative }, 0, &hits);
    assert_eq!(out.score, 0);
    assert!(out.despawned.is_empty());
    assert_eq!(out.heading, Heading { x: Sign::Positive, y: Sign::Positive });
}
