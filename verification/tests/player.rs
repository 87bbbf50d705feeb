use tile_world::{Keys, Player, PlayerAnimation, Rect, Vec2};

const NONE: Keys = Keys { right: false, left: false, down: false, up: false };

fn keys(right: bool, left: bool, down: bool, up: bool) -> Keys {
    Keys { right, left, down, up }
}

#[test]
fn a_new_player_rests_on_its_corner() {
    let p = Player::new(64, 96);
    assert_eq!(p.rect, Rect::new(64, 96, 32, 32));
    assert_eq!(p.speed, Vec2::new(0, 0));
    assert_eq!(p.animation, PlayerAnimation::Idle);
    assert_eq!(p.animation_frame, 0);
    assert_eq!(p.frame_index(), 0);
}

#[test]
fn the_default_player_has_no_size() {
    let p = Player::default();
    assert_eq!(p.rect, Rect::new(0, 0, 0, 0));
    assert_eq!(p.speed, Vec2::new(0, 0));
    assert_eq!(p.animation, PlayerAnimation::Idle);
    assert_eq!(p.animation_frame, 0);
}

#[test]
fn each_key_sets_the_speed_along_its_axis() {
    let mut p = Player::new(0, 0);
    p.process_input(keys(true, false, false, false));
    assert_eq!(p.speed, Vec2::new(1, 0));
    let mut p = Player::new(0, 0);
    p.process_input(keys(false, true, false, false));
    assert_eq!(p.speed, Vec2::new(-1, 0));
    let mut p = Player::new(0, 0);
    p.process_input(keys(false, false, true, false));
    assert_eq!(p.speed, Vec2::new(0, 1));
    let mut p = Player::new(0, 0);
    p.process_input(keys(false, false, false, true));
    assert_eq!(p.speed, Vec2::new(0, -1));
}

#[test]
fn left_wins_over_right_and_up_over_down() {
    let mut p = Player::new(0, 0);
    p.process_input(keys(true, true, false, false));
    assert_eq!(p.speed, Vec2::new(-1, 0));
    let mut p = Player::new(0, 0);
    p.process_input(keys(false, false, true, true));
    assert_eq!(p.speed, Vec2::new(0, -1));
    let mut p = Player::new(0, 0);
    p.process_input(keys(true, true, true, true));
    assert_eq!(p.speed, Vec2::new(-1, -1));
}

#[test]
fn keys_on_both_axes_move_diagonally() {
    let mut p = Player::new(0, 0);
    p.process_input(keys(true, false, true, false));
    assert_eq!(p.speed, Vec2::new(1, 1));
}

#[test]
fn an_axis_without_a_key_keeps_its_speed() {
    let mut p = Player::new(0, 0);
    p.speed = Vec2::new(5, -3);
    p.process_input(NONE);
    assert_eq!(p.speed, Vec2::new(5, -3));
    p.process_input(keys(false, false, true, false));
    assert_eq!(p.speed, Vec2::new(5, 1));
    p.process_input(keys(false, true, false, false));
    assert_eq!(p.speed, Vec2::new(-1, 1));
}

#[test]
fn input_touches_nothing_but_the_speed() {
    let mut p = Player::new(7, 9);
    p.animation = PlayerAnimation::MoveUp;
    p.animation_frame = 321;
    p.process_input(keys(true, false, false, true));
    assert_eq!(p.rect, Rect::new(7, 9, 32, 32));
    assert_eq!(p.animation, PlayerAnimation::MoveUp);
    assert_eq!(p.animation_frame, 321);
}

#[test]
fn the_speed_picks_the_animation() {
    let cases = [
        (Vec2::new(1, 0), PlayerAnimation::MoveRight),
        (Vec2::new(-1, 0), PlayerAnimation::MoveLeft),
        (Vec2::new(0, 1), PlayerAnimation::MoveDown),
        (Vec2::new(0, -1), PlayerAnimation::MoveUp),
        (Vec2::new(0, 0), PlayerAnimation::Idle),
        (Vec2::new(9, 0), PlayerAnimation::MoveRight),
        (Vec2::new(0, -9), PlayerAnimation::MoveUp),
    ];
    for (speed, animation) in cases {
        let mut p = Player::new(0, 0);
        p.speed = speed;
        p.animate();
        assert_eq!(p.animation, animation);
    }
}

#[test]
fn sideways_movement_decides_the_animation_before_vertical() {
    let cases = [
        (Vec2::new(1, 1), PlayerAnimation::MoveRight),
        (Vec2::new(1, -1), PlayerAnimation::MoveRight),
        (Vec2::new(-1, 1), PlayerAnimation::MoveLeft),
        (Vec2::new(-1, -1), PlayerAnimation::MoveLeft),
    ];
    for (speed, animation) in cases {
        let mut p = Player::new(0, 0);
        p.speed = speed;
        p.animate();
        assert_eq!(p.animation, animation);
    }
}

#[test]
fn animate_keeps_body_and_speed() {
    let mut p = Player::new(3, 4);
    p.speed = Vec2::new(0, 1);
    p.animate();
    assert_eq!(p.rect, Rect::new(3, 4, 32, 32));
    assert_eq!(p.speed, Vec2::new(0, 1));
}

#[test]
fn the_walk_cycle_advances_eight_hundredths_a_frame() {
    let mut p = Player::new(0, 0);
    p.speed = Vec2::new(1, 0);
    p.animate();
    // the switch from rest starts the cycle at zero, then it advances
    assert_eq!(p.animation_frame, 8);
    assert_eq!(p.frame_index(), 0);
    for _ in 0..11 {
        p.animate();
    }
    assert_eq!(p.animation_frame, 96);
    assert_eq!(p.frame_index(), 0);
    p.animate();
    assert_eq!(p.animation_frame, 104);
    assert_eq!(p.frame_index(), 1);
}

#[test]
fn the_walk_cycle_starts_over_after_nine_images() {
    let mut p = Player::new(0, 0);
    p.speed = Vec2::new(0, -1);
    for _ in 0..112 {
        p.animate();
    }
    assert_eq!(p.animation_frame, 896);
    assert_eq!(p.frame_index(), 8);
    p.animate();
    assert_eq!(p.animation_frame, 0);
    assert_eq!(p.frame_index(), 0);
    p.animate();
    assert_eq!(p.animation_frame, 8);
}

#[test]
fn the_image_index_stays_inside_the_sequence() {
    let speeds =
        [Vec2::new(1, 0), Vec2::new(-1, 0), Vec2::new(0, 1), Vec2::new(0, -1), Vec2::new(0, 0)];
    for speed in speeds {
        let mut p = Player::new(0, 0);
        p.speed = speed;
        for _ in 0..500 {
            p.animate();
            assert!(p.frame_index() < p.animation.frame_count());
        }
    }
}

#[test]
fn at_rest_the_player_shows_its_one_image() {
    let mut p = Player::new(0, 0);
    for tick in 1..=12u32 {
        p.animate();
        assert_eq!(p.animation, PlayerAnimation::Idle);
        assert_eq!(p.animation_frame, 8 * tick);
        assert_eq!(p.frame_index(), 0);
    }
    p.animate();
    assert_eq!(p.animation_frame, 0);
    assert_eq!(p.frame_index(), 0);
}

#[test]
fn a_change_of_direction_starts_the_cycle_anew() {
    let mut p = Player::new(0, 0);
    p.speed = Vec2::new(1, 0);
    for _ in 0..20 {
        p.animate();
    }
    assert_eq!(p.animation_frame, 160);
    p.speed = Vec2::new(0, 1);
    p.animate();
    assert_eq!(p.animation, PlayerAnimation::MoveDown);
    assert_eq!(p.animation_frame, 8);
    // the same direction again goes on from where it is
    p.animate();
    assert_eq!(p.animation_frame, 16);
}

#[test]
fn a_cycle_position_past_the_end_is_brought_back() {
    let mut p = Player::new(0, 0);
    p.animation_frame = u32::MAX;
    p.animate();
    assert_eq!(p.animation_frame, 0);
    let mut p = Player::new(0, 0);
    p.animation = PlayerAnimation::MoveLeft;
    p.speed = Vec2::new(-1, 0);
    p.animation_frame = 892;
    p.animate();
    assert_eq!(p.animation_frame, 0);
    p.animation_frame = 891;
    p.animate();
    assert_eq!(p.animation_frame, 899);
    assert_eq!(p.frame_index(), 8);
}

#[test]
fn frame_counts_of_the_sequences() {
    assert_eq!(PlayerAnimation::Idle.frame_count(), 1);
    assert_eq!(PlayerAnimation::MoveUp.frame_count(), 9);
    assert_eq!(PlayerAnimation::MoveDown.frame_count(), 9);
    assert_eq!(PlayerAnimation::MoveLeft.frame_count(), 9);
    assert_eq!(PlayerAnimation::MoveRight.frame_count(), 9);
}

#[test]
fn directories_of_the_sequences() {
    assert_eq!(PlayerAnimation::Idle.directory(), "move_down");
    assert_eq!(PlayerAnimation::MoveUp.directory(), "move_up");
    assert_eq!(PlayerAnimation::MoveDown.directory(), "move_down");
    assert_eq!(PlayerAnimation::MoveLeft.directory(), "move_left");
    assert_eq!(PlayerAnimation::MoveRight.directory(), "move_right");
}

#[test]
fn the_image_goes_up_and_left_of_the_body() {
    let p = Player::new(100, 200);
    assert_eq!(p.draw(), Vec2::new(92, 184));
    let p = Player::new(0, 0);
    assert_eq!(p.draw(), Vec2::new(-8, -16));
}

#[test]
fn update_steers_then_animates() {
    let mut p = Player::new(10, 20);
    p.update(keys(false, true, true, false));
    assert_eq!(p.speed, Vec2::new(-1, 1));
    assert_eq!(p.animation, PlayerAnimation::MoveLeft);
    assert_eq!(p.animation_frame, 8);
    assert_eq!(p.rect, Rect::new(10, 20, 32, 32));
    // update does not move and does not stop the player
    p.update(NONE);
    assert_eq!(p.speed, Vec2::new(-1, 1));
    assert_eq!(p.animation, PlayerAnimation::MoveLeft);
    assert_eq!(p.animation_frame, 16);
}

#[test]
fn a_player_is_valid_while_its_cycle_is_inside_the_sequence() {
    let mut p = Player::new(0, 0);
    assert!(p.is_valid());
    p.animation_frame = 99;
    assert!(p.is_valid());
    p.animation_frame = 100;
    assert!(!p.is_valid());
    p.animation = PlayerAnimation::MoveUp;
    assert!(p.is_valid());
    p.animation_frame = 899;
    assert!(p.is_valid());
    p.animation_frame = 900;
    assert!(!p.is_valid());
}

#[test]
fn a_player_is_valid_while_body_and_speed_are_in_range() {
    let mut p = Player::new(12_582_912, -12_582_912);
    assert!(p.is_valid());
    p.rect.x += 1;
    assert!(!p.is_valid());
    let mut p = Player::new(0, 0);
    p.speed = Vec2::new(4_194_304, -4_194_304);
    assert!(p.is_valid());
    p.speed.y -= 1;
    assert!(!p.is_valid());
}
