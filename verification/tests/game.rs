use wasting_time::alarm::{Alarm, Contact};
use wasting_time::components::{Arena, Body, BodyKind, Speed, Vec2};
use wasting_time::game::Game;
use wasting_time::input::Input;
use wasting_time::reflector::ReflectorState;
use wasting_time::state::{GameState, Outcome};
use wasting_time::world::World;

fn none() -> Contact {
    Contact { reflector: false, player: false, sun: false, moon: false }
}

fn alarm_at(x: i32, y: i32) -> Alarm {
    Alarm {
        id: 0,
        speed: Speed(400),
        reflected: false,
        body: Body {
            kind: BodyKind::Dynamic,
            position: Vec2::new(x, y),
            velocity: Vec2::zero(),
            half_extents: Vec2::new(20, 25),
        },
    }
}

fn playing() -> Game {
    let mut game = Game::new();
    game.assets_loaded();
    game.click_play_button();
    game
}

#[test]
fn new_world_is_as_the_game_starts() {
    let world = World::new();
    assert!(world.is_wf());
    assert_eq!(world.player.clock.time, 300_000);
    assert_eq!(world.sun.clock.time, 300_000);
    assert_eq!(world.moon.clock.time, 300_000);
    assert_eq!(world.sun.body.position, Vec2::new(-350, 210));
    assert_eq!(world.moon.body.position, Vec2::new(350, 200));
    assert_eq!(world.reflector.state, ReflectorState::InActive);
    assert!(world.alarms.is_empty());
    assert_eq!(world.elapsed, 0);
    assert!(!world.cleanup_due);
}

#[test]
fn world_check_rejects_what_the_rules_exclude() {
    let mut world = World::new();
    world.alarms.push(alarm_at(0, 0));
    assert!(!world.is_wf());
    world.elapsed = 3000;
    assert!(world.is_wf());
    world.alarms.push(alarm_at(0, 0));
    assert!(world.is_wf());
    world.alarms.push(alarm_at(0, 0));
    assert!(!world.is_wf());
    world.elapsed = 6000;
    assert!(world.is_wf());
    world.alarms[1].speed = Speed(u32::MAX);
    assert!(!world.is_wf());
    world.alarms[1].speed = Speed(i32::MAX as u32);
    assert!(world.is_wf());
    world.player.dash.duration = 0;
    assert!(!world.is_wf());
    world.player.dash.duration = 1;
    world.sun.body.position.x = i32::MAX;
    assert!(!world.is_wf());
}

#[test]
fn game_starts_loading_and_reaches_the_menu() {
    let mut game = Game::new();
    assert_eq!(game.state, GameState::Loading);
    assert!(game.world.is_none());
    game.click_play_button();
    assert_eq!(game.state, GameState::Loading);
    assert!(game.world.is_none());
    game.assets_loaded();
    assert_eq!(game.state, GameState::Menu);
    assert!(game.world.is_none());
    game.click_play_button();
    assert_eq!(game.state, GameState::Playing);
    assert!(game.world.is_some());
    assert!(game.world.as_ref().unwrap().is_wf());
}

#[test]
fn ticks_outside_a_game_do_nothing() {
    let mut game = Game::new();
    game.assets_loaded();
    assert_eq!(game.begin_tick(&Arena::standard(), &Input::idle(), 5000), 0);
    assert_eq!(game.end_tick(&Vec::new()), Outcome::Continue);
    assert_eq!(game.state, GameState::Menu);
    assert!(game.world.is_none());
}

#[test]
fn click_during_a_game_keeps_the_world() {
    let mut game = playing();
    game.begin_tick(&Arena::standard(), &Input::idle(), 1000);
    game.end_tick(&Vec::new());
    game.click_play_button();
    assert_eq!(game.state, GameState::Playing);
    assert_eq!(game.world.as_ref().unwrap().elapsed, 1000);
}

#[test]
fn idle_decay_ends_in_game_over() {
    let arena = Arena::standard();
    let mut game = playing();
    let mut ticks: u32 = 0;
    let mut last: (i64, i64, i64) = (300_000, 300_000, 300_000);
    while game.state == GameState::Playing {
        let spawned: usize = game.begin_tick(&arena, &Input::idle(), 100);
        ticks += 1;
        {
            let world = game.world.as_ref().unwrap();
            let seconds: u64 = world.elapsed / 1000;
            assert!(world.alarms.len() as u64 <= 2 * ((seconds + 2) / 3));
            assert_eq!(spawned, if ticks % 30 == 0 && ticks < 3000 { 2 } else { 0 });
            assert_eq!(world.player.body.velocity, Vec2::zero());
            let now = (world.player.clock.time, world.sun.clock.time, world.moon.clock.time);
            assert!(now.0 <= last.0 && now.1 <= last.1 && now.2 <= last.2);
            assert_eq!(now.0, 300_000 - 100 * ticks as i64);
            last = now;
        }
        let contacts: Vec<Contact> = Vec::new();
        let outcome = game.end_tick(&contacts);
        if ticks < 3000 {
            assert_eq!(outcome, Outcome::Continue);
        } else {
            assert_eq!(outcome, Outcome::GameOver);
        }
    }
    assert_eq!(ticks, 3000);
    assert_eq!(game.state, GameState::GameOver);
    assert!(game.world.is_none());
}

#[test]
fn retry_builds_a_new_world() {
    let mut game = playing();
    game.world.as_mut().unwrap().player.clock.time = 1;
    game.begin_tick(&Arena::standard(), &Input::idle(), 4000);
    assert_eq!(game.world.as_ref().unwrap().alarms.len(), 2);
    assert_eq!(game.end_tick(&Vec::new()), Outcome::GameOver);
    assert_eq!(game.state, GameState::GameOver);
    assert!(game.world.is_none());
    game.click_play_button();
    assert_eq!(game.state, GameState::Playing);
    let world = game.world.as_ref().unwrap();
    assert_eq!(world.player.clock.time, 300_000);
    assert!(world.alarms.is_empty());
    assert_eq!(world.elapsed, 0);
}

#[test]
fn single_hit_in_the_world() {
    let arena = Arena::standard();
    let mut game = playing();
    let mut tick: u32 = 0;
    while tick < 3 {
        game.begin_tick(&arena, &Input::idle(), 1000);
        game.end_tick(&Vec::new());
        tick += 1;
    }
    assert_eq!(game.world.as_ref().unwrap().alarms.len(), 2);
    assert_eq!(game.world.as_ref().unwrap().player.clock.time, 297_000);
    game.begin_tick(&arena, &Input::idle(), 1000);
    let hit = Contact { reflector: false, player: true, sun: false, moon: false };
    let outcome = game.end_tick(&vec![hit, none()]);
    assert_eq!(outcome, Outcome::Continue);
    let world = game.world.as_ref().unwrap();
    assert_eq!(world.player.clock.time, 296_000 - 30_000);
    assert_eq!(world.alarms.len(), 1);
    assert_eq!(world.alarms[0].body.position, Vec2::new(-230, 190));
}

#[test]
fn new_alarms_rest_until_the_next_tick() {
    let arena = Arena::standard();
    let mut game = playing();
    let spawned: usize = game.begin_tick(&arena, &Input::idle(), 3000);
    assert_eq!(spawned, 2);
    {
        let world = game.world.as_ref().unwrap();
        assert_eq!(world.alarms[0], alarm_at(200, 180));
        assert_eq!(world.alarms[1], alarm_at(-230, 190));
    }
    game.end_tick(&vec![none(), none()]);
    let spawned: usize = game.begin_tick(&arena, &Input::idle(), 16);
    assert_eq!(spawned, 0);
    let world = game.world.as_ref().unwrap();
    assert_eq!(world.alarms[0].body.velocity, Vec2::new(-297, -267));
    assert_eq!(world.alarms[1].body.velocity, Vec2::new(308, -254));
}

#[test]
fn long_tick_emits_every_pulse_that_fell_due() {
    let arena = Arena::standard();
    let mut game = playing();
    assert_eq!(game.begin_tick(&arena, &Input::idle(), 2999), 0);
    assert_eq!(game.begin_tick(&arena, &Input::idle(), 1), 2);
    assert_eq!(game.begin_tick(&arena, &Input::idle(), 9000), 6);
    let world = game.world.as_ref().unwrap();
    assert_eq!(world.elapsed, 12_000);
    assert_eq!(world.alarms.len(), 8);
    assert!(world.cleanup_due);
    assert_eq!(world.alarms[6].body.position, Vec2::new(200, 180));
    assert_eq!(world.alarms[7].body.position, Vec2::new(-230, 190));
}

#[test]
fn grandfather_out_of_time_emits_nothing() {
    let arena = Arena::standard();
    let mut game = playing();
    game.world.as_mut().unwrap().moon.clock.time = 2000;
    assert_eq!(game.begin_tick(&arena, &Input::idle(), 3000), 1);
    let world = game.world.as_ref().unwrap();
    assert_eq!(world.moon.clock.time, -1000);
    assert_eq!(world.alarms[0].body.position, Vec2::new(-230, 190));
}

#[test]
fn reflection_kill() {
    let arena = Arena::standard();
    let mut game = playing();
    let hold = Input {
        up: false,
        down: false,
        left: false,
        right: false,
        dash_pressed_edge: false,
        reflector_held: true,
    };
    game.begin_tick(&arena, &hold, 3000);
    assert_eq!(game.world.as_ref().unwrap().reflector.state, ReflectorState::Active);
    game.end_tick(&vec![none(), none()]);
    game.begin_tick(&arena, &hold, 16);
    let touched = Contact { reflector: true, player: false, sun: false, moon: false };
    assert_eq!(game.end_tick(&vec![none(), touched]), Outcome::Continue);
    assert!(game.world.as_ref().unwrap().alarms[1].reflected);
    assert!(!game.world.as_ref().unwrap().alarms[0].reflected);
    game.begin_tick(&arena, &hold, 16);
    {
        let world = game.world.as_ref().unwrap();
        assert_eq!(world.alarms[1].body.velocity, Vec2::new(-308, 254));
        assert_eq!(world.alarms[0].body.velocity, Vec2::new(-297, -267));
    }
    let sun_before: i64 = game.world.as_ref().unwrap().sun.clock.time;
    let at_sun = Contact { reflector: false, player: false, sun: true, moon: false };
    assert_eq!(game.end_tick(&vec![none(), at_sun]), Outcome::Continue);
    let world = game.world.as_ref().unwrap();
    assert_eq!(world.sun.clock.time, sun_before - 30_000);
    assert_eq!(world.moon.clock.time, 300_000 - 3032);
    assert_eq!(world.player.clock.time, 300_000 - 3032);
    assert_eq!(world.alarms.len(), 1);
}

#[test]
fn double_kill_is_one_transition() {
    let arena = Arena::standard();
    let mut game = playing();
    {
        let world = game.world.as_mut().unwrap();
        world.sun.clock.time = 10;
        world.moon.clock.time = 16;
    }
    game.begin_tick(&arena, &Input::idle(), 16);
    assert_eq!(game.end_tick(&Vec::new()), Outcome::GameWin);
    assert_eq!(game.state, GameState::GameWin);
    assert!(game.world.is_none());
    assert_eq!(game.begin_tick(&arena, &Input::idle(), 16), 0);
    assert_eq!(game.end_tick(&Vec::new()), Outcome::Continue);
    assert_eq!(game.state, GameState::GameWin);
}

#[test]
fn one_grandfather_out_of_time_is_no_win() {
    let arena = Arena::standard();
    let mut game = playing();
    game.world.as_mut().unwrap().sun.clock.time = 10;
    game.begin_tick(&arena, &Input::idle(), 16);
    assert_eq!(game.end_tick(&Vec::new()), Outcome::Continue);
    assert_eq!(game.state, GameState::Playing);
    assert_eq!(game.world.as_ref().unwrap().sun.clock.time, -6);
}

#[test]
fn hits_decide_the_win_in_the_same_tick() {
    let mut world = World::new();
    world.elapsed = 3000;
    world.alarms.push(alarm_at(0, 0));
    world.alarms.push(alarm_at(1, 1));
    world.sun.clock.time = 30_000;
    world.moon.clock.time = 29_999;
    let both = Contact { reflector: false, player: false, sun: true, moon: true };
    assert_eq!(world.end_tick(&vec![both, none()]), Outcome::GameWin);
    assert_eq!(world.sun.clock.time, 0);
    assert_eq!(world.moon.clock.time, -1);
    assert_eq!(world.alarms.len(), 1);
}

#[test]
fn losing_comes_before_winning() {
    let arena = Arena::standard();
    let mut game = playing();
    {
        let world = game.world.as_mut().unwrap();
        world.player.clock.time = 16;
        world.sun.clock.time = 1;
        world.moon.clock.time = 1;
    }
    game.begin_tick(&arena, &Input::idle(), 16);
    assert_eq!(game.end_tick(&Vec::new()), Outcome::GameOver);
    assert_eq!(game.state, GameState::GameOver);
    assert!(game.world.is_none());
}

#[test]
fn cleanup_falls_due_every_ten_seconds() {
    let arena = Arena::standard();
    let mut world = World::new();
    world.begin_tick(&arena, &Input::idle(), 9000);
    assert_eq!(world.alarms.len(), 6);
    assert!(!world.cleanup_due);
    let touched = Contact { reflector: true, player: false, sun: false, moon: false };
    let contacts = vec![touched, none(), touched, none(), none(), none()];
    assert_eq!(world.end_tick(&contacts), Outcome::Continue);
    assert_eq!(world.alarms.len(), 6);
    assert!(world.alarms[0].reflected && world.alarms[2].reflected);
    world.begin_tick(&arena, &Input::idle(), 999);
    assert!(!world.cleanup_due);
    world.end_tick(&Vec::new());
    assert_eq!(world.alarms.len(), 6);
    world.begin_tick(&arena, &Input::idle(), 1);
    assert!(world.cleanup_due);
    world.end_tick(&Vec::new());
    assert!(!world.cleanup_due);
    assert_eq!(world.alarms.len(), 4);
    assert!(world.alarms.iter().all(|alarm| !alarm.reflected));
    assert!(world.is_wf());
}

#[test]
fn cleanup_takes_the_alarms_reflected_in_the_same_tick() {
    let arena = Arena::standard();
    let mut world = World::new();
    assert_eq!(world.begin_tick(&arena, &Input::idle(), 10_000), 6);
    let touched = Contact { reflector: true, player: false, sun: false, moon: false };
    world.end_tick(&vec![touched]);
    assert_eq!(world.alarms.len(), 5);
}

#[test]
fn the_world_clock_holds_at_its_highest_value() {
    let arena = Arena::standard();
    let mut world = World::new();
    world.elapsed = u64::MAX - 5;
    assert_eq!(world.begin_tick(&arena, &Input::idle(), 100), 0);
    assert_eq!(world.elapsed, u64::MAX);
    assert_eq!(world.player.clock.time, 299_900);
}
