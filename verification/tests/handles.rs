use wasting_time::alarm::{
    cleanup_alarms, handle_collisions, move_alarm, spawn_alarm, Alarm, Contact, SpawnAlarmEvent,
};
use wasting_time::clock::Clock;
use wasting_time::components::{Arena, Speed, Vec2};
use wasting_time::game::{Game, GameError};
use wasting_time::input::Input;
use wasting_time::reflector::reflector_position;
use wasting_time::render::{render_records, EntityKind, RenderRecord};
use wasting_time::state::{GameState, Outcome};
use wasting_time::world::{emit_pulses, World};

fn numbered(count: u64) -> Vec<Alarm> {
    let mut events: Vec<SpawnAlarmEvent> = Vec::new();
    let mut i: u64 = 0;
    while i < count {
        events.push(SpawnAlarmEvent(Vec2::new(10 * i as i32, 5)));
        i += 1;
    }
    let mut alarms: Vec<Alarm> = Vec::new();
    spawn_alarm(&events, &mut alarms);
    for (index, alarm) in alarms.iter_mut().enumerate() {
        assert_eq!(alarm.id, 0);
        alarm.id = 100 + index as u64;
    }
    alarms
}

fn ids(alarms: &Vec<Alarm>) -> Vec<u64> {
    alarms.iter().map(|alarm| alarm.id).collect()
}

#[test]
fn steering_keeps_the_handles() {
    let mut alarms = numbered(4);
    move_alarm(&mut alarms, Vec2::new(0, 0), 1);
    assert_eq!(ids(&alarms), vec![100, 101, 102, 103]);
}

#[test]
fn survivors_keep_their_handles() {
    let mut alarms = numbered(5);
    let mut player = Clock::new(300);
    let mut sun = Clock::new(300);
    let mut moon = Clock::new(300);
    let contacts = vec![
        Contact { reflector: false, player: true, sun: false, moon: false },
        Contact { reflector: true, player: false, sun: false, moon: false },
        Contact { reflector: false, player: false, sun: false, moon: true },
        Contact { reflector: false, player: false, sun: false, moon: false },
    ];
    handle_collisions(&mut alarms, &contacts, &mut player, &mut sun, &mut moon);
    assert_eq!(ids(&alarms), vec![101, 103, 104]);
    cleanup_alarms(&mut alarms);
    assert_eq!(ids(&alarms), vec![103, 104]);
}

#[test]
fn pulses_repeat_the_events() {
    let mut alarms = numbered(1);
    let events = vec![SpawnAlarmEvent(Vec2::new(1, 2)), SpawnAlarmEvent(Vec2::new(3, 4))];
    emit_pulses(&events, 3, &mut alarms);
    assert_eq!(ids(&alarms), vec![100, 0, 0, 0, 0, 0, 0]);
    let places: Vec<Vec2> = alarms.iter().map(|alarm| alarm.body.position).collect();
    assert_eq!(
        places,
        vec![
            Vec2::new(0, 5),
            Vec2::new(1, 2),
            Vec2::new(3, 4),
            Vec2::new(1, 2),
            Vec2::new(3, 4),
            Vec2::new(1, 2),
            Vec2::new(3, 4),
        ]
    );
    emit_pulses(&events, 0, &mut alarms);
    assert_eq!(alarms.len(), 7);
}

#[test]
fn game_check_ties_the_world_to_the_state() {
    let mut game = Game::new();
    assert!(game.is_wf());
    game.world = Some(World::new());
    assert!(!game.is_wf());
    game.state = GameState::Playing;
    assert!(game.is_wf());
    game.world.as_mut().unwrap().player.speed.0 = u32::MAX;
    assert!(!game.is_wf());
    game.world = None;
    assert!(!game.is_wf());
}

#[test]
fn unusable_game_is_refused_and_left_alone() {
    let arena = Arena::standard();
    let mut game = Game::new();
    assert_eq!(game.try_begin_tick(&arena, &Input::idle(), 3000), Ok(0));
    assert_eq!(game.try_end_tick(&Vec::new()), Ok(Outcome::Continue));
    game.assets_loaded();
    game.click_play_button();
    assert_eq!(game.try_begin_tick(&arena, &Input::idle(), 3000), Ok(2));
    assert_eq!(game.try_end_tick(&Vec::new()), Ok(Outcome::Continue));
    let no_scale = Arena { width: 800, height: 600, scale: 0 };
    assert_eq!(
        game.try_begin_tick(&no_scale, &Input::idle(), 3000),
        Err(GameError::InvariantViolation)
    );
    assert_eq!(game.world.as_ref().unwrap().elapsed, 3000);
    game.world.as_mut().unwrap().alarms[0].speed = Speed(u32::MAX);
    assert_eq!(
        game.try_begin_tick(&arena, &Input::idle(), 3000),
        Err(GameError::InvariantViolation)
    );
    let hit = Contact { reflector: false, player: true, sun: false, moon: false };
    assert_eq!(game.try_end_tick(&vec![hit]), Err(GameError::InvariantViolation));
    let world = game.world.as_ref().unwrap();
    assert_eq!(world.elapsed, 3000);
    assert_eq!(world.alarms.len(), 2);
    assert_eq!(world.player.clock.time, 297_000);
    assert_eq!(game.state, GameState::Playing);
}

#[test]
fn checked_ticks_end_the_game_as_the_plain_ones_do() {
    let arena = Arena::standard();
    let mut game = Game::new();
    game.assets_loaded();
    game.click_play_button();
    game.world.as_mut().unwrap().player.clock.time = 30_016;
    assert_eq!(game.try_begin_tick(&arena, &Input::idle(), 3016), Ok(2));
    let hit = Contact { reflector: false, player: true, sun: false, moon: false };
    assert_eq!(game.try_end_tick(&vec![hit]), Ok(Outcome::GameOver));
    assert_eq!(game.state, GameState::GameOver);
    assert!(game.world.is_none());
}

#[test]
fn render_records_list_every_entity() {
    let arena = Arena::standard();
    let mut world = World::new();
    world.begin_tick(&arena, &Input::idle(), 3000);
    world.player.body.position = Vec2::new(12, -7);
    world.alarms[1].reflected = true;
    world.moon.clock.time = -5;
    let records = render_records(&world);
    assert_eq!(
        records,
        vec![
            RenderRecord {
                kind: EntityKind::Player,
                position: Vec2::new(12, -7),
                reflected: None,
                clock_display: Some("04:57".to_string()),
            },
            RenderRecord {
                kind: EntityKind::Reflector,
                position: Vec2::new(12, 33),
                reflected: None,
                clock_display: None,
            },
            RenderRecord {
                kind: EntityKind::GrandfatherSun,
                position: Vec2::new(-350, 210),
                reflected: None,
                clock_display: Some("04:57".to_string()),
            },
            RenderRecord {
                kind: EntityKind::GrandfatherMoon,
                position: Vec2::new(350, 200),
                reflected: None,
                clock_display: Some("00:00".to_string()),
            },
            RenderRecord {
                kind: EntityKind::Alarm,
                position: Vec2::new(200, 180),
                reflected: Some(false),
                clock_display: None,
            },
            RenderRecord {
                kind: EntityKind::Alarm,
                position: Vec2::new(-230, 190),
                reflected: Some(true),
                clock_display: None,
            },
        ]
    );
    assert_eq!(render_records(&World::new()).len(), 4);
}

#[test]
fn reflector_stays_on_the_plane() {
    assert_eq!(reflector_position(Vec2::new(3, i32::MAX - 41)), Vec2::new(3, i32::MAX - 1));
    assert_eq!(reflector_position(Vec2::new(3, i32::MAX - 39)), Vec2::new(3, i32::MAX));
    assert_eq!(reflector_position(Vec2::new(3, i32::MAX)), Vec2::new(3, i32::MAX));
    assert_eq!(reflector_position(Vec2::new(-3, i32::MIN)), Vec2::new(-3, i32::MIN + 40));
}

#[test]
fn each_error_has_its_message() {
    assert_eq!(GameError::AssetMissing.message(), "a required asset was not found");
    assert_eq!(
        GameError::InvariantViolation.message(),
        "the game is in a state that its rules exclude"
    );
    assert_eq!(
        GameError::PhysicsStepError.message(),
        "the physics world failed to make its step"
    );
}

#[test]
fn a_tick_keeps_the_handles_of_the_alarms_that_stay() {
    let arena = Arena::standard();
    let mut world = World::new();
    assert_eq!(world.begin_tick(&arena, &Input::idle(), 6000), 4);
    for (index, alarm) in world.alarms.iter_mut().enumerate() {
        alarm.id = 7 + index as u64;
    }
    let hit = Contact { reflector: false, player: true, sun: false, moon: false };
    let none = Contact { reflector: false, player: false, sun: false, moon: false };
    world.end_tick(&vec![none, hit, none, none]);
    assert_eq!(ids(&world.alarms), vec![7, 9, 10]);
    assert_eq!(world.begin_tick(&arena, &Input::idle(), 3000), 2);
    assert_eq!(ids(&world.alarms), vec![7, 9, 10, 0, 0]);
}
