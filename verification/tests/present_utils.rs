use scrapbot::control::time::{millis, GameTime};
use scrapbot::present::depth::{relative_z, Depth};
use scrapbot::present::effect::{makes_sparks, DontSparkMe, ExplosionPower, ExplosionSound};
use scrapbot::present::simple_sprite::SimpleSprite;
use scrapbot::present::sound::{menu_drone, BeatSound, Beats, DroneChange};
use scrapbot::settings::{decode, encode, DecodeError};
use scrapbot::utils::math::{InterpolatedValue, Interpolation};
use scrapbot::utils::rust::{BoolExtended, RandomSelect};
use scrapbot::utils::text::to_decimal;

#[test]
fn beats_count_in_then_beat() {
    let mut b = Beats::new();
    b.enabled = true;
    assert_eq!(b.tick(&GameTime::at(0, 0), false), BeatSound::Silent);
    assert_eq!(b.start, Some(millis(750)));
    assert_eq!(b.period, millis(1000));
    assert_eq!(b.tick(&GameTime::at(millis(100), millis(100)), false), BeatSound::Silent);
    assert_eq!(b.tick(&GameTime::at(millis(250), millis(150)), false), BeatSound::Small);
    assert_eq!(b.tick(&GameTime::at(millis(500), millis(250)), false), BeatSound::Small);
    assert_eq!(b.tick(&GameTime::at(millis(750), millis(250)), false), BeatSound::Big);
    assert_eq!(b.tick(&GameTime::at(millis(1200), millis(450)), false), BeatSound::Silent);
    assert_eq!(b.tick(&GameTime::at(millis(1750), millis(550)), false), BeatSound::Big);
    // stopping resets the beat
    assert_eq!(b.tick(&GameTime::at(millis(1800), millis(50)), true), BeatSound::Silent);
    assert_eq!(b.start, None);
    b.enabled = false;
    assert_eq!(b.tick(&GameTime::at(millis(2000), millis(200)), false), BeatSound::Silent);
    assert_eq!(b.start, None);
}

#[test]
fn menu_drone_follows_game() {
    let mut running = false;
    assert_eq!(menu_drone(&mut running, false, true), None);
    assert_eq!(menu_drone(&mut running, true, false), None);
    assert!(!running);
    assert_eq!(menu_drone(&mut running, true, true), Some(DroneChange::Pause));
    assert!(running);
    assert_eq!(menu_drone(&mut running, false, true), Some(DroneChange::Resume));
    assert!(!running);
}

#[test]
fn depth_layers() {
    assert_eq!(Depth::Light.z_exact(), 110);
    assert_eq!(Depth::Player.z_exact(), 300);
    assert_eq!(Depth::Projectile.z_exact(), 500);
    assert_eq!(Depth::Wall.z_exact(), 800);
    assert_eq!(Depth::Effect.z_exact(), 900);
    assert_eq!(Depth::ImportantEffect.z_exact(), 950);
    assert_eq!(relative_z(Depth::Effect, &vec![]), 900);
    assert_eq!(relative_z(Depth::Effect, &vec![Depth::Player]), 600);
    assert_eq!(relative_z(Depth::Light, &vec![Depth::Wall, Depth::Player]), 110 - 1100);
}

#[test]
fn explosions_and_sparks() {
    assert_eq!(ExplosionPower::new(), ExplosionPower::Quiet);
    assert_eq!(ExplosionPower::Quiet.sound(), None);
    assert_eq!(ExplosionPower::Small.sound(), Some(ExplosionSound::Small));
    assert_eq!(ExplosionPower::Big.sound(), Some(ExplosionSound::Big));
    assert!(makes_sparks(true, false, None));
    assert!(makes_sparks(false, true, None));
    assert!(!makes_sparks(false, false, None));
    assert!(!makes_sparks(true, true, Some(DontSparkMe)));
}

#[test]
fn sprite_animation() {
    let mut s = SimpleSprite { images: vec!["a", "b", "c"], frame_duration: 100, frame: 0, until: 0 };
    let f = s.start().unwrap();
    assert!(f < 3);
    assert_eq!(s.frame, f);
    s.frame = 2;
    assert_eq!(s.update(&GameTime::at(50, 0)), Some(0));
    assert_eq!(s.until, 150);
    assert_eq!(s.update(&GameTime::at(149, 0)), None);
    assert_eq!(s.update(&GameTime::at(150, 0)), Some(1));
    let mut empty: SimpleSprite<u8> = SimpleSprite { images: vec![], frame_duration: 1, frame: 0, until: 0 };
    assert_eq!(empty.start(), None);
    assert_eq!(empty.update(&GameTime::at(10, 0)), None);
}

#[test]
fn settings_encoding() {
    assert_eq!(encode(&[]), "");
    assert_eq!(encode(&[0x01, 0xab, 0xff, 0x10]), "01abff10");
    assert_eq!(decode("01abff10"), Ok(vec![0x01, 0xab, 0xff, 0x10]));
    assert_eq!(decode("01ABFF10"), Ok(vec![0x01, 0xab, 0xff, 0x10]));
    assert_eq!(decode(""), Ok(vec![]));
    assert_eq!(decode("abc"), Err(DecodeError::InvalidLength));
    assert_eq!(decode("0g"), Err(DecodeError::InvalidCharacter));
    assert_eq!(decode("zz00"), Err(DecodeError::InvalidCharacter));
    // a two-byte character makes the byte length even but leaves one character unpaired
    assert_eq!(decode("é"), Ok(vec![]));
    let data: Vec<u8> = (0..=255).collect();
    assert_eq!(decode(&encode(&data)), Ok(data));
}

#[test]
fn decimal_text() {
    assert_eq!(to_decimal(0), "0");
    assert_eq!(to_decimal(42), "42");
    assert_eq!(to_decimal(u64::MAX), "18446744073709551615");
}

#[test]
fn flipping_bools() {
    let mut b = false;
    assert!(b.flip());
    assert!(b);
    assert!(!b.flip());
    assert!(!b);
}

#[test]
fn random_selection() {
    for _ in 0..50 {
        let v = vec![3, 5, 7];
        let r = v.random();
        assert!(r == 3 || r == 5 || r == 7);
        let g = vec![4, 6].get_random().unwrap();
        assert!(g == 4 || g == 6);
    }
    assert_eq!(vec![9].random(), 9);
    let empty: Vec<u8> = vec![];
    assert_eq!(empty.get_random(), None);
}

#[test]
fn interpolated_value_moves_to_target() {
    let mut v = InterpolatedValue::new(100, 1u32);
    assert_eq!(v.update(10), Interpolation::Exact(1));
    v.set_next(1);
    assert!(v.next_value.is_none());
    v.set_next(5);
    assert_eq!(v.next_value, Some((5, None)));
    assert_eq!(v.update(1000), Interpolation::Between { from: 1, to: 5, elapsed: 0, length: 100 });
    // the same target again does not restart the move
    v.set_next(5);
    assert_eq!(v.next_value, Some((5, Some(1000))));
    assert_eq!(v.update(1060), Interpolation::Between { from: 1, to: 5, elapsed: 60, length: 100 });
    assert_eq!(v.update(1100), Interpolation::Exact(5));
    assert_eq!(v.value, 5);
    assert!(v.next_value.is_none());
    // a new target replaces the pending one
    v.set_next(7);
    v.set_next(8);
    assert_eq!(v.next_value, Some((8, None)));
    // with no length, the target is reached once any time has passed
    let mut w = InterpolatedValue::new(0, 0u8);
    w.set_next(1);
    assert_eq!(w.update(5), Interpolation::Between { from: 0, to: 1, elapsed: 0, length: 0 });
    assert_eq!(w.update(6), Interpolation::Exact(1));
}

#[test]
fn on_the_beat() {
    let mut b = Beats::new();
    assert!(!b.in_beat(0));
    b.start = Some(millis(1000));
    b.period = millis(1000);
    assert!(!b.in_beat(millis(999)));
    assert!(b.in_beat(millis(1000)));
    assert!(b.in_beat(millis(1099)));
    assert!(!b.in_beat(millis(1100)));
    assert!(!b.in_beat(millis(1850)));
    assert!(b.in_beat(millis(1851)));
    assert!(b.in_beat(millis(5050)));
    b.period = 0;
    assert!(!b.in_beat(millis(1000)));
    b.period = millis(100);
    assert!(b.in_beat(millis(1050)));
}
