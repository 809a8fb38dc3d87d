use htpc_overlay::mpv::seek_speed::SeekSpeed;
use htpc_overlay::mpv::time::Time;

const LADDER: [SeekSpeed; 5] = [
    SeekSpeed::Second,
    SeekSpeed::FiveSeconds,
    SeekSpeed::ThirtySeconds,
    SeekSpeed::Minute,
    SeekSpeed::TenMinutes,
];

#[test]
fn default_speed_is_five_seconds() {
    assert_eq!(SeekSpeed::default(), SeekSpeed::FiveSeconds);
}

#[test]
fn longer_climbs_the_ladder_and_stops_at_the_top() {
    for i in 0..4 {
        assert_eq!(LADDER[i].longer(), Some(LADDER[i + 1]));
    }
    assert_eq!(SeekSpeed::TenMinutes.longer(), None);
}

#[test]
fn shorter_descends_the_ladder_and_stops_at_the_bottom() {
    for i in 1..5 {
        assert_eq!(LADDER[i].shorter(), Some(LADDER[i - 1]));
    }
    assert_eq!(SeekSpeed::Second.shorter(), None);
}

#[test]
fn repeated_longer_reaches_none_from_every_speed() {
    for (rank, start) in LADDER.iter().enumerate() {
        let mut speed = Some(*start);
        let mut steps = 0;
        while let Some(current) = speed {
            speed = current.longer();
            steps += 1;
            assert!(steps <= 5);
        }
        assert_eq!(steps, 5 - rank);
    }
}

#[test]
fn repeated_shorter_reaches_none_from_every_speed() {
    for (rank, start) in LADDER.iter().enumerate() {
        let mut speed = Some(*start);
        let mut steps = 0;
        while let Some(current) = speed {
            speed = current.shorter();
            steps += 1;
            assert!(steps <= 5);
        }
        assert_eq!(steps, rank + 1);
    }
}

#[test]
fn longer_and_shorter_undo_each_other_inside_the_ladder() {
    for speed in LADDER {
        if let Some(longer) = speed.longer() {
            assert_eq!(longer.shorter(), Some(speed));
        }
        if let Some(shorter) = speed.shorter() {
            assert_eq!(shorter.longer(), Some(speed));
        }
    }
}

#[test]
fn durations_of_the_speeds() {
    assert_eq!(SeekSpeed::Second.duration(), Time::seconds(1));
    assert_eq!(SeekSpeed::FiveSeconds.duration(), Time::seconds(5));
    assert_eq!(SeekSpeed::ThirtySeconds.duration(), Time::seconds(30));
    assert_eq!(SeekSpeed::Minute.duration(), Time::minutes(1));
    assert_eq!(SeekSpeed::TenMinutes.duration(), Time::minutes(10));
    assert_eq!(SeekSpeed::TenMinutes.duration().as_micros(), 600_000_000);
}

#[test]
fn labels_of_the_speeds() {
    assert_eq!(SeekSpeed::Second.label(), "1s");
    assert_eq!(SeekSpeed::FiveSeconds.label(), "5s");
    assert_eq!(SeekSpeed::ThirtySeconds.label(), "30s");
    assert_eq!(SeekSpeed::Minute.label(), "1m");
    assert_eq!(SeekSpeed::TenMinutes.label(), "10m");
}
