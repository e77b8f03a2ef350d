use seriessynth::envelope::{Envelope, EnvelopeSettings, Stage, LEVEL_ONE};

fn settings(attack_step: u32, hold_samples: u64, decay_step: u32, sustain_level: u32, release_step: u32) -> EnvelopeSettings {
    EnvelopeSettings { attack_step, hold_samples, decay_step, sustain_level, release_step }
}

#[test]
fn instant_attack_is_full_after_one_sample() {
    let s = settings(0, 0, 0, LEVEL_ONE, 0);
    let e = Envelope::start().step(&s);
    assert_eq!(e.stage, Stage::Hold);
    assert_eq!(e.level, LEVEL_ONE);
}

#[test]
fn gradual_attack_climbs_then_holds() {
    let step = LEVEL_ONE / 4;
    let s = settings(step, 10, 1, LEVEL_ONE / 2, 1);
    let mut e = Envelope::start();
    let mut levels = Vec::new();
    for _ in 0..4 {
        e = e.step(&s);
        levels.push(e.level);
    }
    assert_eq!(levels, vec![step, 2 * step, 3 * step, LEVEL_ONE]);
    assert_eq!(e.stage, Stage::Hold);
}

#[test]
fn hold_ends_when_one_more_sample_reaches_its_length() {
    let s = settings(0, 4, 1, 0, 1);
    let mut e = Envelope { stage: Stage::Hold, level: LEVEL_ONE, hold_elapsed: 0 };
    e = e.step(&s);
    assert_eq!((e.stage, e.hold_elapsed), (Stage::Hold, 1));
    e = e.step(&s);
    assert_eq!((e.stage, e.hold_elapsed), (Stage::Hold, 2));
    e = e.step(&s);
    assert_eq!((e.stage, e.hold_elapsed), (Stage::Decay, 3));
    assert_eq!(e.level, LEVEL_ONE);
}

#[test]
fn zero_hold_leaves_at_once() {
    let s = settings(0, 0, 1, 0, 1);
    let e = Envelope { stage: Stage::Hold, level: LEVEL_ONE, hold_elapsed: 0 }.step(&s);
    assert_eq!(e.stage, Stage::Decay);
    assert_eq!(e.level, LEVEL_ONE);
}

#[test]
fn instant_decay_jumps_to_sustain() {
    let sustain = LEVEL_ONE / 3;
    let s = settings(0, 0, 0, sustain, 0);
    let mut e = Envelope::start();
    let mut levels = Vec::new();
    for _ in 0..4 {
        e = e.step(&s);
        levels.push(e.level);
    }
    assert_eq!(levels, vec![LEVEL_ONE, LEVEL_ONE, sustain, sustain]);
    assert_eq!(e.stage, Stage::Sustain);
}

#[test]
fn gradual_decay_stops_at_or_below_sustain() {
    let s = settings(0, 0, 300, 500, 1);
    let mut e = Envelope { stage: Stage::Decay, level: 1000, hold_elapsed: 0 };
    e = e.step(&s);
    assert_eq!((e.stage, e.level), (Stage::Decay, 700));
    e = e.step(&s);
    assert_eq!((e.stage, e.level), (Stage::Sustain, 400));
    e = e.step(&s);
    assert_eq!((e.stage, e.level), (Stage::Sustain, 400));
}

#[test]
fn release_fades_to_zero_and_stops() {
    let s = settings(0, 0, 0, 0, 400);
    let mut e = Envelope { stage: Stage::Release, level: 1000, hold_elapsed: 0 };
    e = e.step(&s);
    assert_eq!(e.level, 600);
    e = e.step(&s);
    assert_eq!(e.level, 200);
    e = e.step(&s);
    assert_eq!(e.level, 0);
    assert_eq!(e.stage, Stage::Release);
}

#[test]
fn instant_release_silences_at_once() {
    let s = settings(0, 0, 0, 0, 0);
    let e = Envelope { stage: Stage::Release, level: LEVEL_ONE, hold_elapsed: 0 }.step(&s);
    assert_eq!(e.level, 0);
}

#[test]
fn cut_off_voice_fades_like_a_released_one() {
    let s = settings(0, 0, 0, 0, 250);
    let dead = Envelope { stage: Stage::Dead, level: 1000, hold_elapsed: 0 }.step(&s);
    let released = Envelope { stage: Stage::Release, level: 1000, hold_elapsed: 0 }.step(&s);
    assert_eq!(dead.level, released.level);
    assert_eq!(dead.level, 750);
    assert_eq!(dead.stage, Stage::Dead);
}

#[test]
fn sustain_holds_its_level() {
    let s = settings(7, 0, 7, 0, 7);
    let e = Envelope { stage: Stage::Sustain, level: 1234, hold_elapsed: 3 };
    assert_eq!(e.step(&s), e);
}
