use heron_sound::pitch::{Octave, OctaveSpec};

#[test]
fn octave_test_size() {
    assert_eq!(std::mem::size_of::<OctaveSpec>(), 2);
}

#[test]
fn test_octave() {
    assert_eq!(Octave::default(), Octave::Base);

    assert_eq!(Octave::from(-1), Octave::Down(1));
    assert_eq!(Octave::from(0), Octave::Base);
    assert_eq!(Octave::from(1), Octave::Up(1));
    assert_eq!(Octave::from(2), Octave::Up(2));

    assert_eq!(-1i8, Octave::Down(1).into());
    assert_eq!(0i8, Octave::Base.into());
    assert_eq!(1i8, Octave::Up(1).into());
    assert_eq!(2i8, Octave::Up(2).into());
}

#[test]
fn octave_i8_extremes() {
    assert_eq!(Octave::from(i8::MIN), Octave::Down(128));
    assert_eq!(Octave::from(i8::MAX), Octave::Up(127));
    assert_eq!(i8::from(Octave::Down(127)), -127);
    assert_eq!(i8::from(Octave::Up(127)), 127);
}

#[test]
fn octave_spec_status() {
    let mut spec = OctaveSpec::default();
    assert!(spec.matches(Octave::Base));
    assert_eq!(spec.get(), Octave::Base);
    spec.set(Octave::Up(1));
    assert!(spec.matches(Octave::Up(1)));
    assert!(!spec.matches(Octave::Up(2)));
    assert_eq!(spec.get(), Octave::Up(1));
}

#[test]
fn octave_spec_apply_note() {
    let mut spec = OctaveSpec::default();
    assert_eq!(spec.apply_note(40), Some(40));
    assert_eq!(spec.apply_note(5), Some(5));
    assert_eq!(spec.apply_note(127), Some(127));
    assert_eq!(spec.apply_note(128), None);

    spec.set(Octave::Up(1));
    assert_eq!(spec.apply_note(40), Some(52));
    assert_eq!(spec.apply_note(115), Some(127));
    assert_eq!(spec.apply_note(116), None);
    assert_eq!(spec.apply_note(120), None);
    assert_eq!(spec.apply_note(250), None);

    spec.set(Octave::Down(1));
    assert_eq!(spec.apply_note(40), Some(28));
    assert_eq!(spec.apply_note(12), Some(0));
    assert_eq!(spec.apply_note(5), None);

    spec.set(Octave::Down(2));
    assert_eq!(spec.apply_note(40), Some(16));
    assert_eq!(spec.apply_note(5), None);

    spec.set(Octave::Up(10));
    assert_eq!(spec.apply_note(7), Some(127));
    assert_eq!(spec.apply_note(8), None);
}
