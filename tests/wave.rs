use heron_sound::util::Bitmask;
use heron_sound::wave::{WaveSet, WaveShape, PULSE, SAW, SINE, TRI};

#[test]
fn wave_set_test_size() {
    assert_eq!(std::mem::size_of::<WaveSet>(), 1);
}

#[test]
fn test_has_shape() {
    let mut set = WaveSet { shapes: u8::only_bit(PULSE as usize) };
    assert!(set.has_shape(WaveShape::Pulse));
    assert!(!set.has_shape(WaveShape::Saw));
    set.shapes.set_bit(SAW as usize);
    assert!(set.has_shape(WaveShape::Saw));
}

#[test]
fn test_set_shape() {
    let mut set = WaveSet::default();
    assert!(!set.has_shape(WaveShape::Sine));
    set.set_shape(WaveShape::Sine, true);
    assert!(set.has_shape(WaveShape::Sine));
    set.set_shape(WaveShape::Sine, false);
    assert!(!set.has_shape(WaveShape::Sine));
}

#[test]
fn wave_shape_test_size() {
    assert_eq!(std::mem::size_of::<WaveShape>(), 1);
}

#[test]
fn test_default() {
    assert!(matches!(WaveShape::default(), WaveShape::Tri));
}

#[test]
fn test_into_u8() {
    assert_eq!(WaveShape::Tri.into_u8(), TRI);
    assert_eq!(WaveShape::Pulse.into_u8(), PULSE);
    assert_eq!(WaveShape::Saw.into_u8(), SAW);
    assert_eq!(WaveShape::Sine.into_u8(), SINE);
}

#[test]
fn test_into_usize() {
    assert_eq!(WaveShape::Tri.into_usize(), TRI as usize);
    assert_eq!(WaveShape::Pulse.into_usize(), PULSE as usize);
    assert_eq!(WaveShape::Saw.into_usize(), SAW as usize);
    assert_eq!(WaveShape::Sine.into_usize(), SINE as usize);
}

#[test]
fn test_from_u8() {
    assert!(matches!(WaveShape::from_u8(TRI), WaveShape::Tri));
    assert!(matches!(WaveShape::from_u8(PULSE), WaveShape::Pulse));
    assert!(matches!(WaveShape::from_u8(SAW), WaveShape::Saw));
    assert!(matches!(WaveShape::from_u8(SINE), WaveShape::Sine));
}

#[test]
fn shape_indices_are_fixed() {
    assert_eq!((TRI, PULSE, SAW, SINE), (0, 1, 2, 3));
    for i in 0..4u8 {
        assert_eq!(WaveShape::from_u8(i).into_u8(), i);
    }
}

#[test]
fn set_shape_uses_the_shape_index_as_bit() {
    let mut set = WaveSet::default();
    assert_eq!(set.shapes, 0);
    set.set_shape(WaveShape::Saw, true);
    assert_eq!(set.shapes, 0b0100);
    set.set_shape(WaveShape::Tri, true);
    assert_eq!(set.shapes, 0b0101);
    set.set_shape(WaveShape::Saw, false);
    assert_eq!(set.shapes, 0b0001);
    // Removing a shape that is not there changes nothing.
    set.set_shape(WaveShape::Pulse, false);
    assert_eq!(set.shapes, 0b0001);
    assert!(set.has_shape(WaveShape::Tri));
    assert!(!set.has_shape(WaveShape::Saw));
}

#[test]
fn bits_above_the_shapes_are_kept() {
    let mut set = WaveSet { shapes: 0b1000_0000 };
    set.set_shape(WaveShape::Sine, true);
    assert_eq!(set.shapes, 0b1000_1000);
}
