use heron_sound::env::AdsrStage;
use heron_sound::filter::svf::{
    AllPass, BandPass, HighPass, LowPass, MagicPeak, Notch, Oversampling, Peak, SimpleSampling,
};
use heron_sound::filter::FilterType;
use heron_sound::osc::OscCore;
use heron_sound::trigger::NoteOn;
use heron_sound::wave::WaveShape;

#[test]
fn defaults_of_the_enums() {
    assert!(matches!(FilterType::default(), FilterType::Low));
    assert_eq!(AdsrStage::default(), AdsrStage::A);
    let n = NoteOn::default();
    assert_eq!((n.note, n.vel), (0, 0));
}

#[test]
fn strategy_types_hold_no_data() {
    assert_eq!(std::mem::size_of::<LowPass>(), 0);
    assert_eq!(std::mem::size_of::<HighPass>(), 0);
    assert_eq!(std::mem::size_of::<BandPass>(), 0);
    assert_eq!(std::mem::size_of::<Notch>(), 0);
    assert_eq!(std::mem::size_of::<Peak>(), 0);
    assert_eq!(std::mem::size_of::<AllPass>(), 0);
    assert_eq!(std::mem::size_of::<MagicPeak>(), 0);
    assert_eq!(std::mem::size_of::<SimpleSampling>(), 0);
    assert_eq!(std::mem::size_of::<Oversampling>(), 0);
    assert_eq!(std::mem::size_of::<OscCore<WaveShape>>(), 0);
}
