use ap_alert::fairness::{Source, Turn};

#[test]
fn only_ready_source_is_served() {
    let mut t = Turn::new();
    assert_eq!(t.pick(false, true), Some(Source::Commands));
    assert_eq!(t.pick(true, false), Some(Source::Frames));
    assert_eq!(t.pick(false, false), None);
}

#[test]
fn both_ready_alternate() {
    let mut t = Turn::new();
    assert_eq!(t.first(), Source::Frames);
    let served: Vec<Option<Source>> = (0..4).map(|_| t.pick(true, true)).collect();
    assert_eq!(
        served,
        vec![Some(Source::Frames), Some(Source::Commands), Some(Source::Frames), Some(Source::Commands)]
    );
}

#[test]
fn busy_frames_do_not_starve_commands() {
    let mut t = Turn::new();
    let mut commands_served = 0;
    for i in 0..10 {
        if t.pick(true, i % 3 != 0) == Some(Source::Commands) {
            commands_served += 1;
        }
    }
    assert!(commands_served >= 3);
    t.served(Source::Commands);
    assert_eq!(t.first(), Source::Frames);
}
