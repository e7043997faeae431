use memcrs::memcache::sequencer::CasSequencer;

#[test]
fn sequencer_starts_at_one() {
    let mut sequencer = CasSequencer::new();
    assert!(!sequencer.is_exhausted());
    assert_eq!(sequencer.next(), 1);
}

#[test]
fn sequencer_counts_up_by_one() {
    let mut sequencer = CasSequencer::new();
    let mut last = 0;
    for _ in 0..1000 {
        assert!(!sequencer.is_exhausted());
        let id = sequencer.next();
        assert_eq!(id, last + 1);
        last = id;
    }
}

#[test]
fn separate_sequencers_do_not_share_their_count() {
    let mut one = CasSequencer::new();
    let mut other = CasSequencer::new();
    assert_eq!(one.next(), 1);
    assert_eq!(one.next(), 2);
    assert_eq!(other.next(), 1);
}
