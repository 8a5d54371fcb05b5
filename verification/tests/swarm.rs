use pc_simulator::swarm::{StagnationMonitor, PATIENCE};

#[test]
fn fresh_monitor_counts_nothing() {
    let m = StagnationMonitor::new();
    assert_eq!(m.epochs_since_improvement(), 0);
}

#[test]
fn reseed_after_patience_epochs_without_improvement() {
    let mut m = StagnationMonitor::new();
    for epoch in 1..PATIENCE {
        assert!(!m.observe(false));
        assert_eq!(m.epochs_since_improvement(), epoch);
    }
    assert!(m.observe(false));
    assert_eq!(m.epochs_since_improvement(), 0);
}

#[test]
fn patience_is_fifteen_epochs() {
    assert_eq!(PATIENCE, 15);
    let mut m = StagnationMonitor::new();
    let reseeds: Vec<bool> = (0..15).map(|_| m.observe(false)).collect();
    assert_eq!(reseeds.iter().filter(|r| **r).count(), 1);
    assert!(reseeds[14]);
}

#[test]
fn improvement_resets_the_count() {
    let mut m = StagnationMonitor::new();
    for _ in 0..10 {
        assert!(!m.observe(false));
    }
    assert!(!m.observe(true));
    assert_eq!(m.epochs_since_improvement(), 0);
    for _ in 0..14 {
        assert!(!m.observe(false));
    }
    assert!(m.observe(false));
}

#[test]
fn long_stall_reseeds_every_patience_epochs() {
    let mut m = StagnationMonitor::new();
    let mut reseed_epochs = Vec::new();
    for epoch in 1..=45u32 {
        if m.observe(false) {
            reseed_epochs.push(epoch);
        }
    }
    assert_eq!(reseed_epochs, vec![15, 30, 45]);
}

#[test]
fn improving_every_epoch_never_reseeds() {
    let mut m = StagnationMonitor::new();
    for _ in 0..100 {
        assert!(!m.observe(true));
        assert_eq!(m.epochs_since_improvement(), 0);
    }
}
