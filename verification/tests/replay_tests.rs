use hiraku_engine::replay::{InputKind, ReplayError, ReplayEvent, ReplayJournal, ReplayPoint};
use hiraku_engine::stored_value::StoredValue;

fn point(signature: &str) -> ReplayPoint {
    ReplayPoint { script: "memory://scene.hks".to_string(), signature: signature.to_string() }
}

#[test]
fn ordered_inputs_and_compressed_dialogues_roundtrip() {
    let mut journal = ReplayJournal::new("memory://entry.hks".to_string(), 123);
    journal.input(InputKind::Random, point("rand(0,10)"), StoredValue::Int(3));
    journal.input(InputKind::Choice, point("alice|bob"), StoredValue::String("bob".to_string()));
    for line in ["a", "b", "c", "d"] {
        journal.dialogue(&point(line)).expect("record dialogue");
    }
    journal.input(InputKind::Time, point("time()"), StoredValue::Float(12.5f64.to_bits()));
    journal.complete = true;
    journal.destination = Some(point("pending choice"));
    assert_eq!(journal.events.len(), 4);
    let mut replay = journal.playback().expect("complete history");
    assert_eq!(
        replay.input(InputKind::Random, &point("rand(0,10)")).expect("random"),
        StoredValue::Int(3)
    );
    assert!(replay.input(InputKind::Time, &point("time()")).is_err());
    assert_eq!(
        replay.input(InputKind::Choice, &point("alice|bob")).expect("choice"),
        StoredValue::String("bob".to_string())
    );
    for line in ["a", "b", "c", "d"] {
        replay.dialogue(&point(line)).expect("same dialogue");
    }
    assert!(replay.finish(&point("pending choice")).is_err());
    replay.input(InputKind::Time, &point("time()")).expect("time");
    replay.finish(&point("pending choice")).expect("exact destination");
}

#[test]
fn random_draws_restore_from_seed_and_recorded_ordinal() {
    let mut journal = ReplayJournal::new("memory://alice.hks".to_string(), 42);
    let mut seen = std::collections::BTreeSet::new();
    for _ in 0..32 {
        journal.destination = Some(point("random:2,4"));
        seen.insert(journal.random_int(2, 4));
    }
    assert_eq!(seen, std::collections::BTreeSet::from([2, 3]));
    let mut first = ReplayJournal::new("memory://alice.hks".to_string(), 42);
    let mut second = ReplayJournal::new("memory://alice.hks".to_string(), 42);
    for _ in 0..32 {
        first.destination = Some(point("random:2,4"));
        second.destination = Some(point("random:2,4"));
        assert_eq!(first.random_int(2, 4), second.random_int(2, 4));
    }
    assert!(journal
        .events
        .iter()
        .all(|event| matches!(event, ReplayEvent::Input { kind: InputKind::Random, .. })));
}

#[test]
fn changed_dialogue_and_partial_histories_are_not_silently_accepted() {
    let mut journal = ReplayJournal::new("memory://entry.hks".to_string(), 0);
    assert!(matches!(journal.playback(), Err(ReplayError::Incomplete)));
    journal.dialogue(&point("alice")).expect("record");
    journal.complete = true;
    assert!(journal.playback().expect("history").dialogue(&point("bob")).is_err());
    journal.version += 1;
    assert!(matches!(journal.playback(), Err(ReplayError::Version(_))));
}

#[test]
fn random_draws_stay_in_the_half_open_range_and_record_at_the_destination() {
    let mut journal = ReplayJournal::new("memory://dice.hks".to_string(), 7);
    for _ in 0..64 {
        journal.destination = Some(point("random:-3,5"));
        let value = journal.random_int(-3, 5);
        assert!((-3..5).contains(&value));
    }
    assert_eq!(journal.events.len(), 64);
    let before = journal.events.len();
    journal.destination = None;
    let _ = journal.try_random_int(0, 10).expect("draw");
    assert_eq!(journal.events.len(), before);
}

#[test]
fn replayed_journal_gives_back_its_recorded_inputs_in_order() {
    let mut journal = ReplayJournal::new("memory://entry.hks".to_string(), 1);
    journal.input(InputKind::Choice, point("a|b"), StoredValue::String("a".to_string()));
    journal.dialogue(&point("line")).expect("dialogue");
    journal.input(InputKind::UiResult, point("menu"), StoredValue::Bool(true));
    journal.complete = true;
    journal.destination = Some(point("end"));
    let mut replay = journal.playback().expect("complete");
    assert_eq!(
        replay.input(InputKind::Choice, &point("a|b")).expect("choice"),
        StoredValue::String("a".to_string())
    );
    assert!(replay.input(InputKind::UiResult, &point("menu")).is_err());
    replay.dialogue(&point("line")).expect("dialogue");
    assert_eq!(
        replay.input(InputKind::UiResult, &point("menu")).expect("ui"),
        StoredValue::Bool(true)
    );
    assert!(replay.finish(&point("elsewhere")).is_err());
    replay.finish(&point("end")).expect("destination");
}

#[test]
fn a_dialogue_run_longer_than_recorded_diverges() {
    let mut journal = ReplayJournal::new("memory://entry.hks".to_string(), 1);
    journal.dialogue(&point("one")).expect("dialogue");
    journal.complete = true;
    let mut replay = journal.playback().expect("complete");
    replay.dialogue(&point("one")).expect("first");
    assert!(matches!(
        replay.dialogue(&point("one")),
        Err(ReplayError::Diverged { event: 1, .. })
    ));
}
