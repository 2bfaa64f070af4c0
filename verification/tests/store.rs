//! The state store: save/load round trips and crash safety of the
//! two-phase write, simulated on the in-memory slots.

use halldyll_starter::runpod_state::{PodId, RunPodState, TargetStatus};
use halldyll_starter::state_codec::StateDocError;
use halldyll_starter::state_store::{JsonFileStateStore, MemStateStore, StateStore, StateStoreError};

fn sample_state(name: &str, now: u64) -> RunPodState {
    RunPodState::new(name.to_string(), now)
}

#[test]
fn empty_store_loads_nothing() {
    let store = MemStateStore::new();
    let loaded = store.load().unwrap();
    assert!(loaded.is_none());
}

#[test]
fn save_then_load_returns_the_state() {
    let mut store = MemStateStore::new();
    let mut st = sample_state("halldyll-pod", 42);
    st.apply_created(PodId::new("p1".to_string()), 50);
    st.set_target(TargetStatus::Exited, 60);
    store.save(&st).unwrap();
    let loaded = store.load().unwrap();
    assert_eq!(loaded, Some(st));
}

#[test]
fn save_replaces_previous_record() {
    let mut store = MemStateStore::new();
    let first = sample_state("halldyll-pod", 1);
    let second = sample_state("halldyll-pod", 2);
    store.save(&first).unwrap();
    store.save(&second).unwrap();
    assert_eq!(store.load().unwrap(), Some(second));
}

#[test]
fn interrupted_write_preserves_previous_state() {
    // First a full save of the old state.
    let mut store = MemStateStore::new();
    let old_state = sample_state("halldyll-pod", 1);
    store.save(&old_state).unwrap();

    // A new save that stops after the temporary write: the temporary
    // slot is filled, the canonical slot untouched.
    let new_state = sample_state("halldyll-pod", 2);
    store.stage(&new_state).unwrap();
    assert!(store.temp.is_some());
    assert_eq!(store.load().unwrap(), Some(old_state));

    // Only the final move publishes the new state.
    store.commit();
    assert_eq!(store.load().unwrap(), Some(new_state));
}

#[test]
fn interrupted_first_write_leaves_no_record() {
    let mut store = MemStateStore::new();
    let st = sample_state("halldyll-pod", 1);
    store.stage(&st).unwrap();
    assert!(store.load().unwrap().is_none());
}

#[test]
fn save_rejects_invalid_state_and_changes_nothing() {
    let mut store = MemStateStore::new();
    let good = sample_state("halldyll-pod", 1);
    store.save(&good).unwrap();

    let unnamed = sample_state("", 2);
    let r = store.save(&unnamed);
    assert!(matches!(r, Err(StateStoreError::Doc(StateDocError::EmptyName))));
    assert_eq!(store.load().unwrap(), Some(good.clone()));

    let blank = sample_state("  \t ", 3);
    let r = store.save(&blank);
    assert!(matches!(r, Err(StateStoreError::Doc(StateDocError::EmptyName))));
    assert_eq!(store.load().unwrap(), Some(good));
}

#[test]
fn load_rejects_corrupted_record() {
    let store = MemStateStore {
        canonical: Some("{\"format_version\":1,garbage".to_string()),
        temp: None,
    };
    let r = store.load();
    assert!(matches!(r, Err(StateStoreError::Doc(StateDocError::Malformed))));
}

#[test]
fn load_rejects_foreign_version_record() {
    let mut store = MemStateStore::new();
    let mut st = sample_state("halldyll-pod", 1);
    st.format_version = 9;
    store.temp = Some(halldyll_starter::state_codec::encode_state(&st));
    store.commit();
    let r = store.load();
    assert!(matches!(r, Err(StateStoreError::Doc(StateDocError::WrongVersion))));
}

#[test]
fn file_store_paths() {
    let store = JsonFileStateStore::new(".runpod_state.json".to_string());
    assert_eq!(store.path(), ".runpod_state.json");
    assert_eq!(store.temp_path(), ".runpod_state.json.tmp");
}
