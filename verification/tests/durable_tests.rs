use bluebottle::backends::{BackendInitState, BackendKind};
use bluebottle::durable::DurableStateStorage;

#[test]
fn test_single_backend_save_retrieve() {
    let input_init_state = BackendInitState {
        id: uuid::Uuid::now_v7().as_u128(),
        kind: BackendKind::Jellyfin,
        context: String::from("{\"test\":1234}"),
    };
    let id = input_init_state.id;

    let mut storage = DurableStateStorage::open_in_memory().unwrap();
    storage.save_backend_init_state(input_init_state).unwrap();

    let states = storage.read_all_backend_init_state().unwrap();
    assert_eq!(states.len(), 1);
    assert_eq!(states[0].id, id);
    assert_eq!(states[0].kind, BackendKind::Jellyfin);
    assert_eq!(states[0].context, String::from("{\"test\":1234}"));
}

#[test]
fn test_multiple_backend_save_retrieve() {
    let input_init_state1 = BackendInitState {
        id: uuid::Uuid::now_v7().as_u128(),
        kind: BackendKind::Jellyfin,
        context: String::from("{\"test\":1234}"),
    };
    let input_init_state2 = BackendInitState {
        id: uuid::Uuid::now_v7().as_u128(),
        kind: BackendKind::Jellyfin,
        context: String::from("{\"test\":\"other\"}"),
    };

    let mut storage = DurableStateStorage::open_in_memory().unwrap();
    storage.save_backend_init_state(input_init_state1).unwrap();
    storage.save_backend_init_state(input_init_state2).unwrap();

    let states = storage.read_all_backend_init_state().unwrap();
    assert_eq!(states.len(), 2);
}

#[test]
fn duplicate_backend_id_rejected() {
    let id = uuid::Uuid::now_v7().as_u128();
    let first = BackendInitState {
        id,
        kind: BackendKind::Jellyfin,
        context: String::from("{\"server\":\"one\"}"),
    };
    let second = BackendInitState {
        id,
        kind: BackendKind::Jellyfin,
        context: String::from("{\"server\":\"two\"}"),
    };

    let mut storage = DurableStateStorage::open_in_memory().unwrap();
    storage.save_backend_init_state(first).unwrap();
    assert!(storage.save_backend_init_state(second).is_err());

    // the first record is untouched: no silent overwrite
    let states = storage.read_all_backend_init_state().unwrap();
    assert_eq!(states.len(), 1);
    assert_eq!(states[0].context, String::from("{\"server\":\"one\"}"));
}

#[test]
fn durable_record_survives_reopen() {
    let tmp_dir = tempfile::tempdir().unwrap();
    let data_dir = tmp_dir.path().to_str().unwrap().to_string();

    let id = uuid::Uuid::now_v7().as_u128();
    {
        let mut storage = DurableStateStorage::open(&data_dir).unwrap();
        storage
            .save_backend_init_state(BackendInitState {
                id,
                kind: BackendKind::Jellyfin,
                context: String::from("{\"kept\":true}"),
            })
            .unwrap();
        // the connection is dropped here without any orderly shutdown,
        // standing in for an abrupt termination after the write acknowledgment
    }

    let storage = DurableStateStorage::open(&data_dir).unwrap();
    let states = storage.read_all_backend_init_state().unwrap();
    assert_eq!(states.len(), 1);
    assert_eq!(states[0].id, id);
    assert_eq!(states[0].context, String::from("{\"kept\":true}"));
}
