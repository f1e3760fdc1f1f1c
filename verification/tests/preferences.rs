use opencode_engine::model_preferences::{
    flag_to_stored, preference_from_row, preferences_from_rows, saved_preference, upsert_values,
    PreferenceError, PreferenceRow, PreferenceValues,
};

fn row(engine_id: &str, model_id: &str, is_favorite: i64, is_enabled: i64) -> PreferenceRow {
    PreferenceRow {
        workspace_id: "w".to_string(),
        user_id: "u".to_string(),
        engine_id: engine_id.to_string(),
        model_id: model_id.to_string(),
        is_favorite,
        is_enabled,
        updated_at: "2026-01-02 03:04:05".to_string(),
    }
}

#[test]
fn marks_are_stored_and_read_back() {
    for flag in [true, false] {
        let stored = flag_to_stored(flag);
        assert_eq!(preference_from_row(row("e", "m", stored, 0)).is_favorite, flag);
        assert_eq!(preference_from_row(row("e", "m", 0, stored)).is_enabled, flag);
    }
    assert_eq!(flag_to_stored(true), 1);
    assert_eq!(flag_to_stored(false), 0);
    assert!(!preference_from_row(row("e", "m", -1, 0)).is_favorite);
    assert!(preference_from_row(row("e", "m", 2, 0)).is_favorite);
}

#[test]
fn rows_become_preferences_in_order() {
    let listed = preferences_from_rows(vec![row("e", "a", 1, 0), row("e", "b", 0, 1)]);
    assert_eq!(listed.len(), 2);
    assert_eq!(listed[0].model_id, "a");
    assert!(listed[0].is_favorite && !listed[0].is_enabled);
    assert_eq!(listed[1].model_id, "b");
    assert!(!listed[1].is_favorite && listed[1].is_enabled);
    assert_eq!(listed[1].workspace_id, "w");
    assert_eq!(listed[1].user_id, "u");
    assert_eq!(listed[1].engine_id, "e");
    assert_eq!(listed[1].updated_at, "2026-01-02 03:04:05");
}

#[test]
fn a_stored_preference_is_read_back() {
    let values = upsert_values("w", "u", "e", "b", true, false);
    assert_eq!(values.workspace_id, "w");
    assert_eq!(values.user_id, "u");
    assert_eq!((values.is_favorite, values.is_enabled), (1, 0));
    let rows = vec![
        row("e", "a", 0, 1),
        row(&values.engine_id, &values.model_id, values.is_favorite, values.is_enabled),
        row("f", "b", 0, 1),
    ];
    let saved = saved_preference(preferences_from_rows(rows), "e", "b").expect("preference");
    assert_eq!(saved.engine_id, "e");
    assert_eq!(saved.model_id, "b");
    assert!(saved.is_favorite);
    assert!(!saved.is_enabled);
}

/// A table that keeps one row to a model, in the order in which they were first written.
fn store(table: &mut Vec<PreferenceRow>, values: PreferenceValues) {
    let written = row(
        &values.engine_id,
        &values.model_id,
        values.is_favorite,
        values.is_enabled,
    );
    match table
        .iter_mut()
        .find(|row| row.engine_id == values.engine_id && row.model_id == values.model_id)
    {
        Some(row) => *row = written,
        None => table.push(written),
    }
}

#[test]
fn the_last_write_wins() {
    let mut table = vec![row("e", "a", 0, 1)];
    store(&mut table, upsert_values("w", "u", "e", "b", true, false));
    store(&mut table, upsert_values("w", "u", "f", "b", true, true));
    store(&mut table, upsert_values("w", "u", "e", "b", false, true));
    let listed = preferences_from_rows(table);
    let found: Vec<(bool, bool)> = listed
        .iter()
        .filter(|preference| preference.engine_id == "e" && preference.model_id == "b")
        .map(|preference| (preference.is_favorite, preference.is_enabled))
        .collect();
    assert_eq!(found, vec![(false, true)]);
    let saved = saved_preference(listed.clone(), "e", "b").expect("preference");
    assert_eq!((saved.is_favorite, saved.is_enabled), (false, true));
    let other = saved_preference(listed.clone(), "e", "a").expect("preference");
    assert_eq!((other.is_favorite, other.is_enabled), (false, true));
    let other = saved_preference(listed, "f", "b").expect("preference");
    assert_eq!((other.is_favorite, other.is_enabled), (true, true));
}

#[test]
fn the_first_of_two_preferences_is_found() {
    let listed = preferences_from_rows(vec![row("e", "a", 1, 0), row("e", "a", 0, 1)]);
    assert!(saved_preference(listed, "e", "a").expect("preference").is_favorite);
}

#[test]
fn a_preference_may_be_missing() {
    let error = saved_preference(preferences_from_rows(vec![row("e", "a", 1, 1)]), "e", "b")
        .expect_err("no preference");
    assert!(matches!(error, PreferenceError::NotReloaded));
    assert_eq!(error.message(), "saved model preference could not be reloaded");
    let error = PreferenceError::NotSaved {
        workspace_id: "w".to_string(),
        user_id: "u".to_string(),
        engine_id: "e".to_string(),
        model_id: "m".to_string(),
    };
    assert_eq!(error.message(), "failed to save model preference for w/u/e/m");
}
