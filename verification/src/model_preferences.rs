//! Which models a user has marked in a workspace.
//!
//! The preferences lie in a database table, where a mark is a number. This module reads the rows
//! that the database gives, makes the values that it is to store, and finds the preference that
//! was stored among those that are read again.

use vstd::prelude::*;
use vstd::string::*;

verus! {

/// A user's marks on one model of one engine in a workspace.
#[derive(Debug, Clone)]
pub struct ModelPreferenceDto {
    pub workspace_id: String,
    pub user_id: String,
    pub engine_id: String,
    pub model_id: String,
    pub is_favorite: bool,
    pub is_enabled: bool,
    pub updated_at: String,
}

/// A row of the table, as the database gives it.
#[derive(Debug, Clone)]
pub struct PreferenceRow {
    pub workspace_id: String,
    pub user_id: String,
    pub engine_id: String,
    pub model_id: String,
    pub is_favorite: i64,
    pub is_enabled: i64,
    pub updated_at: String,
}

/// The values that the database is to store; it adds the time itself.
#[derive(Debug, Clone)]
pub struct PreferenceValues {
    pub workspace_id: String,
    pub user_id: String,
    pub engine_id: String,
    pub model_id: String,
    pub is_favorite: i64,
    pub is_enabled: i64,
}

/// The contents of a [`ModelPreferenceDto`].
pub struct PreferenceView {
    pub workspace_id: Seq<char>,
    pub user_id: Seq<char>,
    pub engine_id: Seq<char>,
    pub model_id: Seq<char>,
    pub is_favorite: bool,
    pub is_enabled: bool,
    pub updated_at: Seq<char>,
}

/// The contents of a [`PreferenceRow`].
pub struct RowView {
    pub workspace_id: Seq<char>,
    pub user_id: Seq<char>,
    pub engine_id: Seq<char>,
    pub model_id: Seq<char>,
    pub is_favorite: i64,
    pub is_enabled: i64,
    pub updated_at: Seq<char>,
}

/// The contents of [`PreferenceValues`].
pub struct ValuesView {
    pub workspace_id: Seq<char>,
    pub user_id: Seq<char>,
    pub engine_id: Seq<char>,
    pub model_id: Seq<char>,
    pub is_favorite: i64,
    pub is_enabled: i64,
}

impl DeepView for ModelPreferenceDto {
    type V = PreferenceView;

    open spec fn deep_view(&self) -> PreferenceView {
        PreferenceView {
            workspace_id: self.workspace_id@,
            user_id: self.user_id@,
            engine_id: self.engine_id@,
            model_id: self.model_id@,
            is_favorite: self.is_favorite,
            is_enabled: self.is_enabled,
            updated_at: self.updated_at@,
        }
    }
}

impl DeepView for PreferenceRow {
    type V = RowView;

    open spec fn deep_view(&self) -> RowView {
        RowView {
            workspace_id: self.workspace_id@,
            user_id: self.user_id@,
            engine_id: self.engine_id@,
            model_id: self.model_id@,
            is_favorite: self.is_favorite,
            is_enabled: self.is_enabled,
            updated_at: self.updated_at@,
        }
    }
}

impl DeepView for PreferenceValues {
    type V = ValuesView;

    open spec fn deep_view(&self) -> ValuesView {
        ValuesView {
            workspace_id: self.workspace_id@,
            user_id: self.user_id@,
            engine_id: self.engine_id@,
            model_id: self.model_id@,
            is_favorite: self.is_favorite,
            is_enabled: self.is_enabled,
        }
    }
}

/// The number that stands for a mark.
pub open spec fn stored_flag(flag: bool) -> i64 {
    if flag {
        1
    } else {
        0
    }
}

/// The mark that a number stands for.
pub open spec fn read_flag(stored: i64) -> bool {
    stored > 0
}

impl RowView {
    /// The preference that the row is.
    pub open spec fn preference(self) -> PreferenceView {
        PreferenceView {
            workspace_id: self.workspace_id,
            user_id: self.user_id,
            engine_id: self.engine_id,
            model_id: self.model_id,
            is_favorite: read_flag(self.is_favorite),
            is_enabled: read_flag(self.is_enabled),
            updated_at: self.updated_at,
        }
    }
}

impl ValuesView {
    /// The row that the values make, once the time is added.
    pub open spec fn row(self, updated_at: Seq<char>) -> RowView {
        RowView {
            workspace_id: self.workspace_id,
            user_id: self.user_id,
            engine_id: self.engine_id,
            model_id: self.model_id,
            is_favorite: self.is_favorite,
            is_enabled: self.is_enabled,
            updated_at,
        }
    }
}

/// The preferences that the rows are, in their order.
pub open spec fn preferences(rows: Seq<RowView>) -> Seq<PreferenceView> {
    rows.map_values(|row: RowView| row.preference())
}

/// The first preference for a model of an engine.
pub open spec fn first_preference(
    preferences: Seq<PreferenceView>,
    engine_id: Seq<char>,
    model_id: Seq<char>,
) -> Option<PreferenceView>
    decreases preferences.len(),
{
    if preferences.len() == 0 {
        None
    } else if preferences.first().engine_id == engine_id && preferences.first().model_id
        == model_id {
        Some(preferences.first())
    } else {
        first_preference(preferences.drop_first(), engine_id, model_id)
    }
}

/// Why a preference could not be stored.
#[derive(Debug, Clone)]
pub enum PreferenceError {
    /// The database did not take it.
    NotSaved { workspace_id: String, user_id: String, engine_id: String, model_id: String },
    /// The database took it and did not give it back.
    NotReloaded,
}

impl PreferenceError {
    /// The sentence that tells the error to the user.
    pub open spec fn spec_message(self) -> Seq<char> {
        match self {
            PreferenceError::NotSaved { workspace_id, user_id, engine_id, model_id } => {
                "failed to save model preference for "@ + workspace_id@ + "/"@ + user_id@ + "/"@
                    + engine_id@ + "/"@ + model_id@
            },
            PreferenceError::NotReloaded => "saved model preference could not be reloaded"@,
        }
    }

    /// The sentence that tells the error to the user.
    pub fn message(&self) -> (text: String)
        ensures
            text@ == self.spec_message(),
    {
        match self {
            PreferenceError::NotSaved { workspace_id, user_id, engine_id, model_id } => {
                let mut text = "failed to save model preference for ".to_owned();
                text.append(workspace_id.as_str());
                text.append("/");
                text.append(user_id.as_str());
                text.append("/");
                text.append(engine_id.as_str());
                text.append("/");
                text.append(model_id.as_str());
                text
            },
            PreferenceError::NotReloaded => {
                "saved model preference could not be reloaded".to_owned()
            },
        }
    }
}

/// The number that stands for a mark.
pub fn flag_to_stored(flag: bool) -> (stored: i64)
    ensures
        stored == stored_flag(flag),
{
    if flag {
        1
    } else {
        0
    }
}

/// The preference that a row is.
pub fn preference_from_row(row: PreferenceRow) -> (preference: ModelPreferenceDto)
    ensures
        preference.deep_view() == row.deep_view().preference(),
{
    ModelPreferenceDto {
        workspace_id: row.workspace_id,
        user_id: row.user_id,
        engine_id: row.engine_id,
        model_id: row.model_id,
        is_favorite: row.is_favorite > 0,
        is_enabled: row.is_enabled > 0,
        updated_at: row.updated_at,
    }
}

/// The preferences that the rows are, in their order.
pub fn preferences_from_rows(rows: Vec<PreferenceRow>) -> (result: Vec<ModelPreferenceDto>)
    ensures
        result.deep_view() == preferences(rows.deep_view()),
{
    let mut result: Vec<ModelPreferenceDto> = Vec::new();
    let ghost views = rows.deep_view();
    for row in it: rows
        invariant
            it.seq() == rows@,
            views == rows.deep_view(),
            result.deep_view() == preferences(views.take(it.index() as int)),
    {
        let ghost before = result.deep_view();
        result.push(preference_from_row(row));
        assert(result.deep_view() =~= before.push(row.deep_view().preference()));
        assert(preferences(views.take(it.index() + 1)) =~= before.push(
            row.deep_view().preference(),
        ));
    }
    assert(views.take(views.len() as int) =~= views);
    result
}

/// The values by which a user's marks on a model are stored.
pub fn upsert_values(
    workspace_id: &str,
    user_id: &str,
    engine_id: &str,
    model_id: &str,
    is_favorite: bool,
    is_enabled: bool,
) -> (values: PreferenceValues)
    ensures
        values.deep_view() == (ValuesView {
            workspace_id: workspace_id@,
            user_id: user_id@,
            engine_id: engine_id@,
            model_id: model_id@,
            is_favorite: stored_flag(is_favorite),
            is_enabled: stored_flag(is_enabled),
        }),
{
    PreferenceValues {
        workspace_id: workspace_id.to_owned(),
        user_id: user_id.to_owned(),
        engine_id: engine_id.to_owned(),
        model_id: model_id.to_owned(),
        is_favorite: flag_to_stored(is_favorite),
        is_enabled: flag_to_stored(is_enabled),
    }
}

/// The preference for a model that was stored, among the user's preferences read again.
pub fn saved_preference(
    listed: Vec<ModelPreferenceDto>,
    engine_id: &str,
    model_id: &str,
) -> (result: Result<ModelPreferenceDto, PreferenceError>)
    ensures
        match first_preference(listed.deep_view(), engine_id@, model_id@) {
            Some(preference) => result matches Ok(found) && found.deep_view() == preference,
            None => result matches Err(error) && error is NotReloaded,
        },
{
    let ghost views = listed.deep_view();
    assert(views.take(0) =~= Seq::empty());
    assert(views.skip(0) =~= views);
    for preference in it: listed
        invariant
            it.seq() == listed@,
            views == listed.deep_view(),
            first_preference(views, engine_id@, model_id@) == first_preference(
                views.skip(it.index() as int),
                engine_id@,
                model_id@,
            ),
    {
        assert(views.skip(it.index() as int).first() == preference.deep_view());
        assert(views.skip(it.index() as int).drop_first() =~= views.skip(it.index() + 1));
        if preference.engine_id.as_str().eq(engine_id) && preference.model_id.as_str().eq(
            model_id,
        ) {
            return Ok(preference);
        }
    }
    Err(PreferenceError::NotReloaded)
}

} // verus!
