use save_editor::editor::{
    EditorMessage, EditorState, LevelEditHighScoreDataMessage, LevelEditMessage,
};
use save_editor::models::{DifficultyData, EnemyKillCount, LevelData, SaveGame};

fn diff_entry(difficulty: u64, num_attempts: u64, has_all_perfects: bool) -> DifficultyData {
    DifficultyData {
        difficulty,
        high_score: 900,
        letter_grade: String::from("A"),
        max_combo_count: 55,
        num_attempts,
        num_clears: 2,
        num_retries: 3,
        num_game_overs: 4,
        has_all_perfects,
        has_full_combo_rhythm_rift: false,
    }
}

fn level_entry(id: &str) -> LevelData {
    LevelData {
        level_id: String::from(id),
        stage_type: 1,
        was_completed_in_story_mode: false,
        was_attempted_in_story_mode: false,
        was_skipped_in_story_mode: false,
        awarded_diamonds: 2,
        awarded_diamonds_remix: 0,
        difficulty_data: vec![diff_entry(0, 5, false), diff_entry(1, 0, false)],
        remix_difficulty_data: vec![diff_entry(2, 9, false)],
    }
}

fn sample_doc() -> SaveGame {
    SaveGame {
        save_name: String::from("slot one"),
        game_data_version: 3,
        save_data_version: 7,
        times_booted: 11,
        save_id: 42,
        player_id: String::from("player-9"),
        selected_language: String::from("en"),
        framerate_limit: 60,
        level_data: vec![level_entry("lvl-a"), level_entry("lvl-b")],
        storyline_data: vec![],
        active_cosmetic_pin: String::from("pin-c"),
        active_gameplay_pin: String::from("pin-g"),
        should_display_dialogue_debug: false,
        should_unlock_all_levels: false,
        has_input_dragon_dance: true,
        selected_story_difficulty: 1,
        selected_arcade_difficulty: 2,
        selected_track_sorting_order: 0,
        selected_custom_music_sorting_order: 0,
        is_remix_mode_active: false,
        should_play_all_story_content_in_order: true,
        enemy_kill_counts_by_id: vec![EnemyKillCount {
            enemy_id: 5,
            number_of_kills: 100,
            number_of_deaths: 3,
        }],
        total_rhythm_rifts_cleared: 8,
        has_seen_splash_screens: true,
        has_opened_story_mode: true,
        has_agreed_to_no_streaming: false,
        total_diamonds: 250,
        total_vibe_power_uses: 12,
        max_enemies_killed_while_vibing: 30,
        bb_total_attacks: 400,
        bb_total_dodges: 500,
        bb_total_blocked_hits: 600,
    }
}

#[test]
fn new_starts_with_identical_copies() {
    let doc = sample_doc();
    let st = EditorState::new(doc.clone(), String::from("save.json"));
    assert_eq!(st.data, doc);
    assert_eq!(st.original, doc);
    assert_eq!(st.path, "save.json");
}

#[test]
fn edit_string_field_sets_value_and_dirty() {
    let mut st = EditorState::new(sample_doc(), String::from("save.json"));
    let save = st.update(EditorMessage::EditSaveName(String::from("renamed")));
    assert!(!save);
    assert_eq!(st.data.save_name, "renamed");
    assert_ne!(st.data.save_name, st.original.save_name);
    // every other field is untouched
    assert_eq!(st.data.player_id, st.original.player_id);
    assert_eq!(st.data.level_data, st.original.level_data);
    assert_eq!(st.data.total_diamonds, st.original.total_diamonds);
}

#[test]
fn edit_bool_and_numeric_fields() {
    let mut st = EditorState::new(sample_doc(), String::from("save.json"));
    st.update(EditorMessage::EditShouldUnlockAllLevels(true));
    st.update(EditorMessage::EditTotalDiamonds(9999));
    st.update(EditorMessage::EditBBTotalDodges(0));
    assert!(st.data.should_unlock_all_levels);
    assert_eq!(st.data.total_diamonds, 9999);
    assert_eq!(st.data.bb_total_dodges, 0);
    assert_eq!(st.data.save_name, st.original.save_name);
}

#[test]
fn edit_sets_dirty_false_when_value_equals_baseline() {
    let mut st = EditorState::new(sample_doc(), String::from("save.json"));
    let before = st.data.total_diamonds;
    st.update(EditorMessage::EditTotalDiamonds(before));
    assert_eq!(st.data.total_diamonds, st.original.total_diamonds);
}

#[test]
fn level_edit_in_bounds_sets_exactly_that_level() {
    let mut st = EditorState::new(sample_doc(), String::from("save.json"));
    st.update(EditorMessage::LevelEdit {
        index: 1,
        message: LevelEditMessage::EditStageType(77),
    });
    assert_eq!(st.data.level_data[1].stage_type, 77);
    assert_eq!(st.data.level_data[0], st.original.level_data[0]);
    assert_eq!(st.data.level_data[1].level_id, st.original.level_data[1].level_id);
}

#[test]
fn difficulty_edit_in_bounds_sets_exactly_that_entry() {
    let mut st = EditorState::new(sample_doc(), String::from("save.json"));
    st.update(EditorMessage::LevelEdit {
        index: 0,
        message: LevelEditMessage::EditHighScoreData {
            index: 1,
            message: LevelEditHighScoreDataMessage::EditHighScore(123456),
        },
    });
    assert_eq!(st.data.level_data[0].difficulty_data[1].high_score, 123456);
    assert_eq!(
        st.data.level_data[0].difficulty_data[0],
        st.original.level_data[0].difficulty_data[0]
    );
    assert_eq!(st.data.level_data[1], st.original.level_data[1]);
    // the remix sequence is distinct and untouched
    assert_eq!(
        st.data.level_data[0].remix_difficulty_data,
        st.original.level_data[0].remix_difficulty_data
    );
}

#[test]
fn out_of_bounds_level_edit_is_a_no_op() {
    let mut st = EditorState::new(sample_doc(), String::from("save.json"));
    let before = st.data.clone();
    let save = st.update(EditorMessage::LevelEdit {
        index: 2,
        message: LevelEditMessage::EditStageType(77),
    });
    assert!(!save);
    assert_eq!(st.data, before);
    assert_eq!(st.original, before);
}

#[test]
fn out_of_bounds_difficulty_edit_is_a_no_op() {
    let mut st = EditorState::new(sample_doc(), String::from("save.json"));
    let before = st.data.clone();
    st.update(EditorMessage::LevelEdit {
        index: 0,
        message: LevelEditMessage::EditHighScoreData {
            index: 2,
            message: LevelEditHighScoreDataMessage::EditHighScore(1),
        },
    });
    assert_eq!(st.data, before);
}

#[test]
fn save_command_requests_save_and_changes_nothing() {
    let mut st = EditorState::new(sample_doc(), String::from("save.json"));
    let before = st.data.clone();
    let save = st.update(EditorMessage::Save);
    assert!(save);
    assert_eq!(st.data, before);
    assert_eq!(st.original, before);
}

#[test]
fn mark_all_full_combo_sets_flags_and_clamps() {
    let mut st = EditorState::new(sample_doc(), String::from("save.json"));
    st.update(EditorMessage::MarkAllFullCombo);
    for level in &st.data.level_data {
        assert!(level.was_attempted_in_story_mode);
        assert!(level.was_completed_in_story_mode);
        for entry in level.difficulty_data.iter().chain(level.remix_difficulty_data.iter()) {
            assert!(entry.num_attempts <= 1);
            assert!(entry.num_retries <= 1);
            assert!(entry.has_all_perfects);
            assert!(entry.has_full_combo_rhythm_rift);
        }
    }
    // the first entry had 5 attempts: clamped down to 1
    assert_eq!(st.data.level_data[0].difficulty_data[0].num_attempts, 1);
    // the second entry had 0 attempts: a clamp never raises
    assert_eq!(st.data.level_data[0].difficulty_data[1].num_attempts, 0);
    // the remix entry (9 attempts) is clamped like any other
    assert_eq!(st.data.level_data[0].remix_difficulty_data[0].num_attempts, 1);
    assert!(st.data.level_data[0].remix_difficulty_data[0].has_all_perfects);
    // and its identifying fields stay what they were
    assert_eq!(st.data.level_data[0].remix_difficulty_data[0].difficulty, 2);
}

#[test]
fn mark_all_full_combo_is_idempotent() {
    let mut once = EditorState::new(sample_doc(), String::from("save.json"));
    once.update(EditorMessage::MarkAllFullCombo);
    let mut twice = EditorState::new(sample_doc(), String::from("save.json"));
    twice.update(EditorMessage::MarkAllFullCombo);
    twice.update(EditorMessage::MarkAllFullCombo);
    assert_eq!(once.data, twice.data);
}

#[test]
fn mark_all_full_combo_scenario_two_entries() {
    // one level, two difficulty entries: (0, 5 attempts, no perfects)
    // and (1, 0 attempts, no perfects)
    let mut doc = sample_doc();
    doc.level_data = vec![level_entry("only")];
    let mut st = EditorState::new(doc, String::from("save.json"));
    st.update(EditorMessage::MarkAllFullCombo);
    let level = &st.data.level_data[0];
    assert!(level.was_completed_in_story_mode);
    assert!(level.difficulty_data[0].num_attempts <= 1);
    assert!(level.difficulty_data[1].num_attempts <= 1);
    assert!(level.difficulty_data[0].has_all_perfects);
    assert!(level.difficulty_data[1].has_all_perfects);
}

#[test]
fn commit_saved_resets_every_dirty_predicate() {
    let mut st = EditorState::new(sample_doc(), String::from("save.json"));
    st.update(EditorMessage::EditSaveName(String::from("changed")));
    st.update(EditorMessage::EditTotalDiamonds(1));
    assert_ne!(st.data, st.original);
    st.commit_saved();
    assert_eq!(st.data, st.original);
    assert_eq!(st.data.save_name, "changed");
    assert_eq!(st.path, "save.json");
}
