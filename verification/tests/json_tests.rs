use save_editor::codec::{backup_path, to_json};
use save_editor::decode::{decode_document, DecodeError};
use save_editor::models::{
    DifficultyData, EnemyKillCount, LevelData, SaveGame, StoryBeatData, StorylineData,
};

fn minimal_doc() -> SaveGame {
    SaveGame {
        save_name: String::from("s"),
        game_data_version: 1,
        save_data_version: 2,
        times_booted: 3,
        save_id: 4,
        player_id: String::from("p"),
        selected_language: String::from("en"),
        framerate_limit: 60,
        level_data: vec![],
        storyline_data: vec![],
        active_cosmetic_pin: String::new(),
        active_gameplay_pin: String::new(),
        should_display_dialogue_debug: false,
        should_unlock_all_levels: false,
        has_input_dragon_dance: false,
        selected_story_difficulty: 0,
        selected_arcade_difficulty: 0,
        selected_track_sorting_order: 0,
        selected_custom_music_sorting_order: 0,
        is_remix_mode_active: false,
        should_play_all_story_content_in_order: false,
        enemy_kill_counts_by_id: vec![],
        total_rhythm_rifts_cleared: 0,
        has_seen_splash_screens: false,
        has_opened_story_mode: false,
        has_agreed_to_no_streaming: false,
        total_diamonds: 0,
        total_vibe_power_uses: 0,
        max_enemies_killed_while_vibing: 0,
        bb_total_attacks: 0,
        bb_total_dodges: 0,
        bb_total_blocked_hits: 18446744073709551615,
    }
}

fn rich_doc() -> SaveGame {
    let mut doc = minimal_doc();
    doc.save_name = String::from("quote \" backslash \\ newline \n tab \t done");
    doc.player_id = String::from("p\u{00e9}\u{4e16}\u{754c}");
    doc.total_diamonds = u64::MAX;
    doc.level_data = vec![LevelData {
        level_id: String::from("lvl \"one\""),
        stage_type: 9,
        was_completed_in_story_mode: true,
        was_attempted_in_story_mode: false,
        was_skipped_in_story_mode: true,
        awarded_diamonds: 0,
        awarded_diamonds_remix: u64::MAX,
        difficulty_data: vec![
            DifficultyData {
                difficulty: 0,
                high_score: u64::MAX,
                letter_grade: String::from("S+"),
                max_combo_count: 0,
                num_attempts: 5,
                num_clears: 0,
                num_retries: 1,
                num_game_overs: 2,
                has_all_perfects: false,
                has_full_combo_rhythm_rift: true,
            },
        ],
        remix_difficulty_data: vec![],
    }];
    doc.storyline_data = vec![StorylineData {
        storyline_characters: 2,
        has_unlocked_storyline: true,
        has_completed_storyline: false,
        story_beat_data: vec![
            StoryBeatData { level_id: String::from("beat-1"), times_played: 0 },
            StoryBeatData { level_id: String::new(), times_played: u64::MAX },
        ],
    }];
    doc.enemy_kill_counts_by_id = vec![
        EnemyKillCount { enemy_id: 0, number_of_kills: 0, number_of_deaths: 0 },
        EnemyKillCount { enemy_id: u64::MAX, number_of_kills: 1, number_of_deaths: 2 },
    ];
    doc
}

fn minimal_json() -> String {
    let mut text = String::new();
    text.push_str("{\"SaveName\":\"s\",\"GameDataVersion\":1,\"SaveDataVersion\":2,");
    text.push_str("\"TimesBooted\":3,\"SaveID\":4,\"PlayerID\":\"p\",");
    text.push_str("\"SelectedLanguage\":\"en\",\"FramerateLimit\":60,\"LevelDatas\":[],");
    text.push_str("\"StorylineDatas\":[],\"ActiveCosmeticPin\":\"\",");
    text.push_str("\"ActiveGameplayPin\":\"\",\"ShouldDisplayDialogueDebug\":false,");
    text.push_str("\"ShouldUnlockAllLevels\":false,\"HasInputDragonDance\":false,");
    text.push_str("\"SelectedStoryDifficulty\":0,\"SelectedArcadeDifficulty\":0,");
    text.push_str("\"SelectedTrackSortingOrder\":0,\"SelectedCustomMusicSortingOrder\":0,");
    text.push_str("\"IsRemixModeActive\":false,\"ShouldPlayAllStoryContentInOrder\":false,");
    text.push_str("\"EnemyKillCountsById\":[],\"TotalRhythmRiftsCleared\":0,");
    text.push_str("\"HasSeenSplashScreens\":false,\"HasOpenedStoryMode\":false,");
    text.push_str("\"HasAgreedToNoStreaming\":false,\"TotalDiamonds\":0,");
    text.push_str("\"TotalVibePowerUses\":0,\"MaxEnemiesKilledWhileVibing\":0,");
    text.push_str("\"BBTotalAttacks\":0,\"BBTotalDodges\":0,");
    text.push_str("\"BBTotalBlockedHits\":18446744073709551615}");
    text
}

#[test]
fn encoder_produces_the_exact_serialized_form() {
    assert_eq!(to_json(&minimal_doc()), minimal_json());
}

#[test]
fn load_after_save_reproduces_the_document() {
    let doc = rich_doc();
    let text = to_json(&doc);
    let loaded = decode_document(&text).expect("the round trip parses");
    assert_eq!(loaded, doc);
}

#[test]
fn load_after_save_handles_zero_empty_and_maximum_values() {
    let doc = minimal_doc();
    let text = to_json(&doc);
    let loaded = decode_document(&text).expect("the round trip parses");
    assert_eq!(loaded, doc);
}

#[test]
fn escaping_is_applied_to_string_fields() {
    let mut doc = minimal_doc();
    doc.save_name = String::from("a\"b\\c\nd");
    let text = to_json(&doc);
    assert!(text.contains("\"SaveName\":\"a\\\"b\\\\c\\u000ad\""));
    let loaded = decode_document(&text).expect("escapes parse back");
    assert_eq!(loaded.save_name, "a\"b\\c\nd");
}

#[test]
fn decoding_the_minimal_text_gives_the_minimal_document() {
    assert_eq!(decode_document(&minimal_json()), Ok(minimal_doc()));
}

#[test]
fn malformed_text_is_a_syntax_error() {
    assert_eq!(decode_document("not json at all"), Err(DecodeError::Syntax));
    assert_eq!(decode_document(""), Err(DecodeError::Syntax));
    assert_eq!(decode_document("{\"SaveName\":"), Err(DecodeError::Syntax));
}

#[test]
fn missing_required_field_is_a_field_error() {
    let text = minimal_json().replace("\"SaveID\":4,", "");
    assert_eq!(
        decode_document(&text),
        Err(DecodeError::Field(String::from("SaveID")))
    );
}

#[test]
fn wrong_type_for_a_field_is_a_field_error() {
    let text = minimal_json().replace("\"GameDataVersion\":1", "\"GameDataVersion\":\"1\"");
    assert_eq!(
        decode_document(&text),
        Err(DecodeError::Field(String::from("GameDataVersion")))
    );
}

#[test]
fn negative_counter_is_a_field_error() {
    let text = minimal_json().replace("\"TimesBooted\":3", "\"TimesBooted\":-3");
    assert_eq!(
        decode_document(&text),
        Err(DecodeError::Field(String::from("TimesBooted")))
    );
}

#[test]
fn counter_above_sixty_four_bits_is_a_field_error() {
    let text = minimal_json().replace("\"TimesBooted\":3", "\"TimesBooted\":18446744073709551616");
    assert_eq!(
        decode_document(&text),
        Err(DecodeError::Field(String::from("TimesBooted")))
    );
}

#[test]
fn bad_nested_element_fails_the_whole_load() {
    let doc = rich_doc();
    let text = to_json(&doc).replace("\"HighScore\":18446744073709551615", "\"HighScore\":null");
    assert_eq!(
        decode_document(&text),
        Err(DecodeError::Field(String::from("HighScore")))
    );
}

#[test]
fn unknown_extra_fields_are_tolerated() {
    let text = minimal_json().replace("{\"SaveName\"", "{\"SomethingElse\":17,\"SaveName\"");
    assert_eq!(decode_document(&text), Ok(minimal_doc()));
}

#[test]
fn field_order_in_the_text_does_not_matter() {
    // move the last field to the front
    let text = minimal_json()
        .replace(",\"BBTotalBlockedHits\":18446744073709551615}", "}")
        .replace("{\"SaveName\"", "{\"BBTotalBlockedHits\":18446744073709551615,\"SaveName\"");
    assert_eq!(decode_document(&text), Ok(minimal_doc()));
}

#[test]
fn backup_path_appends_marker_and_milliseconds() {
    assert_eq!(backup_path("save.json", 1234), "save.json.editor.1234.bak");
    assert_eq!(
        backup_path("/tmp/x.sav", 18446744073709551615),
        "/tmp/x.sav.editor.18446744073709551615.bak"
    );
}
