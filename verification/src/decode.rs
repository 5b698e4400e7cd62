//! Typed decoding of a document from JSON text.
//!
//! serde_json parses the text into a value tree; everything after that
//! — which fields the schema requires, with which types, and that a
//! failure produces no document at all — is this crate's own verified
//! logic. [`Jv`] is the mathematical model of such a tree;
//! [`doc_of_jv`] is the schema as a spec function; [`decode_document`]
//! returns a document exactly when the text is well-formed JSON whose
//! tree the schema accepts.
use crate::models::{
    BeatView, DiffView, DifficultyData, DocView, EnemyKillCount, KillView, LevelData, LevelView,
    SaveGame, StoryBeatData, StorylineData, StorylineView,
};
use vstd::prelude::*;

verus! {

/// Mathematical model of a JSON value tree. A number that is an
/// unsigned 64-bit integer is modelled exactly; any other number
/// (negative, fractional, too large) is `OtherNum`, which the schema
/// rejects wherever a counter is required.
pub enum Jv {
    Null,
    Bool(bool),
    UInt(u64),
    OtherNum,
    Str(Seq<char>),
    Arr(Seq<Jv>),
    Obj(Map<Seq<char>, Jv>),
}

#[verifier::external_type_specification]
#[verifier::external_body]
pub struct ExValue(serde_json::Value);

#[verifier::external_type_specification]
#[verifier::external_body]
pub struct ExJsonError(serde_json::Error);

/// The JSON tree a `serde_json::Value` stands for.
pub uninterp spec fn jv(v: serde_json::Value) -> Jv;

/// The JSON tree denoted by a text, or nothing when the text is not
/// well-formed JSON for `serde_json::from_str`; a function of the text
/// alone.
pub uninterp spec fn jparse(s: Seq<char>) -> Option<Jv>;

/// Relies on `serde_json::from_str::<Value>`: parses JSON text into a
/// value tree; succeeds or fails, and with which tree, as a function of
/// the text alone, here named [`jparse`].
#[verifier::external_body]
fn parse_json(s: &str) -> (r: Result<serde_json::Value, serde_json::Error>)
    ensures
        r matches Ok(v) ==> jparse(s@) == Some(jv(v)),
        r is Err <==> jparse(s@) is None,
{
    serde_json::from_str::<serde_json::Value>(s)
}

/// Relies on `serde_json::Value::get`: on an object, looks a key up;
/// on any other value returns nothing.
#[verifier::external_body]
fn obj_get<'a>(v: &'a serde_json::Value, key: &str) -> (r: Option<&'a serde_json::Value>)
    ensures
        match jv(*v) {
            Jv::Obj(m) => {
                &&& r is Some <==> m.dom().contains(key@)
                &&& (r matches Some(x) ==> jv(*x) == m[key@])
            },
            _ => r is None,
        },
{
    v.get(key)
}

/// Relies on `serde_json::Value::as_u64`: the number as a `u64` when
/// the value is a number representable as one, nothing otherwise.
#[verifier::external_body]
fn value_as_u64(v: &serde_json::Value) -> (r: Option<u64>)
    ensures
        r == (match jv(*v) {
            Jv::UInt(n) => Some(n),
            _ => None::<u64>,
        }),
{
    v.as_u64()
}

/// Relies on `serde_json::Value::as_bool`: the boolean when the value
/// is one, nothing otherwise.
#[verifier::external_body]
fn value_as_bool(v: &serde_json::Value) -> (r: Option<bool>)
    ensures
        r == (match jv(*v) {
            Jv::Bool(b) => Some(b),
            _ => None::<bool>,
        }),
{
    v.as_bool()
}

/// Relies on `serde_json::Value::as_str`: the string when the value is
/// one, nothing otherwise.
#[verifier::external_body]
fn value_as_str<'a>(v: &'a serde_json::Value) -> (r: Option<&'a str>)
    ensures
        match jv(*v) {
            Jv::Str(s) => r matches Some(x) && x@ == s,
            _ => r is None,
        },
{
    v.as_str()
}

/// Relies on `serde_json::Value::as_array`: the element vector when the
/// value is an array, nothing otherwise.
#[verifier::external_body]
fn value_as_array<'a>(v: &'a serde_json::Value) -> (r: Option<&'a Vec<serde_json::Value>>)
    ensures
        match jv(*v) {
            Jv::Arr(a) => r matches Some(x) && x@.map_values(|e: serde_json::Value| jv(e)) == a,
            _ => r is None,
        },
{
    v.as_array()
}

/// Why a load was refused: the text is not well-formed JSON, or a
/// required field (named) is missing or has the wrong type.
#[derive(Debug, PartialEq, Eq)]
pub enum DecodeError {
    Syntax,
    Field(String),
}

/// The counter an object holds at a key, when it holds one there.
pub open spec fn obj_u64(m: Map<Seq<char>, Jv>, key: Seq<char>) -> Option<u64> {
    if m.dom().contains(key) {
        match m[key] {
            Jv::UInt(n) => Some(n),
            _ => None,
        }
    } else {
        None
    }
}

/// The boolean an object holds at a key, when it holds one there.
pub open spec fn obj_bool(m: Map<Seq<char>, Jv>, key: Seq<char>) -> Option<bool> {
    if m.dom().contains(key) {
        match m[key] {
            Jv::Bool(b) => Some(b),
            _ => None,
        }
    } else {
        None
    }
}

/// The string an object holds at a key, when it holds one there.
pub open spec fn obj_str(m: Map<Seq<char>, Jv>, key: Seq<char>) -> Option<Seq<char>> {
    if m.dom().contains(key) {
        match m[key] {
            Jv::Str(s) => Some(s),
            _ => None,
        }
    } else {
        None
    }
}

/// The array an object holds at a key, when it holds one there.
pub open spec fn obj_arr(m: Map<Seq<char>, Jv>, key: Seq<char>) -> Option<Seq<Jv>> {
    if m.dom().contains(key) {
        match m[key] {
            Jv::Arr(a) => Some(a),
            _ => None,
        }
    } else {
        None
    }
}

/// The schema of one difficulty record.
pub open spec fn diff_of_jv(j: Jv) -> Option<DiffView> {
    match j {
        Jv::Obj(m) => {
            if obj_u64(m, "Difficulty"@) is Some && obj_u64(m, "HighScore"@) is Some && obj_str(
                m,
                "LetterGrade"@,
            ) is Some && obj_u64(m, "MaxComboCount"@) is Some && obj_u64(m, "NumAttempts"@)
                is Some && obj_u64(m, "NumClears"@) is Some && obj_u64(m, "NumRetries"@) is Some
                && obj_u64(m, "NumGameOvers"@) is Some && obj_bool(m, "HasAllPerfects"@) is Some
                && obj_bool(m, "HasFullComboRhythmRift"@) is Some {
                Some(
                    DiffView {
                        difficulty: obj_u64(m, "Difficulty"@).unwrap(),
                        high_score: obj_u64(m, "HighScore"@).unwrap(),
                        letter_grade: obj_str(m, "LetterGrade"@).unwrap(),
                        max_combo_count: obj_u64(m, "MaxComboCount"@).unwrap(),
                        num_attempts: obj_u64(m, "NumAttempts"@).unwrap(),
                        num_clears: obj_u64(m, "NumClears"@).unwrap(),
                        num_retries: obj_u64(m, "NumRetries"@).unwrap(),
                        num_game_overs: obj_u64(m, "NumGameOvers"@).unwrap(),
                        has_all_perfects: obj_bool(m, "HasAllPerfects"@).unwrap(),
                        has_full_combo_rhythm_rift: obj_bool(
                            m,
                            "HasFullComboRhythmRift"@,
                        ).unwrap(),
                    },
                )
            } else {
                None
            }
        },
        _ => None,
    }
}

/// The schema of a sequence of difficulty records: every element must
/// decode.
pub open spec fn diffs_of_jv(a: Seq<Jv>) -> Option<Seq<DiffView>>
    decreases a.len(),
{
    if a.len() == 0 {
        Some(Seq::empty())
    } else {
        match (diffs_of_jv(a.drop_last()), diff_of_jv(a.last())) {
            (Some(s), Some(h)) => Some(s.push(h)),
            _ => None,
        }
    }
}

/// The schema of one story beat.
pub open spec fn beat_of_jv(j: Jv) -> Option<BeatView> {
    match j {
        Jv::Obj(m) => {
            if obj_str(m, "LevelId"@) is Some && obj_u64(m, "TimesPlayed"@) is Some {
                Some(
                    BeatView {
                        level_id: obj_str(m, "LevelId"@).unwrap(),
                        times_played: obj_u64(m, "TimesPlayed"@).unwrap(),
                    },
                )
            } else {
                None
            }
        },
        _ => None,
    }
}

/// The schema of a sequence of story beats.
pub open spec fn beats_of_jv(a: Seq<Jv>) -> Option<Seq<BeatView>>
    decreases a.len(),
{
    if a.len() == 0 {
        Some(Seq::empty())
    } else {
        match (beats_of_jv(a.drop_last()), beat_of_jv(a.last())) {
            (Some(s), Some(b)) => Some(s.push(b)),
            _ => None,
        }
    }
}

/// The schema of one kill-count record.
pub open spec fn kill_of_jv(j: Jv) -> Option<KillView> {
    match j {
        Jv::Obj(m) => {
            if obj_u64(m, "EnemyId"@) is Some && obj_u64(m, "NumberOfKills"@) is Some && obj_u64(
                m,
                "NumberOfDeaths"@,
            ) is Some {
                Some(
                    KillView {
                        enemy_id: obj_u64(m, "EnemyId"@).unwrap(),
                        number_of_kills: obj_u64(m, "NumberOfKills"@).unwrap(),
                        number_of_deaths: obj_u64(m, "NumberOfDeaths"@).unwrap(),
                    },
                )
            } else {
                None
            }
        },
        _ => None,
    }
}

/// The schema of a sequence of kill-count records.
pub open spec fn kills_of_jv(a: Seq<Jv>) -> Option<Seq<KillView>>
    decreases a.len(),
{
    if a.len() == 0 {
        Some(Seq::empty())
    } else {
        match (kills_of_jv(a.drop_last()), kill_of_jv(a.last())) {
            (Some(s), Some(k)) => Some(s.push(k)),
            _ => None,
        }
    }
}

/// The schema of one storyline record.
pub open spec fn storyline_of_jv(j: Jv) -> Option<StorylineView> {
    match j {
        Jv::Obj(m) => {
            if obj_u64(m, "storylineCharacters"@) is Some && obj_bool(
                m,
                "HasUnlockedStoryline"@,
            ) is Some && obj_bool(m, "HasCompletedStoryline"@) is Some && obj_arr(
                m,
                "StoryBeatDatas"@,
            ) is Some && beats_of_jv(obj_arr(m, "StoryBeatDatas"@).unwrap()) is Some {
                Some(
                    StorylineView {
                        storyline_characters: obj_u64(m, "storylineCharacters"@).unwrap(),
                        has_unlocked_storyline: obj_bool(m, "HasUnlockedStoryline"@).unwrap(),
                        has_completed_storyline: obj_bool(
                            m,
                            "HasCompletedStoryline"@,
                        ).unwrap(),
                        story_beat_data: beats_of_jv(
                            obj_arr(m, "StoryBeatDatas"@).unwrap(),
                        ).unwrap(),
                    },
                )
            } else {
                None
            }
        },
        _ => None,
    }
}

/// The schema of a sequence of storyline records.
pub open spec fn storylines_of_jv(a: Seq<Jv>) -> Option<Seq<StorylineView>>
    decreases a.len(),
{
    if a.len() == 0 {
        Some(Seq::empty())
    } else {
        match (storylines_of_jv(a.drop_last()), storyline_of_jv(a.last())) {
            (Some(s), Some(x)) => Some(s.push(x)),
            _ => None,
        }
    }
}

/// The schema of one level record.
pub open spec fn level_of_jv(j: Jv) -> Option<LevelView> {
    match j {
        Jv::Obj(m) => {
            if obj_str(m, "LevelId"@) is Some && obj_u64(m, "StageType"@) is Some && obj_bool(
                m,
                "WasCompletedInStoryMode"@,
            ) is Some && obj_bool(m, "WasAttemptedInStoryMode"@) is Some && obj_bool(
                m,
                "WasSkippedInStoryMode"@,
            ) is Some && obj_u64(m, "AwardedDiamonds"@) is Some && obj_u64(
                m,
                "AwardedDiamondsRemix"@,
            ) is Some && obj_arr(m, "DifficultyHighScoreDatas"@) is Some && diffs_of_jv(
                obj_arr(m, "DifficultyHighScoreDatas"@).unwrap(),
            ) is Some && obj_arr(m, "RemixDifficultyHighScoreDatas"@) is Some && diffs_of_jv(
                obj_arr(m, "RemixDifficultyHighScoreDatas"@).unwrap(),
            ) is Some {
                Some(
                    LevelView {
                        level_id: obj_str(m, "LevelId"@).unwrap(),
                        stage_type: obj_u64(m, "StageType"@).unwrap(),
                        was_completed_in_story_mode: obj_bool(
                            m,
                            "WasCompletedInStoryMode"@,
                        ).unwrap(),
                        was_attempted_in_story_mode: obj_bool(
                            m,
                            "WasAttemptedInStoryMode"@,
                        ).unwrap(),
                        was_skipped_in_story_mode: obj_bool(
                            m,
                            "WasSkippedInStoryMode"@,
                        ).unwrap(),
                        awarded_diamonds: obj_u64(m, "AwardedDiamonds"@).unwrap(),
                        awarded_diamonds_remix: obj_u64(m, "AwardedDiamondsRemix"@).unwrap(),
                        difficulty_data: diffs_of_jv(
                            obj_arr(m, "DifficultyHighScoreDatas"@).unwrap(),
                        ).unwrap(),
                        remix_difficulty_data: diffs_of_jv(
                            obj_arr(m, "RemixDifficultyHighScoreDatas"@).unwrap(),
                        ).unwrap(),
                    },
                )
            } else {
                None
            }
        },
        _ => None,
    }
}

/// The schema of a sequence of level records.
pub open spec fn levels_of_jv(a: Seq<Jv>) -> Option<Seq<LevelView>>
    decreases a.len(),
{
    if a.len() == 0 {
        Some(Seq::empty())
    } else {
        match (levels_of_jv(a.drop_last()), level_of_jv(a.last())) {
            (Some(s), Some(l)) => Some(s.push(l)),
            _ => None,
        }
    }
}

/// The schema of a whole document.
pub open spec fn doc_of_jv(j: Jv) -> Option<DocView> {
    match j {
        Jv::Obj(m) => {
            if obj_str(m, "SaveName"@) is Some && obj_u64(m, "GameDataVersion"@) is Some
                && obj_u64(m, "SaveDataVersion"@) is Some && obj_u64(m, "TimesBooted"@) is Some
                && obj_u64(m, "SaveID"@) is Some && obj_str(m, "PlayerID"@) is Some && obj_str(
                m,
                "SelectedLanguage"@,
            ) is Some && obj_u64(m, "FramerateLimit"@) is Some && obj_arr(m, "LevelDatas"@)
                is Some && levels_of_jv(obj_arr(m, "LevelDatas"@).unwrap()) is Some && obj_arr(
                m,
                "StorylineDatas"@,
            ) is Some && storylines_of_jv(obj_arr(m, "StorylineDatas"@).unwrap()) is Some
                && obj_str(m, "ActiveCosmeticPin"@) is Some && obj_str(m, "ActiveGameplayPin"@)
                is Some && obj_bool(m, "ShouldDisplayDialogueDebug"@) is Some && obj_bool(
                m,
                "ShouldUnlockAllLevels"@,
            ) is Some && obj_bool(m, "HasInputDragonDance"@) is Some && obj_u64(
                m,
                "SelectedStoryDifficulty"@,
            ) is Some && obj_u64(m, "SelectedArcadeDifficulty"@) is Some && obj_u64(
                m,
                "SelectedTrackSortingOrder"@,
            ) is Some && obj_u64(m, "SelectedCustomMusicSortingOrder"@) is Some && obj_bool(
                m,
                "IsRemixModeActive"@,
            ) is Some && obj_bool(m, "ShouldPlayAllStoryContentInOrder"@) is Some && obj_arr(
                m,
                "EnemyKillCountsById"@,
            ) is Some && kills_of_jv(obj_arr(m, "EnemyKillCountsById"@).unwrap()) is Some
                && obj_u64(m, "TotalRhythmRiftsCleared"@) is Some && obj_bool(
                m,
                "HasSeenSplashScreens"@,
            ) is Some && obj_bool(m, "HasOpenedStoryMode"@) is Some && obj_bool(
                m,
                "HasAgreedToNoStreaming"@,
            ) is Some && obj_u64(m, "TotalDiamonds"@) is Some && obj_u64(
                m,
                "TotalVibePowerUses"@,
            ) is Some && obj_u64(m, "MaxEnemiesKilledWhileVibing"@) is Some && obj_u64(
                m,
                "BBTotalAttacks"@,
            ) is Some && obj_u64(m, "BBTotalDodges"@) is Some && obj_u64(
                m,
                "BBTotalBlockedHits"@,
            ) is Some {
                Some(
                    DocView {
                        save_name: obj_str(m, "SaveName"@).unwrap(),
                        game_data_version: obj_u64(m, "GameDataVersion"@).unwrap(),
                        save_data_version: obj_u64(m, "SaveDataVersion"@).unwrap(),
                        times_booted: obj_u64(m, "TimesBooted"@).unwrap(),
                        save_id: obj_u64(m, "SaveID"@).unwrap(),
                        player_id: obj_str(m, "PlayerID"@).unwrap(),
                        selected_language: obj_str(m, "SelectedLanguage"@).unwrap(),
                        framerate_limit: obj_u64(m, "FramerateLimit"@).unwrap(),
                        level_data: levels_of_jv(obj_arr(m, "LevelDatas"@).unwrap()).unwrap(),
                        storyline_data: storylines_of_jv(
                            obj_arr(m, "StorylineDatas"@).unwrap(),
                        ).unwrap(),
                        active_cosmetic_pin: obj_str(m, "ActiveCosmeticPin"@).unwrap(),
                        active_gameplay_pin: obj_str(m, "ActiveGameplayPin"@).unwrap(),
                        should_display_dialogue_debug: obj_bool(
                            m,
                            "ShouldDisplayDialogueDebug"@,
                        ).unwrap(),
                        should_unlock_all_levels: obj_bool(
                            m,
                            "ShouldUnlockAllLevels"@,
                        ).unwrap(),
                        has_input_dragon_dance: obj_bool(m, "HasInputDragonDance"@).unwrap(),
                        selected_story_difficulty: obj_u64(
                            m,
                            "SelectedStoryDifficulty"@,
                        ).unwrap(),
                        selected_arcade_difficulty: obj_u64(
                            m,
                            "SelectedArcadeDifficulty"@,
                        ).unwrap(),
                        selected_track_sorting_order: obj_u64(
                            m,
                            "SelectedTrackSortingOrder"@,
                        ).unwrap(),
                        selected_custom_music_sorting_order: obj_u64(
                            m,
                            "SelectedCustomMusicSortingOrder"@,
                        ).unwrap(),
                        is_remix_mode_active: obj_bool(m, "IsRemixModeActive"@).unwrap(),
                        should_play_all_story_content_in_order: obj_bool(
                            m,
                            "ShouldPlayAllStoryContentInOrder"@,
                        ).unwrap(),
                        enemy_kill_counts_by_id: kills_of_jv(
                            obj_arr(m, "EnemyKillCountsById"@).unwrap(),
                        ).unwrap(),
                        total_rhythm_rifts_cleared: obj_u64(
                            m,
                            "TotalRhythmRiftsCleared"@,
                        ).unwrap(),
                        has_seen_splash_screens: obj_bool(m, "HasSeenSplashScreens"@).unwrap(),
                        has_opened_story_mode: obj_bool(m, "HasOpenedStoryMode"@).unwrap(),
                        has_agreed_to_no_streaming: obj_bool(
                            m,
                            "HasAgreedToNoStreaming"@,
                        ).unwrap(),
                        total_diamonds: obj_u64(m, "TotalDiamonds"@).unwrap(),
                        total_vibe_power_uses: obj_u64(m, "TotalVibePowerUses"@).unwrap(),
                        max_enemies_killed_while_vibing: obj_u64(
                            m,
                            "MaxEnemiesKilledWhileVibing"@,
                        ).unwrap(),
                        bb_total_attacks: obj_u64(m, "BBTotalAttacks"@).unwrap(),
                        bb_total_dodges: obj_u64(m, "BBTotalDodges"@).unwrap(),
                        bb_total_blocked_hits: obj_u64(m, "BBTotalBlockedHits"@).unwrap(),
                    },
                )
            } else {
                None
            }
        },
        _ => None,
    }
}

/// Builds the schema error for one field.
fn field_err(key: &str) -> (r: DecodeError)
    ensures
        r matches DecodeError::Field(s) && s@ == key@,
{
    DecodeError::Field(String::from_str(key))
}

/// Reads a required counter field.
fn req_u64(v: &serde_json::Value, key: &str) -> (r: Result<u64, DecodeError>)
    ensures
        match jv(*v) {
            Jv::Obj(m) => {
                &&& (r matches Ok(n) ==> obj_u64(m, key@) == Some(n))
                &&& (r is Err <==> obj_u64(m, key@) is None)
            },
            _ => r is Err,
        },
        r matches Err(e) ==> e is Field,
{
    match obj_get(v, key) {
        Some(x) => match value_as_u64(x) {
            Some(n) => Ok(n),
            None => Err(field_err(key)),
        },
        None => Err(field_err(key)),
    }
}

/// Reads a required boolean field.
fn req_bool(v: &serde_json::Value, key: &str) -> (r: Result<bool, DecodeError>)
    ensures
        match jv(*v) {
            Jv::Obj(m) => {
                &&& (r matches Ok(b) ==> obj_bool(m, key@) == Some(b))
                &&& (r is Err <==> obj_bool(m, key@) is None)
            },
            _ => r is Err,
        },
        r matches Err(e) ==> e is Field,
{
    match obj_get(v, key) {
        Some(x) => match value_as_bool(x) {
            Some(b) => Ok(b),
            None => Err(field_err(key)),
        },
        None => Err(field_err(key)),
    }
}

/// Reads a required string field.
fn req_str(v: &serde_json::Value, key: &str) -> (r: Result<String, DecodeError>)
    ensures
        match jv(*v) {
            Jv::Obj(m) => {
                &&& (r matches Ok(s) ==> obj_str(m, key@) == Some(s@))
                &&& (r is Err <==> obj_str(m, key@) is None)
            },
            _ => r is Err,
        },
        r matches Err(e) ==> e is Field,
{
    match obj_get(v, key) {
        Some(x) => match value_as_str(x) {
            Some(s) => Ok(String::from_str(s)),
            None => Err(field_err(key)),
        },
        None => Err(field_err(key)),
    }
}

/// Reads a required array field, handing back the raw elements.
fn req_arr<'a>(v: &'a serde_json::Value, key: &str) -> (r: Result<
    &'a Vec<serde_json::Value>,
    DecodeError,
>)
    ensures
        match jv(*v) {
            Jv::Obj(m) => {
                &&& (r matches Ok(a) ==> obj_arr(m, key@) == Some(
                    a@.map_values(|e: serde_json::Value| jv(e)),
                ))
                &&& (r is Err <==> obj_arr(m, key@) is None)
            },
            _ => r is Err,
        },
        r matches Err(e) ==> e is Field,
{
    match obj_get(v, key) {
        Some(x) => match value_as_array(x) {
            Some(a) => Ok(a),
            None => Err(field_err(key)),
        },
        None => Err(field_err(key)),
    }
}

/// Inside a sequence whose schema holds, every element's schema holds,
/// and elementwise decoding agrees with the sequence's.
proof fn lemma_diffs_of_jv_len(a: Seq<Jv>)
    requires
        diffs_of_jv(a) is Some,
    ensures
        diffs_of_jv(a).unwrap().len() == a.len(),
    decreases a.len(),
{
    if a.len() > 0 {
        lemma_diffs_of_jv_len(a.drop_last());
    }
}

proof fn lemma_diffs_of_jv_elem(a: Seq<Jv>, i: int)
    requires
        0 <= i < a.len(),
        diffs_of_jv(a) is Some,
    ensures
        diff_of_jv(a[i]) is Some,
        diffs_of_jv(a).unwrap().len() == a.len(),
        diffs_of_jv(a).unwrap()[i] == diff_of_jv(a[i]).unwrap(),
    decreases a.len(),
{
    lemma_diffs_of_jv_len(a);
    if i < a.len() - 1 {
        lemma_diffs_of_jv_len(a.drop_last());
        lemma_diffs_of_jv_elem(a.drop_last(), i);
        assert(a.drop_last()[i] == a[i]);
    } else {
        assert(a.last() == a[i]);
    }
}

/// Decodes one difficulty record.
fn decode_diff(v: &serde_json::Value) -> (r: Result<DifficultyData, DecodeError>)
    ensures
        r matches Ok(h) ==> diff_of_jv(jv(*v)) == Some(h@),
        r is Err <==> diff_of_jv(jv(*v)) is None,
        r matches Err(e) ==> e is Field,
{
    let difficulty = match req_u64(v, "Difficulty") {
        Ok(x) => x,
        Err(e) => return Err(e),
    };
    let high_score = match req_u64(v, "HighScore") {
        Ok(x) => x,
        Err(e) => return Err(e),
    };
    let letter_grade = match req_str(v, "LetterGrade") {
        Ok(x) => x,
        Err(e) => return Err(e),
    };
    let max_combo_count = match req_u64(v, "MaxComboCount") {
        Ok(x) => x,
        Err(e) => return Err(e),
    };
    let num_attempts = match req_u64(v, "NumAttempts") {
        Ok(x) => x,
        Err(e) => return Err(e),
    };
    let num_clears = match req_u64(v, "NumClears") {
        Ok(x) => x,
        Err(e) => return Err(e),
    };
    let num_retries = match req_u64(v, "NumRetries") {
        Ok(x) => x,
        Err(e) => return Err(e),
    };
    let num_game_overs = match req_u64(v, "NumGameOvers") {
        Ok(x) => x,
        Err(e) => return Err(e),
    };
    let has_all_perfects = match req_bool(v, "HasAllPerfects") {
        Ok(x) => x,
        Err(e) => return Err(e),
    };
    let has_full_combo_rhythm_rift = match req_bool(v, "HasFullComboRhythmRift") {
        Ok(x) => x,
        Err(e) => return Err(e),
    };
    let out = DifficultyData {
        difficulty,
        high_score,
        letter_grade,
        max_combo_count,
        num_attempts,
        num_clears,
        num_retries,
        num_game_overs,
        has_all_perfects,
        has_full_combo_rhythm_rift,
    };
    proof {
        assert(diff_of_jv(jv(*v)) matches Some(dv) && dv =~= out@);
    }
    Ok(out)
}

/// Decodes an array of difficulty records under a key.
fn decode_diffs(v: &serde_json::Value, key: &str) -> (r: Result<Vec<DifficultyData>, DecodeError>)
    ensures
        match jv(*v) {
            Jv::Obj(m) => {
                &&& (r matches Ok(ds) ==> obj_arr(m, key@) is Some && diffs_of_jv(
                    obj_arr(m, key@).unwrap(),
                ) == Some(ds@.map_values(|d: DifficultyData| d@)))
                &&& (r is Err <==> (obj_arr(m, key@) is None || diffs_of_jv(
                    obj_arr(m, key@).unwrap(),
                ) is None))
            },
            _ => r is Err,
        },
        r matches Err(e) ==> e is Field,
{
    let arr = match req_arr(v, key) {
        Ok(a) => a,
        Err(e) => return Err(e),
    };
    let ghost ja = arr@.map_values(|e: serde_json::Value| jv(e));
    let mut out: Vec<DifficultyData> = Vec::new();
    let mut i: usize = 0;
    while i < arr.len()
        invariant
            i <= arr.len(),
            ja == arr@.map_values(|e: serde_json::Value| jv(e)),
            ja.len() == arr@.len(),
            jv(*v) matches Jv::Obj(m) && obj_arr(m, key@) == Some(ja),
            diffs_of_jv(ja.subrange(0, i as int)) == Some(
                out@.map_values(|d: DifficultyData| d@),
            ),
        decreases arr.len() - i,
    {
        let d = match decode_diff(&arr[i]) {
            Ok(d) => d,
            Err(e) => {
                proof {
                    if diffs_of_jv(ja) is Some {
                        lemma_diffs_of_jv_elem(ja, i as int);
                    }
                }
                return Err(e);
            },
        };
        out.push(d);
        proof {
            assert(ja.subrange(0, i + 1 as int).drop_last() =~= ja.subrange(0, i as int));
            assert(ja.subrange(0, i + 1 as int).last() == ja[i as int]);
            assert(out@.map_values(|d: DifficultyData| d@) =~= diffs_of_jv(
                ja.subrange(0, i as int),
            ).unwrap().push(d@));
        }
        i = i + 1;
    }
    proof {
        assert(ja.subrange(0, ja.len() as int) =~= ja);
    }
    Ok(out)
}

/// Inside a sequence whose schema holds, every story beat's schema
/// holds, elementwise.
proof fn lemma_beats_of_jv_len(a: Seq<Jv>)
    requires
        beats_of_jv(a) is Some,
    ensures
        beats_of_jv(a).unwrap().len() == a.len(),
    decreases a.len(),
{
    if a.len() > 0 {
        lemma_beats_of_jv_len(a.drop_last());
    }
}

proof fn lemma_beats_of_jv_elem(a: Seq<Jv>, i: int)
    requires
        0 <= i < a.len(),
        beats_of_jv(a) is Some,
    ensures
        beat_of_jv(a[i]) is Some,
        beats_of_jv(a).unwrap().len() == a.len(),
        beats_of_jv(a).unwrap()[i] == beat_of_jv(a[i]).unwrap(),
    decreases a.len(),
{
    lemma_beats_of_jv_len(a);
    if i < a.len() - 1 {
        lemma_beats_of_jv_len(a.drop_last());
        lemma_beats_of_jv_elem(a.drop_last(), i);
        assert(a.drop_last()[i] == a[i]);
    } else {
        assert(a.last() == a[i]);
    }
}

/// Decodes one story beat.
fn decode_beat(v: &serde_json::Value) -> (r: Result<StoryBeatData, DecodeError>)
    ensures
        r matches Ok(b) ==> beat_of_jv(jv(*v)) == Some(b@),
        r is Err <==> beat_of_jv(jv(*v)) is None,
        r matches Err(e) ==> e is Field,
{
    let level_id = match req_str(v, "LevelId") {
        Ok(x) => x,
        Err(e) => return Err(e),
    };
    let times_played = match req_u64(v, "TimesPlayed") {
        Ok(x) => x,
        Err(e) => return Err(e),
    };
    let out = StoryBeatData { level_id, times_played };
    proof {
        assert(beat_of_jv(jv(*v)) matches Some(bv) && bv =~= out@);
    }
    Ok(out)
}

/// Decodes an array of story beats under a key.
fn decode_beats(v: &serde_json::Value, key: &str) -> (r: Result<Vec<StoryBeatData>, DecodeError>)
    ensures
        match jv(*v) {
            Jv::Obj(m) => {
                &&& (r matches Ok(bs) ==> obj_arr(m, key@) is Some && beats_of_jv(
                    obj_arr(m, key@).unwrap(),
                ) == Some(bs@.map_values(|b: StoryBeatData| b@)))
                &&& (r is Err <==> (obj_arr(m, key@) is None || beats_of_jv(
                    obj_arr(m, key@).unwrap(),
                ) is None))
            },
            _ => r is Err,
        },
        r matches Err(e) ==> e is Field,
{
    let arr = match req_arr(v, key) {
        Ok(a) => a,
        Err(e) => return Err(e),
    };
    let ghost ja = arr@.map_values(|e: serde_json::Value| jv(e));
    let mut out: Vec<StoryBeatData> = Vec::new();
    let mut i: usize = 0;
    while i < arr.len()
        invariant
            i <= arr.len(),
            ja == arr@.map_values(|e: serde_json::Value| jv(e)),
            ja.len() == arr@.len(),
            jv(*v) matches Jv::Obj(m) && obj_arr(m, key@) == Some(ja),
            beats_of_jv(ja.subrange(0, i as int)) == Some(
                out@.map_values(|b: StoryBeatData| b@),
            ),
        decreases arr.len() - i,
    {
        let b = match decode_beat(&arr[i]) {
            Ok(b) => b,
            Err(e) => {
                proof {
                    if beats_of_jv(ja) is Some {
                        lemma_beats_of_jv_elem(ja, i as int);
                    }
                }
                return Err(e);
            },
        };
        out.push(b);
        proof {
            assert(ja.subrange(0, i + 1 as int).drop_last() =~= ja.subrange(0, i as int));
            assert(ja.subrange(0, i + 1 as int).last() == ja[i as int]);
            assert(out@.map_values(|b: StoryBeatData| b@) =~= beats_of_jv(
                ja.subrange(0, i as int),
            ).unwrap().push(b@));
        }
        i = i + 1;
    }
    proof {
        assert(ja.subrange(0, ja.len() as int) =~= ja);
    }
    Ok(out)
}

/// Inside a sequence whose schema holds, every kill-count record's
/// schema holds, elementwise.
proof fn lemma_kills_of_jv_len(a: Seq<Jv>)
    requires
        kills_of_jv(a) is Some,
    ensures
        kills_of_jv(a).unwrap().len() == a.len(),
    decreases a.len(),
{
    if a.len() > 0 {
        lemma_kills_of_jv_len(a.drop_last());
    }
}

proof fn lemma_kills_of_jv_elem(a: Seq<Jv>, i: int)
    requires
        0 <= i < a.len(),
        kills_of_jv(a) is Some,
    ensures
        kill_of_jv(a[i]) is Some,
        kills_of_jv(a).unwrap().len() == a.len(),
        kills_of_jv(a).unwrap()[i] == kill_of_jv(a[i]).unwrap(),
    decreases a.len(),
{
    lemma_kills_of_jv_len(a);
    if i < a.len() - 1 {
        lemma_kills_of_jv_len(a.drop_last());
        lemma_kills_of_jv_elem(a.drop_last(), i);
        assert(a.drop_last()[i] == a[i]);
    } else {
        assert(a.last() == a[i]);
    }
}

/// Decodes one kill-count record.
fn decode_kill(v: &serde_json::Value) -> (r: Result<EnemyKillCount, DecodeError>)
    ensures
        r matches Ok(k) ==> kill_of_jv(jv(*v)) == Some(k@),
        r is Err <==> kill_of_jv(jv(*v)) is None,
        r matches Err(e) ==> e is Field,
{
    let enemy_id = match req_u64(v, "EnemyId") {
        Ok(x) => x,
        Err(e) => return Err(e),
    };
    let number_of_kills = match req_u64(v, "NumberOfKills") {
        Ok(x) => x,
        Err(e) => return Err(e),
    };
    let number_of_deaths = match req_u64(v, "NumberOfDeaths") {
        Ok(x) => x,
        Err(e) => return Err(e),
    };
    let out = EnemyKillCount { enemy_id, number_of_kills, number_of_deaths };
    proof {
        assert(kill_of_jv(jv(*v)) matches Some(kv) && kv =~= out@);
    }
    Ok(out)
}

/// Decodes an array of kill-count records under a key.
fn decode_kills(v: &serde_json::Value, key: &str) -> (r: Result<Vec<EnemyKillCount>, DecodeError>)
    ensures
        match jv(*v) {
            Jv::Obj(m) => {
                &&& (r matches Ok(ks) ==> obj_arr(m, key@) is Some && kills_of_jv(
                    obj_arr(m, key@).unwrap(),
                ) == Some(ks@.map_values(|k: EnemyKillCount| k@)))
                &&& (r is Err <==> (obj_arr(m, key@) is None || kills_of_jv(
                    obj_arr(m, key@).unwrap(),
                ) is None))
            },
            _ => r is Err,
        },
        r matches Err(e) ==> e is Field,
{
    let arr = match req_arr(v, key) {
        Ok(a) => a,
        Err(e) => return Err(e),
    };
    let ghost ja = arr@.map_values(|e: serde_json::Value| jv(e));
    let mut out: Vec<EnemyKillCount> = Vec::new();
    let mut i: usize = 0;
    while i < arr.len()
        invariant
            i <= arr.len(),
            ja == arr@.map_values(|e: serde_json::Value| jv(e)),
            ja.len() == arr@.len(),
            jv(*v) matches Jv::Obj(m) && obj_arr(m, key@) == Some(ja),
            kills_of_jv(ja.subrange(0, i as int)) == Some(
                out@.map_values(|k: EnemyKillCount| k@),
            ),
        decreases arr.len() - i,
    {
        let k = match decode_kill(&arr[i]) {
            Ok(k) => k,
            Err(e) => {
                proof {
                    if kills_of_jv(ja) is Some {
                        lemma_kills_of_jv_elem(ja, i as int);
                    }
                }
                return Err(e);
            },
        };
        out.push(k);
        proof {
            assert(ja.subrange(0, i + 1 as int).drop_last() =~= ja.subrange(0, i as int));
            assert(ja.subrange(0, i + 1 as int).last() == ja[i as int]);
            assert(out@.map_values(|k: EnemyKillCount| k@) =~= kills_of_jv(
                ja.subrange(0, i as int),
            ).unwrap().push(k@));
        }
        i = i + 1;
    }
    proof {
        assert(ja.subrange(0, ja.len() as int) =~= ja);
    }
    Ok(out)
}

/// Inside a sequence whose schema holds, every storyline's schema
/// holds, elementwise.
proof fn lemma_storylines_of_jv_len(a: Seq<Jv>)
    requires
        storylines_of_jv(a) is Some,
    ensures
        storylines_of_jv(a).unwrap().len() == a.len(),
    decreases a.len(),
{
    if a.len() > 0 {
        lemma_storylines_of_jv_len(a.drop_last());
    }
}

proof fn lemma_storylines_of_jv_elem(a: Seq<Jv>, i: int)
    requires
        0 <= i < a.len(),
        storylines_of_jv(a) is Some,
    ensures
        storyline_of_jv(a[i]) is Some,
        storylines_of_jv(a).unwrap().len() == a.len(),
        storylines_of_jv(a).unwrap()[i] == storyline_of_jv(a[i]).unwrap(),
    decreases a.len(),
{
    lemma_storylines_of_jv_len(a);
    if i < a.len() - 1 {
        lemma_storylines_of_jv_len(a.drop_last());
        lemma_storylines_of_jv_elem(a.drop_last(), i);
        assert(a.drop_last()[i] == a[i]);
    } else {
        assert(a.last() == a[i]);
    }
}

/// Decodes one storyline record.
fn decode_storyline(v: &serde_json::Value) -> (r: Result<StorylineData, DecodeError>)
    ensures
        r matches Ok(s) ==> storyline_of_jv(jv(*v)) == Some(s@),
        r is Err <==> storyline_of_jv(jv(*v)) is None,
        r matches Err(e) ==> e is Field,
{
    let storyline_characters = match req_u64(v, "storylineCharacters") {
        Ok(x) => x,
        Err(e) => return Err(e),
    };
    let has_unlocked_storyline = match req_bool(v, "HasUnlockedStoryline") {
        Ok(x) => x,
        Err(e) => return Err(e),
    };
    let has_completed_storyline = match req_bool(v, "HasCompletedStoryline") {
        Ok(x) => x,
        Err(e) => return Err(e),
    };
    let story_beat_data = match decode_beats(v, "StoryBeatDatas") {
        Ok(x) => x,
        Err(e) => return Err(e),
    };
    let out = StorylineData {
        storyline_characters,
        has_unlocked_storyline,
        has_completed_storyline,
        story_beat_data,
    };
    proof {
        assert(storyline_of_jv(jv(*v)) matches Some(sv) && sv =~= out@);
    }
    Ok(out)
}

/// Decodes an array of storyline records under a key.
fn decode_storylines(v: &serde_json::Value, key: &str) -> (r: Result<
    Vec<StorylineData>,
    DecodeError,
>)
    ensures
        match jv(*v) {
            Jv::Obj(m) => {
                &&& (r matches Ok(ss) ==> obj_arr(m, key@) is Some && storylines_of_jv(
                    obj_arr(m, key@).unwrap(),
                ) == Some(ss@.map_values(|s: StorylineData| s@)))
                &&& (r is Err <==> (obj_arr(m, key@) is None || storylines_of_jv(
                    obj_arr(m, key@).unwrap(),
                ) is None))
            },
            _ => r is Err,
        },
        r matches Err(e) ==> e is Field,
{
    let arr = match req_arr(v, key) {
        Ok(a) => a,
        Err(e) => return Err(e),
    };
    let ghost ja = arr@.map_values(|e: serde_json::Value| jv(e));
    let mut out: Vec<StorylineData> = Vec::new();
    let mut i: usize = 0;
    while i < arr.len()
        invariant
            i <= arr.len(),
            ja == arr@.map_values(|e: serde_json::Value| jv(e)),
            ja.len() == arr@.len(),
            jv(*v) matches Jv::Obj(m) && obj_arr(m, key@) == Some(ja),
            storylines_of_jv(ja.subrange(0, i as int)) == Some(
                out@.map_values(|s: StorylineData| s@),
            ),
        decreases arr.len() - i,
    {
        let s = match decode_storyline(&arr[i]) {
            Ok(s) => s,
            Err(e) => {
                proof {
                    if storylines_of_jv(ja) is Some {
                        lemma_storylines_of_jv_elem(ja, i as int);
                    }
                }
                return Err(e);
            },
        };
        out.push(s);
        proof {
            assert(ja.subrange(0, i + 1 as int).drop_last() =~= ja.subrange(0, i as int));
            assert(ja.subrange(0, i + 1 as int).last() == ja[i as int]);
            assert(out@.map_values(|s: StorylineData| s@) =~= storylines_of_jv(
                ja.subrange(0, i as int),
            ).unwrap().push(s@));
        }
        i = i + 1;
    }
    proof {
        assert(ja.subrange(0, ja.len() as int) =~= ja);
    }
    Ok(out)
}

/// Inside a sequence whose schema holds, every level's schema holds,
/// elementwise.
proof fn lemma_levels_of_jv_len(a: Seq<Jv>)
    requires
        levels_of_jv(a) is Some,
    ensures
        levels_of_jv(a).unwrap().len() == a.len(),
    decreases a.len(),
{
    if a.len() > 0 {
        lemma_levels_of_jv_len(a.drop_last());
    }
}

proof fn lemma_levels_of_jv_elem(a: Seq<Jv>, i: int)
    requires
        0 <= i < a.len(),
        levels_of_jv(a) is Some,
    ensures
        level_of_jv(a[i]) is Some,
        levels_of_jv(a).unwrap().len() == a.len(),
        levels_of_jv(a).unwrap()[i] == level_of_jv(a[i]).unwrap(),
    decreases a.len(),
{
    lemma_levels_of_jv_len(a);
    if i < a.len() - 1 {
        lemma_levels_of_jv_len(a.drop_last());
        lemma_levels_of_jv_elem(a.drop_last(), i);
        assert(a.drop_last()[i] == a[i]);
    } else {
        assert(a.last() == a[i]);
    }
}

/// Decodes one level record.
fn decode_level(v: &serde_json::Value) -> (r: Result<LevelData, DecodeError>)
    ensures
        r matches Ok(l) ==> level_of_jv(jv(*v)) == Some(l@),
        r is Err <==> level_of_jv(jv(*v)) is None,
        r matches Err(e) ==> e is Field,
{
    let level_id = match req_str(v, "LevelId") {
        Ok(x) => x,
        Err(e) => return Err(e),
    };
    let stage_type = match req_u64(v, "StageType") {
        Ok(x) => x,
        Err(e) => return Err(e),
    };
    let was_completed_in_story_mode = match req_bool(v, "WasCompletedInStoryMode") {
        Ok(x) => x,
        Err(e) => return Err(e),
    };
    let was_attempted_in_story_mode = match req_bool(v, "WasAttemptedInStoryMode") {
        Ok(x) => x,
        Err(e) => return Err(e),
    };
    let was_skipped_in_story_mode = match req_bool(v, "WasSkippedInStoryMode") {
        Ok(x) => x,
        Err(e) => return Err(e),
    };
    let awarded_diamonds = match req_u64(v, "AwardedDiamonds") {
        Ok(x) => x,
        Err(e) => return Err(e),
    };
    let awarded_diamonds_remix = match req_u64(v, "AwardedDiamondsRemix") {
        Ok(x) => x,
        Err(e) => return Err(e),
    };
    let difficulty_data = match decode_diffs(v, "DifficultyHighScoreDatas") {
        Ok(x) => x,
        Err(e) => return Err(e),
    };
    let remix_difficulty_data = match decode_diffs(v, "RemixDifficultyHighScoreDatas") {
        Ok(x) => x,
        Err(e) => return Err(e),
    };
    let out = LevelData {
        level_id,
        stage_type,
        was_completed_in_story_mode,
        was_attempted_in_story_mode,
        was_skipped_in_story_mode,
        awarded_diamonds,
        awarded_diamonds_remix,
        difficulty_data,
        remix_difficulty_data,
    };
    proof {
        assert(level_of_jv(jv(*v)) matches Some(lv) && lv =~= out@);
    }
    Ok(out)
}

/// Decodes an array of level records under a key.
fn decode_levels(v: &serde_json::Value, key: &str) -> (r: Result<Vec<LevelData>, DecodeError>)
    ensures
        match jv(*v) {
            Jv::Obj(m) => {
                &&& (r matches Ok(ls) ==> obj_arr(m, key@) is Some && levels_of_jv(
                    obj_arr(m, key@).unwrap(),
                ) == Some(ls@.map_values(|l: LevelData| l@)))
                &&& (r is Err <==> (obj_arr(m, key@) is None || levels_of_jv(
                    obj_arr(m, key@).unwrap(),
                ) is None))
            },
            _ => r is Err,
        },
        r matches Err(e) ==> e is Field,
{
    let arr = match req_arr(v, key) {
        Ok(a) => a,
        Err(e) => return Err(e),
    };
    let ghost ja = arr@.map_values(|e: serde_json::Value| jv(e));
    let mut out: Vec<LevelData> = Vec::new();
    let mut i: usize = 0;
    while i < arr.len()
        invariant
            i <= arr.len(),
            ja == arr@.map_values(|e: serde_json::Value| jv(e)),
            ja.len() == arr@.len(),
            jv(*v) matches Jv::Obj(m) && obj_arr(m, key@) == Some(ja),
            levels_of_jv(ja.subrange(0, i as int)) == Some(out@.map_values(|l: LevelData| l@)),
        decreases arr.len() - i,
    {
        let l = match decode_level(&arr[i]) {
            Ok(l) => l,
            Err(e) => {
                proof {
                    if levels_of_jv(ja) is Some {
                        lemma_levels_of_jv_elem(ja, i as int);
                    }
                }
                return Err(e);
            },
        };
        out.push(l);
        proof {
            assert(ja.subrange(0, i + 1 as int).drop_last() =~= ja.subrange(0, i as int));
            assert(ja.subrange(0, i + 1 as int).last() == ja[i as int]);
            assert(out@.map_values(|l: LevelData| l@) =~= levels_of_jv(
                ja.subrange(0, i as int),
            ).unwrap().push(l@));
        }
        i = i + 1;
    }
    proof {
        assert(ja.subrange(0, ja.len() as int) =~= ja);
    }
    Ok(out)
}

/// Decodes a whole document from a parsed JSON tree.
#[verifier::rlimit(100)]
#[verifier::spinoff_prover]
pub fn doc_from_value(v: &serde_json::Value) -> (r: Result<SaveGame, DecodeError>)
    ensures
        r matches Ok(d) ==> doc_of_jv(jv(*v)) == Some(d@),
        r is Err <==> doc_of_jv(jv(*v)) is None,
        r matches Err(e) ==> e is Field,
{
    let save_name = match req_str(v, "SaveName") {
        Ok(x) => x,
        Err(e) => return Err(e),
    };
    let game_data_version = match req_u64(v, "GameDataVersion") {
        Ok(x) => x,
        Err(e) => return Err(e),
    };
    let save_data_version = match req_u64(v, "SaveDataVersion") {
        Ok(x) => x,
        Err(e) => return Err(e),
    };
    let times_booted = match req_u64(v, "TimesBooted") {
        Ok(x) => x,
        Err(e) => return Err(e),
    };
    let save_id = match req_u64(v, "SaveID") {
        Ok(x) => x,
        Err(e) => return Err(e),
    };
    let player_id = match req_str(v, "PlayerID") {
        Ok(x) => x,
        Err(e) => return Err(e),
    };
    let selected_language = match req_str(v, "SelectedLanguage") {
        Ok(x) => x,
        Err(e) => return Err(e),
    };
    let framerate_limit = match req_u64(v, "FramerateLimit") {
        Ok(x) => x,
        Err(e) => return Err(e),
    };
    let level_data = match decode_levels(v, "LevelDatas") {
        Ok(x) => x,
        Err(e) => return Err(e),
    };
    let storyline_data = match decode_storylines(v, "StorylineDatas") {
        Ok(x) => x,
        Err(e) => return Err(e),
    };
    let active_cosmetic_pin = match req_str(v, "ActiveCosmeticPin") {
        Ok(x) => x,
        Err(e) => return Err(e),
    };
    let active_gameplay_pin = match req_str(v, "ActiveGameplayPin") {
        Ok(x) => x,
        Err(e) => return Err(e),
    };
    let should_display_dialogue_debug = match req_bool(v, "ShouldDisplayDialogueDebug") {
        Ok(x) => x,
        Err(e) => return Err(e),
    };
    let should_unlock_all_levels = match req_bool(v, "ShouldUnlockAllLevels") {
        Ok(x) => x,
        Err(e) => return Err(e),
    };
    let has_input_dragon_dance = match req_bool(v, "HasInputDragonDance") {
        Ok(x) => x,
        Err(e) => return Err(e),
    };
    let selected_story_difficulty = match req_u64(v, "SelectedStoryDifficulty") {
        Ok(x) => x,
        Err(e) => return Err(e),
    };
    let selected_arcade_difficulty = match req_u64(v, "SelectedArcadeDifficulty") {
        Ok(x) => x,
        Err(e) => return Err(e),
    };
    let selected_track_sorting_order = match req_u64(v, "SelectedTrackSortingOrder") {
        Ok(x) => x,
        Err(e) => return Err(e),
    };
    let selected_custom_music_sorting_order = match req_u64(
        v,
        "SelectedCustomMusicSortingOrder",
    ) {
        Ok(x) => x,
        Err(e) => return Err(e),
    };
    let is_remix_mode_active = match req_bool(v, "IsRemixModeActive") {
        Ok(x) => x,
        Err(e) => return Err(e),
    };
    let should_play_all_story_content_in_order = match req_bool(
        v,
        "ShouldPlayAllStoryContentInOrder",
    ) {
        Ok(x) => x,
        Err(e) => return Err(e),
    };
    let enemy_kill_counts_by_id = match decode_kills(v, "EnemyKillCountsById") {
        Ok(x) => x,
        Err(e) => return Err(e),
    };
    let total_rhythm_rifts_cleared = match req_u64(v, "TotalRhythmRiftsCleared") {
        Ok(x) => x,
        Err(e) => return Err(e),
    };
    let has_seen_splash_screens = match req_bool(v, "HasSeenSplashScreens") {
        Ok(x) => x,
        Err(e) => return Err(e),
    };
    let has_opened_story_mode = match req_bool(v, "HasOpenedStoryMode") {
        Ok(x) => x,
        Err(e) => return Err(e),
    };
    let has_agreed_to_no_streaming = match req_bool(v, "HasAgreedToNoStreaming") {
        Ok(x) => x,
        Err(e) => return Err(e),
    };
    let total_diamonds = match req_u64(v, "TotalDiamonds") {
        Ok(x) => x,
        Err(e) => return Err(e),
    };
    let total_vibe_power_uses = match req_u64(v, "TotalVibePowerUses") {
        Ok(x) => x,
        Err(e) => return Err(e),
    };
    let max_enemies_killed_while_vibing = match req_u64(v, "MaxEnemiesKilledWhileVibing") {
        Ok(x) => x,
        Err(e) => return Err(e),
    };
    let bb_total_attacks = match req_u64(v, "BBTotalAttacks") {
        Ok(x) => x,
        Err(e) => return Err(e),
    };
    let bb_total_dodges = match req_u64(v, "BBTotalDodges") {
        Ok(x) => x,
        Err(e) => return Err(e),
    };
    let bb_total_blocked_hits = match req_u64(v, "BBTotalBlockedHits") {
        Ok(x) => x,
        Err(e) => return Err(e),
    };
    let out = SaveGame {
        save_name,
        game_data_version,
        save_data_version,
        times_booted,
        save_id,
        player_id,
        selected_language,
        framerate_limit,
        level_data,
        storyline_data,
        active_cosmetic_pin,
        active_gameplay_pin,
        should_display_dialogue_debug,
        should_unlock_all_levels,
        has_input_dragon_dance,
        selected_story_difficulty,
        selected_arcade_difficulty,
        selected_track_sorting_order,
        selected_custom_music_sorting_order,
        is_remix_mode_active,
        should_play_all_story_content_in_order,
        enemy_kill_counts_by_id,
        total_rhythm_rifts_cleared,
        has_seen_splash_screens,
        has_opened_story_mode,
        has_agreed_to_no_streaming,
        total_diamonds,
        total_vibe_power_uses,
        max_enemies_killed_while_vibing,
        bb_total_attacks,
        bb_total_dodges,
        bb_total_blocked_hits,
    };
    proof {
        assert(doc_of_jv(jv(*v)) matches Some(dv) && dv =~= out@);
    }
    Ok(out)
}

/// Loads a document from JSON text: parses the text, then decodes it
/// against the schema. All-or-nothing: a document comes back exactly
/// when the text is well-formed JSON whose tree the schema accepts, and
/// the error says which of the two steps refused.
pub fn decode_document(s: &str) -> (r: Result<SaveGame, DecodeError>)
    ensures
        r matches Ok(d) ==> jparse(s@) is Some && doc_of_jv(jparse(s@).unwrap()) == Some(d@),
        r is Err <==> (jparse(s@) is None || doc_of_jv(jparse(s@).unwrap()) is None),
        r == Err::<SaveGame, DecodeError>(DecodeError::Syntax) <==> jparse(s@) is None,
{
    let v = match parse_json(s) {
        Ok(v) => v,
        Err(_) => return Err(DecodeError::Syntax),
    };
    match doc_from_value(&v) {
        Ok(d) => Ok(d),
        Err(e) => Err(e),
    }
}

} // verus!
