//! Round trip of the document through its serialized form.
//!
//! [`jv_of_doc_tree`] is the canonical JSON tree of a document: the
//! fields the encoder writes, as a tree. The lemmas here prove that the
//! decode schema maps that tree back to the document, for every
//! document — the typed half of the load-after-save round trip. The
//! remaining half, that parsing the encoder's text yields the canonical
//! tree, is the JSON parser's doing and is exercised by the test suite.
use crate::decode::{
    beat_of_jv, beats_of_jv, diff_of_jv, diffs_of_jv, doc_of_jv, kill_of_jv, kills_of_jv,
    level_of_jv, levels_of_jv, storyline_of_jv, storylines_of_jv, Jv,
};
use crate::models::{BeatView, DiffView, DocView, KillView, LevelView, StorylineView};
use vstd::prelude::*;

verus! {

/// The canonical JSON tree of one difficulty record.
pub open spec fn jv_of_diff(h: DiffView) -> Jv {
    Jv::Obj(
        Map::empty().insert("Difficulty"@, Jv::UInt(h.difficulty)).insert(
            "HighScore"@,
            Jv::UInt(h.high_score),
        ).insert("LetterGrade"@, Jv::Str(h.letter_grade)).insert(
            "MaxComboCount"@,
            Jv::UInt(h.max_combo_count),
        ).insert("NumAttempts"@, Jv::UInt(h.num_attempts)).insert(
            "NumClears"@,
            Jv::UInt(h.num_clears),
        ).insert("NumRetries"@, Jv::UInt(h.num_retries)).insert(
            "NumGameOvers"@,
            Jv::UInt(h.num_game_overs),
        ).insert("HasAllPerfects"@, Jv::Bool(h.has_all_perfects)).insert(
            "HasFullComboRhythmRift"@,
            Jv::Bool(h.has_full_combo_rhythm_rift),
        ),
    )
}

/// The canonical JSON tree of one story beat.
pub open spec fn jv_of_beat(b: BeatView) -> Jv {
    Jv::Obj(
        Map::empty().insert("LevelId"@, Jv::Str(b.level_id)).insert(
            "TimesPlayed"@,
            Jv::UInt(b.times_played),
        ),
    )
}

/// The canonical JSON tree of one kill-count record.
pub open spec fn jv_of_kill(k: KillView) -> Jv {
    Jv::Obj(
        Map::empty().insert("EnemyId"@, Jv::UInt(k.enemy_id)).insert(
            "NumberOfKills"@,
            Jv::UInt(k.number_of_kills),
        ).insert("NumberOfDeaths"@, Jv::UInt(k.number_of_deaths)),
    )
}

/// The canonical JSON tree of one storyline record.
pub open spec fn jv_of_storyline(s: StorylineView) -> Jv {
    Jv::Obj(
        Map::empty().insert("storylineCharacters"@, Jv::UInt(s.storyline_characters)).insert(
            "HasUnlockedStoryline"@,
            Jv::Bool(s.has_unlocked_storyline),
        ).insert("HasCompletedStoryline"@, Jv::Bool(s.has_completed_storyline)).insert(
            "StoryBeatDatas"@,
            Jv::Arr(s.story_beat_data.map_values(|b: BeatView| jv_of_beat(b))),
        ),
    )
}

/// The canonical JSON tree of one level record.
pub open spec fn jv_of_level(l: LevelView) -> Jv {
    Jv::Obj(
        Map::empty().insert("LevelId"@, Jv::Str(l.level_id)).insert(
            "StageType"@,
            Jv::UInt(l.stage_type),
        ).insert("WasCompletedInStoryMode"@, Jv::Bool(l.was_completed_in_story_mode)).insert(
            "WasAttemptedInStoryMode"@,
            Jv::Bool(l.was_attempted_in_story_mode),
        ).insert("WasSkippedInStoryMode"@, Jv::Bool(l.was_skipped_in_story_mode)).insert(
            "AwardedDiamonds"@,
            Jv::UInt(l.awarded_diamonds),
        ).insert("AwardedDiamondsRemix"@, Jv::UInt(l.awarded_diamonds_remix)).insert(
            "DifficultyHighScoreDatas"@,
            Jv::Arr(l.difficulty_data.map_values(|h: DiffView| jv_of_diff(h))),
        ).insert(
            "RemixDifficultyHighScoreDatas"@,
            Jv::Arr(l.remix_difficulty_data.map_values(|h: DiffView| jv_of_diff(h))),
        ),
    )
}

/// The canonical JSON tree of a whole document.
pub open spec fn jv_of_doc_tree(d: DocView) -> Jv {
    Jv::Obj(
        Map::empty().insert("SaveName"@, Jv::Str(d.save_name)).insert(
            "GameDataVersion"@,
            Jv::UInt(d.game_data_version),
        ).insert("SaveDataVersion"@, Jv::UInt(d.save_data_version)).insert(
            "TimesBooted"@,
            Jv::UInt(d.times_booted),
        ).insert("SaveID"@, Jv::UInt(d.save_id)).insert("PlayerID"@, Jv::Str(d.player_id)).insert(
            "SelectedLanguage"@,
            Jv::Str(d.selected_language),
        ).insert("FramerateLimit"@, Jv::UInt(d.framerate_limit)).insert(
            "LevelDatas"@,
            Jv::Arr(d.level_data.map_values(|l: LevelView| jv_of_level(l))),
        ).insert(
            "StorylineDatas"@,
            Jv::Arr(d.storyline_data.map_values(|s: StorylineView| jv_of_storyline(s))),
        ).insert("ActiveCosmeticPin"@, Jv::Str(d.active_cosmetic_pin)).insert(
            "ActiveGameplayPin"@,
            Jv::Str(d.active_gameplay_pin),
        ).insert(
            "ShouldDisplayDialogueDebug"@,
            Jv::Bool(d.should_display_dialogue_debug),
        ).insert("ShouldUnlockAllLevels"@, Jv::Bool(d.should_unlock_all_levels)).insert(
            "HasInputDragonDance"@,
            Jv::Bool(d.has_input_dragon_dance),
        ).insert("SelectedStoryDifficulty"@, Jv::UInt(d.selected_story_difficulty)).insert(
            "SelectedArcadeDifficulty"@,
            Jv::UInt(d.selected_arcade_difficulty),
        ).insert(
            "SelectedTrackSortingOrder"@,
            Jv::UInt(d.selected_track_sorting_order),
        ).insert(
            "SelectedCustomMusicSortingOrder"@,
            Jv::UInt(d.selected_custom_music_sorting_order),
        ).insert("IsRemixModeActive"@, Jv::Bool(d.is_remix_mode_active)).insert(
            "ShouldPlayAllStoryContentInOrder"@,
            Jv::Bool(d.should_play_all_story_content_in_order),
        ).insert(
            "EnemyKillCountsById"@,
            Jv::Arr(d.enemy_kill_counts_by_id.map_values(|k: KillView| jv_of_kill(k))),
        ).insert("TotalRhythmRiftsCleared"@, Jv::UInt(d.total_rhythm_rifts_cleared)).insert(
            "HasSeenSplashScreens"@,
            Jv::Bool(d.has_seen_splash_screens),
        ).insert("HasOpenedStoryMode"@, Jv::Bool(d.has_opened_story_mode)).insert(
            "HasAgreedToNoStreaming"@,
            Jv::Bool(d.has_agreed_to_no_streaming),
        ).insert("TotalDiamonds"@, Jv::UInt(d.total_diamonds)).insert(
            "TotalVibePowerUses"@,
            Jv::UInt(d.total_vibe_power_uses),
        ).insert(
            "MaxEnemiesKilledWhileVibing"@,
            Jv::UInt(d.max_enemies_killed_while_vibing),
        ).insert("BBTotalAttacks"@, Jv::UInt(d.bb_total_attacks)).insert(
            "BBTotalDodges"@,
            Jv::UInt(d.bb_total_dodges),
        ).insert("BBTotalBlockedHits"@, Jv::UInt(d.bb_total_blocked_hits)),
    )
}

/// The schema decodes the canonical tree of a difficulty record back to
/// the record.
pub proof fn lemma_diff_round_trip(h: DiffView)
    ensures
        diff_of_jv(jv_of_diff(h)) == Some(h),
{
    reveal_strlit("Difficulty");
    reveal_strlit("HighScore");
    reveal_strlit("LetterGrade");
    reveal_strlit("MaxComboCount");
    reveal_strlit("NumAttempts");
    reveal_strlit("NumClears");
    reveal_strlit("NumRetries");
    reveal_strlit("NumGameOvers");
    reveal_strlit("HasAllPerfects");
    reveal_strlit("HasFullComboRhythmRift");
    assert("Difficulty"@.len() == 10);
    assert("HighScore"@.len() == 9);
    assert("LetterGrade"@.len() == 11);
    assert("MaxComboCount"@.len() == 13);
    assert("NumAttempts"@.len() == 11);
    assert("NumClears"@.len() == 9);
    assert("NumRetries"@.len() == 10);
    assert("NumGameOvers"@.len() == 12);
    assert("HasAllPerfects"@.len() == 14);
    assert("HasFullComboRhythmRift"@.len() == 22);
    assert("Difficulty"@[0] != "NumRetries"@[0]);
    assert("HighScore"@[0] != "NumClears"@[0]);
    assert("LetterGrade"@[0] != "NumAttempts"@[0]);
    assert(diff_of_jv(jv_of_diff(h)) matches Some(x) && x =~= h);
}

/// The schema decodes the canonical trees of a difficulty sequence back
/// to the sequence.
pub proof fn lemma_diffs_round_trip(hs: Seq<DiffView>)
    ensures
        diffs_of_jv(hs.map_values(|h: DiffView| jv_of_diff(h))) == Some(hs),
    decreases hs.len(),
{
    let a = hs.map_values(|h: DiffView| jv_of_diff(h));
    if hs.len() == 0 {
        assert(a.len() == 0);
        assert(diffs_of_jv(a).unwrap() =~= hs);
    } else {
        lemma_diffs_round_trip(hs.drop_last());
        lemma_diff_round_trip(hs.last());
        assert(a.drop_last() =~= hs.drop_last().map_values(|h: DiffView| jv_of_diff(h)));
        assert(a.last() == jv_of_diff(hs.last()));
        assert(diffs_of_jv(a).unwrap() =~= hs);
    }
}

/// The schema decodes the canonical tree of a story beat back to the
/// beat.
pub proof fn lemma_beat_round_trip(b: BeatView)
    ensures
        beat_of_jv(jv_of_beat(b)) == Some(b),
{
    reveal_strlit("LevelId");
    reveal_strlit("TimesPlayed");
    assert("LevelId"@.len() == 7);
    assert("TimesPlayed"@.len() == 11);
    assert(beat_of_jv(jv_of_beat(b)) matches Some(x) && x =~= b);
}

/// The schema decodes the canonical trees of a beat sequence back to
/// the sequence.
pub proof fn lemma_beats_round_trip(bs: Seq<BeatView>)
    ensures
        beats_of_jv(bs.map_values(|b: BeatView| jv_of_beat(b))) == Some(bs),
    decreases bs.len(),
{
    let a = bs.map_values(|b: BeatView| jv_of_beat(b));
    if bs.len() == 0 {
        assert(a.len() == 0);
        assert(beats_of_jv(a).unwrap() =~= bs);
    } else {
        lemma_beats_round_trip(bs.drop_last());
        lemma_beat_round_trip(bs.last());
        assert(a.drop_last() =~= bs.drop_last().map_values(|b: BeatView| jv_of_beat(b)));
        assert(a.last() == jv_of_beat(bs.last()));
        assert(beats_of_jv(a).unwrap() =~= bs);
    }
}

/// The schema decodes the canonical tree of a kill-count record back to
/// the record.
pub proof fn lemma_kill_round_trip(k: KillView)
    ensures
        kill_of_jv(jv_of_kill(k)) == Some(k),
{
    reveal_strlit("EnemyId");
    reveal_strlit("NumberOfKills");
    reveal_strlit("NumberOfDeaths");
    assert("EnemyId"@.len() == 7);
    assert("NumberOfKills"@.len() == 13);
    assert("NumberOfDeaths"@.len() == 14);
    assert(kill_of_jv(jv_of_kill(k)) matches Some(x) && x =~= k);
}

/// The schema decodes the canonical trees of a kill-count sequence back
/// to the sequence.
pub proof fn lemma_kills_round_trip(ks: Seq<KillView>)
    ensures
        kills_of_jv(ks.map_values(|k: KillView| jv_of_kill(k))) == Some(ks),
    decreases ks.len(),
{
    let a = ks.map_values(|k: KillView| jv_of_kill(k));
    if ks.len() == 0 {
        assert(a.len() == 0);
        assert(kills_of_jv(a).unwrap() =~= ks);
    } else {
        lemma_kills_round_trip(ks.drop_last());
        lemma_kill_round_trip(ks.last());
        assert(a.drop_last() =~= ks.drop_last().map_values(|k: KillView| jv_of_kill(k)));
        assert(a.last() == jv_of_kill(ks.last()));
        assert(kills_of_jv(a).unwrap() =~= ks);
    }
}

/// The schema decodes the canonical tree of a storyline record back to
/// the record.
pub proof fn lemma_storyline_round_trip(s: StorylineView)
    ensures
        storyline_of_jv(jv_of_storyline(s)) == Some(s),
{
    reveal_strlit("storylineCharacters");
    reveal_strlit("HasUnlockedStoryline");
    reveal_strlit("HasCompletedStoryline");
    reveal_strlit("StoryBeatDatas");
    lemma_beats_round_trip(s.story_beat_data);
    assert("storylineCharacters"@.len() == 19);
    assert("HasUnlockedStoryline"@.len() == 20);
    assert("HasCompletedStoryline"@.len() == 21);
    assert("StoryBeatDatas"@.len() == 14);
    assert(storyline_of_jv(jv_of_storyline(s)) matches Some(x) && x =~= s);
}

/// The schema decodes the canonical trees of a storyline sequence back
/// to the sequence.
pub proof fn lemma_storylines_round_trip(ss: Seq<StorylineView>)
    ensures
        storylines_of_jv(ss.map_values(|s: StorylineView| jv_of_storyline(s))) == Some(ss),
    decreases ss.len(),
{
    let a = ss.map_values(|s: StorylineView| jv_of_storyline(s));
    if ss.len() == 0 {
        assert(a.len() == 0);
        assert(storylines_of_jv(a).unwrap() =~= ss);
    } else {
        lemma_storylines_round_trip(ss.drop_last());
        lemma_storyline_round_trip(ss.last());
        assert(a.drop_last() =~= ss.drop_last().map_values(
            |s: StorylineView| jv_of_storyline(s),
        ));
        assert(a.last() == jv_of_storyline(ss.last()));
        assert(storylines_of_jv(a).unwrap() =~= ss);
    }
}

/// The schema decodes the canonical tree of a level record back to the
/// record.
#[verifier::rlimit(100)]
#[verifier::spinoff_prover]
pub proof fn lemma_level_round_trip(l: LevelView)
    ensures
        level_of_jv(jv_of_level(l)) == Some(l),
{
    reveal_strlit("LevelId");
    reveal_strlit("StageType");
    reveal_strlit("WasCompletedInStoryMode");
    reveal_strlit("WasAttemptedInStoryMode");
    reveal_strlit("WasSkippedInStoryMode");
    reveal_strlit("AwardedDiamonds");
    reveal_strlit("AwardedDiamondsRemix");
    reveal_strlit("DifficultyHighScoreDatas");
    reveal_strlit("RemixDifficultyHighScoreDatas");
    lemma_diffs_round_trip(l.difficulty_data);
    lemma_diffs_round_trip(l.remix_difficulty_data);
    assert("LevelId"@.len() == 7);
    assert("StageType"@.len() == 9);
    assert("WasCompletedInStoryMode"@.len() == 23);
    assert("WasAttemptedInStoryMode"@.len() == 23);
    assert("WasSkippedInStoryMode"@.len() == 21);
    assert("AwardedDiamonds"@.len() == 15);
    assert("AwardedDiamondsRemix"@.len() == 20);
    assert("DifficultyHighScoreDatas"@.len() == 24);
    assert("RemixDifficultyHighScoreDatas"@.len() == 29);
    assert("WasCompletedInStoryMode"@[3] != "WasAttemptedInStoryMode"@[3]);
    assert(level_of_jv(jv_of_level(l)) matches Some(x) && x =~= l);
}

/// The schema decodes the canonical trees of a level sequence back to
/// the sequence.
pub proof fn lemma_levels_round_trip(ls: Seq<LevelView>)
    ensures
        levels_of_jv(ls.map_values(|l: LevelView| jv_of_level(l))) == Some(ls),
    decreases ls.len(),
{
    let a = ls.map_values(|l: LevelView| jv_of_level(l));
    if ls.len() == 0 {
        assert(a.len() == 0);
        assert(levels_of_jv(a).unwrap() =~= ls);
    } else {
        lemma_levels_round_trip(ls.drop_last());
        lemma_level_round_trip(ls.last());
        assert(a.drop_last() =~= ls.drop_last().map_values(|l: LevelView| jv_of_level(l)));
        assert(a.last() == jv_of_level(ls.last()));
        assert(levels_of_jv(a).unwrap() =~= ls);
    }
}

/// Lossless round trip at the tree level: the decode schema maps the
/// canonical tree of every document back to that document, every field
/// and every sequence element included.
#[verifier::rlimit(100)]
#[verifier::spinoff_prover]
pub proof fn lemma_doc_round_trip(d: DocView)
    ensures
        doc_of_jv(jv_of_doc_tree(d)) == Some(d),
{
    reveal_strlit("SaveName");
    reveal_strlit("GameDataVersion");
    reveal_strlit("SaveDataVersion");
    reveal_strlit("TimesBooted");
    reveal_strlit("SaveID");
    reveal_strlit("PlayerID");
    reveal_strlit("SelectedLanguage");
    reveal_strlit("FramerateLimit");
    reveal_strlit("LevelDatas");
    reveal_strlit("StorylineDatas");
    reveal_strlit("ActiveCosmeticPin");
    reveal_strlit("ActiveGameplayPin");
    reveal_strlit("ShouldDisplayDialogueDebug");
    reveal_strlit("ShouldUnlockAllLevels");
    reveal_strlit("HasInputDragonDance");
    reveal_strlit("SelectedStoryDifficulty");
    reveal_strlit("SelectedArcadeDifficulty");
    reveal_strlit("SelectedTrackSortingOrder");
    reveal_strlit("SelectedCustomMusicSortingOrder");
    reveal_strlit("IsRemixModeActive");
    reveal_strlit("ShouldPlayAllStoryContentInOrder");
    reveal_strlit("EnemyKillCountsById");
    reveal_strlit("TotalRhythmRiftsCleared");
    reveal_strlit("HasSeenSplashScreens");
    reveal_strlit("HasOpenedStoryMode");
    reveal_strlit("HasAgreedToNoStreaming");
    reveal_strlit("TotalDiamonds");
    reveal_strlit("TotalVibePowerUses");
    reveal_strlit("MaxEnemiesKilledWhileVibing");
    reveal_strlit("BBTotalAttacks");
    reveal_strlit("BBTotalDodges");
    reveal_strlit("BBTotalBlockedHits");
    lemma_levels_round_trip(d.level_data);
    lemma_storylines_round_trip(d.storyline_data);
    lemma_kills_round_trip(d.enemy_kill_counts_by_id);
    assert("SaveName"@.len() == 8);
    assert("GameDataVersion"@.len() == 15);
    assert("SaveDataVersion"@.len() == 15);
    assert("TimesBooted"@.len() == 11);
    assert("SaveID"@.len() == 6);
    assert("PlayerID"@.len() == 8);
    assert("SelectedLanguage"@.len() == 16);
    assert("FramerateLimit"@.len() == 14);
    assert("LevelDatas"@.len() == 10);
    assert("StorylineDatas"@.len() == 14);
    assert("ActiveCosmeticPin"@.len() == 17);
    assert("ActiveGameplayPin"@.len() == 17);
    assert("ShouldDisplayDialogueDebug"@.len() == 26);
    assert("ShouldUnlockAllLevels"@.len() == 21);
    assert("HasInputDragonDance"@.len() == 19);
    assert("SelectedStoryDifficulty"@.len() == 23);
    assert("SelectedArcadeDifficulty"@.len() == 24);
    assert("SelectedTrackSortingOrder"@.len() == 25);
    assert("SelectedCustomMusicSortingOrder"@.len() == 31);
    assert("IsRemixModeActive"@.len() == 17);
    assert("ShouldPlayAllStoryContentInOrder"@.len() == 32);
    assert("EnemyKillCountsById"@.len() == 19);
    assert("TotalRhythmRiftsCleared"@.len() == 23);
    assert("HasSeenSplashScreens"@.len() == 20);
    assert("HasOpenedStoryMode"@.len() == 18);
    assert("HasAgreedToNoStreaming"@.len() == 22);
    assert("TotalDiamonds"@.len() == 13);
    assert("TotalVibePowerUses"@.len() == 18);
    assert("MaxEnemiesKilledWhileVibing"@.len() == 27);
    assert("BBTotalAttacks"@.len() == 14);
    assert("BBTotalDodges"@.len() == 13);
    assert("BBTotalBlockedHits"@.len() == 18);
    assert("SaveName"@[0] != "PlayerID"@[0]);
    assert("GameDataVersion"@[0] != "SaveDataVersion"@[0]);
    assert("FramerateLimit"@[0] != "StorylineDatas"@[0]);
    assert("FramerateLimit"@[0] != "BBTotalAttacks"@[0]);
    assert("StorylineDatas"@[0] != "BBTotalAttacks"@[0]);
    assert("ActiveCosmeticPin"@[6] != "ActiveGameplayPin"@[6]);
    assert("ActiveCosmeticPin"@[0] != "IsRemixModeActive"@[0]);
    assert("ActiveGameplayPin"@[0] != "IsRemixModeActive"@[0]);
    assert("HasInputDragonDance"@[0] != "EnemyKillCountsById"@[0]);
    assert("SelectedStoryDifficulty"@[0] != "TotalRhythmRiftsCleared"@[0]);
    assert("HasOpenedStoryMode"@[0] != "TotalVibePowerUses"@[0]);
    assert("HasOpenedStoryMode"@[0] != "BBTotalBlockedHits"@[0]);
    assert("TotalDiamonds"@[0] != "BBTotalDodges"@[0]);
    assert("TotalVibePowerUses"@[0] != "BBTotalBlockedHits"@[0]);
    assert(doc_of_jv(jv_of_doc_tree(d)) matches Some(x) && x =~= d);
}

} // verus!
