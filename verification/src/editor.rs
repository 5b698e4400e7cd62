//! The editor state and the edit dispatcher.
//!
//! An [`EditorState`] holds two complete documents: `data` (current) and
//! `original` (the baseline from the last load or save), plus the source
//! path. [`EditorState::update`] receives one path-addressed edit command
//! and applies it to the current document; the whole effect of a command
//! is given by the spec function [`apply_edit`]. Out-of-bounds indices
//! make a command a no-op; they never fail.
use crate::models::{DiffView, DifficultyData, DocView, LevelData, LevelView, SaveGame};
use vstd::prelude::*;

verus! {

/// An edit addressed at one field of one difficulty record.
#[derive(Clone, Debug)]
pub enum LevelEditHighScoreDataMessage {
    EditDifficulty(u64),
    EditHighScore(u64),
    EditLetterGrade(String),
    EditMaxComboCount(u64),
    EditNumAttempts(u64),
    EditNumClears(u64),
    EditNumRetries(u64),
    EditNumGameOvers(u64),
    EditHasAllPerfects(bool),
    EditHasFullComboRhythmRift(bool),
}

/// An edit addressed at one field of one level, or at a difficulty
/// record nested under it. The per-field commands address the normal
/// difficulty sequence only: the remix sequence round-trips through
/// persistence and is clamped by the bulk full-combo action, but no
/// field-level edit path reaches it.
#[derive(Clone, Debug)]
pub enum LevelEditMessage {
    EditLevelId(String),
    EditStageType(u64),
    EditWasCompletedInStoryMode(bool),
    EditWasAttemptedInStoryMode(bool),
    EditWasSkippedInStoryMode(bool),
    EditAwardedDiamonds(u64),
    EditAwardedDiamondsRemix(u64),
    EditHighScoreData { index: usize, message: LevelEditHighScoreDataMessage },
}

/// A command to the editor: one field edit, the bulk full-combo action,
/// or a request to save.
#[derive(Clone, Debug)]
pub enum EditorMessage {
    Save,
    MarkAllFullCombo,
    EditSaveName(String),
    EditPlayerID(String),
    EditSelectedLanguage(String),
    EditShouldDisplayDialogueDebug(bool),
    EditShouldUnlockAllLevels(bool),
    EditHasInputDragonDance(bool),
    EditIsRemixModeActive(bool),
    EditShouldPlayAllStoryContentInOrder(bool),
    EditGameDataVersion(u64),
    EditSaveDataVersion(u64),
    EditTimesBooted(u64),
    EditSaveId(u64),
    EditFramerateLimit(u64),
    EditSelectedStoryDifficulty(u64),
    EditSelectedArcadeDifficulty(u64),
    EditTotalRhythmRiftsCleared(u64),
    EditTotalDiamonds(u64),
    EditVibePowerUses(u64),
    EditMaxEnemiesKilledWhileVibing(u64),
    EditBBTotalAttacks(u64),
    EditBBTotalDodges(u64),
    EditBBTotalBlockedHits(u64),
    LevelEdit { index: usize, message: LevelEditMessage },
}

/// The effect of a difficulty-record edit on that record.
pub open spec fn apply_diff_edit(h: DiffView, m: LevelEditHighScoreDataMessage) -> DiffView {
    match m {
        LevelEditHighScoreDataMessage::EditDifficulty(v) => (DiffView { difficulty: v, ..h }),
        LevelEditHighScoreDataMessage::EditHighScore(v) => (DiffView { high_score: v, ..h }),
        LevelEditHighScoreDataMessage::EditLetterGrade(v) => (
        DiffView { letter_grade: v@, ..h }),
        LevelEditHighScoreDataMessage::EditMaxComboCount(v) => (
        DiffView { max_combo_count: v, ..h }),
        LevelEditHighScoreDataMessage::EditNumAttempts(v) => (
        DiffView { num_attempts: v, ..h }),
        LevelEditHighScoreDataMessage::EditNumClears(v) => (DiffView { num_clears: v, ..h }),
        LevelEditHighScoreDataMessage::EditNumRetries(v) => (DiffView { num_retries: v, ..h }),
        LevelEditHighScoreDataMessage::EditNumGameOvers(v) => (
        DiffView { num_game_overs: v, ..h }),
        LevelEditHighScoreDataMessage::EditHasAllPerfects(v) => (
        DiffView { has_all_perfects: v, ..h }),
        LevelEditHighScoreDataMessage::EditHasFullComboRhythmRift(v) => (
        DiffView { has_full_combo_rhythm_rift: v, ..h }),
    }
}

/// The effect of a level edit on that level. An out-of-bounds
/// difficulty index leaves the level unchanged.
pub open spec fn apply_level_edit(l: LevelView, m: LevelEditMessage) -> LevelView {
    match m {
        LevelEditMessage::EditLevelId(v) => (LevelView { level_id: v@, ..l }),
        LevelEditMessage::EditStageType(v) => (LevelView { stage_type: v, ..l }),
        LevelEditMessage::EditWasCompletedInStoryMode(v) => (
        LevelView { was_completed_in_story_mode: v, ..l }),
        LevelEditMessage::EditWasAttemptedInStoryMode(v) => (
        LevelView { was_attempted_in_story_mode: v, ..l }),
        LevelEditMessage::EditWasSkippedInStoryMode(v) => (
        LevelView { was_skipped_in_story_mode: v, ..l }),
        LevelEditMessage::EditAwardedDiamonds(v) => (LevelView { awarded_diamonds: v, ..l }),
        LevelEditMessage::EditAwardedDiamondsRemix(v) => (
        LevelView { awarded_diamonds_remix: v, ..l }),
        LevelEditMessage::EditHighScoreData { index, message } => {
            if index < l.difficulty_data.len() {
                LevelView {
                    difficulty_data: l.difficulty_data.update(
                        index as int,
                        apply_diff_edit(l.difficulty_data[index as int], message),
                    ),
                    ..l
                }
            } else {
                l
            }
        },
    }
}

/// The full-combo clamp on one difficulty record: attempts and retries
/// clamped to at most one, both quality flags set.
pub open spec fn mark_diff(h: DiffView) -> DiffView {
    DiffView {
        num_attempts: if h.num_attempts > 1 {
            1
        } else {
            h.num_attempts
        },
        num_retries: if h.num_retries > 1 {
            1
        } else {
            h.num_retries
        },
        has_all_perfects: true,
        has_full_combo_rhythm_rift: true,
        ..h
    }
}

/// The full-combo marking of one level: story-mode attempted and
/// completed flags set, every difficulty record clamped — in the normal
/// and the remix sequence alike.
pub open spec fn mark_level(l: LevelView) -> LevelView {
    LevelView {
        was_attempted_in_story_mode: true,
        was_completed_in_story_mode: true,
        difficulty_data: l.difficulty_data.map_values(|h: DiffView| mark_diff(h)),
        remix_difficulty_data: l.remix_difficulty_data.map_values(|h: DiffView| mark_diff(h)),
        ..l
    }
}

/// The full-combo marking of the whole document: every level marked.
pub open spec fn mark_all_full_combo(d: DocView) -> DocView {
    DocView { level_data: d.level_data.map_values(|l: LevelView| mark_level(l)), ..d }
}

/// The effect of one editor command on the current document. `Save`
/// leaves the document unchanged (persistence happens outside); an
/// out-of-bounds level index leaves it unchanged.
pub open spec fn apply_edit(d: DocView, m: EditorMessage) -> DocView {
    match m {
        EditorMessage::Save => d,
        EditorMessage::MarkAllFullCombo => mark_all_full_combo(d),
        EditorMessage::EditSaveName(v) => (DocView { save_name: v@, ..d }),
        EditorMessage::EditPlayerID(v) => (DocView { player_id: v@, ..d }),
        EditorMessage::EditSelectedLanguage(v) => (DocView { selected_language: v@, ..d }),
        EditorMessage::EditShouldDisplayDialogueDebug(v) => (
        DocView { should_display_dialogue_debug: v, ..d }),
        EditorMessage::EditShouldUnlockAllLevels(v) => (
        DocView { should_unlock_all_levels: v, ..d }),
        EditorMessage::EditHasInputDragonDance(v) => (
        DocView { has_input_dragon_dance: v, ..d }),
        EditorMessage::EditIsRemixModeActive(v) => (DocView { is_remix_mode_active: v, ..d }),
        EditorMessage::EditShouldPlayAllStoryContentInOrder(v) => (
        DocView { should_play_all_story_content_in_order: v, ..d }),
        EditorMessage::EditGameDataVersion(v) => (DocView { game_data_version: v, ..d }),
        EditorMessage::EditSaveDataVersion(v) => (DocView { save_data_version: v, ..d }),
        EditorMessage::EditTimesBooted(v) => (DocView { times_booted: v, ..d }),
        EditorMessage::EditSaveId(v) => (DocView { save_id: v, ..d }),
        EditorMessage::EditFramerateLimit(v) => (DocView { framerate_limit: v, ..d }),
        EditorMessage::EditSelectedStoryDifficulty(v) => (
        DocView { selected_story_difficulty: v, ..d }),
        EditorMessage::EditSelectedArcadeDifficulty(v) => (
        DocView { selected_arcade_difficulty: v, ..d }),
        EditorMessage::EditTotalRhythmRiftsCleared(v) => (
        DocView { total_rhythm_rifts_cleared: v, ..d }),
        EditorMessage::EditTotalDiamonds(v) => (DocView { total_diamonds: v, ..d }),
        EditorMessage::EditVibePowerUses(v) => (DocView { total_vibe_power_uses: v, ..d }),
        EditorMessage::EditMaxEnemiesKilledWhileVibing(v) => (
        DocView { max_enemies_killed_while_vibing: v, ..d }),
        EditorMessage::EditBBTotalAttacks(v) => (DocView { bb_total_attacks: v, ..d }),
        EditorMessage::EditBBTotalDodges(v) => (DocView { bb_total_dodges: v, ..d }),
        EditorMessage::EditBBTotalBlockedHits(v) => (DocView { bb_total_blocked_hits: v, ..d }),
        EditorMessage::LevelEdit { index, message } => {
            if index < d.level_data.len() {
                DocView {
                    level_data: d.level_data.update(
                        index as int,
                        apply_level_edit(d.level_data[index as int], message),
                    ),
                    ..d
                }
            } else {
                d
            }
        },
    }
}

/// Applies a difficulty-record edit in place.
fn apply_diff_edit_exec(h: &mut DifficultyData, m: LevelEditHighScoreDataMessage)
    ensures
        final(h)@ == apply_diff_edit(old(h)@, m),
{
    match m {
        LevelEditHighScoreDataMessage::EditDifficulty(v) => h.difficulty = v,
        LevelEditHighScoreDataMessage::EditHighScore(v) => h.high_score = v,
        LevelEditHighScoreDataMessage::EditLetterGrade(v) => h.letter_grade = v,
        LevelEditHighScoreDataMessage::EditMaxComboCount(v) => h.max_combo_count = v,
        LevelEditHighScoreDataMessage::EditNumAttempts(v) => h.num_attempts = v,
        LevelEditHighScoreDataMessage::EditNumClears(v) => h.num_clears = v,
        LevelEditHighScoreDataMessage::EditNumRetries(v) => h.num_retries = v,
        LevelEditHighScoreDataMessage::EditNumGameOvers(v) => h.num_game_overs = v,
        LevelEditHighScoreDataMessage::EditHasAllPerfects(v) => h.has_all_perfects = v,
        LevelEditHighScoreDataMessage::EditHasFullComboRhythmRift(v) => h
            .has_full_combo_rhythm_rift = v,
    }
}

/// Applies a level edit in place. An out-of-bounds difficulty index is
/// a no-op.
fn apply_level_edit_exec(l: &mut LevelData, m: LevelEditMessage)
    ensures
        final(l)@ == apply_level_edit(old(l)@, m),
{
    match m {
        LevelEditMessage::EditLevelId(v) => l.level_id = v,
        LevelEditMessage::EditStageType(v) => l.stage_type = v,
        LevelEditMessage::EditWasCompletedInStoryMode(v) => l.was_completed_in_story_mode = v,
        LevelEditMessage::EditWasAttemptedInStoryMode(v) => l.was_attempted_in_story_mode = v,
        LevelEditMessage::EditWasSkippedInStoryMode(v) => l.was_skipped_in_story_mode = v,
        LevelEditMessage::EditAwardedDiamonds(v) => l.awarded_diamonds = v,
        LevelEditMessage::EditAwardedDiamondsRemix(v) => l.awarded_diamonds_remix = v,
        LevelEditMessage::EditHighScoreData { index, message } => {
            if index < l.difficulty_data.len() {
                let h = &mut l.difficulty_data[index];
                apply_diff_edit_exec(h, message);
            }
        },
    }
    proof {
        assert(l@ =~= apply_level_edit(old(l)@, m));
    }
}

/// Clamps every record of one difficulty sequence in place.
fn mark_diffs_exec(v: &mut Vec<DifficultyData>)
    ensures
        final(v)@.len() == old(v)@.len(),
        forall|k: int| 0 <= k < old(v)@.len() ==> final(v)@[k]@ == mark_diff(old(v)@[k]@),
{
    let total: usize = v.len();
    let mut j: usize = 0;
    while j < total
        invariant
            j <= total,
            v@.len() == total,
            total == old(v)@.len(),
            forall|k: int| 0 <= k < j ==> v@[k]@ == mark_diff(old(v)@[k]@),
            forall|k: int| j <= k < total ==> v@[k] == old(v)@[k],
        decreases total - j,
    {
        let h = &mut v[j];
        if h.num_attempts > 1 {
            h.num_attempts = 1;
        }
        if h.num_retries > 1 {
            h.num_retries = 1;
        }
        h.has_all_perfects = true;
        h.has_full_combo_rhythm_rift = true;
        j = j + 1;
    }
}

/// Marks one level as full combo in place, both difficulty sequences
/// included.
fn mark_level_exec(l: &mut LevelData)
    ensures
        final(l)@ == mark_level(old(l)@),
{
    l.was_attempted_in_story_mode = true;
    l.was_completed_in_story_mode = true;
    mark_diffs_exec(&mut l.difficulty_data);
    mark_diffs_exec(&mut l.remix_difficulty_data);
    proof {
        assert(l@.difficulty_data =~= mark_level(old(l)@).difficulty_data);
        assert(l@.remix_difficulty_data =~= mark_level(old(l)@).remix_difficulty_data);
        assert(l@ =~= mark_level(old(l)@));
    }
}

/// The editor's dual-state document: the current document under edit,
/// the baseline from the last load or save, and the source path.
pub struct EditorState {
    pub data: SaveGame,
    pub original: SaveGame,
    pub path: String,
}

impl EditorState {
    /// Opens an editor on a freshly loaded document: current and
    /// baseline start as identical copies.
    pub fn new(save: SaveGame, path: String) -> (r: Self)
        ensures
            r.data@ == save@,
            r.original@ == save@,
            r.path@ == path@,
    {
        EditorState { data: save.clone(), original: save, path }
    }

    /// Dispatches one editor command against the current document.
    /// The whole effect is [`apply_edit`]; the baseline and the path
    /// are never touched. Returns whether the command asks for a save,
    /// which the caller performs.
    #[verifier::rlimit(60)]
    #[verifier::spinoff_prover]
    pub fn update(&mut self, message: EditorMessage) -> (save_requested: bool)
        ensures
            final(self).data@ == apply_edit(old(self).data@, message),
            final(self).original == old(self).original,
            final(self).path == old(self).path,
            save_requested == (message is Save),
    {
        match message {
            EditorMessage::Save => {
                return true;
            },
            EditorMessage::MarkAllFullCombo => {
                let total: usize = self.data.level_data.len();
                let mut i: usize = 0;
                while i < total
                    invariant
                        i <= total,
                        self.data.level_data@.len() == total,
                        total == old(self).data.level_data@.len(),
                        forall|k: int| 0 <= k < i ==> self.data.level_data@[k]@ == mark_level(
                            old(self).data.level_data@[k]@,
                        ),
                        forall|k: int| i <= k < total ==> self.data.level_data@[k] == old(
                            self,
                        ).data.level_data@[k],
                        self.data == (SaveGame {
                            level_data: self.data.level_data,
                            ..old(self).data
                        }),
                        self.original == old(self).original,
                        self.path == old(self).path,
                    decreases total - i,
                {
                    let level = &mut self.data.level_data[i];
                    mark_level_exec(level);
                    i = i + 1;
                }
                proof {
                    assert(self.data@ =~= mark_all_full_combo(old(self).data@));
                }
            },
            EditorMessage::EditSaveName(v) => self.data.save_name = v,
            EditorMessage::EditPlayerID(v) => self.data.player_id = v,
            EditorMessage::EditSelectedLanguage(v) => self.data.selected_language = v,
            EditorMessage::EditShouldDisplayDialogueDebug(v) => self
                .data
                .should_display_dialogue_debug = v,
            EditorMessage::EditShouldUnlockAllLevels(v) => self.data.should_unlock_all_levels =
                v,
            EditorMessage::EditHasInputDragonDance(v) => self.data.has_input_dragon_dance = v,
            EditorMessage::EditIsRemixModeActive(v) => self.data.is_remix_mode_active = v,
            EditorMessage::EditShouldPlayAllStoryContentInOrder(v) => self
                .data
                .should_play_all_story_content_in_order = v,
            EditorMessage::EditGameDataVersion(v) => self.data.game_data_version = v,
            EditorMessage::EditSaveDataVersion(v) => self.data.save_data_version = v,
            EditorMessage::EditTimesBooted(v) => self.data.times_booted = v,
            EditorMessage::EditSaveId(v) => self.data.save_id = v,
            EditorMessage::EditFramerateLimit(v) => self.data.framerate_limit = v,
            EditorMessage::EditSelectedStoryDifficulty(v) => self
                .data
                .selected_story_difficulty = v,
            EditorMessage::EditSelectedArcadeDifficulty(v) => self
                .data
                .selected_arcade_difficulty = v,
            EditorMessage::EditTotalRhythmRiftsCleared(v) => self
                .data
                .total_rhythm_rifts_cleared = v,
            EditorMessage::EditTotalDiamonds(v) => self.data.total_diamonds = v,
            EditorMessage::EditVibePowerUses(v) => self.data.total_vibe_power_uses = v,
            EditorMessage::EditMaxEnemiesKilledWhileVibing(v) => self
                .data
                .max_enemies_killed_while_vibing = v,
            EditorMessage::EditBBTotalAttacks(v) => self.data.bb_total_attacks = v,
            EditorMessage::EditBBTotalDodges(v) => self.data.bb_total_dodges = v,
            EditorMessage::EditBBTotalBlockedHits(v) => self.data.bb_total_blocked_hits = v,
            EditorMessage::LevelEdit { index, message: inner } => {
                if index < self.data.level_data.len() {
                    let level = &mut self.data.level_data[index];
                    apply_level_edit_exec(level, inner);
                    proof {
                        assert(self.data@ =~= apply_edit(old(self).data@, message));
                    }
                } else {
                    proof {
                        assert(self.data@ =~= apply_edit(old(self).data@, message));
                    }
                }
            },
        }
        proof {
            assert(self.data@ =~= apply_edit(old(self).data@, message));
        }
        false
    }

    /// Marks the current document as persisted: the baseline becomes a
    /// copy of the current document, so every dirty predicate reads
    /// false. Called by the shell after the overwrite succeeded.
    pub fn commit_saved(&mut self)
        ensures
            final(self).data == old(self).data,
            final(self).original@ == old(self).data@,
            final(self).path == old(self).path,
    {
        self.original = self.data.clone();
    }
}

} // verus!
