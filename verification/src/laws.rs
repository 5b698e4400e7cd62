//! Laws of the edit dispatcher, stated and proved once for all
//! documents and commands.
//!
//! Each editor command that edits a field addresses exactly one value;
//! [`target_path`] names that address as a path selector. The laws say:
//! a command whose index chain falls out of bounds changes nothing; a
//! command that resolves sets exactly its addressed value and no other;
//! the dirty predicate of the addressed field afterwards compares the
//! new value against the baseline; and the bulk full-combo action sets
//! the flags it promises, only ever lowers the clamped counters, and is
//! idempotent.
use crate::editor::{
    apply_diff_edit, apply_edit, apply_level_edit, mark_all_full_combo, mark_diff, mark_level,
    EditorMessage, LevelEditHighScoreDataMessage, LevelEditMessage,
};
use crate::models::{DiffView, DocView, LevelView};
use vstd::prelude::*;

verus! {

/// One editable scalar value: a string, a counter, or a flag.
pub enum FieldValue {
    S(Seq<char>),
    N(u64),
    B(bool),
}

/// The document-level scalar fields an editor command can address.
pub enum DocField {
    SaveName,
    PlayerID,
    SelectedLanguage,
    ShouldDisplayDialogueDebug,
    ShouldUnlockAllLevels,
    HasInputDragonDance,
    IsRemixModeActive,
    ShouldPlayAllStoryContentInOrder,
    GameDataVersion,
    SaveDataVersion,
    TimesBooted,
    SaveId,
    FramerateLimit,
    SelectedStoryDifficulty,
    SelectedArcadeDifficulty,
    TotalRhythmRiftsCleared,
    TotalDiamonds,
    VibePowerUses,
    MaxEnemiesKilledWhileVibing,
    BBTotalAttacks,
    BBTotalDodges,
    BBTotalBlockedHits,
}

/// The level-level scalar fields an editor command can address.
pub enum LevelField {
    LevelId,
    StageType,
    WasCompletedInStoryMode,
    WasAttemptedInStoryMode,
    WasSkippedInStoryMode,
    AwardedDiamonds,
    AwardedDiamondsRemix,
}

/// The fields of a difficulty record an editor command can address.
pub enum DiffField {
    Difficulty,
    HighScore,
    LetterGrade,
    MaxComboCount,
    NumAttempts,
    NumClears,
    NumRetries,
    NumGameOvers,
    HasAllPerfects,
    HasFullComboRhythmRift,
}

/// A path selector: which field, under which index chain.
pub enum FieldPath {
    Doc(DocField),
    Level(int, LevelField),
    Diff(int, int, DiffField),
}

/// The field a difficulty-record edit addresses.
pub open spec fn diff_field_of(m: LevelEditHighScoreDataMessage) -> DiffField {
    match m {
        LevelEditHighScoreDataMessage::EditDifficulty(_) => DiffField::Difficulty,
        LevelEditHighScoreDataMessage::EditHighScore(_) => DiffField::HighScore,
        LevelEditHighScoreDataMessage::EditLetterGrade(_) => DiffField::LetterGrade,
        LevelEditHighScoreDataMessage::EditMaxComboCount(_) => DiffField::MaxComboCount,
        LevelEditHighScoreDataMessage::EditNumAttempts(_) => DiffField::NumAttempts,
        LevelEditHighScoreDataMessage::EditNumClears(_) => DiffField::NumClears,
        LevelEditHighScoreDataMessage::EditNumRetries(_) => DiffField::NumRetries,
        LevelEditHighScoreDataMessage::EditNumGameOvers(_) => DiffField::NumGameOvers,
        LevelEditHighScoreDataMessage::EditHasAllPerfects(_) => DiffField::HasAllPerfects,
        LevelEditHighScoreDataMessage::EditHasFullComboRhythmRift(_) => (
        DiffField::HasFullComboRhythmRift),
    }
}

/// The path a command addresses, or nothing for the commands that are
/// not field edits (save, mark-all-full-combo).
pub open spec fn target_path(m: EditorMessage) -> Option<FieldPath> {
    match m {
        EditorMessage::Save => None,
        EditorMessage::MarkAllFullCombo => None,
        EditorMessage::EditSaveName(_) => Some(FieldPath::Doc(DocField::SaveName)),
        EditorMessage::EditPlayerID(_) => Some(FieldPath::Doc(DocField::PlayerID)),
        EditorMessage::EditSelectedLanguage(_) => Some(
            FieldPath::Doc(DocField::SelectedLanguage),
        ),
        EditorMessage::EditShouldDisplayDialogueDebug(_) => Some(
            FieldPath::Doc(DocField::ShouldDisplayDialogueDebug),
        ),
        EditorMessage::EditShouldUnlockAllLevels(_) => Some(
            FieldPath::Doc(DocField::ShouldUnlockAllLevels),
        ),
        EditorMessage::EditHasInputDragonDance(_) => Some(
            FieldPath::Doc(DocField::HasInputDragonDance),
        ),
        EditorMessage::EditIsRemixModeActive(_) => Some(
            FieldPath::Doc(DocField::IsRemixModeActive),
        ),
        EditorMessage::EditShouldPlayAllStoryContentInOrder(_) => Some(
            FieldPath::Doc(DocField::ShouldPlayAllStoryContentInOrder),
        ),
        EditorMessage::EditGameDataVersion(_) => Some(
            FieldPath::Doc(DocField::GameDataVersion),
        ),
        EditorMessage::EditSaveDataVersion(_) => Some(
            FieldPath::Doc(DocField::SaveDataVersion),
        ),
        EditorMessage::EditTimesBooted(_) => Some(FieldPath::Doc(DocField::TimesBooted)),
        EditorMessage::EditSaveId(_) => Some(FieldPath::Doc(DocField::SaveId)),
        EditorMessage::EditFramerateLimit(_) => Some(FieldPath::Doc(DocField::FramerateLimit)),
        EditorMessage::EditSelectedStoryDifficulty(_) => Some(
            FieldPath::Doc(DocField::SelectedStoryDifficulty),
        ),
        EditorMessage::EditSelectedArcadeDifficulty(_) => Some(
            FieldPath::Doc(DocField::SelectedArcadeDifficulty),
        ),
        EditorMessage::EditTotalRhythmRiftsCleared(_) => Some(
            FieldPath::Doc(DocField::TotalRhythmRiftsCleared),
        ),
        EditorMessage::EditTotalDiamonds(_) => Some(FieldPath::Doc(DocField::TotalDiamonds)),
        EditorMessage::EditVibePowerUses(_) => Some(FieldPath::Doc(DocField::VibePowerUses)),
        EditorMessage::EditMaxEnemiesKilledWhileVibing(_) => Some(
            FieldPath::Doc(DocField::MaxEnemiesKilledWhileVibing),
        ),
        EditorMessage::EditBBTotalAttacks(_) => Some(FieldPath::Doc(DocField::BBTotalAttacks)),
        EditorMessage::EditBBTotalDodges(_) => Some(FieldPath::Doc(DocField::BBTotalDodges)),
        EditorMessage::EditBBTotalBlockedHits(_) => Some(
            FieldPath::Doc(DocField::BBTotalBlockedHits),
        ),
        EditorMessage::LevelEdit { index, message } => Some(
            match message {
                LevelEditMessage::EditLevelId(_) => FieldPath::Level(
                    index as int,
                    LevelField::LevelId,
                ),
                LevelEditMessage::EditStageType(_) => FieldPath::Level(
                    index as int,
                    LevelField::StageType,
                ),
                LevelEditMessage::EditWasCompletedInStoryMode(_) => FieldPath::Level(
                    index as int,
                    LevelField::WasCompletedInStoryMode,
                ),
                LevelEditMessage::EditWasAttemptedInStoryMode(_) => FieldPath::Level(
                    index as int,
                    LevelField::WasAttemptedInStoryMode,
                ),
                LevelEditMessage::EditWasSkippedInStoryMode(_) => FieldPath::Level(
                    index as int,
                    LevelField::WasSkippedInStoryMode,
                ),
                LevelEditMessage::EditAwardedDiamonds(_) => FieldPath::Level(
                    index as int,
                    LevelField::AwardedDiamonds,
                ),
                LevelEditMessage::EditAwardedDiamondsRemix(_) => FieldPath::Level(
                    index as int,
                    LevelField::AwardedDiamondsRemix,
                ),
                LevelEditMessage::EditHighScoreData { index: j, message: mm } => FieldPath::Diff(
                    index as int,
                    j as int,
                    diff_field_of(mm),
                ),
            },
        ),
    }
}

/// Whether a command is a field edit (rather than save or the bulk
/// action).
pub open spec fn is_field_edit(m: EditorMessage) -> bool {
    target_path(m) is Some
}

/// The value a field edit carries.
pub open spec fn edit_new_value(m: EditorMessage) -> Option<FieldValue> {
    match m {
        EditorMessage::Save => None,
        EditorMessage::MarkAllFullCombo => None,
        EditorMessage::EditSaveName(v) => Some(FieldValue::S(v@)),
        EditorMessage::EditPlayerID(v) => Some(FieldValue::S(v@)),
        EditorMessage::EditSelectedLanguage(v) => Some(FieldValue::S(v@)),
        EditorMessage::EditShouldDisplayDialogueDebug(v) => Some(FieldValue::B(v)),
        EditorMessage::EditShouldUnlockAllLevels(v) => Some(FieldValue::B(v)),
        EditorMessage::EditHasInputDragonDance(v) => Some(FieldValue::B(v)),
        EditorMessage::EditIsRemixModeActive(v) => Some(FieldValue::B(v)),
        EditorMessage::EditShouldPlayAllStoryContentInOrder(v) => Some(FieldValue::B(v)),
        EditorMessage::EditGameDataVersion(v) => Some(FieldValue::N(v)),
        EditorMessage::EditSaveDataVersion(v) => Some(FieldValue::N(v)),
        EditorMessage::EditTimesBooted(v) => Some(FieldValue::N(v)),
        EditorMessage::EditSaveId(v) => Some(FieldValue::N(v)),
        EditorMessage::EditFramerateLimit(v) => Some(FieldValue::N(v)),
        EditorMessage::EditSelectedStoryDifficulty(v) => Some(FieldValue::N(v)),
        EditorMessage::EditSelectedArcadeDifficulty(v) => Some(FieldValue::N(v)),
        EditorMessage::EditTotalRhythmRiftsCleared(v) => Some(FieldValue::N(v)),
        EditorMessage::EditTotalDiamonds(v) => Some(FieldValue::N(v)),
        EditorMessage::EditVibePowerUses(v) => Some(FieldValue::N(v)),
        EditorMessage::EditMaxEnemiesKilledWhileVibing(v) => Some(FieldValue::N(v)),
        EditorMessage::EditBBTotalAttacks(v) => Some(FieldValue::N(v)),
        EditorMessage::EditBBTotalDodges(v) => Some(FieldValue::N(v)),
        EditorMessage::EditBBTotalBlockedHits(v) => Some(FieldValue::N(v)),
        EditorMessage::LevelEdit { index: _, message } => Some(
            match message {
                LevelEditMessage::EditLevelId(v) => FieldValue::S(v@),
                LevelEditMessage::EditStageType(v) => FieldValue::N(v),
                LevelEditMessage::EditWasCompletedInStoryMode(v) => FieldValue::B(v),
                LevelEditMessage::EditWasAttemptedInStoryMode(v) => FieldValue::B(v),
                LevelEditMessage::EditWasSkippedInStoryMode(v) => FieldValue::B(v),
                LevelEditMessage::EditAwardedDiamonds(v) => FieldValue::N(v),
                LevelEditMessage::EditAwardedDiamondsRemix(v) => FieldValue::N(v),
                LevelEditMessage::EditHighScoreData { index: _, message: mm } => match mm {
                    LevelEditHighScoreDataMessage::EditDifficulty(v) => FieldValue::N(v),
                    LevelEditHighScoreDataMessage::EditHighScore(v) => FieldValue::N(v),
                    LevelEditHighScoreDataMessage::EditLetterGrade(v) => FieldValue::S(v@),
                    LevelEditHighScoreDataMessage::EditMaxComboCount(v) => FieldValue::N(v),
                    LevelEditHighScoreDataMessage::EditNumAttempts(v) => FieldValue::N(v),
                    LevelEditHighScoreDataMessage::EditNumClears(v) => FieldValue::N(v),
                    LevelEditHighScoreDataMessage::EditNumRetries(v) => FieldValue::N(v),
                    LevelEditHighScoreDataMessage::EditNumGameOvers(v) => FieldValue::N(v),
                    LevelEditHighScoreDataMessage::EditHasAllPerfects(v) => FieldValue::B(v),
                    LevelEditHighScoreDataMessage::EditHasFullComboRhythmRift(v) => (
                    FieldValue::B(v)),
                },
            },
        ),
    }
}

/// The value stored in a difficulty record at an addressed field.
pub open spec fn diff_value_at(h: DiffView, f: DiffField) -> FieldValue {
    match f {
        DiffField::Difficulty => FieldValue::N(h.difficulty),
        DiffField::HighScore => FieldValue::N(h.high_score),
        DiffField::LetterGrade => FieldValue::S(h.letter_grade),
        DiffField::MaxComboCount => FieldValue::N(h.max_combo_count),
        DiffField::NumAttempts => FieldValue::N(h.num_attempts),
        DiffField::NumClears => FieldValue::N(h.num_clears),
        DiffField::NumRetries => FieldValue::N(h.num_retries),
        DiffField::NumGameOvers => FieldValue::N(h.num_game_overs),
        DiffField::HasAllPerfects => FieldValue::B(h.has_all_perfects),
        DiffField::HasFullComboRhythmRift => FieldValue::B(h.has_full_combo_rhythm_rift),
    }
}

/// The value stored in a level at an addressed scalar field.
pub open spec fn level_value_at(l: LevelView, f: LevelField) -> FieldValue {
    match f {
        LevelField::LevelId => FieldValue::S(l.level_id),
        LevelField::StageType => FieldValue::N(l.stage_type),
        LevelField::WasCompletedInStoryMode => FieldValue::B(l.was_completed_in_story_mode),
        LevelField::WasAttemptedInStoryMode => FieldValue::B(l.was_attempted_in_story_mode),
        LevelField::WasSkippedInStoryMode => FieldValue::B(l.was_skipped_in_story_mode),
        LevelField::AwardedDiamonds => FieldValue::N(l.awarded_diamonds),
        LevelField::AwardedDiamondsRemix => FieldValue::N(l.awarded_diamonds_remix),
    }
}

/// The value stored in a document at an addressed document-level field.
pub open spec fn doc_value_at(d: DocView, f: DocField) -> FieldValue {
    match f {
        DocField::SaveName => FieldValue::S(d.save_name),
        DocField::PlayerID => FieldValue::S(d.player_id),
        DocField::SelectedLanguage => FieldValue::S(d.selected_language),
        DocField::ShouldDisplayDialogueDebug => FieldValue::B(d.should_display_dialogue_debug),
        DocField::ShouldUnlockAllLevels => FieldValue::B(d.should_unlock_all_levels),
        DocField::HasInputDragonDance => FieldValue::B(d.has_input_dragon_dance),
        DocField::IsRemixModeActive => FieldValue::B(d.is_remix_mode_active),
        DocField::ShouldPlayAllStoryContentInOrder => FieldValue::B(
            d.should_play_all_story_content_in_order,
        ),
        DocField::GameDataVersion => FieldValue::N(d.game_data_version),
        DocField::SaveDataVersion => FieldValue::N(d.save_data_version),
        DocField::TimesBooted => FieldValue::N(d.times_booted),
        DocField::SaveId => FieldValue::N(d.save_id),
        DocField::FramerateLimit => FieldValue::N(d.framerate_limit),
        DocField::SelectedStoryDifficulty => FieldValue::N(d.selected_story_difficulty),
        DocField::SelectedArcadeDifficulty => FieldValue::N(d.selected_arcade_difficulty),
        DocField::TotalRhythmRiftsCleared => FieldValue::N(d.total_rhythm_rifts_cleared),
        DocField::TotalDiamonds => FieldValue::N(d.total_diamonds),
        DocField::VibePowerUses => FieldValue::N(d.total_vibe_power_uses),
        DocField::MaxEnemiesKilledWhileVibing => FieldValue::N(
            d.max_enemies_killed_while_vibing,
        ),
        DocField::BBTotalAttacks => FieldValue::N(d.bb_total_attacks),
        DocField::BBTotalDodges => FieldValue::N(d.bb_total_dodges),
        DocField::BBTotalBlockedHits => FieldValue::N(d.bb_total_blocked_hits),
    }
}

/// The value a document stores at a path selector; nothing when the
/// path's index chain falls out of bounds.
pub open spec fn value_at_path(d: DocView, p: FieldPath) -> Option<FieldValue> {
    match p {
        FieldPath::Doc(f) => Some(doc_value_at(d, f)),
        FieldPath::Level(i, f) => {
            if 0 <= i < d.level_data.len() {
                Some(level_value_at(d.level_data[i], f))
            } else {
                None
            }
        },
        FieldPath::Diff(i, j, f) => {
            if 0 <= i < d.level_data.len() && 0 <= j < d.level_data[i].difficulty_data.len() {
                Some(diff_value_at(d.level_data[i].difficulty_data[j], f))
            } else {
                None
            }
        },
    }
}

/// The value a command's own target holds in a document.
pub open spec fn edit_target_value(d: DocView, m: EditorMessage) -> Option<FieldValue> {
    match target_path(m) {
        Some(p) => value_at_path(d, p),
        None => None,
    }
}

/// Whether a field edit resolves against a document: its whole index
/// chain is in bounds.
pub open spec fn edit_resolves(d: DocView, m: EditorMessage) -> bool {
    is_field_edit(m) && edit_target_value(d, m) is Some
}

/// The per-field dirty predicate: the addressed value differs between
/// the current document and the baseline.
pub open spec fn dirty_at(cur: DocView, orig: DocView, p: FieldPath) -> bool {
    value_at_path(cur, p) != value_at_path(orig, p)
}

/// Two identical documents are clean: no path selector is dirty. After
/// a successful save replaces the baseline with a copy of the current
/// document, every dirty predicate therefore reads false.
pub proof fn lemma_identical_documents_are_clean(d: DocView, p: FieldPath)
    ensures
        !dirty_at(d, d, p),
{
}

/// A field edit that does not resolve is a no-op: the document is
/// unchanged, byte for byte.
pub proof fn lemma_out_of_bounds_edit_is_no_op(d: DocView, m: EditorMessage)
    requires
        is_field_edit(m),
        !edit_resolves(d, m),
    ensures
        apply_edit(d, m) == d,
{
    match m {
        EditorMessage::LevelEdit { index, message } => {
            if index < d.level_data.len() {
                match message {
                    LevelEditMessage::EditHighScoreData { index: j, message: mm } => {
                        assert(apply_level_edit(d.level_data[index as int], message) == d
                            .level_data[index as int]);
                        assert(d.level_data.update(index as int, d.level_data[index as int])
                            =~= d.level_data);
                        assert(apply_edit(d, m) =~= d);
                    },
                    _ => {},
                }
            } else {
                assert(apply_edit(d, m) == d);
            }
        },
        _ => {},
    }
}

/// A resolving field edit stores exactly the carried value at its own
/// path.
pub proof fn lemma_edit_sets_target(d: DocView, m: EditorMessage)
    requires
        edit_resolves(d, m),
    ensures
        edit_target_value(apply_edit(d, m), m) == edit_new_value(m),
{
    match m {
        EditorMessage::LevelEdit { index, message } => {
            let i = index as int;
            let l2 = apply_level_edit(d.level_data[i], message);
            assert(apply_edit(d, m).level_data[i] == l2);
            match message {
                LevelEditMessage::EditHighScoreData { index: j, message: mm } => {
                    assert(l2.difficulty_data[j as int] == apply_diff_edit(
                        d.level_data[i].difficulty_data[j as int],
                        mm,
                    ));
                },
                _ => {},
            }
        },
        _ => {},
    }
}

/// A difficulty-record edit leaves every other field of that record
/// unchanged.
proof fn lemma_diff_frame(h: DiffView, m: LevelEditHighScoreDataMessage, f: DiffField)
    requires
        f != diff_field_of(m),
    ensures
        diff_value_at(apply_diff_edit(h, m), f) == diff_value_at(h, f),
{
}

/// A level edit leaves every value at a different path under that level
/// unchanged, and keeps the difficulty sequence's length.
proof fn lemma_level_frame(l: LevelView, m1: LevelEditMessage, m2p: FieldPath, i: int)
    requires
        (match m1 {
            LevelEditMessage::EditHighScoreData { index: j, message: mm } => (
            FieldPath::Diff(i, j as int, diff_field_of(mm))),
            LevelEditMessage::EditLevelId(_) => FieldPath::Level(i, LevelField::LevelId),
            LevelEditMessage::EditStageType(_) => FieldPath::Level(i, LevelField::StageType),
            LevelEditMessage::EditWasCompletedInStoryMode(_) => FieldPath::Level(
                i,
                LevelField::WasCompletedInStoryMode,
            ),
            LevelEditMessage::EditWasAttemptedInStoryMode(_) => FieldPath::Level(
                i,
                LevelField::WasAttemptedInStoryMode,
            ),
            LevelEditMessage::EditWasSkippedInStoryMode(_) => FieldPath::Level(
                i,
                LevelField::WasSkippedInStoryMode,
            ),
            LevelEditMessage::EditAwardedDiamonds(_) => FieldPath::Level(
                i,
                LevelField::AwardedDiamonds,
            ),
            LevelEditMessage::EditAwardedDiamondsRemix(_) => FieldPath::Level(
                i,
                LevelField::AwardedDiamondsRemix,
            ),
        }) != m2p,
        (match m2p {
            FieldPath::Level(i2, _) => i2 == i,
            FieldPath::Diff(i2, _, _) => i2 == i,
            FieldPath::Doc(_) => false,
        }),
    ensures
        apply_level_edit(l, m1).difficulty_data.len() == l.difficulty_data.len(),
        (match m2p {
            FieldPath::Level(_, f) => level_value_at(apply_level_edit(l, m1), f)
                == level_value_at(l, f),
            FieldPath::Diff(_, j, f) => {
                (0 <= j < l.difficulty_data.len()) ==> diff_value_at(
                    apply_level_edit(l, m1).difficulty_data[j],
                    f,
                ) == diff_value_at(l.difficulty_data[j], f)
            },
            FieldPath::Doc(_) => true,
        }),
{
    match m1 {
        LevelEditMessage::EditHighScoreData { index: j1, message: mm1 } => {
            if j1 < l.difficulty_data.len() {
                match m2p {
                    FieldPath::Diff(_, j2, f2) => {
                        if 0 <= j2 < l.difficulty_data.len() {
                            if j2 == j1 as int {
                                lemma_diff_frame(l.difficulty_data[j2], mm1, f2);
                            }
                        }
                    },
                    _ => {},
                }
            }
        },
        _ => {},
    }
}

/// A resolving field edit changes no value at any other path: reading
/// any different path afterwards gives exactly what it gave before.
pub proof fn lemma_edit_frame(d: DocView, m: EditorMessage, p: FieldPath)
    requires
        edit_resolves(d, m),
        target_path(m) != Some(p),
    ensures
        value_at_path(apply_edit(d, m), p) == value_at_path(d, p),
{
    let d2 = apply_edit(d, m);
    match m {
        EditorMessage::LevelEdit { index, message } => {
            let i1 = index as int;
            assert(d2.level_data =~= d.level_data.update(
                i1,
                apply_level_edit(d.level_data[i1], message),
            ));
            match p {
                FieldPath::Doc(_) => {},
                FieldPath::Level(i2, f2) => {
                    if 0 <= i2 < d.level_data.len() && i2 == i1 {
                        lemma_level_frame(d.level_data[i1], message, p, i1);
                    }
                },
                FieldPath::Diff(i2, j2, f2) => {
                    if 0 <= i2 < d.level_data.len() {
                        if i2 == i1 {
                            lemma_level_frame(d.level_data[i1], message, p, i1);
                        }
                    }
                },
            }
        },
        _ => {},
    }
}

/// After a resolving field edit, the edited field is dirty against a
/// baseline exactly when the new value differs from the baseline's
/// value at that path.
pub proof fn lemma_edit_dirty(cur: DocView, orig: DocView, m: EditorMessage)
    requires
        edit_resolves(cur, m),
    ensures
        dirty_at(apply_edit(cur, m), orig, target_path(m).unwrap()) <==> edit_new_value(m)
            != value_at_path(orig, target_path(m).unwrap()),
{
    lemma_edit_sets_target(cur, m);
}

/// The full-combo clamp on one record is idempotent.
proof fn lemma_mark_diff_idempotent(h: DiffView)
    ensures
        mark_diff(mark_diff(h)) == mark_diff(h),
{
}

/// The full-combo marking of one level is idempotent.
proof fn lemma_mark_level_idempotent(l: LevelView)
    ensures
        mark_level(mark_level(l)) == mark_level(l),
{
    let l1 = mark_level(l);
    assert(mark_level(l1).difficulty_data =~= l1.difficulty_data);
    assert(mark_level(l1).remix_difficulty_data =~= l1.remix_difficulty_data);
    assert(mark_level(l1) =~= l1);
}

/// Marking the whole document as full combo sets both story-mode flags
/// of every level and clamps every difficulty record under every level,
/// in the normal and the remix sequence alike: attempt and retry
/// counters at most one (never raised), both quality flags set;
/// everything else is unchanged.
pub proof fn lemma_mark_all_full_combo_props(d: DocView)
    ensures
        mark_all_full_combo(d).level_data.len() == d.level_data.len(),
        forall|i: int|
            0 <= i < d.level_data.len() ==> #[trigger] mark_all_full_combo(d).level_data[i]
                == mark_level(d.level_data[i]),
        forall|i: int|
            0 <= i < d.level_data.len() ==> (#[trigger] mark_level(
                d.level_data[i],
            )).was_attempted_in_story_mode && mark_level(
                d.level_data[i],
            ).was_completed_in_story_mode && mark_level(d.level_data[i]).difficulty_data.len()
                == d.level_data[i].difficulty_data.len() && mark_level(
                d.level_data[i],
            ).remix_difficulty_data.len() == d.level_data[i].remix_difficulty_data.len(),
        forall|i: int, j: int|
            0 <= i < d.level_data.len() && 0 <= j < d.level_data[i].difficulty_data.len()
                ==> #[trigger] mark_level(d.level_data[i]).difficulty_data[j] == mark_diff(
                d.level_data[i].difficulty_data[j],
            ),
        forall|i: int, j: int|
            0 <= i < d.level_data.len() && 0 <= j < d.level_data[i].remix_difficulty_data.len()
                ==> #[trigger] mark_level(d.level_data[i]).remix_difficulty_data[j] == mark_diff(
                d.level_data[i].remix_difficulty_data[j],
            ),
        forall|h: DiffView|
            #![trigger mark_diff(h)]
            mark_diff(h).num_attempts <= 1 && mark_diff(h).num_retries <= 1 && mark_diff(
                h,
            ).num_attempts <= h.num_attempts && mark_diff(h).num_retries <= h.num_retries
                && mark_diff(h).has_all_perfects && mark_diff(h).has_full_combo_rhythm_rift,
{
}

/// Marking the whole document as full combo twice gives the same
/// document as marking it once.
pub proof fn lemma_mark_all_full_combo_idempotent(d: DocView)
    ensures
        mark_all_full_combo(mark_all_full_combo(d)) == mark_all_full_combo(d),
{
    let d1 = mark_all_full_combo(d);
    assert forall|i: int| 0 <= i < d1.level_data.len() implies mark_level(
        #[trigger] d1.level_data[i],
    ) == d1.level_data[i] by {
        lemma_mark_level_idempotent(d.level_data[i]);
    }
    assert(mark_all_full_combo(d1).level_data =~= d1.level_data);
    assert(mark_all_full_combo(d1) =~= d1);
}

} // verus!
