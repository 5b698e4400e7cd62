//! The document model: the save-game record and its nested collections.
//!
//! Every type carries a mathematical view (`DocView` and friends) over
//! `Seq` and plain values; all contracts in this crate are stated over
//! those views.
use vstd::prelude::*;

verus! {

/// One difficulty tier's statistics under a level.
#[derive(Debug, PartialEq, Eq)]
pub struct DifficultyData {
    pub difficulty: u64,
    pub high_score: u64,
    pub letter_grade: String,
    pub max_combo_count: u64,
    pub num_attempts: u64,
    pub num_clears: u64,
    pub num_retries: u64,
    pub num_game_overs: u64,
    pub has_all_perfects: bool,
    pub has_full_combo_rhythm_rift: bool,
}

/// Mathematical view of [`DifficultyData`].
#[verifier::ext_equal]
pub struct DiffView {
    pub difficulty: u64,
    pub high_score: u64,
    pub letter_grade: Seq<char>,
    pub max_combo_count: u64,
    pub num_attempts: u64,
    pub num_clears: u64,
    pub num_retries: u64,
    pub num_game_overs: u64,
    pub has_all_perfects: bool,
    pub has_full_combo_rhythm_rift: bool,
}

impl View for DifficultyData {
    type V = DiffView;

    open spec fn view(&self) -> DiffView {
        DiffView {
            difficulty: self.difficulty,
            high_score: self.high_score,
            letter_grade: self.letter_grade@,
            max_combo_count: self.max_combo_count,
            num_attempts: self.num_attempts,
            num_clears: self.num_clears,
            num_retries: self.num_retries,
            num_game_overs: self.num_game_overs,
            has_all_perfects: self.has_all_perfects,
            has_full_combo_rhythm_rift: self.has_full_combo_rhythm_rift,
        }
    }
}

impl Clone for DifficultyData {
    fn clone(&self) -> (r: Self)
        ensures
            r@ == self@,
    {
        DifficultyData {
            difficulty: self.difficulty,
            high_score: self.high_score,
            letter_grade: self.letter_grade.clone(),
            max_combo_count: self.max_combo_count,
            num_attempts: self.num_attempts,
            num_clears: self.num_clears,
            num_retries: self.num_retries,
            num_game_overs: self.num_game_overs,
            has_all_perfects: self.has_all_perfects,
            has_full_combo_rhythm_rift: self.has_full_combo_rhythm_rift,
        }
    }
}

/// One level record: scalar fields plus the two difficulty sequences.
#[derive(Debug, PartialEq, Eq)]
pub struct LevelData {
    pub level_id: String,
    pub stage_type: u64,
    pub was_completed_in_story_mode: bool,
    pub was_attempted_in_story_mode: bool,
    pub was_skipped_in_story_mode: bool,
    pub awarded_diamonds: u64,
    pub awarded_diamonds_remix: u64,
    pub difficulty_data: Vec<DifficultyData>,
    pub remix_difficulty_data: Vec<DifficultyData>,
}

/// Mathematical view of [`LevelData`].
#[verifier::ext_equal]
pub struct LevelView {
    pub level_id: Seq<char>,
    pub stage_type: u64,
    pub was_completed_in_story_mode: bool,
    pub was_attempted_in_story_mode: bool,
    pub was_skipped_in_story_mode: bool,
    pub awarded_diamonds: u64,
    pub awarded_diamonds_remix: u64,
    pub difficulty_data: Seq<DiffView>,
    pub remix_difficulty_data: Seq<DiffView>,
}

impl View for LevelData {
    type V = LevelView;

    open spec fn view(&self) -> LevelView {
        LevelView {
            level_id: self.level_id@,
            stage_type: self.stage_type,
            was_completed_in_story_mode: self.was_completed_in_story_mode,
            was_attempted_in_story_mode: self.was_attempted_in_story_mode,
            was_skipped_in_story_mode: self.was_skipped_in_story_mode,
            awarded_diamonds: self.awarded_diamonds,
            awarded_diamonds_remix: self.awarded_diamonds_remix,
            difficulty_data: self.difficulty_data@.map_values(|d: DifficultyData| d@),
            remix_difficulty_data: self.remix_difficulty_data@.map_values(
                |d: DifficultyData| d@,
            ),
        }
    }
}

/// One beat of a storyline: a level reference and its play count.
#[derive(Debug, PartialEq, Eq)]
pub struct StoryBeatData {
    pub level_id: String,
    pub times_played: u64,
}

/// Mathematical view of [`StoryBeatData`].
#[verifier::ext_equal]
pub struct BeatView {
    pub level_id: Seq<char>,
    pub times_played: u64,
}

impl View for StoryBeatData {
    type V = BeatView;

    open spec fn view(&self) -> BeatView {
        BeatView { level_id: self.level_id@, times_played: self.times_played }
    }
}

impl Clone for StoryBeatData {
    fn clone(&self) -> (r: Self)
        ensures
            r@ == self@,
    {
        StoryBeatData { level_id: self.level_id.clone(), times_played: self.times_played }
    }
}

/// One storyline record and its ordered story beats.
#[derive(Debug, PartialEq, Eq)]
pub struct StorylineData {
    pub storyline_characters: u64,
    pub has_unlocked_storyline: bool,
    pub has_completed_storyline: bool,
    pub story_beat_data: Vec<StoryBeatData>,
}

/// Mathematical view of [`StorylineData`].
#[verifier::ext_equal]
pub struct StorylineView {
    pub storyline_characters: u64,
    pub has_unlocked_storyline: bool,
    pub has_completed_storyline: bool,
    pub story_beat_data: Seq<BeatView>,
}

impl View for StorylineData {
    type V = StorylineView;

    open spec fn view(&self) -> StorylineView {
        StorylineView {
            storyline_characters: self.storyline_characters,
            has_unlocked_storyline: self.has_unlocked_storyline,
            has_completed_storyline: self.has_completed_storyline,
            story_beat_data: self.story_beat_data@.map_values(|b: StoryBeatData| b@),
        }
    }
}

/// Kill and death counters for one enemy kind.
#[derive(Debug, PartialEq, Eq)]
pub struct EnemyKillCount {
    pub enemy_id: u64,
    pub number_of_kills: u64,
    pub number_of_deaths: u64,
}

/// Mathematical view of [`EnemyKillCount`].
#[verifier::ext_equal]
pub struct KillView {
    pub enemy_id: u64,
    pub number_of_kills: u64,
    pub number_of_deaths: u64,
}

impl View for EnemyKillCount {
    type V = KillView;

    open spec fn view(&self) -> KillView {
        KillView {
            enemy_id: self.enemy_id,
            number_of_kills: self.number_of_kills,
            number_of_deaths: self.number_of_deaths,
        }
    }
}

impl Clone for EnemyKillCount {
    fn clone(&self) -> (r: Self)
        ensures
            r@ == self@,
    {
        EnemyKillCount {
            enemy_id: self.enemy_id,
            number_of_kills: self.number_of_kills,
            number_of_deaths: self.number_of_deaths,
        }
    }
}

/// The full save-game record.
#[derive(Debug, PartialEq, Eq)]
pub struct SaveGame {
    pub save_name: String,
    pub game_data_version: u64,
    pub save_data_version: u64,
    pub times_booted: u64,
    pub save_id: u64,
    pub player_id: String,
    pub selected_language: String,
    pub framerate_limit: u64,
    pub level_data: Vec<LevelData>,
    pub storyline_data: Vec<StorylineData>,
    pub active_cosmetic_pin: String,
    pub active_gameplay_pin: String,
    pub should_display_dialogue_debug: bool,
    pub should_unlock_all_levels: bool,
    pub has_input_dragon_dance: bool,
    pub selected_story_difficulty: u64,
    pub selected_arcade_difficulty: u64,
    pub selected_track_sorting_order: u64,
    pub selected_custom_music_sorting_order: u64,
    pub is_remix_mode_active: bool,
    pub should_play_all_story_content_in_order: bool,
    pub enemy_kill_counts_by_id: Vec<EnemyKillCount>,
    pub total_rhythm_rifts_cleared: u64,
    pub has_seen_splash_screens: bool,
    pub has_opened_story_mode: bool,
    pub has_agreed_to_no_streaming: bool,
    pub total_diamonds: u64,
    pub total_vibe_power_uses: u64,
    pub max_enemies_killed_while_vibing: u64,
    pub bb_total_attacks: u64,
    pub bb_total_dodges: u64,
    pub bb_total_blocked_hits: u64,
}

/// Mathematical view of [`SaveGame`].
#[verifier::ext_equal]
pub struct DocView {
    pub save_name: Seq<char>,
    pub game_data_version: u64,
    pub save_data_version: u64,
    pub times_booted: u64,
    pub save_id: u64,
    pub player_id: Seq<char>,
    pub selected_language: Seq<char>,
    pub framerate_limit: u64,
    pub level_data: Seq<LevelView>,
    pub storyline_data: Seq<StorylineView>,
    pub active_cosmetic_pin: Seq<char>,
    pub active_gameplay_pin: Seq<char>,
    pub should_display_dialogue_debug: bool,
    pub should_unlock_all_levels: bool,
    pub has_input_dragon_dance: bool,
    pub selected_story_difficulty: u64,
    pub selected_arcade_difficulty: u64,
    pub selected_track_sorting_order: u64,
    pub selected_custom_music_sorting_order: u64,
    pub is_remix_mode_active: bool,
    pub should_play_all_story_content_in_order: bool,
    pub enemy_kill_counts_by_id: Seq<KillView>,
    pub total_rhythm_rifts_cleared: u64,
    pub has_seen_splash_screens: bool,
    pub has_opened_story_mode: bool,
    pub has_agreed_to_no_streaming: bool,
    pub total_diamonds: u64,
    pub total_vibe_power_uses: u64,
    pub max_enemies_killed_while_vibing: u64,
    pub bb_total_attacks: u64,
    pub bb_total_dodges: u64,
    pub bb_total_blocked_hits: u64,
}

impl View for SaveGame {
    type V = DocView;

    open spec fn view(&self) -> DocView {
        DocView {
            save_name: self.save_name@,
            game_data_version: self.game_data_version,
            save_data_version: self.save_data_version,
            times_booted: self.times_booted,
            save_id: self.save_id,
            player_id: self.player_id@,
            selected_language: self.selected_language@,
            framerate_limit: self.framerate_limit,
            level_data: self.level_data@.map_values(|l: LevelData| l@),
            storyline_data: self.storyline_data@.map_values(|s: StorylineData| s@),
            active_cosmetic_pin: self.active_cosmetic_pin@,
            active_gameplay_pin: self.active_gameplay_pin@,
            should_display_dialogue_debug: self.should_display_dialogue_debug,
            should_unlock_all_levels: self.should_unlock_all_levels,
            has_input_dragon_dance: self.has_input_dragon_dance,
            selected_story_difficulty: self.selected_story_difficulty,
            selected_arcade_difficulty: self.selected_arcade_difficulty,
            selected_track_sorting_order: self.selected_track_sorting_order,
            selected_custom_music_sorting_order: self.selected_custom_music_sorting_order,
            is_remix_mode_active: self.is_remix_mode_active,
            should_play_all_story_content_in_order: self.should_play_all_story_content_in_order,
            enemy_kill_counts_by_id: self.enemy_kill_counts_by_id@.map_values(
                |k: EnemyKillCount| k@,
            ),
            total_rhythm_rifts_cleared: self.total_rhythm_rifts_cleared,
            has_seen_splash_screens: self.has_seen_splash_screens,
            has_opened_story_mode: self.has_opened_story_mode,
            has_agreed_to_no_streaming: self.has_agreed_to_no_streaming,
            total_diamonds: self.total_diamonds,
            total_vibe_power_uses: self.total_vibe_power_uses,
            max_enemies_killed_while_vibing: self.max_enemies_killed_while_vibing,
            bb_total_attacks: self.bb_total_attacks,
            bb_total_dodges: self.bb_total_dodges,
            bb_total_blocked_hits: self.bb_total_blocked_hits,
        }
    }
}

/// Clones a vector of difficulty records, preserving the view.
fn clone_diffs(v: &Vec<DifficultyData>) -> (r: Vec<DifficultyData>)
    ensures
        r@.map_values(|d: DifficultyData| d@) == v@.map_values(|d: DifficultyData| d@),
{
    let mut r: Vec<DifficultyData> = Vec::new();
    let mut i: usize = 0;
    while i < v.len()
        invariant
            i <= v.len(),
            r@.len() == i,
            forall|k: int| 0 <= k < i ==> r@[k]@ == v@[k]@,
        decreases v.len() - i,
    {
        r.push(v[i].clone());
        i = i + 1;
    }
    proof {
        assert(r@.map_values(|d: DifficultyData| d@) =~= v@.map_values(|d: DifficultyData| d@));
    }
    r
}

impl Clone for LevelData {
    fn clone(&self) -> (r: Self)
        ensures
            r@ == self@,
    {
        let r = LevelData {
            level_id: self.level_id.clone(),
            stage_type: self.stage_type,
            was_completed_in_story_mode: self.was_completed_in_story_mode,
            was_attempted_in_story_mode: self.was_attempted_in_story_mode,
            was_skipped_in_story_mode: self.was_skipped_in_story_mode,
            awarded_diamonds: self.awarded_diamonds,
            awarded_diamonds_remix: self.awarded_diamonds_remix,
            difficulty_data: clone_diffs(&self.difficulty_data),
            remix_difficulty_data: clone_diffs(&self.remix_difficulty_data),
        };
        proof {
            assert(r@ =~= self@);
        }
        r
    }
}

impl Clone for StorylineData {
    fn clone(&self) -> (r: Self)
        ensures
            r@ == self@,
    {
        let mut beats: Vec<StoryBeatData> = Vec::new();
        let mut i: usize = 0;
        while i < self.story_beat_data.len()
            invariant
                i <= self.story_beat_data.len(),
                beats@.len() == i,
                forall|k: int| 0 <= k < i ==> beats@[k]@ == self.story_beat_data@[k]@,
            decreases self.story_beat_data.len() - i,
        {
            beats.push(self.story_beat_data[i].clone());
            i = i + 1;
        }
        let r = StorylineData {
            storyline_characters: self.storyline_characters,
            has_unlocked_storyline: self.has_unlocked_storyline,
            has_completed_storyline: self.has_completed_storyline,
            story_beat_data: beats,
        };
        proof {
            assert(beats@.map_values(|b: StoryBeatData| b@) =~= self.story_beat_data@
                .map_values(|b: StoryBeatData| b@));
            assert(r@ =~= self@);
        }
        r
    }
}

impl Clone for SaveGame {
    fn clone(&self) -> (r: Self)
        ensures
            r@ == self@,
    {
        let mut levels: Vec<LevelData> = Vec::new();
        let mut i: usize = 0;
        while i < self.level_data.len()
            invariant
                i <= self.level_data.len(),
                levels@.len() == i,
                forall|k: int| 0 <= k < i ==> levels@[k]@ == self.level_data@[k]@,
            decreases self.level_data.len() - i,
        {
            levels.push(self.level_data[i].clone());
            i = i + 1;
        }
        let mut stories: Vec<StorylineData> = Vec::new();
        let mut j: usize = 0;
        while j < self.storyline_data.len()
            invariant
                j <= self.storyline_data.len(),
                stories@.len() == j,
                forall|k: int| 0 <= k < j ==> stories@[k]@ == self.storyline_data@[k]@,
            decreases self.storyline_data.len() - j,
        {
            stories.push(self.storyline_data[j].clone());
            j = j + 1;
        }
        let mut kills: Vec<EnemyKillCount> = Vec::new();
        let mut k: usize = 0;
        while k < self.enemy_kill_counts_by_id.len()
            invariant
                k <= self.enemy_kill_counts_by_id.len(),
                kills@.len() == k,
                forall|m: int| 0 <= m < k ==> kills@[m]@ == self.enemy_kill_counts_by_id@[m]@,
            decreases self.enemy_kill_counts_by_id.len() - k,
        {
            kills.push(self.enemy_kill_counts_by_id[k].clone());
            k = k + 1;
        }
        let r = SaveGame {
            save_name: self.save_name.clone(),
            game_data_version: self.game_data_version,
            save_data_version: self.save_data_version,
            times_booted: self.times_booted,
            save_id: self.save_id,
            player_id: self.player_id.clone(),
            selected_language: self.selected_language.clone(),
            framerate_limit: self.framerate_limit,
            level_data: levels,
            storyline_data: stories,
            active_cosmetic_pin: self.active_cosmetic_pin.clone(),
            active_gameplay_pin: self.active_gameplay_pin.clone(),
            should_display_dialogue_debug: self.should_display_dialogue_debug,
            should_unlock_all_levels: self.should_unlock_all_levels,
            has_input_dragon_dance: self.has_input_dragon_dance,
            selected_story_difficulty: self.selected_story_difficulty,
            selected_arcade_difficulty: self.selected_arcade_difficulty,
            selected_track_sorting_order: self.selected_track_sorting_order,
            selected_custom_music_sorting_order: self.selected_custom_music_sorting_order,
            is_remix_mode_active: self.is_remix_mode_active,
            should_play_all_story_content_in_order: self.should_play_all_story_content_in_order,
            enemy_kill_counts_by_id: kills,
            total_rhythm_rifts_cleared: self.total_rhythm_rifts_cleared,
            has_seen_splash_screens: self.has_seen_splash_screens,
            has_opened_story_mode: self.has_opened_story_mode,
            has_agreed_to_no_streaming: self.has_agreed_to_no_streaming,
            total_diamonds: self.total_diamonds,
            total_vibe_power_uses: self.total_vibe_power_uses,
            max_enemies_killed_while_vibing: self.max_enemies_killed_while_vibing,
            bb_total_attacks: self.bb_total_attacks,
            bb_total_dodges: self.bb_total_dodges,
            bb_total_blocked_hits: self.bb_total_blocked_hits,
        };
        proof {
            assert(levels@.map_values(|l: LevelData| l@) =~= self.level_data@.map_values(
                |l: LevelData| l@,
            ));
            assert(stories@.map_values(|s: StorylineData| s@) =~= self.storyline_data@
                .map_values(|s: StorylineData| s@));
            assert(kills@.map_values(|e: EnemyKillCount| e@) =~= self.enemy_kill_counts_by_id@
                .map_values(|e: EnemyKillCount| e@));
            assert(r@ =~= self@);
        }
        r
    }
}

} // verus!
