//! The serialized form of a document, and its verified encoder.
//!
//! [`json_of_doc`] gives, character for character, the JSON text a
//! document is written as: one object, fields in declaration order,
//! strings escaped per [`esc_char`], counters in canonical decimal.
//! [`to_json`] produces exactly that text. [`backup_path`] renders the
//! name the pre-save file is copied to.
use crate::models::{
    BeatView, DiffView, DifficultyData, DocView, EnemyKillCount, KillView, LevelData, LevelView,
    SaveGame, StoryBeatData, StorylineData, StorylineView,
};
use crate::numbers::{dec_str, u64_to_dec, push_char};
use vstd::prelude::*;

verus! {

/// The hexadecimal digit character for a value below sixteen.
pub open spec fn hex_digit(d: nat) -> char {
    if d < 10 {
        crate::numbers::digit_char(d)
    } else if d == 10 {
        'a'
    } else if d == 11 {
        'b'
    } else if d == 12 {
        'c'
    } else if d == 13 {
        'd'
    } else if d == 14 {
        'e'
    } else {
        'f'
    }
}

/// How one character appears inside a JSON string: quote and backslash
/// get a backslash escape, control characters a `\u00XX` escape, and
/// every other character stands for itself.
pub open spec fn esc_char(c: char) -> Seq<char> {
    if c == '"' {
        seq!['\\', '"']
    } else if c == '\\' {
        seq!['\\', '\\']
    } else if (c as u32) < 32 {
        seq!['\\', 'u', '0', '0', hex_digit((c as u32) as nat / 16), hex_digit(
            (c as u32) as nat % 16,
        )]
    } else {
        seq![c]
    }
}

/// The escaped body of a JSON string.
pub open spec fn json_escape(s: Seq<char>) -> Seq<char>
    decreases s.len(),
{
    if s.len() == 0 {
        Seq::empty()
    } else {
        json_escape(s.drop_last()) + esc_char(s.last())
    }
}

/// A JSON string: the escaped body between quotes.
pub open spec fn json_str(s: Seq<char>) -> Seq<char> {
    seq!['"'] + json_escape(s) + seq!['"']
}

/// A JSON boolean.
pub open spec fn json_bool(b: bool) -> Seq<char> {
    if b {
        "true"@
    } else {
        "false"@
    }
}

/// Element texts joined with commas.
pub open spec fn json_join(elems: Seq<Seq<char>>) -> Seq<char>
    decreases elems.len(),
{
    if elems.len() == 0 {
        Seq::empty()
    } else if elems.len() == 1 {
        elems[0]
    } else {
        json_join(elems.drop_last()) + seq![','] + elems.last()
    }
}

/// A JSON array of already-rendered element texts.
pub open spec fn json_arr(elems: Seq<Seq<char>>) -> Seq<char> {
    seq!['['] + json_join(elems) + seq![']']
}

/// The serialized form of one difficulty record.
pub open spec fn json_of_diff(h: DiffView) -> Seq<char> {
    "{\"Difficulty\":"@ + dec_str(h.difficulty as nat) + ",\"HighScore\":"@ + dec_str(
        h.high_score as nat,
    ) + ",\"LetterGrade\":"@ + json_str(h.letter_grade) + ",\"MaxComboCount\":"@ + dec_str(
        h.max_combo_count as nat,
    ) + ",\"NumAttempts\":"@ + dec_str(h.num_attempts as nat) + ",\"NumClears\":"@ + dec_str(
        h.num_clears as nat,
    ) + ",\"NumRetries\":"@ + dec_str(h.num_retries as nat) + ",\"NumGameOvers\":"@ + dec_str(
        h.num_game_overs as nat,
    ) + ",\"HasAllPerfects\":"@ + json_bool(h.has_all_perfects)
        + ",\"HasFullComboRhythmRift\":"@ + json_bool(h.has_full_combo_rhythm_rift) + "}"@
}

/// The serialized forms of a sequence of difficulty records.
pub open spec fn jsons_of_diffs(s: Seq<DiffView>) -> Seq<Seq<char>> {
    s.map_values(|h: DiffView| json_of_diff(h))
}

/// The serialized form of one level record.
pub open spec fn json_of_level(l: LevelView) -> Seq<char> {
    "{\"LevelId\":"@ + json_str(l.level_id) + ",\"StageType\":"@ + dec_str(l.stage_type as nat)
        + ",\"WasCompletedInStoryMode\":"@ + json_bool(l.was_completed_in_story_mode)
        + ",\"WasAttemptedInStoryMode\":"@ + json_bool(l.was_attempted_in_story_mode)
        + ",\"WasSkippedInStoryMode\":"@ + json_bool(l.was_skipped_in_story_mode)
        + ",\"AwardedDiamonds\":"@ + dec_str(l.awarded_diamonds as nat)
        + ",\"AwardedDiamondsRemix\":"@ + dec_str(l.awarded_diamonds_remix as nat)
        + ",\"DifficultyHighScoreDatas\":"@ + json_arr(jsons_of_diffs(l.difficulty_data))
        + ",\"RemixDifficultyHighScoreDatas\":"@ + json_arr(
        jsons_of_diffs(l.remix_difficulty_data),
    ) + "}"@
}

/// The serialized forms of a sequence of level records.
pub open spec fn jsons_of_levels(s: Seq<LevelView>) -> Seq<Seq<char>> {
    s.map_values(|l: LevelView| json_of_level(l))
}

/// The serialized form of one story beat.
pub open spec fn json_of_beat(b: BeatView) -> Seq<char> {
    "{\"LevelId\":"@ + json_str(b.level_id) + ",\"TimesPlayed\":"@ + dec_str(
        b.times_played as nat,
    ) + "}"@
}

/// The serialized forms of a sequence of story beats.
pub open spec fn jsons_of_beats(s: Seq<BeatView>) -> Seq<Seq<char>> {
    s.map_values(|b: BeatView| json_of_beat(b))
}

/// The serialized form of one storyline record.
pub open spec fn json_of_storyline(s: StorylineView) -> Seq<char> {
    "{\"storylineCharacters\":"@ + dec_str(s.storyline_characters as nat)
        + ",\"HasUnlockedStoryline\":"@ + json_bool(s.has_unlocked_storyline)
        + ",\"HasCompletedStoryline\":"@ + json_bool(s.has_completed_storyline)
        + ",\"StoryBeatDatas\":"@ + json_arr(jsons_of_beats(s.story_beat_data)) + "}"@
}

/// The serialized forms of a sequence of storyline records.
pub open spec fn jsons_of_storylines(s: Seq<StorylineView>) -> Seq<Seq<char>> {
    s.map_values(|x: StorylineView| json_of_storyline(x))
}

/// The serialized form of one enemy kill-count record.
pub open spec fn json_of_kill(k: KillView) -> Seq<char> {
    "{\"EnemyId\":"@ + dec_str(k.enemy_id as nat) + ",\"NumberOfKills\":"@ + dec_str(
        k.number_of_kills as nat,
    ) + ",\"NumberOfDeaths\":"@ + dec_str(k.number_of_deaths as nat) + "}"@
}

/// The serialized forms of a sequence of kill-count records.
pub open spec fn jsons_of_kills(s: Seq<KillView>) -> Seq<Seq<char>> {
    s.map_values(|k: KillView| json_of_kill(k))
}

/// The serialized form of a whole document.
pub open spec fn json_of_doc(d: DocView) -> Seq<char> {
    "{\"SaveName\":"@ + json_str(d.save_name) + ",\"GameDataVersion\":"@ + dec_str(
        d.game_data_version as nat,
    ) + ",\"SaveDataVersion\":"@ + dec_str(d.save_data_version as nat) + ",\"TimesBooted\":"@
        + dec_str(d.times_booted as nat) + ",\"SaveID\":"@ + dec_str(d.save_id as nat)
        + ",\"PlayerID\":"@ + json_str(d.player_id) + ",\"SelectedLanguage\":"@ + json_str(
        d.selected_language,
    ) + ",\"FramerateLimit\":"@ + dec_str(d.framerate_limit as nat) + ",\"LevelDatas\":"@
        + json_arr(jsons_of_levels(d.level_data)) + ",\"StorylineDatas\":"@ + json_arr(
        jsons_of_storylines(d.storyline_data),
    ) + ",\"ActiveCosmeticPin\":"@ + json_str(d.active_cosmetic_pin)
        + ",\"ActiveGameplayPin\":"@ + json_str(d.active_gameplay_pin)
        + ",\"ShouldDisplayDialogueDebug\":"@ + json_bool(d.should_display_dialogue_debug)
        + ",\"ShouldUnlockAllLevels\":"@ + json_bool(d.should_unlock_all_levels)
        + ",\"HasInputDragonDance\":"@ + json_bool(d.has_input_dragon_dance)
        + ",\"SelectedStoryDifficulty\":"@ + dec_str(d.selected_story_difficulty as nat)
        + ",\"SelectedArcadeDifficulty\":"@ + dec_str(d.selected_arcade_difficulty as nat)
        + ",\"SelectedTrackSortingOrder\":"@ + dec_str(d.selected_track_sorting_order as nat)
        + ",\"SelectedCustomMusicSortingOrder\":"@ + dec_str(
        d.selected_custom_music_sorting_order as nat,
    ) + ",\"IsRemixModeActive\":"@ + json_bool(d.is_remix_mode_active)
        + ",\"ShouldPlayAllStoryContentInOrder\":"@ + json_bool(
        d.should_play_all_story_content_in_order,
    ) + ",\"EnemyKillCountsById\":"@ + json_arr(jsons_of_kills(d.enemy_kill_counts_by_id))
        + ",\"TotalRhythmRiftsCleared\":"@ + dec_str(d.total_rhythm_rifts_cleared as nat)
        + ",\"HasSeenSplashScreens\":"@ + json_bool(d.has_seen_splash_screens)
        + ",\"HasOpenedStoryMode\":"@ + json_bool(d.has_opened_story_mode)
        + ",\"HasAgreedToNoStreaming\":"@ + json_bool(d.has_agreed_to_no_streaming)
        + ",\"TotalDiamonds\":"@ + dec_str(d.total_diamonds as nat)
        + ",\"TotalVibePowerUses\":"@ + dec_str(d.total_vibe_power_uses as nat)
        + ",\"MaxEnemiesKilledWhileVibing\":"@ + dec_str(d.max_enemies_killed_while_vibing as nat)
        + ",\"BBTotalAttacks\":"@ + dec_str(d.bb_total_attacks as nat) + ",\"BBTotalDodges\":"@
        + dec_str(d.bb_total_dodges as nat) + ",\"BBTotalBlockedHits\":"@ + dec_str(
        d.bb_total_blocked_hits as nat,
    ) + "}"@
}

/// Appending one character extends the escaped body by that
/// character's escape.
proof fn lemma_json_escape_push(s: Seq<char>, c: char)
    ensures
        json_escape(s.push(c)) == json_escape(s) + esc_char(c),
{
    assert(s.push(c).drop_last() =~= s);
}

/// Appending one element text extends the joined text by a comma (when
/// anything precedes it) and the element.
proof fn lemma_json_join_push(es: Seq<Seq<char>>, e: Seq<char>)
    ensures
        json_join(es.push(e)) == if es.len() == 0 {
            e
        } else {
            json_join(es) + seq![','] + e
        },
{
    assert(es.push(e).drop_last() =~= es);
    assert(es.push(e).last() == e);
}

/// The hexadecimal digit character, executable form.
fn hex_digit_exec(d: u32) -> (c: char)
    requires
        d < 16,
    ensures
        c == hex_digit(d as nat),
{
    if d == 0 {
        '0'
    } else if d == 1 {
        '1'
    } else if d == 2 {
        '2'
    } else if d == 3 {
        '3'
    } else if d == 4 {
        '4'
    } else if d == 5 {
        '5'
    } else if d == 6 {
        '6'
    } else if d == 7 {
        '7'
    } else if d == 8 {
        '8'
    } else if d == 9 {
        '9'
    } else if d == 10 {
        'a'
    } else if d == 11 {
        'b'
    } else if d == 12 {
        'c'
    } else if d == 13 {
        'd'
    } else if d == 14 {
        'e'
    } else {
        'f'
    }
}

/// Appends a counter in canonical decimal.
fn append_u64(out: &mut String, n: u64)
    ensures
        final(out)@ == old(out)@ + dec_str(n as nat),
{
    let s = u64_to_dec(n);
    out.append(s.as_str());
}

/// Appends the escaped body of a string.
fn append_escaped(out: &mut String, s: &str)
    ensures
        final(out)@ == old(out)@ + json_escape(s@),
{
    let len = s.unicode_len();
    let mut i: usize = 0;
    while i < len
        invariant
            i <= len,
            len == s@.len(),
            out@ == old(out)@ + json_escape(s@.subrange(0, i as int)),
        decreases len - i,
    {
        let c = s.get_char(i);
        let ghost before = out@;
        let code: u32 = c as u32;
        if c == '"' {
            push_char(out, '\\');
            push_char(out, '"');
        } else if c == '\\' {
            push_char(out, '\\');
            push_char(out, '\\');
        } else if code < 32 {
            push_char(out, '\\');
            push_char(out, 'u');
            push_char(out, '0');
            push_char(out, '0');
            push_char(out, hex_digit_exec(code / 16));
            push_char(out, hex_digit_exec(code % 16));
        } else {
            push_char(out, c);
        }
        proof {
            assert(out@ =~= before + esc_char(c));
            assert(s@.subrange(0, i + 1 as int) =~= s@.subrange(0, i as int).push(s@[i as int]));
            lemma_json_escape_push(s@.subrange(0, i as int), s@[i as int]);
            assert(out@ =~= old(out)@ + json_escape(s@.subrange(0, i + 1 as int)));
        }
        i = i + 1;
    }
    proof {
        assert(s@.subrange(0, len as int) =~= s@);
    }
}

/// Appends a string in its JSON form.
fn append_json_str(out: &mut String, s: &str)
    ensures
        final(out)@ == old(out)@ + json_str(s@),
{
    push_char(out, '"');
    append_escaped(out, s);
    push_char(out, '"');
    proof {
        assert(out@ =~= old(out)@ + json_str(s@));
    }
}

/// Appends a boolean in its JSON form.
fn append_bool(out: &mut String, b: bool)
    ensures
        final(out)@ == old(out)@ + json_bool(b),
{
    if b {
        out.append("true");
    } else {
        out.append("false");
    }
}

/// Appends one difficulty record in its serialized form.
#[verifier::rlimit(100)]
#[verifier::spinoff_prover]
fn append_diff(out: &mut String, h: &DifficultyData)
    ensures
        final(out)@ == old(out)@ + json_of_diff(h@),
{
    out.append("{\"Difficulty\":");
    append_u64(out, h.difficulty);
    out.append(",\"HighScore\":");
    append_u64(out, h.high_score);
    out.append(",\"LetterGrade\":");
    append_json_str(out, h.letter_grade.as_str());
    out.append(",\"MaxComboCount\":");
    append_u64(out, h.max_combo_count);
    out.append(",\"NumAttempts\":");
    append_u64(out, h.num_attempts);
    out.append(",\"NumClears\":");
    append_u64(out, h.num_clears);
    out.append(",\"NumRetries\":");
    append_u64(out, h.num_retries);
    out.append(",\"NumGameOvers\":");
    append_u64(out, h.num_game_overs);
    out.append(",\"HasAllPerfects\":");
    append_bool(out, h.has_all_perfects);
    out.append(",\"HasFullComboRhythmRift\":");
    append_bool(out, h.has_full_combo_rhythm_rift);
    out.append("}");
    proof {
        assert(out@ =~= old(out)@ + json_of_diff(h@));
    }
}

/// Appends an array of difficulty records.
fn append_diff_arr(out: &mut String, v: &Vec<DifficultyData>)
    ensures
        final(out)@ == old(out)@ + json_arr(
            jsons_of_diffs(v@.map_values(|d: DifficultyData| d@)),
        ),
{
    push_char(out, '[');
    let ghost items = jsons_of_diffs(v@.map_values(|d: DifficultyData| d@));
    let mut i: usize = 0;
    while i < v.len()
        invariant
            i <= v.len(),
            items == jsons_of_diffs(v@.map_values(|d: DifficultyData| d@)),
            items.len() == v@.len(),
            forall|k: int| 0 <= k < v@.len() ==> items[k] == json_of_diff(v@[k]@),
            out@ == old(out)@ + seq!['['] + json_join(items.subrange(0, i as int)),
        decreases v.len() - i,
    {
        if i > 0 {
            push_char(out, ',');
        }
        append_diff(out, &v[i]);
        proof {
            assert(items.subrange(0, i + 1 as int) =~= items.subrange(0, i as int).push(
                items[i as int],
            ));
            lemma_json_join_push(items.subrange(0, i as int), items[i as int]);
            assert(out@ =~= old(out)@ + seq!['['] + json_join(items.subrange(0, i + 1 as int)));
        }
        i = i + 1;
    }
    proof {
        assert(items.subrange(0, items.len() as int) =~= items);
    }
    push_char(out, ']');
    proof {
        assert(out@ =~= old(out)@ + json_arr(items));
    }
}

/// Appends one level record in its serialized form.
#[verifier::rlimit(100)]
#[verifier::spinoff_prover]
fn append_level(out: &mut String, l: &LevelData)
    ensures
        final(out)@ == old(out)@ + json_of_level(l@),
{
    out.append("{\"LevelId\":");
    append_json_str(out, l.level_id.as_str());
    out.append(",\"StageType\":");
    append_u64(out, l.stage_type);
    out.append(",\"WasCompletedInStoryMode\":");
    append_bool(out, l.was_completed_in_story_mode);
    out.append(",\"WasAttemptedInStoryMode\":");
    append_bool(out, l.was_attempted_in_story_mode);
    out.append(",\"WasSkippedInStoryMode\":");
    append_bool(out, l.was_skipped_in_story_mode);
    out.append(",\"AwardedDiamonds\":");
    append_u64(out, l.awarded_diamonds);
    out.append(",\"AwardedDiamondsRemix\":");
    append_u64(out, l.awarded_diamonds_remix);
    out.append(",\"DifficultyHighScoreDatas\":");
    append_diff_arr(out, &l.difficulty_data);
    out.append(",\"RemixDifficultyHighScoreDatas\":");
    append_diff_arr(out, &l.remix_difficulty_data);
    out.append("}");
    proof {
        assert(out@ =~= old(out)@ + json_of_level(l@));
    }
}

/// Appends one story beat in its serialized form.
fn append_beat(out: &mut String, b: &StoryBeatData)
    ensures
        final(out)@ == old(out)@ + json_of_beat(b@),
{
    out.append("{\"LevelId\":");
    append_json_str(out, b.level_id.as_str());
    out.append(",\"TimesPlayed\":");
    append_u64(out, b.times_played);
    out.append("}");
    proof {
        assert(out@ =~= old(out)@ + json_of_beat(b@));
    }
}

/// Appends an array of story beats.
fn append_beat_arr(out: &mut String, v: &Vec<StoryBeatData>)
    ensures
        final(out)@ == old(out)@ + json_arr(
            jsons_of_beats(v@.map_values(|b: StoryBeatData| b@)),
        ),
{
    push_char(out, '[');
    let ghost items = jsons_of_beats(v@.map_values(|b: StoryBeatData| b@));
    let mut i: usize = 0;
    while i < v.len()
        invariant
            i <= v.len(),
            items == jsons_of_beats(v@.map_values(|b: StoryBeatData| b@)),
            items.len() == v@.len(),
            forall|k: int| 0 <= k < v@.len() ==> items[k] == json_of_beat(v@[k]@),
            out@ == old(out)@ + seq!['['] + json_join(items.subrange(0, i as int)),
        decreases v.len() - i,
    {
        if i > 0 {
            push_char(out, ',');
        }
        append_beat(out, &v[i]);
        proof {
            assert(items.subrange(0, i + 1 as int) =~= items.subrange(0, i as int).push(
                items[i as int],
            ));
            lemma_json_join_push(items.subrange(0, i as int), items[i as int]);
            assert(out@ =~= old(out)@ + seq!['['] + json_join(items.subrange(0, i + 1 as int)));
        }
        i = i + 1;
    }
    proof {
        assert(items.subrange(0, items.len() as int) =~= items);
    }
    push_char(out, ']');
    proof {
        assert(out@ =~= old(out)@ + json_arr(items));
    }
}

/// Appends one storyline record in its serialized form.
#[verifier::rlimit(100)]
#[verifier::spinoff_prover]
fn append_storyline(out: &mut String, s: &StorylineData)
    ensures
        final(out)@ == old(out)@ + json_of_storyline(s@),
{
    out.append("{\"storylineCharacters\":");
    append_u64(out, s.storyline_characters);
    out.append(",\"HasUnlockedStoryline\":");
    append_bool(out, s.has_unlocked_storyline);
    out.append(",\"HasCompletedStoryline\":");
    append_bool(out, s.has_completed_storyline);
    out.append(",\"StoryBeatDatas\":");
    append_beat_arr(out, &s.story_beat_data);
    out.append("}");
    proof {
        assert(out@ =~= old(out)@ + json_of_storyline(s@));
    }
}

/// Appends one kill-count record in its serialized form.
fn append_kill(out: &mut String, k: &EnemyKillCount)
    ensures
        final(out)@ == old(out)@ + json_of_kill(k@),
{
    out.append("{\"EnemyId\":");
    append_u64(out, k.enemy_id);
    out.append(",\"NumberOfKills\":");
    append_u64(out, k.number_of_kills);
    out.append(",\"NumberOfDeaths\":");
    append_u64(out, k.number_of_deaths);
    out.append("}");
    proof {
        assert(out@ =~= old(out)@ + json_of_kill(k@));
    }
}

/// Appends an array of level records.
fn append_level_arr(out: &mut String, v: &Vec<LevelData>)
    ensures
        final(out)@ == old(out)@ + json_arr(jsons_of_levels(v@.map_values(|l: LevelData| l@))),
{
    push_char(out, '[');
    let ghost items = jsons_of_levels(v@.map_values(|l: LevelData| l@));
    let mut i: usize = 0;
    while i < v.len()
        invariant
            i <= v.len(),
            items == jsons_of_levels(v@.map_values(|l: LevelData| l@)),
            items.len() == v@.len(),
            forall|k: int| 0 <= k < v@.len() ==> items[k] == json_of_level(v@[k]@),
            out@ == old(out)@ + seq!['['] + json_join(items.subrange(0, i as int)),
        decreases v.len() - i,
    {
        if i > 0 {
            push_char(out, ',');
        }
        append_level(out, &v[i]);
        proof {
            assert(items.subrange(0, i + 1 as int) =~= items.subrange(0, i as int).push(
                items[i as int],
            ));
            lemma_json_join_push(items.subrange(0, i as int), items[i as int]);
            assert(out@ =~= old(out)@ + seq!['['] + json_join(items.subrange(0, i + 1 as int)));
        }
        i = i + 1;
    }
    proof {
        assert(items.subrange(0, items.len() as int) =~= items);
    }
    push_char(out, ']');
    proof {
        assert(out@ =~= old(out)@ + json_arr(items));
    }
}

/// Appends an array of storyline records.
fn append_storyline_arr(out: &mut String, v: &Vec<StorylineData>)
    ensures
        final(out)@ == old(out)@ + json_arr(
            jsons_of_storylines(v@.map_values(|s: StorylineData| s@)),
        ),
{
    push_char(out, '[');
    let ghost items = jsons_of_storylines(v@.map_values(|s: StorylineData| s@));
    let mut i: usize = 0;
    while i < v.len()
        invariant
            i <= v.len(),
            items == jsons_of_storylines(v@.map_values(|s: StorylineData| s@)),
            items.len() == v@.len(),
            forall|k: int| 0 <= k < v@.len() ==> items[k] == json_of_storyline(v@[k]@),
            out@ == old(out)@ + seq!['['] + json_join(items.subrange(0, i as int)),
        decreases v.len() - i,
    {
        if i > 0 {
            push_char(out, ',');
        }
        append_storyline(out, &v[i]);
        proof {
            assert(items.subrange(0, i + 1 as int) =~= items.subrange(0, i as int).push(
                items[i as int],
            ));
            lemma_json_join_push(items.subrange(0, i as int), items[i as int]);
            assert(out@ =~= old(out)@ + seq!['['] + json_join(items.subrange(0, i + 1 as int)));
        }
        i = i + 1;
    }
    proof {
        assert(items.subrange(0, items.len() as int) =~= items);
    }
    push_char(out, ']');
    proof {
        assert(out@ =~= old(out)@ + json_arr(items));
    }
}

/// Appends an array of kill-count records.
fn append_kill_arr(out: &mut String, v: &Vec<EnemyKillCount>)
    ensures
        final(out)@ == old(out)@ + json_arr(
            jsons_of_kills(v@.map_values(|k: EnemyKillCount| k@)),
        ),
{
    push_char(out, '[');
    let ghost items = jsons_of_kills(v@.map_values(|k: EnemyKillCount| k@));
    let mut i: usize = 0;
    while i < v.len()
        invariant
            i <= v.len(),
            items == jsons_of_kills(v@.map_values(|k: EnemyKillCount| k@)),
            items.len() == v@.len(),
            forall|k: int| 0 <= k < v@.len() ==> items[k] == json_of_kill(v@[k]@),
            out@ == old(out)@ + seq!['['] + json_join(items.subrange(0, i as int)),
        decreases v.len() - i,
    {
        if i > 0 {
            push_char(out, ',');
        }
        append_kill(out, &v[i]);
        proof {
            assert(items.subrange(0, i + 1 as int) =~= items.subrange(0, i as int).push(
                items[i as int],
            ));
            lemma_json_join_push(items.subrange(0, i as int), items[i as int]);
            assert(out@ =~= old(out)@ + seq!['['] + json_join(items.subrange(0, i + 1 as int)));
        }
        i = i + 1;
    }
    proof {
        assert(items.subrange(0, items.len() as int) =~= items);
    }
    push_char(out, ']');
    proof {
        assert(out@ =~= old(out)@ + json_arr(items));
    }
}

/// Serializes a document: produces exactly [`json_of_doc`] of it.
#[verifier::rlimit(100)]
#[verifier::spinoff_prover]
pub fn to_json(d: &SaveGame) -> (r: String)
    ensures
        r@ == json_of_doc(d@),
{
    let mut out = String::new();
    out.append("{\"SaveName\":");
    append_json_str(&mut out, d.save_name.as_str());
    out.append(",\"GameDataVersion\":");
    append_u64(&mut out, d.game_data_version);
    out.append(",\"SaveDataVersion\":");
    append_u64(&mut out, d.save_data_version);
    out.append(",\"TimesBooted\":");
    append_u64(&mut out, d.times_booted);
    out.append(",\"SaveID\":");
    append_u64(&mut out, d.save_id);
    out.append(",\"PlayerID\":");
    append_json_str(&mut out, d.player_id.as_str());
    out.append(",\"SelectedLanguage\":");
    append_json_str(&mut out, d.selected_language.as_str());
    out.append(",\"FramerateLimit\":");
    append_u64(&mut out, d.framerate_limit);
    out.append(",\"LevelDatas\":");
    append_level_arr(&mut out, &d.level_data);
    out.append(",\"StorylineDatas\":");
    append_storyline_arr(&mut out, &d.storyline_data);
    out.append(",\"ActiveCosmeticPin\":");
    append_json_str(&mut out, d.active_cosmetic_pin.as_str());
    out.append(",\"ActiveGameplayPin\":");
    append_json_str(&mut out, d.active_gameplay_pin.as_str());
    out.append(",\"ShouldDisplayDialogueDebug\":");
    append_bool(&mut out, d.should_display_dialogue_debug);
    out.append(",\"ShouldUnlockAllLevels\":");
    append_bool(&mut out, d.should_unlock_all_levels);
    out.append(",\"HasInputDragonDance\":");
    append_bool(&mut out, d.has_input_dragon_dance);
    out.append(",\"SelectedStoryDifficulty\":");
    append_u64(&mut out, d.selected_story_difficulty);
    out.append(",\"SelectedArcadeDifficulty\":");
    append_u64(&mut out, d.selected_arcade_difficulty);
    out.append(",\"SelectedTrackSortingOrder\":");
    append_u64(&mut out, d.selected_track_sorting_order);
    out.append(",\"SelectedCustomMusicSortingOrder\":");
    append_u64(&mut out, d.selected_custom_music_sorting_order);
    out.append(",\"IsRemixModeActive\":");
    append_bool(&mut out, d.is_remix_mode_active);
    out.append(",\"ShouldPlayAllStoryContentInOrder\":");
    append_bool(&mut out, d.should_play_all_story_content_in_order);
    out.append(",\"EnemyKillCountsById\":");
    append_kill_arr(&mut out, &d.enemy_kill_counts_by_id);
    out.append(",\"TotalRhythmRiftsCleared\":");
    append_u64(&mut out, d.total_rhythm_rifts_cleared);
    out.append(",\"HasSeenSplashScreens\":");
    append_bool(&mut out, d.has_seen_splash_screens);
    out.append(",\"HasOpenedStoryMode\":");
    append_bool(&mut out, d.has_opened_story_mode);
    out.append(",\"HasAgreedToNoStreaming\":");
    append_bool(&mut out, d.has_agreed_to_no_streaming);
    out.append(",\"TotalDiamonds\":");
    append_u64(&mut out, d.total_diamonds);
    out.append(",\"TotalVibePowerUses\":");
    append_u64(&mut out, d.total_vibe_power_uses);
    out.append(",\"MaxEnemiesKilledWhileVibing\":");
    append_u64(&mut out, d.max_enemies_killed_while_vibing);
    out.append(",\"BBTotalAttacks\":");
    append_u64(&mut out, d.bb_total_attacks);
    out.append(",\"BBTotalDodges\":");
    append_u64(&mut out, d.bb_total_dodges);
    out.append(",\"BBTotalBlockedHits\":");
    append_u64(&mut out, d.bb_total_blocked_hits);
    out.append("}");
    proof {
        assert(out@ =~= json_of_doc(d@));
    }
    out
}

/// Renders the backup file name for a save: the source path with the
/// editor marker and the wall-clock milliseconds appended.
pub fn backup_path(path: &str, millis: u64) -> (r: String)
    ensures
        r@ == path@ + ".editor."@ + dec_str(millis as nat) + ".bak"@,
{
    let mut r = String::from_str(path);
    r.append(".editor.");
    append_u64(&mut r, millis);
    r.append(".bak");
    proof {
        assert(r@ =~= path@ + ".editor."@ + dec_str(millis as nat) + ".bak"@);
    }
    r
}

} // verus!
