//! Progress against the bosses, kept per boundary in one JSON column.
//!
//! Reading picks the fields that the fights use; writing puts them back and
//! leaves every other field of the column as it was.

use crate::json::{
    column_object, entry_map, json_complaint, json_of_text, lemma_agrees_at, lemma_edits_nest,
    read_json, read_object, reads_back, render_json, text_of_json, tree_view, Json, JsonView,
};
use crate::text::{
    blank, copy_text, int_text, integer_text, is_blank, join2, own_text, same_text, str_view,
    text_view,
};
use vstd::prelude::*;

verus! {

/// How far a boss has been beaten.
#[derive(Clone, Copy, Debug, PartialEq, Eq, Structural)]
pub enum BossStatus {
    Active,
    PhaseOneDefeated,
    PhaseTwoDefeated,
    Defeated,
}

/// The word that a status is written as.
pub open spec fn word_of_status(status: BossStatus) -> Seq<char> {
    match status {
        BossStatus::Active => "active"@,
        BossStatus::PhaseOneDefeated => "phase1_defeated"@,
        BossStatus::PhaseTwoDefeated => "phase2_defeated"@,
        BossStatus::Defeated => "defeated"@,
    }
}

/// The status that a word means; any other word means an active boss.
pub open spec fn status_of_word(word: Seq<char>) -> BossStatus {
    if word == "phase1_defeated"@ {
        BossStatus::PhaseOneDefeated
    } else if word == "phase2_defeated"@ {
        BossStatus::PhaseTwoDefeated
    } else if word == "defeated"@ {
        BossStatus::Defeated
    } else {
        BossStatus::Active
    }
}

/// Reads a status.
pub fn parse_status(status: &str) -> (read: BossStatus)
    ensures
        read == status_of_word(status@),
{
    if same_text(status, "phase1_defeated") {
        BossStatus::PhaseOneDefeated
    } else if same_text(status, "phase2_defeated") {
        BossStatus::PhaseTwoDefeated
    } else if same_text(status, "defeated") {
        BossStatus::Defeated
    } else {
        BossStatus::Active
    }
}

/// Names a status.
pub fn status_name(status: BossStatus) -> (name: &'static str)
    ensures
        name@ == word_of_status(status),
{
    match status {
        BossStatus::Active => "active",
        BossStatus::PhaseOneDefeated => "phase1_defeated",
        BossStatus::PhaseTwoDefeated => "phase2_defeated",
        BossStatus::Defeated => "defeated",
    }
}

/// A status reads back from its name.
pub proof fn law_status_reads_back(status: BossStatus)
    ensures
        status_of_word(word_of_status(status)) == status,
{
    reveal_strlit("active");
    reveal_strlit("phase1_defeated");
    reveal_strlit("phase2_defeated");
    reveal_strlit("defeated");
    assert("active"@.len() == 6);
    assert("phase1_defeated"@.len() == 15);
    assert("phase2_defeated"@.len() == 15);
    assert("defeated"@.len() == 8);
    assert("phase1_defeated"@[5] != "phase2_defeated"@[5]);
}

/// The integer as an `i32`, where it is one.
pub open spec fn narrowed(value: Option<i64>) -> Option<i32> {
    match value {
        Some(value) => if i32::MIN <= value <= i32::MAX {
            Some(value as i32)
        } else {
            None
        },
        None => None,
    }
}

/// Narrows an optional integer.
pub fn narrow(value: Option<i64>) -> (narrow: Option<i32>)
    ensures
        narrow == narrowed(value),
{
    match value {
        Some(value) => {
            if -2_147_483_648 <= value && value <= 2_147_483_647 {
                Some(value as i32)
            } else {
                None
            }
        },
        None => None,
    }
}

/// An optional `i32` widened.
pub open spec fn widened(value: Option<i32>) -> Option<i64> {
    match value {
        Some(value) => Some(value as i64),
        None => None,
    }
}

fn widen(value: Option<i32>) -> (wide: Option<i64>)
    ensures
        wide == widened(value),
{
    match value {
        Some(value) => Some(value as i64),
        None => None,
    }
}

/// Progress against one boss.
#[derive(Debug, PartialEq, Eq)]
pub struct BossProgressEntry {
    pub status: BossStatus,
    pub boss_id: Option<String>,
    pub hp_remaining: Option<i32>,
    pub hp_max: Option<i32>,
    pub last_engaged_at: Option<i64>,
    pub last_outcome: Option<String>,
    pub first_meet_seen: bool,
    pub pending_phase_event_id: Option<String>,
}

/// What a [`BossProgressEntry`] holds.
#[verifier::ext_equal]
pub struct EntryView {
    pub status: BossStatus,
    pub boss_id: Option<Seq<char>>,
    pub hp_remaining: Option<i32>,
    pub hp_max: Option<i32>,
    pub last_engaged_at: Option<i64>,
    pub last_outcome: Option<Seq<char>>,
    pub first_meet_seen: bool,
    pub pending_phase_event_id: Option<Seq<char>>,
}

impl View for BossProgressEntry {
    type V = EntryView;

    open spec fn view(&self) -> EntryView {
        EntryView {
            status: self.status,
            boss_id: text_view(self.boss_id),
            hp_remaining: self.hp_remaining,
            hp_max: self.hp_max,
            last_engaged_at: self.last_engaged_at,
            last_outcome: text_view(self.last_outcome),
            first_meet_seen: self.first_meet_seen,
            pending_phase_event_id: text_view(self.pending_phase_event_id),
        }
    }
}

impl Clone for BossProgressEntry {
    fn clone(&self) -> (copy: BossProgressEntry)
        ensures
            copy == *self,
    {
        BossProgressEntry {
            status: self.status,
            boss_id: copy_text(&self.boss_id),
            hp_remaining: self.hp_remaining,
            hp_max: self.hp_max,
            last_engaged_at: self.last_engaged_at,
            last_outcome: copy_text(&self.last_outcome),
            first_meet_seen: self.first_meet_seen,
            pending_phase_event_id: copy_text(&self.pending_phase_event_id),
        }
    }
}

/// Progress at one boundary: an entry, or a bare status as older columns have it.
#[derive(Debug, PartialEq, Eq)]
pub enum BossProgressValue {
    Legacy(BossStatus),
    Entry(BossProgressEntry),
}

/// What a [`BossProgressValue`] holds.
#[verifier::ext_equal]
pub enum ProgressView {
    Legacy(BossStatus),
    Entry(EntryView),
}

impl View for BossProgressValue {
    type V = ProgressView;

    open spec fn view(&self) -> ProgressView {
        match *self {
            BossProgressValue::Legacy(status) => ProgressView::Legacy(status),
            BossProgressValue::Entry(entry) => ProgressView::Entry(entry@),
        }
    }
}

impl ProgressView {
    /// The status at a boundary.
    pub open spec fn status(self) -> BossStatus {
        match self {
            ProgressView::Legacy(status) => status,
            ProgressView::Entry(entry) => entry.status,
        }
    }
}

impl Clone for BossProgressValue {
    fn clone(&self) -> (copy: BossProgressValue)
        ensures
            copy == *self,
    {
        match self {
            BossProgressValue::Legacy(status) => BossProgressValue::Legacy(*status),
            BossProgressValue::Entry(entry) => BossProgressValue::Entry(entry.clone()),
        }
    }
}

impl BossProgressValue {
    /// The status at a boundary.
    pub fn status(&self) -> (status: BossStatus)
        ensures
            status == self@.status(),
    {
        match self {
            BossProgressValue::Legacy(status) => *status,
            BossProgressValue::Entry(entry) => entry.status,
        }
    }
}

/// A text that is not empty.
pub open spec fn filled(text: Option<Seq<char>>) -> Option<Seq<char>> {
    match text {
        Some(text) => if text.len() == 0 {
            None
        } else {
            Some(text)
        },
        None => None,
    }
}

/// The entry that an object holds.
pub open spec fn entry_of(tree: JsonView) -> EntryView {
    EntryView {
        status: match tree.text_at("status"@) {
            Some(word) => status_of_word(word),
            None => BossStatus::Active,
        },
        boss_id: filled(tree.text_at("boss_id"@)),
        hp_remaining: narrowed(tree.int_at("hp_remaining"@)),
        hp_max: narrowed(tree.int_at("hp_max"@)),
        last_engaged_at: tree.int_at("last_engaged_at"@),
        last_outcome: tree.text_at("last_outcome"@),
        first_meet_seen: tree.bool_at("first_meet_seen"@) == Some(true),
        pending_phase_event_id: tree.text_at("pending_phase_event_id"@),
    }
}

/// The progress that a tree holds: a status word, an entry, or an active boss.
pub open spec fn progress_of(tree: JsonView) -> ProgressView {
    match tree {
        JsonView::Text(word) => ProgressView::Legacy(status_of_word(word)),
        JsonView::Object(_) => ProgressView::Entry(entry_of(tree)),
        _ => ProgressView::Legacy(BossStatus::Active),
    }
}

/// The progress that a map of trees holds, boundary by boundary.
pub open spec fn progress_map(map: Map<Seq<char>, JsonView>) -> Map<Seq<char>, ProgressView> {
    map.map_values(|tree: JsonView| progress_of(tree))
}

/// The progress that a tree holds; a tree that is no object holds none.
pub open spec fn progress_tree(tree: JsonView) -> Map<Seq<char>, ProgressView> {
    match tree {
        JsonView::Object(map) => progress_map(map),
        _ => Map::empty(),
    }
}

fn read_entry(tree: &Json) -> (entry: BossProgressEntry)
    ensures
        entry@ == entry_of(tree@),
{
    let status = match tree.text_at("status") {
        Some(word) => parse_status(word),
        None => BossStatus::Active,
    };
    let boss_id = match tree.text_at("boss_id") {
        Some(text) => {
            if text.unicode_len() == 0 {
                None
            } else {
                Some(text.to_owned())
            }
        },
        None => None,
    };
    BossProgressEntry {
        status,
        boss_id,
        hp_remaining: narrow(tree.int_at("hp_remaining")),
        hp_max: narrow(tree.int_at("hp_max")),
        last_engaged_at: tree.int_at("last_engaged_at"),
        last_outcome: own_text(tree.text_at("last_outcome")),
        first_meet_seen: match tree.bool_at("first_meet_seen") {
            Some(flag) => flag,
            None => false,
        },
        pending_phase_event_id: own_text(tree.text_at("pending_phase_event_id")),
    }
}

fn read_value(tree: &Json) -> (value: BossProgressValue)
    ensures
        value@ == progress_of(tree@),
{
    match tree {
        Json::Text(word) => BossProgressValue::Legacy(parse_status(word.as_str())),
        Json::Object(_) => BossProgressValue::Entry(read_entry(tree)),
        _ => BossProgressValue::Legacy(BossStatus::Active),
    }
}

/// Progress against the bosses, by boundary.
#[derive(Debug)]
pub struct BossProgress {
    entries: Vec<(String, BossProgressValue)>,
}

spec fn listed(entries: Seq<(String, BossProgressValue)>) -> Map<Seq<char>, ProgressView>
    decreases entries.len(),
{
    if entries.len() == 0 {
        Map::empty()
    } else {
        listed(entries.drop_last()).insert(entries.last().0@, entries.last().1@)
    }
}

spec fn distinct(entries: Seq<(String, BossProgressValue)>) -> bool {
    forall|i: int, j: int|
        0 <= i < j < entries.len() ==> (#[trigger] entries[i]).0@ != (#[trigger] entries[j]).0@
}

impl View for BossProgress {
    type V = Map<Seq<char>, ProgressView>;

    closed spec fn view(&self) -> Map<Seq<char>, ProgressView> {
        listed(self.entries@)
    }
}

proof fn lemma_listed(entries: Seq<(String, BossProgressValue)>, key: Seq<char>)
    requires
        distinct(entries),
    ensures
        listed(entries).dom().contains(key) <==> exists|i: int|
            0 <= i < entries.len() && (#[trigger] entries[i]).0@ == key,
        forall|i: int|
            0 <= i < entries.len() && (#[trigger] entries[i]).0@ == key ==> listed(entries)[key]
                == entries[i].1@,
    decreases entries.len(),
{
    if entries.len() > 0 {
        let rest = entries.drop_last();
        let last = entries.len() - 1;
        assert(distinct(rest)) by {
            assert forall|i: int, j: int| 0 <= i < j < rest.len() implies (#[trigger] rest[i]).0@
                != (#[trigger] rest[j]).0@ by {
                assert(entries[i].0@ != entries[j].0@);
            }
        }
        lemma_listed(rest, key);
        if listed(rest).dom().contains(key) {
            let i = choose|i: int| 0 <= i < rest.len() && (#[trigger] rest[i]).0@ == key;
            assert(entries[i].0@ == key);
        }
        if entries[last].0@ == key {
            assert(entries[last].0@ == key);
        }
        assert forall|i: int| 0 <= i < entries.len() && (
        #[trigger] entries[i]).0@ == key implies listed(entries)[key] == entries[i].1@ by {
            if i < last {
                assert(rest[i].0@ == key);
                assert(entries[i].0@ != entries[last].0@);
            }
        }
        if exists|i: int| 0 <= i < entries.len() && (#[trigger] entries[i]).0@ == key {
            let i = choose|i: int| 0 <= i < entries.len() && (#[trigger] entries[i]).0@ == key;
            if i < last {
                assert(rest[i].0@ == key);
            }
        }
    }
}

proof fn lemma_listed_update(
    before: Seq<(String, BossProgressValue)>,
    after: Seq<(String, BossProgressValue)>,
    at: int,
)
    requires
        distinct(before),
        0 <= at < before.len(),
        after.len() == before.len(),
        after[at].0@ == before[at].0@,
        forall|i: int| 0 <= i < before.len() && i != at ==> #[trigger] after[i] == before[i],
    ensures
        distinct(after),
        listed(after) == listed(before).insert(before[at].0@, after[at].1@),
{
    assert forall|i: int, j: int| 0 <= i < j < after.len() implies (#[trigger] after[i]).0@ != (
    #[trigger] after[j]).0@ by {
        assert(before[i].0@ != before[j].0@);
    }
    let wanted = listed(before).insert(before[at].0@, after[at].1@);
    assert forall|key: Seq<char>| listed(after).dom().contains(key) == wanted.dom().contains(
        key,
    ) by {
        lemma_listed(before, key);
        lemma_listed(after, key);
        if exists|i: int| 0 <= i < before.len() && (#[trigger] before[i]).0@ == key {
            let i = choose|i: int| 0 <= i < before.len() && (#[trigger] before[i]).0@ == key;
            assert(after[i].0@ == key);
        }
        if exists|i: int| 0 <= i < after.len() && (#[trigger] after[i]).0@ == key {
            let i = choose|i: int| 0 <= i < after.len() && (#[trigger] after[i]).0@ == key;
            assert(before[i].0@ == key);
        }
    }
    assert forall|key: Seq<char>| wanted.dom().contains(key) implies listed(after)[key]
        == wanted[key] by {
        lemma_listed(before, key);
        lemma_listed(after, key);
        if key == before[at].0@ {
            assert(after[at].0@ == key);
        } else {
            let i = choose|i: int| 0 <= i < before.len() && (#[trigger] before[i]).0@ == key;
            assert(after[i] == before[i]);
        }
    }
    assert(listed(after) =~= wanted);
}

impl BossProgress {
    #[verifier::type_invariant]
    spec fn well_formed(self) -> bool {
        distinct(self.entries@)
    }

    /// No progress.
    pub fn new() -> (progress: BossProgress)
        ensures
            progress@ == Map::<Seq<char>, ProgressView>::empty(),
    {
        BossProgress { entries: Vec::new() }
    }

    /// The progress at a boundary.
    pub fn get(&self, key: &str) -> (value: Option<&BossProgressValue>)
        ensures
            match value {
                Some(v) => self@.dom().contains(key@) && self@[key@] == v@,
                None => !self@.dom().contains(key@),
            },
    {
        proof {
            use_type_invariant(self);
            lemma_listed(self.entries@, key@);
        }
        let mut i: usize = 0;
        while i < self.entries.len()
            invariant
                i <= self.entries.len(),
                forall|j: int| 0 <= j < i ==> (#[trigger] self.entries@[j]).0@ != key@,
                forall|j: int|
                    0 <= j < self.entries.len() && (#[trigger] self.entries@[j]).0@ == key@
                        ==> self@.dom().contains(key@) && self@[key@] == self.entries@[j].1@,
            decreases self.entries.len() - i,
        {
            if same_text(self.entries[i].0.as_str(), key) {
                return Some(&self.entries[i].1);
            }
            i = i + 1;
        }
        None
    }

    /// Sets the progress at a boundary.
    pub fn set(&mut self, key: &str, value: BossProgressValue)
        ensures
            final(self)@ == old(self)@.insert(key@, value@),
    {
        proof {
            use_type_invariant(&*self);
        }
        let mut entries: Vec<(String, BossProgressValue)> = Vec::new();
        std::mem::swap(&mut entries, &mut self.entries);
        let ghost before = entries@;
        let mut i: usize = 0;
        while i < entries.len() && !same_text(entries[i].0.as_str(), key)
            invariant
                i <= entries.len(),
                entries@ == before,
                forall|j: int| 0 <= j < i ==> (#[trigger] before[j]).0@ != key@,
            decreases entries.len() - i,
        {
            i = i + 1;
        }
        if i < entries.len() {
            entries.set(i, (key.to_owned(), value));
            proof {
                lemma_listed_update(before, entries@, i as int);
            }
        } else {
            entries.push((key.to_owned(), value));
            proof {
                assert(entries@.drop_last() =~= before);
                assert(distinct(entries@)) by {
                    assert forall|a: int, b: int| 0 <= a < b < entries.len() implies (
                    #[trigger] entries@[a]).0@ != (#[trigger] entries@[b]).0@ by {
                        if b < before.len() {
                            assert(before[a].0@ != before[b].0@);
                        } else {
                            assert(before[a].0@ != key@);
                        }
                    }
                }
            }
        }
        self.entries = entries;
    }
}

/// Reads the progress that a tree holds.
pub fn read_progress(tree: &Json) -> (progress: BossProgress)
    ensures
        progress@ == progress_tree(tree@),
{
    let mut progress = BossProgress::new();
    match tree {
        Json::Object(entries) => {
            assert(progress_map(entry_map(entries@.subrange(0, 0))) =~= Map::empty());
            let mut i: usize = 0;
            while i < entries.len()
                invariant
                    i <= entries.len(),
                    progress@ == progress_map(entry_map(entries@.subrange(0, i as int))),
                decreases entries.len() - i,
            {
                let ghost seen = entries@.subrange(0, i as int);
                let ghost next = entries@.subrange(0, i + 1);
                progress.set(entries[i].0.as_str(), read_value(&entries[i].1));
                proof {
                    assert(next.drop_last() =~= seen);
                    assert(next[next.len() - 1] == entries@[i as int]);
                    assert(progress_map(entry_map(next)) =~= progress_map(entry_map(seen)).insert(
                        entries@[i as int].0@,
                        progress_of(tree_view(entries@[i as int].1)),
                    ));
                }
                i = i + 1;
            }
            assert(entries@.subrange(0, i as int) =~= entries@);
        },
        _ => {},
    }
    progress
}

/// The progress that a column holds, or nothing where the column is not JSON.
/// A missing or blank column holds none.
pub open spec fn progress_column(column: Option<Seq<char>>) -> Option<
    Map<Seq<char>, ProgressView>,
> {
    match column {
        None => Some(Map::empty()),
        Some(text) => if blank(text) {
            Some(Map::empty())
        } else {
            match json_of_text(text) {
                Some(tree) => Some(progress_tree(tree)),
                None => None,
            }
        },
    }
}

/// What is said of a progress column that is not JSON.
pub open spec fn progress_complaint(text: Seq<char>) -> Seq<char> {
    "boss_progress JSON is invalid: "@ + json_complaint(text)
}

/// Reads the progress that a column holds.
pub fn parse_boss_progress(column: Option<&str>) -> (read: Result<BossProgress, String>)
    ensures
        match read {
            Ok(progress) => progress_column(str_view(column)) == Some(progress@),
            Err(message) => progress_column(str_view(column)) is None && message@
                == progress_complaint(str_view(column)->0),
        },
{
    match column {
        None => Ok(BossProgress::new()),
        Some(text) => {
            if is_blank(text) {
                Ok(BossProgress::new())
            } else {
                match read_json(text) {
                    Ok(tree) => Ok(read_progress(&tree)),
                    Err(words) => Err(join2("boss_progress JSON is invalid: ", words.as_str())),
                }
            }
        },
    }
}

/// An object with a key set, or removed where there is nothing to set.
pub open spec fn with_optional(tree: JsonView, key: Seq<char>, value: Option<JsonView>) -> JsonView {
    match value {
        Some(value) => tree.with(key, value),
        None => tree.without(key),
    }
}

/// A text to set.
pub open spec fn text_tree(text: Option<Seq<char>>) -> Option<JsonView> {
    match text {
        Some(text) => Some(JsonView::Text(text)),
        None => None,
    }
}

/// An integer to set.
pub open spec fn int_tree(value: Option<i64>) -> Option<JsonView> {
    match value {
        Some(value) => Some(JsonView::Int(value)),
        None => None,
    }
}

/// Sets a text in an object, or removes it.
pub fn set_optional_string(tree: &mut Json, key: &str, value: Option<&str>)
    ensures
        final(tree)@ == with_optional(old(tree)@, key@, text_tree(str_view(value))),
{
    match value {
        Some(value) => {
            tree.set(key, Json::from_text(value));
        },
        None => {
            tree.unset(key);
        },
    }
}

/// Sets an integer in an object, or removes it.
pub fn set_optional_i64(tree: &mut Json, key: &str, value: Option<i64>)
    ensures
        final(tree)@ == with_optional(old(tree)@, key@, int_tree(value)),
{
    match value {
        Some(value) => {
            tree.set(key, Json::from_i64(value));
        },
        None => {
            tree.unset(key);
        },
    }
}

/// An object with the fields of an entry, its other fields as they were.
pub open spec fn with_entry(tree: JsonView, entry: EntryView) -> JsonView {
    let tree = tree.with("status"@, JsonView::Text(word_of_status(entry.status)));
    let tree = with_optional(tree, "boss_id"@, text_tree(entry.boss_id));
    let tree = with_optional(tree, "hp_remaining"@, int_tree(widened(entry.hp_remaining)));
    let tree = with_optional(tree, "hp_max"@, int_tree(widened(entry.hp_max)));
    let tree = with_optional(tree, "last_engaged_at"@, int_tree(entry.last_engaged_at));
    let tree = with_optional(tree, "last_outcome"@, text_tree(entry.last_outcome));
    let tree = with_optional(
        tree,
        "first_meet_seen"@,
        if entry.first_meet_seen {
            Some(JsonView::Bool(true))
        } else {
            None
        },
    );
    with_optional(tree, "pending_phase_event_id"@, text_tree(entry.pending_phase_event_id))
}

/// What is written at a boundary over what stood there.
pub open spec fn written_progress(prior: Option<JsonView>, value: ProgressView) -> JsonView {
    match value {
        ProgressView::Legacy(status) => JsonView::Text(word_of_status(status)),
        ProgressView::Entry(entry) => with_entry(
            match prior {
                Some(tree) => tree.or_empty(),
                None => crate::json::object(),
            },
            entry,
        ),
    }
}

/// A progress object with new progress written over it. Boundaries that the new
/// progress does not have stay as they were.
pub open spec fn merged_progress(tree: JsonView, progress: Map<Seq<char>, ProgressView>) -> JsonView {
    match tree {
        JsonView::Object(map) => JsonView::Object(
            map.union_prefer_right(
                Map::new(
                    |key: Seq<char>| progress.dom().contains(key),
                    |key: Seq<char>| written_progress(tree.get(key), progress[key]),
                ),
            ),
        ),
        _ => tree,
    }
}

fn write_value(prior: Option<&Json>, value: &BossProgressValue) -> (written: Json)
    ensures
        written@ == written_progress(
            match prior {
                Some(tree) => Some(tree@),
                None => None,
            },
            value@,
        ),
{
    match value {
        BossProgressValue::Legacy(status) => Json::from_text(status_name(*status)),
        BossProgressValue::Entry(entry) => {
            let mut tree = match prior {
                Some(tree) => tree.clone().object_or_empty(),
                None => Json::empty_object(),
            };
            tree.set("status", Json::from_text(status_name(entry.status)));
            set_optional_string(&mut tree, "boss_id", crate::text::borrow_text(&entry.boss_id));
            set_optional_i64(&mut tree, "hp_remaining", widen(entry.hp_remaining));
            set_optional_i64(&mut tree, "hp_max", widen(entry.hp_max));
            set_optional_i64(&mut tree, "last_engaged_at", entry.last_engaged_at);
            set_optional_string(
                &mut tree,
                "last_outcome",
                crate::text::borrow_text(&entry.last_outcome),
            );
            if entry.first_meet_seen {
                tree.set("first_meet_seen", Json::Bool(true));
            } else {
                tree.unset("first_meet_seen");
            }
            set_optional_string(
                &mut tree,
                "pending_phase_event_id",
                crate::text::borrow_text(&entry.pending_phase_event_id),
            );
            tree
        },
    }
}

/// Writes new progress over a progress object.
pub fn write_progress(tree: Json, progress: &BossProgress) -> (merged: Json)
    ensures
        merged@ == merged_progress(tree@, progress@),
{
    let mut tree = tree;
    let ghost before = tree@;
    proof {
        use_type_invariant(progress);
        assert(progress.entries@.subrange(0, 0) =~= Seq::empty());
        assert(merged_progress(before, listed(progress.entries@.subrange(0, 0))) =~= before) by {
            match before {
                JsonView::Object(map) => {
                    assert(map.union_prefer_right(
                        Map::new(
                            |key: Seq<char>| Map::<Seq<char>, ProgressView>::empty().dom().contains(key),
                            |key: Seq<char>|
                                written_progress(before.get(key), Map::<Seq<char>, ProgressView>::empty()[key]),
                        ),
                    ) =~= map);
                },
                _ => {},
            }
        }
    }
    let mut i: usize = 0;
    while i < progress.entries.len()
        invariant
            i <= progress.entries.len(),
            distinct(progress.entries@),
            tree@ == merged_progress(before, listed(progress.entries@.subrange(0, i as int))),
        decreases progress.entries.len() - i,
    {
        let ghost seen = progress.entries@.subrange(0, i as int);
        let ghost next = progress.entries@.subrange(0, i + 1);
        let ghost key = progress.entries@[i as int].0@;
        let ghost value = progress.entries@[i as int].1@;
        proof {
            assert(distinct(seen)) by {
                assert forall|a: int, b: int| 0 <= a < b < seen.len() implies (#[trigger] seen[a]).0@
                    != (#[trigger] seen[b]).0@ by {
                    assert(progress.entries@[a].0@ != progress.entries@[b].0@);
                }
            }
            lemma_listed(seen, key);
            assert(!listed(seen).dom().contains(key)) by {
                if listed(seen).dom().contains(key) {
                    let a = choose|a: int| 0 <= a < seen.len() && (#[trigger] seen[a]).0@ == key;
                    assert(progress.entries@[a].0@ != progress.entries@[i as int].0@);
                }
            }
            assert(next.drop_last() =~= seen);
            assert(next.last() == progress.entries@[i as int]);
            lemma_merge_step(before, listed(seen), key, value);
        }
        let written = write_value(
            tree.get(progress.entries[i].0.as_str()),
            &progress.entries[i].1,
        );
        tree.set(progress.entries[i].0.as_str(), written);
        i = i + 1;
    }
    assert(progress.entries@.subrange(0, i as int) =~= progress.entries@);
    tree
}

proof fn lemma_merge_step(
    tree: JsonView,
    progress: Map<Seq<char>, ProgressView>,
    key: Seq<char>,
    value: ProgressView,
)
    requires
        !progress.dom().contains(key),
    ensures
        merged_progress(tree, progress).get(key) == tree.get(key),
        merged_progress(tree, progress.insert(key, value)) == merged_progress(tree, progress).with(
            key,
            written_progress(tree.get(key), value),
        ),
{
    match tree {
        JsonView::Object(map) => {
            let a = merged_progress(tree, progress.insert(key, value))->Object_0;
            let b = merged_progress(tree, progress).with(
                key,
                written_progress(tree.get(key), value),
            )->Object_0;
            assert(a =~= b);
        },
        _ => {},
    }
}

/// Writing an entry keeps the depth of the object it is written over.
proof fn lemma_entry_nests(tree: JsonView, entry: EntryView, levels: nat)
    requires
        tree.nests(levels),
        levels > 0,
    ensures
        with_entry(tree, entry).nests(levels),
{
    lemma_edits_nest(levels);
}

/// Writing progress keeps the depth of a tree.
proof fn lemma_merged_nests(
    tree: JsonView,
    progress: Map<Seq<char>, ProgressView>,
    levels: nat,
)
    requires
        tree.nests(levels),
        levels > 1,
    ensures
        merged_progress(tree, progress).nests(levels),
{
    match tree {
        JsonView::Object(map) => {
            let merged = merged_progress(tree, progress)->Object_0;
            assert forall|key: Seq<char>| merged.dom().contains(key) implies (
            #[trigger] merged[key]).nests((levels - 1) as nat) by {
                if progress.dom().contains(key) {
                    assert(merged[key] == written_progress(tree.get(key), progress[key]));
                    match progress[key] {
                        ProgressView::Legacy(_) => {},
                        ProgressView::Entry(entry) => {
                            let prior = match tree.get(key) {
                                Some(tree) => tree.or_empty(),
                                None => crate::json::object(),
                            };
                            assert(prior.nests((levels - 1) as nat)) by {
                                if map.dom().contains(key) {
                                    assert(map[key].nests((levels - 1) as nat));
                                }
                            }
                            lemma_entry_nests(prior, entry, (levels - 1) as nat);
                        },
                    }
                } else {
                    assert(map.dom().contains(key));
                    assert(merged[key] == map[key]);
                }
            }
        },
        _ => {},
    }
}

/// Trees that are equal apart from fractions hold the same progress.
pub proof fn law_progress_ignores_fractions(a: JsonView, b: JsonView, levels: nat)
    requires
        a.agrees(b, levels),
    ensures
        progress_tree(a) == progress_tree(b),
{
    match (a, b) {
        (JsonView::Object(x), JsonView::Object(y)) => {
            assert forall|key: Seq<char>| x.dom().contains(key) implies #[trigger] progress_of(
                x[key],
            ) == progress_of(y[key]) by {
                let below = (levels - 1) as nat;
                assert(x[key].agrees(y[key], below));
                lemma_agrees_at(x[key], y[key], "status"@, below);
                lemma_agrees_at(x[key], y[key], "boss_id"@, below);
                lemma_agrees_at(x[key], y[key], "hp_remaining"@, below);
                lemma_agrees_at(x[key], y[key], "hp_max"@, below);
                lemma_agrees_at(x[key], y[key], "last_engaged_at"@, below);
                lemma_agrees_at(x[key], y[key], "last_outcome"@, below);
                lemma_agrees_at(x[key], y[key], "first_meet_seen"@, below);
                lemma_agrees_at(x[key], y[key], "pending_phase_event_id"@, below);
            }
            assert(progress_tree(a) =~= progress_tree(b));
        },
        _ => {},
    }
}

/// Writes new progress over a progress column. What is left of an unreadable
/// column is an empty object. The text that comes out reads back as what was
/// written, apart from the fractions that the column had; its progress is the
/// progress of what was written, so a column's own progress reads back as it
/// was.
pub fn merge_boss_progress(column: Option<&str>, progress: &BossProgress) -> (merged: String)
    ensures
        merged@ == text_of_json(merged_progress(column_object(str_view(column)), progress@)),
        merged_progress(column_object(str_view(column)), progress@).is_plain(127) ==> json_of_text(
            merged@,
        ) == Some(merged_progress(column_object(str_view(column)), progress@)),
        reads_back(merged@, merged_progress(column_object(str_view(column)), progress@)),
        progress_column(Some(merged@)) == Some(
            progress_tree(merged_progress(column_object(str_view(column)), progress@)),
        ),
        progress_column(str_view(column)) == Some(progress@) ==> progress_column(Some(merged@))
            == Some(progress@),
{
    let tree = read_object(column);
    let ghost before = tree@;
    let ghost written = merged_progress(before, progress@);
    proof {
        lemma_merged_nests(before, progress@, 127);
    }
    let merged = render_json(write_progress(tree, progress));
    proof {
        law_progress_ignores_fractions(json_of_text(merged@)->0, written, 127);
        if progress_column(str_view(column)) == Some(progress@) {
            match column {
                Some(text) => {
                    if !blank(text@) {
                        law_own_progress_reads_back(json_of_text(text@)->0);
                    } else {
                        law_own_progress_reads_back(before);
                        assert(progress_tree(before) =~= Map::<Seq<char>, ProgressView>::empty());
                    }
                },
                None => {
                    law_own_progress_reads_back(before);
                    assert(progress_tree(before) =~= Map::<Seq<char>, ProgressView>::empty());
                },
            }
        }
    }
    merged
}

/// The status at a boundary; a boundary without progress has an active boss.
pub open spec fn status_at(progress: Map<Seq<char>, ProgressView>, boundary: i32) -> BossStatus {
    let key = int_text(boundary as int);
    if progress.dom().contains(key) {
        progress[key].status()
    } else {
        BossStatus::Active
    }
}

/// Reads the status at a boundary.
pub fn status_for_boundary(progress: &BossProgress, boundary: i32) -> (status: BossStatus)
    ensures
        status == status_at(progress@, boundary),
{
    let key = integer_text(boundary as i64);
    match progress.get(key.as_str()) {
        Some(value) => value.status(),
        None => BossStatus::Active,
    }
}

/// Reads the status at a boundary from a column; an unreadable column has
/// active bosses only.
pub fn status_for_boundary_raw(column: Option<&str>, boundary: i32) -> (status: BossStatus)
    ensures
        status == (match progress_column(str_view(column)) {
            Some(progress) => status_at(progress, boundary),
            None => BossStatus::Active,
        }),
{
    match parse_boss_progress(column) {
        Ok(progress) => status_for_boundary(&progress, boundary),
        Err(_) => BossStatus::Active,
    }
}

/// Whether a field belongs to an entry.
pub open spec fn entry_field(key: Seq<char>) -> bool {
    ||| key == "status"@
    ||| key == "boss_id"@
    ||| key == "hp_remaining"@
    ||| key == "hp_max"@
    ||| key == "last_engaged_at"@
    ||| key == "last_outcome"@
    ||| key == "first_meet_seen"@
    ||| key == "pending_phase_event_id"@
}

/// The fields of an entry differ.
proof fn lemma_entry_words()
    ensures
        "status"@.len() == 6,
        "boss_id"@.len() == 7,
        "hp_remaining"@.len() == 12,
        "hp_max"@.len() == 6,
        "last_engaged_at"@.len() == 15,
        "last_outcome"@.len() == 12,
        "first_meet_seen"@.len() == 15,
        "pending_phase_event_id"@.len() == 22,
        "hp_max"@[0] != "status"@[0],
        "last_outcome"@[0] != "hp_remaining"@[0],
        "last_engaged_at"@[0] != "first_meet_seen"@[0],
{
    reveal_strlit("status");
    reveal_strlit("boss_id");
    reveal_strlit("hp_remaining");
    reveal_strlit("hp_max");
    reveal_strlit("last_engaged_at");
    reveal_strlit("last_outcome");
    reveal_strlit("first_meet_seen");
    reveal_strlit("pending_phase_event_id");
}

proof fn lemma_entry_frame(tree: JsonView, entry: EntryView, key: Seq<char>)
    requires
        !entry_field(key),
    ensures
        with_entry(tree, entry).get(key) == tree.get(key),
{
}

proof fn lemma_entry_back(tree: JsonView, entry: EntryView)
    requires
        tree is Object,
        entry.boss_id != Some(Seq::<char>::empty()),
    ensures
        entry_of(with_entry(tree, entry)) == entry,
        with_entry(tree, entry) is Object,
{
    lemma_entry_words();
    law_status_reads_back(entry.status);
    assert(entry.boss_id matches Some(id) ==> id.len() != 0) by {
        if entry.boss_id is Some && entry.boss_id->0.len() == 0 {
            assert(entry.boss_id->0 =~= Seq::<char>::empty());
        }
    }
    assert(entry_of(with_entry(tree, entry)) =~= entry);
}

proof fn lemma_written_reads_back(prior: Option<JsonView>, value: ProgressView)
    requires
        value matches ProgressView::Entry(entry) ==> entry.boss_id != Some(Seq::<char>::empty()),
    ensures
        progress_of(written_progress(prior, value)) == value,
{
    match value {
        ProgressView::Legacy(status) => {
            law_status_reads_back(status);
        },
        ProgressView::Entry(entry) => {
            let base = match prior {
                Some(tree) => tree.or_empty(),
                None => crate::json::object(),
            };
            lemma_entry_back(base, entry);
        },
    }
}

/// An entry reads back from the object it was written over, and the other
/// fields of that object stay as they were. (A boss named by the empty text
/// reads back as no boss.)
pub proof fn law_entry_reads_back(tree: JsonView, entry: EntryView, key: Seq<char>)
    requires
        tree is Object,
        entry.boss_id != Some(Seq::<char>::empty()),
        !entry_field(key),
    ensures
        entry_of(with_entry(tree, entry)) == entry,
        with_entry(tree, entry).get(key) == tree.get(key),
{
    lemma_entry_back(tree, entry);
    lemma_entry_frame(tree, entry, key);
}

/// Progress reads back from the object it was written over, and boundaries that
/// it does not have stay as they were.
pub proof fn law_progress_reads_back(
    tree: JsonView,
    progress: Map<Seq<char>, ProgressView>,
    boundary: Seq<char>,
    other: Seq<char>,
)
    requires
        tree is Object,
        progress.dom().contains(boundary),
        progress[boundary] matches ProgressView::Entry(entry) ==> entry.boss_id != Some(
            Seq::<char>::empty(),
        ),
        !progress.dom().contains(other),
    ensures
        progress_tree(merged_progress(tree, progress))[boundary] == progress[boundary],
        merged_progress(tree, progress).get(other) == tree.get(other),
{
    let merged = merged_progress(tree, progress);
    lemma_written_reads_back(tree.get(boundary), progress[boundary]);
    assert(merged.get(boundary) == Some(written_progress(tree.get(boundary), progress[boundary])));
}

/// The progress that a tree holds reads back when it is written over that tree.
pub proof fn law_own_progress_reads_back(tree: JsonView)
    ensures
        progress_tree(merged_progress(tree.or_empty(), progress_tree(tree))) == progress_tree(tree),
{
    let base = tree.or_empty();
    let progress = progress_tree(tree);
    let merged = merged_progress(base, progress);
    assert(merged->Object_0.dom() =~= progress.dom());
    assert forall|key: Seq<char>| progress.dom().contains(key) implies #[trigger] progress_tree(
        merged,
    )[key] == progress[key] by {
        lemma_written_reads_back(base.get(key), progress[key]);
        assert(merged->Object_0[key] == written_progress(base.get(key), progress[key]));
    }
    assert(progress_tree(merged) =~= progress);
}

/// What is written over an entry keeps every field that is none of an entry's.
pub proof fn law_merge_keeps_other_fields(
    tree: JsonView,
    progress: Map<Seq<char>, ProgressView>,
    boundary: Seq<char>,
    key: Seq<char>,
)
    requires
        tree is Object,
        tree.get(boundary) matches Some(prior) && prior is Object,
        progress.dom().contains(boundary) ==> progress[boundary] is Entry,
        !entry_field(key),
    ensures
        merged_progress(tree, progress).get(boundary) matches Some(after) && after.get(key)
            == tree.get(boundary)->0.get(key),
{
    if progress.dom().contains(boundary) {
        lemma_entry_frame(tree.get(boundary)->0, progress[boundary]->Entry_0, key);
    }
}

/// A column that progress was written over reads back with its progress, with
/// every field of an entry that is none of an entry's own, and with every
/// boundary that the progress does not have, apart from fractions.
pub proof fn law_merged_column_reads_back(
    tree: JsonView,
    progress: Map<Seq<char>, ProgressView>,
    text: Seq<char>,
    boundary: Seq<char>,
    key: Seq<char>,
    other: Seq<char>,
)
    requires
        tree is Object,
        reads_back(text, merged_progress(tree, progress)),
        tree.get(boundary) matches Some(prior) && prior is Object,
        progress.dom().contains(boundary) ==> progress[boundary] is Entry,
        !entry_field(key),
        !progress.dom().contains(other),
    ensures
        ({
            let back = column_object(Some(text));
            let kept = back.get(boundary)->0.get(key);
            let stood = tree.get(boundary)->0.get(key);
            &&& progress_column(Some(text)) == Some(progress_tree(merged_progress(tree, progress)))
            &&& back.get(boundary) is Some
            &&& kept is Some == stood is Some
            &&& kept is Some ==> kept->0.agrees(stood->0, 125)
            &&& back.get(other) is Some == tree.get(other) is Some
            &&& back.get(other) is Some ==> back.get(other)->0.agrees(tree.get(other)->0, 126)
        }),
{
    let merged = merged_progress(tree, progress);
    let back = json_of_text(text)->0;
    law_progress_ignores_fractions(back, merged, 127);
    law_merge_keeps_other_fields(tree, progress, boundary, key);
    lemma_agrees_at(back, merged, boundary, 127);
    lemma_agrees_at(back.get(boundary)->0, merged.get(boundary)->0, key, 126);
    lemma_agrees_at(back, merged, other, 127);
    assert(merged.get(other) == tree.get(other));
}

} // verus!
