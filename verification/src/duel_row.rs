//! The row that a waiting fight is kept in.

use crate::arith::{larger32, max_of32};
use crate::boss_store::PlayerKey;
use crate::boss_tunnel::{fits, narrow_i32, out_of_range};
use crate::combat::{CombatEffects, EffectsView};
use crate::condition::column_tree;
use crate::duel::{
    bad_risk, effects_field, effects_of, effects_tree, flag, law_risk_reads_back,
    law_round_reads_back, narrow_or_zero, parse_risk, read_effects, read_flag, read_narrow_or_zero,
    read_round, risk_name, risk_of_word, round_of, round_record_json, round_tree, word_of_risk,
    write_effects, RiskTier, RoundRecord, RoundView,
};
use crate::json::{
    collect_ints, column_object, int_array, ints_of, json_of_text, lemma_agrees_at,
    lemma_agrees_plain, lemma_agrees_values, lemma_edits_nest, lemma_ints_read_back,
    lemma_plain_nests, lemma_views_index, object, optional_int, parse_json, read_object, reads_back,
    render_json, text_of_json, tree_view, tree_views, uint_tree, Json, JsonView,
};
use crate::progress::{narrow, narrowed};
use crate::text::{copy_text, join2, str_view, text_view};
use vstd::prelude::*;

verus! {

/// What a list of rounds holds.
pub open spec fn round_views(rounds: Seq<RoundRecord>) -> Seq<RoundView> {
    rounds.map_values(|x: RoundRecord| x@)
}

/// How a list of rounds is written.
pub open spec fn rounds_tree(rounds: Seq<RoundView>) -> JsonView {
    JsonView::Array(rounds.map_values(|round: RoundView| round_tree(round)))
}

/// The rounds among a list of trees, in their order.
pub open spec fn rounds_of(items: Seq<JsonView>) -> Seq<RoundView>
    decreases items.len(),
{
    if items.len() == 0 {
        Seq::empty()
    } else {
        match round_of(items.last()) {
            Some(round) => rounds_of(items.drop_last()).push(round),
            None => rounds_of(items.drop_last()),
        }
    }
}

/// The rounds that a tree lists.
pub open spec fn rounds_in(tree: Option<JsonView>) -> Seq<RoundView> {
    match tree {
        Some(JsonView::Array(items)) => rounds_of(items),
        _ => Seq::empty(),
    }
}

/// Rounds read back from how they are written.
pub proof fn law_rounds_read_back(rounds: Seq<RoundView>)
    ensures
        rounds_in(Some(rounds_tree(rounds))) == rounds,
    decreases rounds.len(),
{
    let items = rounds_tree(rounds)->Array_0;
    if rounds.len() == 0 {
        assert(rounds =~= Seq::empty());
        assert(items.len() == 0);
    } else {
        let rest = rounds.drop_last();
        law_rounds_read_back(rest);
        law_round_reads_back(rounds.last());
        assert(items.drop_last() =~= rounds_tree(rest)->Array_0);
        assert(items.last() == round_tree(rounds.last()));
        assert(rounds =~= rest.push(rounds.last()));
    }
}

pub(crate) fn write_rounds(rounds: &Vec<RoundRecord>) -> (tree: Json)
    ensures
        tree@ == rounds_tree(round_views(rounds@)),
{
    let mut items: Vec<Json> = Vec::new();
    let mut i: usize = 0;
    while i < rounds.len()
        invariant
            i <= rounds.len(),
            items.len() == i,
            forall|j: int|
                0 <= j < i ==> tree_view(#[trigger] items@[j]) == round_tree(rounds@[j]@),
        decreases rounds.len() - i,
    {
        items.push(round_record_json(&rounds[i]));
        i = i + 1;
    }
    proof {
        lemma_views_index(items@);
        let wanted = rounds_tree(round_views(rounds@))->Array_0;
        assert forall|j: int| 0 <= j < wanted.len() implies tree_views(items@)[j] == wanted[j] by {
            assert(tree_views(items@)[j] == tree_view(items@[j]));
        }
        assert(tree_views(items@) =~= wanted);
    }
    Json::Array(items)
}

/// Reads the rounds that a text lists.
pub fn parse_round_log(text: &str) -> (rounds: Vec<RoundRecord>)
    ensures
        round_views(rounds@) == rounds_in(json_of_text(text@)),
{
    let listed = match parse_json(text) {
        Some(Json::Array(items)) => items,
        _ => Vec::new(),
    };
    let ghost views = tree_views(listed@);
    proof {
        lemma_views_index(listed@);
        assert(rounds_of(Seq::empty()) =~= Seq::empty());
        assert(rounds_in(json_of_text(text@)) == rounds_of(views));
    }
    let mut rounds: Vec<RoundRecord> = Vec::new();
    assert(round_views(rounds@) =~= Seq::empty());
    let mut i: usize = 0;
    while i < listed.len()
        invariant
            i <= listed.len(),
            views.len() == listed.len(),
            forall|j: int| 0 <= j < listed.len() ==> #[trigger] views[j] == tree_view(listed@[j]),
            round_views(rounds@) == rounds_of(views.subrange(0, i as int)),
        decreases listed.len() - i,
    {
        proof {
            let next = views.subrange(0, i + 1);
            assert(next.drop_last() =~= views.subrange(0, i as int));
            assert(next.last() == views[i as int]);
        }
        match read_round(&listed[i]) {
            Some(round) => {
                let ghost before = round_views(rounds@);
                let ghost added = round@;
                rounds.push(round);
                assert(round_views(rounds@) =~= before.push(added));
            },
            None => {},
        }
        i = i + 1;
    }
    assert(views.subrange(0, i as int) =~= views);
    rounds
}

/// One answer that a prompt offers.
#[derive(Debug, PartialEq, Eq)]
pub struct PromptOption {
    pub option_index: usize,
    pub label: String,
}

/// What a [`PromptOption`] holds.
#[verifier::ext_equal]
pub struct OptionView {
    pub option_index: usize,
    pub label: Seq<char>,
}

impl View for PromptOption {
    type V = OptionView;

    open spec fn view(&self) -> OptionView {
        OptionView {
            option_index: self.option_index,
            label: self.label@,
        }
    }
}

impl Clone for PromptOption {
    fn clone(&self) -> (copy: PromptOption)
        ensures
            copy == *self,
    {
        PromptOption {
            option_index: self.option_index,
            label: self.label.clone(),
        }
    }
}

/// The question that a fight waits on.
#[derive(Debug, PartialEq, Eq)]
pub struct PendingPrompt {
    pub mechanic_id: String,
    pub prompt_title: String,
    pub prompt_description: String,
    pub options: Vec<PromptOption>,
    pub safe_option_index: usize,
}

/// What a [`PendingPrompt`] holds.
#[verifier::ext_equal]
pub struct PromptView {
    pub mechanic_id: Seq<char>,
    pub prompt_title: Seq<char>,
    pub prompt_description: Seq<char>,
    pub options: Seq<OptionView>,
    pub safe_option_index: usize,
}

impl View for PendingPrompt {
    type V = PromptView;

    open spec fn view(&self) -> PromptView {
        PromptView {
            mechanic_id: self.mechanic_id@,
            prompt_title: self.prompt_title@,
            prompt_description: self.prompt_description@,
            options: self.options@.map_values(|x: PromptOption| x@),
            safe_option_index: self.safe_option_index,
        }
    }
}

impl Clone for PendingPrompt {
    fn clone(&self) -> (copy: PendingPrompt)
        ensures
            copy@ == self@,
    {
        let copy = PendingPrompt {
            mechanic_id: self.mechanic_id.clone(),
            prompt_title: self.prompt_title.clone(),
            prompt_description: self.prompt_description.clone(),
            options: self.options.clone(),
            safe_option_index: self.safe_option_index,
        };
        assert(copy@ =~= self@);
        copy
    }
}

/// How an answer is written.
pub open spec fn option_tree(option: OptionView) -> JsonView {
    object().with("option_index"@, uint_tree(option.option_index as u64)).with(
        "label"@,
        JsonView::Text(option.label),
    )
}

/// How a prompt is written.
pub open spec fn prompt_tree(prompt: PromptView) -> JsonView {
    object().with("mechanic_id"@, JsonView::Text(prompt.mechanic_id)).with(
        "title"@,
        JsonView::Text(prompt.prompt_title),
    ).with("description"@, JsonView::Text(prompt.prompt_description)).with(
        "options"@,
        JsonView::Array(prompt.options.map_values(|option: OptionView| option_tree(option))),
    ).with("safe_option_idx"@, uint_tree(prompt.safe_option_index as u64))
}

/// An index read from a tree.
pub open spec fn index_of(value: Option<u64>, otherwise: int) -> usize {
    match value {
        Some(value) => if value <= usize::MAX {
            value as usize
        } else {
            otherwise as usize
        },
        None => otherwise as usize,
    }
}

/// The answer that a tree holds. Without an index of its own it has its place
/// in the list.
pub open spec fn option_of(tree: JsonView, place: int) -> Option<OptionView> {
    match tree.text_at("label"@) {
        Some(label) => Some(
            OptionView { option_index: index_of(tree.uint_at("option_index"@), place), label },
        ),
        None => None,
    }
}

/// The answers among a list of trees.
pub open spec fn options_of(items: Seq<JsonView>) -> Seq<OptionView>
    decreases items.len(),
{
    if items.len() == 0 {
        Seq::empty()
    } else {
        match option_of(items.last(), items.len() - 1) {
            Some(option) => options_of(items.drop_last()).push(option),
            None => options_of(items.drop_last()),
        }
    }
}

/// What stands under the first of two fields that is there.
pub open spec fn either_field(tree: JsonView, first: Seq<char>, second: Seq<char>) -> Option<
    JsonView,
> {
    match tree.get(first) {
        Some(value) => Some(value),
        None => tree.get(second),
    }
}

/// The text of an optional tree.
pub open spec fn text_of(tree: Option<JsonView>) -> Option<Seq<char>> {
    match tree {
        Some(tree) => tree.text_value(),
        None => None,
    }
}

/// The natural number of an optional tree.
pub open spec fn uint_of(tree: Option<JsonView>) -> Option<u64> {
    match tree {
        Some(tree) => tree.uint_value(),
        None => None,
    }
}

/// The prompt that a tree holds, under the names of today or the older ones.
pub open spec fn prompt_of(tree: JsonView) -> Option<PromptView> {
    let title = text_of(either_field(tree, "title"@, "prompt_title"@));
    let description = text_of(either_field(tree, "description"@, "prompt_description"@));
    match tree.get("options"@) {
        Some(JsonView::Array(items)) => if tree.text_at("mechanic_id"@) is Some && title is Some
            && description is Some {
            Some(
                PromptView {
                    mechanic_id: tree.text_at("mechanic_id"@)->0,
                    prompt_title: title->0,
                    prompt_description: description->0,
                    options: options_of(items),
                    safe_option_index: index_of(
                        uint_of(either_field(tree, "safe_option_idx"@, "safe_option_index"@)),
                        0,
                    ),
                },
            )
        } else {
            None
        },
        _ => None,
    }
}

/// Whether every index of a prompt is in the `i64` range, as that of a place in
/// a list is.
pub open spec fn has_places(prompt: PromptView) -> bool {
    &&& prompt.safe_option_index <= i64::MAX
    &&& forall|i: int|
        0 <= i < prompt.options.len() ==> (#[trigger] prompt.options[i]).option_index <= i64::MAX
}

/// Writes a prompt.
pub fn prompt_json(prompt: &PendingPrompt) -> (tree: Json)
    ensures
        tree@ == prompt_tree(prompt@),
        prompt_of(tree@) == Some(prompt@),
{
    let ghost views = prompt@.options;
    let mut items: Vec<Json> = Vec::new();
    let mut i: usize = 0;
    while i < prompt.options.len()
        invariant
            i <= prompt.options.len(),
            items.len() == i,
            views == prompt@.options,
            forall|j: int| 0 <= j < i ==> tree_view(#[trigger] items@[j]) == option_tree(views[j]),
            forall|j: int| 0 <= j < i ==> reads_index((#[trigger] views[j]).option_index),
        decreases prompt.options.len() - i,
    {
        assert(views[i as int] == prompt.options@[i as int]@);
        let mut option = Json::empty_object();
        let index = Json::from_u64(prompt.options[i].option_index as u64);
        assert(reads_index(views[i as int].option_index));
        option.set("option_index", index);
        option.set("label", Json::from_text(prompt.options[i].label.as_str()));
        items.push(option);
        i = i + 1;
    }
    proof {
        lemma_views_index(items@);
        let wanted = views.map_values(|option: OptionView| option_tree(option));
        assert forall|j: int| 0 <= j < wanted.len() implies tree_views(items@)[j] == wanted[j] by {
            assert(tree_views(items@)[j] == tree_view(items@[j]));
        }
        assert(tree_views(items@) =~= wanted);
    }
    let mut tree = Json::empty_object();
    tree.set("mechanic_id", Json::from_text(prompt.mechanic_id.as_str()));
    tree.set("title", Json::from_text(prompt.prompt_title.as_str()));
    tree.set("description", Json::from_text(prompt.prompt_description.as_str()));
    tree.set("options", Json::Array(items));
    let safe = Json::from_u64(prompt.safe_option_index as u64);
    assert(reads_index(prompt@.safe_option_index));
    tree.set("safe_option_idx", safe);
    proof {
        lemma_prompt_back(prompt@);
    }
    tree
}

/// Whether an index reads back from the number it is written as.
spec fn reads_index(index: usize) -> bool {
    uint_tree(index as u64).uint_value() == Some(index as u64)
}

fn read_index(value: Option<u64>, otherwise: usize) -> (index: usize)
    ensures
        index == index_of(value, otherwise as int),
{
    match value {
        Some(value) => {
            if value <= usize::MAX as u64 {
                value as usize
            } else {
                otherwise
            }
        },
        None => otherwise,
    }
}

fn read_options(items: &Vec<Json>) -> (options: Vec<PromptOption>)
    ensures
        options@.map_values(|x: PromptOption| x@) == options_of(tree_views(items@)),
{
    let ghost views = tree_views(items@);
    proof {
        lemma_views_index(items@);
    }
    let mut options: Vec<PromptOption> = Vec::new();
    assert(options@.map_values(|x: PromptOption| x@) =~= Seq::empty());
    let mut i: usize = 0;
    while i < items.len()
        invariant
            i <= items.len(),
            views.len() == items.len(),
            forall|j: int| 0 <= j < items.len() ==> #[trigger] views[j] == tree_view(items@[j]),
            options@.map_values(|x: PromptOption| x@) == options_of(views.subrange(0, i as int)),
        decreases items.len() - i,
    {
        proof {
            let next = views.subrange(0, i + 1);
            assert(next.drop_last() =~= views.subrange(0, i as int));
            assert(next.last() == views[i as int]);
        }
        match items[i].text_at("label") {
            Some(label) => {
                let option = PromptOption {
                    option_index: read_index(items[i].uint_at("option_index"), i),
                    label: label.to_owned(),
                };
                let ghost before = options@.map_values(|x: PromptOption| x@);
                let ghost added = option@;
                options.push(option);
                assert(options@.map_values(|x: PromptOption| x@) =~= before.push(added));
            },
            None => {},
        }
        i = i + 1;
    }
    assert(views.subrange(0, i as int) =~= views);
    options
}

fn read_either<'a>(tree: &'a Json, first: &str, second: &str) -> (found: Option<&'a Json>)
    ensures
        either_field(tree@, first@, second@) == (match found {
            Some(value) => Some(value@),
            None => None,
        }),
{
    match tree.get(first) {
        Some(value) => Some(value),
        None => tree.get(second),
    }
}

fn text_under<'a>(tree: &'a Json, first: &str, second: &str) -> (text: Option<&'a str>)
    ensures
        str_view(text) == text_of(either_field(tree@, first@, second@)),
{
    match read_either(tree, first, second) {
        Some(value) => value.as_text(),
        None => None,
    }
}

/// The view of an optional prompt.
pub open spec fn prompt_view(prompt: Option<PendingPrompt>) -> Option<PromptView> {
    match prompt {
        Some(prompt) => Some(prompt@),
        None => None,
    }
}

/// The prompt that an optional text holds.
pub open spec fn prompt_in(tree: Option<JsonView>) -> Option<PromptView> {
    match tree {
        Some(tree) => prompt_of(tree),
        None => None,
    }
}

/// Reads the prompt that a text holds.
pub fn parse_prompt(text: &str) -> (prompt: Option<PendingPrompt>)
    ensures
        prompt_view(prompt) == prompt_in(json_of_text(text@)),
{
    let tree = match parse_json(text) {
        Some(tree) => tree,
        None => {
            return None;
        },
    };
    let items = match tree.get("options") {
        Some(Json::Array(items)) => items,
        _ => {
            return None;
        },
    };
    let safe = match read_either(&tree, "safe_option_idx", "safe_option_index") {
        Some(value) => value.as_u64(),
        None => None,
    };
    match (
        tree.text_at("mechanic_id"),
        text_under(&tree, "title", "prompt_title"),
        text_under(&tree, "description", "prompt_description"),
    ) {
        (Some(mechanic_id), Some(title), Some(description)) => Some(
            PendingPrompt {
                mechanic_id: mechanic_id.to_owned(),
                prompt_title: title.to_owned(),
                prompt_description: description.to_owned(),
                options: read_options(items),
                safe_option_index: read_index(safe, 0),
            },
        ),
        _ => None,
    }
}

/// The fields of a prompt differ.
proof fn lemma_prompt_words()
    ensures
        "mechanic_id"@.len() == 11,
        "title"@.len() == 5,
        "description"@.len() == 11,
        "options"@.len() == 7,
        "safe_option_idx"@.len() == 15,
        "option_index"@.len() == 12,
        "label"@.len() == 5,
        "mechanic_id"@[0] != "description"@[0],
        "title"@[0] != "label"@[0],
{
    reveal_strlit("mechanic_id");
    reveal_strlit("title");
    reveal_strlit("description");
    reveal_strlit("options");
    reveal_strlit("safe_option_idx");
    reveal_strlit("option_index");
    reveal_strlit("label");
}

proof fn lemma_options_read_back(options: Seq<OptionView>)
    requires
        forall|i: int| 0 <= i < options.len() ==> reads_index((#[trigger] options[i]).option_index),
    ensures
        options_of(options.map_values(|option: OptionView| option_tree(option))) == options,
    decreases options.len(),
{
    let items = options.map_values(|option: OptionView| option_tree(option));
    if options.len() == 0 {
        assert(options =~= Seq::empty());
    } else {
        let rest = options.drop_last();
        assert forall|i: int| 0 <= i < rest.len() implies reads_index(
            (#[trigger] rest[i]).option_index,
        ) by {
            assert(reads_index(options[i].option_index));
        }
        lemma_options_read_back(rest);
        assert(items.drop_last() =~= rest.map_values(|option: OptionView| option_tree(option)));
        let last = options[options.len() - 1];
        assert(items.last() == option_tree(last));
        assert(option_of(option_tree(last), items.len() - 1) == Some(last)) by {
            lemma_prompt_words();
            assert(option_tree(last).get("label"@) == Some(JsonView::Text(last.label)));
            assert(option_tree(last).get("option_index"@) == Some(
                uint_tree(last.option_index as u64),
            ));
            assert(reads_index(options[options.len() - 1].option_index));
        }
        assert(options =~= rest.push(last));
    }
}

proof fn lemma_prompt_back(prompt: PromptView)
    requires
        reads_index(prompt.safe_option_index),
        forall|i: int|
            0 <= i < prompt.options.len() ==> reads_index((#[trigger] prompt.options[i]).option_index),
    ensures
        prompt_of(prompt_tree(prompt)) == Some(prompt),
{
    lemma_prompt_words();
    lemma_options_read_back(prompt.options);
    let tree = prompt_tree(prompt);
    assert(tree.get("mechanic_id"@) == Some(JsonView::Text(prompt.mechanic_id)));
    assert(tree.get("title"@) == Some(JsonView::Text(prompt.prompt_title)));
    assert(tree.get("description"@) == Some(JsonView::Text(prompt.prompt_description)));
    assert(tree.get("safe_option_idx"@) == Some(uint_tree(prompt.safe_option_index as u64)));
    assert(prompt_of(tree)->0 =~= prompt);
}

/// A prompt reads back from how it is written.
pub proof fn law_prompt_reads_back(prompt: PromptView)
    requires
        has_places(prompt),
    ensures
        prompt_of(prompt_tree(prompt)) == Some(prompt),
{
    lemma_prompt_back(prompt);
}

/// Lists that are equal apart from fractions hold the same answers.
proof fn lemma_options_agree(a: Seq<JsonView>, b: Seq<JsonView>, levels: nat)
    requires
        a.len() == b.len(),
        forall|i: int| 0 <= i < a.len() ==> (#[trigger] a[i]).agrees(b[i], levels),
    ensures
        options_of(a) == options_of(b),
    decreases a.len(),
{
    if a.len() > 0 {
        let last = a.len() - 1;
        assert forall|i: int| 0 <= i < last implies (#[trigger] a.drop_last()[i]).agrees(
            b.drop_last()[i],
            levels,
        ) by {
            assert(a[i].agrees(b[i], levels));
        }
        lemma_options_agree(a.drop_last(), b.drop_last(), levels);
        assert(a[last].agrees(b[last], levels));
        lemma_agrees_at(a[last], b[last], "label"@, levels);
        lemma_agrees_at(a[last], b[last], "option_index"@, levels);
    }
}

proof fn lemma_either_agrees(
    a: JsonView,
    b: JsonView,
    first: Seq<char>,
    second: Seq<char>,
    levels: nat,
)
    requires
        a.agrees(b, levels),
    ensures
        text_of(either_field(a, first, second)) == text_of(either_field(b, first, second)),
        uint_of(either_field(a, first, second)) == uint_of(either_field(b, first, second)),
{
    lemma_agrees_at(a, b, first, levels);
    lemma_agrees_at(a, b, second, levels);
    let x = either_field(a, first, second);
    let y = either_field(b, first, second);
    if x is Some {
        lemma_agrees_values(x->0, y->0, (levels - 1) as nat);
    }
}

/// Trees that are equal apart from fractions hold the same prompt.
pub proof fn law_prompt_ignores_fractions(a: JsonView, b: JsonView, levels: nat)
    requires
        a.agrees(b, levels),
    ensures
        prompt_of(a) == prompt_of(b),
{
    lemma_agrees_at(a, b, "options"@, levels);
    lemma_agrees_at(a, b, "mechanic_id"@, levels);
    lemma_either_agrees(a, b, "title"@, "prompt_title"@, levels);
    lemma_either_agrees(a, b, "description"@, "prompt_description"@, levels);
    lemma_either_agrees(a, b, "safe_option_idx"@, "safe_option_index"@, levels);
    match (a.get("options"@), b.get("options"@)) {
        (Some(JsonView::Array(x)), Some(JsonView::Array(y))) => {
            lemma_options_agree(x, y, (levels - 2) as nat);
        },
        _ => {},
    }
}

/// The gear that a fight was started in.
#[derive(Debug, PartialEq, Eq)]
pub struct GearSnapshot {
    pub gear_ids: Vec<i64>,
    pub armor_id: Option<i64>,
}

/// What a [`GearSnapshot`] holds.
#[verifier::ext_equal]
pub struct GearSnapshotView {
    pub gear_ids: Seq<i64>,
    pub armor_id: Option<i64>,
}

impl View for GearSnapshot {
    type V = GearSnapshotView;

    open spec fn view(&self) -> GearSnapshotView {
        GearSnapshotView {
            gear_ids: self.gear_ids@,
            armor_id: self.armor_id,
        }
    }
}

impl Clone for GearSnapshot {
    fn clone(&self) -> (copy: GearSnapshot)
        ensures
            copy@ == self@,
    {
        let copy = GearSnapshot {
            gear_ids: self.gear_ids.clone(),
            armor_id: self.armor_id,
        };
        assert(copy@ =~= self@);
        copy
    }
}

/// A fight that waits for an answer. Hit chances are kept beside it.
#[derive(Debug)]
pub struct PausedBossDuel {
    pub boss_id: String,
    pub boundary: i32,
    pub mechanic_id: String,
    pub risk_tier: RiskTier,
    pub wager: i64,
    pub player_hp: i32,
    pub boss_hp: i32,
    pub player_damage: i32,
    pub boss_damage: i32,
    pub critical_bonus: i32,
    pub effects: CombatEffects,
    pub round_num: u8,
    pub round_log: Vec<RoundRecord>,
    pub pending_prompt: PendingPrompt,
    pub attempts_this_fight: i32,
    /// A number.
    pub initial_win_chance: Json,
    /// A number.
    pub payout_multiplier: Json,
    pub boss_hp_max: i32,
    pub starting_boss_hp: i32,
    pub gear_snapshot: GearSnapshot,
    pub forced_no_wager_phase: bool,
    pub echo_applied: bool,
    pub echo_killer_id: Option<i64>,
}

/// What a [`PausedBossDuel`] holds.
#[verifier::ext_equal]
pub struct DuelView {
    pub boss_id: Seq<char>,
    pub boundary: i32,
    pub mechanic_id: Seq<char>,
    pub risk_tier: RiskTier,
    pub wager: i64,
    pub player_hp: i32,
    pub boss_hp: i32,
    pub player_damage: i32,
    pub boss_damage: i32,
    pub critical_bonus: i32,
    pub effects: EffectsView,
    pub round_num: u8,
    pub round_log: Seq<RoundView>,
    pub pending_prompt: PromptView,
    pub attempts_this_fight: i32,
    pub initial_win_chance: JsonView,
    pub payout_multiplier: JsonView,
    pub boss_hp_max: i32,
    pub starting_boss_hp: i32,
    pub gear_snapshot: GearSnapshotView,
    pub forced_no_wager_phase: bool,
    pub echo_applied: bool,
    pub echo_killer_id: Option<i64>,
}

impl View for PausedBossDuel {
    type V = DuelView;

    open spec fn view(&self) -> DuelView {
        DuelView {
            boss_id: self.boss_id@,
            boundary: self.boundary,
            mechanic_id: self.mechanic_id@,
            risk_tier: self.risk_tier,
            wager: self.wager,
            player_hp: self.player_hp,
            boss_hp: self.boss_hp,
            player_damage: self.player_damage,
            boss_damage: self.boss_damage,
            critical_bonus: self.critical_bonus,
            effects: self.effects@,
            round_num: self.round_num,
            round_log: self.round_log@.map_values(|x: RoundRecord| x@),
            pending_prompt: self.pending_prompt@,
            attempts_this_fight: self.attempts_this_fight,
            initial_win_chance: self.initial_win_chance@,
            payout_multiplier: self.payout_multiplier@,
            boss_hp_max: self.boss_hp_max,
            starting_boss_hp: self.starting_boss_hp,
            gear_snapshot: self.gear_snapshot@,
            forced_no_wager_phase: self.forced_no_wager_phase,
            echo_applied: self.echo_applied,
            echo_killer_id: self.echo_killer_id,
        }
    }
}

/// The row that a waiting fight is kept in.
#[derive(Debug, PartialEq, Eq)]
pub struct DigBossPausedDuelRow {
    pub key: PlayerKey,
    pub boss_id: String,
    pub boundary: i64,
    pub mechanic_id: String,
    pub risk_tier: String,
    pub wager: i64,
    pub player_hp: i64,
    pub boss_hp: i64,
    pub round_num: i64,
    pub round_log_json: String,
    pub pending_prompt_json: Option<String>,
    pub rng_state: String,
    pub status_effects_json: String,
    pub echo_applied: bool,
    pub echo_killer_id: Option<i64>,
    pub player_damage: i64,
    pub boss_damage: i64,
    pub critical_bonus: i64,
    pub created_at: i64,
    pub last_interaction_at: i64,
}

/// What a [`DigBossPausedDuelRow`] holds.
#[verifier::ext_equal]
pub struct DuelRowView {
    pub key: PlayerKey,
    pub boss_id: Seq<char>,
    pub boundary: i64,
    pub mechanic_id: Seq<char>,
    pub risk_tier: Seq<char>,
    pub wager: i64,
    pub player_hp: i64,
    pub boss_hp: i64,
    pub round_num: i64,
    pub round_log_json: Seq<char>,
    pub pending_prompt_json: Option<Seq<char>>,
    pub rng_state: Seq<char>,
    pub status_effects_json: Seq<char>,
    pub echo_applied: bool,
    pub echo_killer_id: Option<i64>,
    pub player_damage: i64,
    pub boss_damage: i64,
    pub critical_bonus: i64,
    pub created_at: i64,
    pub last_interaction_at: i64,
}

impl View for DigBossPausedDuelRow {
    type V = DuelRowView;

    open spec fn view(&self) -> DuelRowView {
        DuelRowView {
            key: self.key,
            boss_id: self.boss_id@,
            boundary: self.boundary,
            mechanic_id: self.mechanic_id@,
            risk_tier: self.risk_tier@,
            wager: self.wager,
            player_hp: self.player_hp,
            boss_hp: self.boss_hp,
            round_num: self.round_num,
            round_log_json: self.round_log_json@,
            pending_prompt_json: text_view(self.pending_prompt_json),
            rng_state: self.rng_state@,
            status_effects_json: self.status_effects_json@,
            echo_applied: self.echo_applied,
            echo_killer_id: self.echo_killer_id,
            player_damage: self.player_damage,
            boss_damage: self.boss_damage,
            critical_bonus: self.critical_bonus,
            created_at: self.created_at,
            last_interaction_at: self.last_interaction_at,
        }
    }
}

impl Clone for DigBossPausedDuelRow {
    fn clone(&self) -> (copy: DigBossPausedDuelRow)
        ensures
            copy == *self,
    {
        DigBossPausedDuelRow {
            key: self.key,
            boss_id: self.boss_id.clone(),
            boundary: self.boundary,
            mechanic_id: self.mechanic_id.clone(),
            risk_tier: self.risk_tier.clone(),
            wager: self.wager,
            player_hp: self.player_hp,
            boss_hp: self.boss_hp,
            round_num: self.round_num,
            round_log_json: self.round_log_json.clone(),
            pending_prompt_json: copy_text(&self.pending_prompt_json),
            rng_state: self.rng_state.clone(),
            status_effects_json: self.status_effects_json.clone(),
            echo_applied: self.echo_applied,
            echo_killer_id: self.echo_killer_id,
            player_damage: self.player_damage,
            boss_damage: self.boss_damage,
            critical_bonus: self.critical_bonus,
            created_at: self.created_at,
            last_interaction_at: self.last_interaction_at,
        }
    }
}

/// What is written of a fight besides its effects.
pub open spec fn fight_tree(tree: JsonView, duel: DuelView) -> JsonView {
    tree.with("attempts_this_fight"@, JsonView::Int(duel.attempts_this_fight as i64)).with(
        "initial_win_chance"@,
        duel.initial_win_chance,
    ).with("multiplier"@, duel.payout_multiplier).with(
        "boss_hp_max"@,
        JsonView::Int(duel.boss_hp_max as i64),
    ).with("starting_boss_hp"@, JsonView::Int(duel.starting_boss_hp as i64)).with(
        "gear_snapshot_ids"@,
        int_array(duel.gear_snapshot.gear_ids),
    ).with("armor_snapshot_id"@, optional_int(duel.gear_snapshot.armor_id)).with(
        "forced_no_wager_phase"@,
        JsonView::Bool(duel.forced_no_wager_phase),
    )
}

/// The status of a fight, as it is written.
pub open spec fn status_tree(duel: DuelView) -> JsonView {
    fight_tree(effects_tree(object(), duel.effects), duel)
}

/// The gear that a status names.
pub open spec fn gear_in(status: JsonView) -> GearSnapshotView {
    GearSnapshotView {
        gear_ids: match status.get("gear_snapshot_ids"@) {
            Some(JsonView::Array(items)) => ints_of(items),
            _ => Seq::empty(),
        },
        armor_id: status.int_at("armor_snapshot_id"@),
    }
}

/// A number that a status keeps, or the one that stands for none.
pub open spec fn kept_number(value: Option<JsonView>, otherwise: JsonView) -> JsonView {
    match value {
        Some(value) => if value.is_number() {
            value
        } else {
            otherwise
        },
        None => otherwise,
    }
}

/// The row that a fight is kept in.
pub open spec fn row_of(key: PlayerKey, duel: DuelView, now: i64) -> DuelRowView {
    DuelRowView {
        key,
        boss_id: duel.boss_id,
        boundary: duel.boundary as i64,
        mechanic_id: duel.mechanic_id,
        risk_tier: word_of_risk(duel.risk_tier),
        wager: duel.wager,
        player_hp: duel.player_hp as i64,
        boss_hp: duel.boss_hp as i64,
        round_num: duel.round_num as i64,
        round_log_json: text_of_json(rounds_tree(duel.round_log)),
        pending_prompt_json: Some(text_of_json(prompt_tree(duel.pending_prompt))),
        rng_state: Seq::empty(),
        status_effects_json: text_of_json(status_tree(duel)),
        echo_applied: duel.echo_applied,
        echo_killer_id: duel.echo_killer_id,
        player_damage: duel.player_damage as i64,
        boss_damage: duel.boss_damage as i64,
        critical_bonus: duel.critical_bonus as i64,
        created_at: now,
        last_interaction_at: now,
    }
}

/// Puts a waiting fight into a row. Where the row can give the fight back,
/// nothing keeps it from being read, and its texts hold the fight.
pub fn paused_duel_row(key: PlayerKey, duel: &PausedBossDuel, now: i64) -> (row: DigBossPausedDuelRow)
    ensures
        row@ == row_of(key, duel@, now),
        keepable(duel@) ==> row_obstacle(row@, true) is None,
        keepable(duel@) ==> forall|fallback: PromptView, chance: JsonView, payout: JsonView|
            same_fight(#[trigger] fight_in(row@, fallback, chance, payout), duel@),
{
    let mut status = Json::empty_object();
    write_effects(&mut status, &duel.effects);
    status.set("attempts_this_fight", Json::from_i64(duel.attempts_this_fight as i64));
    status.set("initial_win_chance", duel.initial_win_chance.clone());
    status.set("multiplier", duel.payout_multiplier.clone());
    status.set("boss_hp_max", Json::from_i64(duel.boss_hp_max as i64));
    status.set("starting_boss_hp", Json::from_i64(duel.starting_boss_hp as i64));
    status.set("gear_snapshot_ids", Json::from_ints(&duel.gear_snapshot.gear_ids));
    status.set("armor_snapshot_id", Json::from_optional_i64(duel.gear_snapshot.armor_id));
    status.set("forced_no_wager_phase", Json::Bool(duel.forced_no_wager_phase));
    let rng_state = "".to_owned();
    proof {
        reveal_strlit("");
        assert(""@ =~= Seq::<char>::empty());
    }
    proof {
        lemma_prompt_nests(duel@.pending_prompt);
        if keepable(duel@) {
            lemma_status_nests(duel@);
        }
    }
    let row = DigBossPausedDuelRow {
        key,
        boss_id: duel.boss_id.clone(),
        boundary: duel.boundary as i64,
        mechanic_id: duel.mechanic_id.clone(),
        risk_tier: risk_name(duel.risk_tier).to_owned(),
        wager: duel.wager,
        player_hp: duel.player_hp as i64,
        boss_hp: duel.boss_hp as i64,
        round_num: duel.round_num as i64,
        round_log_json: render_json(write_rounds(&duel.round_log)),
        pending_prompt_json: Some(render_json(prompt_json(&duel.pending_prompt))),
        rng_state,
        status_effects_json: render_json(status),
        echo_applied: duel.echo_applied,
        echo_killer_id: duel.echo_killer_id,
        player_damage: duel.player_damage as i64,
        boss_damage: duel.boss_damage as i64,
        critical_bonus: duel.critical_bonus as i64,
        created_at: now,
        last_interaction_at: now,
    };
    proof {
        if keepable(duel@) {
            lemma_rounds_are_plain(duel@.round_log);
            lemma_duel_back(
                key,
                duel@,
                now,
                duel@.pending_prompt,
                JsonView::Null,
                JsonView::Null,
            );
            assert forall|fallback: PromptView, chance: JsonView, payout: JsonView|
                same_fight(#[trigger] fight_in(row@, fallback, chance, payout), duel@) by {
                lemma_texts_read_back(row@, key, duel@, now, fallback, chance, payout);
            }
        }
    }
    row
}

/// The first thing that keeps a row from being read as a fight. `known` says
/// whether its mechanic is known.
pub open spec fn row_obstacle(row: DuelRowView, known: bool) -> Option<Seq<char>> {
    if !known {
        Some("paused duel has unknown mechanic "@ + row.mechanic_id)
    } else if !fits(row.boundary) {
        Some(out_of_range("duel boundary"@))
    } else if risk_of_word(row.risk_tier) is None {
        Some(bad_risk(row.risk_tier))
    } else if !fits(row.player_hp) {
        Some(out_of_range("duel player_hp"@))
    } else if !fits(row.boss_hp) {
        Some(out_of_range("duel boss_hp"@))
    } else if !fits(row.player_damage) {
        Some(out_of_range("duel player_damage"@))
    } else if !fits(row.boss_damage) {
        Some(out_of_range("duel boss_damage"@))
    } else if !fits(row.critical_bonus) {
        Some(out_of_range("duel critical_bonus"@))
    } else if !(0 <= row.round_num <= u8::MAX) {
        Some("paused duel round_num is outside u8 range"@)
    } else {
        None
    }
}

/// The fight that a row holds, given the trees of its columns, the prompt of its
/// mechanic, and the chance and the multiplier of a fight that kept none, where
/// nothing keeps it from being read.
pub open spec fn duel_of(
    row: DuelRowView,
    status: JsonView,
    rounds: Option<JsonView>,
    prompt: Option<JsonView>,
    fallback: PromptView,
    chance: JsonView,
    payout: JsonView,
) -> DuelView {
    DuelView {
        boss_id: row.boss_id,
        boundary: row.boundary as i32,
        mechanic_id: row.mechanic_id,
        risk_tier: risk_of_word(row.risk_tier)->0,
        wager: row.wager,
        player_hp: row.player_hp as i32,
        boss_hp: row.boss_hp as i32,
        player_damage: row.player_damage as i32,
        boss_damage: row.boss_damage as i32,
        critical_bonus: row.critical_bonus as i32,
        effects: effects_of(status),
        round_num: row.round_num as u8,
        round_log: rounds_in(rounds),
        pending_prompt: match prompt_in(prompt) {
            Some(prompt) => prompt,
            None => fallback,
        },
        attempts_this_fight: narrow_or_zero(status.int_at("attempts_this_fight"@)),
        initial_win_chance: kept_number(status.get("initial_win_chance"@), chance),
        payout_multiplier: kept_number(status.get("multiplier"@), payout),
        boss_hp_max: larger32(
            match narrowed(status.int_at("boss_hp_max"@)) {
                Some(hp) => hp,
                None => row.boss_hp as i32,
            },
            1,
        ),
        starting_boss_hp: match narrowed(status.int_at("starting_boss_hp"@)) {
            Some(hp) => hp,
            None => row.boss_hp as i32,
        },
        gear_snapshot: gear_in(status),
        forced_no_wager_phase: flag(status.bool_at("forced_no_wager_phase"@)),
        echo_applied: row.echo_applied,
        echo_killer_id: row.echo_killer_id,
    }
}

/// The fight that the texts of a row hold.
pub open spec fn fight_in(
    row: DuelRowView,
    fallback: PromptView,
    chance: JsonView,
    payout: JsonView,
) -> DuelView {
    duel_of(
        row,
        column_object(Some(row.status_effects_json)),
        json_of_text(row.round_log_json),
        column_tree(row.pending_prompt_json),
        fallback,
        chance,
        payout,
    )
}

fn read_number(value: Option<&Json>, otherwise: &Json) -> (number: Json)
    ensures
        number@ == kept_number(
            match value {
                Some(value) => Some(value@),
                None => None,
            },
            otherwise@,
        ),
{
    match value {
        Some(value) => {
            if value.is_number() {
                value.clone()
            } else {
                otherwise.clone()
            }
        },
        None => otherwise.clone(),
    }
}

/// Reads the gear that a status names.
pub fn gear_in_status(status: &Json) -> (gear: GearSnapshot)
    ensures
        gear@ == gear_in(status@),
{
    let gear_ids = match status.get("gear_snapshot_ids") {
        Some(Json::Array(items)) => collect_ints(items),
        _ => Vec::new(),
    };
    GearSnapshot { gear_ids, armor_id: status.int_at("armor_snapshot_id") }
}

/// Reads the gear that a row names.
pub fn gear_snapshot_from_paused_row(row: &DigBossPausedDuelRow) -> (gear: GearSnapshot)
    ensures
        gear@ == gear_in(column_object(Some(row@.status_effects_json))),
{
    gear_in_status(&read_object(Some(row.status_effects_json.as_str())))
}

/// Reads the fight that a row holds. `mechanic` is the prompt of its mechanic,
/// when that is known; `chance` and `payout` are the win chance and the
/// multiplier of a fight whose row keeps none.
pub fn paused_duel_from_row(
    row: &DigBossPausedDuelRow,
    mechanic: Option<PendingPrompt>,
    chance: &Json,
    payout: &Json,
) -> (duel: Result<PausedBossDuel, String>)
    ensures
        match duel {
            Ok(duel) => row_obstacle(row@, mechanic is Some) is None && duel@ == fight_in(
                row@,
                mechanic->0@,
                chance@,
                payout@,
            ),
            Err(message) => row_obstacle(row@, mechanic is Some) == Some(message@),
        },
{
    let fallback = match mechanic {
        Some(prompt) => prompt,
        None => {
            return Err(join2("paused duel has unknown mechanic ", row.mechanic_id.as_str()));
        },
    };
    let status = read_object(Some(row.status_effects_json.as_str()));
    let boundary = match narrow_i32(row.boundary, "duel boundary") {
        Ok(narrow) => narrow,
        Err(message) => {
            return Err(message);
        },
    };
    let risk_tier = match parse_risk(row.risk_tier.as_str()) {
        Ok(risk) => risk,
        Err(message) => {
            return Err(message);
        },
    };
    let player_hp = match narrow_i32(row.player_hp, "duel player_hp") {
        Ok(narrow) => narrow,
        Err(message) => {
            return Err(message);
        },
    };
    let boss_hp = match narrow_i32(row.boss_hp, "duel boss_hp") {
        Ok(narrow) => narrow,
        Err(message) => {
            return Err(message);
        },
    };
    let player_damage = match narrow_i32(row.player_damage, "duel player_damage") {
        Ok(narrow) => narrow,
        Err(message) => {
            return Err(message);
        },
    };
    let boss_damage = match narrow_i32(row.boss_damage, "duel boss_damage") {
        Ok(narrow) => narrow,
        Err(message) => {
            return Err(message);
        },
    };
    let critical_bonus = match narrow_i32(row.critical_bonus, "duel critical_bonus") {
        Ok(narrow) => narrow,
        Err(message) => {
            return Err(message);
        },
    };
    if row.round_num < 0 || row.round_num > 255 {
        return Err("paused duel round_num is outside u8 range".to_owned());
    }
    let read = match &row.pending_prompt_json {
        Some(text) => parse_prompt(text.as_str()),
        None => None,
    };
    let pending_prompt = match read {
        Some(prompt) => prompt,
        None => fallback,
    };
    let boss_hp_max = match narrow(status.int_at("boss_hp_max")) {
        Some(hp) => hp,
        None => boss_hp,
    };
    let starting_boss_hp = match narrow(status.int_at("starting_boss_hp")) {
        Some(hp) => hp,
        None => boss_hp,
    };
    Ok(
        PausedBossDuel {
            boss_id: row.boss_id.clone(),
            boundary,
            mechanic_id: row.mechanic_id.clone(),
            risk_tier,
            wager: row.wager,
            player_hp,
            boss_hp,
            player_damage,
            boss_damage,
            critical_bonus,
            effects: read_effects(&status),
            round_num: row.round_num as u8,
            round_log: parse_round_log(row.round_log_json.as_str()),
            pending_prompt,
            attempts_this_fight: read_narrow_or_zero(status.int_at("attempts_this_fight")),
            initial_win_chance: read_number(status.get("initial_win_chance"), chance),
            payout_multiplier: read_number(status.get("multiplier"), payout),
            boss_hp_max: max_of32(boss_hp_max, 1),
            starting_boss_hp,
            gear_snapshot: gear_in_status(&status),
            forced_no_wager_phase: read_flag(status.bool_at("forced_no_wager_phase")),
            echo_applied: row.echo_applied,
            echo_killer_id: row.echo_killer_id,
        },
    )
}

/// Whether a field is written of a fight besides its effects.
pub open spec fn fight_field(key: Seq<char>) -> bool {
    ||| key == "attempts_this_fight"@
    ||| key == "initial_win_chance"@
    ||| key == "multiplier"@
    ||| key == "boss_hp_max"@
    ||| key == "starting_boss_hp"@
    ||| key == "gear_snapshot_ids"@
    ||| key == "armor_snapshot_id"@
    ||| key == "forced_no_wager_phase"@
}

/// The fields of a fight differ.
proof fn lemma_fight_words()
    ensures
        "attempts_this_fight"@.len() == 19,
        "initial_win_chance"@.len() == 18,
        "multiplier"@.len() == 10,
        "boss_hp_max"@.len() == 11,
        "starting_boss_hp"@.len() == 16,
        "gear_snapshot_ids"@.len() == 17,
        "armor_snapshot_id"@.len() == 17,
        "forced_no_wager_phase"@.len() == 21,
        "gear_snapshot_ids"@[0] != "armor_snapshot_id"@[0],
{
    reveal_strlit("attempts_this_fight");
    reveal_strlit("initial_win_chance");
    reveal_strlit("multiplier");
    reveal_strlit("boss_hp_max");
    reveal_strlit("starting_boss_hp");
    reveal_strlit("gear_snapshot_ids");
    reveal_strlit("armor_snapshot_id");
    reveal_strlit("forced_no_wager_phase");
}

/// The fields of a fight are not those of its effects.
proof fn lemma_fight_and_effect_words()
    ensures
        "attempts_this_fight"@.len() == 19,
        "initial_win_chance"@.len() == 18,
        "multiplier"@.len() == 10,
        "boss_hp_max"@.len() == 11,
        "starting_boss_hp"@.len() == 16,
        "gear_snapshot_ids"@.len() == 17,
        "armor_snapshot_id"@.len() == 17,
        "forced_no_wager_phase"@.len() == 21,
        "skip_next_round_for"@.len() == 19,
        "burn_rounds_remaining"@.len() == 21,
        "bleed_rounds_remaining"@.len() == 22,
        "silenced_next_round"@.len() == 19,
        "frostbite_next_round"@.len() == 20,
        "boss_exposed_next_round"@.len() == 23,
        "pet_boss_assist"@.len() == 15,
        "shifting_idol_bonus"@.len() == 19,
        "boss_prep"@.len() == 9,
        "trophy_start_hp"@.len() == 15,
        "trophy_venom"@.len() == 12,
        "trophy_lifesteal"@.len() == 16,
        "trophy_regrowth"@.len() == 15,
        "trophy_forewarned"@.len() == 17,
        "trophy_laststand"@.len() == 16,
        "relic_berserk_rage"@.len() == 18,
        "relic_double_hit"@.len() == 16,
        "relic_deaths_door"@.len() == 17,
        "relic_paper_crane"@.len() == 17,
        "relic_bottled_quake"@.len() == 19,
        "gear_reflect_first_hit"@.len() == 22,
        "gear_block_first_status"@.len() == 23,
        "gear_springheel_counter"@.len() == 23,
        "gear_block_first_skip"@.len() == 21,
        "gear_heal_first_crit"@.len() == 20,
        "gear_reroll_first_miss"@.len() == 22,
        "paper_crane_blocked"@.len() == 19,
        "nullweave_blocked"@.len() == 17,
        "anchor_boots_blocked"@.len() == 20,
        "attempts_this_fight"@[0] != "skip_next_round_for"@[0],
        "attempts_this_fight"@[0] != "silenced_next_round"@[0],
        "attempts_this_fight"@[0] != "shifting_idol_bonus"@[0],
        "attempts_this_fight"@[0] != "relic_bottled_quake"@[0],
        "attempts_this_fight"@[0] != "paper_crane_blocked"@[0],
        "initial_win_chance"@[0] != "relic_berserk_rage"@[0],
        "starting_boss_hp"@[0] != "trophy_lifesteal"@[0],
        "starting_boss_hp"@[0] != "trophy_laststand"@[0],
        "starting_boss_hp"@[0] != "relic_double_hit"@[0],
        "gear_snapshot_ids"@[0] != "trophy_forewarned"@[0],
        "gear_snapshot_ids"@[0] != "relic_deaths_door"@[0],
        "gear_snapshot_ids"@[0] != "relic_paper_crane"@[0],
        "gear_snapshot_ids"@[0] != "nullweave_blocked"@[0],
        "armor_snapshot_id"@[0] != "trophy_forewarned"@[0],
        "armor_snapshot_id"@[0] != "relic_deaths_door"@[0],
        "armor_snapshot_id"@[0] != "relic_paper_crane"@[0],
        "armor_snapshot_id"@[0] != "nullweave_blocked"@[0],
        "forced_no_wager_phase"@[0] != "burn_rounds_remaining"@[0],
        "forced_no_wager_phase"@[0] != "gear_block_first_skip"@[0],
{
    reveal_strlit("attempts_this_fight");
    reveal_strlit("initial_win_chance");
    reveal_strlit("multiplier");
    reveal_strlit("boss_hp_max");
    reveal_strlit("starting_boss_hp");
    reveal_strlit("gear_snapshot_ids");
    reveal_strlit("armor_snapshot_id");
    reveal_strlit("forced_no_wager_phase");
    reveal_strlit("skip_next_round_for");
    reveal_strlit("burn_rounds_remaining");
    reveal_strlit("bleed_rounds_remaining");
    reveal_strlit("silenced_next_round");
    reveal_strlit("frostbite_next_round");
    reveal_strlit("boss_exposed_next_round");
    reveal_strlit("pet_boss_assist");
    reveal_strlit("shifting_idol_bonus");
    reveal_strlit("boss_prep");
    reveal_strlit("trophy_start_hp");
    reveal_strlit("trophy_venom");
    reveal_strlit("trophy_lifesteal");
    reveal_strlit("trophy_regrowth");
    reveal_strlit("trophy_forewarned");
    reveal_strlit("trophy_laststand");
    reveal_strlit("relic_berserk_rage");
    reveal_strlit("relic_double_hit");
    reveal_strlit("relic_deaths_door");
    reveal_strlit("relic_paper_crane");
    reveal_strlit("relic_bottled_quake");
    reveal_strlit("gear_reflect_first_hit");
    reveal_strlit("gear_block_first_status");
    reveal_strlit("gear_springheel_counter");
    reveal_strlit("gear_block_first_skip");
    reveal_strlit("gear_heal_first_crit");
    reveal_strlit("gear_reroll_first_miss");
    reveal_strlit("paper_crane_blocked");
    reveal_strlit("nullweave_blocked");
    reveal_strlit("anchor_boots_blocked");
}

proof fn lemma_fight_apart(key: Seq<char>)
    requires
        fight_field(key),
    ensures
        !effects_field(key),
{
    lemma_fight_and_effect_words();
}

proof fn lemma_fight_read_back(tree: JsonView, duel: DuelView)
    requires
        tree is Object,
    ensures
        forall|key: Seq<char>|
            !fight_field(key) ==> #[trigger] fight_tree(tree, duel).get(key) == tree.get(key),
        fight_tree(tree, duel).get("attempts_this_fight"@) == Some(
            JsonView::Int(duel.attempts_this_fight as i64),
        ),
        fight_tree(tree, duel).get("initial_win_chance"@) == Some(duel.initial_win_chance),
        fight_tree(tree, duel).get("multiplier"@) == Some(duel.payout_multiplier),
        fight_tree(tree, duel).get("boss_hp_max"@) == Some(JsonView::Int(duel.boss_hp_max as i64)),
        fight_tree(tree, duel).get("starting_boss_hp"@) == Some(
            JsonView::Int(duel.starting_boss_hp as i64),
        ),
        fight_tree(tree, duel).get("gear_snapshot_ids"@) == Some(
            int_array(duel.gear_snapshot.gear_ids),
        ),
        fight_tree(tree, duel).get("armor_snapshot_id"@) == Some(
            optional_int(duel.gear_snapshot.armor_id),
        ),
        fight_tree(tree, duel).get("forced_no_wager_phase"@) == Some(
            JsonView::Bool(duel.forced_no_wager_phase),
        ),
{
    lemma_fight_words();
}

/// Whether a fight is one that a row can give back: its boss has some health at
/// most, and its chance and multiplier are numbers.
pub open spec fn keepable(duel: DuelView) -> bool {
    &&& duel.boss_hp_max >= 1
    &&& duel.initial_win_chance.is_number()
    &&& duel.payout_multiplier.is_number()
}

proof fn lemma_duel_back(
    key: PlayerKey,
    duel: DuelView,
    now: i64,
    fallback: PromptView,
    chance: JsonView,
    payout: JsonView,
)
    requires
        keepable(duel),
        prompt_of(prompt_tree(duel.pending_prompt)) == Some(duel.pending_prompt),
    ensures
        row_obstacle(row_of(key, duel, now), true) is None,
        duel_of(
            row_of(key, duel, now),
            status_tree(duel),
            Some(rounds_tree(duel.round_log)),
            Some(prompt_tree(duel.pending_prompt)),
            fallback,
            chance,
            payout,
        ) == duel,
{
    law_risk_reads_back(duel.risk_tier);
    law_rounds_read_back(duel.round_log);
    lemma_ints_read_back(duel.gear_snapshot.gear_ids);
    let inner = effects_tree(object(), duel.effects);
    crate::duel::lemma_effects_frame(object(), duel.effects);
    lemma_fight_read_back(inner, duel);
    let status = status_tree(duel);
    assert(effects_of(status) == duel.effects) by {
        assert forall|key: Seq<char>| effects_field(key) implies #[trigger] status.get(key)
            == inner.get(key) by {
            if fight_field(key) {
                lemma_fight_apart(key);
            }
        }
        crate::duel::lemma_effects_agree(status, inner);
    }
    assert(gear_in(status) =~= duel.gear_snapshot);
    let read = duel_of(
        row_of(key, duel, now),
        status,
        Some(rounds_tree(duel.round_log)),
        Some(prompt_tree(duel.pending_prompt)),
        fallback,
        chance,
        payout,
    );
    assert(read =~= duel);
}

/// A waiting fight reads back from the row and the trees that it is written as:
/// nothing keeps that row from being read, and what is read is the fight.
pub proof fn law_paused_duel_reads_back(
    key: PlayerKey,
    duel: DuelView,
    now: i64,
    fallback: PromptView,
    chance: JsonView,
    payout: JsonView,
)
    requires
        keepable(duel),
        has_places(duel.pending_prompt),
    ensures
        row_obstacle(row_of(key, duel, now), true) is None,
        duel_of(
            row_of(key, duel, now),
            status_tree(duel),
            Some(rounds_tree(duel.round_log)),
            Some(prompt_tree(duel.pending_prompt)),
            fallback,
            chance,
            payout,
        ) == duel,
{
    law_prompt_reads_back(duel.pending_prompt);
    lemma_duel_back(key, duel, now, fallback, chance, payout);
}

/// Whether what is read is the fight that was written: equal in all but the
/// chance and the multiplier, and in those too where they are whole numbers.
pub open spec fn same_fight(read: DuelView, duel: DuelView) -> bool {
    &&& read == DuelView {
        initial_win_chance: read.initial_win_chance,
        payout_multiplier: read.payout_multiplier,
        ..duel
    }
    &&& read.initial_win_chance.agrees(duel.initial_win_chance, 0)
    &&& read.payout_multiplier.agrees(duel.payout_multiplier, 0)
}

proof fn lemma_rounds_are_plain(rounds: Seq<RoundView>)
    ensures
        rounds_tree(rounds).is_plain(127),
{
    let items = rounds_tree(rounds)->Array_0;
    assert forall|i: int| 0 <= i < items.len() implies (#[trigger] items[i]).is_plain(126) by {
        assert(items[i] == round_tree(rounds[i]));
        crate::duel::lemma_round_is_plain(rounds[i]);
        lemma_plain_nests(items[i], 3, 126);
    }
}

proof fn lemma_prompt_nests(prompt: PromptView)
    ensures
        prompt_tree(prompt).nests(127),
{
    let listed = JsonView::Array(
        prompt.options.map_values(|option: OptionView| option_tree(option)),
    );
    assert(listed.nests(126)) by {
        let items = listed->Array_0;
        assert forall|i: int| 0 <= i < items.len() implies (#[trigger] items[i]).nests(125) by {
            assert(items[i] == option_tree(prompt.options[i]));
            lemma_edits_nest(125);
        }
    }
    lemma_edits_nest(127);
}

proof fn lemma_status_nests(duel: DuelView)
    requires
        duel.initial_win_chance.is_number(),
        duel.payout_multiplier.is_number(),
    ensures
        status_tree(duel).nests(127),
{
    let t0 = effects_tree(object(), duel.effects);
    crate::duel::lemma_effects_are_plain(duel.effects);
    lemma_plain_nests(t0, 3, 127);
    let gear = int_array(duel.gear_snapshot.gear_ids);
    assert(gear.nests(126)) by {
        let items = gear->Array_0;
        assert forall|i: int| 0 <= i < items.len() implies (#[trigger] items[i]).nests(125) by {
            assert(items[i] == JsonView::Int(duel.gear_snapshot.gear_ids[i]));
        }
    }
    lemma_edits_nest(127);
}

/// A value of the status that agrees with a plain one is that value.
proof fn lemma_plain_field(back: JsonView, status: JsonView, key: Seq<char>)
    requires
        back.agrees(status, 127),
        status.get(key) is Some ==> status.get(key)->0.is_plain(126),
    ensures
        back.get(key) == status.get(key),
{
    lemma_agrees_at(back, status, key, 127);
    if status.get(key) is Some {
        lemma_agrees_plain(back.get(key)->0, status.get(key)->0, 126);
    }
}

/// The effects of a fight are in every tree that agrees with its status.
proof fn lemma_effects_back(back: JsonView, duel: DuelView)
    requires
        back.agrees(status_tree(duel), 127),
    ensures
        effects_of(back) == effects_of(status_tree(duel)),
{
    let status = status_tree(duel);
    let inner = effects_tree(object(), duel.effects);
    crate::duel::lemma_effects_frame(object(), duel.effects);
    crate::duel::lemma_effects_are_plain(duel.effects);
    lemma_plain_nests(inner, 3, 127);
    lemma_fight_read_back(inner, duel);
    assert forall|key: Seq<char>| effects_field(key) implies #[trigger] back.get(key) == status.get(
        key,
    ) by {
        assert(!fight_field(key)) by {
            if fight_field(key) {
                lemma_fight_apart(key);
            }
        }
        assert(status.get(key) == inner.get(key));
        if inner.get(key) is Some {
            assert(inner->Object_0[key].is_plain(126));
        }
        lemma_plain_field(back, status, key);
    }
    crate::duel::lemma_effects_agree(back, status);
}

/// The rest of a fight is in every tree that agrees with its status.
proof fn lemma_rest_back(back: JsonView, duel: DuelView)
    requires
        back.agrees(status_tree(duel), 127),
    ensures
        back is Object,
        back.int_at("attempts_this_fight"@) == status_tree(duel).int_at("attempts_this_fight"@),
        back.int_at("boss_hp_max"@) == status_tree(duel).int_at("boss_hp_max"@),
        back.int_at("starting_boss_hp"@) == status_tree(duel).int_at("starting_boss_hp"@),
        back.bool_at("forced_no_wager_phase"@) == status_tree(duel).bool_at(
            "forced_no_wager_phase"@,
        ),
        gear_in(back) == gear_in(status_tree(duel)),
        back.get("initial_win_chance"@) matches Some(chance) && chance.agrees(
            duel.initial_win_chance,
            126,
        ),
        back.get("multiplier"@) matches Some(payout) && payout.agrees(duel.payout_multiplier, 126),
{
    let status = status_tree(duel);
    let inner = effects_tree(object(), duel.effects);
    crate::duel::lemma_effects_frame(object(), duel.effects);
    lemma_fight_read_back(inner, duel);
    lemma_agrees_at(back, status, "attempts_this_fight"@, 127);
    lemma_agrees_at(back, status, "boss_hp_max"@, 127);
    lemma_agrees_at(back, status, "starting_boss_hp"@, 127);
    lemma_agrees_at(back, status, "armor_snapshot_id"@, 127);
    lemma_agrees_at(back, status, "forced_no_wager_phase"@, 127);
    assert(int_array(duel.gear_snapshot.gear_ids).is_plain(126)) by {
        let items = int_array(duel.gear_snapshot.gear_ids)->Array_0;
        assert forall|i: int| 0 <= i < items.len() implies (#[trigger] items[i]).is_plain(125) by {
            assert(items[i] == JsonView::Int(duel.gear_snapshot.gear_ids[i]));
        }
    }
    lemma_plain_field(back, status, "gear_snapshot_ids"@);
    lemma_agrees_at(back, status, "initial_win_chance"@, 127);
    lemma_agrees_at(back, status, "multiplier"@, 127);
}

/// A waiting fight reads back from texts that read back as its trees.
proof fn lemma_texts_read_back(
    row: DuelRowView,
    key: PlayerKey,
    duel: DuelView,
    now: i64,
    fallback: PromptView,
    chance: JsonView,
    payout: JsonView,
)
    requires
        keepable(duel),
        row == row_of(key, duel, now),
        json_of_text(row.round_log_json) == Some(rounds_tree(duel.round_log)),
        prompt_of(prompt_tree(duel.pending_prompt)) == Some(duel.pending_prompt),
        row.pending_prompt_json matches Some(text) && reads_back(
            text,
            prompt_tree(duel.pending_prompt),
        ),
        reads_back(row.status_effects_json, status_tree(duel)),
    ensures
        same_fight(fight_in(row, fallback, chance, payout), duel),
{
    lemma_duel_back(key, duel, now, fallback, chance, payout);
    law_prompt_ignores_fractions(
        column_tree(row.pending_prompt_json)->0,
        prompt_tree(duel.pending_prompt),
        127,
    );
    let back = json_of_text(row.status_effects_json)->0;
    lemma_effects_back(back, duel);
    lemma_rest_back(back, duel);
    let read = fight_in(row, fallback, chance, payout);
    let wanted = DuelView {
        initial_win_chance: read.initial_win_chance,
        payout_multiplier: read.payout_multiplier,
        ..duel
    };
    assert(column_object(Some(row.status_effects_json)) == back);
    assert(read =~= wanted);
}

} // verus!
