//! Conditions that a tunnel carries from dig to dig: injuries, timed effects
//! and prestige perks, each stored as a JSON column.

use crate::json::{
    json_of_text, lemma_with_nests, parse_json, reads_back, render_json, text_of_json, Json, JsonView,
};
use crate::snapshot::{DigRuntimeTunnel, TunnelView};
use crate::text::{borrow_text, same_text, str_view};
use vstd::prelude::*;

verus! {

/// The tree of an optional column, when the column is present and readable.
pub open spec fn column_tree(raw: Option<Seq<char>>) -> Option<JsonView> {
    match raw {
        Some(text) => json_of_text(text),
        None => None,
    }
}

/// Whether an injury tree is of the given kind.
pub open spec fn injury_is(tree: Option<JsonView>, kind: Seq<char>) -> bool {
    match tree {
        Some(tree) => tree.text_at("type"@) == Some(kind),
        None => false,
    }
}

/// Whether a parsed injury is of the given kind.
pub fn injury_tree_is(tree: &Option<Json>, kind: &str) -> (answer: bool)
    ensures
        answer == injury_is(crate::json::tree_option(*tree), kind@),
{
    match tree {
        Some(tree) => match tree.text_at("type") {
            Some(found) => same_text(found, kind),
            None => false,
        },
        None => false,
    }
}

fn parse_column(raw: Option<&str>) -> (tree: Option<Json>)
    ensures
        crate::json::tree_option(tree) == column_tree(str_view(raw)),
        tree matches Some(t) ==> t@.nests(127),
{
    match raw {
        Some(text) => parse_json(text),
        None => None,
    }
}

/// Whether an injury column halves the advance of the next dig.
pub fn injury_reduces_advance(raw: Option<&str>) -> (answer: bool)
    ensures
        answer == injury_is(column_tree(str_view(raw)), "reduced_advance"@),
{
    injury_tree_is(&parse_column(raw), "reduced_advance")
}

/// Whether an injury column lengthens the cooldown.
pub fn injury_slows_cooldown(raw: Option<&str>) -> (answer: bool)
    ensures
        answer == injury_is(column_tree(str_view(raw)), "slower_cooldown"@),
{
    injury_tree_is(&parse_column(raw), "slower_cooldown")
}

/// What one admitted dig does to an injury.
#[derive(Debug)]
pub enum InjuryTick {
    /// The column holds no countable injury and stays as it is.
    Unchanged,
    /// The last dig of the injury is used up.
    Healed { reduced: bool },
    /// The injury goes on with one dig less.
    Remaining { next: Json, reduced: bool },
}

/// What an [`InjuryTick`] means.
pub enum InjuryTickView {
    Unchanged,
    Healed { reduced: bool },
    Remaining { next: JsonView, reduced: bool },
}

impl View for InjuryTick {
    type V = InjuryTickView;

    open spec fn view(&self) -> InjuryTickView {
        match *self {
            InjuryTick::Unchanged => InjuryTickView::Unchanged,
            InjuryTick::Healed { reduced } => InjuryTickView::Healed { reduced },
            InjuryTick::Remaining { next, reduced } => InjuryTickView::Remaining {
                next: next@,
                reduced,
            },
        }
    }
}

/// How one dig counts an injury tree down. The dig itself is reduced when the
/// injury is of that kind and still has a dig to run.
pub open spec fn injury_tick(tree: Option<JsonView>) -> InjuryTickView {
    match tree {
        Some(tree) => match tree.int_at("digs_remaining"@) {
            Some(remaining) => {
                let reduced = tree.text_at("type"@) == Some("reduced_advance"@) && remaining > 0;
                if remaining <= 1 {
                    InjuryTickView::Healed { reduced }
                } else {
                    InjuryTickView::Remaining {
                        next: tree.with("digs_remaining"@, JsonView::Int((remaining - 1) as i64)),
                        reduced,
                    }
                }
            },
            None => InjuryTickView::Unchanged,
        },
        None => InjuryTickView::Unchanged,
    }
}

/// Counts a parsed injury down by one dig.
pub fn tick_injury_tree(tree: Option<Json>) -> (tick: InjuryTick)
    ensures
        tick@ == injury_tick(crate::json::tree_option(tree)),
{
    match tree {
        Some(tree) => match tree.int_at("digs_remaining") {
            Some(remaining) => {
                let reduced = (match tree.text_at("type") {
                    Some(kind) => same_text(kind, "reduced_advance"),
                    None => false,
                }) && remaining > 0;
                if remaining <= 1 {
                    InjuryTick::Healed { reduced }
                } else {
                    let mut next = tree;
                    next.set("digs_remaining", Json::from_i64(remaining - 1));
                    InjuryTick::Remaining { next, reduced }
                }
            },
            None => InjuryTick::Unchanged,
        },
        None => InjuryTick::Unchanged,
    }
}

/// The injury column after one dig.
pub open spec fn ticked_injury(raw: Option<Seq<char>>) -> Option<Seq<char>> {
    match injury_tick(column_tree(raw)) {
        InjuryTickView::Unchanged => raw,
        InjuryTickView::Healed { .. } => None,
        InjuryTickView::Remaining { next, .. } => Some(text_of_json(next)),
    }
}

/// Whether the dig that counts an injury down is itself reduced.
pub open spec fn tick_reduces(raw: Option<Seq<char>>) -> bool {
    match injury_tick(column_tree(raw)) {
        InjuryTickView::Unchanged => false,
        InjuryTickView::Healed { reduced } => reduced,
        InjuryTickView::Remaining { reduced, .. } => reduced,
    }
}

/// Uses one admitted dig of a tunnel's injury and says whether that dig is
/// reduced. A column that is written back reads as the injury with one dig less,
/// whatever fractions it holds.
pub fn tick_injury(tunnel: &mut DigRuntimeTunnel) -> (reduced: bool)
    ensures
        final(tunnel)@ == (TunnelView {
            injury_state: ticked_injury(old(tunnel)@.injury_state),
            ..old(tunnel)@
        }),
        reduced == tick_reduces(old(tunnel)@.injury_state),
        injury_tick(column_tree(old(tunnel)@.injury_state)) matches InjuryTickView::Remaining {
            next,
            ..
        } ==> reads_back(text_of_json(next), next),
{
    let tree = parse_column(borrow_text(&tunnel.injury_state));
    let ghost parsed = crate::json::tree_option(tree);
    let reduced = match tick_injury_tree(tree) {
        InjuryTick::Unchanged => false,
        InjuryTick::Healed { reduced } => {
            tunnel.injury_state = None;
            reduced
        },
        InjuryTick::Remaining { next, reduced } => {
            proof {
                let before = parsed->0;
                let remaining = before.int_at("digs_remaining"@)->0;
                lemma_with_nests(
                    before,
                    "digs_remaining"@,
                    JsonView::Int((remaining - 1) as i64),
                    127,
                );
            }
            tunnel.injury_state = Some(render_json(next));
            reduced
        },
    };
    assert(tunnel@ =~= (TunnelView {
        injury_state: ticked_injury(old(tunnel)@.injury_state),
        ..old(tunnel)@
    }));
    reduced
}

/// An effect tree with its countdown replaced, where it has one.
pub open spec fn effect_counted(tree: JsonView, remaining: i64) -> JsonView {
    if tree.get("digs_remaining"@) is Some {
        tree.with("digs_remaining"@, JsonView::Int(remaining))
    } else {
        tree
    }
}

/// Replaces the countdown of an effect tree, where it has one.
pub fn count_effect(tree: Json, remaining: i64) -> (next: Json)
    ensures
        next@ == effect_counted(tree@, remaining),
{
    let mut next = tree;
    if next.get("digs_remaining").is_some() {
        next.set("digs_remaining", Json::from_i64(remaining));
    }
    next
}

/// The tree that an effect column is counted on: an unreadable or missing one
/// counts as an empty object.
pub open spec fn effect_tree(raw: Option<Seq<char>>) -> JsonView {
    match json_of_text(
        match raw {
            Some(text) => text,
            None => "{}"@,
        },
    ) {
        Some(tree) => tree,
        None => JsonView::Object(Map::empty()),
    }
}

/// A curse or buff column after a dig that found `remaining` digs on it.
pub open spec fn ticked_effect(raw: Option<Seq<char>>, remaining: i64) -> Option<Seq<char>> {
    if remaining <= 1 {
        None
    } else {
        Some(text_of_json(effect_counted(effect_tree(raw), (remaining - 1) as i64)))
    }
}

/// Uses one dig of a curse or buff that has `remaining` digs left.
pub fn tick_effect(raw: Option<&str>, remaining: i64) -> (next: Option<String>)
    ensures
        crate::text::text_view(next) == ticked_effect(str_view(raw), remaining),
{
    if remaining <= 1 {
        None
    } else {
        let text = match raw {
            Some(text) => text,
            None => "{}",
        };
        let tree = match parse_json(text) {
            Some(tree) => tree,
            None => Json::empty_object(),
        };
        Some(render_json(count_effect(tree, remaining - 1)))
    }
}

/// The texts of a tree that is an array of texts and nothing else.
pub open spec fn text_list(tree: Option<JsonView>) -> Option<Seq<Seq<char>>> {
    match tree {
        Some(JsonView::Array(items)) => if forall|i: int|
            0 <= i < items.len() ==> #[trigger] items[i] is Text {
            Some(Seq::new(items.len(), |i: int| items[i]->Text_0))
        } else {
            None
        },
        _ => None,
    }
}

/// Whether a tree is an array of texts that holds `wanted`.
pub open spec fn list_holds(tree: Option<JsonView>, wanted: Seq<char>) -> bool {
    match text_list(tree) {
        Some(list) => list.contains(wanted),
        None => false,
    }
}

/// Whether a parsed perk list is an array of texts that holds `wanted`.
pub fn list_tree_holds(tree: &Option<Json>, wanted: &str) -> (answer: bool)
    ensures
        answer == list_holds(crate::json::tree_option(*tree), wanted@),
{
    match tree {
        Some(Json::Array(items)) => {
            proof {
                crate::json::lemma_views_index(items@);
            }
            let ghost views = crate::json::tree_views(items@);
            let mut found = false;
            let mut i: usize = 0;
            while i < items.len()
                invariant
                    i <= items.len(),
                    views == crate::json::tree_views(items@),
                    views.len() == items.len(),
                    crate::json::tree_option(*tree) == Some(JsonView::Array(views)),
                    forall|j: int| 0 <= j < items.len() ==> #[trigger] views[j] == items[j]@,
                    forall|j: int| 0 <= j < i ==> #[trigger] views[j] is Text,
                    found == exists|j: int| 0 <= j < i && #[trigger] views[j] == JsonView::Text(wanted@),
                decreases items.len() - i,
            {
                assert(views[i as int] == items[i as int]@);
                match &items[i] {
                    Json::Text(text) => {
                        let same = same_text(text.as_str(), wanted);
                        proof {
                            if same {
                                assert(views[i as int] == JsonView::Text(wanted@));
                            }
                            if found {
                                let j = choose|j: int|
                                    0 <= j < i && #[trigger] views[j] == JsonView::Text(wanted@);
                                assert(0 <= j < i + 1 && views[j] == JsonView::Text(wanted@));
                            }
                        }
                        found = found || same;
                    },
                    _ => {
                        assert(!(views[i as int] is Text));
                        return false;
                    },
                }
                i = i + 1;
            }
            proof {
                let list = Seq::new(views.len(), |j: int| views[j]->Text_0);
                assert(text_list(crate::json::tree_option(*tree)) == Some(list));
                if found {
                    let j = choose|j: int|
                        0 <= j < views.len() && #[trigger] views[j] == JsonView::Text(wanted@);
                    assert(list[j] == wanted@);
                }
                if list.contains(wanted@) {
                    let j = choose|j: int| 0 <= j < list.len() && list[j] == wanted@;
                    assert(views[j] is Text);
                    assert(views[j] == JsonView::Text(wanted@));
                }
            }
            found
        },
        _ => false,
    }
}

/// Whether a prestige perk column is an array of texts that holds `perk`.
pub fn prestige_perk_contains(raw: &str, perk: &str) -> (answer: bool)
    ensures
        answer == list_holds(json_of_text(raw@), perk@),
{
    list_tree_holds(&parse_json(raw), perk)
}

/// An injury that has `n` digs left heals after exactly `n` of them: every dig
/// but the last leaves the same kind of injury with one dig less.
pub proof fn law_injury_counts_down(tree: JsonView, remaining: i64)
    requires
        tree.int_at("digs_remaining"@) == Some(remaining),
    ensures
        remaining <= 1 ==> injury_tick(Some(tree)) is Healed,
        remaining > 1 ==> {
            &&& injury_tick(Some(tree)) matches InjuryTickView::Remaining { next, .. }
            &&& next.int_at("digs_remaining"@) == Some((remaining - 1) as i64)
            &&& next.text_at("type"@) == tree.text_at("type"@)
        },
{
    reveal_strlit("digs_remaining");
    reveal_strlit("type");
    assert("digs_remaining"@.len() != "type"@.len());
}

} // verus!
