//! Stat points that bosses award, each at most once per prestige.

use crate::arith::{larger, max_of, nearest, sat_add};
use crate::json::{
    collect_ints, int_array, ints_of, json_complaint, json_of_text, lemma_ints_read_back,
    lemma_with_is_plain, object, parse_json, read_json, render_json, Json, JsonView,
};
use crate::loot::has_id;
use crate::sorted::{insert_ascending, is_ascending};
use crate::text::{blank, is_blank, str_view};
use vstd::prelude::*;

verus! {

/// Stat points that every miner starts with.
pub const DIG_STARTING_STAT_POINTS: i64 = 5;

/// The awards that a ledger lists for a prestige. A ledger written as a bare
/// list counts for the first prestige only.
pub open spec fn award_items(ledger: JsonView, prestige: i64) -> Seq<JsonView> {
    match ledger {
        JsonView::Object(_) => {
            let kept: i64 = match ledger.int_at("prestige_level"@) {
                Some(level) => level,
                None => 0,
            };
            if kept != prestige {
                Seq::empty()
            } else {
                match ledger.get("awards"@) {
                    Some(JsonView::Array(items)) => items,
                    _ => Seq::empty(),
                }
            }
        },
        JsonView::Array(items) => if prestige == 0 {
            items
        } else {
            Seq::empty()
        },
        _ => Seq::empty(),
    }
}

/// The tree that a ledger column holds, if it holds one.
pub open spec fn ledger_tree(column: Option<Seq<char>>) -> Option<JsonView> {
    match column {
        Some(text) => if blank(text) {
            None
        } else {
            json_of_text(text)
        },
        None => None,
    }
}

/// Whether a ledger column awards a boss at a prestige.
pub open spec fn awards_boss(column: Option<Seq<char>>, prestige: i64, boss: i64) -> bool {
    match ledger_tree(column) {
        Some(ledger) => ints_of(award_items(ledger, prestige)).contains(boss),
        None => false,
    }
}

fn collect_awards(ledger: &Json, prestige: i64) -> (list: Vec<i64>)
    ensures
        is_ascending(list@),
        forall|x: i64| #[trigger]
            list@.contains(x) <==> ints_of(award_items(ledger@, prestige)).contains(x),
{
    let found = match ledger {
        Json::Object(_) => {
            let kept: i64 = match ledger.int_at("prestige_level") {
                Some(level) => level,
                None => 0,
            };
            if kept != prestige {
                None
            } else {
                match ledger.get("awards") {
                    Some(list) => list.as_items(),
                    None => None,
                }
            }
        },
        Json::Array(items) => {
            if prestige == 0 {
                Some(items)
            } else {
                None
            }
        },
        _ => None,
    };
    let values = match found {
        Some(items) => collect_ints(items),
        None => Vec::new(),
    };
    assert(values@ =~= ints_of(award_items(ledger@, prestige)));
    let mut list: Vec<i64> = Vec::new();
    let mut i: usize = 0;
    while i < values.len()
        invariant
            i <= values.len(),
            is_ascending(list@),
            forall|x: i64| #[trigger]
                list@.contains(x) <==> values@.subrange(0, i as int).contains(x),
        decreases values.len() - i,
    {
        let ghost seen = values@.subrange(0, i as int);
        let ghost next = values@.subrange(0, i + 1);
        insert_ascending(&mut list, values[i]);
        proof {
            assert(next =~= seen.push(values@[i as int]));
            assert forall|x: i64| #[trigger] list@.contains(x) <==> next.contains(x) by {
                assert(next[i as int] == values@[i as int]);
                if seen.contains(x) {
                    let j = choose|j: int| 0 <= j < seen.len() && seen[j] == x;
                    assert(next[j] == x);
                }
                if next.contains(x) && x != values@[i as int] {
                    let j = choose|j: int| 0 <= j < next.len() && next[j] == x;
                    assert(seen[j] == x);
                }
            }
        }
        i = i + 1;
    }
    assert(values@.subrange(0, i as int) =~= values@);
    list
}

/// Lists the bosses that a ledger column awards at a prestige, in ascending
/// order. A column that is no JSON awards none.
pub fn stat_boss_awards(column: Option<&str>, prestige: i64) -> (list: Vec<i64>)
    ensures
        is_ascending(list@),
        forall|x: i64| #[trigger]
            list@.contains(x) <==> awards_boss(str_view(column), prestige, x),
{
    match column {
        Some(text) => {
            if !is_blank(text) {
                match parse_json(text) {
                    Some(ledger) => {
                        return collect_awards(&ledger, prestige);
                    },
                    None => {},
                }
            }
        },
        None => {},
    }
    let list: Vec<i64> = Vec::new();
    assert(forall|x: i64| !#[trigger] list@.contains(x));
    list
}

/// Whether a column that is not blank fails to be JSON.
pub open spec fn ledger_broken(column: Option<Seq<char>>) -> bool {
    match column {
        Some(text) => !blank(text) && json_of_text(text) is None,
        None => false,
    }
}

/// The ledger of a prestige with a list of awarded bosses.
pub open spec fn written_ledger(prestige: i64, awards: Seq<i64>) -> JsonView {
    object().with("prestige_level"@, JsonView::Int(prestige)).with("awards"@, int_array(awards))
}

/// A stat point awarded for a boss.
#[derive(Debug, PartialEq, Eq)]
pub struct StatAward {
    /// All stat points from now on.
    pub stat_points: i64,
    /// The ledger column from now on.
    pub ledger: String,
}

/// Whether an award is the one for the first clear of a boss: one point more,
/// and a ledger of the prestige that lists the boss besides those it listed.
pub open spec fn is_award(
    stat_points: i64,
    prestige: i64,
    column: Option<Seq<char>>,
    boundary: i32,
    award: StatAward,
) -> bool {
    &&& !awards_boss(column, prestige, boundary as i64)
    &&& award.stat_points == nearest(larger(stat_points, DIG_STARTING_STAT_POINTS) + 1)
    &&& exists|awards: Seq<i64>|
        {
            &&& is_ascending(awards)
            &&& forall|x: i64| #[trigger]
                awards.contains(x) <==> x == boundary || (awards_boss(column, prestige, x)
                    && i32::MIN <= x <= i32::MAX)
            &&& json_of_text(award.ledger@) == Some(#[trigger] written_ledger(prestige, awards))
            &&& award.ledger@ == crate::json::text_of_json(written_ledger(prestige, awards))
        }
}

fn within_i32(list: Vec<i64>) -> (kept: Vec<i64>)
    requires
        is_ascending(list@),
    ensures
        is_ascending(kept@),
        forall|x: i64| #[trigger]
            kept@.contains(x) <==> list@.contains(x) && i32::MIN <= x <= i32::MAX,
{
    let mut kept: Vec<i64> = Vec::new();
    let mut i: usize = 0;
    while i < list.len()
        invariant
            i <= list.len(),
            is_ascending(list@),
            is_ascending(kept@),
            forall|j: int| 0 <= j < kept.len() && i < list.len() ==> #[trigger] kept@[j] < list@[i as int],
            forall|x: i64| #[trigger]
                kept@.contains(x) <==> list@.subrange(0, i as int).contains(x) && i32::MIN <= x
                    <= i32::MAX,
        decreases list.len() - i,
    {
        let value = list[i];
        let ghost before = kept@;
        let ghost seen = list@.subrange(0, i as int);
        let ghost next = list@.subrange(0, i + 1);
        if -2_147_483_648 <= value && value <= 2_147_483_647 {
            kept.push(value);
        }
        proof {
            assert(next =~= seen.push(value));
            assert forall|x: i64| #[trigger] kept@.contains(x) <==> next.contains(x) && i32::MIN
                <= x <= i32::MAX by {
                assert(next[i as int] == value);
                assert(before.contains(x) <==> seen.contains(x) && i32::MIN <= x <= i32::MAX);
                if seen.contains(x) {
                    let j = choose|j: int| 0 <= j < seen.len() && seen[j] == x;
                    assert(next[j] == x);
                }
                if next.contains(x) && x != value {
                    let j = choose|j: int| 0 <= j < next.len() && next[j] == x;
                    assert(seen[j] == x);
                }
                if before.contains(x) {
                    let j = choose|j: int| 0 <= j < before.len() && before[j] == x;
                    assert(kept@[j] == x);
                }
                if i32::MIN <= value <= i32::MAX {
                    assert(kept@[kept.len() - 1] == value);
                }
                if kept@.contains(x) && x != value {
                    let j = choose|j: int| 0 <= j < kept.len() && kept@[j] == x;
                    assert(before[j] == x);
                }
            }
            if i + 1 < list.len() {
                assert(list@[i as int] < list@[i + 1]);
            }
        }
        i = i + 1;
    }
    assert(list@.subrange(0, i as int) =~= list@);
    kept
}

/// Awards a stat point for the first clear of a boss at a prestige. A boss that
/// the ledger already lists awards nothing, and a ledger that is not JSON is an
/// error.
pub fn first_clear_award(
    stat_points: i64,
    prestige: i64,
    column: Option<&str>,
    boundary: i32,
) -> (award: Result<Option<StatAward>, String>)
    ensures
        award is Err <==> ledger_broken(str_view(column)),
        award matches Err(words) ==> words@ == json_complaint(str_view(column)->0),
        award matches Ok(None) ==> awards_boss(str_view(column), prestige, boundary as i64),
        award matches Ok(Some(given)) ==> is_award(
            stat_points,
            prestige,
            str_view(column),
            boundary,
            given,
        ),
{
    match column {
        Some(text) => {
            if !is_blank(text) {
                match read_json(text) {
                    Ok(_) => {},
                    Err(words) => {
                        return Err(words);
                    },
                }
            }
        },
        None => {},
    }
    let mut awards = within_i32(stat_boss_awards(column, prestige));
    let ghost known = awards@;
    let boss = boundary as i64;
    if has_id(&awards, boss) {
        return Ok(None);
    }
    insert_ascending(&mut awards, boss);
    let mut ledger = Json::empty_object();
    ledger.set("prestige_level", Json::from_i64(prestige));
    ledger.set("awards", Json::from_ints(&awards));
    proof {
        lemma_ledger_is_plain(prestige, awards@);
        assert forall|x: i64| #[trigger] awards@.contains(x) <==> x == boundary || (awards_boss(
            str_view(column),
            prestige,
            x,
        ) && i32::MIN <= x <= i32::MAX) by {
            assert(known.contains(x) <==> awards_boss(str_view(column), prestige, x) && i32::MIN
                <= x <= i32::MAX);
        }
    }
    let text = render_json(ledger);
    assert(json_of_text(text@) == Some(written_ledger(prestige, awards@)));
    Ok(
        Some(
            StatAward {
                stat_points: sat_add(max_of(stat_points, DIG_STARTING_STAT_POINTS), 1),
                ledger: text,
            },
        ),
    )
}

proof fn lemma_ledger_is_plain(prestige: i64, awards: Seq<i64>)
    ensures
        written_ledger(prestige, awards).is_plain(127),
{
    lemma_with_is_plain(object(), "prestige_level"@, JsonView::Int(prestige), 127);
    assert(int_array(awards).is_plain(126)) by {
        let items = int_array(awards)->Array_0;
        assert forall|i: int| 0 <= i < items.len() implies (#[trigger] items[i]).is_plain(125) by {
            assert(items[i] == JsonView::Int(awards[i]));
        }
    }
    lemma_with_is_plain(
        object().with("prestige_level"@, JsonView::Int(prestige)),
        "awards"@,
        int_array(awards),
        127,
    );
}

/// A ledger that was written for a prestige lists at that prestige exactly the
/// bosses that it was written with, and at every other prestige none. A boss is
/// therefore awarded at most once.
pub proof fn law_ledger_reads_back(prestige: i64, other: i64, awards: Seq<i64>)
    requires
        other != prestige,
    ensures
        ints_of(award_items(written_ledger(prestige, awards), prestige)) == awards,
        award_items(written_ledger(prestige, awards), other).len() == 0,
{
    reveal_strlit("prestige_level");
    reveal_strlit("awards");
    lemma_ints_read_back(awards);
    let ledger = written_ledger(prestige, awards);
    assert("prestige_level"@.len() != "awards"@.len());
    assert(ledger.int_at("prestige_level"@) == Some(prestige));
    assert(ledger.get("awards"@) == Some(int_array(awards)));
}

} // verus!
