//! Curses that a lost fight leaves on the next one.

use crate::json::{
    column_object, json_of_text, lemma_agrees_at, lemma_edits_nest, object, read_object,
    render_json, text_of_json, Json, JsonView,
};
use crate::progress::{set_optional_string, text_tree, with_optional};
use crate::text::{borrow_text, copy_text, own_text, str_view, text_view};
use vstd::prelude::*;

verus! {

/// The curses on a tunnel and the boss that laid them.
#[derive(Debug, PartialEq, Eq)]
pub struct StingerCurseState {
    pub halve_next_wager: bool,
    pub no_scout_next_dig: bool,
    pub drain_next_reward: bool,
    pub boss_id: Option<String>,
}

/// What a [`StingerCurseState`] holds.
#[verifier::ext_equal]
pub struct CurseView {
    pub halve_next_wager: bool,
    pub no_scout_next_dig: bool,
    pub drain_next_reward: bool,
    pub boss_id: Option<Seq<char>>,
}

impl View for StingerCurseState {
    type V = CurseView;

    open spec fn view(&self) -> CurseView {
        CurseView {
            halve_next_wager: self.halve_next_wager,
            no_scout_next_dig: self.no_scout_next_dig,
            drain_next_reward: self.drain_next_reward,
            boss_id: text_view(self.boss_id),
        }
    }
}

impl Clone for StingerCurseState {
    fn clone(&self) -> (copy: StingerCurseState)
        ensures
            copy == *self,
    {
        StingerCurseState {
            halve_next_wager: self.halve_next_wager,
            no_scout_next_dig: self.no_scout_next_dig,
            drain_next_reward: self.drain_next_reward,
            boss_id: copy_text(&self.boss_id),
        }
    }
}

/// The curses that an object holds.
pub open spec fn curse_of(tree: JsonView) -> CurseView {
    CurseView {
        halve_next_wager: tree.bool_at("halve_next_wager"@) == Some(true),
        no_scout_next_dig: tree.bool_at("no_scout_next_dig"@) == Some(true),
        drain_next_reward: tree.bool_at("drain_next_reward"@) == Some(true),
        boss_id: tree.text_at("_boss_id"@),
    }
}

/// A flag to set.
pub open spec fn flag_tree(flag: bool) -> Option<JsonView> {
    if flag {
        Some(JsonView::Bool(true))
    } else {
        None
    }
}

/// An object with curses written over it, its other fields as they were.
pub open spec fn with_curse(tree: JsonView, curse: CurseView) -> JsonView {
    let tree = with_optional(tree, "halve_next_wager"@, flag_tree(curse.halve_next_wager));
    let tree = with_optional(tree, "no_scout_next_dig"@, flag_tree(curse.no_scout_next_dig));
    let tree = with_optional(tree, "drain_next_reward"@, flag_tree(curse.drain_next_reward));
    with_optional(tree, "_boss_id"@, text_tree(curse.boss_id))
}

fn flag_at(tree: &Json, key: &str) -> (flag: bool)
    ensures
        flag == (tree@.bool_at(key@) == Some(true)),
{
    match tree.bool_at(key) {
        Some(flag) => flag,
        None => false,
    }
}

fn set_flag(tree: &mut Json, key: &str, flag: bool)
    ensures
        final(tree)@ == with_optional(old(tree)@, key@, flag_tree(flag)),
{
    if flag {
        tree.set(key, Json::Bool(true));
    } else {
        tree.unset(key);
    }
}

/// Reads the curses that a column holds; an unreadable column holds none.
pub fn parse_stinger_curse(column: Option<&str>) -> (curse: StingerCurseState)
    ensures
        curse@ == curse_of(column_object(str_view(column))),
{
    let tree = read_object(column);
    StingerCurseState {
        halve_next_wager: flag_at(&tree, "halve_next_wager"),
        no_scout_next_dig: flag_at(&tree, "no_scout_next_dig"),
        drain_next_reward: flag_at(&tree, "drain_next_reward"),
        boss_id: own_text(tree.text_at("_boss_id")),
    }
}

/// Writes curses over a column. A column that would hold nothing is dropped. The
/// curses read back from the column that is left.
pub fn merge_stinger_curse(column: Option<&str>, curse: &StingerCurseState) -> (merged: Option<
    String,
>)
    ensures
        ({
            let tree = with_curse(column_object(str_view(column)), curse@);
            match merged {
                Some(text) => tree != object() && text@ == text_of_json(tree) && (tree.is_plain(127)
                    ==> json_of_text(text@) == Some(tree)) && curse_of(column_object(Some(text@)))
                    == curse@,
                None => tree == object() && curse_of(tree) == curse@,
            }
        }),
{
    let mut tree = read_object(column);
    let ghost before = tree@;
    proof {
        lemma_edits_nest(127);
        lemma_curse_back(before, curse@);
    }
    set_flag(&mut tree, "halve_next_wager", curse.halve_next_wager);
    set_flag(&mut tree, "no_scout_next_dig", curse.no_scout_next_dig);
    set_flag(&mut tree, "drain_next_reward", curse.drain_next_reward);
    set_optional_string(&mut tree, "_boss_id", borrow_text(&curse.boss_id));
    if tree.is_empty_object() {
        None
    } else {
        let ghost written = tree@;
        let text = render_json(tree);
        proof {
            let back = json_of_text(text@)->0;
            lemma_agrees_at(back, written, "halve_next_wager"@, 127);
            lemma_agrees_at(back, written, "no_scout_next_dig"@, 127);
            lemma_agrees_at(back, written, "drain_next_reward"@, 127);
            lemma_agrees_at(back, written, "_boss_id"@, 127);
            assert(curse_of(back) =~= curse@);
        }
        Some(text)
    }
}

proof fn lemma_curse_back(tree: JsonView, curse: CurseView)
    requires
        tree is Object,
    ensures
        curse_of(with_curse(tree, curse)) == curse,
        with_curse(tree, curse) is Object,
{
    reveal_strlit("halve_next_wager");
    reveal_strlit("no_scout_next_dig");
    reveal_strlit("drain_next_reward");
    reveal_strlit("_boss_id");
    assert("halve_next_wager"@.len() == 16);
    assert("no_scout_next_dig"@.len() == 17);
    assert("drain_next_reward"@.len() == 17);
    assert("_boss_id"@.len() == 8);
    assert("no_scout_next_dig"@[0] != "drain_next_reward"@[0]);
    assert(curse_of(with_curse(tree, curse)) =~= curse);
}

/// Curses read back from the object they were written over, and its other
/// fields stay as they were.
pub proof fn law_curse_reads_back(tree: JsonView, curse: CurseView, key: Seq<char>)
    requires
        tree is Object,
        key != "halve_next_wager"@,
        key != "no_scout_next_dig"@,
        key != "drain_next_reward"@,
        key != "_boss_id"@,
    ensures
        curse_of(with_curse(tree, curse)) == curse,
        with_curse(tree, curse).get(key) == tree.get(key),
{
    lemma_curse_back(tree, curse);
}

} // verus!
