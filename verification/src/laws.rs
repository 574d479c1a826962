use vstd::prelude::*;

use crate::action::Action;
use crate::crates::{filtered, CrateEntry};
use crate::mode::Mode;
use crate::model::RootView;
use crate::text::{is_white_space, words};

verus! {

/// Whether the selection is empty exactly when the table is, and otherwise
/// names a row of the table that the scrollbar stands at.
pub open spec fn selection_on_a_row(v: RootView) -> bool {
    if v.filtered_crates.len() == 0 {
        v.selected is None
    } else {
        v.selected matches Some(i) && i < v.filtered_crates.len() && v.scroll_position == i
    }
}

/// Moving to the next row, the first row or the last row always lands on a
/// row of the table (or on no row when the table is empty), and the
/// scrollbar follows; moving to the previous row does so too where the
/// selection was on a row of the table or absent.
pub proof fn lemma_moves_land_on_a_row(v: RootView)
    ensures
        selection_on_a_row(v.select_next()),
        selection_on_a_row(v.select_top()),
        selection_on_a_row(v.select_bottom()),
        v.selection_in_table() ==> selection_on_a_row(v.select_previous()),
{
}

/// Moving down one row and then up one row returns to the row one started
/// from, and so does moving up and then down, wherever that row lies in the
/// table (the moves wrap around at both ends).
pub proof fn lemma_next_and_previous_undo_each_other(v: RootView)
    requires
        v.filtered_crates.len() <= usize::MAX,
        v.selected matches Some(i) && i < v.filtered_crates.len(),
    ensures
        v.select_next().select_previous().selected == v.selected,
        v.select_previous().select_next().selected == v.selected,
{
}

/// The page shown starts at 1 and never drops below 1, whatever message
/// comes in.
pub proof fn lemma_page_stays_positive(v: RootView, action: Action)
    requires
        v.page >= 1,
    ensures
        RootView::initial().page >= 1,
        v.on_action(action).0.page >= 1,
{
}

/// Going forward a page never passes the last page that the registry's
/// count of crates fills.
pub proof fn lemma_page_stays_within_results(v: RootView, total: u64)
    requires
        v.total_num_crates == Some(total),
        v.page <= RootView::last_page(total),
    ensures
        v.page_incremented().page <= RootView::last_page(total),
{
}

/// Going a page forward and then a page back returns to the same page,
/// where there was a page to go forward to.
pub proof fn lemma_page_forward_then_back(v: RootView, total: u64)
    requires
        v.page >= 1,
        v.total_num_crates == Some(total),
        v.page < RootView::last_page(total),
    ensures
        v.page_incremented().page_decremented().page == v.page,
{
}

/// No message takes back work already asked for: the queued tasks only grow
/// at their end.
pub proof fn lemma_tasks_only_grow(v: RootView, action: Action)
    ensures
        v.tasks.is_prefix_of(v.on_action(action).0.tasks),
{
    assert(v.tasks.is_prefix_of(v.tasks));
    let after = v.on_action(action).0;
    assert(v.tasks.is_prefix_of(after.tasks)) by {
        assert forall|t: int| 0 <= t < v.tasks.len() implies v.tasks[t] == after.tasks[t] by {}
    }
}

/// After an error is shown and closed, no error is shown and the search
/// prompt is open again.
pub proof fn lemma_closing_an_error(v: RootView, message: String)
    ensures
        v.on_action(Action::Error(message)).0.error == Some(message@),
        v.on_action(Action::Error(message)).0.mode == Mode::Error,
        v.on_action(Action::Error(message)).0.on_action(Action::CloseError).0.error is None,
        v.on_action(Action::Error(message)).0.on_action(Action::CloseError).0.mode
            == Mode::PickerSearchQueryEditing,
{
}

/// The details of a crate are shown only where there are details to show.
pub proof fn lemma_details_shown_only_when_loaded(v: RootView)
    ensures
        v.on_action(Action::ToggleShowCrateInfo).0.show_crate_info ==> v.crate_info is Some,
{
}

/// Keys change nothing of the state outside the two prompts: there they only
/// give commands.
pub proof fn lemma_keys_outside_prompts_change_nothing(
    v: RootView,
    key: crate::key::KeyEvent,
    last: Option<crate::key::KeyEvent>,
)
    requires
        !v.mode.is_editing(),
    ensures
        v.on_key(key, last).0 == v,
{
}

/// While a prompt takes keys, its text is the query or the filter that it
/// edits: after any key that it handles, the prompt and the edited text agree.
pub proof fn lemma_prompt_is_the_edited_text(
    v: RootView,
    key: crate::key::KeyEvent,
    last: Option<crate::key::KeyEvent>,
)
    requires
        v.mode.is_editing(),
        key.code != crossterm::event::KeyCode::Esc,
        key.code != crossterm::event::KeyCode::Enter,
    ensures
        v.mode == Mode::PickerSearchQueryEditing ==> v.on_key(key, last).0.search
            == v.on_key(key, last).0.prompt,
        v.mode == Mode::PickerFilterEditing ==> v.on_key(key, last).0.filter
            == v.on_key(key, last).0.prompt,
        v.on_key(key, last).0.mode == v.mode,
{
}

/// In the table, `g` moves to the first row exactly when the key before it
/// was `g` too.
pub proof fn lemma_double_g_goes_to_top(v: RootView, key: crate::key::KeyEvent, last: Option<crate::key::KeyEvent>)
    requires
        v.mode == Mode::Picker,
        key.code == crossterm::event::KeyCode::Char('g'),
    ensures
        v.on_key(key, last).1 == (if last matches Some(k) && k.code == crossterm::event::KeyCode::Char('g') {
            Some(Action::MoveSelectionTop)
        } else {
            None
        }),
{
}

/// Each word of a text is a non-empty run of characters that are not white space.
pub proof fn lemma_words_are_runs_without_white_space(s: Seq<char>)
    ensures
        forall|i: int|
            0 <= i < words(s).len() ==> #[trigger] words(s)[i].len() > 0 && forall|j: int|
                0 <= j < words(s)[i].len() ==> !is_white_space(#[trigger] words(s)[i][j]),
    decreases s.len(),
{
    if s.len() > 0 {
        lemma_words_are_runs_without_white_space(s.drop_last());
        let before = words(s.drop_last());
        let c = s.last();
        if !is_white_space(c) && s.len() >= 2 && !is_white_space(s[s.len() - 2]) {
            assert(before.len() > 0) by {
                lemma_word_ends_at_last_char(s.drop_last());
            }
            let w = words(s);
            assert forall|i: int| 0 <= i < w.len() implies #[trigger] w[i].len() > 0 && forall|j: int|
                0 <= j < w[i].len() ==> !is_white_space(#[trigger] w[i][j]) by {
                if i < w.len() - 1 {
                    assert(w[i] == before[i]);
                } else {
                    assert(w[i] == before.last().push(c));
                    assert forall|j: int| 0 <= j < w[i].len() implies !is_white_space(
                        #[trigger] w[i][j],
                    ) by {
                        if j < w[i].len() - 1 {
                            assert(w[i][j] == before.last()[j]);
                            assert(before.last() == before[before.len() - 1]);
                        }
                    }
                }
            }
        }
    }
}

/// A text that ends in a character other than white space has a word.
proof fn lemma_word_ends_at_last_char(s: Seq<char>)
    requires
        s.len() > 0,
        !is_white_space(s.last()),
    ensures
        words(s).len() > 0,
    decreases s.len(),
{
    if s.len() >= 2 && !is_white_space(s[s.len() - 2]) {
        assert(s.drop_last().last() == s[s.len() - 2]);
        lemma_word_ends_at_last_char(s.drop_last());
    }
}

/// A text of white space alone has no words.
proof fn lemma_blank_has_no_words(s: Seq<char>)
    requires
        forall|i: int| 0 <= i < s.len() ==> is_white_space(#[trigger] s[i]),
    ensures
        words(s).len() == 0,
    decreases s.len(),
{
    if s.len() > 0 {
        assert forall|i: int| 0 <= i < s.drop_last().len() implies is_white_space(
            #[trigger] s.drop_last()[i],
        ) by {
            assert(s.drop_last()[i] == s[i]);
        }
        lemma_blank_has_no_words(s.drop_last());
    }
}

/// Filtering by a predicate that holds of every element keeps the sequence.
proof fn lemma_filter_keeps_all(crates: Seq<CrateEntry>, pred: spec_fn(CrateEntry) -> bool)
    requires
        forall|i: int| 0 <= i < crates.len() ==> pred(#[trigger] crates[i]),
    ensures
        crates.filter(pred) == crates,
    decreases crates.len(),
{
    reveal_with_fuel(Seq::filter, 1);
    if crates.len() > 0 {
        assert forall|i: int| 0 <= i < crates.drop_last().len() implies pred(
            #[trigger] crates.drop_last()[i],
        ) by {
            assert(crates.drop_last()[i] == crates[i]);
        }
        lemma_filter_keeps_all(crates.drop_last(), pred);
        assert(crates.drop_last().push(crates.last()) =~= crates);
    }
}

/// A filter of white space alone (the empty filter among them) keeps every
/// loaded crate, in order.
pub proof fn lemma_blank_filter_keeps_every_crate(crates: Seq<CrateEntry>, filter: Seq<char>)
    requires
        forall|i: int| 0 <= i < filter.len() ==> is_white_space(#[trigger] filter[i]),
    ensures
        filtered(crates, filter) == crates,
{
    lemma_blank_has_no_words(filter);
    let pred = |c: CrateEntry| crate::crates::matches_words(words(filter), c);
    assert forall|i: int| 0 <= i < crates.len() implies pred(#[trigger] crates[i]) by {}
    lemma_filter_keeps_all(crates, pred);
}

/// The filter keeps exactly the loaded crates that match each of its words:
/// every crate it keeps is loaded and matches, and every loaded crate that
/// matches is kept.
pub proof fn lemma_filter_keeps_exactly_the_matches(crates: Seq<CrateEntry>, filter: Seq<char>)
    ensures
        forall|i: int|
            0 <= i < filtered(crates, filter).len() ==> crates.contains(
                #[trigger] filtered(crates, filter)[i],
            ) && crate::crates::matches_words(words(filter), filtered(crates, filter)[i]),
        forall|i: int|
            0 <= i < crates.len() && crate::crates::matches_words(words(filter), #[trigger] crates[i])
                ==> filtered(crates, filter).contains(crates[i]),
{
    let pred = |c: CrateEntry| crate::crates::matches_words(words(filter), c);
    broadcast use vstd::seq_lib::group_filter_ensures;
    assert forall|i: int| 0 <= i < filtered(crates, filter).len() implies crates.contains(
        #[trigger] filtered(crates, filter)[i],
    ) && crate::crates::matches_words(words(filter), filtered(crates, filter)[i]) by {
        crates.lemma_filter_contains_rev(pred, filtered(crates, filter)[i]);
    }
}

/// Filtering keeps the order of falling download counts in which the
/// results are stored, so the table lists crates most downloaded first.
pub proof fn lemma_filter_keeps_download_order(crates: Seq<CrateEntry>, filter: Seq<char>)
    requires
        crate::crates::sorted_by_downloads(crates),
    ensures
        crate::crates::sorted_by_downloads(filtered(crates, filter)),
{
    let pred = |c: CrateEntry| crate::crates::matches_words(words(filter), c);
    lemma_filter_keeps_order(crates, pred);
}

/// Filtering a sequence sorted by falling download counts keeps it sorted.
proof fn lemma_filter_keeps_order(crates: Seq<CrateEntry>, pred: spec_fn(CrateEntry) -> bool)
    requires
        crate::crates::sorted_by_downloads(crates),
    ensures
        crate::crates::sorted_by_downloads(crates.filter(pred)),
        forall|i: int|
            0 <= i < crates.filter(pred).len() ==> crates.contains(#[trigger] crates.filter(pred)[i]),
    decreases crates.len(),
{
    reveal_with_fuel(Seq::filter, 1);
    if crates.len() > 0 {
        let rest = crates.drop_last();
        assert(crate::crates::sorted_by_downloads(rest));
        lemma_filter_keeps_order(rest, pred);
        let kept = rest.filter(pred);
        assert forall|i: int| 0 <= i < kept.len() implies kept[i].downloads >= crates.last().downloads by {
            let k = choose|k: int| 0 <= k < rest.len() && rest[k] == kept[i];
            assert(crates[k] == rest[k]);
        }
        assert forall|i: int|
            0 <= i < crates.filter(pred).len() implies crates.contains(
                #[trigger] crates.filter(pred)[i],
            ) by {
            if pred(crates.last()) && i == kept.len() {
                assert(crates[crates.len() - 1] == crates.last());
            } else {
                let k = choose|k: int| 0 <= k < rest.len() && rest[k] == kept[i];
                assert(crates[k] == rest[k]);
            }
        }
    }
}

/// Whether the screen leaves a message alone.
pub open spec fn is_ignored(action: Action) -> bool {
    !(action is Tick || action is StoreTotalNumberOfCrates || action is MoveSelectionNext
        || action is MoveSelectionPrevious || action is MoveSelectionTop
        || action is MoveSelectionBottom || action is EnterSearchQueryInsert
        || action is EnterFilterInsert || action is EnterNormal || action is SubmitSearchQuery
        || action is ReloadData || action is IncrementPage || action is DecrementPage
        || action is ToggleShowCrateInfo || action is GetInfo || action is Error
        || action is CloseError || action is CargoAddCrate)
}

/// The messages that the screen does not handle change nothing and give
/// no follow-up.
pub proof fn lemma_other_messages_change_nothing(v: RootView, action: Action)
    requires
        is_ignored(action),
    ensures
        v.on_action(action) == (v, None::<Action>),
{
}

/// Submitting the search prompt clears the filter, goes to the table and
/// asks for a reload; that reload asks the registry for the page shown of
/// the query typed, and for nothing else.
pub proof fn lemma_submitting_a_search_asks_for_it(v: RootView)
    requires
        v.page >= 1,
    ensures
        v.on_action(Action::SubmitSearchQuery) == (
            RootView { mode: Mode::Picker, filter: seq![], ..v },
            Some(Action::ReloadData),
        ),
        v.on_action(Action::SubmitSearchQuery).0.on_action(Action::ReloadData).0.tasks
            == v.tasks.push(
            crate::task::TaskView::LoadCrates {
                search: v.search,
                page: v.page,
                page_size: crate::model::PAGE_SIZE,
            },
        ),
{
}

/// In the error popup only Enter and Esc answer, and they close it.
pub proof fn lemma_error_popup_only_closes(
    v: RootView,
    key: crate::key::KeyEvent,
    last: Option<crate::key::KeyEvent>,
)
    requires
        v.mode == Mode::Error,
    ensures
        v.on_key(key, last) == (v, if key.code == crossterm::event::KeyCode::Enter || key.code
            == crossterm::event::KeyCode::Esc {
            Some(Action::CloseError)
        } else {
            None
        }),
{
}

/// Moving down from a row of the table as many times as the table has rows
/// comes back to that row.
pub proof fn lemma_next_cycles_through_the_table(v: RootView)
    requires
        v.filtered_crates.len() <= usize::MAX,
        v.selected matches Some(i) && i < v.filtered_crates.len(),
    ensures
        moved_down(v, v.filtered_crates.len()).selected == v.selected,
{
    let n = v.filtered_crates.len() as int;
    let i = v.selected->0 as int;
    lemma_moved_down_lands(v, v.filtered_crates.len());
    assert((i + n) % n == i) by (nonlinear_arith)
        requires
            0 <= i < n,
    ;
}

/// The state after moving down `k` times.
pub open spec fn moved_down(v: RootView, k: nat) -> RootView
    decreases k,
{
    if k == 0 {
        v
    } else {
        moved_down(v, (k - 1) as nat).select_next()
    }
}

/// Moving down keeps the table, and `k` moves from row `i` land on row
/// `i + k` (counted from the top again past the last row).
proof fn lemma_moved_down_lands(v: RootView, k: nat)
    requires
        v.filtered_crates.len() <= usize::MAX,
        v.selected matches Some(i) && i < v.filtered_crates.len(),
    ensures
        moved_down(v, k).filtered_crates == v.filtered_crates,
        moved_down(v, k).selected == Some(((v.selected->0 + k) % (v.filtered_crates.len() as int)) as usize),
    decreases k,
{
    let n = v.filtered_crates.len() as int;
    let i = v.selected->0 as int;
    if k > 0 {
        lemma_moved_down_lands(v, (k - 1) as nat);
        let before = (i + k - 1) % n;
        assert(0 <= before < n) by (nonlinear_arith)
            requires
                before == (i + k - 1) % n,
                n > 0,
        ;
        if before == n - 1 {
            assert((i + k) % n == 0) by (nonlinear_arith)
                requires
                    (i + k - 1) % n == n - 1,
                    n > 0,
            ;
        } else {
            assert((i + k) % n == before + 1) by (nonlinear_arith)
                requires
                    before == (i + k - 1) % n,
                    before < n - 1,
                    n > 0,
            ;
        }
    } else {
        assert(i % n == i) by (nonlinear_arith)
            requires
                0 <= i < n,
        ;
    }
}

/// Whether `hay`, from position `k` on, spells `needle` character by character.
pub open spec fn spells_at(hay: Seq<char>, needle: Seq<char>, k: int) -> bool {
    forall|j: int| 0 <= j < needle.len() ==> #[trigger] hay[k + j] == needle[j]
}

/// The filter's substring test means contiguous occurrence: a word occurs in
/// a text exactly when, from some position on, the text spells the word
/// character by character.
pub proof fn lemma_occurrence_is_contiguous(needle: Seq<char>, hay: Seq<char>)
    ensures
        crate::text::is_infix(needle, hay) <==> exists|k: int|
            0 <= k && k + needle.len() <= hay.len() && #[trigger] spells_at(hay, needle, k),
{
    if crate::text::is_infix(needle, hay) {
        let k = choose|k: int|
            0 <= k && k + needle.len() <= hay.len() && #[trigger] hay.subrange(k, k + needle.len())
                == needle;
        assert forall|j: int| 0 <= j < needle.len() implies #[trigger] hay[k + j] == needle[j] by {
            assert(hay.subrange(k, k + needle.len())[j] == hay[k + j]);
        }
        assert(spells_at(hay, needle, k));
    }
    if exists|k: int| 0 <= k && k + needle.len() <= hay.len() && #[trigger] spells_at(hay, needle, k) {
        let k = choose|k: int|
            0 <= k && k + needle.len() <= hay.len() && #[trigger] spells_at(hay, needle, k);
        assert forall|i: int| 0 <= i < needle.len() implies #[trigger] hay.subrange(
            k,
            k + needle.len(),
        )[i] == needle[i] by {
            assert(hay[k + i] == needle[i]);
        }
        assert(hay.subrange(k, k + needle.len()) =~= needle);
    }
}

/// A crate that the filter keeps spells every filter word, character by
/// character, at some position of its lowercase name or of its lowercase
/// description.
pub proof fn lemma_kept_crates_spell_every_word(crates: Seq<CrateEntry>, filter: Seq<char>, i: int, w: int)
    requires
        0 <= i < filtered(crates, filter).len(),
        0 <= w < words(filter).len(),
    ensures
        ({
            let c = filtered(crates, filter)[i];
            let word = words(filter)[w];
            let name = crate::text::lowercase(c.name@);
            let description = crate::text::lowercase(crate::crates::description_text(c));
            (exists|k: int|
                0 <= k && k + word.len() <= name.len() && #[trigger] spells_at(name, word, k)) || (
            exists|k: int|
                0 <= k && k + word.len() <= description.len() && #[trigger] spells_at(
                    description,
                    word,
                    k,
                ))
        }),
{
    let pred = |c: CrateEntry| crate::crates::matches_words(words(filter), c);
    broadcast use vstd::seq_lib::group_filter_ensures;
    let c = filtered(crates, filter)[i];
    assert(pred(c));
    let word = words(filter)[w];
    lemma_occurrence_is_contiguous(word, crate::text::lowercase(c.name@));
    lemma_occurrence_is_contiguous(word, crate::text::lowercase(crate::crates::description_text(c)));
}

/// Asking for details on a non-empty table asks for the crate shown in the
/// selected row (the first row where none is selected), and for nothing
/// else: a task is added exactly when that crate has a name, and it names
/// that crate.
pub proof fn lemma_details_are_asked_for_the_selected_row(v: RootView)
    requires
        v.filtered_crates.len() > 0,
        v.selection_in_table(),
    ensures
        ({
            let row: int = match v.selected {
                Some(i) => i as int,
                None => 0,
            };
            let name = v.filtered_crates[row].name@;
            let after = v.on_action(Action::GetInfo).0;
            &&& after.selected == Some(row as usize)
            &&& name.len() > 0 ==> after.tasks == v.tasks.push(
                crate::task::TaskView::LoadCrateInfo { name },
            )
            &&& name.len() == 0 ==> after.tasks == v.tasks
        }),
{
}

/// The value of a digit character.
pub open spec fn digit_value(c: char) -> int {
    c as int - '0' as int
}

/// The number that a string of decimal digits denotes, most significant first.
pub open spec fn numeral_value(s: Seq<char>) -> int
    decreases s.len(),
{
    if s.len() == 0 {
        0
    } else {
        numeral_value(s.drop_last()) * 10 + digit_value(s.last())
    }
}

/// The numeral written for `n` reads back as `n`: it is made of decimal
/// digits, it denotes `n`, and it has no leading zero unless `n` is 0.
pub proof fn lemma_decimal_reads_back(n: nat)
    ensures
        crate::text::decimal(n).len() > 0,
        forall|i: int|
            0 <= i < crate::text::decimal(n).len() ==> '0' <= #[trigger] crate::text::decimal(n)[i]
                <= '9',
        numeral_value(crate::text::decimal(n)) == n,
        crate::text::decimal(n)[0] == '0' ==> n == 0,
    decreases n,
{
    let s = crate::text::decimal(n);
    if n >= 10 {
        lemma_decimal_reads_back(n / 10);
        let before = crate::text::decimal(n / 10);
        assert(s == before.push(crate::text::digit(n % 10)));
        assert(s.drop_last() =~= before);
        vstd::arithmetic::div_mod::lemma_fundamental_div_mod(n as int, 10);
        assert(digit_value(crate::text::digit(n % 10)) == n % 10);
        assert(numeral_value(s) == numeral_value(before) * 10 + n % 10);
        assert((n / 10) * 10 == 10 * (n / 10)) by (nonlinear_arith);
        assert(s[0] == before[0]);
        assert forall|i: int| 0 <= i < s.len() implies '0' <= #[trigger] s[i] <= '9' by {
            if i < before.len() {
                assert(s[i] == before[i]);
            }
        }
    } else {
        assert(s.drop_last() =~= Seq::<char>::empty());
        assert(numeral_value(Seq::<char>::empty()) == 0);
        assert(digit_value(crate::text::digit(n)) == n);
        assert(numeral_value(s) == numeral_value(s.drop_last()) * 10 + digit_value(s.last()));
    }
}

/// In the table, keys outside the bound ones give no command; in
/// particular only `q` and Esc quit.
pub proof fn lemma_unbound_keys_give_nothing(
    v: RootView,
    key: crate::key::KeyEvent,
    last: Option<crate::key::KeyEvent>,
)
    requires
        v.mode == Mode::Picker,
    ensures
        v.on_key(key, last).1 == Some(Action::Quit) ==> key.code == crossterm::event::KeyCode::Char(
            'q',
        ) || key.code == crossterm::event::KeyCode::Esc,
        !(key.code == crossterm::event::KeyCode::Char('q') || key.code
            == crossterm::event::KeyCode::Char('?') || key.code == crossterm::event::KeyCode::Char(
            '/',
        ) || key.code == crossterm::event::KeyCode::Char('j') || key.code
            == crossterm::event::KeyCode::Char('k') || key.code == crossterm::event::KeyCode::Char(
            'l',
        ) || key.code == crossterm::event::KeyCode::Char('h') || key.code
            == crossterm::event::KeyCode::Char('a') || key.code == crossterm::event::KeyCode::Char(
            'g',
        ) || key.code == crossterm::event::KeyCode::Char('G') || key.code
            == crossterm::event::KeyCode::Char('r') || key.code == crossterm::event::KeyCode::Up
            || key.code == crossterm::event::KeyCode::Down || key.code
            == crossterm::event::KeyCode::Left || key.code == crossterm::event::KeyCode::Right
            || key.code == crossterm::event::KeyCode::PageUp || key.code
            == crossterm::event::KeyCode::PageDown || key.code == crossterm::event::KeyCode::Home
            || key.code == crossterm::event::KeyCode::End || key.code
            == crossterm::event::KeyCode::Esc || key.code == crossterm::event::KeyCode::Enter)
            ==> v.on_key(key, last).1 is None,
{
}

/// Moving to the bottom of a non-empty table selects its last row, with no
/// row below it, and the scrollbar stands there; moving to the top selects
/// the first row.
pub proof fn lemma_bottom_is_the_last_row(v: RootView)
    requires
        0 < v.filtered_crates.len() <= usize::MAX,
    ensures
        ({
            let after = v.on_action(Action::MoveSelectionBottom).0;
            &&& after.selected matches Some(i) && i + 1 == v.filtered_crates.len()
            &&& after.scroll_position + 1 == v.filtered_crates.len()
        }),
        v.on_action(Action::MoveSelectionTop).0.selected == Some(0usize),
        v.on_action(Action::MoveSelectionTop).0.scroll_position == 0,
{
}

/// Paging moves one page at a time and asks for the page it moves to: forward
/// while the registry's count leaves a page, back while above page 1;
/// otherwise nothing changes.
pub proof fn lemma_pages_move_by_one(v: RootView, total: u64)
    requires
        v.page >= 1,
        v.total_num_crates == Some(total),
    ensures
        ({
            let forward = v.on_action(Action::IncrementPage).0;
            &&& v.page < total / 25 + 1 ==> forward.page == v.page + 1 && forward.tasks == v.tasks.push(
                crate::task::TaskView::LoadCrates {
                    search: v.search,
                    page: (v.page + 1) as u64,
                    page_size: 25,
                },
            ) && forward.selected is None && forward.crate_info is None
            &&& v.page >= total / 25 + 1 ==> forward == v
        }),
        ({
            let back = v.on_action(Action::DecrementPage).0;
            &&& v.page > 1 ==> back.page == v.page - 1 && back.tasks == v.tasks.push(
                crate::task::TaskView::LoadCrates {
                    search: v.search,
                    page: (v.page - 1) as u64,
                    page_size: 25,
                },
            ) && back.selected is None && back.crate_info is None
            &&& v.page == 1 ==> back == v
        }),
{
}

/// Opening a prompt shows the text it edits with the cursor after its last
/// character.
pub proof fn lemma_opening_a_prompt_shows_its_text(v: RootView)
    requires
        v.search.len() <= usize::MAX,
        v.filter.len() <= usize::MAX,
    ensures
        v.on_action(Action::EnterSearchQueryInsert).0.prompt == v.search,
        v.on_action(Action::EnterSearchQueryInsert).0.cursor == v.search.len(),
        v.on_action(Action::EnterSearchQueryInsert).0.mode == Mode::PickerSearchQueryEditing,
        v.on_action(Action::EnterFilterInsert).0.prompt == v.filter,
        v.on_action(Action::EnterFilterInsert).0.cursor == v.filter.len(),
        v.on_action(Action::EnterFilterInsert).0.mode == Mode::PickerFilterEditing,
{
}

/// With details loaded, toggling them twice shows them as before, and each
/// toggle flips whether they are shown.
pub proof fn lemma_toggling_details_flips(v: RootView)
    requires
        v.crate_info is Some,
    ensures
        v.on_action(Action::ToggleShowCrateInfo).0.show_crate_info == !v.show_crate_info,
        v.on_action(Action::ToggleShowCrateInfo).0.on_action(Action::ToggleShowCrateInfo).0
            == v,
{
}

/// The keys of the table: `j`/Down and `k`/Up move down and up, `l`/Right
/// and `h`/Left page forward and back, `G`/End/PageDown go to the bottom,
/// Home/PageUp to the top, `?` and `/` open the search and filter prompts,
/// `r` reloads, `a` adds the crate shown, Enter toggles its details, and
/// `q`/Esc quit.
pub proof fn lemma_table_keys(v: RootView, key: crate::key::KeyEvent, last: Option<crate::key::KeyEvent>)
    requires
        v.mode == Mode::Picker,
    ensures
        ({
            let code = key.code;
            let command = v.on_key(key, last).1;
            &&& (code == crossterm::event::KeyCode::Char('j') || code
                == crossterm::event::KeyCode::Down) ==> command == Some(Action::MoveSelectionNext)
            &&& (code == crossterm::event::KeyCode::Char('k') || code
                == crossterm::event::KeyCode::Up) ==> command == Some(Action::MoveSelectionPrevious)
            &&& (code == crossterm::event::KeyCode::Char('l') || code
                == crossterm::event::KeyCode::Right) ==> command == Some(Action::IncrementPage)
            &&& (code == crossterm::event::KeyCode::Char('h') || code
                == crossterm::event::KeyCode::Left) ==> command == Some(Action::DecrementPage)
            &&& (code == crossterm::event::KeyCode::Char('G') || code
                == crossterm::event::KeyCode::End || code == crossterm::event::KeyCode::PageDown)
                ==> command == Some(Action::MoveSelectionBottom)
            &&& (code == crossterm::event::KeyCode::Home || code
                == crossterm::event::KeyCode::PageUp) ==> command == Some(Action::MoveSelectionTop)
            &&& code == crossterm::event::KeyCode::Char('?') ==> command == Some(
                Action::EnterSearchQueryInsert,
            )
            &&& code == crossterm::event::KeyCode::Char('/') ==> command == Some(
                Action::EnterFilterInsert,
            )
            &&& code == crossterm::event::KeyCode::Char('r') ==> command == Some(Action::ReloadData)
            &&& code == crossterm::event::KeyCode::Char('a') ==> command == Some(
                Action::CargoAddCrate,
            )
            &&& code == crossterm::event::KeyCode::Enter ==> command == Some(
                Action::ToggleShowCrateInfo,
            )
            &&& (code == crossterm::event::KeyCode::Char('q') || code
                == crossterm::event::KeyCode::Esc) ==> command == Some(Action::Quit)
        }),
{
}

/// The status beside the prompt, while no page loads, reads
/// `position/total`: two numerals around a slash, the first denoting the
/// selected crate's running number among all results (0 without a
/// selection), the second the number of crates found (0 while unknown).
pub proof fn lemma_status_reads_position_and_total(v: RootView)
    requires
        !v.loading,
        v.page >= 1,
    ensures
        exists|position: Seq<char>, total: Seq<char>|
            #![trigger numeral_value(position), numeral_value(total)]
            crate::model::status_text(v) == position + "/"@ + total && numeral_value(position)
                == (match v.selected {
                Some(n) => (v.page - 1) * 25 + n + 1,
                None => 0,
            }) && numeral_value(total) == (match v.total_num_crates {
                Some(n) => n as int,
                None => 0,
            }),
{
    let p = crate::model::selected_position(v.page, v.selected);
    let found: nat = match v.total_num_crates {
        Some(n) => n as nat,
        None => 0,
    };
    lemma_decimal_reads_back(p as nat);
    lemma_decimal_reads_back(found);
    let position = crate::text::decimal(p as nat);
    let total = crate::text::decimal(found);
    assert(numeral_value(position) == p);
    assert(numeral_value(total) == found);
}

} // verus!
