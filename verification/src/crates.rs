use vstd::prelude::*;

use crate::text::{chars_of, contains_run, is_infix, lowercase, split_words, to_lowercase, words};

verus! {

/// What the screen logic reads of one crate of the registry: its name,
/// its description, its download count, and a number by which the caller
/// finds the full record again.
#[derive(Debug, PartialEq, Eq)]
pub struct CrateEntry {
    /// A number chosen by the caller that identifies the full record.
    pub id: u64,
    /// The crate's name.
    pub name: String,
    /// The crate's description, where it has one.
    pub description: Option<String>,
    /// How often the crate was downloaded.
    pub downloads: u64,
}

impl Clone for CrateEntry {
    fn clone(&self) -> (copy: Self)
        ensures
            copy == *self,
    {
        CrateEntry {
            id: self.id,
            name: self.name.clone(),
            description: match &self.description {
                Some(d) => Some(d.clone()),
                None => None,
            },
            downloads: self.downloads,
        }
    }
}

/// The description of a crate, empty where it has none.
pub open spec fn description_text(c: CrateEntry) -> Seq<char> {
    match c.description {
        Some(d) => d@,
        None => Seq::empty(),
    }
}

/// Whether every filter word occurs in the lowercase name or in the
/// lowercase description of the crate.
pub open spec fn matches_words(filter_words: Seq<Seq<char>>, c: CrateEntry) -> bool {
    forall|i: int|
        0 <= i < filter_words.len() ==> {
            ||| is_infix(#[trigger] filter_words[i], lowercase(c.name@))
            ||| is_infix(filter_words[i], lowercase(description_text(c)))
        }
}

/// The crates that the filter text keeps: those that match each of its words.
pub open spec fn filtered(crates: Seq<CrateEntry>, filter: Seq<char>) -> Seq<CrateEntry> {
    crates.filter(|c: CrateEntry| matches_words(words(filter), c))
}

/// Whether the crate matches every word of `filter_words` (given as character vectors).
fn entry_matches(filter_words: &Vec<Vec<char>>, c: &CrateEntry) -> (b: bool)
    ensures
        b == matches_words(crate::text::char_views(filter_words@), *c),
{
    let name = chars_of(to_lowercase(c.name.as_str()).as_str());
    let description = match &c.description {
        Some(d) => chars_of(to_lowercase(d.as_str()).as_str()),
        None => chars_of(to_lowercase("").as_str()),
    };
    proof {
        if c.description is None {
            reveal_strlit("");
            assert(description_text(*c) =~= ""@);
        }
    }
    let ghost ws = crate::text::char_views(filter_words@);
    let mut i: usize = 0;
    while i < filter_words.len()
        invariant
            ws == crate::text::char_views(filter_words@),
            i <= filter_words@.len(),
            name@ == lowercase(c.name@),
            description@ == lowercase(description_text(*c)),
            forall|t: int|
                0 <= t < i ==> {
                    ||| is_infix(#[trigger] ws[t], lowercase(c.name@))
                    ||| is_infix(ws[t], lowercase(description_text(*c)))
                },
        decreases filter_words@.len() - i,
    {
        let word = &filter_words[i];
        assert(ws[i as int] == word@);
        if !(contains_run(&name, word) || contains_run(&description, word)) {
            return false;
        }
        i = i + 1;
    }
    true
}

/// The crates that every whitespace-separated word of `filter` matches,
/// in the order given.
pub fn filter_crates(crates: &Vec<CrateEntry>, filter: &str) -> (kept: Vec<CrateEntry>)
    ensures
        kept@ == filtered(crates@, filter@),
{
    let filter_words = split_words(filter);
    let ghost pred = |c: CrateEntry| matches_words(words(filter@), c);
    let mut kept: Vec<CrateEntry> = Vec::new();
    let mut i: usize = 0;
    while i < crates.len()
        invariant
            i <= crates@.len(),
            crate::text::char_views(filter_words@) == words(filter@),
            pred == (|c: CrateEntry| matches_words(words(filter@), c)),
            kept@ == crates@.take(i as int).filter(pred),
        decreases crates@.len() - i,
    {
        let c = &crates[i];
        let keep = entry_matches(&filter_words, c);
        let ghost before = crates@.take(i as int);
        assert(crates@.take(i + 1).drop_last() =~= before);
        reveal_with_fuel(Seq::filter, 1);
        if keep {
            kept.push(c.clone());
        }
        i = i + 1;
    }
    assert(crates@.take(crates@.len() as int) =~= crates@);
    kept
}

/// Whether the crates come in order of falling download counts.
pub open spec fn sorted_by_downloads(s: Seq<CrateEntry>) -> bool {
    forall|i: int, j: int| 0 <= i < j < s.len() ==> s[i].downloads >= s[j].downloads
}

/// Whether `arranged[i]` is `given[from[i]]` for a one-to-one `from`
/// that keeps crates with equal download counts in the order given.
pub open spec fn stable_arrangement(
    given: Seq<CrateEntry>,
    arranged: Seq<CrateEntry>,
    from: Seq<int>,
) -> bool {
    &&& from.len() == given.len()
    &&& arranged.len() == given.len()
    &&& forall|i: int|
        0 <= i < from.len() ==> 0 <= #[trigger] from[i] < given.len() && arranged[i]
            == given[from[i]]
    &&& forall|i: int, j: int| 0 <= i < j < from.len() ==> #[trigger] from[i] != #[trigger] from[j]
    &&& forall|i: int, j: int|
        0 <= i < j < from.len() && arranged[i].downloads == arranged[j].downloads ==> #[trigger] from[i]
            < #[trigger] from[j]
}

/// Whether `arranged` is `given` sorted by falling download counts with
/// ties left in the order given.
pub open spec fn is_sorted_by_downloads_of(given: Seq<CrateEntry>, arranged: Seq<CrateEntry>) -> bool {
    &&& sorted_by_downloads(arranged)
    &&& exists|from: Seq<int>| stable_arrangement(given, arranged, from)
}

/// Sorts the crates by falling download counts, keeping ties in the
/// order given (as the stable sort of `sort_by` does).
pub fn sort_by_downloads(crates: Vec<CrateEntry>) -> (sorted: Vec<CrateEntry>)
    ensures
        is_sorted_by_downloads_of(crates@, sorted@),
{
    let ghost given = crates@;
    let total = crates.len();
    let mut rest = crates;
    let mut sorted: Vec<CrateEntry> = Vec::new();
    let ghost mut from: Seq<int> = Seq::empty();
    let mut k: usize = 0;
    while rest.len() > 0
        invariant
            k <= given.len(),
            total == given.len(),
            rest@ == given.subrange(k as int, given.len() as int),
            sorted_by_downloads(sorted@),
            stable_arrangement(given.take(k as int), sorted@, from),
        decreases rest@.len(),
    {
        let item = rest.remove(0);
        assert(item == given[k as int]);
        let mut pos: usize = 0;
        while pos < sorted.len() && sorted[pos].downloads >= item.downloads
            invariant
                pos <= sorted@.len(),
                forall|t: int| 0 <= t < pos ==> sorted@[t].downloads >= item.downloads,
            decreases sorted@.len() - pos,
        {
            pos = pos + 1;
        }
        let ghost old_sorted = sorted@;
        let ghost old_from = from;
        sorted.insert(pos, item);
        proof {
            from = old_from.insert(pos as int, k as int);
            assert(forall|t: int| pos <= t < old_sorted.len() ==> old_sorted[t].downloads
                < item.downloads) by {
                if pos < old_sorted.len() {
                    assert(old_sorted[pos as int].downloads < item.downloads);
                }
            }
            assert(sorted@ =~= old_sorted.insert(pos as int, item));
            assert(given.take(k + 1) =~= given.take(k as int).push(item));
        }
        k = k + 1;
    }
    assert(given.take(k as int) =~= given);
    sorted
}

} // verus!
