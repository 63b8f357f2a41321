//! A filterable, single-selection list over a fixed catalog of entries.
//!
//! The filter text is first read as a regular expression; when it does not
//! compile, it falls back to an ASCII-case-insensitive literal substring
//! match.  The visible selection always indexes into the filtered
//! sequence, never into the unfiltered catalog.

use vstd::prelude::*;

use crate::strutil::{contains_ci, contains_ci_str};

verus! {

/// Whether a pattern is accepted by the regular-expression engine; a
/// function of the pattern alone.
pub uninterp spec fn pattern_compiles(pattern: Seq<char>) -> bool;

/// Whether a compiled pattern matches somewhere in a text; a function of
/// the pattern and the text alone.
pub uninterp spec fn pattern_match_holds(pattern: Seq<char>, text: Seq<char>) -> bool;

/// Relies on regex's `Regex::new` (whether a pattern compiles depends on
/// the pattern alone, the default size limit included) and on
/// `Regex::is_match` (whether a match exists anywhere in the text depends
/// on the pattern and the text alone).
#[verifier::external_body]
fn match_pattern(pattern: &str, text: &str) -> (r: Option<bool>)
    ensures
        r is Some <==> pattern_compiles(pattern@),
        r is Some ==> r == Some(pattern_match_holds(pattern@, text@)),
{
    match regex::Regex::new(pattern) {
        Ok(re) => Some(re.is_match(text)),
        Err(_) => None,
    }
}

/// Whether one catalog entry passes the filter: an empty filter passes
/// everything; a compiling filter is used as a regular expression; a
/// non-compiling one falls back to a case-insensitive substring match.
pub open spec fn entry_matches(filter: Seq<char>, entry: Seq<char>) -> bool {
    if filter.len() == 0 {
        true
    } else if pattern_compiles(filter) {
        pattern_match_holds(filter, entry)
    } else {
        contains_ci(entry, filter)
    }
}

/// The catalog entries that pass the filter, in catalog order.
pub open spec fn filtered_catalog(catalog: Seq<String>, filter: Seq<char>) -> Seq<String> {
    catalog.filter(|e: String| entry_matches(filter, e@))
}

/// How one refiltering step relates the selector before and after: the
/// catalog is fixed, the filtered entries follow the new filter text, a
/// selection still in range is kept, one out of range is reset to the
/// first entry, and an empty result clears it.
pub open spec fn refiltered(pre: FilterableSelector, post: FilterableSelector, text: Seq<char>) -> bool {
    &&& post.catalog == pre.catalog
    &&& post.filter_text@ == text
    &&& post.filtered@ == filtered_catalog(pre.catalog@, text)
    &&& post.selected == (if post.filtered@.len() == 0 {
        Option::<usize>::None
    } else {
        match pre.selected {
            Some(i) => if i < post.filtered@.len() {
                Some(i)
            } else {
                Some(0usize)
            },
            None => Some(0usize),
        }
    })
}

/// A filterable, single-selection list: the fixed catalog, the filter
/// text, the filtered entries, and a selection into the filtered entries.
#[derive(Clone, Debug)]
pub struct FilterableSelector {
    pub catalog: Vec<String>,
    pub filter_text: String,
    pub filtered: Vec<String>,
    pub selected: Option<usize>,
}

impl FilterableSelector {
    /// Well-formedness: the filtered entries are exactly the catalog
    /// entries passing the filter, something is selected exactly when the
    /// filtered sequence is non-empty, and the selection indexes into it.
    pub open spec fn wf(self) -> bool {
        &&& self.filtered@ == filtered_catalog(self.catalog@, self.filter_text@)
        &&& (self.selected is Some <==> self.filtered@.len() > 0)
        &&& (self.selected matches Some(i) ==> i < self.filtered@.len())
    }

    /// A fresh selector over a catalog, with no filter and the first
    /// entry selected when there is one.
    pub fn new(catalog: Vec<String>) -> (r: Self)
        ensures
            r.wf(),
            r.catalog@ == catalog@,
            r.filter_text@ == Seq::<char>::empty(),
            r.filtered@ == catalog@,
            catalog@.len() > 0 ==> r.selected == Some(0usize),
            catalog@.len() == 0 ==> r.selected is None,
    {
        let filtered = clone_catalog(&catalog);
        let selected = if filtered.len() > 0 {
            Some(0usize)
        } else {
            None
        };
        proof {
            lemma_filter_empty_filter(catalog@);
        }
        FilterableSelector { catalog, filter_text: String::new(), filtered, selected }
    }

    /// Replaces the filter text and refilters the catalog.  A selection
    /// still in range is kept; one that fell out of range is reset to the
    /// first entry; when nothing passes the filter, the selection is
    /// cleared.  When the filter is not a valid regular expression, the
    /// filtered entries are exactly those containing it case-insensitively.
    pub fn set_filter(&mut self, text: String)
        ensures
            final(self).wf(),
            refiltered(*old(self), *final(self), text@),
            final(self).filter_text == text,
            text@.len() > 0 && !pattern_compiles(text@) ==> final(self).filtered@ == old(
                self,
            ).catalog@.filter(|e: String| contains_ci(e@, text@)),
            final(self).selected == (if final(self).filtered@.len() == 0 {
                Option::<usize>::None
            } else {
                match old(self).selected {
                    Some(i) => if i < final(self).filtered@.len() {
                        Some(i)
                    } else {
                        Some(0usize)
                    },
                    None => Some(0usize),
                }
            }),
    {
        self.filter_text = text;
        let n: usize = self.catalog.len();
        let mut out: Vec<String> = Vec::new();
        proof {
            reveal(Seq::filter);
            assert(self.catalog@.take(0) =~= Seq::<String>::empty());
            assert(out@ =~= filtered_catalog(self.catalog@.take(0), self.filter_text@));
        }
        let mut i: usize = 0;
        while i < n
            invariant
                i <= n,
                n == self.catalog@.len(),
                out@ == filtered_catalog(self.catalog@.take(i as int), self.filter_text@),
            decreases n - i,
        {
            let keep: bool;
            if self.filter_text.as_str().unicode_len() == 0 {
                keep = true;
            } else {
                match match_pattern(self.filter_text.as_str(), self.catalog[i].as_str()) {
                    Some(b) => {
                        keep = b;
                    },
                    None => {
                        keep = contains_ci_str(
                            self.catalog[i].as_str(),
                            self.filter_text.as_str(),
                        );
                    },
                }
            }
            proof {
                assert(keep == entry_matches(self.filter_text@, self.catalog@[i as int]@));
            }
            if keep {
                out.push(self.catalog[i].clone());
            }
            proof {
                reveal(Seq::filter);
                let t = self.catalog@.take(i + 1);
                assert(t.drop_last() =~= self.catalog@.take(i as int));
                assert(t.last() == self.catalog@[i as int]);
            }
            i = i + 1;
        }
        proof {
            assert(self.catalog@.take(n as int) =~= self.catalog@);
            if self.filter_text@.len() > 0 && !pattern_compiles(self.filter_text@) {
                let f = self.filter_text@;
                lemma_filter_congruence(
                    self.catalog@,
                    |e: String| entry_matches(f, e@),
                    |e: String| contains_ci(e@, f),
                );
            }
        }
        self.filtered = out;
        let len: usize = self.filtered.len();
        if len == 0 {
            self.selected = None;
        } else {
            match self.selected {
                Some(i) => {
                    if i >= len {
                        self.selected = Some(0);
                    }
                },
                None => {
                    self.selected = Some(0);
                },
            }
        }
    }

    /// Moves the selection down by one, wrapping from the last filtered
    /// entry to the first; with nothing to select, nothing changes.
    pub fn select_next(&mut self)
        requires
            old(self).wf(),
        ensures
            final(self).wf(),
            final(self).catalog == old(self).catalog,
            final(self).filter_text == old(self).filter_text,
            final(self).filtered == old(self).filtered,
            final(self).selected == (match old(self).selected {
                Some(i) => if i + 1 < old(self).filtered@.len() {
                    Some((i + 1) as usize)
                } else {
                    Some(0usize)
                },
                None => Option::<usize>::None,
            }),
    {
        match self.selected {
            Some(i) => {
                proof {
                    assert(i < self.filtered@.len());
                }
                if i < self.filtered.len() - 1 {
                    self.selected = Some(i + 1);
                } else {
                    self.selected = Some(0);
                }
            },
            None => {},
        }
    }

    /// Moves the selection up by one, wrapping from the first filtered
    /// entry to the last; with nothing to select, nothing changes.
    pub fn select_previous(&mut self)
        requires
            old(self).wf(),
        ensures
            final(self).wf(),
            final(self).catalog == old(self).catalog,
            final(self).filter_text == old(self).filter_text,
            final(self).filtered == old(self).filtered,
            final(self).selected == (match old(self).selected {
                Some(i) => if i > 0 {
                    Some((i - 1) as usize)
                } else {
                    Some((old(self).filtered@.len() - 1) as usize)
                },
                None => Option::<usize>::None,
            }),
    {
        match self.selected {
            Some(i) => {
                if i > 0 {
                    self.selected = Some(i - 1);
                } else {
                    self.selected = Some(self.filtered.len() - 1);
                }
            },
            None => {},
        }
    }

    /// Reads the entry at the current selection; with nothing selected
    /// this is a no-op and yields nothing.
    pub fn confirm(&self) -> (r: Option<String>)
        requires
            self.wf(),
        ensures
            self.selected matches Some(i) ==> (r matches Some(s) && s == self.filtered@[i as int]),
            self.selected is None ==> r is None,
    {
        match self.selected {
            Some(i) => Some(self.filtered[i].clone()),
            None => None,
        }
    }
}

fn clone_catalog(v: &Vec<String>) -> (r: Vec<String>)
    ensures
        r@ == v@,
{
    let mut out: Vec<String> = Vec::new();
    let mut i: usize = 0;
    while i < v.len()
        invariant
            i <= v@.len(),
            out@ == v@.take(i as int),
        decreases v@.len() - i,
    {
        out.push(v[i].clone());
        proof {
            assert(out@ =~= v@.take(i + 1));
        }
        i = i + 1;
    }
    proof {
        assert(v@.take(v@.len() as int) =~= v@);
    }
    out
}

proof fn lemma_filter_congruence(s: Seq<String>, p1: spec_fn(String) -> bool, p2: spec_fn(
    String,
) -> bool)
    requires
        forall|e: String| #[trigger] p1(e) == p2(e),
    ensures
        s.filter(p1) == s.filter(p2),
    decreases s.len(),
{
    reveal(Seq::filter);
    if s.len() > 0 {
        lemma_filter_congruence(s.drop_last(), p1, p2);
        assert(p1(s.last()) == p2(s.last()));
    }
}

proof fn lemma_filter_empty_filter(catalog: Seq<String>)
    ensures
        filtered_catalog(catalog, Seq::<char>::empty()) == catalog,
    decreases catalog.len(),
{
    reveal(Seq::filter);
    if catalog.len() > 0 {
        lemma_filter_empty_filter(catalog.drop_last());
        assert(filtered_catalog(catalog, Seq::<char>::empty()) =~= catalog);
    } else {
        assert(filtered_catalog(catalog, Seq::<char>::empty()) =~= catalog);
    }
}

} // verus!
