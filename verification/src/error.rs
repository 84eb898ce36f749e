//! Errors shown to the user, and the error manager that counts them and
//! orders them by how well they match a search.
use vstd::prelude::*;

use fuzzy_matcher::skim::SkimMatcherV2;
use fuzzy_matcher::FuzzyMatcher;

use crate::text::{decimal, is_blank, push_char, push_decimal_padded, string_is_blank, zero_pad};

verus! {

/// How serious an error is.
#[derive(Clone, Copy, PartialEq, Eq, Structural, Debug)]
pub enum ErrorSeverity {
    Warning,
    Error,
}

/// An error or warning shown to the user.
#[derive(Debug)]
pub struct Error {
    pub code: u16,
    pub title: String,
    pub severity: ErrorSeverity,
    pub description: Option<String>,
}

impl Clone for Error {
    fn clone(&self) -> (r: Self)
        ensures
            r == *self,
    {
        let description = match &self.description {
            Some(d) => Some(d.clone()),
            None => None,
        };
        Error { code: self.code, title: self.title.clone(), severity: self.severity, description }
    }
}

impl Error {
    /// An error with the given code, title, severity and optional description.
    pub fn new(code: u16, title: String, severity: ErrorSeverity, description: Option<String>) -> (e:
        Error)
        ensures
            e.code == code,
            e.title == title,
            e.severity == severity,
            e.description == description,
    {
        Error { code, title, severity, description }
    }

    /// An error built from string literals.
    pub fn from_parts(code: u16, title: &str, severity: ErrorSeverity, description: Option<&str>) -> (e:
        Error)
        ensures
            e.code == code,
            e.title@ == title@,
            e.severity == severity,
            match description {
                Some(d) => e.description matches Some(t) && t@ == d@,
                None => e.description is None,
            },
    {
        let description = match description {
            Some(d) => Some(String::from_str(d)),
            None => None,
        };
        Error { code, title: String::from_str(title), severity, description }
    }
}

/// `e` has the given code, severity, title and description.
pub open spec fn error_is(
    e: Error,
    code: u16,
    severity: ErrorSeverity,
    title: Seq<char>,
    description: Option<Seq<char>>,
) -> bool {
    &&& e.code == code
    &&& e.severity == severity
    &&& e.title@ == title
    &&& match description {
        Some(d) => e.description is Some && e.description->0@ == d,
        None => e.description is None,
    }
}

// ---------------------------------------------------------------------------
// Fuzzy search
// ---------------------------------------------------------------------------

/// The score that skim's fuzzy matcher (`SkimMatcherV2` with its default
/// configuration) gives `choice` for `pattern`, or `None` when it does not match.
pub uninterp spec fn skim_score(choice: Seq<char>, pattern: Seq<char>) -> Option<i64>;

/// Calls `SkimMatcherV2::default().fuzzy_match(choice, pattern)` from the
/// `fuzzy_matcher` crate. Its result is named `skim_score`, a function of the
/// two strings alone (the matcher's caches do not change results); the one
/// fact stated of it is that an empty pattern matches with score 0.
#[verifier::external_body]
fn skim_fuzzy_match(choice: &str, pattern: &str) -> (r: Option<i64>)
    ensures
        r == skim_score(choice@, pattern@),
        pattern@.len() == 0 ==> r == Some(0i64),
{
    SkimMatcherV2::default().fuzzy_match(choice, pattern)
}

/// The higher of a score so far and a match's score, if it matched.
pub open spec fn max_score(high: i64, score: Option<i64>) -> i64 {
    match score {
        Some(s) => if s > high {
            s
        } else {
            high
        },
        None => high,
    }
}

/// The label an error code is searched as: `E` and five digits.
pub open spec fn code_label(code: u16) -> Seq<char> {
    seq!['E'] + zero_pad(decimal(code as nat), 5)
}

/// How well an error matches a search: the best of the scores of its title,
/// its code label and its description, and at least 0.
pub open spec fn error_score(e: Error, pattern: Seq<char>) -> i64 {
    let a = max_score(0, skim_score(e.title@, pattern));
    let b = max_score(a, skim_score(code_label(e.code), pattern));
    match e.description {
        Some(d) => max_score(b, skim_score(d@, pattern)),
        None => b,
    }
}

/// Raises `high_score` to the score of `choice` for `pattern` when it matches
/// better.
pub fn fuzzy_match(high_score: &mut i64, choice: &str, pattern: &str)
    ensures
        *final(high_score) == max_score(*old(high_score), skim_score(choice@, pattern@)),
{
    if let Some(score) = skim_fuzzy_match(choice, pattern) {
        if score > *high_score {
            *high_score = score;
        }
    }
}

/// The label `E{code:0>5}`.
pub fn code_label_string(code: u16) -> (s: String)
    ensures
        s@ == code_label(code),
{
    let mut s = String::new();
    push_char(&mut s, 'E');
    push_decimal_padded(&mut s, code as u64, 5);
    assert(s@ =~= code_label(code));
    s
}

impl Error {
    /// How well this error matches `search_string`.
    pub fn fuzzy_score(&self, search_string: &str) -> (r: i64)
        ensures
            r == error_score(*self, search_string@),
    {
        let mut high_score: i64 = 0;
        fuzzy_match(&mut high_score, self.title.as_str(), search_string);
        let label = code_label_string(self.code);
        fuzzy_match(&mut high_score, label.as_str(), search_string);
        if let Some(ref text) = self.description {
            fuzzy_match(&mut high_score, text.as_str(), search_string);
        }
        high_score
    }
}

/// Whether, in an order by descending score that keeps ties in their original
/// order, position `a` comes before position `b`.
pub open spec fn ranks_before(scores: Seq<i64>, a: int, b: int) -> bool {
    scores[a] > scores[b] || (scores[a] == scores[b] && a < b)
}

/// `idx` lists every position of `scores` once, by descending score, ties in
/// their original order.
pub open spec fn is_score_order(scores: Seq<i64>, idx: Seq<int>) -> bool {
    &&& idx.len() == scores.len()
    &&& forall|k: int| 0 <= k < idx.len() ==> 0 <= #[trigger] idx[k] < scores.len()
    &&& forall|p: int, q: int|
        0 <= p < q < idx.len() ==> ranks_before(scores, #[trigger] idx[p], #[trigger] idx[q])
}

/// `r` is `items` ordered by descending score, ties in their original order.
pub open spec fn is_stably_sorted_by_score<T>(items: Seq<T>, scores: Seq<i64>, r: Seq<T>) -> bool {
    exists|idx: Seq<int>|
        is_score_order(scores, idx) && r == idx.map_values(|i: int| items[i])
}

/// The positions of `scores`, by descending score, ties in their original
/// order.
fn score_order(scores: &Vec<i64>) -> (out: Vec<usize>)
    ensures
        is_score_order(scores@, out@.map_values(|i: usize| i as int)),
{
    let n = scores.len();
    let mut out: Vec<usize> = Vec::new();
    let mut i: usize = 0;
    while i < n
        invariant
            i <= n == scores@.len(),
            out@.len() == i,
            forall|k: int| 0 <= k < out@.len() ==> #[trigger] out@[k] < i,
            forall|p: int, q: int|
                0 <= p < q < out@.len() ==> ranks_before(
                    scores@,
                    #[trigger] out@[p] as int,
                    #[trigger] out@[q] as int,
                ),
        decreases n - i,
    {
        let x = scores[i];
        let mut pos: usize = 0;
        while pos < out.len() && scores[out[pos]] >= x
            invariant
                pos <= out@.len() == i,
                i < n == scores@.len(),
                x == scores@[i as int],
                forall|k: int| 0 <= k < out@.len() ==> #[trigger] out@[k] < i,
                forall|k: int| 0 <= k < pos ==> scores@[#[trigger] out@[k] as int] >= x,
            decreases out@.len() - pos,
        {
            pos = pos + 1;
        }
        let ghost old_out = out@;
        out.insert(pos, i);
        proof {
            assert forall|k: int| 0 <= k < out@.len() implies #[trigger] out@[k] < i + 1 by {
                if k < pos {
                    assert(out@[k] == old_out[k]);
                } else if k > pos {
                    assert(out@[k] == old_out[k - 1]);
                }
            }
            assert forall|p: int, q: int| 0 <= p < q < out@.len() implies ranks_before(
                scores@,
                #[trigger] out@[p] as int,
                #[trigger] out@[q] as int,
            ) by {
                if q < pos {
                    assert(out@[p] == old_out[p] && out@[q] == old_out[q]);
                } else if q == pos {
                    assert(out@[p] == old_out[p]);
                    assert(scores@[old_out[p] as int] >= x);
                } else if p < pos {
                    assert(out@[p] == old_out[p] && out@[q] == old_out[q - 1]);
                } else if p == pos {
                    assert(out@[q] == old_out[q - 1]);
                    if pos < old_out.len() {
                        // the first entry after the insertion point scores below x,
                        // and entries after it score no more than it
                        assert(scores@[old_out[pos as int] as int] < x);
                        if q - 1 > pos {
                            assert(ranks_before(
                                scores@,
                                old_out[pos as int] as int,
                                old_out[q - 1] as int,
                            ));
                        }
                    }
                } else {
                    assert(out@[p] == old_out[p - 1] && out@[q] == old_out[q - 1]);
                }
            }
        }
        i = i + 1;
    }
    proof {
        let m = out@.map_values(|i: usize| i as int);
        assert forall|p: int, q: int| 0 <= p < q < m.len() implies ranks_before(
            scores@,
            #[trigger] m[p],
            #[trigger] m[q],
        ) by {
            assert(m[p] == out@[p] as int && m[q] == out@[q] as int);
        }
        assert forall|k: int| 0 <= k < m.len() implies 0 <= #[trigger] m[k] < scores@.len() by {
            assert(m[k] == out@[k] as int);
        }
    }
    out
}

/// A copy of a list of errors.
pub fn clone_errors(errors: &Vec<Error>) -> (r: Vec<Error>)
    ensures
        r@ == errors@,
{
    let mut r: Vec<Error> = Vec::new();
    let mut i: usize = 0;
    while i < errors.len()
        invariant
            i <= errors@.len(),
            r@ == errors@.take(i as int),
        decreases errors@.len() - i,
    {
        r.push(errors[i].clone());
        assert(r@ =~= errors@.take(i + 1));
        i = i + 1;
    }
    assert(errors@.take(errors@.len() as int) =~= errors@);
    r
}

/// The scores of the errors for a search.
pub open spec fn error_scores(errors: Seq<Error>, pattern: Seq<char>) -> Seq<i64> {
    errors.map_values(|e: Error| error_score(e, pattern))
}

/// The errors listed for a search: all of them in their order when the search
/// is blank, else ordered by descending score, ties in their order.
pub open spec fn is_search_result(errors: Seq<Error>, search: Seq<char>, r: Seq<Error>) -> bool {
    if is_blank(search) {
        r == errors
    } else {
        is_stably_sorted_by_score(errors, error_scores(errors, search), r)
    }
}

/// Orders the errors by how well they match `search_string`; a blank search
/// keeps them in their order.
pub fn search_errors(errors: &Vec<Error>, search_string: &String) -> (r: Vec<Error>)
    ensures
        is_search_result(errors@, search_string@, r@),
{
    if string_is_blank(search_string.as_str()) {
        return clone_errors(errors);
    }
    let mut scores: Vec<i64> = Vec::new();
    let mut i: usize = 0;
    while i < errors.len()
        invariant
            i <= errors@.len(),
            scores@ == error_scores(errors@, search_string@).take(i as int),
        decreases errors@.len() - i,
    {
        let s = errors[i].fuzzy_score(search_string.as_str());
        scores.push(s);
        assert(scores@ =~= error_scores(errors@, search_string@).take(i + 1));
        i = i + 1;
    }
    assert(scores@ =~= error_scores(errors@, search_string@));
    sort_by_scores(errors, &scores)
}

/// The errors ordered by their scores (`scores[i]` is the score of
/// `errors[i]`), highest first, ties in their order.
pub fn sort_by_scores(errors: &Vec<Error>, scores: &Vec<i64>) -> (r: Vec<Error>)
    requires
        scores@.len() == errors@.len(),
    ensures
        is_stably_sorted_by_score(errors@, scores@, r@),
{
    let order = score_order(scores);
    let mut r: Vec<Error> = Vec::new();
    let mut k: usize = 0;
    let ghost idx = order@.map_values(|i: usize| i as int);
    while k < order.len()
        invariant
            k <= order@.len() == errors@.len() == scores@.len(),
            is_score_order(scores@, idx),
            idx == order@.map_values(|i: usize| i as int),
            r@ == idx.map_values(|i: int| errors@[i]).take(k as int),
        decreases order@.len() - k,
    {
        assert(idx[k as int] == order@[k as int] as int);
        assert(0 <= idx[k as int] < scores@.len());
        r.push(errors[order[k]].clone());
        assert(r@ =~= idx.map_values(|i: int| errors@[i]).take(k + 1));
        k = k + 1;
    }
    assert(idx.map_values(|i: int| errors@[i]).take(order@.len() as int) =~= idx.map_values(
        |i: int| errors@[i],
    ));
    r
}

// ---------------------------------------------------------------------------
// The error manager
// ---------------------------------------------------------------------------

/// A request to the error manager.
pub enum ErrorManagerEvent {
    SetPopup(bool),
    SetSearchString(String),
    FinishFuzzySearch(Vec<Error>, usize),
}

/// A search to run away from the interface: order `errors` for `search` and
/// answer with `FinishFuzzySearch(result, generation)`.
pub struct SearchJob {
    pub errors: Vec<Error>,
    pub search: String,
    pub generation: usize,
}

/// Keeps every error received, newest first, counts them by severity, and
/// holds the popup's search and its ordered result.
#[derive(Debug)]
pub struct ErrorManager {
    pub errors: Vec<Error>,
    pub warning_count: usize,
    pub error_count: usize,
    pub popup_open: bool,
    pub popup_search_str: String,
    pub popup_sorted_errors: Vec<Error>,
    generation: usize,
    last_recieved: usize,
}

/// The error manager as plain values.
pub struct ErrorManagerView {
    pub errors: Seq<Error>,
    pub warning_count: usize,
    pub error_count: usize,
    pub popup_open: bool,
    pub popup_search_str: Seq<char>,
    pub popup_sorted_errors: Seq<Error>,
    pub generation: usize,
    pub last_recieved: usize,
}

impl View for ErrorManager {
    type V = ErrorManagerView;

    closed spec fn view(&self) -> ErrorManagerView {
        ErrorManagerView {
            errors: self.errors@,
            warning_count: self.warning_count,
            error_count: self.error_count,
            popup_open: self.popup_open,
            popup_search_str: self.popup_search_str@,
            popup_sorted_errors: self.popup_sorted_errors@,
            generation: self.generation,
            last_recieved: self.last_recieved,
        }
    }
}

/// The number of errors of the given severity.
pub open spec fn count_severity(errors: Seq<Error>, severity: ErrorSeverity) -> nat
    decreases errors.len(),
{
    if errors.len() == 0 {
        0
    } else {
        count_severity(errors.drop_first(), severity) + if errors[0].severity == severity {
            1nat
        } else {
            0nat
        }
    }
}

/// The counts agree with the errors kept.
pub open spec fn counts_agree(m: ErrorManagerView) -> bool {
    &&& m.error_count == count_severity(m.errors, ErrorSeverity::Error)
    &&& m.warning_count == count_severity(m.errors, ErrorSeverity::Warning)
}

proof fn lemma_counts_sum(errors: Seq<Error>)
    ensures
        count_severity(errors, ErrorSeverity::Error) + count_severity(errors, ErrorSeverity::Warning)
            == errors.len(),
    decreases errors.len(),
{
    if errors.len() > 0 {
        lemma_counts_sum(errors.drop_first());
    }
}

impl Default for ErrorManager {
    /// No errors, the popup closed, an empty search.
    fn default() -> (m: Self)
        ensures
            m@.errors.len() == 0,
            m@.warning_count == 0,
            m@.error_count == 0,
            !m@.popup_open,
            m@.popup_search_str.len() == 0,
            m@.popup_sorted_errors.len() == 0,
            m@.generation == 0,
            m@.last_recieved == 0,
    {
        ErrorManager {
            errors: Vec::new(),
            warning_count: 0,
            error_count: 0,
            popup_open: false,
            popup_search_str: String::new(),
            popup_sorted_errors: Vec::new(),
            generation: 0,
            last_recieved: 0,
        }
    }
}

impl ErrorManager {
    /// The number of searches started so far.
    pub fn generation(&self) -> (r: usize)
        ensures
            r == self@.generation,
    {
        self.generation
    }

    /// Clears the shown result and starts a new search generation for `search`.
    fn process_error_list(&mut self, search: String) -> (job: SearchJob)
        requires
            old(self).generation < usize::MAX,
        ensures
            final(self)@ == (ErrorManagerView {
                popup_sorted_errors: Seq::empty(),
                generation: (old(self)@.generation + 1) as usize,
                ..old(self)@
            }),
            job.errors@ == old(self)@.errors,
            job.search == search,
            job.generation == final(self)@.generation,
    {
        self.popup_sorted_errors = Vec::new();
        self.generation = self.generation + 1;
        SearchJob { errors: clone_errors(&self.errors), search, generation: self.generation }
    }

    /// Keeps a new error at the front of the list, counts it, and starts a
    /// search with the popup's current search string.
    pub fn receive_error(&mut self, error: Error) -> (job: SearchJob)
        requires
            old(self)@.errors.len() < usize::MAX,
            old(self)@.generation < usize::MAX,
            old(self)@.error_count < usize::MAX,
            old(self)@.warning_count < usize::MAX,
        ensures
            final(self)@ == (ErrorManagerView {
                errors: seq![error] + old(self)@.errors,
                error_count: if error.severity == ErrorSeverity::Error {
                    (old(self)@.error_count + 1) as usize
                } else {
                    old(self)@.error_count
                },
                warning_count: if error.severity == ErrorSeverity::Warning {
                    (old(self)@.warning_count + 1) as usize
                } else {
                    old(self)@.warning_count
                },
                popup_sorted_errors: Seq::empty(),
                generation: (old(self)@.generation + 1) as usize,
                ..old(self)@
            }),
            counts_agree(old(self)@) ==> counts_agree(final(self)@),
            job.errors@ == final(self)@.errors,
            job.search@ == old(self)@.popup_search_str,
            job.generation == final(self)@.generation,
    {
        proof {
            let e2 = seq![error] + self.errors@;
            assert(e2.drop_first() =~= self.errors@);
        }
        match error.severity {
            ErrorSeverity::Error => self.error_count = self.error_count + 1,
            ErrorSeverity::Warning => self.warning_count = self.warning_count + 1,
        }
        self.errors.insert(0, error);
        assert(self.errors@ =~= seq![error] + old(self)@.errors);
        let search = self.popup_search_str.clone();
        self.process_error_list(search)
    }

    /// Handles a request: opening or closing the popup, a new search string
    /// (which starts a search), or the result of a search.
    pub fn handle_event(&mut self, event: ErrorManagerEvent) -> (job: Option<SearchJob>)
        requires
            old(self)@.generation < usize::MAX,
        ensures
            match event {
                ErrorManagerEvent::SetPopup(state) => {
                    &&& final(self)@ == (ErrorManagerView { popup_open: state, ..old(self)@ })
                    &&& job is None
                },
                ErrorManagerEvent::SetSearchString(s) => {
                    &&& final(self)@ == (ErrorManagerView {
                        popup_search_str: s@,
                        popup_sorted_errors: Seq::empty(),
                        generation: (old(self)@.generation + 1) as usize,
                        ..old(self)@
                    })
                    &&& job matches Some(j) && j.errors@ == old(self)@.errors && j.search@ == s@
                        && j.generation == final(self)@.generation
                },
                ErrorManagerEvent::FinishFuzzySearch(list, generation) => {
                    &&& final(self)@ == if generation > old(self)@.last_recieved {
                        ErrorManagerView { popup_sorted_errors: list@, ..old(self)@ }
                    } else {
                        old(self)@
                    }
                    &&& job is None
                },
            },
    {
        match event {
            ErrorManagerEvent::SetPopup(state) => {
                self.popup_open = state;
                None
            },
            ErrorManagerEvent::SetSearchString(state) => {
                self.popup_search_str = state.clone();
                Some(self.process_error_list(state))
            },
            ErrorManagerEvent::FinishFuzzySearch(list, generation) => {
                if generation > self.last_recieved {
                    self.popup_sorted_errors = list;
                }
                None
            },
        }
    }
}

/// Runs a search job: the answer to hand back to the manager.
pub fn run_search_job(job: &SearchJob) -> (event: ErrorManagerEvent)
    ensures
        event matches ErrorManagerEvent::FinishFuzzySearch(list, generation) && generation
            == job.generation && is_search_result(job.errors@, job.search@, list@),
{
    ErrorManagerEvent::FinishFuzzySearch(search_errors(&job.errors, &job.search), job.generation)
}

/// Every error received is counted once, under its severity: the two counts
/// add up to the number of errors kept.
pub proof fn law_error_counts(m: ErrorManagerView)
    requires
        counts_agree(m),
    ensures
        m.error_count + m.warning_count == m.errors.len(),
{
    lemma_counts_sum(m.errors);
}

/// A search result lists each error once: it is as long as the list searched,
/// and its entries are the errors at distinct positions of that list.
pub proof fn law_search_result_is_permutation(errors: Seq<Error>, search: Seq<char>, r: Seq<Error>)
    requires
        is_search_result(errors, search, r),
    ensures
        r.len() == errors.len(),
        !is_blank(search) ==> exists|idx: Seq<int>|
            {
                &&& idx.len() == errors.len()
                &&& forall|p: int, q: int|
                    0 <= p < q < idx.len() ==> #[trigger] idx[p] != #[trigger] idx[q]
                &&& forall|k: int|
                    0 <= k < idx.len() ==> 0 <= #[trigger] idx[k] < errors.len() && r[k]
                        == errors[idx[k]]
            },
        !is_blank(search) ==> forall|p: int, q: int|
            0 <= p < q < r.len() ==> error_score(#[trigger] r[p], search) >= error_score(
                #[trigger] r[q],
                search,
            ),
{
    if !is_blank(search) {
        let scores = error_scores(errors, search);
        let idx = choose|idx: Seq<int>|
            is_score_order(scores, idx) && r == idx.map_values(|i: int| errors[i]);
        assert forall|p: int, q: int| 0 <= p < q < idx.len() implies #[trigger] idx[p]
            != #[trigger] idx[q] by {
            assert(ranks_before(scores, idx[p], idx[q]));
        }
        assert forall|k: int| 0 <= k < idx.len() implies 0 <= #[trigger] idx[k] < errors.len()
            && r[k] == errors[idx[k]] by {
        }
        assert forall|p: int, q: int| 0 <= p < q < r.len() implies error_score(
            #[trigger] r[p],
            search,
        ) >= error_score(#[trigger] r[q], search) by {
            assert(ranks_before(scores, idx[p], idx[q]));
            assert(r[p] == errors[idx[p]] && r[q] == errors[idx[q]]);
            assert(scores[idx[p]] == error_score(errors[idx[p]], search));
            assert(scores[idx[q]] == error_score(errors[idx[q]], search));
        }
    }
}

/// An error scores as well as its best-matching part: the score is at least
/// 0, at least the score of its title, of its `E00000` code label and of its
/// description (when it has one), and it is one of those scores or 0.
pub proof fn law_error_score_is_best_field(e: Error, pattern: Seq<char>)
    ensures
        error_score(e, pattern) >= 0,
        skim_score(e.title@, pattern) matches Some(x) ==> error_score(e, pattern) >= x,
        skim_score(code_label(e.code), pattern) matches Some(x) ==> error_score(e, pattern) >= x,
        e.description matches Some(d) ==> (skim_score(d@, pattern) matches Some(x)
            ==> error_score(e, pattern) >= x),
        error_score(e, pattern) == 0 || skim_score(e.title@, pattern) == Some(
            error_score(e, pattern),
        ) || skim_score(code_label(e.code), pattern) == Some(error_score(e, pattern)) || (
        e.description matches Some(d) && skim_score(d@, pattern) == Some(error_score(e, pattern))),
{
}

} // verus!
