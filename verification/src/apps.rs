//! Desktop applications: what a desktop entry says of one, how a query
//! ranks them, and the command line that launches one.

use crate::order::{
    in_order, lemma_slot_is, lemma_stable_sorted_in_order, lemma_stable_sorted_rearranges,
    stable_sorted,
};
use crate::text::{
    contains, has_infix, has_prefix, lowercase_of, remove_all, split_whitespace, starts_with,
    lemma_text_le_total, lemma_text_le_transitive, text_at_most, text_le, to_lowercase, trim,
    trimmed, without, words,
};
use crate::tools::{
    clone_opt, clone_strings, opt_text, texts, InvocationView, ToolInvocation,
};
use vstd::prelude::*;
use vstd::string::{StringExecFns, StringSliceAdditionalSpecFns};

verus! {

/// A desktop application.
#[derive(Debug)]
pub struct Application {
    pub id: String,
    pub name: String,
    pub generic_name: Option<String>,
    pub comment: Option<String>,
    pub command: String,
    pub icon: Option<String>,
    pub categories: Vec<String>,
    pub keywords: Vec<String>,
    pub terminal: bool,
    pub no_display: bool,
    pub desktop_file: String,
}

/// An application as plain values.
pub struct AppView {
    pub id: Seq<char>,
    pub name: Seq<char>,
    pub generic_name: Option<Seq<char>>,
    pub comment: Option<Seq<char>>,
    pub command: Seq<char>,
    pub icon: Option<Seq<char>>,
    pub categories: Seq<Seq<char>>,
    pub keywords: Seq<Seq<char>>,
    pub terminal: bool,
    pub no_display: bool,
    pub desktop_file: Seq<char>,
}

impl View for Application {
    type V = AppView;

    open spec fn view(&self) -> AppView {
        AppView {
            id: self.id@,
            name: self.name@,
            generic_name: opt_text(self.generic_name),
            comment: opt_text(self.comment),
            command: self.command@,
            icon: opt_text(self.icon),
            categories: texts(self.categories@),
            keywords: texts(self.keywords@),
            terminal: self.terminal,
            no_display: self.no_display,
            desktop_file: self.desktop_file@,
        }
    }
}

/// The applications of a sequence as plain values.
pub open spec fn app_views(apps: Seq<Application>) -> Seq<AppView> {
    apps.map_values(|a: Application| a@)
}

impl Clone for Application {
    fn clone(&self) -> (copy: Self)
        ensures
            copy@ == self@,
    {
        Application {
            id: self.id.clone(),
            name: self.name.clone(),
            generic_name: clone_opt(&self.generic_name),
            comment: clone_opt(&self.comment),
            command: self.command.clone(),
            icon: clone_opt(&self.icon),
            categories: clone_strings(&self.categories),
            keywords: clone_strings(&self.keywords),
            terminal: self.terminal,
            no_display: self.no_display,
            desktop_file: self.desktop_file.clone(),
        }
    }
}

/// An `Exec` value without its field codes: `%f`, `%F`, `%u`, `%U`, `%d`,
/// `%D`, `%n`, `%N`, `%i`, `%c` and `%k` are removed, one after the other.
pub open spec fn stripped(command: Seq<char>) -> Seq<char> {
    let s = without(command, "%f"@);
    let s = without(s, "%F"@);
    let s = without(s, "%u"@);
    let s = without(s, "%U"@);
    let s = without(s, "%d"@);
    let s = without(s, "%D"@);
    let s = without(s, "%n"@);
    let s = without(s, "%N"@);
    let s = without(s, "%i"@);
    let s = without(s, "%c"@);
    without(s, "%k"@)
}

/// The words of the command line that an `Exec` value stands for.
pub open spec fn launch_words(command: Seq<char>) -> Seq<Seq<char>> {
    words(trimmed(stripped(command)))
}

/// What `launch_command` owes for an `Exec` value: the first word as the
/// program and the others as its arguments, or an error if there is no word.
pub open spec fn launch_plan(command: Seq<char>) -> Result<InvocationView, Seq<char>> {
    let w = launch_words(command);
    if w.len() == 0 {
        Err("Empty exec command"@)
    } else {
        Ok(InvocationView { program: w[0], args: w.subrange(1, w.len() as int) })
    }
}

/// The view of a launch result.
pub open spec fn plan_view(plan: Result<ToolInvocation, String>) -> Result<
    InvocationView,
    Seq<char>,
> {
    match plan {
        Ok(inv) => Ok(inv@),
        Err(e) => Err(e@),
    }
}

impl Application {
    /// The command line that launches the application.
    pub fn launch_command(&self) -> (plan: Result<ToolInvocation, String>)
        ensures
            plan_view(plan) == launch_plan(self.command@),
    {
        let s = remove_all(self.command.as_str(), "%f");
        let s = remove_all(s.as_str(), "%F");
        let s = remove_all(s.as_str(), "%u");
        let s = remove_all(s.as_str(), "%U");
        let s = remove_all(s.as_str(), "%d");
        let s = remove_all(s.as_str(), "%D");
        let s = remove_all(s.as_str(), "%n");
        let s = remove_all(s.as_str(), "%N");
        let s = remove_all(s.as_str(), "%i");
        let s = remove_all(s.as_str(), "%c");
        let s = remove_all(s.as_str(), "%k");
        let mut tokens = split_whitespace(trim(s.as_str()));
        if tokens.len() == 0 {
            assert(texts(tokens@).len() == 0);
            return Err(String::from_str("Empty exec command"));
        }
        let ghost all = texts(tokens@);
        let program = tokens.remove(0);
        assert(texts(tokens@) =~= all.subrange(1, all.len() as int));
        assert(program@ == all[0]);
        Ok(ToolInvocation { program, args: tokens })
    }

    /// Words the failure to start the application's process.
    pub fn launch_error(&self, detail: &str) -> (text: String)
        ensures
            text@ == "Failed to launch "@ + self.name@ + ": "@ + detail@,
    {
        String::from_str("Failed to launch ").concat(self.name.as_str()).concat(": ").concat(detail)
    }
}

/// Whether some text of a list holds the query once it is put in lowercase.
pub open spec fn any_holds(items: Seq<Seq<char>>, query: Seq<char>) -> bool {
    exists|k: int| 0 <= k < items.len() && has_infix(lowercase_of(#[trigger] items[k]), query)
}

/// Bytes of the UTF-8 encoding of a text.
pub open spec fn utf8_len(s: Seq<char>) -> nat {
    vstd::utf8::encode_utf8(s).len()
}

/// How well an application matches a query that is already in lowercase.
/// The name decides first: equal to the query 1000; starting with it 500,
/// and 1 more for each byte that the name is shorter than 100; holding it
/// 200. Then the generic name holding it 150, a keyword 100, a category 50.
/// Zero if nothing matches.
pub open spec fn score_of(app: AppView, query: Seq<char>) -> int {
    let name = lowercase_of(app.name);
    if name == query {
        1000
    } else if has_prefix(name, query) {
        if utf8_len(name) < 100 {
            600 - utf8_len(name)
        } else {
            500
        }
    } else if has_infix(name, query) {
        200
    } else if app.generic_name matches Some(g) && has_infix(lowercase_of(g), query) {
        150
    } else if any_holds(app.keywords, query) {
        100
    } else if any_holds(app.categories, query) {
        50
    } else {
        0
    }
}

fn any_contains(items: &Vec<String>, query: &str) -> (yes: bool)
    ensures
        yes == any_holds(texts(items@), query@),
{
    let mut i: usize = 0;
    while i < items.len()
        invariant
            i <= items.len(),
            forall|k: int| 0 <= k < i ==> !has_infix(lowercase_of(#[trigger] items@[k]@), query@),
        decreases items.len() - i,
    {
        let lower = to_lowercase(items[i].as_str());
        if contains(lower.as_str(), query) {
            assert(texts(items@)[i as int] == items@[i as int]@);
            return true;
        }
        i += 1;
    }
    assert forall|k: int| 0 <= k < texts(items@).len() implies !has_infix(
        lowercase_of(#[trigger] texts(items@)[k]),
        query@,
    ) by {
        assert(texts(items@)[k] == items@[k]@);
    }
    false
}

/// Scores one application against a query in lowercase.
pub fn score_application(app: &Application, query: &str) -> (score: i32)
    ensures
        score == score_of(app@, query@),
        0 <= score <= 1000,
{
    let name_lower = to_lowercase(app.name.as_str());
    if crate::text::text_eq(name_lower.as_str(), query) {
        return 1000;
    }
    if starts_with(name_lower.as_str(), query) {
        let n = name_lower.as_str().as_bytes().len();
        if n < 100 {
            return 600 - (n as i32);
        }
        return 500;
    }
    if contains(name_lower.as_str(), query) {
        return 200;
    }
    if let Some(generic) = &app.generic_name {
        let generic_lower = to_lowercase(generic.as_str());
        if contains(generic_lower.as_str(), query) {
            return 150;
        }
    }
    if any_contains(&app.keywords, query) {
        return 100;
    }
    if any_contains(&app.categories, query) {
        return 50;
    }
    0
}

/// The order of the index: by name in lowercase.
pub open spec fn by_name() -> spec_fn(AppView, AppView) -> bool {
    |a: AppView, b: AppView| text_le(lowercase_of(a.name), lowercase_of(b.name))
}

/// The order of search results: higher scores first.
pub open spec fn by_score() -> spec_fn((int, int), (int, int)) -> bool {
    |a: (int, int), b: (int, int)| a.1 >= b.1
}

/// An index is in the order of its names, and it holds the applications
/// that were found, each as often as it was found.
pub proof fn lemma_index_is_sorted(found: Seq<AppView>)
    ensures
        in_order(stable_sorted(found, by_name()), by_name()),
        stable_sorted(found, by_name()).to_multiset() == found.to_multiset(),
{
    assert forall|a: AppView, b: AppView| #[trigger] by_name()(a, b) || #[trigger] by_name()(
        b,
        a,
    ) by {
        lemma_text_le_total(lowercase_of(a.name), lowercase_of(b.name));
    }
    assert forall|a: AppView, b: AppView, c: AppView| #[trigger]
        by_name()(a, b) && #[trigger] by_name()(b, c) implies by_name()(a, c) by {
        lemma_text_le_transitive(
            lowercase_of(a.name),
            lowercase_of(b.name),
            lowercase_of(c.name),
        );
    }
    lemma_stable_sorted_in_order(found, by_name());
    lemma_stable_sorted_rearranges(found, by_name());
}

/// The applications that a query matches are ranked with the highest score
/// first.
pub proof fn lemma_ranked_by_score(apps: Seq<AppView>, query: Seq<char>)
    ensures
        in_order(stable_sorted(scored(apps, query), by_score()), by_score()),
{
    lemma_stable_sorted_in_order(scored(apps, query), by_score());
}

/// Most results of a search with an empty query.
pub const BROWSE_LIMIT: usize = 20;

/// Most results of a search with a query.
pub const SEARCH_LIMIT: usize = 10;

/// The first `n` items, or all if there are fewer.
pub open spec fn truncated<T>(items: Seq<T>, n: int) -> Seq<T> {
    if items.len() > n {
        items.subrange(0, n)
    } else {
        items
    }
}

/// Positions of the applications that may be displayed, in order.
pub open spec fn visible_positions(apps: Seq<AppView>) -> Seq<int>
    decreases apps.len(),
{
    if apps.len() == 0 {
        Seq::empty()
    } else {
        let before = visible_positions(apps.drop_last());
        if apps.last().no_display {
            before
        } else {
            before.push(apps.len() - 1)
        }
    }
}

/// Position and score of each application that may be displayed and scores
/// above zero, in order.
pub open spec fn scored(apps: Seq<AppView>, query: Seq<char>) -> Seq<(int, int)>
    decreases apps.len(),
{
    if apps.len() == 0 {
        Seq::empty()
    } else {
        let before = scored(apps.drop_last(), query);
        let app = apps.last();
        if !app.no_display && score_of(app, query) > 0 {
            before.push((apps.len() - 1, score_of(app, query)))
        } else {
            before
        }
    }
}

/// Positions of the applications that a search returns, in the order of the
/// results. An empty query gives the first twenty that may be displayed. Any
/// other query is put in lowercase and gives the ten best scores, highest
/// first, equal scores in the order of the index.
pub open spec fn searched(apps: Seq<AppView>, query: Seq<char>) -> Seq<int> {
    if query.len() == 0 {
        truncated(visible_positions(apps), BROWSE_LIMIT as int)
    } else {
        truncated(
            stable_sorted(scored(apps, lowercase_of(query)), by_score()),
            SEARCH_LIMIT as int,
        ).map_values(|p: (int, int)| p.0)
    }
}

/// Position of the first application with the given identifier, or the
/// length if none has it.
pub open spec fn position_of_id(apps: Seq<AppView>, id: Seq<char>) -> int
    decreases apps.len(),
{
    if apps.len() == 0 {
        0
    } else if apps[0].id == id {
        0
    } else {
        1 + position_of_id(apps.drop_first(), id)
    }
}

/// A position is `position_of_id` if the identifier stands there and
/// nowhere before.
pub proof fn lemma_position_of_id_is(apps: Seq<AppView>, id: Seq<char>, p: int)
    requires
        0 <= p <= apps.len(),
        forall|j: int| 0 <= j < p ==> (#[trigger] apps[j]).id != id,
        p < apps.len() ==> apps[p].id == id,
    ensures
        position_of_id(apps, id) == p,
    decreases apps.len(),
{
    if apps.len() > 0 && p > 0 {
        let rest = apps.drop_first();
        assert(apps[0].id != id);
        assert forall|j: int| 0 <= j < p - 1 implies (#[trigger] rest[j]).id != id by {
            assert(rest[j] == apps[j + 1]);
        }
        lemma_position_of_id_is(rest, id, p - 1);
    }
}

/// The views of position and score pairs.
pub open spec fn pair_views(pairs: Seq<(usize, i32)>) -> Seq<(int, int)> {
    pairs.map_values(|p: (usize, i32)| (p.0 as int, p.1 as int))
}

/// The index of applications, sorted by name.
pub struct AppIndexer {
    apps: Vec<Application>,
}

impl View for AppIndexer {
    type V = Seq<AppView>;

    closed spec fn view(&self) -> Seq<AppView> {
        app_views(self.apps@)
    }
}

/// What a launch by identifier owes: the command line of the first
/// application with that identifier, or the reason why there is none.
pub open spec fn launch_by_id(apps: Seq<AppView>, id: Seq<char>) -> Result<
    InvocationView,
    Seq<char>,
> {
    let p = position_of_id(apps, id);
    if p < apps.len() {
        launch_plan(apps[p].command)
    } else {
        Err("App not found: "@ + id)
    }
}

impl AppIndexer {
    /// Builds the index from the applications that a scan found: they are
    /// sorted by name in lowercase, equal names in the order found.
    pub fn new(found: Vec<Application>) -> (indexer: Self)
        ensures
            indexer@ == stable_sorted(app_views(found@), by_name()),
            in_order(indexer@, by_name()),
            indexer@.to_multiset() == app_views(found@).to_multiset(),
    {
        proof {
            lemma_index_is_sorted(app_views(found@));
        }
        let mut apps: Vec<Application> = Vec::new();
        let mut keys: Vec<String> = Vec::new();
        let mut i: usize = 0;
        while i < found.len()
            invariant
                i <= found.len(),
                keys@.len() == apps@.len(),
                forall|k: int|
                    0 <= k < apps@.len() ==> (#[trigger] keys@[k])@ == lowercase_of(
                        apps@[k].name@,
                    ),
                app_views(apps@) == stable_sorted(
                    app_views(found@.subrange(0, i as int)),
                    by_name(),
                ),
            decreases found.len() - i,
        {
            let app = found[i].clone();
            let key = to_lowercase(app.name.as_str());
            let mut j: usize = 0;
            while j < apps.len() && text_at_most(keys[j].as_str(), key.as_str())
                invariant
                    j <= apps@.len(),
                    keys@.len() == apps@.len(),
                    key@ == lowercase_of(app.name@),
                    forall|k: int|
                        0 <= k < apps@.len() ==> (#[trigger] keys@[k])@ == lowercase_of(
                            apps@[k].name@,
                        ),
                    forall|k: int| 0 <= k < j ==> by_name()(#[trigger] app_views(apps@)[k], app@),
                decreases apps@.len() - j,
            {
                j += 1;
            }
            proof {
                let sorted = app_views(apps@);
                if j < apps@.len() {
                    assert(sorted[j as int] == apps@[j as int]@);
                    assert(!by_name()(sorted[j as int], app@));
                }
                lemma_slot_is(sorted, app@, by_name(), j as int);
                let prefix = app_views(found@.subrange(0, i + 1));
                assert(prefix.drop_last() =~= app_views(found@.subrange(0, i as int)));
                assert(prefix.last() == app@);
                assert(app_views(apps@.insert(j as int, app)) =~= sorted.insert(j as int, app@));
            }
            apps.insert(j, app);
            keys.insert(j, key);
            i += 1;
        }
        assert(found@.subrange(0, found@.len() as int) =~= found@);
        AppIndexer { apps }
    }

    /// All applications, in the order of the index.
    pub fn all(&self) -> (apps: &[Application])
        ensures
            app_views(apps@) == self@,
    {
        self.apps.as_slice()
    }

    /// Scores one application against a query in lowercase.
    pub fn calculate_score(&self, app: &Application, query: &str) -> (score: i32)
        ensures
            score == score_of(app@, query@),
    {
        score_application(app, query)
    }

    /// Searches the index.
    pub fn search(&self, query: &str) -> (found: Vec<&Application>)
        ensures
            found@.len() == searched(self@, query@).len(),
            forall|k: int|
                0 <= k < found@.len() ==> 0 <= #[trigger] searched(self@, query@)[k] < self@.len()
                    && found@[k]@ == self@[searched(self@, query@)[k]],
    {
        let order = if query.is_empty() {
            self.browse_order()
        } else {
            let query_lower = to_lowercase(query);
            self.rank_order(query_lower.as_str())
        };
        let mut found: Vec<&Application> = Vec::new();
        let mut k: usize = 0;
        while k < order.len()
            invariant
                k <= order.len(),
                found@.len() == k,
                forall|m: int| 0 <= m < order@.len() ==> (#[trigger] order@[m]) < self.apps@.len(),
                forall|m: int| 0 <= m < k ==> (#[trigger] found@[m])@ == self.apps@[order@[m] as int]@,
            decreases order.len() - k,
        {
            found.push(&self.apps[order[k]]);
            k += 1;
        }
        assert forall|m: int| 0 <= m < found@.len() implies 0 <= #[trigger] searched(
            self@,
            query@,
        )[m] < self@.len() && found@[m]@ == self@[searched(self@, query@)[m]] by {
            assert(searched(self@, query@)[m] == order@[m] as int);
        }
        found
    }

    fn browse_order(&self) -> (order: Vec<usize>)
        ensures
            order@.map_values(|p: usize| p as int) == truncated(
                visible_positions(self@),
                BROWSE_LIMIT as int,
            ),
            forall|m: int| 0 <= m < order@.len() ==> (#[trigger] order@[m]) < self.apps@.len(),
    {
        let mut order: Vec<usize> = Vec::new();
        let mut i: usize = 0;
        while i < self.apps.len()
            invariant
                i <= self.apps.len(),
                order@.map_values(|p: usize| p as int) == truncated(
                    visible_positions(app_views(self.apps@.subrange(0, i as int))),
                    BROWSE_LIMIT as int,
                ),
                forall|m: int| 0 <= m < order@.len() ==> (#[trigger] order@[m]) < i,
            decreases self.apps.len() - i,
        {
            let ghost before = visible_positions(app_views(self.apps@.subrange(0, i as int)));
            proof {
                let prefix = app_views(self.apps@.subrange(0, i + 1));
                assert(prefix.drop_last() =~= app_views(self.apps@.subrange(0, i as int)));
                assert(prefix.last() == self.apps@[i as int]@);
            }
            let ghost shown = order@.map_values(|p: usize| p as int);
            assert(shown.len() == order@.len());
            if !self.apps[i].no_display && order.len() < BROWSE_LIMIT {
                order.push(i);
                assert(order@.map_values(|p: usize| p as int) =~= shown.push(i as int));
                assert(shown.push(i as int) =~= truncated(
                    before.push(i as int),
                    BROWSE_LIMIT as int,
                ));
            } else if !self.apps[i].no_display {
                assert(truncated(before.push(i as int), BROWSE_LIMIT as int) =~= truncated(
                    before,
                    BROWSE_LIMIT as int,
                ));
            }
            i += 1;
        }
        assert(self.apps@.subrange(0, self.apps@.len() as int) =~= self.apps@);
        order
    }

    fn rank_order(&self, query: &str) -> (order: Vec<usize>)
        ensures
            order@.map_values(|p: usize| p as int) == truncated(
                stable_sorted(scored(self@, query@), by_score()),
                SEARCH_LIMIT as int,
            ).map_values(|p: (int, int)| p.0),
            forall|m: int| 0 <= m < order@.len() ==> (#[trigger] order@[m]) < self.apps@.len(),
    {
        let mut ranked: Vec<(usize, i32)> = Vec::new();
        let mut i: usize = 0;
        while i < self.apps.len()
            invariant
                i <= self.apps.len(),
                pair_views(ranked@) == stable_sorted(
                    scored(app_views(self.apps@.subrange(0, i as int)), query@),
                    by_score(),
                ),
                forall|m: int| 0 <= m < ranked@.len() ==> (#[trigger] ranked@[m]).0 < i,
            decreases self.apps.len() - i,
        {
            proof {
                let prefix = app_views(self.apps@.subrange(0, i + 1));
                assert(prefix.drop_last() =~= app_views(self.apps@.subrange(0, i as int)));
                assert(prefix.last() == self.apps@[i as int]@);
            }
            let score = score_application(&self.apps[i], query);
            if !self.apps[i].no_display && score > 0 {
                let mut j: usize = 0;
                while j < ranked.len() && ranked[j].1 >= score
                    invariant
                        j <= ranked@.len(),
                        forall|k: int|
                            0 <= k < j ==> by_score()(
                                #[trigger] pair_views(ranked@)[k],
                                (i as int, score as int),
                            ),
                    decreases ranked@.len() - j,
                {
                    j += 1;
                }
                proof {
                    let sorted = pair_views(ranked@);
                    let x = (i as int, score as int);
                    if j < ranked@.len() {
                        assert(sorted[j as int] == (
                            ranked@[j as int].0 as int,
                            ranked@[j as int].1 as int,
                        ));
                    }
                    lemma_slot_is(sorted, x, by_score(), j as int);
                    assert(pair_views(ranked@.insert(j as int, (i, score))) =~= sorted.insert(
                        j as int,
                        x,
                    ));
                    let earlier = scored(app_views(self.apps@.subrange(0, i as int)), query@);
                    assert(earlier.push(x).drop_last() =~= earlier);
                    assert(earlier.push(x).last() == x);
                }
                ranked.insert(j, (i, score));
            }
            i += 1;
        }
        assert(self.apps@.subrange(0, self.apps@.len() as int) =~= self.apps@);
        let ghost full = pair_views(ranked@);
        ranked.truncate(SEARCH_LIMIT);
        assert(pair_views(ranked@) =~= truncated(full, SEARCH_LIMIT as int));
        let mut order: Vec<usize> = Vec::new();
        let mut k: usize = 0;
        while k < ranked.len()
            invariant
                k <= ranked.len(),
                order@.len() == k,
                forall|m: int| 0 <= m < k ==> (#[trigger] order@[m]) == ranked@[m].0,
                forall|m: int| 0 <= m < ranked@.len() ==> (#[trigger] ranked@[m]).0 < self.apps@.len(),
            decreases ranked.len() - k,
        {
            order.push(ranked[k].0);
            k += 1;
        }
        assert(order@.map_values(|p: usize| p as int) =~= pair_views(ranked@).map_values(
            |p: (int, int)| p.0,
        ));
        order
    }

    /// The command line that launches the application with the given
    /// identifier.
    pub fn launch_command(&self, id: &str) -> (plan: Result<ToolInvocation, String>)
        ensures
            plan_view(plan) == launch_by_id(self@, id@),
    {
        let mut i: usize = 0;
        while i < self.apps.len()
            invariant
                i <= self.apps.len(),
                forall|j: int| 0 <= j < i ==> (#[trigger] self@[j]).id != id@,
            decreases self.apps.len() - i,
        {
            if crate::text::text_eq(self.apps[i].id.as_str(), id) {
                proof {
                    assert(self@[i as int] == self.apps@[i as int]@);
                    lemma_position_of_id_is(self@, id@, i as int);
                }
                return self.apps[i].launch_command();
            }
            assert(self@[i as int] == self.apps@[i as int]@);
            i += 1;
        }
        proof {
            lemma_position_of_id_is(self@, id@, self@.len() as int);
        }
        Err(String::from_str("App not found: ").concat(id))
    }
}

} // verus!
