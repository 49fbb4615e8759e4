//! The tabs of a browser, and which of them is in front.

use crate::chrome::metrics::at_most;
use crate::errors::{err_view, ErrorKind, WinkitError};
use crate::models::TargetInfo;
use crate::text::{concat3, contains, lowercase, occurs, opt_view, same, to_lowercase, views};
use vstd::prelude::*;
use vstd::string::*;

verus! {

/// How many tabs are asked at most whether they have the focus.
pub const ACTIVE_TAB_PROBE_LIMIT: usize = 20;

/// One tab.
#[derive(Debug)]
pub struct TabInfo {
    pub id: String,
    pub title: String,
    pub url: String,
    pub active: bool,
    pub window_id: Option<u64>,
    pub process_id: Option<u32>,
    pub process_mapping: String,
    pub kind: String,
}

/// A tab taken by its views.
#[verifier::ext_equal]
pub struct TabView {
    pub id: Seq<char>,
    pub title: Seq<char>,
    pub url: Seq<char>,
    pub active: bool,
    pub window_id: Option<u64>,
    pub process_id: Option<u32>,
    pub process_mapping: Seq<char>,
    pub kind: Seq<char>,
}

impl View for TabInfo {
    type V = TabView;

    open spec fn view(&self) -> TabView {
        TabView {
            id: self.id@,
            title: self.title@,
            url: self.url@,
            active: self.active,
            window_id: self.window_id,
            process_id: self.process_id,
            process_mapping: self.process_mapping@,
            kind: self.kind@,
        }
    }
}

/// Tabs taken by their views.
pub open spec fn tab_views(v: Seq<TabInfo>) -> Seq<TabView> {
    v.map_values(|t: TabInfo| t@)
}

/// The tab of a target, before anything is known of its window.
pub open spec fn tab_of(t: TargetInfo) -> TabView {
    TabView {
        id: t.id@,
        title: t.title@,
        url: t.url@,
        active: false,
        window_id: None,
        process_id: None,
        process_mapping: "none"@,
        kind: t.kind@,
    }
}

/// The tabs of the page targets, in order.
pub open spec fn tabs_of(targets: Seq<TargetInfo>) -> Seq<TabView>
    decreases targets.len(),
{
    if targets.len() == 0 {
        Seq::empty()
    } else {
        let before = tabs_of(targets.drop_last());
        if targets.last().kind@ == "page"@ {
            before.push(tab_of(targets.last()))
        } else {
            before
        }
    }
}

/// The tabs of the page targets, in order.
pub fn page_tabs(targets: &Vec<TargetInfo>) -> (r: Vec<TabInfo>)
    ensures
        tab_views(r@) == tabs_of(targets@),
{
    let mut out: Vec<TabInfo> = Vec::new();
    let mut i: usize = 0;
    assert(tab_views(out@) =~= Seq::<TabView>::empty());
    while i < targets.len()
        invariant
            i <= targets@.len(),
            tab_views(out@) == tabs_of(targets@.take(i as int)),
        decreases targets@.len() - i,
    {
        assert(targets@.take(i + 1).drop_last() == targets@.take(i as int));
        let ghost before = tab_views(out@);
        let t = &targets[i];
        if same(&t.kind, "page") {
            let tab = TabInfo {
                id: t.id.clone(),
                title: t.title.clone(),
                url: t.url.clone(),
                active: false,
                window_id: None,
                process_id: None,
                process_mapping: "none".to_owned(),
                kind: t.kind.clone(),
            };
            out.push(tab);
            assert(tab_views(out@) =~= before.push(tab@));
        }
        i = i + 1;
    }
    assert(targets@.take(targets@.len() as int) == targets@);
    out
}

/// The ids of the tabs that have a title and whose title, given in lower case,
/// is part of the whole.
pub open spec fn ids_within(whole: Seq<char>, lowered: Seq<Seq<char>>, tabs: Seq<TabView>) -> Seq<
    Seq<char>,
>
    decreases tabs.len(),
{
    if tabs.len() == 0 {
        Seq::empty()
    } else {
        let before = ids_within(whole, lowered.drop_last(), tabs.drop_last());
        if tabs.last().title.len() > 0 && occurs(whole, lowered.last()) {
            before.push(tabs.last().id)
        } else {
            before
        }
    }
}

/// The titles of the tabs in lower case.
pub open spec fn lowered_titles(tabs: Seq<TabView>) -> Seq<Seq<char>> {
    tabs.map_values(|t: TabView| lowercase(t.title))
}

/// The ids of the tabs that the window title names: those whose titles are part
/// of it, whatever the case of the letters.
pub open spec fn named_ids(window_title: Seq<char>, tabs: Seq<TabView>) -> Seq<Seq<char>> {
    ids_within(lowercase(window_title), lowered_titles(tabs), tabs)
}

/// The only one of several ids; none where there is not exactly one.
pub open spec fn sole_id(ids: Seq<Seq<char>>) -> Option<Seq<char>> {
    if ids.len() == 1 {
        Some(ids[0])
    } else {
        None
    }
}

/// The only one of several ids; none where there is not exactly one.
pub fn sole(ids: &Vec<String>) -> (r: Option<String>)
    ensures
        opt_view(r) == sole_id(views(ids@)),
{
    if ids.len() == 1 {
        assert(views(ids@)[0] == ids@[0]@);
        Some(ids[0].clone())
    } else {
        None
    }
}

/// The ids of the tabs that have a title and whose title, given in lower case,
/// is part of the whole.
pub fn ids_in_title(whole: &str, lowered: &Vec<String>, tabs: &Vec<TabInfo>) -> (r: Vec<String>)
    requires
        lowered@.len() == tabs@.len(),
    ensures
        views(r@) == ids_within(whole@, views(lowered@), tab_views(tabs@)),
{
    let ghost all = tab_views(tabs@);
    let ghost titles = views(lowered@);
    let mut out: Vec<String> = Vec::new();
    let mut i: usize = 0;
    assert(views(out@) =~= Seq::<Seq<char>>::empty());
    while i < tabs.len()
        invariant
            all == tab_views(tabs@),
            titles == views(lowered@),
            lowered@.len() == tabs@.len(),
            i <= tabs@.len(),
            views(out@) == ids_within(whole@, titles.take(i as int), all.take(i as int)),
        decreases tabs@.len() - i,
    {
        assert(all.take(i + 1).drop_last() == all.take(i as int));
        assert(titles.take(i + 1).drop_last() == titles.take(i as int));
        assert(all[i as int] == tabs@[i as int]@);
        assert(titles[i as int] == lowered@[i as int]@);
        let ghost before = views(out@);
        if !tabs[i].title.as_str().is_empty() && contains(whole, &lowered[i]) {
            let id = tabs[i].id.clone();
            out.push(id);
            assert(views(out@) =~= before.push(id@));
        }
        i = i + 1;
    }
    assert(all.take(all.len() as int) == all);
    assert(titles.take(titles.len() as int) == titles);
    out
}

/// The ids of the tabs that the window title names.
fn ids_named(window_title: &str, tabs: &Vec<TabInfo>) -> (r: Vec<String>)
    ensures
        views(r@) == named_ids(window_title@, tab_views(tabs@)),
{
    let mut lowered: Vec<String> = Vec::new();
    let mut i: usize = 0;
    while i < tabs.len()
        invariant
            i <= tabs@.len(),
            lowered@.len() == i,
            forall|k: int| 0 <= k < i ==> (#[trigger] lowered@[k])@ == lowercase(tabs@[k].title@),
        decreases tabs@.len() - i,
    {
        lowered.push(to_lowercase(&tabs[i].title));
        i = i + 1;
    }
    assert(views(lowered@) =~= lowered_titles(tab_views(tabs@)));
    ids_in_title(&to_lowercase(window_title), &lowered, tabs)
}

/// The tabs with the mapping of the tab `id` set to how it was found.
pub open spec fn mapped_by_title(tabs: Seq<TabView>, id: Seq<char>) -> Seq<TabView> {
    tabs.map_values(|t: TabView|
        if t.id == id {
            TabView { process_mapping: "foreground_window_title_correlation"@, ..t }
        } else {
            t
        })
}

/// Finds the active tab by the title of the window in front: the one tab that
/// the title names. Where it names none or several, nothing is guessed.
pub fn detect_by_title(tabs: Vec<TabInfo>, window_title: &str) -> (r: (
    Vec<TabInfo>,
    Option<String>,
))
    ensures
        opt_view(r.1) == sole_id(named_ids(window_title@, tab_views(tabs@))),
        tab_views(r.0@) == (match sole_id(named_ids(window_title@, tab_views(tabs@))) {
            Some(id) => mapped_by_title(tab_views(tabs@), id),
            None => tab_views(tabs@),
        }),
{
    let found = sole(&ids_named(window_title, &tabs));
    match found {
        Some(id) => {
            let ghost all = tab_views(tabs@);
            let ghost raw = tabs@;
            let mut out: Vec<TabInfo> = Vec::new();
            for t in it: tabs
                invariant
                    it.seq() == raw,
                    all == tab_views(raw),
                    out@.len() == it.index(),
                    forall|k: int|
                        0 <= k < out@.len() ==> (#[trigger] out@[k])@ == mapped_by_title(
                            all,
                            id@,
                        )[k],
            {
                assert(all[it.index()] == t@);
                let mut tab = t;
                if same(&tab.id, &id) {
                    tab.process_mapping = "foreground_window_title_correlation".to_owned();
                }
                out.push(tab);
            }
            assert(tab_views(out@) =~= mapped_by_title(all, id@));
            (out, Some(id))
        },
        None => (tabs, None),
    }
}

/// The ids of the tabs that are asked whether they have the focus.
pub fn probe_ids(tabs: &Vec<TabInfo>) -> (r: Vec<String>)
    ensures
        views(r@) == at_most(tab_views(tabs@), ACTIVE_TAB_PROBE_LIMIT as int).map_values(
            |t: TabView| t.id,
        ),
{
    let ghost all = tab_views(tabs@);
    let mut out: Vec<String> = Vec::new();
    let mut i: usize = 0;
    while i < tabs.len() && i < ACTIVE_TAB_PROBE_LIMIT
        invariant
            all == tab_views(tabs@),
            i <= tabs@.len(),
            i <= ACTIVE_TAB_PROBE_LIMIT,
            out@.len() == i,
            forall|k: int| 0 <= k < i ==> (#[trigger] out@[k])@ == all[k].id,
        decreases tabs@.len() - i,
    {
        out.push(tabs[i].id.clone());
        i = i + 1;
    }
    assert(views(out@) =~= at_most(all, ACTIVE_TAB_PROBE_LIMIT as int).map_values(
        |t: TabView| t.id,
    ));
    out
}

/// The tabs with the active one marked.
pub open spec fn with_active(tabs: Seq<TabView>, id: Option<Seq<char>>) -> Seq<TabView> {
    tabs.map_values(|t: TabView|
        if id == Some(t.id) {
            TabView { active: true, ..t }
        } else {
            t
        })
}

/// The tabs with the active one marked, at most `max_tabs` of them.
pub fn finish_tabs(tabs: Vec<TabInfo>, active: &Option<String>, max_tabs: usize) -> (r: Vec<
    TabInfo,
>)
    ensures
        tab_views(r@) == at_most(
            with_active(tab_views(tabs@), opt_view(*active)),
            max_tabs as int,
        ),
{
    let ghost all = tab_views(tabs@);
    let ghost raw = tabs@;
    let ghost marked = with_active(all, opt_view(*active));
    let mut out: Vec<TabInfo> = Vec::new();
    for t in it: tabs
        invariant
            it.seq() == raw,
            all == tab_views(raw),
            marked == with_active(all, opt_view(*active)),
            out@.len() == (if it.index() < max_tabs {
                it.index()
            } else {
                max_tabs as int
            }),
            forall|k: int| 0 <= k < out@.len() ==> (#[trigger] out@[k])@ == marked[k],
    {
        assert(all[it.index()] == t@);
        if out.len() < max_tabs {
            let mut tab = t;
            match active {
                Some(id) => {
                    if same(&tab.id, id) {
                        tab.active = true;
                    }
                },
                None => {},
            }
            assert(tab@ == marked[it.index()]);
            out.push(tab);
        }
    }
    assert(tab_views(out@) =~= at_most(marked, max_tabs as int));
    out
}

/// Does `tab` go by this id or this address?
pub open spec fn tab_goes_by(tab: TabView, name: Seq<char>) -> bool {
    tab.id == name || tab.url == name
}

/// The place of the first tab with this id or address.
pub fn find_tab(tabs: &Vec<TabInfo>, name: &str) -> (r: Result<usize, WinkitError>)
    ensures
        match r {
            Ok(i) => i < tabs@.len() && tab_goes_by(tabs@[i as int]@, name@) && (forall|k: int|
                0 <= k < i ==> !tab_goes_by((#[trigger] tabs@[k])@, name@)),
            Err(e) => (forall|k: int|
                0 <= k < tabs@.len() ==> !tab_goes_by((#[trigger] tabs@[k])@, name@)) && e@
                == err_view(
                ErrorKind::InvalidArgument,
                "no tab with id or URL '"@ + name@ + "' (use chrome_list_tabs to see tabs)"@,
            ),
        },
{
    let mut i: usize = 0;
    while i < tabs.len()
        invariant
            i <= tabs@.len(),
            forall|k: int| 0 <= k < i ==> !tab_goes_by((#[trigger] tabs@[k])@, name@),
        decreases tabs@.len() - i,
    {
        if same(&tabs[i].id, name) || same(&tabs[i].url, name) {
            return Ok(i);
        }
        i = i + 1;
    }
    Err(
        WinkitError::invalid_argument(
            &concat3(
                "no tab with id or URL '",
                name,
                "' (use chrome_list_tabs to see tabs)",
            ),
        ),
    )
}

/// The place of the active tab, or why it is not known.
pub fn find_active_tab(tabs: &Vec<TabInfo>, active: &Option<String>) -> (r: Result<
    usize,
    WinkitError,
>)
    ensures
        match (active, r) {
            (None, Err(e)) => e@ == err_view(
                ErrorKind::ApplicationUnavailable,
                "cannot reliably determine the active tab (window-title correlation and focus evaluation both failed)"@,
            ),
            (None, Ok(_)) => false,
            (Some(id), Ok(i)) => i < tabs@.len() && tabs@[i as int].id@ == id@ && (forall|k: int|
                0 <= k < i ==> (#[trigger] tabs@[k]).id@ != id@),
            (Some(id), Err(e)) => (forall|k: int|
                0 <= k < tabs@.len() ==> (#[trigger] tabs@[k]).id@ != id@) && e@ == err_view(
                ErrorKind::InternalError,
                "active tab disappeared between calls"@,
            ),
        },
{
    match active {
        None => Err(
            WinkitError::application_unavailable(
                "cannot reliably determine the active tab (window-title correlation and focus evaluation both failed)",
            ),
        ),
        Some(id) => {
            let mut i: usize = 0;
            while i < tabs.len()
                invariant
                    *active == Some(*id),
                    i <= tabs@.len(),
                    forall|k: int| 0 <= k < i ==> (#[trigger] tabs@[k]).id@ != id@,
                decreases tabs@.len() - i,
            {
                if same(&tabs[i].id, id) {
                    return Ok(i);
                }
                i = i + 1;
            }
            Err(WinkitError::internal("active tab disappeared between calls"))
        },
    }
}

proof fn lemma_tabs_are_pages(targets: Seq<TargetInfo>, i: int)
    requires
        0 <= i < tabs_of(targets).len(),
    ensures
        tabs_of(targets)[i].kind == "page"@,
        !tabs_of(targets)[i].active,
    decreases targets.len(),
{
    if targets.len() > 0 {
        let rest = targets.drop_last();
        if i < tabs_of(rest).len() {
            lemma_tabs_are_pages(rest, i);
        }
    }
}

/// Only pages are tabs, and at most the tab that was found is active.
pub proof fn law_tabs_are_pages(
    targets: Seq<TargetInfo>,
    active: Option<Seq<char>>,
    max_tabs: usize,
    i: int,
)
    requires
        0 <= i < at_most(with_active(tabs_of(targets), active), max_tabs as int).len(),
    ensures
        at_most(with_active(tabs_of(targets), active), max_tabs as int).len() <= max_tabs,
        at_most(with_active(tabs_of(targets), active), max_tabs as int)[i].kind == "page"@,
        at_most(with_active(tabs_of(targets), active), max_tabs as int)[i].active ==> active
            == Some(at_most(with_active(tabs_of(targets), active), max_tabs as int)[i].id),
{
    lemma_tabs_are_pages(targets, i);
}

/// The tabs are the pages among the targets, all of them, in order, under their own
/// ids, titles and addresses; none is active yet.
pub proof fn law_every_page_is_a_tab(targets: Vec<TargetInfo>, r: Vec<TabInfo>)
    requires
        call_ensures(page_tabs, (&targets,), r),
    ensures
        r@.len() == targets@.filter(|t: TargetInfo| t.kind@ == "page"@).len(),
        forall|i: int|
            0 <= i < r@.len() ==> {
                let t = targets@.filter(|t: TargetInfo| t.kind@ == "page"@)[i];
                &&& (#[trigger] r@[i]).id@ == t.id@
                &&& r@[i].title@ == t.title@
                &&& r@[i].url@ == t.url@
                &&& !r@[i].active
            },
{
    lemma_tabs_filtered(targets@);
    assert(tab_views(r@).len() == r@.len());
    assert forall|i: int| 0 <= i < r@.len() implies {
        let t = targets@.filter(|t: TargetInfo| t.kind@ == "page"@)[i];
        &&& (#[trigger] r@[i]).id@ == t.id@
        &&& r@[i].title@ == t.title@
        &&& r@[i].url@ == t.url@
        &&& !r@[i].active
    } by {
        assert(tab_views(r@)[i] == r@[i]@);
        assert(tabs_of(targets@)[i] == tab_views(r@)[i]);
    }
}

proof fn lemma_tabs_filtered(targets: Seq<TargetInfo>)
    ensures
        tabs_of(targets).len() == targets.filter(|t: TargetInfo| t.kind@ == "page"@).len(),
        forall|i: int|
            0 <= i < tabs_of(targets).len() ==> {
                let t = targets.filter(|t: TargetInfo| t.kind@ == "page"@)[i];
                let tab = #[trigger] tabs_of(targets)[i];
                tab.id == t.id@ && tab.title == t.title@ && tab.url == t.url@ && !tab.active
            },
    decreases targets.len(),
{
    reveal(Seq::filter);
    if targets.len() > 0 {
        let rest = targets.drop_last();
        lemma_tabs_filtered(rest);
        assert forall|i: int| 0 <= i < tabs_of(targets).len() implies {
            let t = targets.filter(|t: TargetInfo| t.kind@ == "page"@)[i];
            let tab = #[trigger] tabs_of(targets)[i];
            tab.id == t.id@ && tab.title == t.title@ && tab.url == t.url@ && !tab.active
        } by {
            if i < tabs_of(rest).len() {
                assert(tabs_of(targets)[i] == tabs_of(rest)[i]);
            }
        }
    }
}

/// The tab of the window in front is told only where its title names exactly one
/// tab that has a title; then it is that tab. The tabs stay as they are but for how
/// that one was found.
pub proof fn law_title_must_name_one_tab(
    tabs: Vec<TabInfo>,
    window_title: &str,
    r: (Vec<TabInfo>, Option<String>),
)
    requires
        call_ensures(detect_by_title, (tabs, window_title), r),
    ensures
        ({
            let named = tabs@.filter(
                |t: TabInfo|
                    t.title@.len() > 0 && occurs(lowercase(window_title@), lowercase(t.title@)),
            );
            &&& r.1 is Some <==> named.len() == 1
            &&& r.1 matches Some(id) ==> id@ == named[0].id@
        }),
        r.0@.len() == tabs@.len(),
        forall|i: int|
            0 <= i < tabs@.len() ==> {
                &&& (#[trigger] r.0@[i]).id@ == tabs@[i].id@
                &&& r.0@[i].title@ == tabs@[i].title@
                &&& r.0@[i].url@ == tabs@[i].url@
                &&& r.0@[i].active == tabs@[i].active
                &&& (r.1 is None || r.1->0@ != tabs@[i].id@) ==> r.0@[i].process_mapping@
                    == tabs@[i].process_mapping@
            },
{
    let all = tab_views(tabs@);
    lemma_named_filtered(lowercase(window_title@), tabs@);
    assert(tab_views(r.0@).len() == r.0@.len());
    assert(lowered_titles(all) =~= Seq::new(tabs@.len(), |i: int| lowercase(tabs@[i].title@)));
    assert forall|i: int| 0 <= i < tabs@.len() implies {
        &&& (#[trigger] r.0@[i]).id@ == tabs@[i].id@
        &&& r.0@[i].title@ == tabs@[i].title@
        &&& r.0@[i].url@ == tabs@[i].url@
        &&& r.0@[i].active == tabs@[i].active
        &&& (r.1 is None || r.1->0@ != tabs@[i].id@) ==> r.0@[i].process_mapping@
            == tabs@[i].process_mapping@
    } by {
        assert(tab_views(r.0@)[i] == r.0@[i]@);
        assert(all[i] == tabs@[i]@);
    }
}

proof fn lemma_named_filtered(whole: Seq<char>, tabs: Seq<TabInfo>)
    ensures
        ({
            let named = tabs.filter(
                |t: TabInfo| t.title@.len() > 0 && occurs(whole, lowercase(t.title@)),
            );
            let ids = ids_within(
                whole,
                Seq::new(tabs.len(), |i: int| lowercase(tabs[i].title@)),
                tab_views(tabs),
            );
            &&& ids.len() == named.len()
            &&& forall|i: int| 0 <= i < ids.len() ==> #[trigger] ids[i] == named[i].id@
        }),
    decreases tabs.len(),
{
    reveal(Seq::filter);
    if tabs.len() > 0 {
        let rest = tabs.drop_last();
        lemma_named_filtered(whole, rest);
        let low = Seq::new(tabs.len(), |i: int| lowercase(tabs[i].title@));
        assert(low.drop_last() =~= Seq::new(rest.len(), |i: int| lowercase(rest[i].title@)));
        assert(tab_views(tabs).drop_last() =~= tab_views(rest));
        assert(tab_views(tabs).last() == tabs.last()@);
    }
}

/// Listed tabs are the tabs, in order, as many as are allowed; the one that was found
/// to be active is marked, and no other.
pub proof fn law_active_tab_is_marked(
    tabs: Vec<TabInfo>,
    active: Option<String>,
    max_tabs: usize,
    r: Vec<TabInfo>,
)
    requires
        call_ensures(finish_tabs, (tabs, &active, max_tabs), r),
    ensures
        r@.len() <= max_tabs,
        r@.len() == tabs@.len() || r@.len() == max_tabs,
        r@.len() <= tabs@.len(),
        forall|i: int|
            0 <= i < r@.len() ==> {
                &&& (#[trigger] r@[i]).id@ == tabs@[i].id@
                &&& r@[i].title@ == tabs@[i].title@
                &&& r@[i].url@ == tabs@[i].url@
                &&& r@[i].active <==> tabs@[i].active || (active is Some && active->0@
                    == tabs@[i].id@)
            },
{
    let all = tab_views(tabs@);
    assert(tab_views(r@).len() == r@.len());
    assert forall|i: int| 0 <= i < r@.len() implies {
        &&& (#[trigger] r@[i]).id@ == tabs@[i].id@
        &&& r@[i].title@ == tabs@[i].title@
        &&& r@[i].url@ == tabs@[i].url@
        &&& r@[i].active <==> tabs@[i].active || (active is Some && active->0@ == tabs@[i].id@)
    } by {
        assert(tab_views(r@)[i] == r@[i]@);
        assert(all[i] == tabs@[i]@);
    }
}

/// A tab is found by its id or by its address, and is not found only where no tab
/// has either.
pub proof fn law_tabs_are_found_by_id_or_address(
    tabs: Vec<TabInfo>,
    name: &str,
    r: Result<usize, WinkitError>,
)
    requires
        call_ensures(find_tab, (&tabs, name), r),
    ensures
        r matches Ok(i) ==> i < tabs@.len() && (tabs@[i as int].id@ == name@
            || tabs@[i as int].url@ == name@),
        r is Err <==> forall|k: int|
            0 <= k < tabs@.len() ==> (#[trigger] tabs@[k]).id@ != name@ && tabs@[k].url@ != name@,
        r matches Err(e) ==> e.kind == ErrorKind::InvalidArgument,
{
    if r is Err {
        assert forall|k: int| 0 <= k < tabs@.len() implies (#[trigger] tabs@[k]).id@ != name@
            && tabs@[k].url@ != name@ by {
            assert(!tab_goes_by(tabs@[k]@, name@));
        }
    }
}

/// The first twenty tabs are asked for the focus, in their order.
pub proof fn law_first_tabs_are_probed(tabs: Vec<TabInfo>, r: Vec<String>)
    requires
        call_ensures(probe_ids, (&tabs,), r),
    ensures
        r@.len() == if tabs@.len() <= 20 {
            tabs@.len()
        } else {
            20
        },
        forall|i: int| 0 <= i < r@.len() ==> (#[trigger] r@[i])@ == tabs@[i].id@,
{
    let ids = at_most(tab_views(tabs@), ACTIVE_TAB_PROBE_LIMIT as int).map_values(
        |t: TabView| t.id,
    );
    assert(views(r@).len() == r@.len());
    assert forall|i: int| 0 <= i < r@.len() implies (#[trigger] r@[i])@ == tabs@[i].id@ by {
        assert(views(r@)[i] == r@[i]@);
        assert(ids[i] == tabs@[i].id@);
    }
}

/// The active tab is found by its id, the first of several; without an id it is not
/// known, and an id that no tab has any more is an error inside.
pub proof fn law_active_tab_is_found(
    tabs: Vec<TabInfo>,
    active: Option<String>,
    r: Result<usize, WinkitError>,
)
    requires
        call_ensures(find_active_tab, (&tabs, &active), r),
    ensures
        active is None ==> r is Err && r->Err_0.kind == ErrorKind::ApplicationUnavailable,
        r matches Ok(i) ==> active is Some && i < tabs@.len() && tabs@[i as int].id@ == active->0@,
        active is Some && r is Err ==> r->Err_0.kind == ErrorKind::InternalError && forall|k: int|
            0 <= k < tabs@.len() ==> (#[trigger] tabs@[k]).id@ != active->0@,
{
}

} // verus!
