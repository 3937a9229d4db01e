//! The report service's own state and decisions: the in-memory report
//! store, the scan query, and the webhook settings the service keeps.

use vstd::prelude::*;
use crate::report::ScanReport;
use crate::text::{
    chars_of, eq_text, lowercase, lowercase_of, opt_view, seqs_of, split_char, split_on,
    string_of, strs_of, trim, trim_chars,
};

verus! {

/// The reports held, keyed by report id, built from parallel lists of ids
/// and reports.
pub open spec fn map_of(ids: Seq<String>, reports: Seq<ScanReport>) -> Map<Seq<char>, ScanReport>
    decreases ids.len(),
{
    if ids.len() == 0 || reports.len() == 0 {
        Map::empty()
    } else {
        map_of(ids.drop_last(), reports.drop_last()).insert(ids.last()@, reports.last())
    }
}

/// No two ids are the same text.
pub open spec fn distinct_ids(ids: Seq<String>) -> bool {
    forall|i: int, j: int| 0 <= i < ids.len() && 0 <= j < ids.len() && i != j ==> #[trigger] ids[i]@ != #[trigger] ids[j]@
}

proof fn lemma_map_of_dom(ids: Seq<String>, reports: Seq<ScanReport>, k: Seq<char>)
    requires
        ids.len() == reports.len(),
    ensures
        map_of(ids, reports).contains_key(k) <==> exists|i: int| 0 <= i < ids.len() && #[trigger] ids[i]@ == k,
    decreases ids.len(),
{
    if ids.len() > 0 {
        lemma_map_of_dom(ids.drop_last(), reports.drop_last(), k);
        if exists|i: int| 0 <= i < ids.len() && #[trigger] ids[i]@ == k {
            let i = choose|i: int| 0 <= i < ids.len() && #[trigger] ids[i]@ == k;
            if i < ids.len() - 1 {
                assert(ids.drop_last()[i]@ == k);
            }
        }
        if exists|i: int| 0 <= i < ids.drop_last().len() && #[trigger] ids.drop_last()[i]@ == k {
            let i = choose|i: int| 0 <= i < ids.drop_last().len() && #[trigger] ids.drop_last()[i]@ == k;
            assert(ids[i]@ == k);
        }
    }
}

proof fn lemma_map_of_index(ids: Seq<String>, reports: Seq<ScanReport>, i: int)
    requires
        ids.len() == reports.len(),
        distinct_ids(ids),
        0 <= i < ids.len(),
    ensures
        map_of(ids, reports).contains_key(ids[i]@),
        map_of(ids, reports)[ids[i]@] == reports[i],
    decreases ids.len(),
{
    if i < ids.len() - 1 {
        assert(distinct_ids(ids.drop_last()));
        assert(ids.drop_last()[i] == ids[i]);
        lemma_map_of_index(ids.drop_last(), reports.drop_last(), i);
    }
}

proof fn lemma_map_of_update(ids: Seq<String>, reports: Seq<ScanReport>, i: int, r: ScanReport)
    requires
        ids.len() == reports.len(),
        distinct_ids(ids),
        0 <= i < ids.len(),
    ensures
        map_of(ids, reports.update(i, r)) == map_of(ids, reports).insert(ids[i]@, r),
    decreases ids.len(),
{
    let n = ids.len() - 1;
    if i == n {
        assert(reports.update(i, r).drop_last() == reports.drop_last());
        lemma_map_of_dom(ids.drop_last(), reports.drop_last(), ids[i]@);
        assert(!map_of(ids.drop_last(), reports.drop_last()).contains_key(ids[i]@)) by {
            if map_of(ids.drop_last(), reports.drop_last()).contains_key(ids[i]@) {
                let j = choose|j: int| 0 <= j < ids.drop_last().len() && #[trigger] ids.drop_last()[j]@ == ids[i]@;
                assert(ids[j]@ == ids[i]@);
            }
        }
        assert(map_of(ids, reports.update(i, r)) =~= map_of(ids, reports).insert(ids[i]@, r));
    } else {
        assert(distinct_ids(ids.drop_last()));
        assert(reports.update(i, r).drop_last() == reports.drop_last().update(i, r));
        lemma_map_of_update(ids.drop_last(), reports.drop_last(), i, r);
        assert(ids.drop_last()[i] == ids[i]);
        assert(ids[i]@ != ids.last()@);
        assert(map_of(ids, reports.update(i, r)) =~= map_of(ids, reports).insert(ids[i]@, r));
    }
}

/// The reports of the service, kept in memory and found by id; the most
/// recently stored id is remembered.
pub struct ReportStore {
    ids: Vec<String>,
    reports: Vec<ScanReport>,
    latest_id: Option<String>,
}

impl View for ReportStore {
    type V = Map<Seq<char>, ScanReport>;

    closed spec fn view(&self) -> Map<Seq<char>, ScanReport> {
        map_of(self.ids@, self.reports@)
    }
}

impl ReportStore {
    /// The store's own consistency: one report per id, ids distinct, and
    /// the latest id among them.
    #[verifier::type_invariant]
    spec fn well_formed(self) -> bool {
        &&& self.ids@.len() == self.reports@.len()
        &&& distinct_ids(self.ids@)
        &&& (self.latest_id matches Some(l) ==> exists|i: int|
            0 <= i < self.ids@.len() && #[trigger] self.ids@[i]@ == l@)
    }

    /// The id stored last, if any.
    pub closed spec fn latest_key(&self) -> Option<Seq<char>> {
        opt_view(self.latest_id)
    }

    /// Every store keeps its latest id among its keys.
    proof fn lemma_latest_stored(&self)
        requires
            self.well_formed(),
        ensures
            self.latest_key() matches Some(k) ==> self@.contains_key(k),
    {
        if let Some(l) = self.latest_id {
            lemma_map_of_dom(self.ids@, self.reports@, l@);
        }
    }

    /// An empty store.
    pub fn new() -> (r: ReportStore)
        ensures
            r@ == Map::<Seq<char>, ScanReport>::empty(),
            r.latest_key() is None,
    {
        let r = ReportStore { ids: Vec::new(), reports: Vec::new(), latest_id: None };
        assert(r@ =~= Map::<Seq<char>, ScanReport>::empty());
        r
    }

    fn position(&self, id: &str) -> (r: Option<usize>)
        requires
            self.well_formed(),
        ensures
            match r {
                Some(i) => i < self.ids@.len() && self.ids@[i as int]@ == id@,
                None => forall|j: int| 0 <= j < self.ids@.len() ==> #[trigger] self.ids@[j]@ != id@,
            },
    {
        let mut i: usize = 0;
        while i < self.ids.len()
            invariant
                i <= self.ids@.len(),
                forall|j: int| 0 <= j < i ==> #[trigger] self.ids@[j]@ != id@,
            decreases self.ids@.len() - i,
        {
            let c = chars_of(self.ids[i].as_str());
            if eq_text(c.as_slice(), id) {
                return Some(i);
            }
            i += 1;
        }
        None
    }

    /// Stores a report under an id, replacing any report stored under it,
    /// and makes the id the latest.
    pub fn store(&mut self, id: String, report: ScanReport)
        ensures
            final(self)@ == old(self)@.insert(id@, report),
            final(self).latest_key() == Some(id@),
    {
        proof {
            use_type_invariant(&*self);
        }
        let pos = self.position(id.as_str());
        let mut taken = ReportStore::new();
        std::mem::swap(self, &mut taken);
        proof {
            use_type_invariant(&taken);
        }
        let ReportStore { mut ids, mut reports, latest_id: _ } = taken;
        let ghost ids0 = ids@;
        let ghost reps0 = reports@;
        match pos {
            Some(i) => {
                proof {
                    lemma_map_of_update(ids0, reps0, i as int, report);
                }
                reports.set(i, report);
                proof {
                    assert(ids@[i as int]@ == id@);
                    assert(ids@.len() == reports@.len());
                    assert(distinct_ids(ids@));
                    assert(exists|j: int| 0 <= j < ids@.len() && #[trigger] ids@[j]@ == id@);
                }
                *self = ReportStore { ids, reports, latest_id: Some(id) };
            },
            None => {
                let key = id.clone();
                ids.push(id);
                reports.push(report);
                proof {
                    assert(ids@.drop_last() == ids0);
                    assert(reports@.drop_last() == reps0);
                    assert(distinct_ids(ids@)) by {
                        assert forall|a: int, b: int|
                            0 <= a < ids@.len() && 0 <= b < ids@.len() && a != b implies #[trigger] ids@[a]@
                            != #[trigger] ids@[b]@ by {
                            if a < ids0.len() && b < ids0.len() {
                                assert(ids@[a] == ids0[a]);
                                assert(ids@[b] == ids0[b]);
                            } else if a < ids0.len() {
                                assert(ids@[a] == ids0[a]);
                            } else {
                                assert(ids@[b] == ids0[b]);
                            }
                        }
                    }
                    let n = ids@.len() - 1;
                    assert(ids@[n]@ == key@);
                    assert(ids@.len() == reports@.len());
                    assert(exists|j: int| 0 <= j < ids@.len() && #[trigger] ids@[j]@ == key@);
                }
                *self = ReportStore { ids, reports, latest_id: Some(key) };
            },
        }
    }

    /// The report stored under `id`, if any.
    pub fn get(&self, id: &str) -> (r: Option<&ScanReport>)
        ensures
            match r {
                Some(x) => self@.contains_key(id@) && *x == self@[id@],
                None => !self@.contains_key(id@),
            },
    {
        proof {
            use_type_invariant(self);
            lemma_map_of_dom(self.ids@, self.reports@, id@);
        }
        match self.position(id) {
            Some(i) => {
                proof {
                    lemma_map_of_index(self.ids@, self.reports@, i as int);
                }
                Some(&self.reports[i])
            },
            None => None,
        }
    }

    /// The report stored last, if any.
    pub fn latest(&self) -> (r: Option<&ScanReport>)
        ensures
            match self.latest_key() {
                Some(k) => r == Some(&self@[k]) && self@.contains_key(k),
                None => r is None,
            },
    {
        proof {
            use_type_invariant(self);
            self.lemma_latest_stored();
        }
        match &self.latest_id {
            Some(id) => self.get(id.as_str()),
            None => None,
        }
    }

    /// The ids of the stored reports, each once, in no promised order.
    pub fn list_ids(&self) -> (r: Vec<String>)
        ensures
            r@.len() == self@.dom().len(),
            distinct_ids(r@),
            forall|k: Seq<char>| self@.contains_key(k) <==> exists|i: int| 0 <= i < r@.len() && #[trigger] r@[i]@ == k,
    {
        proof {
            use_type_invariant(self);
        }
        let r = self.ids.clone();
        proof {
            assert forall|k: Seq<char>| self@.contains_key(k) <==> exists|i: int| 0 <= i < r@.len() && #[trigger] r@[i]@ == k by {
                lemma_map_of_dom(self.ids@, self.reports@, k);
            }
            lemma_map_of_len(self.ids@, self.reports@);
        }
        r
    }

    /// Stores a report under a fresh random id and returns the id.
    pub fn record(&mut self, report: ScanReport) -> (id: String)
        ensures
            final(self)@ == old(self)@.insert(id@, report),
            final(self).latest_key() == Some(id@),
            id@.len() == 36,
    {
        let id = new_report_id();
        let key = id.clone();
        self.store(key, report);
        id
    }

    /// The answer to a request for the report under `id`: the report, or
    /// the message that it was not found.
    pub fn report_by_id(&self, id: &str) -> (r: Result<&ScanReport, String>)
        ensures
            match r {
                Ok(x) => self@.contains_key(id@) && *x == self@[id@],
                Err(msg) => !self@.contains_key(id@) && msg@ == "Report '"@ + id@ + "' not found"@,
            },
    {
        match self.get(id) {
            Some(x) => Ok(x),
            None => Err(String::from_str("Report '").concat(id).concat("' not found")),
        }
    }

    /// The answer to a request for the latest report: the report, or the
    /// message that there is none yet.
    pub fn latest_report(&self) -> (r: Result<&ScanReport, String>)
        ensures
            match r {
                Ok(x) => self.latest_key() matches Some(k) && *x == self@[k],
                Err(msg) => self.latest_key() is None && msg@ == "No reports yet. Run a scan first."@,
            },
    {
        match self.latest() {
            Some(x) => Ok(x),
            None => Err(String::from_str("No reports yet. Run a scan first.")),
        }
    }
}

/// The ids and reports of a list of stores, as plain values.
pub open spec fn stores_view(ops: Seq<(String, ScanReport)>) -> Seq<(Seq<char>, ScanReport)> {
    ops.map_values(|p: (String, ScanReport)| (p.0@, p.1))
}

impl ReportStore {
    /// A new store on which each store of `ops` was made, in order.
    pub fn from_stores(ops: Vec<(String, ScanReport)>) -> (r: ReportStore)
        ensures
            r@ == after_stores(stores_view(ops@)),
            r.latest_key() == (if ops@.len() == 0 {
                None::<Seq<char>>
            } else {
                Some(ops@.last().0@)
            }),
            forall|k: Seq<char>| #[trigger] r@.contains_key(k) <==> stored_under(stores_view(ops@), k),
            forall|j: int, k: Seq<char>| #[trigger] last_store_of(stores_view(ops@), j, k) ==> r@[k]
                == ops@[j].1,
    {
        let ghost all = stores_view(ops@);
        let mut rest = ops;
        let mut store = ReportStore::new();
        let ghost mut done: int = 0;
        assert(all.take(0) =~= Seq::<(Seq<char>, ScanReport)>::empty());
        while rest.len() > 0
            invariant
                0 <= done <= all.len(),
                rest@.len() == all.len() - done,
                stores_view(rest@) == all.skip(done),
                store@ == after_stores(all.take(done)),
                store.latest_key() == (if done == 0 {
                    None::<Seq<char>>
                } else {
                    Some(all[done - 1].0)
                }),
            decreases rest.len(),
        {
            let ghost rest_before = rest@;
            let (id, report) = rest.remove(0);
            assert((id@, report) == all[done]) by {
                assert(stores_view(rest_before)[0] == all.skip(done)[0]);
            }
            store.store(id, report);
            proof {
                assert(all.take(done + 1).drop_last() =~= all.take(done));
                assert forall|i: int| 0 <= i < rest@.len() implies #[trigger] stores_view(rest@)[i]
                    == all.skip(done + 1)[i] by {
                    assert(rest@[i] == rest_before[i + 1]);
                    assert(stores_view(rest_before)[i + 1] == all.skip(done)[i + 1]);
                }
                assert(stores_view(rest@) =~= all.skip(done + 1));
                done = done + 1;
            }
        }
        assert(all.take(done) =~= all);
        proof {
            assert forall|k: Seq<char>| #[trigger] store@.contains_key(k) <==> stored_under(all, k) by {
                law_get_after_stores(all, k, 0);
            }
            assert forall|j: int, k: Seq<char>| #[trigger] last_store_of(all, j, k) implies store@[k]
                == ops@[j].1 by {
                law_get_after_stores(all, k, j);
            }
        }
        store
    }
}

/// The last store of a sequence decides the latest report: after stores
/// `ops` on an empty store, the id of the last of them finds its report.
pub proof fn law_latest_after_stores(ops: Seq<(Seq<char>, ScanReport)>)
    requires
        ops.len() > 0,
    ensures
        after_stores(ops).contains_key(ops.last().0),
        after_stores(ops)[ops.last().0] == ops.last().1,
{
}

/// A read gives back the last write: once a report is stored under an id,
/// looking the id up finds that report, and every other id finds what it
/// found before.
pub proof fn law_get_after_store(
    before: Map<Seq<char>, ScanReport>,
    id: Seq<char>,
    report: ScanReport,
    other: Seq<char>,
)
    ensures
        before.insert(id, report).contains_key(id),
        before.insert(id, report)[id] == report,
        other != id ==> (before.insert(id, report).contains_key(other) <==> before.contains_key(
            other,
        )),
        other != id && before.contains_key(other) ==> before.insert(id, report)[other]
            == before[other],
{
}

/// The reports held after a sequence of stores, each an id and a report,
/// made on an empty store.
pub open spec fn after_stores(ops: Seq<(Seq<char>, ScanReport)>) -> Map<Seq<char>, ScanReport>
    decreases ops.len(),
{
    if ops.len() == 0 {
        Map::empty()
    } else {
        after_stores(ops.drop_last()).insert(ops.last().0, ops.last().1)
    }
}

/// A new store holds what no store has made, and each store extends the
/// sequence: a store's view after `new` and stores `ops` is
/// `after_stores(ops)`.
pub proof fn law_stores_compose(ops: Seq<(Seq<char>, ScanReport)>, id: Seq<char>, report: ScanReport)
    ensures
        after_stores(Seq::empty()) == Map::<Seq<char>, ScanReport>::empty(),
        after_stores(ops).insert(id, report) == after_stores(ops.push((id, report))),
{
    assert(ops.push((id, report)).drop_last() == ops);
}

/// Some store of the sequence used the id.
pub open spec fn stored_under(ops: Seq<(Seq<char>, ScanReport)>, k: Seq<char>) -> bool {
    exists|j: int| 0 <= j < ops.len() && #[trigger] ops[j].0 == k
}

/// The store at `j` is the last one of the sequence that used the id.
pub open spec fn last_store_of(ops: Seq<(Seq<char>, ScanReport)>, j: int, k: Seq<char>) -> bool {
    &&& 0 <= j < ops.len()
    &&& ops[j].0 == k
    &&& forall|m: int| j < m < ops.len() ==> #[trigger] ops[m].0 != k
}

proof fn lemma_stored_under(ops: Seq<(Seq<char>, ScanReport)>, k: Seq<char>)
    ensures
        after_stores(ops).contains_key(k) <==> stored_under(ops, k),
    decreases ops.len(),
{
    if ops.len() > 0 {
        let init = ops.drop_last();
        lemma_stored_under(init, k);
        if stored_under(ops, k) && ops.last().0 != k {
            let j = choose|j: int| 0 <= j < ops.len() && #[trigger] ops[j].0 == k;
            assert(init[j].0 == k);
        }
        if stored_under(init, k) {
            let j = choose|j: int| 0 <= j < init.len() && #[trigger] init[j].0 == k;
            assert(ops[j].0 == k);
        }
        if ops.last().0 == k {
            assert(ops[ops.len() - 1].0 == k);
        }
    }
}

proof fn lemma_last_store(ops: Seq<(Seq<char>, ScanReport)>, j: int, k: Seq<char>)
    requires
        last_store_of(ops, j, k),
    ensures
        after_stores(ops).contains_key(k),
        after_stores(ops)[k] == ops[j].1,
    decreases ops.len(),
{
    let n = ops.len() - 1;
    if j < n {
        let init = ops.drop_last();
        assert(ops[n].0 != k);
        assert forall|m: int| j < m < init.len() implies #[trigger] init[m].0 != k by {
            assert(init[m] == ops[m]);
        }
        lemma_last_store(init, j, k);
    }
}

/// After a sequence of stores on an empty store, an id finds a report
/// exactly when some store used it, and the report it finds is the one of
/// the last store that used it.
pub proof fn law_get_after_stores(ops: Seq<(Seq<char>, ScanReport)>, k: Seq<char>, j: int)
    ensures
        after_stores(ops).contains_key(k) <==> stored_under(ops, k),
        last_store_of(ops, j, k) ==> after_stores(ops)[k] == ops[j].1,
{
    lemma_stored_under(ops, k);
    if last_store_of(ops, j, k) {
        lemma_last_store(ops, j, k);
    }
}

/// After a sequence of stores on an empty store, the stored ids are exactly
/// the ids used, so `list_ids` lists each of them once.
pub proof fn law_ids_after_stores(ops: Seq<(Seq<char>, ScanReport)>)
    ensures
        after_stores(ops).dom() == Set::new(
            |k: Seq<char>| exists|j: int| 0 <= j < ops.len() && #[trigger] ops[j].0 == k,
        ),
{
    assert forall|k: Seq<char>| after_stores(ops).dom().contains(k) <==> exists|j: int|
        0 <= j < ops.len() && #[trigger] ops[j].0 == k by {
        lemma_stored_under(ops, k);
    }
    assert(after_stores(ops).dom() =~= Set::new(
        |k: Seq<char>| exists|j: int| 0 <= j < ops.len() && #[trigger] ops[j].0 == k,
    ));
}

proof fn lemma_map_of_len(ids: Seq<String>, reports: Seq<ScanReport>)
    requires
        ids.len() == reports.len(),
        distinct_ids(ids),
    ensures
        map_of(ids, reports).dom().finite(),
        map_of(ids, reports).dom().len() == ids.len(),
    decreases ids.len(),
{
    if ids.len() > 0 {
        assert(distinct_ids(ids.drop_last()));
        lemma_map_of_len(ids.drop_last(), reports.drop_last());
        lemma_map_of_dom(ids.drop_last(), reports.drop_last(), ids.last()@);
        assert(!map_of(ids.drop_last(), reports.drop_last()).contains_key(ids.last()@)) by {
            if map_of(ids.drop_last(), reports.drop_last()).contains_key(ids.last()@) {
                let j = choose|j: int| 0 <= j < ids.drop_last().len() && #[trigger] ids.drop_last()[j]@ == ids.last()@;
                assert(ids[j]@ == ids.last()@);
            }
        }
    }
}

/// The query of a scan request: an optional comma-separated list of
/// modules.
pub struct ScanQuery {
    pub modules: Option<String>,
}

/// The module filter a list names: each comma-separated entry, trimmed and
/// lowercased.
pub open spec fn module_list(m: Seq<char>) -> Seq<Seq<char>> {
    split_on(m, ',').map_values(|p: Seq<char>| lowercase_of(trim(p)))
}

impl ScanQuery {
    /// The modules the request selects; `None` runs them all.
    pub fn module_filter(&self) -> (r: Option<Vec<String>>)
        ensures
            match (r, self.modules) {
                (None, None) => true,
                (Some(v), Some(m)) => strs_of(v@) == module_list(m@),
                _ => false,
            },
    {
        match &self.modules {
            None => None,
            Some(m) => {
                let mc = chars_of(m.as_str());
                let parts = split_char(mc.as_slice(), ',');
                let ghost pv = seqs_of(parts@);
                let mut out: Vec<String> = Vec::new();
                let mut i: usize = 0;
                while i < parts.len()
                    invariant
                        i <= parts@.len(),
                        pv == seqs_of(parts@),
                        strs_of(out@) == pv.take(i as int).map_values(
                            |p: Seq<char>| lowercase_of(trim(p)),
                        ),
                    decreases parts@.len() - i,
                {
                    let t = trim_chars(parts[i].as_slice());
                    let ts = string_of(t.as_slice());
                    let l = lowercase(ts.as_str());
                    let ghost prev = out@;
                    out.push(l);
                    assert(pv[i as int] == parts@[i as int]@);
                    assert(strs_of(out@) =~= strs_of(prev).push(lowercase_of(trim(pv[i as int]))));
                    assert(pv.take(i + 1).map_values(|p: Seq<char>| lowercase_of(trim(p))) =~= pv.take(
                        i as int,
                    ).map_values(|p: Seq<char>| lowercase_of(trim(p))).push(
                        lowercase_of(trim(pv[i as int])),
                    ));
                    i += 1;
                }
                assert(pv.take(parts@.len() as int) == pv);
                Some(out)
            },
        }
    }
}

/// The modules a quick scan runs.
pub fn quick_scan_modules() -> (r: Vec<String>)
    ensures
        strs_of(r@) == seq!["port"@, "service"@],
{
    let r = vec![String::from_str("port"), String::from_str("service")];
    assert(strs_of(r@) =~= seq!["port"@, "service"@]);
    r
}

/// The webhook settings the service keeps: where to post, and the
/// severity threshold of what is posted.
#[derive(Clone, Debug)]
pub struct WebhookConfig {
    pub url: String,
    pub min_severity: String,
}

impl Default for WebhookConfig {
    /// No URL, the `high` threshold.
    fn default() -> (r: WebhookConfig)
        ensures
            r.url@ == Seq::<char>::empty(),
            r.min_severity@ == "high"@,
    {
        WebhookConfig { url: String::new(), min_severity: String::from_str("high") }
    }
}

impl WebhookConfig {
    /// The alert settings for a finished scan: none without a URL,
    /// otherwise this URL and threshold with JSON payloads.
    pub fn alert_config(&self) -> (r: Option<crate::webhook::WebhookConfig>)
        ensures
            self.url@.len() == 0 ==> r is None,
            self.url@.len() > 0 ==> (r matches Some(c) && c.url@ == self.url@ && c.min_severity@
                == self.min_severity@ && c.format@ == "json"@),
    {
        let uc = chars_of(self.url.as_str());
        if uc.len() == 0 {
            None
        } else {
            Some(
                crate::webhook::WebhookConfig {
                    url: self.url.clone(),
                    min_severity: self.min_severity.clone(),
                    format: String::from_str("json"),
                },
            )
        }
    }
}

/// Calls `uuid::Uuid::new_v4` and renders the id as `Display` writes it:
/// lowercase hexadecimal in groups of 8, 4, 4, 4 and 12 digits joined by
/// hyphens. The id is random; only its shape is stated.
#[verifier::external_body]
fn new_report_id() -> (r: String)
    ensures
        r@.len() == 36,
        r@[8] == '-' && r@[13] == '-' && r@[18] == '-' && r@[23] == '-',
{
    uuid::Uuid::new_v4().to_string()
}

} // verus!
