//! The audit modules. Each turns what the host reports into findings; the
//! probing itself (reading files, running commands, connecting to ports) is
//! left to the caller, who hands over what it read.

pub mod docker;
pub mod nginx;
pub mod port;
pub mod service;
pub mod ssh;
pub mod system;

use vstd::prelude::*;
use crate::report::{finding_views, Finding, FindingView};
use crate::text::{
    chars_of, contains, contains_chars, lowercase, lowercase_of, split_words, strs_of, words,
};

verus! {

/// The word a module is selected by, given its name in lowercase: the first
/// word of that name.
pub open spec fn key_of_lowered(lowered_name: Seq<char>) -> Seq<char> {
    let w = words(lowered_name);
    if w.len() > 0 {
        w[0]
    } else {
        seq![]
    }
}

/// The word a module is selected by: the first word of its lowercased name.
pub open spec fn module_key(name: Seq<char>) -> Seq<char> {
    key_of_lowered(lowercase_of(name))
}

/// Some entry of `fs` occurs in `key`.
pub open spec fn some_entry_in(key: Seq<char>, fs: Seq<Seq<char>>) -> bool {
    exists|i: int| 0 <= i < fs.len() && contains(key, #[trigger] fs[i])
}

pub open spec fn filter_view(filter: Option<Vec<String>>) -> Option<Seq<Seq<char>>> {
    match filter {
        Some(v) => Some(strs_of(v@)),
        None => None,
    }
}

/// A module runs when there is no filter, or when some filter entry occurs
/// in its key.
pub open spec fn selected_by_key(key: Seq<char>, filter: Option<Seq<Seq<char>>>) -> bool {
    match filter {
        None => true,
        Some(fs) => some_entry_in(key, fs),
    }
}

/// A module is selected by a filter through the key of its name.
pub open spec fn module_selected(name: Seq<char>, filter: Option<Seq<Seq<char>>>) -> bool {
    selected_by_key(module_key(name), filter)
}

/// Whether a module is selected, given its display name in lowercase.
pub fn lowered_module_allowed(lowered_name: &str, filter: &Option<Vec<String>>) -> (b: bool)
    ensures
        b == selected_by_key(key_of_lowered(lowered_name@), filter_view(*filter)),
{
    match filter {
        None => true,
        Some(fs) => {
            let lc = chars_of(lowered_name);
            let ws = split_words(lc.as_slice());
            let key: Vec<char> = if ws.len() > 0 {
                chars_of_vec(&ws[0])
            } else {
                Vec::new()
            };
            assert(key@ == key_of_lowered(lowered_name@));
            let ghost views = strs_of(fs@);
            let mut i: usize = 0;
            while i < fs.len()
                invariant
                    i <= fs@.len(),
                    views == strs_of(fs@),
                    key@ == key_of_lowered(lowered_name@),
                    *filter == Some(*fs),
                    forall|j: int| 0 <= j < i ==> !contains(key@, #[trigger] views[j]),
                decreases fs@.len() - i,
            {
                let fc = chars_of(fs[i].as_str());
                if contains_chars(key.as_slice(), fc.as_slice()) {
                    assert(contains(key@, views[i as int]));
                    assert(views.len() == fs@.len());
                    assert(0 <= i < views.len() && contains(key@, views[i as int]));
                    return true;
                }
                i += 1;
            }
            assert(!selected_by_key(key@, Some(views)));
            false
        },
    }
}

/// Whether the module with the given display name is selected by the filter.
pub fn module_allowed(name: &str, filter: &Option<Vec<String>>) -> (b: bool)
    ensures
        b == module_selected(name@, filter_view(*filter)),
{
    let lower = lowercase(name);
    lowered_module_allowed(lower.as_str(), filter)
}

/// The display names of the modules, in the order they run.
pub open spec fn module_names() -> Seq<Seq<char>> {
    seq![
        "Port Scanner"@,
        "Service Auditor"@,
        "System Auditor"@,
        "Docker Auditor"@,
        "Nginx Auditor"@,
        "SSH Auditor"@,
    ]
}

/// The names the filter selects, in their order.
pub open spec fn selected_names(names: Seq<Seq<char>>, filter: Option<Seq<Seq<char>>>) -> Seq<
    Seq<char>,
>
    decreases names.len(),
{
    if names.len() == 0 {
        seq![]
    } else {
        selected_names(names.drop_last(), filter) + if module_selected(names.last(), filter) {
            seq![names.last()]
        } else {
            seq![]
        }
    }
}

/// The modules that run for a filter: those of the fixed module list that
/// it selects, in the list's order, each once.
pub fn selected_modules(filter: &Option<Vec<String>>) -> (r: Vec<&'static str>)
    ensures
        r@.map_values(|n: &'static str| n@) == selected_names(module_names(), filter_view(*filter)),
{
    let names: Vec<&'static str> = vec![
        port::PortScanner.name(),
        service::ServiceScanner.name(),
        system::SystemScanner.name(),
        docker::DockerScanner.name(),
        nginx::NginxScanner.name(),
        ssh::SshScanner.name(),
    ];
    let ghost nv = names@.map_values(|n: &'static str| n@);
    assert(nv =~= module_names());
    let mut out: Vec<&'static str> = Vec::new();
    let mut i: usize = 0;
    while i < names.len()
        invariant
            i <= names@.len(),
            nv == names@.map_values(|n: &'static str| n@),
            out@.map_values(|n: &'static str| n@) == selected_names(nv.take(i as int), filter_view(*filter)),
        decreases names@.len() - i,
    {
        assert(nv.take(i + 1).drop_last() == nv.take(i as int));
        assert(nv.take(i + 1).last() == names@[i as int]@);
        let ghost prev = out@;
        if module_allowed(names[i], filter) {
            out.push(names[i]);
        }
        assert(out@.map_values(|n: &'static str| n@) =~= selected_names(
            nv.take(i + 1),
            filter_view(*filter),
        ));
        i += 1;
    }
    assert(nv.take(names@.len() as int) == nv);
    out
}

/// Without a filter every module runs, in the fixed order.
pub proof fn law_no_filter_runs_all()
    ensures
        selected_names(module_names(), None) == module_names(),
{
    let m = module_names();
    lemma_selected_all(m, 6);
    assert(m.take(6) == m);
}

proof fn lemma_selected_all(m: Seq<Seq<char>>, n: int)
    requires
        0 <= n <= m.len(),
    ensures
        selected_names(m.take(n), None) == m.take(n),
    decreases n,
{
    if n > 0 {
        lemma_selected_all(m, n - 1);
        assert(m.take(n).drop_last() == m.take(n - 1));
        assert(m.take(n) == m.take(n - 1).push(m.take(n).last()));
    }
}

/// A module runs without a filter; with one, it runs exactly when some
/// entry of the filter occurs in the first word of its lowercased name
/// (`port` selects "Port Scanner", `ssh` selects "SSH Auditor"). Adding
/// entries to a filter never drops a module.
pub proof fn law_module_selection(name: Seq<char>, fs: Seq<Seq<char>>, more: Seq<Seq<char>>)
    ensures
        module_selected(name, None),
        module_selected(name, Some(fs)) <==> exists|i: int|
            0 <= i < fs.len() && contains(
                if words(lowercase_of(name)).len() > 0 {
                    words(lowercase_of(name))[0]
                } else {
                    seq![]
                },
                #[trigger] fs[i],
            ),
        module_selected(name, Some(fs)) ==> module_selected(name, Some(fs + more)),
{
    if module_selected(name, Some(fs)) {
        let i = choose|i: int| 0 <= i < fs.len() && contains(module_key(name), #[trigger] fs[i]);
        assert((fs + more)[i] == fs[i]);
    }
}

/// The modules that run are those of the list that the filter selects,
/// in the list's order.
pub proof fn law_selected_in_order(names: Seq<Seq<char>>, filter: Option<Seq<Seq<char>>>)
    ensures
        selected_names(names, filter) == names.filter(|n: Seq<char>| module_selected(n, filter)),
    decreases names.len(),
{
    reveal(Seq::filter);
    if names.len() > 0 {
        law_selected_in_order(names.drop_last(), filter);
        assert(selected_names(names, filter) =~= names.filter(|n: Seq<char>| module_selected(n, filter)));
    }
}

fn chars_of_vec(v: &Vec<char>) -> (r: Vec<char>)
    ensures
        r@ == v@,
{
    crate::text::copy_range(v.as_slice(), 0, v.len())
}

/// The module names of a filter, lowercased.
pub fn normalize_module_filter(modules: &Vec<String>) -> (r: Vec<String>)
    ensures
        strs_of(r@) == strs_of(modules@).map_values(|m: Seq<char>| lowercase_of(m)),
{
    let mut out: Vec<String> = Vec::new();
    let mut i: usize = 0;
    while i < modules.len()
        invariant
            i <= modules@.len(),
            strs_of(out@) == strs_of(modules@.take(i as int)).map_values(
                |m: Seq<char>| lowercase_of(m),
            ),
        decreases modules@.len() - i,
    {
        let l = lowercase(modules[i].as_str());
        let ghost prev = out@;
        out.push(l);
        assert(modules@.take(i + 1) == modules@.take(i as int).push(modules@[i as int]));
        assert(strs_of(out@) =~= strs_of(prev).push(lowercase_of(modules@[i as int]@)));
        assert(strs_of(modules@.take(i + 1)).map_values(|m: Seq<char>| lowercase_of(m))
            =~= strs_of(modules@.take(i as int)).map_values(|m: Seq<char>| lowercase_of(m)).push(
            lowercase_of(modules@[i as int]@),
        ));
        i += 1;
    }
    assert(modules@.take(modules@.len() as int) == modules@);
    out
}


/// What each module of a run reported, as views, in the order the modules ran.
pub open spec fn module_findings(per_module: Seq<Vec<Finding>>) -> Seq<Seq<FindingView>> {
    per_module.map_values(|v: Vec<Finding>| finding_views(v@))
}

/// The findings of a scan run, given what each module that ran reported, in
/// the order the modules ran (that of `selected_modules`): all findings of
/// the first module, then all of the second, and so on, each module's in the
/// order it gave them.
pub fn scan_run_findings(per_module: Vec<Vec<Finding>>) -> (r: Vec<Finding>)
    ensures
        finding_views(r@) == module_findings(per_module@).flatten(),
{
    let ghost all = module_findings(per_module@);
    let mut rest = per_module;
    let mut out: Vec<Finding> = Vec::new();
    let ghost mut done: int = 0;
    assert(all.take(0) =~= Seq::<Seq<FindingView>>::empty());
    assert(finding_views(out@) =~= Seq::<FindingView>::empty());
    while rest.len() > 0
        invariant
            0 <= done <= all.len(),
            rest@.len() == all.len() - done,
            module_findings(rest@) == all.skip(done),
            finding_views(out@) == all.take(done).flatten(),
        decreases rest.len(),
    {
        let ghost before = out@;
        let ghost rest_before = rest@;
        let mut v = rest.remove(0);
        let ghost vv = v@;
        assert(finding_views(vv) == all[done]) by {
            assert(module_findings(rest_before)[0] == finding_views(rest_before[0]@));
        }
        out.append(&mut v);
        proof {
            assert(finding_views(out@) =~= finding_views(before) + finding_views(vv));
            assert(all.take(done + 1) =~= all.take(done).push(all[done]));
            all.take(done).lemma_flatten_push(all[done]);
            assert forall|i: int| 0 <= i < rest@.len() implies #[trigger] module_findings(rest@)[i]
                == all.skip(done + 1)[i] by {
                assert(rest@[i] == rest_before[i + 1]);
                assert(module_findings(rest_before)[i + 1] == all.skip(done)[i + 1]);
            }
            assert(module_findings(rest@) =~= all.skip(done + 1));
            done = done + 1;
        }
    }
    assert(all.take(done) =~= all);
    out
}

} // verus!
