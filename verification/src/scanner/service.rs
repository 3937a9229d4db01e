//! The service audit: running systemd units and processes owned by root.

use vstd::prelude::*;
use crate::report::{
    all_in_category, lemma_all_in_category_concat, finding_views, new_finding, new_raw_finding, plain_finding, raw_finding, Category, Finding,
    FindingView, RawData, RawView, Severity,
};
use crate::text::{
    chars_of, contains, contains_chars, decimal, decimal_string, join, join_strings, lines,
    opt_view, seqs_of, split_lines, split_words, starts_with, starts_with_chars, string_of, strs_of, words,
};

verus! {

/// The first word of each line that has one.
pub open spec fn first_words(ls: Seq<Seq<char>>) -> Seq<Seq<char>>
    decreases ls.len(),
{
    if ls.len() == 0 {
        seq![]
    } else {
        first_words(ls.drop_last()) + if words(ls.last()).len() > 0 {
            seq![words(ls.last())[0]]
        } else {
            seq![]
        }
    }
}

/// A `ps aux` line of a root process that is not a kernel thread.
pub open spec fn is_root_process_line(l: Seq<char>) -> bool {
    starts_with(l, "root"@) && !contains(l, "["@) && !contains(l, "kworker"@)
}

/// The command (eleventh word) of each root process line that has one.
pub open spec fn root_commands(ls: Seq<Seq<char>>) -> Seq<Seq<char>>
    decreases ls.len(),
{
    if ls.len() == 0 {
        seq![]
    } else {
        root_commands(ls.drop_last()) + if is_root_process_line(ls.last()) && words(ls.last()).len()
            > 10 {
            seq![words(ls.last())[10]]
        } else {
            seq![]
        }
    }
}

/// The finding on processes running as root, raised when there are more
/// than twenty; it names the first twenty.
pub open spec fn root_process_findings(ps: Option<Seq<char>>) -> Seq<FindingView> {
    match ps {
        Some(p) => {
            let r = root_commands(lines(p));
            if r.len() > 20 {
                seq![
                    plain_finding(
                        Category::Service,
                        Severity::Low,
                        decimal(r.len()) + " processes running as root"@,
                        "Root processes: "@ + join(r.take(20), ", "@),
                        "Follow principle of least privilege. Run services as dedicated users with minimum permissions."@,
                    ),
                ]
            } else {
                seq![]
            }
        },
        None => seq![],
    }
}

/// All service findings, from the output of `systemctl list-units` (`None`
/// when it failed) and of `ps aux` (`None` when it failed).
pub open spec fn service_findings(systemctl: Option<Seq<char>>, ps: Option<Seq<char>>) -> Seq<
    FindingView,
> {
    match systemctl {
        None => seq![
            plain_finding(
                Category::Service,
                Severity::Low,
                "Cannot enumerate systemd services"@,
                "Failed to run systemctl. May be running in container or without systemd."@,
                "Ensure systemd is available, or run with sufficient permissions."@,
            ),
        ],
        Some(out) => {
            let svcs = first_words(lines(out));
            seq![
                raw_finding(
                    Category::Service,
                    Severity::Info,
                    decimal(svcs.len()) + " running services"@,
                    "Services: "@ + join(svcs, ", "@),
                    "Review service list. Remove unused services, disable unnecessary ones."@,
                    RawView::Services(svcs),
                ),
            ] + root_process_findings(ps)
        },
    }
}

/// Every finding of the service audit is in the service category.
pub proof fn law_service_findings_category(systemctl: Option<Seq<char>>, ps: Option<Seq<char>>)
    ensures
        all_in_category(service_findings(systemctl, ps), Category::Service),
{
    if let Some(out) = systemctl {
        let f = service_findings(systemctl, ps);
        lemma_all_in_category_concat(f.take(1), root_process_findings(ps), Category::Service);
        assert(f == f.take(1) + root_process_findings(ps));
    }
}

proof fn lemma_root_commands_filter(ls: Seq<Seq<char>>)
    ensures
        root_commands(ls) == ls.filter(
            |l: Seq<char>|
                starts_with(l, "root"@) && !contains(l, "["@) && !contains(l, "kworker"@) && words(l).len()
                    > 10,
        ).map_values(|l: Seq<char>| words(l)[10]),
    decreases ls.len(),
{
    reveal(Seq::filter);
    if ls.len() > 0 {
        lemma_root_commands_filter(ls.drop_last());
        let p = |l: Seq<char>|
            starts_with(l, "root"@) && !contains(l, "["@) && !contains(l, "kworker"@) && words(l).len()
                > 10;
        let g = |l: Seq<char>| words(l)[10];
        let init = ls.drop_last().filter(p);
        if p(ls.last()) {
            assert(ls.filter(p) == init.push(ls.last()));
            assert(ls.filter(p).map_values(g) =~= init.map_values(g).push(g(ls.last())));
        } else {
            assert(ls.filter(p) == init);
        }
        assert(root_commands(ls) =~= ls.filter(p).map_values(g));
    }
}

/// The root processes of a `ps aux` listing are the commands (eleventh
/// words) of exactly the lines that start with `root`, hold neither `[`
/// (a kernel thread) nor `kworker`, and have more than ten words, in
/// listing order. The service audit reports them when there are more than
/// twenty: one low finding that counts them and names the first twenty,
/// after the services finding; otherwise the services finding stands
/// alone.
pub proof fn law_root_processes(out: Seq<char>, ps: Seq<char>)
    ensures
        ({
            let roots = lines(ps).filter(
                |l: Seq<char>|
                    starts_with(l, "root"@) && !contains(l, "["@) && !contains(l, "kworker"@)
                        && words(l).len() > 10,
            ).map_values(|l: Seq<char>| words(l)[10]);
            &&& roots.len() > 20 ==> service_findings(Some(out), Some(ps)).len() == 2
                && service_findings(Some(out), Some(ps))[1] == FindingView {
                category: Category::Service,
                severity: Severity::Low,
                title: decimal(roots.len()) + " processes running as root"@,
                description: "Root processes: "@ + join(roots.take(20), ", "@),
                remediation: "Follow principle of least privilege. Run services as dedicated users with minimum permissions."@,
                raw: None,
            }
            &&& roots.len() <= 20 ==> service_findings(Some(out), Some(ps)).len() == 1
        }),
{
    lemma_root_commands_filter(lines(ps));
}

proof fn lemma_first_words_filter(ls: Seq<Seq<char>>)
    ensures
        first_words(ls) == ls.filter(|l: Seq<char>| words(l).len() > 0).map_values(
            |l: Seq<char>| words(l)[0],
        ),
    decreases ls.len(),
{
    reveal(Seq::filter);
    if ls.len() > 0 {
        lemma_first_words_filter(ls.drop_last());
        let p = |l: Seq<char>| words(l).len() > 0;
        let g = |l: Seq<char>| words(l)[0];
        let init = ls.drop_last().filter(p);
        if p(ls.last()) {
            assert(ls.filter(p) == init.push(ls.last()));
            assert(ls.filter(p).map_values(g) =~= init.map_values(g).push(g(ls.last())));
        } else {
            assert(ls.filter(p) == init);
        }
        assert(first_words(ls) =~= ls.filter(p).map_values(g));
    }
}

/// The running services are the first words of the non-blank lines of
/// `systemctl list-units`, in order; the first service finding counts and
/// lists them. Without `systemctl` there is one low finding and no process
/// check.
pub proof fn law_running_services(out: Seq<char>, ps: Option<Seq<char>>)
    ensures
        ({
            let svcs = lines(out).filter(|l: Seq<char>| words(l).len() > 0).map_values(
                |l: Seq<char>| words(l)[0],
            );
            &&& service_findings(Some(out), ps)[0].title == decimal(svcs.len()) + " running services"@
            &&& service_findings(Some(out), ps)[0].raw == Some(RawView::Services(svcs))
            &&& service_findings(Some(out), ps)[0].severity == Severity::Info
        }),
        service_findings(None, ps).len() == 1,
        service_findings(None, ps)[0].severity == Severity::Low,
{
    lemma_first_words_filter(lines(out));
}

fn running_services(out: &str) -> (r: Vec<String>)
    ensures
        strs_of(r@) == first_words(lines(out@)),
{
    let oc = chars_of(out);
    let ls = split_lines(oc.as_slice());
    let ghost all = seqs_of(ls@);
    let mut r: Vec<String> = Vec::new();
    let mut i: usize = 0;
    while i < ls.len()
        invariant
            i <= ls@.len(),
            all == seqs_of(ls@),
            strs_of(r@) == first_words(all.take(i as int)),
        decreases ls@.len() - i,
    {
        assert(all.take(i + 1).drop_last() == all.take(i as int));
        assert(all.take(i + 1).last() == ls@[i as int]@);
        let ws = split_words(ls[i].as_slice());
        let ghost prev = r@;
        if ws.len() > 0 {
            assert(seqs_of(ws@)[0] == ws@[0]@);
            r.push(string_of(ws[0].as_slice()));
            assert(strs_of(r@) =~= strs_of(prev) + seq![words(all.take(i + 1).last())[0]]);
        } else {
            assert(strs_of(r@) =~= strs_of(prev) + Seq::<Seq<char>>::empty());
        }
        i += 1;
    }
    assert(all.take(ls@.len() as int) == all);
    r
}

fn root_processes(out: &str) -> (r: Vec<String>)
    ensures
        strs_of(r@) == root_commands(lines(out@)),
{
    let oc = chars_of(out);
    let ls = split_lines(oc.as_slice());
    let ghost all = seqs_of(ls@);
    let root = chars_of("root");
    let bracket = chars_of("[");
    let kworker = chars_of("kworker");
    let mut r: Vec<String> = Vec::new();
    let mut i: usize = 0;
    while i < ls.len()
        invariant
            i <= ls@.len(),
            all == seqs_of(ls@),
            root@ == "root"@,
            bracket@ == "["@,
            kworker@ == "kworker"@,
            strs_of(r@) == root_commands(all.take(i as int)),
        decreases ls@.len() - i,
    {
        assert(all.take(i + 1).drop_last() == all.take(i as int));
        assert(all.take(i + 1).last() == ls@[i as int]@);
        let line = ls[i].as_slice();
        let ghost prev = r@;
        if starts_with_chars(line, root.as_slice()) && !contains_chars(line, bracket.as_slice())
            && !contains_chars(line, kworker.as_slice()) {
            let ws = split_words(line);
            if ws.len() > 10 {
                assert(seqs_of(ws@)[10] == ws@[10]@);
                r.push(string_of(ws[10].as_slice()));
                assert(strs_of(r@) =~= strs_of(prev) + seq![words(all.take(i + 1).last())[10]]);
            } else {
                assert(strs_of(r@) =~= strs_of(prev) + Seq::<Seq<char>>::empty());
            }
        } else {
            assert(strs_of(r@) =~= strs_of(prev) + Seq::<Seq<char>>::empty());
        }
        i += 1;
    }
    assert(all.take(ls@.len() as int) == all);
    r
}

/// The service auditor.
pub struct ServiceScanner;

impl ServiceScanner {
    pub fn name(&self) -> (r: &'static str)
        ensures
            r@ == "Service Auditor"@,
    {
        "Service Auditor"
    }

    /// The service findings, from the output of `systemctl list-units`
    /// (`None` when it could not be run or failed) and of `ps aux` (`None`
    /// when it could not be run or failed).
    pub fn findings(systemctl: Option<String>, ps: Option<String>) -> (r: Vec<Finding>)
        ensures
            finding_views(r@) == service_findings(
                match systemctl {
                    Some(s) => Some(s@),
                    None => None,
                },
                match &ps {
                    Some(s) => Some(s@),
                    None => None,
                },
            ),
    {
        let mut out: Vec<Finding> = Vec::new();
        match systemctl {
            None => {
                out.push(
                    new_finding(
                        Category::Service,
                        Severity::Low,
                        String::from_str("Cannot enumerate systemd services"),
                        String::from_str(
                            "Failed to run systemctl. May be running in container or without systemd.",
                        ),
                        String::from_str(
                            "Ensure systemd is available, or run with sufficient permissions.",
                        ),
                    ),
                );
                assert(finding_views(out@) =~= service_findings(None, opt_view(ps)));
                out
            },
            Some(text) => {
                let services = running_services(text.as_str());
                let title = decimal_string(services.len() as u64).concat(" running services");
                let desc = String::from_str("Services: ").concat(
                    join_strings(&services, ", ").as_str(),
                );
                let ghost svcs = strs_of(services@);
                out.push(
                    new_raw_finding(
                        Category::Service,
                        Severity::Info,
                        title,
                        desc,
                        String::from_str(
                            "Review service list. Remove unused services, disable unnecessary ones.",
                        ),
                        RawData::Services(services),
                    ),
                );
                let ghost first = out@;
                let ghost psv = opt_view(ps);
                match &ps {
                    Some(p) => {
                        let mut roots = root_processes(p.as_str());
                        if roots.len() > 20 {
                            let n = roots.len();
                            roots.truncate(20);
                            assert(strs_of(roots@) =~= root_commands(lines(p@)).take(20));
                            let title = decimal_string(n as u64).concat(
                                " processes running as root",
                            );
                            let desc = String::from_str("Root processes: ").concat(
                                join_strings(&roots, ", ").as_str(),
                            );
                            out.push(
                                new_finding(
                                    Category::Service,
                                    Severity::Low,
                                    title,
                                    desc,
                                    String::from_str(
                                        "Follow principle of least privilege. Run services as dedicated users with minimum permissions.",
                                    ),
                                ),
                            );
                        }
                    },
                    None => {},
                }
                assert(finding_views(out@) =~= finding_views(first) + root_process_findings(psv));
                out
            },
        }
    }
}

} // verus!
