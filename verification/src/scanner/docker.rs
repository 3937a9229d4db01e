//! The Docker audit: engine availability, running containers and their
//! published ports, dangling images, and daemon settings.

use vstd::prelude::*;
use crate::report::{
    all_in_category, lemma_all_in_category_concat, finding_views, new_finding, new_raw_finding, plain_finding, raw_finding, Category,
    ContainerEntry, ContainerEntryView, Finding, FindingView, RawData, RawView, Severity,
};
use crate::text::{
    chars_of, contains, contains_chars, decimal, decimal_string, join, join_strings, lines,
    opt_view, seqs_of, split_char, split_lines, split_on, string_of, strs_of, trim, trim_str,
};

verus! {

/// The lines that are not empty.
pub open spec fn nonempty_lines(ls: Seq<Seq<char>>) -> Seq<Seq<char>>
    decreases ls.len(),
{
    if ls.len() == 0 {
        seq![]
    } else {
        nonempty_lines(ls.drop_last()) + if ls.last().len() > 0 {
            seq![ls.last()]
        } else {
            seq![]
        }
    }
}

fn nonempty_lines_of(out: &str) -> (r: Vec<String>)
    ensures
        strs_of(r@) == nonempty_lines(lines(out@)),
{
    let oc = chars_of(out);
    let ls = split_lines(oc.as_slice());
    let ghost all = seqs_of(ls@);
    let mut r: Vec<String> = Vec::new();
    let mut i: usize = 0;
    while i < ls.len()
        invariant
            i <= ls@.len(),
            all == seqs_of(ls@),
            strs_of(r@) == nonempty_lines(all.take(i as int)),
        decreases ls@.len() - i,
    {
        assert(all.take(i + 1).drop_last() == all.take(i as int));
        assert(all.take(i + 1).last() == ls@[i as int]@);
        let ghost prev = r@;
        if ls[i].len() > 0 {
            r.push(string_of(ls[i].as_slice()));
            assert(strs_of(r@) =~= strs_of(prev) + seq![ls@[i as int]@]);
        } else {
            assert(strs_of(r@) =~= strs_of(prev) + Seq::<Seq<char>>::empty());
        }
        i += 1;
    }
    assert(all.take(ls@.len() as int) == all);
    r
}

/// The piece at `i`, or `d` when there are fewer pieces.
pub open spec fn part_or(parts: Seq<Seq<char>>, i: int, d: Seq<char>) -> Seq<char> {
    if 0 <= i < parts.len() {
        parts[i]
    } else {
        d
    }
}

fn part_or_exec(parts: &Vec<Vec<char>>, i: usize, d: &str) -> (r: String)
    ensures
        r@ == part_or(seqs_of(parts@), i as int, d@),
{
    if i < parts.len() {
        string_of(parts[i].as_slice())
    } else {
        String::from_str(d)
    }
}

/// A container line of `docker ps` read as its tab-separated columns: name,
/// image, status and ports, with `?` (or an empty port list) for a missing
/// column.
pub open spec fn container_entry(line: Seq<char>) -> ContainerEntryView {
    let parts = split_on(line, '\t');
    ContainerEntryView {
        name: part_or(parts, 0, "?"@),
        image: part_or(parts, 1, "?"@),
        status: part_or(parts, 2, "?"@),
        ports: part_or(parts, 3, ""@),
    }
}

fn container_entry_of(line: &str) -> (r: ContainerEntry)
    ensures
        r@ == container_entry(line@),
{
    let lc = chars_of(line);
    let parts = split_char(lc.as_slice(), '\t');
    ContainerEntry {
        name: part_or_exec(&parts, 0, "?"),
        image: part_or_exec(&parts, 1, "?"),
        status: part_or_exec(&parts, 2, "?"),
        ports: part_or_exec(&parts, 3, ""),
    }
}

/// The finding for a container that publishes ports on all interfaces.
pub open spec fn exposure_finding(line: Seq<char>) -> Seq<FindingView> {
    let e = container_entry(line);
    if contains(e.ports, "0.0.0.0"@) {
        seq![
            plain_finding(
                Category::Docker,
                Severity::Medium,
                "Container '"@ + e.name + "' exposes ports to all interfaces"@,
                "Ports: "@ + e.ports,
                "Bind containers to 127.0.0.1 if external access isn't needed. Use `-p 127.0.0.1:PORT:PORT` instead of `-p PORT:PORT`."@,
            ),
        ]
    } else {
        seq![]
    }
}

/// The exposure findings of the containers, in listing order.
pub open spec fn exposure_findings(cs: Seq<Seq<char>>) -> Seq<FindingView>
    decreases cs.len(),
{
    if cs.len() == 0 {
        seq![]
    } else {
        exposure_findings(cs.drop_last()) + exposure_finding(cs.last())
    }
}

/// The findings on running containers from the output of `docker ps`: a
/// summary, then one per container exposed on all interfaces.
pub open spec fn container_findings(ps: Option<Seq<char>>) -> Seq<FindingView> {
    match ps {
        None => seq![],
        Some(out) => {
            let cs = nonempty_lines(lines(out));
            let summary = if cs.len() == 0 {
                plain_finding(
                    Category::Docker,
                    Severity::Info,
                    "No running containers"@,
                    "No Docker containers are currently running."@,
                    "N/A"@,
                )
            } else {
                raw_finding(
                    Category::Docker,
                    Severity::Info,
                    decimal(cs.len()) + " running containers"@,
                    "Containers:\n"@ + join(cs, "\n"@),
                    "Review each container. Remove unused ones, pin image versions."@,
                    RawView::Containers(cs.map_values(|c: Seq<char>| container_entry(c))),
                )
            };
            seq![summary] + exposure_findings(cs)
        },
    }
}

/// The finding on dangling images, from `docker images --filter dangling=true`.
pub open spec fn dangling_findings(out: Option<Seq<char>>) -> Seq<FindingView> {
    match out {
        None => seq![],
        Some(o) => {
            let ds = nonempty_lines(lines(o));
            if ds.len() > 0 {
                seq![
                    raw_finding(
                        Category::Docker,
                        Severity::Low,
                        decimal(ds.len()) + " dangling images"@,
                        "Unused dangling images waste disk space."@,
                        "Clean up: docker image prune"@,
                        RawView::Dangling(ds),
                    ),
                ]
            } else {
                seq![]
            }
        },
    }
}

/// Whether a text is a JSON document, as `serde_json::from_str` decides it.
pub uninterp spec fn json_parses(text: Seq<char>) -> bool;

/// The member `key` of the top-level value of a JSON document, classified:
/// `None` for null or missing (also when the top level is not an object),
/// `Some(Some(b))` for the boolean `b`, `Some(None)` for any other value.
pub uninterp spec fn json_member_flag(text: Seq<char>, key: Seq<char>) -> Option<Option<bool>>;

/// Calls `serde_json::from_str::<serde_json::Value>` on `text` and, when it
/// parses, reads the member `key` of the result with `Value`'s index
/// operator, which gives `Null` for a missing member or a non-object. The
/// JSON grammar is not written out: the outcome is named by `json_parses`
/// and `json_member_flag`.
#[verifier::external_body]
fn read_json_flag(text: &str, key: &str) -> (r: Option<Option<Option<bool>>>)
    ensures
        r is Some <==> json_parses(text@),
        r matches Some(f) ==> f == json_member_flag(text@, key@),
{
    match serde_json::from_str::<serde_json::Value>(text) {
        Err(_) => None,
        Ok(v) => Some(
            match &v[key] {
                serde_json::Value::Null => None,
                serde_json::Value::Bool(b) => Some(Some(*b)),
                serde_json::Value::Number(_) => Some(None),
                serde_json::Value::String(_) => Some(None),
                serde_json::Value::Array(_) => Some(None),
                serde_json::Value::Object(_) => Some(None),
            },
        ),
    }
}

/// A daemon setting is unconfigured when it is `false`, null or missing.
pub open spec fn flag_unset(f: Option<Option<bool>>) -> bool {
    f == Some(Some(false)) || f is None
}

/// The findings on daemon settings, given how `live_restore_enabled` and
/// `userns_remap` read in `docker info`.
pub open spec fn daemon_flag_findings(
    live_restore: Option<Option<bool>>,
    userns_remap: Option<Option<bool>>,
) -> Seq<FindingView> {
    (if flag_unset(live_restore) {
        seq![
            plain_finding(
                Category::Docker,
                Severity::Medium,
                "Docker: Live Restore not configured"@,
                "Live restore is disabled. Containers won't survive daemon restart."@,
                "Enable in /etc/docker/daemon.json: {\"live_restore_enabled\": true}"@,
            ),
        ]
    } else {
        seq![]
    }) + (if flag_unset(userns_remap) {
        seq![
            plain_finding(
                Category::Docker,
                Severity::High,
                "Docker: User Namespace Remap not configured"@,
                "User namespace remapping is disabled. Containers run with root privileges mapping."@,
                "Enable in /etc/docker/daemon.json: {\"userns_remap\": true}"@,
            ),
        ]
    } else {
        seq![]
    })
}

/// The findings on `docker info` output: none when it is not JSON.
pub open spec fn daemon_findings_spec(info: Option<Seq<char>>) -> Seq<FindingView> {
    match info {
        None => seq![],
        Some(t) => if json_parses(t) {
            daemon_flag_findings(
                json_member_flag(t, "live_restore_enabled"@),
                json_member_flag(t, "userns_remap"@),
            )
        } else {
            seq![]
        },
    }
}

/// All Docker findings. `version` is the output of `docker version` when it
/// succeeded; the other outputs are those of `docker ps`, of the dangling
/// image listing and of `docker info`, each `None` when it could not be run.
pub open spec fn docker_findings(
    version: Option<Seq<char>>,
    ps: Option<Seq<char>>,
    dangling: Option<Seq<char>>,
    info: Option<Seq<char>>,
) -> Seq<FindingView> {
    match version {
        None => seq![
            plain_finding(
                Category::Docker,
                Severity::Info,
                "Docker not available"@,
                "Docker CLI not found or Docker daemon not running."@,
                "Install Docker if needed: https://docs.docker.com/engine/install/"@,
            ),
        ],
        Some(v) => seq![
            raw_finding(
                Category::Docker,
                Severity::Info,
                "Docker Engine v"@ + trim(v) + " installed"@,
                "Docker is available and responding."@,
                "Keep Docker updated to latest stable version."@,
                RawView::DockerVersion(trim(v)),
            ),
        ] + container_findings(ps) + dangling_findings(dangling) + daemon_findings_spec(info),
    }
}

proof fn lemma_exposure_category(cs: Seq<Seq<char>>)
    ensures
        all_in_category(exposure_findings(cs), Category::Docker),
    decreases cs.len(),
{
    if cs.len() > 0 {
        lemma_exposure_category(cs.drop_last());
        lemma_all_in_category_concat(
            exposure_findings(cs.drop_last()),
            exposure_finding(cs.last()),
            Category::Docker,
        );
    }
}

/// Every finding of the Docker audit is in the Docker category.
pub proof fn law_docker_findings_category(
    version: Option<Seq<char>>,
    ps: Option<Seq<char>>,
    dangling: Option<Seq<char>>,
    info: Option<Seq<char>>,
)
    ensures
        all_in_category(docker_findings(version, ps, dangling, info), Category::Docker),
{
    if let Some(v) = version {
        let head = seq![
            raw_finding(
                Category::Docker,
                Severity::Info,
                "Docker Engine v"@ + trim(v) + " installed"@,
                "Docker is available and responding."@,
                "Keep Docker updated to latest stable version."@,
                RawView::DockerVersion(trim(v)),
            ),
        ];
        let c = container_findings(ps);
        if let Some(out) = ps {
            let cs = nonempty_lines(lines(out));
            lemma_exposure_category(cs);
            let summary = c.take(1);
            assert(all_in_category(summary, Category::Docker));
            assert(c == summary + exposure_findings(cs));
            lemma_all_in_category_concat(summary, exposure_findings(cs), Category::Docker);
        }
        assert(all_in_category(c, Category::Docker));
        lemma_all_in_category_concat(head, c, Category::Docker);
        lemma_all_in_category_concat(head + c, dangling_findings(dangling), Category::Docker);
        lemma_all_in_category_concat(
            head + c + dangling_findings(dangling),
            daemon_findings_spec(info),
            Category::Docker,
        );
    }
}

proof fn lemma_nonempty_lines_filter(ls: Seq<Seq<char>>)
    ensures
        nonempty_lines(ls) == ls.filter(|l: Seq<char>| l.len() > 0),
    decreases ls.len(),
{
    reveal(Seq::filter);
    if ls.len() > 0 {
        lemma_nonempty_lines_filter(ls.drop_last());
        if ls.last().len() > 0 {
            assert(nonempty_lines(ls) =~= ls.drop_last().filter(|l: Seq<char>| l.len() > 0).push(ls.last()));
        } else {
            assert(nonempty_lines(ls) =~= ls.drop_last().filter(|l: Seq<char>| l.len() > 0));
        }
    }
}

proof fn lemma_exposure_filter(cs: Seq<Seq<char>>)
    ensures
        exposure_findings(cs) == cs.filter(
            |c: Seq<char>| contains(container_entry(c).ports, "0.0.0.0"@),
        ).map_values(
            |c: Seq<char>|
                FindingView {
                    category: Category::Docker,
                    severity: Severity::Medium,
                    title: "Container '"@ + container_entry(c).name + "' exposes ports to all interfaces"@,
                    description: "Ports: "@ + container_entry(c).ports,
                    remediation: "Bind containers to 127.0.0.1 if external access isn't needed. Use `-p 127.0.0.1:PORT:PORT` instead of `-p PORT:PORT`."@,
                    raw: None,
                },
        ),
    decreases cs.len(),
{
    reveal(Seq::filter);
    if cs.len() > 0 {
        lemma_exposure_filter(cs.drop_last());
        let p = |c: Seq<char>| contains(container_entry(c).ports, "0.0.0.0"@);
        let g = |c: Seq<char>|
            FindingView {
                category: Category::Docker,
                severity: Severity::Medium,
                title: "Container '"@ + container_entry(c).name + "' exposes ports to all interfaces"@,
                description: "Ports: "@ + container_entry(c).ports,
                remediation: "Bind containers to 127.0.0.1 if external access isn't needed. Use `-p 127.0.0.1:PORT:PORT` instead of `-p PORT:PORT`."@,
                raw: None,
            };
        let init = cs.drop_last().filter(p);
        if p(cs.last()) {
            assert(cs.filter(p) == init.push(cs.last()));
            assert(cs.filter(p).map_values(g) =~= init.map_values(g).push(g(cs.last())));
        } else {
            assert(cs.filter(p) == init);
        }
        assert(exposure_findings(cs) =~= cs.filter(p).map_values(g));
    }
}

/// Every container of the `docker ps` listing (each non-empty line, the
/// last one included) whose published ports contain `0.0.0.0` gets one
/// medium finding naming it and its ports, in listing order; the findings
/// after the summary are exactly these.
pub proof fn law_docker_exposed_containers(out: Seq<char>)
    ensures
        container_findings(Some(out)).len() >= 1,
        container_findings(Some(out)).skip(1) == lines(out).filter(|l: Seq<char>| l.len() > 0).filter(
            |c: Seq<char>| contains(container_entry(c).ports, "0.0.0.0"@),
        ).map_values(
            |c: Seq<char>|
                FindingView {
                    category: Category::Docker,
                    severity: Severity::Medium,
                    title: "Container '"@ + container_entry(c).name + "' exposes ports to all interfaces"@,
                    description: "Ports: "@ + container_entry(c).ports,
                    remediation: "Bind containers to 127.0.0.1 if external access isn't needed. Use `-p 127.0.0.1:PORT:PORT` instead of `-p PORT:PORT`."@,
                    raw: None,
                },
        ),
{
    let cs = nonempty_lines(lines(out));
    lemma_nonempty_lines_filter(lines(out));
    lemma_exposure_filter(cs);
    let c = container_findings(Some(out));
    assert(c.skip(1) =~= exposure_findings(cs));
}

/// The container summary counts the non-empty lines of the `docker ps`
/// listing, one container each; the dangling image finding (low) is raised
/// exactly when the dangling listing has a non-empty line, and counts them.
pub proof fn law_docker_counts(out: Seq<char>, dangling: Seq<char>)
    ensures
        ({
            let n = lines(out).filter(|l: Seq<char>| l.len() > 0).len();
            container_findings(Some(out))[0].title == if n == 0 {
                "No running containers"@
            } else {
                decimal(n) + " running containers"@
            }
        }),
        ({
            let d = lines(dangling).filter(|l: Seq<char>| l.len() > 0).len();
            &&& d == 0 ==> dangling_findings(Some(dangling)).len() == 0
            &&& d > 0 ==> dangling_findings(Some(dangling)).len() == 1 && dangling_findings(
                Some(dangling),
            )[0].severity == Severity::Low && dangling_findings(Some(dangling))[0].title == decimal(d)
                + " dangling images"@
        }),
        container_findings(None).len() == 0,
        dangling_findings(None).len() == 0,
{
    lemma_nonempty_lines_filter(lines(out));
    lemma_nonempty_lines_filter(lines(dangling));
}

/// Each daemon setting that is false, null or missing in `docker info`
/// gives one finding: live restore medium, then user namespace remapping
/// high; a setting that is `true` or holds another value gives none.
pub proof fn law_daemon_settings(live_restore: Option<Option<bool>>, userns_remap: Option<Option<bool>>)
    ensures
        ({
            let lr = live_restore is None || live_restore == Some(Some(false));
            let ur = userns_remap is None || userns_remap == Some(Some(false));
            let f = daemon_flag_findings(live_restore, userns_remap);
            &&& f.len() == (if lr { 1int } else { 0int }) + (if ur { 1int } else { 0int })
            &&& lr ==> f[0].severity == Severity::Medium && f[0].title == "Docker: Live Restore not configured"@
            &&& ur ==> f[f.len() - 1].severity == Severity::High && f[f.len() - 1].title
                == "Docker: User Namespace Remap not configured"@
        }),
{
}

/// The Docker auditor.
pub struct DockerScanner;

impl DockerScanner {
    pub fn name(&self) -> (r: &'static str)
        ensures
            r@ == "Docker Auditor"@,
    {
        "Docker Auditor"
    }

    /// The daemon setting findings for the given readings of
    /// `live_restore_enabled` and `userns_remap`.
    pub fn daemon_flag_findings(
        live_restore: Option<Option<bool>>,
        userns_remap: Option<Option<bool>>,
    ) -> (r: Vec<Finding>)
        ensures
            finding_views(r@) == daemon_flag_findings(live_restore, userns_remap),
    {
        let mut out: Vec<Finding> = Vec::new();
        let lr_unset = match live_restore {
            None => true,
            Some(Some(b)) => !b,
            Some(None) => false,
        };
        if lr_unset {
            out.push(
                new_finding(
                    Category::Docker,
                    Severity::Medium,
                    String::from_str("Docker: Live Restore not configured"),
                    String::from_str(
                        "Live restore is disabled. Containers won't survive daemon restart.",
                    ),
                    String::from_str(
                        "Enable in /etc/docker/daemon.json: {\"live_restore_enabled\": true}",
                    ),
                ),
            );
        }
        let ghost first = out@;
        let us_unset = match userns_remap {
            None => true,
            Some(Some(b)) => !b,
            Some(None) => false,
        };
        if us_unset {
            out.push(
                new_finding(
                    Category::Docker,
                    Severity::High,
                    String::from_str("Docker: User Namespace Remap not configured"),
                    String::from_str(
                        "User namespace remapping is disabled. Containers run with root privileges mapping.",
                    ),
                    String::from_str("Enable in /etc/docker/daemon.json: {\"userns_remap\": true}"),
                ),
            );
        }
        assert(finding_views(out@) =~= daemon_flag_findings(live_restore, userns_remap));
        out
    }

    /// The daemon setting findings for the output of `docker info`.
    pub fn daemon_findings(info: &str) -> (r: Vec<Finding>)
        ensures
            finding_views(r@) == daemon_findings_spec(Some(info@)),
    {
        let lr = read_json_flag(info, "live_restore_enabled");
        let us = read_json_flag(info, "userns_remap");
        match (lr, us) {
            (Some(a), Some(b)) => DockerScanner::daemon_flag_findings(a, b),
            _ => {
                let r: Vec<Finding> = Vec::new();
                assert(finding_views(r@) =~= Seq::<FindingView>::empty());
                r
            },
        }
    }

    /// The findings on running containers for the output of `docker ps`.
    pub fn container_findings(ps: &str) -> (r: Vec<Finding>)
        ensures
            finding_views(r@) == container_findings(Some(ps@)),
    {
        let cs = nonempty_lines_of(ps);
        let ghost csv = strs_of(cs@);
        let mut out: Vec<Finding> = Vec::new();
        if cs.len() == 0 {
            out.push(
                new_finding(
                    Category::Docker,
                    Severity::Info,
                    String::from_str("No running containers"),
                    String::from_str("No Docker containers are currently running."),
                    String::from_str("N/A"),
                ),
            );
        } else {
            let mut entries: Vec<ContainerEntry> = Vec::new();
            let mut i: usize = 0;
            while i < cs.len()
                invariant
                    i <= cs@.len(),
                    csv == strs_of(cs@),
                    entries@.map_values(|e: ContainerEntry| e@) == csv.take(i as int).map_values(
                        |c: Seq<char>| container_entry(c),
                    ),
                decreases cs@.len() - i,
            {
                let ghost prev = entries@;
                entries.push(container_entry_of(cs[i].as_str()));
                assert(csv.take(i + 1) == csv.take(i as int).push(csv[i as int]));
                assert(csv[i as int] == cs@[i as int]@);
                assert(entries@.map_values(|e: ContainerEntry| e@) =~= prev.map_values(
                    |e: ContainerEntry| e@,
                ).push(container_entry(csv[i as int])));
                assert(entries@.map_values(|e: ContainerEntry| e@) =~= csv.take(i + 1).map_values(
                    |c: Seq<char>| container_entry(c),
                ));
                i += 1;
            }
            assert(csv.take(cs@.len() as int) == csv);
            let title = decimal_string(cs.len() as u64).concat(" running containers");
            let desc = String::from_str("Containers:\n").concat(join_strings(&cs, "\n").as_str());
            out.push(
                new_raw_finding(
                    Category::Docker,
                    Severity::Info,
                    title,
                    desc,
                    String::from_str(
                        "Review each container. Remove unused ones, pin image versions.",
                    ),
                    RawData::Containers(entries),
                ),
            );
        }
        let ghost first = out@;
        assert(exposure_findings(csv.take(0)) =~= Seq::<FindingView>::empty());
        let all_if = chars_of("0.0.0.0");
        let mut i: usize = 0;
        while i < cs.len()
            invariant
                i <= cs@.len(),
                csv == strs_of(cs@),
                all_if@ == "0.0.0.0"@,
                finding_views(out@) == finding_views(first) + exposure_findings(csv.take(i as int)),
            decreases cs@.len() - i,
        {
            assert(csv.take(i + 1).drop_last() == csv.take(i as int));
            assert(csv.take(i + 1).last() == cs@[i as int]@);
            let e = container_entry_of(cs[i].as_str());
            let pc = chars_of(e.ports.as_str());
            let ghost prev = out@;
            if contains_chars(pc.as_slice(), all_if.as_slice()) {
                let title = String::from_str("Container '").concat(e.name.as_str()).concat(
                    "' exposes ports to all interfaces",
                );
                let desc = String::from_str("Ports: ").concat(e.ports.as_str());
                out.push(
                    new_finding(
                        Category::Docker,
                        Severity::Medium,
                        title,
                        desc,
                        String::from_str(
                            "Bind containers to 127.0.0.1 if external access isn't needed. Use `-p 127.0.0.1:PORT:PORT` instead of `-p PORT:PORT`.",
                        ),
                    ),
                );
            }
            assert(finding_views(out@) =~= finding_views(prev) + exposure_finding(cs@[i as int]@));
            i += 1;
        }
        assert(csv.take(cs@.len() as int) == csv);
        out
    }

    /// The dangling image finding for the listing of dangling images.
    pub fn dangling_findings(out: &str) -> (r: Vec<Finding>)
        ensures
            finding_views(r@) == dangling_findings(Some(out@)),
    {
        let ds = nonempty_lines_of(out);
        let mut r: Vec<Finding> = Vec::new();
        if ds.len() > 0 {
            let title = decimal_string(ds.len() as u64).concat(" dangling images");
            r.push(
                new_raw_finding(
                    Category::Docker,
                    Severity::Low,
                    title,
                    String::from_str("Unused dangling images waste disk space."),
                    String::from_str("Clean up: docker image prune"),
                    RawData::Dangling(ds),
                ),
            );
        }
        assert(finding_views(r@) =~= dangling_findings(Some(out@)));
        r
    }

    /// All Docker findings; see `docker_findings` for what each output is.
    pub fn findings(
        version: Option<String>,
        ps: Option<String>,
        dangling: Option<String>,
        info: Option<String>,
    ) -> (r: Vec<Finding>)
        ensures
            finding_views(r@) == docker_findings(
                opt_view(version),
                opt_view(ps),
                opt_view(dangling),
                opt_view(info),
            ),
    {
        let mut out: Vec<Finding> = Vec::new();
        match version {
            None => {
                out.push(
                    new_finding(
                        Category::Docker,
                        Severity::Info,
                        String::from_str("Docker not available"),
                        String::from_str("Docker CLI not found or Docker daemon not running."),
                        String::from_str(
                            "Install Docker if needed: https://docs.docker.com/engine/install/",
                        ),
                    ),
                );
                assert(finding_views(out@) =~= docker_findings(
                    None,
                    opt_view(ps),
                    opt_view(dangling),
                    opt_view(info),
                ));
                out
            },
            Some(v) => {
                let ver = trim_str(v.as_str());
                let title = String::from_str("Docker Engine v").concat(ver.as_str()).concat(
                    " installed",
                );
                out.push(
                    new_raw_finding(
                        Category::Docker,
                        Severity::Info,
                        title,
                        String::from_str("Docker is available and responding."),
                        String::from_str("Keep Docker updated to latest stable version."),
                        RawData::DockerVersion(ver),
                    ),
                );
                let ghost s0 = finding_views(out@);
                let mut cf = match &ps {
                    Some(p) => DockerScanner::container_findings(p.as_str()),
                    None => Vec::new(),
                };
                assert(finding_views(cf@) =~= container_findings(opt_view(ps)));
                let mut df = match &dangling {
                    Some(d) => DockerScanner::dangling_findings(d.as_str()),
                    None => Vec::new(),
                };
                assert(finding_views(df@) =~= dangling_findings(opt_view(dangling)));
                let mut inf = match &info {
                    Some(t) => DockerScanner::daemon_findings(t.as_str()),
                    None => Vec::new(),
                };
                assert(finding_views(inf@) =~= daemon_findings_spec(opt_view(info)));
                let ghost a = out@;
                let ghost b = cf@;
                let ghost c = df@;
                let ghost d = inf@;
                out.append(&mut cf);
                out.append(&mut df);
                out.append(&mut inf);
                assert(out@ == a + b + c + d);
                assert(finding_views(out@) =~= finding_views(a) + finding_views(b) + finding_views(c)
                    + finding_views(d));
                out
            },
        }
    }
}

} // verus!
