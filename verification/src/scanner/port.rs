//! The port audit: which well-known ports are open, and which of them are a
//! risk when exposed.

use vstd::prelude::*;
use crate::report::{
    all_in_category, lemma_all_in_category_concat, finding_views, new_finding, new_raw_finding, plain_finding, raw_finding, Category, Finding,
    FindingView, PortEntry, PortEntryView, RawData, RawView, Severity,
};
use crate::text::{decimal, decimal_string, join, join_strings, strs_of};

verus! {

pub open spec fn port_row(port: u16, service: &str, description: &str) -> PortEntryView {
    PortEntryView { port, service: service@, description: description@ }
}

fn port_entry(port: u16, service: &str, description: &str) -> (r: PortEntry)
    ensures
        r@ == port_row(port, service, description),
{
    PortEntry { port, service: String::from_str(service), description: String::from_str(description) }
}

pub open spec fn entry_views(v: Seq<PortEntry>) -> Seq<PortEntryView> {
    v.map_values(|p: PortEntry| p@)
}

/// The well-known service ports that are probed, in probing order.
pub open spec fn service_port_table() -> Seq<PortEntryView> {
    seq![
        port_row(22, "SSH", "Secure Shell - remote admin access"),
        port_row(25, "SMTP", "Mail server"),
        port_row(53, "DNS", "DNS resolver"),
        port_row(80, "HTTP", "Web server (unencrypted)"),
        port_row(110, "POP3", "Mail retrieval"),
        port_row(111, "RPC", "RPC portmapper"),
        port_row(135, "MSRPC", "MS RPC endpoint"),
        port_row(139, "NetBIOS", "SMB over NetBIOS"),
        port_row(143, "IMAP", "Mail retrieval"),
        port_row(389, "LDAP", "Directory services"),
        port_row(443, "HTTPS", "Web server (encrypted)"),
        port_row(445, "SMB", "SMB/CIFS file sharing"),
        port_row(631, "IPP", "Printer service"),
        port_row(993, "IMAPS", "IMAP over SSL"),
        port_row(995, "POP3S", "POP3 over SSL"),
        port_row(1433, "MSSQL", "MS SQL Server"),
        port_row(1521, "OracleDB", "Oracle Database"),
        port_row(2049, "NFS", "NFS file sharing"),
        port_row(2375, "Docker-TCP", "Docker API (unencrypted - DANGEROUS)"),
        port_row(2376, "Docker-TLS", "Docker API (TLS)"),
        port_row(3306, "MySQL", "MySQL/MariaDB database"),
        port_row(3389, "RDP", "Remote Desktop"),
        port_row(5432, "PostgreSQL", "PostgreSQL database"),
        port_row(5601, "Kibana", "Kibana dashboard"),
        port_row(6379, "Redis", "Redis cache"),
        port_row(8080, "HTTP-Alt", "Alternative HTTP port"),
        port_row(8443, "HTTPS-Alt", "Alternative HTTPS port"),
        port_row(9000, "PHP-FPM", "PHP FastCGI"),
        port_row(9090, "HTTP-Alt2", "Alternative HTTP port"),
        port_row(9200, "Elasticsearch", "Elasticsearch HTTP API"),
        port_row(11211, "Memcached", "Memcached cache"),
        port_row(27017, "MongoDB", "MongoDB database"),
    ]
}

/// The severity and message for an exposed port, for the ports that are a
/// known risk.
pub open spec fn port_risk(port: u16) -> Option<(Severity, Seq<char>)> {
    if port == 22 {
        Some((Severity::Low, "SSH is open. Ensure key-only auth, no root login, fail2ban active."@))
    } else if port == 2375 {
        Some(
            (
                Severity::Critical,
                "Docker TCP API exposed without TLS! This is a major security risk."@,
            ),
        )
    } else if port == 3306 || port == 5432 || port == 27017 {
        Some((Severity::High, "Database port exposed. Should only bind to 127.0.0.1."@))
    } else if port == 6379 {
        Some((Severity::Medium, "Redis port exposed. Should only bind to 127.0.0.1."@))
    } else if port == 80 {
        Some((Severity::Info, "HTTP port open. Ensure auto-redirect to HTTPS."@))
    } else {
        None
    }
}

/// The finding for one open port, when the port is a known risk.
pub open spec fn port_risk_finding(e: PortEntryView) -> Seq<FindingView> {
    match port_risk(e.port) {
        Some((sev, msg)) => seq![
            plain_finding(
                Category::Port,
                sev,
                "Port "@ + decimal(e.port as nat) + " ("@ + e.service + ") security check"@,
                msg,
                "Bind "@ + e.service + " to 127.0.0.1 in config, or use ufw to restrict access."@,
            ),
        ],
        None => seq![],
    }
}

/// The risk findings of the open ports, in list order.
pub open spec fn port_risk_findings(ps: Seq<PortEntryView>) -> Seq<FindingView>
    decreases ps.len(),
{
    if ps.len() == 0 {
        seq![]
    } else {
        port_risk_findings(ps.drop_last()) + port_risk_finding(ps.last())
    }
}

/// How an open port is listed: its number and service.
pub open spec fn port_label(e: PortEntryView) -> Seq<char> {
    decimal(e.port as nat) + " ("@ + e.service + ")"@
}

/// The port findings for the probed ports that accepted a connection: none
/// when there are none; otherwise a summary of them, then one finding per
/// risky port.
pub open spec fn port_findings(open: Seq<PortEntryView>) -> Seq<FindingView> {
    let ps = open;
    if ps.len() == 0 {
        seq![]
    } else {
        seq![
            raw_finding(
                Category::Port,
                Severity::Info,
                decimal(ps.len()) + " open ports detected"@,
                "Open ports: "@ + join(ps.map_values(|e: PortEntryView| port_label(e)), ", "@),
                "Review each port. Close unused ports via firewall/ufw. For services that only need local access, bind to 127.0.0.1 instead of 0.0.0.0."@,
                RawView::OpenPorts(ps),
            ),
        ] + port_risk_findings(ps)
    }
}

proof fn lemma_port_risk_category(ps: Seq<PortEntryView>)
    ensures
        all_in_category(port_risk_findings(ps), Category::Port),
    decreases ps.len(),
{
    if ps.len() > 0 {
        lemma_port_risk_category(ps.drop_last());
        lemma_all_in_category_concat(
            port_risk_findings(ps.drop_last()),
            port_risk_finding(ps.last()),
            Category::Port,
        );
    }
}

/// Every finding of the port audit is in the port category.
pub proof fn law_port_findings_category(open: Seq<PortEntryView>)
    ensures
        all_in_category(port_findings(open), Category::Port),
{
    let ps = open;
    if ps.len() > 0 {
        lemma_port_risk_category(ps);
        let f = port_findings(open);
        let head = f.take(1);
        assert(f == head + port_risk_findings(ps));
        lemma_all_in_category_concat(head, port_risk_findings(ps), Category::Port);
    }
}

proof fn lemma_port_risks_filter(ps: Seq<PortEntryView>)
    ensures
        port_risk_findings(ps) == ps.filter(
            |e: PortEntryView|
                e.port == 22 || e.port == 2375 || e.port == 3306 || e.port == 5432 || e.port == 27017
                    || e.port == 6379 || e.port == 80,
        ).map_values(
            |e: PortEntryView|
                FindingView {
                    category: Category::Port,
                    severity: if e.port == 22 {
                        Severity::Low
                    } else if e.port == 2375 {
                        Severity::Critical
                    } else if e.port == 6379 {
                        Severity::Medium
                    } else if e.port == 80 {
                        Severity::Info
                    } else {
                        Severity::High
                    },
                    title: "Port "@ + decimal(e.port as nat) + " ("@ + e.service + ") security check"@,
                    description: if e.port == 22 {
                        "SSH is open. Ensure key-only auth, no root login, fail2ban active."@
                    } else if e.port == 2375 {
                        "Docker TCP API exposed without TLS! This is a major security risk."@
                    } else if e.port == 6379 {
                        "Redis port exposed. Should only bind to 127.0.0.1."@
                    } else if e.port == 80 {
                        "HTTP port open. Ensure auto-redirect to HTTPS."@
                    } else {
                        "Database port exposed. Should only bind to 127.0.0.1."@
                    },
                    remediation: "Bind "@ + e.service + " to 127.0.0.1 in config, or use ufw to restrict access."@,
                    raw: None,
                },
        ),
    decreases ps.len(),
{
    reveal(Seq::filter);
    if ps.len() > 0 {
        lemma_port_risks_filter(ps.drop_last());
        let p = |e: PortEntryView|
            e.port == 22 || e.port == 2375 || e.port == 3306 || e.port == 5432 || e.port == 27017
                || e.port == 6379 || e.port == 80;
        let g = |e: PortEntryView|
            FindingView {
                category: Category::Port,
                severity: if e.port == 22 {
                    Severity::Low
                } else if e.port == 2375 {
                    Severity::Critical
                } else if e.port == 6379 {
                    Severity::Medium
                } else if e.port == 80 {
                    Severity::Info
                } else {
                    Severity::High
                },
                title: "Port "@ + decimal(e.port as nat) + " ("@ + e.service + ") security check"@,
                description: if e.port == 22 {
                        "SSH is open. Ensure key-only auth, no root login, fail2ban active."@
                    } else if e.port == 2375 {
                        "Docker TCP API exposed without TLS! This is a major security risk."@
                    } else if e.port == 6379 {
                        "Redis port exposed. Should only bind to 127.0.0.1."@
                    } else if e.port == 80 {
                        "HTTP port open. Ensure auto-redirect to HTTPS."@
                    } else {
                        "Database port exposed. Should only bind to 127.0.0.1."@
                    },
                remediation: "Bind "@ + e.service + " to 127.0.0.1 in config, or use ufw to restrict access."@,
                raw: None,
            };
        let init = ps.drop_last().filter(p);
        if p(ps.last()) {
            assert(ps.filter(p) == init.push(ps.last()));
            assert(ps.filter(p).map_values(g) =~= init.map_values(g).push(g(ps.last())));
        } else {
            assert(ps.filter(p) == init);
        }
        assert(port_risk_findings(ps) =~= ps.filter(p).map_values(g));
    }
}

/// With no open port there is no finding. Otherwise the first finding
/// counts the open ports, and each open port that is a known risk gets one
/// finding after it, in order: SSH (22) low, the unencrypted Docker API
/// (2375) critical, the databases (3306, 5432, 27017) high, Redis (6379)
/// medium, HTTP (80) informational; every other port gets none.
pub proof fn law_port_risks(open: Seq<PortEntryView>)
    ensures
        open.len() == 0 ==> port_findings(open).len() == 0,
        open.len() > 0 ==> port_findings(open).len() >= 1 && port_findings(open)[0].title == decimal(
            open.len(),
        ) + " open ports detected"@ && port_findings(open).skip(1) == open.filter(
            |e: PortEntryView|
                e.port == 22 || e.port == 2375 || e.port == 3306 || e.port == 5432 || e.port == 27017
                    || e.port == 6379 || e.port == 80,
        ).map_values(
            |e: PortEntryView|
                FindingView {
                    category: Category::Port,
                    severity: if e.port == 22 {
                        Severity::Low
                    } else if e.port == 2375 {
                        Severity::Critical
                    } else if e.port == 6379 {
                        Severity::Medium
                    } else if e.port == 80 {
                        Severity::Info
                    } else {
                        Severity::High
                    },
                    title: "Port "@ + decimal(e.port as nat) + " ("@ + e.service + ") security check"@,
                    description: if e.port == 22 {
                        "SSH is open. Ensure key-only auth, no root login, fail2ban active."@
                    } else if e.port == 2375 {
                        "Docker TCP API exposed without TLS! This is a major security risk."@
                    } else if e.port == 6379 {
                        "Redis port exposed. Should only bind to 127.0.0.1."@
                    } else if e.port == 80 {
                        "HTTP port open. Ensure auto-redirect to HTTPS."@
                    } else {
                        "Database port exposed. Should only bind to 127.0.0.1."@
                    },
                    remediation: "Bind "@ + e.service + " to 127.0.0.1 in config, or use ufw to restrict access."@,
                    raw: None,
                },
        ),
{
    lemma_port_risks_filter(open);
    if open.len() > 0 {
        assert(port_findings(open).skip(1) =~= port_risk_findings(open));
    }
}

fn risk_of(port: u16) -> (r: Option<(Severity, &'static str)>)
    ensures
        match r {
            Some((s, m)) => port_risk(port) == Some((s, m@)),
            None => port_risk(port) is None,
        },
{
    if port == 22 {
        Some((Severity::Low, "SSH is open. Ensure key-only auth, no root login, fail2ban active."))
    } else if port == 2375 {
        Some(
            (
                Severity::Critical,
                "Docker TCP API exposed without TLS! This is a major security risk.",
            ),
        )
    } else if port == 3306 || port == 5432 || port == 27017 {
        Some((Severity::High, "Database port exposed. Should only bind to 127.0.0.1."))
    } else if port == 6379 {
        Some((Severity::Medium, "Redis port exposed. Should only bind to 127.0.0.1."))
    } else if port == 80 {
        Some((Severity::Info, "HTTP port open. Ensure auto-redirect to HTTPS."))
    } else {
        None
    }
}

/// The port auditor.
pub struct PortScanner;

impl PortScanner {
    pub fn name(&self) -> (r: &'static str)
        ensures
            r@ == "Port Scanner"@,
    {
        "Port Scanner"
    }

    /// The well-known service ports to probe on the local host.
    pub fn service_ports() -> (r: Vec<PortEntry>)
        ensures
            entry_views(r@) == service_port_table(),
    {
        let r = vec![
            port_entry(22, "SSH", "Secure Shell - remote admin access"),
            port_entry(25, "SMTP", "Mail server"),
            port_entry(53, "DNS", "DNS resolver"),
            port_entry(80, "HTTP", "Web server (unencrypted)"),
            port_entry(110, "POP3", "Mail retrieval"),
            port_entry(111, "RPC", "RPC portmapper"),
            port_entry(135, "MSRPC", "MS RPC endpoint"),
            port_entry(139, "NetBIOS", "SMB over NetBIOS"),
            port_entry(143, "IMAP", "Mail retrieval"),
            port_entry(389, "LDAP", "Directory services"),
            port_entry(443, "HTTPS", "Web server (encrypted)"),
            port_entry(445, "SMB", "SMB/CIFS file sharing"),
            port_entry(631, "IPP", "Printer service"),
            port_entry(993, "IMAPS", "IMAP over SSL"),
            port_entry(995, "POP3S", "POP3 over SSL"),
            port_entry(1433, "MSSQL", "MS SQL Server"),
            port_entry(1521, "OracleDB", "Oracle Database"),
            port_entry(2049, "NFS", "NFS file sharing"),
            port_entry(2375, "Docker-TCP", "Docker API (unencrypted - DANGEROUS)"),
            port_entry(2376, "Docker-TLS", "Docker API (TLS)"),
            port_entry(3306, "MySQL", "MySQL/MariaDB database"),
            port_entry(3389, "RDP", "Remote Desktop"),
            port_entry(5432, "PostgreSQL", "PostgreSQL database"),
            port_entry(5601, "Kibana", "Kibana dashboard"),
            port_entry(6379, "Redis", "Redis cache"),
            port_entry(8080, "HTTP-Alt", "Alternative HTTP port"),
            port_entry(8443, "HTTPS-Alt", "Alternative HTTPS port"),
            port_entry(9000, "PHP-FPM", "PHP FastCGI"),
            port_entry(9090, "HTTP-Alt2", "Alternative HTTP port"),
            port_entry(9200, "Elasticsearch", "Elasticsearch HTTP API"),
            port_entry(11211, "Memcached", "Memcached cache"),
            port_entry(27017, "MongoDB", "MongoDB database"),
        ];
        assert(entry_views(r@) =~= service_port_table());
        r
    }

    /// The port findings, given the probed service ports that were found
    /// open.
    pub fn findings(open: Vec<PortEntry>) -> (r: Vec<Finding>)
        ensures
            finding_views(r@) == port_findings(entry_views(open@)),
    {
        let ports = open;
        let ghost pv = entry_views(ports@);
        let mut out: Vec<Finding> = Vec::new();
        if ports.len() == 0 {
            assert(finding_views(out@) =~= Seq::<FindingView>::empty());
            return out;
        }
        let mut labels: Vec<String> = Vec::new();
        let mut risks: Vec<Finding> = Vec::new();
        let mut i: usize = 0;
        while i < ports.len()
            invariant
                i <= ports@.len(),
                pv == entry_views(ports@),
                strs_of(labels@) == pv.take(i as int).map_values(|e: PortEntryView| port_label(e)),
                finding_views(risks@) == port_risk_findings(pv.take(i as int)),
            decreases ports@.len() - i,
        {
            let e = &ports[i];
            assert(pv.take(i + 1).drop_last() == pv.take(i as int));
            assert(pv.take(i + 1).last() == e@);
            let ghost prev_l = labels@;
            let ghost prev_r = risks@;
            let num = decimal_string(e.port as u64);
            let label = num.concat(" (").concat(e.service.as_str()).concat(")");
            labels.push(label);
            assert(strs_of(labels@) =~= strs_of(prev_l).push(port_label(e@)));
            assert(pv.take(i + 1).map_values(|e: PortEntryView| port_label(e)) =~= pv.take(
                i as int,
            ).map_values(|e: PortEntryView| port_label(e)).push(port_label(e@)));
            assert(strs_of(labels@) =~= pv.take(i + 1).map_values(|e: PortEntryView| port_label(e)));
            match risk_of(e.port) {
                Some((sev, msg)) => {
                    let title = String::from_str("Port ").concat(
                        decimal_string(e.port as u64).as_str(),
                    ).concat(" (").concat(e.service.as_str()).concat(") security check");
                    let rem = String::from_str("Bind ").concat(e.service.as_str()).concat(
                        " to 127.0.0.1 in config, or use ufw to restrict access.",
                    );
                    risks.push(new_finding(Category::Port, sev, title, String::from_str(msg), rem));
                },
                None => {},
            }
            assert(finding_views(risks@) =~= finding_views(prev_r) + port_risk_finding(e@));
            i += 1;
        }
        assert(pv.take(ports@.len() as int) == pv);
        let title = decimal_string(ports.len() as u64).concat(" open ports detected");
        let desc = String::from_str("Open ports: ").concat(join_strings(&labels, ", ").as_str());
        out.push(
            new_raw_finding(
                Category::Port,
                Severity::Info,
                title,
                desc,
                String::from_str(
                    "Review each port. Close unused ports via firewall/ufw. For services that only need local access, bind to 127.0.0.1 instead of 0.0.0.0.",
                ),
                RawData::OpenPorts(ports),
            ),
        );
        let ghost first = out@;
        let ghost rs = risks@;
        out.append(&mut risks);
        assert(finding_views(out@) =~= finding_views(first) + finding_views(rs));
        out
    }
}

} // verus!
