//! The Nginx audit: security directives and headers in the main
//! configuration, and whether it listens on all interfaces.

use vstd::prelude::*;
use crate::report::{
    all_in_category, lemma_all_in_category_concat, finding_views, new_finding, new_raw_finding, plain_finding, raw_finding, Category, Finding,
    FindingView, RawData, RawView, Severity,
};
use crate::text::{chars_of, contains, contains_chars};

verus! {

/// One row of the directive table: the text searched for, the label it is
/// reported under, the severity when it is missing, what that means, and
/// the fix.
pub struct NginxCheck {
    pub search: &'static str,
    pub label: &'static str,
    pub severity: Severity,
    pub description: &'static str,
    pub remediation: &'static str,
}

pub struct NginxCheckView {
    pub search: Seq<char>,
    pub label: Seq<char>,
    pub severity: Severity,
    pub description: Seq<char>,
    pub remediation: Seq<char>,
}

impl View for NginxCheck {
    type V = NginxCheckView;

    open spec fn view(&self) -> NginxCheckView {
        NginxCheckView {
            search: self.search@,
            label: self.label@,
            severity: self.severity,
            description: self.description@,
            remediation: self.remediation@,
        }
    }
}

pub open spec fn nginx_row(search: &str, label: &str, s: Severity, desc: &str, fix: &str) -> NginxCheckView {
    NginxCheckView {
        search: search@,
        label: label@,
        severity: s,
        description: desc@,
        remediation: fix@,
    }
}

/// The directives that are checked, in order.
pub open spec fn nginx_check_table() -> Seq<NginxCheckView> {
    seq![
        nginx_row("server_tokens off", "server_tokens", Severity::High, "Nginx version info is exposed in HTTP responses.", "Add: server_tokens off; in http block"),
        nginx_row("proxy_hide_header", "", Severity::Medium, "Missing proxy_hide_header for internal headers.", "Consider hiding upstream headers: proxy_hide_header X-Powered-By;"),
        nginx_row("add_header X-Frame-Options", "X-Frame-Options", Severity::High, "Missing X-Frame-Options. Site can be embedded in iframes (clickjacking).", "Add: add_header X-Frame-Options SAMEORIGIN always;"),
        nginx_row("add_header X-Content-Type-Options", "X-Content-Type-Options", Severity::High, "Missing X-Content-Type-Options header (MIME sniffing protection).", "Add: add_header X-Content-Type-Options nosniff always;"),
        nginx_row("add_header X-XSS-Protection", "X-XSS-Protection", Severity::Medium, "Missing XSS protection header.", "Add: add_header X-XSS-Protection '1; mode=block' always;"),
        nginx_row("add_header Strict-Transport-Security", "HSTS", Severity::Medium, "Missing HSTS header. HTTPS downgrade attacks possible.", "Add: add_header Strict-Transport-Security 'max-age=31536000; includeSubDomains' always;"),
        nginx_row("ssl_protocols", "SSL Protocols", Severity::Critical, "Check if old/insecure TLS versions are enabled.", "Use only TLSv1.2 and TLSv1.3: ssl_protocols TLSv1.2 TLSv1.3;"),
        nginx_row("ssl_ciphers", "SSL Ciphers", Severity::High, "Weak or outdated SSL ciphers may be in use.", "Use modern cipher suite: ssl_ciphers ECDHE-ECDSA-AES128-GCM-SHA256:ECDHE-RSA-AES128-GCM-SHA256;"),
    ]
}

fn nginx_checks() -> (r: Vec<NginxCheck>)
    ensures
        r@.map_values(|c: NginxCheck| c@) == nginx_check_table(),
{
    let r = vec![
        NginxCheck { search: "server_tokens off", label: "server_tokens", severity: Severity::High, description: "Nginx version info is exposed in HTTP responses.", remediation: "Add: server_tokens off; in http block" },
        NginxCheck { search: "proxy_hide_header", label: "", severity: Severity::Medium, description: "Missing proxy_hide_header for internal headers.", remediation: "Consider hiding upstream headers: proxy_hide_header X-Powered-By;" },
        NginxCheck { search: "add_header X-Frame-Options", label: "X-Frame-Options", severity: Severity::High, description: "Missing X-Frame-Options. Site can be embedded in iframes (clickjacking).", remediation: "Add: add_header X-Frame-Options SAMEORIGIN always;" },
        NginxCheck { search: "add_header X-Content-Type-Options", label: "X-Content-Type-Options", severity: Severity::High, description: "Missing X-Content-Type-Options header (MIME sniffing protection).", remediation: "Add: add_header X-Content-Type-Options nosniff always;" },
        NginxCheck { search: "add_header X-XSS-Protection", label: "X-XSS-Protection", severity: Severity::Medium, description: "Missing XSS protection header.", remediation: "Add: add_header X-XSS-Protection '1; mode=block' always;" },
        NginxCheck { search: "add_header Strict-Transport-Security", label: "HSTS", severity: Severity::Medium, description: "Missing HSTS header. HTTPS downgrade attacks possible.", remediation: "Add: add_header Strict-Transport-Security 'max-age=31536000; includeSubDomains' always;" },
        NginxCheck { search: "ssl_protocols", label: "SSL Protocols", severity: Severity::Critical, description: "Check if old/insecure TLS versions are enabled.", remediation: "Use only TLSv1.2 and TLSv1.3: ssl_protocols TLSv1.2 TLSv1.3;" },
        NginxCheck { search: "ssl_ciphers", label: "SSL Ciphers", severity: Severity::High, description: "Weak or outdated SSL ciphers may be in use.", remediation: "Use modern cipher suite: ssl_ciphers ECDHE-ECDSA-AES128-GCM-SHA256:ECDHE-RSA-AES128-GCM-SHA256;" },
    ];
    assert(r@.map_values(|c: NginxCheck| c@) =~= nginx_check_table());
    r
}

/// The finding for one table check: the severity of the row when the
/// configuration lacks its text, an informational note when it has it.
pub open spec fn nginx_check_finding(c: NginxCheckView, config: Seq<char>) -> FindingView {
    if !contains(config, c.search) {
        plain_finding(
            Category::Nginx,
            c.severity,
            "Nginx: "@ + c.label + " not configured"@,
            c.description,
            c.remediation,
        )
    } else {
        plain_finding(
            Category::Nginx,
            Severity::Info,
            "Nginx: "@ + c.label + " is configured ✓"@,
            "Security header is present."@,
            "None needed."@,
        )
    }
}

/// The findings of the first `n` checks of the table.
pub open spec fn nginx_table_findings(config: Seq<char>, n: nat) -> Seq<FindingView>
    decreases n,
{
    if n == 0 {
        seq![]
    } else {
        nginx_table_findings(config, (n - 1) as nat).push(
            nginx_check_finding(nginx_check_table()[n - 1], config),
        )
    }
}

/// Nginx listens on port 80 or 443 without binding either to localhost.
pub open spec fn listens_on_all_interfaces(config: Seq<char>) -> bool {
    (contains(config, "listen 80"@) || contains(config, "listen 443"@)) && !contains(
        config,
        "listen 127.0.0.1:80"@,
    ) && !contains(config, "listen 127.0.0.1:443"@)
}

/// The configuration found: where it is and what it holds (empty when it
/// could not be read).
pub struct NginxConfig {
    pub path: String,
    pub content: String,
}

/// All Nginx findings for the configuration found, if any.
pub open spec fn nginx_findings(config: Option<(Seq<char>, Seq<char>)>) -> Seq<FindingView> {
    match config {
        None => seq![
            plain_finding(
                Category::Nginx,
                Severity::Info,
                "Nginx not installed"@,
                "Nginx configuration not found on this system."@,
                "N/A"@,
            ),
        ],
        Some((p, c)) => seq![
            raw_finding(
                Category::Nginx,
                Severity::Info,
                "Nginx config found at "@ + p,
                "Nginx configuration is present."@,
                "Review configuration for security headers and TLS settings."@,
                RawView::ConfigPath(p),
            ),
        ] + nginx_table_findings(c, 8) + if listens_on_all_interfaces(c) {
            seq![
                plain_finding(
                    Category::Nginx,
                    Severity::Low,
                    "Nginx listens on all interfaces (0.0.0.0)"@,
                    "Nginx binds to all network interfaces. If proxying internal services, bind them to localhost."@,
                    "Use listen 127.0.0.1:PORT for internal services, or ensure firewall restricts access."@,
                ),
            ]
        } else {
            seq![]
        },
    }
}

pub open spec fn nginx_config_view(c: Option<NginxConfig>) -> Option<(Seq<char>, Seq<char>)> {
    match c {
        Some(n) => Some((n.path@, n.content@)),
        None => None,
    }
}

fn holds_text(config: &[char], t: &str) -> (b: bool)
    ensures
        b == contains(config@, t@),
{
    let tc = chars_of(t);
    contains_chars(config, tc.as_slice())
}

proof fn lemma_nginx_table_category(config: Seq<char>, n: nat)
    ensures
        all_in_category(nginx_table_findings(config, n), Category::Nginx),
    decreases n,
{
    if n > 0 {
        lemma_nginx_table_category(config, (n - 1) as nat);
        lemma_all_in_category_concat(
            nginx_table_findings(config, (n - 1) as nat),
            seq![nginx_check_finding(nginx_check_table()[n - 1], config)],
            Category::Nginx,
        );
        assert(nginx_table_findings(config, n) == nginx_table_findings(config, (n - 1) as nat)
            + seq![nginx_check_finding(nginx_check_table()[n - 1], config)]);
    }
}

/// Every finding of the Nginx audit is in the Nginx category.
pub proof fn law_nginx_findings_category(config: Option<(Seq<char>, Seq<char>)>)
    ensures
        all_in_category(nginx_findings(config), Category::Nginx),
{
    if let Some((p, c)) = config {
        lemma_nginx_table_category(c, 8);
        let head = seq![
            raw_finding(
                Category::Nginx,
                Severity::Info,
                "Nginx config found at "@ + p,
                "Nginx configuration is present."@,
                "Review configuration for security headers and TLS settings."@,
                RawView::ConfigPath(p),
            ),
        ];
        let tail = if listens_on_all_interfaces(c) {
            seq![
                plain_finding(
                    Category::Nginx,
                    Severity::Low,
                    "Nginx listens on all interfaces (0.0.0.0)"@,
                    "Nginx binds to all network interfaces. If proxying internal services, bind them to localhost."@,
                    "Use listen 127.0.0.1:PORT for internal services, or ensure firewall restricts access."@,
                ),
            ]
        } else {
            Seq::<FindingView>::empty()
        };
        lemma_all_in_category_concat(head, nginx_table_findings(c, 8), Category::Nginx);
        lemma_all_in_category_concat(head + nginx_table_findings(c, 8), tail, Category::Nginx);
    }
}

/// What one searched-for directive contributes: a finding of severity
/// `sev` saying `label` is not configured when the configuration lacks the
/// text `search`, otherwise an informational note that it is configured.
pub open spec fn directive_presence(
    config: Seq<char>,
    search: Seq<char>,
    label: Seq<char>,
    sev: Severity,
    desc: Seq<char>,
    fix: Seq<char>,
) -> FindingView {
    if contains(config, search) {
        FindingView {
            category: Category::Nginx,
            severity: Severity::Info,
            title: "Nginx: "@ + label + " is configured ✓"@,
            description: "Security header is present."@,
            remediation: "None needed."@,
            raw: None,
        }
    } else {
        FindingView {
            category: Category::Nginx,
            severity: sev,
            title: "Nginx: "@ + label + " not configured"@,
            description: desc,
            remediation: fix,
            raw: None,
        }
    }
}

/// For a configuration found at `path` with text `config`: first the note
/// that it was found, then one finding per security directive in this
/// order, each judged by whether the text holds it, and last, only when the
/// text holds `listen 80` or `listen 443` and neither `listen
/// 127.0.0.1:80` nor `listen 127.0.0.1:443`, a low finding that Nginx
/// listens on all interfaces.
pub proof fn law_nginx_rules(path: Seq<char>, config: Seq<char>)
    ensures
        ({
            let f = nginx_findings(Some((path, config)));
            let on_all = (contains(config, "listen 80"@) || contains(config, "listen 443"@))
                && !contains(config, "listen 127.0.0.1:80"@) && !contains(config, "listen 127.0.0.1:443"@);
            &&& f.len() == if on_all { 10int } else { 9int }
            &&& f[0].title == "Nginx config found at "@ + path
            &&& f.subrange(1, 9) == seq![
                directive_presence(config, "server_tokens off"@, "server_tokens"@, Severity::High, "Nginx version info is exposed in HTTP responses."@, "Add: server_tokens off; in http block"@),
                directive_presence(config, "proxy_hide_header"@, ""@, Severity::Medium, "Missing proxy_hide_header for internal headers."@, "Consider hiding upstream headers: proxy_hide_header X-Powered-By;"@),
                directive_presence(config, "add_header X-Frame-Options"@, "X-Frame-Options"@, Severity::High, "Missing X-Frame-Options. Site can be embedded in iframes (clickjacking)."@, "Add: add_header X-Frame-Options SAMEORIGIN always;"@),
                directive_presence(config, "add_header X-Content-Type-Options"@, "X-Content-Type-Options"@, Severity::High, "Missing X-Content-Type-Options header (MIME sniffing protection)."@, "Add: add_header X-Content-Type-Options nosniff always;"@),
                directive_presence(config, "add_header X-XSS-Protection"@, "X-XSS-Protection"@, Severity::Medium, "Missing XSS protection header."@, "Add: add_header X-XSS-Protection '1; mode=block' always;"@),
                directive_presence(config, "add_header Strict-Transport-Security"@, "HSTS"@, Severity::Medium, "Missing HSTS header. HTTPS downgrade attacks possible."@, "Add: add_header Strict-Transport-Security 'max-age=31536000; includeSubDomains' always;"@),
                directive_presence(config, "ssl_protocols"@, "SSL Protocols"@, Severity::Critical, "Check if old/insecure TLS versions are enabled."@, "Use only TLSv1.2 and TLSv1.3: ssl_protocols TLSv1.2 TLSv1.3;"@),
                directive_presence(config, "ssl_ciphers"@, "SSL Ciphers"@, Severity::High, "Weak or outdated SSL ciphers may be in use."@, "Use modern cipher suite: ssl_ciphers ECDHE-ECDSA-AES128-GCM-SHA256:ECDHE-RSA-AES128-GCM-SHA256;"@),
            ]
            &&& on_all ==> f[9] == FindingView {
                category: Category::Nginx,
                severity: Severity::Low,
                title: "Nginx listens on all interfaces (0.0.0.0)"@,
                description: "Nginx binds to all network interfaces. If proxying internal services, bind them to localhost."@,
                remediation: "Use listen 127.0.0.1:PORT for internal services, or ensure firewall restricts access."@,
                raw: None,
            }
        }),
{
    reveal_with_fuel(nginx_table_findings, 9);
    let f = nginx_findings(Some((path, config)));
    let t = nginx_check_table();
    let rows = nginx_table_findings(config, 8);
    assert(rows =~= seq![
        nginx_check_finding(t[0], config),
        nginx_check_finding(t[1], config),
        nginx_check_finding(t[2], config),
        nginx_check_finding(t[3], config),
        nginx_check_finding(t[4], config),
        nginx_check_finding(t[5], config),
        nginx_check_finding(t[6], config),
        nginx_check_finding(t[7], config),
    ]);
    assert(f.subrange(1, 9) =~= rows);
}

/// The Nginx auditor.
pub struct NginxScanner;

impl NginxScanner {
    pub fn name(&self) -> (r: &'static str)
        ensures
            r@ == "Nginx Auditor"@,
    {
        "Nginx Auditor"
    }

    /// The Nginx findings for the configuration found, `None` when there is
    /// none.
    pub fn findings(config: Option<NginxConfig>) -> (r: Vec<Finding>)
        ensures
            finding_views(r@) == nginx_findings(nginx_config_view(config)),
    {
        let mut out: Vec<Finding> = Vec::new();
        match config {
            None => {
                out.push(
                    new_finding(
                        Category::Nginx,
                        Severity::Info,
                        String::from_str("Nginx not installed"),
                        String::from_str("Nginx configuration not found on this system."),
                        String::from_str("N/A"),
                    ),
                );
                assert(finding_views(out@) =~= nginx_findings(None));
                out
            },
            Some(cfg) => {
                let ghost p = cfg.path@;
                let ghost c = cfg.content@;
                let title = String::from_str("Nginx config found at ").concat(cfg.path.as_str());
                let cc = chars_of(cfg.content.as_str());
                out.push(
                    new_raw_finding(
                        Category::Nginx,
                        Severity::Info,
                        title,
                        String::from_str("Nginx configuration is present."),
                        String::from_str(
                            "Review configuration for security headers and TLS settings.",
                        ),
                        RawData::ConfigPath(cfg.path),
                    ),
                );
                let ghost first = finding_views(out@);
                assert(first =~= seq![
                    raw_finding(
                        Category::Nginx,
                        Severity::Info,
                        "Nginx config found at "@ + p,
                        "Nginx configuration is present."@,
                        "Review configuration for security headers and TLS settings."@,
                        RawView::ConfigPath(p),
                    ),
                ]);
                let checks = nginx_checks();
                assert(checks@.len() == checks@.map_values(|x: NginxCheck| x@).len());
                let mut i: usize = 0;
                assert(finding_views(out@) =~= first + nginx_table_findings(c, 0));
                while i < checks.len()
                    invariant
                        i <= checks@.len(),
                        checks@.map_values(|x: NginxCheck| x@) == nginx_check_table(),
                        cc@ == c,
                        finding_views(out@) == first + nginx_table_findings(c, i as nat),
                    decreases checks@.len() - i,
                {
                    let row = &checks[i];
                    assert(checks@[i as int]@ == nginx_check_table()[i as int]);
                    let ghost prev = out@;
                    if !holds_text(cc.as_slice(), row.search) {
                        let title = String::from_str("Nginx: ").concat(row.label).concat(
                            " not configured",
                        );
                        out.push(
                            new_finding(
                                Category::Nginx,
                                row.severity,
                                title,
                                String::from_str(row.description),
                                String::from_str(row.remediation),
                            ),
                        );
                    } else {
                        let title = String::from_str("Nginx: ").concat(row.label).concat(
                            " is configured ✓",
                        );
                        out.push(
                            new_finding(
                                Category::Nginx,
                                Severity::Info,
                                title,
                                String::from_str("Security header is present."),
                                String::from_str("None needed."),
                            ),
                        );
                    }
                    assert(finding_views(out@) =~= finding_views(prev).push(
                        nginx_check_finding(nginx_check_table()[i as int], c),
                    ));
                    i += 1;
                }
                assert(checks@.len() == 8);
                let ghost mid = finding_views(out@);
                assert(mid == first + nginx_table_findings(c, 8));
                if (holds_text(cc.as_slice(), "listen 80") || holds_text(cc.as_slice(), "listen 443")) && !holds_text(
                    cc.as_slice(),
                    "listen 127.0.0.1:80",
                ) && !holds_text(cc.as_slice(), "listen 127.0.0.1:443") {
                    out.push(
                        new_finding(
                            Category::Nginx,
                            Severity::Low,
                            String::from_str("Nginx listens on all interfaces (0.0.0.0)"),
                            String::from_str(
                                "Nginx binds to all network interfaces. If proxying internal services, bind them to localhost.",
                            ),
                            String::from_str(
                                "Use listen 127.0.0.1:PORT for internal services, or ensure firewall restricts access.",
                            ),
                        ),
                    );
                }
                assert(finding_views(out@) =~= nginx_findings(Some((p, c))));
                out
            },
        }
    }
}

} // verus!
