use secscan::report::{Category, Finding, RawData, Severity};
use secscan::scanner::docker::DockerScanner;
use secscan::scanner::nginx::{NginxConfig, NginxScanner};
use secscan::scanner::port::PortScanner;
use secscan::scanner::service::ServiceScanner;
use secscan::scanner::ssh::{directive_line_value, find_value, AuthorizedKeys, SshScanner};
use secscan::scanner::system::{
    disk_finding, ip_forward_finding, memory_columns, memory_finding, ufw_finding, MemoryColumns,
    MemoryUsage, SystemScanner,
};
use secscan::scanner::{lowered_module_allowed, module_allowed, normalize_module_filter, scan_run_findings};
use secscan::report::PortEntry;

fn titles(fs: &[Finding]) -> Vec<String> {
    fs.iter().map(|f| f.title.clone()).collect()
}

#[test]
fn find_value_reads_first_uncommented_directive() {
    let cfg = "# PermitRootLogin yes\n  permitrootlogin   no  \nPermitRootLogin yes\n";
    assert_eq!(find_value(cfg, "PermitRootLogin"), Some("no".to_string()));
}

#[test]
fn find_value_skips_lines_without_value() {
    let cfg = "MaxAuthTries\nMaxAuthTries    \nMaxAuthTries 4\n";
    assert_eq!(find_value(cfg, "MaxAuthTries"), Some("4".to_string()));
    assert_eq!(find_value(cfg, "AllowUsers"), None);
}

#[test]
fn find_value_matches_by_prefix_and_handles_crlf() {
    let cfg = "PortForwarding yes\r\nPort 2222\r\n";
    assert_eq!(find_value(cfg, "Port"), Some("yes".to_string()));
    assert_eq!(find_value("", "Port"), None);
}

#[test]
fn ssh_missing_config_is_one_high_finding() {
    let fs = SshScanner::findings(None, None);
    assert_eq!(fs.len(), 1);
    assert_eq!(fs[0].severity, Severity::High);
    assert_eq!(fs[0].category, Category::Ssh);
    assert_eq!(fs[0].title, "SSH config not found");
}

#[test]
fn ssh_hardened_config_reports_recommended_values() {
    let cfg = "PermitRootLogin no\nPasswordAuthentication no\nPubkeyAuthentication yes\nAllowUsers bob\nMaxAuthTries 3\nClientAliveInterval 300\nUsePAM no\nX11Forwarding no\n";
    let fs = SshScanner::findings(Some(cfg.to_string()), None);
    assert_eq!(fs.len(), 8);
    assert!(fs.iter().all(|f| f.severity == Severity::Info && f.category == Category::Ssh));
    assert_eq!(fs[0].title, "SSH: PermitRootLogin = no");
    assert_eq!(fs[0].description, "SSH directive 'PermitRootLogin' is set to recommended value.");
    assert_eq!(fs[0].remediation, "No action needed.");
}

#[test]
fn ssh_empty_config_flags_defaults() {
    let fs = SshScanner::findings(Some(String::new()), None);
    assert_eq!(
        titles(&fs),
        vec![
            "SSH: PermitRootLogin is misconfigured",
            "SSH: PasswordAuthentication is misconfigured",
            "SSH: AllowUsers is misconfigured",
            "SSH: MaxAuthTries is misconfigured",
            "SSH: ClientAliveInterval is misconfigured",
            "SSH: UsePAM is misconfigured",
        ]
    );
    assert_eq!(fs[0].severity, Severity::Critical);
    match &fs[0].raw {
        Some(RawData::SshDirective { directive, current }) => {
            assert_eq!(directive, "PermitRootLogin");
            assert_eq!(current, "");
        }
        _ => panic!("expected directive details"),
    }
}

#[test]
fn ssh_custom_port_and_root_login_yes() {
    let cfg = "Port 2222\nPermitRootLogin yes\n";
    let fs = SshScanner::findings(Some(cfg.to_string()), None);
    assert_eq!(fs[0].title, "SSH: PermitRootLogin is misconfigured");
    match &fs[0].raw {
        Some(RawData::SshDirective { current, .. }) => assert_eq!(current, "yes"),
        _ => panic!("expected directive details"),
    }
    let port = fs.iter().find(|f| f.title == "SSH: Port is misconfigured").unwrap();
    assert_eq!(port.severity, Severity::Low);
    match &port.raw {
        Some(RawData::SshDirective { directive, current }) => {
            assert_eq!(directive, "Port");
            assert_eq!(current, "2222");
        }
        _ => panic!("expected directive details"),
    }
    assert!(!titles(&fs).contains(&"SSH: Port = 2222".to_string()));
}

#[test]
fn ssh_commented_directive_is_ignored() {
    let cfg = "#PermitRootLogin no\nPasswordAuthentication no\n";
    let fs = SshScanner::findings(Some(cfg.to_string()), None);
    let got: Vec<(Severity, String)> = fs.iter().map(|f| (f.severity, f.title.clone())).collect();
    assert_eq!(
        got,
        vec![
            (Severity::Critical, "SSH: PermitRootLogin is misconfigured".to_string()),
            (Severity::Info, "SSH: PasswordAuthentication = no".to_string()),
            (Severity::Medium, "SSH: AllowUsers is misconfigured".to_string()),
            (Severity::Medium, "SSH: MaxAuthTries is misconfigured".to_string()),
            (Severity::Low, "SSH: ClientAliveInterval is misconfigured".to_string()),
            (Severity::Medium, "SSH: UsePAM is misconfigured".to_string()),
        ]
    );
    assert!(fs.iter().all(|f| f.category == Category::Ssh));
}

#[test]
fn ssh_counts_authorized_keys() {
    let keys = AuthorizedKeys {
        path: "/root/.ssh/authorized_keys".to_string(),
        content: Some("# admin\nssh-ed25519 AAAA a@b\n\n   \nssh-rsa BBBB c@d\n".to_string()),
    };
    let fs = SshScanner::findings(Some("PermitRootLogin no\n".to_string()), Some(keys));
    let last = fs.last().unwrap();
    assert_eq!(last.title, "2 SSH keys configured (authorized_keys)");
    assert_eq!(last.description, "Authorized keys file at: /root/.ssh/authorized_keys");
    assert!(matches!(last.raw, Some(RawData::KeyCount(2))));
}

#[test]
fn ssh_unreadable_keys_count_zero() {
    let keys = AuthorizedKeys { path: "/x".to_string(), content: None };
    let fs = SshScanner::findings(Some(String::new()), Some(keys));
    assert_eq!(fs.last().unwrap().title, "0 SSH keys configured (authorized_keys)");
}

#[test]
fn ufw_states() {
    let f = ufw_finding(Some("Status: inactive\n".to_string()));
    assert_eq!(f.severity, Severity::High);
    assert_eq!(f.title, "Firewall is inactive");
    assert!(matches!(&f.raw, Some(RawData::UfwStatus(s)) if s == "Status: inactive"));
    let f = ufw_finding(Some(String::new()));
    assert_eq!(f.title, "Firewall is inactive");
    let f = ufw_finding(Some("Status: active\n".to_string()));
    assert_eq!(f.severity, Severity::Info);
    assert_eq!(f.description, "UFW status:\nStatus: active\n");
    let f = ufw_finding(None);
    assert_eq!(f.title, "UFW not installed");
}

#[test]
fn disk_usage_levels() {
    let df = |pct: &str| format!("Filesystem Size Used Avail Use% Mounted on\n/dev/sda1 50G 45G 5G {} /\n", pct);
    let f = disk_finding(&df("91%")).unwrap();
    assert_eq!(f.severity, Severity::High);
    assert_eq!(f.title, "Root disk usage: 91%");
    assert_eq!(f.description, "Disk is nearly full!");
    assert!(matches!(f.raw, Some(RawData::DiskUsage(91))));
    assert_eq!(disk_finding(&df("50%")).unwrap().severity, Severity::Info);
    assert_eq!(disk_finding(&df("51%")).unwrap().severity, Severity::Low);
    assert_eq!(disk_finding(&df("90%")).unwrap().severity, Severity::Medium);
    assert_eq!(disk_finding(&df("96%")).unwrap().severity, Severity::Critical);
    assert_eq!(disk_finding(&df("+7%%")).unwrap().title, "Root disk usage: 7%");
    assert!(disk_finding(&df("256%")).is_none());
    assert!(disk_finding(&df("-1%")).is_none());
    assert!(disk_finding(&df("%")).is_none());
    assert!(disk_finding("only one line\n").is_none());
    assert!(disk_finding("a\nb c d\n").is_none());
}

#[test]
fn memory_reading_and_levels() {
    let out = "              total        used        free      shared  buff/cache   available\nMem:           7950        2000        3000         100        2950        5600\n";
    match memory_columns(out) {
        Some(MemoryColumns { total, available }) => {
            assert_eq!(total, "7950");
            assert_eq!(available, "5600");
        }
        None => panic!("expected columns"),
    }
    assert!(memory_columns("x\nMem: 1\n").is_none());
    assert!(memory_columns("x\nMem: 1 2 3\n").is_none());
    assert!(memory_columns("only\n").is_none());
    let f = memory_finding(29, "2350", "7950", "7950".to_string(), "5600".to_string());
    assert_eq!(f.title, "Memory usage: 29% (2350MB / 7950MB)");
    assert_eq!(f.severity, Severity::Info);
    match &f.raw {
        Some(RawData::Memory { total_mb, available_mb, used_pct }) => {
            assert_eq!(total_mb, "7950");
            assert_eq!(available_mb, "5600");
            assert_eq!(*used_pct, 29);
        }
        _ => panic!("expected memory details"),
    }
    let m = |p: u8| memory_finding(p, "1", "2", String::new(), String::new());
    assert_eq!(m(50).severity, Severity::Info);
    assert_eq!(m(51).severity, Severity::Low);
    assert_eq!(m(76).severity, Severity::Medium);
    assert_eq!(m(91).description, "Memory is critically low!");
}

#[test]
fn system_findings_in_order() {
    let df = "Filesystem Size Used Avail Use% Mounted on\n/dev/sda1 50G 10G 40G 20% /\n";
    let mem = MemoryUsage {
        pct: 80,
        used_mb: "6400".to_string(),
        total_mb: "8000".to_string(),
        total_value: "8000".to_string(),
        available_value: "1600".to_string(),
    };
    let fs = SystemScanner::findings(
        Some("Status: active".to_string()),
        Some(df.to_string()),
        Some(mem),
        Some("1\n".to_string()),
    );
    assert_eq!(
        titles(&fs),
        vec![
            "Firewall is active",
            "Root disk usage: 20%",
            "Memory usage: 80% (6400MB / 8000MB)",
            "IP forwarding is enabled",
        ]
    );
    assert_eq!(fs[2].severity, Severity::Medium);
    assert!(fs.iter().all(|f| f.category == Category::System));
    let fs = SystemScanner::findings(None, None, None, Some("0".to_string()));
    assert_eq!(titles(&fs), vec!["UFW not installed"]);
    let fs = SystemScanner::findings(Some(String::new()), Some("garbage".to_string()), None, None);
    assert_eq!(titles(&fs), vec!["Firewall is inactive"]);
}

#[test]
fn ip_forwarding() {
    let f = ip_forward_finding(" 1\n").unwrap();
    assert_eq!(f.severity, Severity::Medium);
    assert_eq!(f.title, "IP forwarding is enabled");
    assert!(ip_forward_finding("0\n").is_none());
    assert!(ip_forward_finding("10").is_none());
}

#[test]
fn services_and_root_processes() {
    let systemctl = "cron.service loaded active running Cron\nssh.service loaded active running SSH\n\n";
    let fs = ServiceScanner::findings(Some(systemctl.to_string()), None);
    assert_eq!(fs.len(), 1);
    assert_eq!(fs[0].title, "2 running services");
    assert_eq!(fs[0].description, "Services: cron.service, ssh.service");
    let mut ps = String::new();
    for i in 0..21 {
        ps.push_str(&format!("root {} 0.0 0.1 1000 200 ? Ss 10:00 0:00 /usr/bin/daemon{}\n", i, i));
    }
    ps.push_str("root 99 0.0 0.0 0 0 ? S 10:00 0:00 [kworker/0:1]\n");
    ps.push_str("user 5 0.0 0.0 0 0 ? S 10:00 0:00 /usr/bin/other\n");
    let fs = ServiceScanner::findings(Some(systemctl.to_string()), Some(ps));
    assert_eq!(fs.len(), 2);
    assert_eq!(fs[1].title, "21 processes running as root");
    assert!(fs[1].description.starts_with("Root processes: /usr/bin/daemon0, /usr/bin/daemon1"));
    assert!(!fs[1].description.contains("daemon20"));
    let fs = ServiceScanner::findings(None, None);
    assert_eq!(fs[0].title, "Cannot enumerate systemd services");
}

#[test]
fn docker_unavailable_and_available() {
    let fs = DockerScanner::findings(None, None, None, None);
    assert_eq!(titles(&fs), vec!["Docker not available"]);
    let ps = "web\tnginx:1.25\tUp 2 hours\t0.0.0.0:8080->80/tcp\ndb\tpostgres\tUp 1 hour\t127.0.0.1:5432->5432/tcp\n";
    let fs = DockerScanner::findings(
        Some("24.0.7\n".to_string()),
        Some(ps.to_string()),
        Some("<none>:<none>\n".to_string()),
        Some("{\"live_restore_enabled\": true}".to_string()),
    );
    assert_eq!(
        titles(&fs),
        vec![
            "Docker Engine v24.0.7 installed",
            "2 running containers",
            "Container 'web' exposes ports to all interfaces",
            "1 dangling images",
            "Docker: User Namespace Remap not configured",
        ]
    );
    assert_eq!(fs[2].description, "Ports: 0.0.0.0:8080->80/tcp");
    match &fs[1].raw {
        Some(RawData::Containers(cs)) => {
            assert_eq!(cs[0].name, "web");
            assert_eq!(cs[0].image, "nginx:1.25");
            assert_eq!(cs[1].ports, "127.0.0.1:5432->5432/tcp");
        }
        _ => panic!("expected containers"),
    }
}

#[test]
fn docker_no_containers_and_bad_info() {
    let fs = DockerScanner::findings(Some("25.0".to_string()), Some("\n".to_string()), Some(String::new()), Some("not json".to_string()));
    assert_eq!(titles(&fs), vec!["Docker Engine v25.0 installed", "No running containers"]);
}

#[test]
fn docker_daemon_flags() {
    let fs = DockerScanner::daemon_findings("{\"live_restore_enabled\": false, \"userns_remap\": true}");
    assert_eq!(titles(&fs), vec!["Docker: Live Restore not configured"]);
    let fs = DockerScanner::daemon_findings("[1, 2]");
    assert_eq!(fs.len(), 2);
    let fs = DockerScanner::daemon_flag_findings(Some(None), Some(Some(true)));
    assert!(fs.is_empty());
    let fs = DockerScanner::daemon_flag_findings(None, Some(Some(false)));
    assert_eq!(fs[1].severity, Severity::High);
    assert_eq!(fs[0].remediation, "Enable in /etc/docker/daemon.json: {\"live_restore_enabled\": true}");
}

#[test]
fn docker_short_container_line_uses_placeholders() {
    let fs = DockerScanner::container_findings("lonely\n");
    match &fs[0].raw {
        Some(RawData::Containers(cs)) => {
            assert_eq!(cs[0].name, "lonely");
            assert_eq!(cs[0].image, "?");
            assert_eq!(cs[0].status, "?");
            assert_eq!(cs[0].ports, "");
        }
        _ => panic!("expected containers"),
    }
}

#[test]
fn nginx_missing_and_present() {
    let fs = NginxScanner::findings(None);
    assert_eq!(titles(&fs), vec!["Nginx not installed"]);
    let cfg = NginxConfig {
        path: "/etc/nginx/nginx.conf".to_string(),
        content: "server_tokens off;\nlisten 80;\nssl_protocols TLSv1.2;".to_string(),
    };
    let fs = NginxScanner::findings(Some(cfg));
    assert_eq!(fs.len(), 10);
    assert_eq!(fs[0].title, "Nginx config found at /etc/nginx/nginx.conf");
    assert_eq!(fs[1].title, "Nginx: server_tokens is configured ✓");
    assert_eq!(fs[2].title, "Nginx:  not configured");
    assert_eq!(fs[2].severity, Severity::Medium);
    assert_eq!(fs[7].severity, Severity::Info);
    assert_eq!(fs[8].severity, Severity::High);
    assert_eq!(fs[9].title, "Nginx listens on all interfaces (0.0.0.0)");
}

#[test]
fn nginx_bound_to_localhost() {
    let cfg = NginxConfig { path: "p".to_string(), content: "listen 80;\nlisten 127.0.0.1:80;".to_string() };
    let fs = NginxScanner::findings(Some(cfg));
    assert_eq!(fs.len(), 9);
}

#[test]
fn ports_probed_only_and_risks() {
    assert!(PortScanner::findings(Vec::new()).is_empty());
    let ssh = vec![PortEntry { port: 22, service: "SSH".to_string(), description: "Secure Shell - remote admin access".to_string() }];
    let fs = PortScanner::findings(ssh);
    assert_eq!(fs.len(), 2);
    assert_eq!(fs[0].title, "1 open ports detected");
    assert_eq!(fs[0].description, "Open ports: 22 (SSH)");
    assert_eq!(fs[0].severity, Severity::Info);
    assert_eq!(fs[1].title, "Port 22 (SSH) security check");
    assert_eq!(fs[1].severity, Severity::Low);
    assert_eq!(fs[1].remediation, "Bind SSH to 127.0.0.1 in config, or use ufw to restrict access.");
    let open = vec![
        PortEntry { port: 443, service: "HTTPS".to_string(), description: "Web server (encrypted)".to_string() },
        PortEntry { port: 2375, service: "Docker-TCP".to_string(), description: "d".to_string() },
        PortEntry { port: 6379, service: "Redis".to_string(), description: "r".to_string() },
    ];
    let fs = PortScanner::findings(open);
    assert_eq!(fs[0].title, "3 open ports detected");
    assert_eq!(fs[0].description, "Open ports: 443 (HTTPS), 2375 (Docker-TCP), 6379 (Redis)");
    match &fs[0].raw {
        Some(RawData::OpenPorts(ps)) => {
            assert_eq!(ps.len(), 3);
            assert_eq!(ps[0].description, "Web server (encrypted)");
        }
        _ => panic!("expected ports"),
    }
    assert_eq!(fs.len(), 3);
    assert_eq!(fs[1].severity, Severity::Critical);
    assert_eq!(fs[2].severity, Severity::Medium);
}

#[test]
fn service_port_table_size() {
    let t = PortScanner::service_ports();
    assert_eq!(t.len(), 32);
    assert_eq!(t[18].port, 2375);
}

#[test]
fn module_filter_selection() {
    assert!(module_allowed("Port Scanner", &None));
    let filter = normalize_module_filter(&vec!["PORT".to_string()]);
    assert_eq!(filter, vec!["port".to_string()]);
    assert!(module_allowed("Port Scanner", &Some(filter.clone())));
    assert!(!module_allowed("SSH Auditor", &Some(filter)));
    assert!(module_allowed("SSH Auditor", &Some(vec!["ss".to_string()])));
    assert!(!module_allowed("SSH Auditor", &Some(vec![])));
}

#[test]
fn scanner_names() {
    assert_eq!(PortScanner.name(), "Port Scanner");
    assert_eq!(SshScanner.name(), "SSH Auditor");
    assert_eq!(DockerScanner.name(), "Docker Auditor");
    assert_eq!(NginxScanner.name(), "Nginx Auditor");
    assert_eq!(ServiceScanner.name(), "Service Auditor");
    assert_eq!(secscan::scanner::system::SystemScanner.name(), "System Auditor");
}

#[test]
fn quick_scan_runs_port_and_service_only() {
    let quick = Some(secscan::api::quick_scan_modules());
    let names = ["Port Scanner", "Service Auditor", "System Auditor", "Docker Auditor", "Nginx Auditor", "SSH Auditor"];
    let chosen: Vec<&str> = names.iter().copied().filter(|n| module_allowed(n, &quick)).collect();
    assert_eq!(chosen, vec!["Port Scanner", "Service Auditor"]);
}

#[test]
fn findings_stay_in_their_module_category() {
    assert!(SshScanner::findings(Some(String::new()), None).iter().all(|f| f.category == Category::Ssh));
    let p = vec![PortEntry { port: 80, service: "HTTP".to_string(), description: "w".to_string() }];
    assert!(PortScanner::findings(p).iter().all(|f| f.category == Category::Port));
    let d = DockerScanner::findings(Some("1".to_string()), Some("a\tb\tc\t0.0.0.0:1".to_string()), Some("x".to_string()), Some("{}".to_string()));
    assert!(d.iter().all(|f| f.category == Category::Docker));
    let n = NginxScanner::findings(Some(NginxConfig { path: "p".to_string(), content: "listen 443".to_string() }));
    assert!(n.iter().all(|f| f.category == Category::Nginx));
    let s = ServiceScanner::findings(Some("a\n".to_string()), Some(String::new()));
    assert!(s.iter().all(|f| f.category == Category::Service));
}

#[test]
fn directive_line_value_given_lowercase_forms() {
    assert_eq!(directive_line_value("  UsePAM   yes ", "usepam   yes", "usepam"), Some("yes".to_string()));
    assert_eq!(directive_line_value("#UsePAM yes", "#usepam yes", "usepam"), None);
    assert_eq!(directive_line_value("UsePAM", "usepam", "usepam"), None);
    assert_eq!(directive_line_value("Other x", "other x", "usepam"), None);
}

#[test]
fn lowered_module_selection() {
    assert!(lowered_module_allowed("docker auditor", &Some(vec!["dock".to_string()])));
    assert!(!lowered_module_allowed("docker auditor", &Some(vec!["auditor".to_string()])));
    assert!(lowered_module_allowed("", &Some(vec![String::new()])));
}

#[test]
fn selected_modules_in_fixed_order() {
    let all = secscan::scanner::selected_modules(&None);
    assert_eq!(all, vec!["Port Scanner", "Service Auditor", "System Auditor", "Docker Auditor", "Nginx Auditor", "SSH Auditor"]);
    let some = secscan::scanner::selected_modules(&Some(vec!["ssh".to_string(), "port".to_string()]));
    assert_eq!(some, vec!["Port Scanner", "SSH Auditor"]);
    let none = secscan::scanner::selected_modules(&Some(vec!["zzz".to_string()]));
    assert!(none.is_empty());
}

#[test]
fn scan_run_concatenates_in_module_order() {
    let mk = |t: &str| Finding {
        category: Category::System,
        severity: Severity::Low,
        title: t.to_string(),
        description: String::new(),
        remediation: String::new(),
        raw: None,
    };
    let run = scan_run_findings(vec![vec![mk("p1"), mk("p2")], Vec::new(), vec![mk("s1")]]);
    let got: Vec<String> = run.iter().map(|f| f.title.clone()).collect();
    assert_eq!(got, vec!["p1", "p2", "s1"]);
    assert!(scan_run_findings(Vec::new()).is_empty());
}
