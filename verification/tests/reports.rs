use secscan::api::{quick_scan_modules, ReportStore, ScanQuery, WebhookConfig as ApiWebhookConfig};
use secscan::report::{hostname_from_output, new_finding, Category, Finding, ScanReport, Severity, Timestamp};
use secscan::text::decimal_string;
use secscan::webhook::{
    openclaw_summary, plan_webhook, severity_level, telegram_message, threshold_level,
    WebhookConfig, WebhookFormat, WebhookPlan,
};

fn f(sev: Severity, title: &str) -> Finding {
    new_finding(Category::System, sev, title.to_string(), format!("{} desc", title), format!("{} fix", title))
}

fn sample() -> ScanReport {
    ScanReport::new(
        "host1".to_string(),
        42,
        vec![
            f(Severity::Info, "i"),
            f(Severity::Critical, "c"),
            f(Severity::High, "h"),
            f(Severity::Low, "l"),
            f(Severity::Medium, "m"),
            f(Severity::High, "h2"),
        ],
    )
}

#[test]
fn report_counts() {
    let r = sample();
    assert_eq!(r.total_findings, 6);
    assert_eq!((r.criticals, r.highs, r.mediums, r.lows, r.infos), (1, 2, 1, 1, 1));
    assert_eq!(r.criticals + r.highs + r.mediums + r.lows + r.infos, r.total_findings);
    assert_eq!(r.hostname, "host1");
    assert_eq!(r.duration_ms, 42);
    assert!(r.timestamp.secs > 1_600_000_000);
    assert!(r.timestamp.nanos < 2_000_000_000);
    let e = ScanReport::new(String::new(), 0, Vec::new());
    assert_eq!(e.total_findings, 0);
}

#[test]
fn report_at_given_instant() {
    let t = Timestamp { secs: 1_700_000_000, nanos: 5 };
    let r = ScanReport::at(t, "h".to_string(), 3, vec![f(Severity::Low, "l")]);
    assert_eq!(r.timestamp, t);
    assert_eq!(r.lows, 1);
    assert_eq!(r.total_findings, 1);
}

#[test]
fn labels() {
    assert_eq!(Severity::Critical.label(), "CRITICAL");
    assert_eq!(Severity::Info.label(), "INFO");
    assert_eq!(Category::Ssh.label(), "SSH");
    assert_eq!(Category::System.label(), "SYSTEM");
}

#[test]
fn hostname_trim() {
    assert_eq!(hostname_from_output(Some("  web01\n")), "web01");
    assert_eq!(hostname_from_output(None), "");
}

#[test]
fn decimal_rendering() {
    assert_eq!(decimal_string(0), "0");
    assert_eq!(decimal_string(7), "7");
    assert_eq!(decimal_string(1234567890), "1234567890");
    assert_eq!(decimal_string(u64::MAX), u64::MAX.to_string());
}

#[test]
fn store_get_after_store() {
    let mut s = ReportStore::new();
    assert!(s.get("a").is_none());
    assert!(s.latest().is_none());
    assert!(s.list_ids().is_empty());
    s.store("a".to_string(), ScanReport::new("one".to_string(), 1, Vec::new()));
    s.store("b".to_string(), ScanReport::new("two".to_string(), 2, Vec::new()));
    assert_eq!(s.get("a").unwrap().hostname, "one");
    assert_eq!(s.latest().unwrap().hostname, "two");
    s.store("a".to_string(), ScanReport::new("three".to_string(), 3, Vec::new()));
    assert_eq!(s.get("a").unwrap().hostname, "three");
    assert_eq!(s.get("b").unwrap().hostname, "two");
    assert_eq!(s.latest().unwrap().hostname, "three");
    let mut ids = s.list_ids();
    ids.sort();
    assert_eq!(ids, vec!["a".to_string(), "b".to_string()]);
}

#[test]
fn store_built_from_a_sequence_of_stores() {
    let ops = vec![
        ("a".to_string(), ScanReport::new("one".to_string(), 1, Vec::new())),
        ("b".to_string(), ScanReport::new("two".to_string(), 2, Vec::new())),
        ("a".to_string(), ScanReport::new("three".to_string(), 3, Vec::new())),
    ];
    let s = ReportStore::from_stores(ops);
    assert_eq!(s.get("a").unwrap().hostname, "three");
    assert_eq!(s.get("b").unwrap().hostname, "two");
    assert!(s.get("c").is_none());
    assert_eq!(s.latest().unwrap().hostname, "three");
    let mut ids = s.list_ids();
    ids.sort();
    assert_eq!(ids, vec!["a".to_string(), "b".to_string()]);
    let e = ReportStore::from_stores(Vec::new());
    assert!(e.latest().is_none());
    assert!(e.list_ids().is_empty());
}

#[test]
fn reports_clone_and_debug() {
    let r = sample();
    let c = r.clone();
    assert_eq!(c.hostname, r.hostname);
    assert_eq!(c.findings.len(), r.findings.len());
    assert_eq!(c.findings[1].title, "c");
    assert!(format!("{:?}", c.findings[0]).contains("Info"));
}

#[test]
fn store_answers() {
    let mut s = ReportStore::new();
    assert_eq!(s.latest_report().err().unwrap(), "No reports yet. Run a scan first.");
    assert_eq!(s.report_by_id("nope").err().unwrap(), "Report 'nope' not found");
    let id = s.record(sample());
    assert_eq!(id.len(), 36);
    assert_eq!(id.chars().filter(|c| *c == '-').count(), 4);
    assert_eq!(s.report_by_id(&id).unwrap().hostname, "host1");
    assert_eq!(s.latest_report().unwrap().total_findings, 6);
    let id2 = s.record(sample());
    assert_ne!(id, id2);
    assert_eq!(s.list_ids().len(), 2);
}

#[test]
fn scan_query_modules() {
    let q = ScanQuery { modules: Some(" Port, SSH ,docker".to_string()) };
    assert_eq!(q.module_filter(), Some(vec!["port".to_string(), "ssh".to_string(), "docker".to_string()]));
    let q = ScanQuery { modules: Some(String::new()) };
    assert_eq!(q.module_filter(), Some(vec![String::new()]));
    let q = ScanQuery { modules: None };
    assert_eq!(q.module_filter(), None);
    assert_eq!(quick_scan_modules(), vec!["port".to_string(), "service".to_string()]);
}

#[test]
fn api_webhook_settings() {
    let d = ApiWebhookConfig::default();
    assert_eq!(d.url, "");
    assert_eq!(d.min_severity, "high");
    assert!(d.alert_config().is_none());
    let c = ApiWebhookConfig { url: "http://x".to_string(), min_severity: "medium".to_string() };
    let a = c.alert_config().unwrap();
    assert_eq!(a.url, "http://x");
    assert_eq!(a.min_severity, "medium");
    assert_eq!(a.format, "json");
}

#[test]
fn severity_and_threshold_levels() {
    assert_eq!(severity_level(&Severity::Critical), 0);
    assert_eq!(severity_level(&Severity::Info), 4);
    assert_eq!(threshold_level("critical"), 0);
    assert_eq!(threshold_level("high"), 1);
    assert_eq!(threshold_level("medium"), 2);
    assert_eq!(threshold_level("all"), 4);
    assert_eq!(threshold_level("HIGH"), 1);
    assert_eq!(threshold_level("bogus"), 1);
}

#[test]
fn webhook_plans() {
    let r = sample();
    let d = WebhookConfig::default();
    assert_eq!(d.min_severity, "high");
    assert_eq!(d.format, "json");
    assert!(matches!(plan_webhook(&r, &d), WebhookPlan::NoWebhook));
    let cfg = WebhookConfig { url: "http://h".to_string(), min_severity: "high".to_string(), format: "telegram".to_string() };
    match plan_webhook(&r, &cfg) {
        WebhookPlan::Send { format, selected } => {
            assert_eq!(format, WebhookFormat::Telegram);
            assert_eq!(selected, vec![1, 2, 5]);
        }
        _ => panic!("expected a send"),
    }
    let cfg = WebhookConfig { url: "http://h".to_string(), min_severity: "all".to_string(), format: "x".to_string() };
    match plan_webhook(&r, &cfg) {
        WebhookPlan::Send { format, selected } => {
            assert_eq!(format, WebhookFormat::Json);
            assert_eq!(selected, vec![0, 1, 2, 3, 4, 5]);
        }
        _ => panic!("expected a send"),
    }
    let cfg = WebhookConfig { url: "http://h".to_string(), min_severity: "critical".to_string(), format: "openclaw".to_string() };
    match plan_webhook(&r, &cfg) {
        WebhookPlan::Send { format, selected } => {
            assert_eq!(format, WebhookFormat::OpenClaw);
            assert_eq!(selected, vec![1]);
        }
        _ => panic!("expected a send"),
    }
    let calm = ScanReport::new("h".to_string(), 0, vec![f(Severity::Low, "l"), f(Severity::Info, "i")]);
    let cfg = WebhookConfig { url: "http://h".to_string(), min_severity: "medium".to_string(), format: "json".to_string() };
    assert!(matches!(plan_webhook(&calm, &cfg), WebhookPlan::NothingToSend));
    let two = ScanReport::new("h".to_string(), 0, vec![f(Severity::Critical, "c"), f(Severity::Low, "l")]);
    let cfg = WebhookConfig { url: "http://h".to_string(), min_severity: "critical".to_string(), format: "json".to_string() };
    match plan_webhook(&two, &cfg) {
        WebhookPlan::Send { selected, .. } => assert_eq!(selected, vec![0]),
        _ => panic!("expected a send"),
    }
}

#[test]
fn telegram_text() {
    let r = sample();
    let msg = telegram_message(&r, &vec![0, 1, 2, 3, 4, 5]);
    let expected = "🛡️ <b>secscan — host1 | 6 findings</b>\n\n\
🚨 <b>[SYSTEM]</b> c\n  <code>c desc</code>\n  → c fix\n\n\
🔴 <b>[SYSTEM]</b> h\n  <code>h desc</code>\n  → h fix\n\n\
🔴 <b>[SYSTEM]</b> h2\n  <code>h2 desc</code>\n  → h2 fix\n\n\
🟡 <b>[SYSTEM]</b> m\n  <code>m desc</code>\n  → m fix\n\n";
    assert_eq!(msg, expected);
}

#[test]
fn telegram_truncates() {
    let long = "x".repeat(300);
    let r = ScanReport::new(
        "h".to_string(),
        0,
        vec![new_finding(Category::Port, Severity::High, "t".to_string(), long.clone(), long.clone())],
    );
    let msg = telegram_message(&r, &vec![0]);
    assert!(msg.contains(&format!("<code>{}</code>", "x".repeat(120))));
    assert!(msg.contains(&format!("→ {}\n", "x".repeat(100))));
}

#[test]
fn openclaw_summary_line() {
    assert_eq!(openclaw_summary(&sample()), "6 findings (1 critical, 2 high)");
}

#[test]
fn attention_needed_for_critical_or_high() {
    assert!(sample().needs_attention());
    let calm = ScanReport::new("h".to_string(), 0, vec![f(Severity::Medium, "m"), f(Severity::Info, "i")]);
    assert!(!calm.needs_attention());
    let high = ScanReport::new("h".to_string(), 0, vec![f(Severity::High, "x")]);
    assert!(high.needs_attention());
}

#[test]
fn lower_threshold_sends_more() {
    let r = sample();
    let sel = |min: &str| match plan_webhook(&r, &WebhookConfig { url: "u".to_string(), min_severity: min.to_string(), format: "json".to_string() }) {
        WebhookPlan::Send { selected, .. } => selected,
        _ => Vec::new(),
    };
    let order = ["critical", "high", "medium", "all"];
    for w in order.windows(2) {
        let stricter = sel(w[0]);
        let looser = sel(w[1]);
        assert!(stricter.iter().all(|i| looser.contains(i)));
    }
    assert_eq!(sel("all").len(), r.findings.len());
}
