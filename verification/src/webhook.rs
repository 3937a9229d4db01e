//! Webhook alerts: which findings a webhook receives, in which payload
//! format, and the text of the chat and event payloads.

use vstd::prelude::*;
use crate::report::{
    category_label, finding_views, FindingView, ScanReport, Severity, severity_label, Finding,
};
use crate::text::{chars_of, copy_range, decimal, decimal_string, eq_text, string_of};

verus! {

/// Where scan alerts are posted, the severity threshold of what is posted
/// (`critical`, `high`, `medium` or `all`), and the payload format (`json`, `telegram` or `openclaw`).
#[derive(Clone, Debug)]
pub struct WebhookConfig {
    pub url: String,
    pub min_severity: String,
    pub format: String,
}

impl Default for WebhookConfig {
    /// No URL, the `high` threshold, JSON payloads.
    fn default() -> (r: WebhookConfig)
        ensures
            r.url@ == Seq::<char>::empty(),
            r.min_severity@ == "high"@,
            r.format@ == "json"@,
    {
        WebhookConfig {
            url: String::new(),
            min_severity: String::from_str("high"),
            format: String::from_str("json"),
        }
    }
}

/// The rank of a severity, from 0 for the most severe.
pub open spec fn severity_rank(s: Severity) -> u8 {
    match s {
        Severity::Critical => 0,
        Severity::High => 1,
        Severity::Medium => 2,
        Severity::Low => 3,
        Severity::Info => 4,
    }
}

/// The rank of a severity, from 0 for the most severe.
pub fn severity_level(sev: &Severity) -> (r: u8)
    ensures
        r == severity_rank(*sev),
{
    match sev {
        Severity::Critical => 0,
        Severity::High => 1,
        Severity::Medium => 2,
        Severity::Low => 3,
        Severity::Info => 4,
    }
}

/// The rank a threshold name stands for: `critical`, `high`, `medium`,
/// `all`; any other name counts as `high`.
pub open spec fn threshold_rank(name: Seq<char>) -> u8 {
    if name == "critical"@ {
        0
    } else if name == "high"@ {
        1
    } else if name == "medium"@ {
        2
    } else if name == "all"@ {
        4
    } else {
        1
    }
}

/// The rank of a threshold name.
pub fn threshold_level(name: &str) -> (r: u8)
    ensures
        r == threshold_rank(name@),
{
    let nc = chars_of(name);
    if eq_text(nc.as_slice(), "critical") {
        0
    } else if eq_text(nc.as_slice(), "high") {
        1
    } else if eq_text(nc.as_slice(), "medium") {
        2
    } else if eq_text(nc.as_slice(), "all") {
        4
    } else {
        1
    }
}

/// A finding reaches the webhook when it is at least as severe as the
/// threshold: its rank is at most the threshold's rank, so `critical` sends
/// only critical findings and `all` sends every finding.
pub open spec fn passes_threshold(f: Finding, min: u8) -> bool {
    severity_rank(f.severity) <= min
}

/// The positions of the findings that pass the threshold, in order.
pub open spec fn selected_positions(fs: Seq<Finding>, min: u8) -> Seq<usize>
    decreases fs.len(),
{
    if fs.len() == 0 {
        seq![]
    } else {
        selected_positions(fs.drop_last(), min) + if passes_threshold(fs.last(), min) {
            seq![(fs.len() - 1) as usize]
        } else {
            seq![]
        }
    }
}

/// Every selected position is a finding that passes the threshold.
pub open spec fn selection_sound(fs: Seq<Finding>, sp: Seq<usize>, min: u8) -> bool {
    forall|k: int| 0 <= k < sp.len() ==> #[trigger] sp[k] < fs.len() && passes_threshold(fs[sp[k] as int], min)
}

/// Every finding that passes the threshold is selected.
pub open spec fn selection_complete(fs: Seq<Finding>, sp: Seq<usize>, min: u8) -> bool {
    forall|i: int| 0 <= i < fs.len() && passes_threshold(#[trigger] fs[i], min) ==> exists|k: int|
        0 <= k < sp.len() && #[trigger] sp[k] == i
}

/// The positions are strictly increasing: report order, no repeats.
pub open spec fn strictly_increasing(sp: Seq<usize>) -> bool {
    forall|a: int, b: int| 0 <= a < b < sp.len() ==> #[trigger] sp[a] < #[trigger] sp[b]
}

/// The webhook receives exactly the findings that pass the threshold, each
/// once and in report order.
pub proof fn law_selection_is_threshold(fs: Seq<Finding>, min: u8)
    requires
        fs.len() <= usize::MAX,
    ensures
        selection_sound(fs, selected_positions(fs, min), min),
        selection_complete(fs, selected_positions(fs, min), min),
        strictly_increasing(selected_positions(fs, min)),
    decreases fs.len(),
{
    if fs.len() > 0 {
        let init = fs.drop_last();
        law_selection_is_threshold(init, min);
        let sp = selected_positions(fs, min);
        let si = selected_positions(init, min);
        assert(sp == si + if passes_threshold(fs.last(), min) {
            seq![(fs.len() - 1) as usize]
        } else {
            Seq::<usize>::empty()
        });
        assert(sp.len() >= si.len());
        assert forall|k: int| 0 <= k < si.len() implies sp[k] == si[k] by {}
        assert forall|k: int| 0 <= k < sp.len() implies #[trigger] sp[k] < fs.len()
            && passes_threshold(fs[sp[k] as int], min) by {
            if k < si.len() {
                assert(sp[k] == si[k]);
                assert(si[k] < init.len());
                assert(init[si[k] as int] == fs[si[k] as int]);
            } else {
                assert(sp[k] == fs.len() - 1);
            }
        }
        assert forall|i: int| 0 <= i < fs.len() && passes_threshold(#[trigger] fs[i], min) implies exists|
            k: int,
        | 0 <= k < sp.len() && #[trigger] sp[k] == i by {
            if i < fs.len() - 1 {
                assert(init[i] == fs[i]);
                let k = choose|k: int| 0 <= k < si.len() && #[trigger] si[k] == i;
                assert(sp[k] == si[k]);
            } else {
                assert(sp[si.len() as int] == i);
            }
        }
        assert forall|a: int, b: int| 0 <= a < b < sp.len() implies #[trigger] sp[a] < #[trigger] sp[b] by {
            if b < si.len() {
                assert(sp[a] == si[a] && sp[b] == si[b]);
            } else {
                assert(sp[a] == si[a]);
                assert(si[a] < init.len());
            }
        }
    }
}

/// A less strict threshold never drops a finding: whatever is sent at one
/// threshold is sent at any threshold of higher rank.
pub proof fn law_threshold_monotone(f: Finding, min: u8, looser: u8)
    requires
        min <= looser,
        passes_threshold(f, min),
    ensures
        passes_threshold(f, looser),
{
}

/// The `all` threshold sends every finding.
pub proof fn law_all_sends_everything(f: Finding)
    ensures
        passes_threshold(f, threshold_rank("all"@)),
{
    reveal_strlit("all");
    reveal_strlit("critical");
    reveal_strlit("high");
    reveal_strlit("medium");
    assert("all"@.len() == 3 && "critical"@.len() == 8 && "high"@.len() == 4);
    assert("medium"@.len() == 6);
}

/// Each named threshold sends exactly the findings at least as severe as
/// the severity it names, in the order critical, high, medium, low, info:
/// `critical` only critical ones, `high` critical and high ones, `medium`
/// those and medium ones, `all` everything; any other name counts as
/// `high`.
pub proof fn law_named_thresholds(f: Finding, other: Seq<char>)
    requires
        other != "critical"@,
        other != "high"@,
        other != "medium"@,
        other != "all"@,
    ensures
        passes_threshold(f, threshold_rank("critical"@)) <==> f.severity == Severity::Critical,
        passes_threshold(f, threshold_rank("high"@)) <==> (f.severity == Severity::Critical
            || f.severity == Severity::High),
        passes_threshold(f, threshold_rank("medium"@)) <==> (f.severity == Severity::Critical
            || f.severity == Severity::High || f.severity == Severity::Medium),
        passes_threshold(f, threshold_rank("all"@)),
        passes_threshold(f, threshold_rank(other)) <==> passes_threshold(f, threshold_rank("high"@)),
{
    reveal_strlit("all");
    reveal_strlit("critical");
    reveal_strlit("high");
    reveal_strlit("medium");
    assert("all"@.len() == 3 && "critical"@.len() == 8 && "high"@.len() == 4);
    assert("medium"@.len() == 6);
}

/// Severities are ranked from the most severe: critical, high, medium,
/// low, info, each one step below the one before.
pub proof fn law_severity_order()
    ensures
        severity_rank(Severity::Critical) == 0,
        severity_rank(Severity::High) == 1,
        severity_rank(Severity::Medium) == 2,
        severity_rank(Severity::Low) == 3,
        severity_rank(Severity::Info) == 4,
{
}

/// The payload format of a webhook.
#[derive(Clone, Copy, Debug, PartialEq, Eq, Structural)]
pub enum WebhookFormat {
    Json,
    Telegram,
    OpenClaw,
}

/// The format a format name stands for; any unknown name means JSON.
pub open spec fn format_of(name: Seq<char>) -> WebhookFormat {
    if name == "telegram"@ {
        WebhookFormat::Telegram
    } else if name == "openclaw"@ {
        WebhookFormat::OpenClaw
    } else {
        WebhookFormat::Json
    }
}

/// What to do with a report: nothing (no URL), skip it (no finding passes
/// the threshold), or send the selected findings in a format.
pub enum WebhookPlan {
    NoWebhook,
    NothingToSend,
    Send { format: WebhookFormat, selected: Vec<usize> },
}

/// Decides what the webhook receives for a report.
pub fn plan_webhook(report: &ScanReport, config: &WebhookConfig) -> (r: WebhookPlan)
    ensures
        config.url@.len() == 0 ==> r is NoWebhook,
        config.url@.len() > 0 && selected_positions(
            report.findings@,
            threshold_rank(config.min_severity@),
        ).len() == 0 ==> r is NothingToSend,
        config.url@.len() > 0 && selected_positions(
            report.findings@,
            threshold_rank(config.min_severity@),
        ).len() > 0 ==> (r matches WebhookPlan::Send { format, selected } && format == format_of(
            config.format@,
        ) && selected@ == selected_positions(
            report.findings@,
            threshold_rank(config.min_severity@),
        )),
{
    let uc = chars_of(config.url.as_str());
    if uc.len() == 0 {
        return WebhookPlan::NoWebhook;
    }
    let min = threshold_level(config.min_severity.as_str());
    let fs = &report.findings;
    let mut selected: Vec<usize> = Vec::new();
    let mut i: usize = 0;
    while i < fs.len()
        invariant
            i <= fs@.len(),
            selected@ == selected_positions(fs@.take(i as int), min),
        decreases fs@.len() - i,
    {
        assert(fs@.take(i + 1).drop_last() == fs@.take(i as int));
        assert(fs@.take(i + 1).last() == fs@[i as int]);
        let ghost prev = selected@;
        if severity_level(&fs[i].severity) <= min {
            selected.push(i);
        }
        assert(selected@ =~= selected_positions(fs@.take(i + 1), min));
        i += 1;
    }
    assert(fs@.take(fs@.len() as int) == fs@);
    if selected.len() == 0 {
        return WebhookPlan::NothingToSend;
    }
    let fc = chars_of(config.format.as_str());
    let format = if eq_text(fc.as_slice(), "telegram") {
        WebhookFormat::Telegram
    } else if eq_text(fc.as_slice(), "openclaw") {
        WebhookFormat::OpenClaw
    } else {
        WebhookFormat::Json
    };
    WebhookPlan::Send { format, selected }
}

/// The first `n` characters of `s`, or all of it when it is shorter.
pub open spec fn prefix(s: Seq<char>, n: nat) -> Seq<char> {
    if s.len() <= n {
        s
    } else {
        s.take(n as int)
    }
}

fn prefix_string(s: &str, n: usize) -> (r: String)
    ensures
        r@ == prefix(s@, n as nat),
{
    let sc = chars_of(s);
    if sc.len() <= n {
        string_of(sc.as_slice())
    } else {
        let p = copy_range(sc.as_slice(), 0, n);
        assert(sc@.subrange(0, n as int) == sc@.take(n as int));
        string_of(p.as_slice())
    }
}

/// The marker a severity is shown with in a chat message.
pub open spec fn severity_emoji(s: Severity) -> Seq<char> {
    match s {
        Severity::Critical => "🚨"@,
        Severity::High => "🔴"@,
        Severity::Medium => "🟡"@,
        Severity::Low => "🟢"@,
        Severity::Info => "ℹ️"@,
    }
}

fn emoji(s: Severity) -> (r: &'static str)
    ensures
        r@ == severity_emoji(s),
{
    match s {
        Severity::Critical => "🚨",
        Severity::High => "🔴",
        Severity::Medium => "🟡",
        Severity::Low => "🟢",
        Severity::Info => "ℹ️",
    }
}

/// The chat message lines for one finding: marker, category and title; the
/// description cut to 120 characters; the remediation cut to 100.
pub open spec fn telegram_entry(f: FindingView) -> Seq<char> {
    severity_emoji(f.severity) + " <b>["@ + category_label(f.category) + "]</b> "@ + f.title + "\n"@
        + "  <code>"@ + prefix(f.description, 120) + "</code>\n"@ + "  → "@ + prefix(
        f.remediation,
        100,
    ) + "\n\n"@
}

/// The entries of the findings of one severity, in order.
pub open spec fn telegram_group(fs: Seq<FindingView>, s: Severity) -> Seq<char>
    decreases fs.len(),
{
    if fs.len() == 0 {
        seq![]
    } else {
        telegram_group(fs.drop_last(), s) + if fs.last().severity == s {
            telegram_entry(fs.last())
        } else {
            seq![]
        }
    }
}

/// The chat message: a header with the host and the report's total, then
/// the critical, high and medium findings, each group in order. Low and
/// informational findings are not listed.
pub open spec fn telegram_text(host: Seq<char>, total: u32, fs: Seq<FindingView>) -> Seq<char> {
    "🛡️ <b>secscan — "@ + host + " | "@ + decimal(total as nat) + " findings</b>\n\n"@
        + telegram_group(fs, Severity::Critical) + telegram_group(fs, Severity::High)
        + telegram_group(fs, Severity::Medium)
}

/// A severity group of the chat message lists exactly the findings of that
/// severity, each as its entry, in the order given.
pub proof fn law_telegram_group(fs: Seq<FindingView>, s: Severity)
    ensures
        telegram_group(fs, s) == fs.filter(|f: FindingView| f.severity == s).map_values(
            |f: FindingView| telegram_entry(f),
        ).flatten(),
    decreases fs.len(),
{
    reveal(Seq::filter);
    if fs.len() > 0 {
        law_telegram_group(fs.drop_last(), s);
        let p = |f: FindingView| f.severity == s;
        let g = |f: FindingView| telegram_entry(f);
        let init = fs.drop_last().filter(p);
        if p(fs.last()) {
            assert(fs.filter(p) == init.push(fs.last()));
            assert(fs.filter(p).map_values(g) =~= init.map_values(g).push(g(fs.last())));
            init.map_values(g).lemma_flatten_push(g(fs.last()));
        } else {
            assert(fs.filter(p) == init);
            assert(telegram_group(fs, s) =~= telegram_group(fs.drop_last(), s));
        }
    }
}

/// The findings at the given positions.
pub open spec fn findings_at(fs: Seq<Finding>, pos: Seq<usize>) -> Seq<FindingView> {
    pos.map_values(|i: usize| fs[i as int]@)
}

fn entry_text(f: &Finding) -> (r: String)
    ensures
        r@ == telegram_entry(f@),
{
    let mut s = String::from_str(emoji(f.severity)).concat(" <b>[").concat(
        f.category.label().as_str(),
    ).concat("]</b> ").concat(f.title.as_str()).concat("\n");
    s = s.concat("  <code>").concat(prefix_string(f.description.as_str(), 120).as_str()).concat(
        "</code>\n",
    );
    s = s.concat("  → ").concat(prefix_string(f.remediation.as_str(), 100).as_str()).concat(
        "\n\n",
    );
    s
}

fn group_text(report: &ScanReport, selected: &Vec<usize>, sev: Severity) -> (r: String)
    requires
        forall|k: int| 0 <= k < selected@.len() ==> selected@[k] < report.findings@.len(),
    ensures
        r@ == telegram_group(findings_at(report.findings@, selected@), sev),
{
    let ghost all = findings_at(report.findings@, selected@);
    let mut s = String::new();
    let mut k: usize = 0;
    while k < selected.len()
        invariant
            k <= selected@.len(),
            all == findings_at(report.findings@, selected@),
            forall|j: int| 0 <= j < selected@.len() ==> selected@[j] < report.findings@.len(),
            s@ == telegram_group(all.take(k as int), sev),
        decreases selected@.len() - k,
    {
        assert(all.take(k + 1).drop_last() == all.take(k as int));
        assert(all.take(k + 1).last() == report.findings@[selected@[k as int] as int]@);
        let f = &report.findings[selected[k]];
        if f.severity == sev {
            let e = entry_text(f);
            s = s.concat(e.as_str());
        }
        k += 1;
    }
    assert(all.take(selected@.len() as int) == all);
    s
}

/// The chat message for the selected findings of a report.
pub fn telegram_message(report: &ScanReport, selected: &Vec<usize>) -> (r: String)
    requires
        forall|k: int| 0 <= k < selected@.len() ==> selected@[k] < report.findings@.len(),
    ensures
        r@ == telegram_text(
            report.hostname@,
            report.total_findings,
            findings_at(report.findings@, selected@),
        ),
{
    let s = String::from_str("🛡️ <b>secscan — ").concat(report.hostname.as_str()).concat(
        " | ",
    ).concat(decimal_string(report.total_findings as u64).as_str()).concat(" findings</b>\n\n");
    let c = group_text(report, selected, Severity::Critical);
    let h = group_text(report, selected, Severity::High);
    let m = group_text(report, selected, Severity::Medium);
    s.concat(c.as_str()).concat(h.as_str()).concat(m.as_str())
}

/// The summary line of an event payload.
pub open spec fn event_summary(total: u32, criticals: u32, highs: u32) -> Seq<char> {
    decimal(total as nat) + " findings ("@ + decimal(criticals as nat) + " critical, "@ + decimal(
        highs as nat,
    ) + " high)"@
}

/// The summary line of the event payload for a report.
pub fn openclaw_summary(report: &ScanReport) -> (r: String)
    ensures
        r@ == event_summary(report.total_findings, report.criticals, report.highs),
{
    decimal_string(report.total_findings as u64).concat(" findings (").concat(
        decimal_string(report.criticals as u64).as_str(),
    ).concat(" critical, ").concat(decimal_string(report.highs as u64).as_str()).concat(" high)")
}

} // verus!
