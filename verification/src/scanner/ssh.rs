//! The SSH daemon audit: directives of `sshd_config` and the authorized keys.

use vstd::prelude::*;
use crate::report::{
    all_in_category, lemma_all_in_category_concat, finding_views, new_finding, new_raw_finding, plain_finding, raw_finding, Category, Finding,
    FindingView, RawData, RawView, Severity,
};
use crate::text::{
    chars_of, copy_range, decimal, decimal_string, find_ws, find_ws_from, lines, lowercase,
    lowercase_of, seqs_of, split_lines, starts_with, starts_with_chars, string_of, trim,
    trim_chars, eq_text, opt_view, trim_str,
};

verus! {

/// The value a configuration line gives a directive, given the line's
/// trimmed text in lowercase and the directive in lowercase: the trimmed
/// line is not a comment, begins with the directive (compared in
/// lowercase), and has a non-empty trimmed value after its first
/// whitespace.
pub open spec fn line_value_given(line: Seq<char>, lowered_line: Seq<char>, lowered_directive: Seq<
    char,
>) -> Option<Seq<char>> {
    let l = trim(line);
    if l.len() > 0 && l[0] == '#' {
        None
    } else if starts_with(lowered_line, lowered_directive) {
        let i = find_ws(l);
        if 0 <= i < l.len() {
            let v = trim(l.skip(i + 1));
            if v.len() > 0 {
                Some(v)
            } else {
                None
            }
        } else {
            None
        }
    } else {
        None
    }
}

/// The value a single configuration line gives `directive`, with case
/// ignored as `str::to_lowercase` ignores it.
pub open spec fn line_directive_value(line: Seq<char>, directive: Seq<char>) -> Option<Seq<char>> {
    line_value_given(line, lowercase_of(trim(line)), lowercase_of(directive))
}

/// The value that the first line giving one assigns to `directive`.
pub open spec fn first_directive_value(ls: Seq<Seq<char>>, directive: Seq<char>) -> Option<
    Seq<char>,
>
    decreases ls.len(),
{
    if ls.len() == 0 {
        None
    } else {
        match line_directive_value(ls[0], directive) {
            Some(v) => Some(v),
            None => first_directive_value(ls.drop_first(), directive),
        }
    }
}

/// The value a configuration text gives `directive`, if any line gives one.
pub open spec fn directive_value(config: Seq<char>, directive: Seq<char>) -> Option<Seq<char>> {
    first_directive_value(lines(config), directive)
}

/// The value a configuration line gives a directive, given the trimmed
/// line in lowercase and the directive in lowercase.
pub fn directive_line_value(line: &str, lowered_line: &str, lowered_directive: &str) -> (r: Option<
    String,
>)
    ensures
        opt_view(r) == line_value_given(line@, lowered_line@, lowered_directive@),
{
    let lc = chars_of(line);
    let l = trim_chars(lc.as_slice());
    if l.len() > 0 && l[0] == '#' {
        return None;
    }
    let llc = chars_of(lowered_line);
    let ldc = chars_of(lowered_directive);
    if starts_with_chars(llc.as_slice(), ldc.as_slice()) {
        let i = find_ws_from(l.as_slice(), 0);
        assert(l@.skip(0) == l@);
        if i < l.len() {
            let tail = copy_range(l.as_slice(), i + 1, l.len());
            assert(tail@ == l@.skip(i + 1));
            let v = trim_chars(tail.as_slice());
            if v.len() > 0 {
                return Some(string_of(v.as_slice()));
            }
        }
    }
    None
}

/// The value of `directive` in an `sshd_config` text.
pub fn find_value(config: &str, directive: &str) -> (r: Option<String>)
    ensures
        opt_view(r) == directive_value(config@, directive@),
{
    let cc = chars_of(config);
    let ls = split_lines(cc.as_slice());
    let dl = lowercase(directive);
    let ghost all = seqs_of(ls@);
    let mut k: usize = 0;
    assert(all.skip(0) == all);
    while k < ls.len()
        invariant
            k <= ls@.len(),
            all == seqs_of(ls@),
            all == lines(config@),
            dl@ == lowercase_of(directive@),
            directive_value(config@, directive@) == first_directive_value(
                all.skip(k as int),
                directive@,
            ),
        decreases ls@.len() - k,
    {
        let ghost rest = all.skip(k as int);
        assert(rest[0] == ls@[k as int]@);
        assert(rest.drop_first() == all.skip(k + 1));
        let line = string_of(ls[k].as_slice());
        let trimmed = trim_str(line.as_str());
        let lowered = lowercase(trimmed.as_str());
        let v = directive_line_value(line.as_str(), lowered.as_str(), dl.as_str());
        if v.is_some() {
            return v;
        }
        k += 1;
    }
    assert(all.skip(k as int) =~= Seq::<Seq<char>>::empty());
    None
}

/// `v`, or `d` when there is no value.
pub open spec fn value_or(v: Option<Seq<char>>, d: Seq<char>) -> Seq<char> {
    match v {
        Some(x) => x,
        None => d,
    }
}

/// Whether the value found for the check at `idx` of the check table is a
/// risk. Each directive has its own rule, with the daemon's default used
/// where the directive is absent.
pub open spec fn ssh_dangerous(idx: int, v: Option<Seq<char>>) -> bool {
    if idx == 0 {
        value_or(v, "prohibit-password"@) != "no"@
    } else if idx == 1 {
        value_or(v, "yes"@) != "no"@
    } else if idx == 2 {
        value_or(v, "yes"@) != "yes"@
    } else if idx == 3 {
        v is Some
    } else if 4 <= idx <= 6 {
        v is None
    } else if idx == 7 {
        value_or(v, "yes"@) == "yes"@
    } else if idx == 8 {
        value_or(v, "no"@) != "no"@
    } else {
        false
    }
}

/// One row of the directive table: the directive, the severity of a risky
/// value, what it means, and how to fix it.
pub struct SshCheck {
    pub directive: &'static str,
    pub severity: Severity,
    pub description: &'static str,
    pub remediation: &'static str,
}

pub struct SshCheckView {
    pub directive: Seq<char>,
    pub severity: Severity,
    pub description: Seq<char>,
    pub remediation: Seq<char>,
}

impl View for SshCheck {
    type V = SshCheckView;

    open spec fn view(&self) -> SshCheckView {
        SshCheckView {
            directive: self.directive@,
            severity: self.severity,
            description: self.description@,
            remediation: self.remediation@,
        }
    }
}

pub open spec fn ssh_row(d: &str, s: Severity, desc: &str, fix: &str) -> SshCheckView {
    SshCheckView { directive: d@, severity: s, description: desc@, remediation: fix@ }
}

/// The directives that are checked, in order.
pub open spec fn ssh_check_table() -> Seq<SshCheckView> {
    seq![
        ssh_row("PermitRootLogin", Severity::Critical, "Root login via SSH is enabled (or not explicitly denied)", "Set: PermitRootLogin no"),
        ssh_row("PasswordAuthentication", Severity::Critical, "Password authentication for SSH is enabled — brute force risk", "Set: PasswordAuthentication no\nThen restart SSH and use only SSH keys."),
        ssh_row("PubkeyAuthentication", Severity::High, "Public key authentication should be explicitly enabled", "Set: PubkeyAuthentication yes"),
        ssh_row("Port", Severity::Low, "SSH running on default port 22 — automated attacks target this", "Consider changing to a non-standard port: Port 2222\nEnsure firewall allows the new port."),
        ssh_row("AllowUsers", Severity::Medium, "No AllowUsers restriction — any valid user can SSH", "Restrict to specific users: AllowUsers youruser"),
        ssh_row("MaxAuthTries", Severity::Medium, "No MaxAuthTries set — unlimited auth attempts per connection", "Set: MaxAuthTries 3"),
        ssh_row("ClientAliveInterval", Severity::Low, "No idle timeout set — stale SSH sessions accumulate", "Set: ClientAliveInterval 300\nSet: ClientAliveCountMax 2"),
        ssh_row("UsePAM", Severity::Medium, "PAM is enabled for SSH — configuration depends on PAM modules", "Ensure PAM is configured correctly. Consider disabling if not needed."),
        ssh_row("X11Forwarding", Severity::Medium, "X11 forwarding may be enabled — potential security risk", "Set: X11Forwarding no"),
    ]
}

fn ssh_checks() -> (r: Vec<SshCheck>)
    ensures
        r@.map_values(|c: SshCheck| c@) == ssh_check_table(),
{
    let r = vec![
        SshCheck { directive: "PermitRootLogin", severity: Severity::Critical, description: "Root login via SSH is enabled (or not explicitly denied)", remediation: "Set: PermitRootLogin no" },
        SshCheck { directive: "PasswordAuthentication", severity: Severity::Critical, description: "Password authentication for SSH is enabled — brute force risk", remediation: "Set: PasswordAuthentication no\nThen restart SSH and use only SSH keys." },
        SshCheck { directive: "PubkeyAuthentication", severity: Severity::High, description: "Public key authentication should be explicitly enabled", remediation: "Set: PubkeyAuthentication yes" },
        SshCheck { directive: "Port", severity: Severity::Low, description: "SSH running on default port 22 — automated attacks target this", remediation: "Consider changing to a non-standard port: Port 2222\nEnsure firewall allows the new port." },
        SshCheck { directive: "AllowUsers", severity: Severity::Medium, description: "No AllowUsers restriction — any valid user can SSH", remediation: "Restrict to specific users: AllowUsers youruser" },
        SshCheck { directive: "MaxAuthTries", severity: Severity::Medium, description: "No MaxAuthTries set — unlimited auth attempts per connection", remediation: "Set: MaxAuthTries 3" },
        SshCheck { directive: "ClientAliveInterval", severity: Severity::Low, description: "No idle timeout set — stale SSH sessions accumulate", remediation: "Set: ClientAliveInterval 300\nSet: ClientAliveCountMax 2" },
        SshCheck { directive: "UsePAM", severity: Severity::Medium, description: "PAM is enabled for SSH — configuration depends on PAM modules", remediation: "Ensure PAM is configured correctly. Consider disabling if not needed." },
        SshCheck { directive: "X11Forwarding", severity: Severity::Medium, description: "X11 forwarding may be enabled — potential security risk", remediation: "Set: X11Forwarding no" },
    ];
    assert(r@.map_values(|c: SshCheck| c@) =~= ssh_check_table());
    r
}


/// Whether the value found, or `default` when none was, is exactly `lit`.
fn value_is(v: &Option<String>, default: &str, lit: &str) -> (b: bool)
    ensures
        b == (value_or(opt_view(*v), default@) == lit@),
{
    match v {
        Some(x) => {
            let xc = chars_of(x.as_str());
            eq_text(xc.as_slice(), lit)
        },
        None => {
            let dc = chars_of(default);
            eq_text(dc.as_slice(), lit)
        },
    }
}

fn is_dangerous(idx: usize, v: &Option<String>) -> (b: bool)
    ensures
        b == ssh_dangerous(idx as int, opt_view(*v)),
{
    if idx == 0 {
        !value_is(v, "prohibit-password", "no")
    } else if idx == 1 {
        !value_is(v, "yes", "no")
    } else if idx == 2 {
        !value_is(v, "yes", "yes")
    } else if idx == 3 {
        v.is_some()
    } else if 4 <= idx && idx <= 6 {
        v.is_none()
    } else if idx == 7 {
        value_is(v, "yes", "yes")
    } else if idx == 8 {
        !value_is(v, "no", "no")
    } else {
        false
    }
}

/// The finding, if any, for the check `c` at position `idx` of the table.
pub open spec fn ssh_check_finding(c: SshCheckView, idx: int, config: Seq<char>) -> Seq<FindingView> {
    let v = directive_value(config, c.directive);
    if ssh_dangerous(idx, v) {
        seq![
            raw_finding(
                Category::Ssh,
                c.severity,
                "SSH: "@ + c.directive + " is misconfigured"@,
                c.description,
                c.remediation,
                RawView::SshDirective { directive: c.directive, current: value_or(v, seq![]) },
            ),
        ]
    } else if v is Some {
        seq![
            plain_finding(
                Category::Ssh,
                Severity::Info,
                "SSH: "@ + c.directive + " = "@ + v->0,
                "SSH directive '"@ + c.directive + "' is set to recommended value."@,
                "No action needed."@,
            ),
        ]
    } else {
        seq![]
    }
}

/// The findings of the first `n` checks of the table, in table order.
pub open spec fn ssh_directive_findings(config: Seq<char>, n: nat) -> Seq<FindingView>
    decreases n,
{
    if n == 0 {
        seq![]
    } else {
        ssh_directive_findings(config, (n - 1) as nat) + ssh_check_finding(
            ssh_check_table()[n - 1],
            n - 1,
            config,
        )
    }
}

fn check_finding(c: &SshCheck, idx: usize, config: &str, out: &mut Vec<Finding>)
    ensures
        finding_views(final(out)@) == finding_views(old(out)@) + ssh_check_finding(c@, idx as int, config@),
{
    let found = find_value(config, c.directive);
    let ghost v = opt_view(found);
    let ghost prev = old(out)@;
    if is_dangerous(idx, &found) {
        let title = String::from_str("SSH: ").concat(c.directive).concat(" is misconfigured");
        let current = match &found {
            Some(x) => x.clone(),
            None => String::new(),
        };
        let raw = RawData::SshDirective { directive: String::from_str(c.directive), current };
        let f = new_raw_finding(
            Category::Ssh,
            c.severity,
            title,
            String::from_str(c.description),
            String::from_str(c.remediation),
            raw,
        );
        out.push(f);
    } else {
        match found {
            Some(val) => {
                let title = String::from_str("SSH: ").concat(c.directive).concat(" = ").concat(
                    val.as_str(),
                );
                let desc = String::from_str("SSH directive '").concat(c.directive).concat(
                    "' is set to recommended value.",
                );
                let f = new_finding(
                    Category::Ssh,
                    Severity::Info,
                    title,
                    desc,
                    String::from_str("No action needed."),
                );
                out.push(f);
            },
            None => {},
        }
    }
    assert(finding_views(out@) =~= finding_views(prev) + ssh_check_finding(c@, idx as int, config@));
}

/// A line of `authorized_keys` that holds a key: not a comment, not blank.
pub open spec fn is_key_line(l: Seq<char>) -> bool {
    !(l.len() > 0 && l[0] == '#') && trim(l).len() > 0
}

/// How many of the lines hold a key.
pub open spec fn count_key_lines(ls: Seq<Seq<char>>) -> nat
    decreases ls.len(),
{
    if ls.len() == 0 {
        0
    } else {
        count_key_lines(ls.drop_last()) + if is_key_line(ls.last()) {
            1nat
        } else {
            0nat
        }
    }
}

fn count_keys(content: &str) -> (n: usize)
    ensures
        n == count_key_lines(lines(content@)),
{
    let cc = chars_of(content);
    let ls = split_lines(cc.as_slice());
    let ghost all = seqs_of(ls@);
    let mut n: usize = 0;
    let mut i: usize = 0;
    while i < ls.len()
        invariant
            i <= ls@.len(),
            all == seqs_of(ls@),
            n == count_key_lines(all.take(i as int)),
            n <= i,
        decreases ls@.len() - i,
    {
        assert(all.take(i + 1).drop_last() == all.take(i as int));
        assert(all.take(i + 1).last() == ls@[i as int]@);
        let line = &ls[i];
        let comment = line.len() > 0 && line[0] == '#';
        let t = trim_chars(line.as_slice());
        if !comment && t.len() > 0 {
            n += 1;
        }
        i += 1;
    }
    assert(all.take(ls@.len() as int) == all);
    n
}

/// The `authorized_keys` file found: where it is, and what it holds when it
/// could be read.
pub struct AuthorizedKeys {
    pub path: String,
    pub content: Option<String>,
}

/// The finding on the authorized keys: how many keys the file holds (none
/// when it could not be read).
pub open spec fn authorized_keys_finding(path: Seq<char>, content: Option<Seq<char>>) -> FindingView {
    let n = match content {
        Some(c) => count_key_lines(lines(c)),
        None => 0,
    };
    raw_finding(
        Category::Ssh,
        Severity::Info,
        decimal(n) + " SSH keys configured (authorized_keys)"@,
        "Authorized keys file at: "@ + path,
        "Review authorized keys regularly. Remove unused keys."@,
        RawView::KeyCount(n as u64),
    )
}

/// All SSH findings: a single finding when no configuration was found;
/// otherwise one per table check that has something to say, then the
/// authorized keys finding when that file exists.
pub open spec fn ssh_findings(
    config: Option<Seq<char>>,
    keys: Option<(Seq<char>, Option<Seq<char>>)>,
) -> Seq<FindingView> {
    match config {
        None => seq![
            plain_finding(
                Category::Ssh,
                Severity::High,
                "SSH config not found"@,
                "Cannot locate sshd_config. SSH may not be installed or config is in unexpected location."@,
                "Ensure OpenSSH server is installed: sudo apt install openssh-server"@,
            ),
        ],
        Some(c) => ssh_directive_findings(c, 9) + match keys {
            Some((p, k)) => seq![authorized_keys_finding(p, k)],
            None => seq![],
        },
    }
}

pub open spec fn keys_view(k: Option<AuthorizedKeys>) -> Option<(Seq<char>, Option<Seq<char>>)> {
    match k {
        Some(a) => Some((a.path@, opt_view(a.content))),
        None => None,
    }
}

proof fn lemma_ssh_directive_category(config: Seq<char>, n: nat)
    ensures
        all_in_category(ssh_directive_findings(config, n), Category::Ssh),
    decreases n,
{
    if n > 0 {
        lemma_ssh_directive_category(config, (n - 1) as nat);
        lemma_all_in_category_concat(
            ssh_directive_findings(config, (n - 1) as nat),
            ssh_check_finding(ssh_check_table()[n - 1], n - 1, config),
            Category::Ssh,
        );
    }
}

/// Every finding of the SSH audit is in the SSH category.
pub proof fn law_ssh_findings_category(
    config: Option<Seq<char>>,
    keys: Option<(Seq<char>, Option<Seq<char>>)>,
)
    ensures
        all_in_category(ssh_findings(config, keys), Category::Ssh),
{
    if let Some(c) = config {
        lemma_ssh_directive_category(c, 9);
        let tail = match keys {
            Some((p, k)) => seq![authorized_keys_finding(p, k)],
            None => Seq::<FindingView>::empty(),
        };
        lemma_all_in_category_concat(ssh_directive_findings(c, 9), tail, Category::Ssh);
    }
}

proof fn lemma_key_lines_filter(ls: Seq<Seq<char>>)
    ensures
        count_key_lines(ls) == ls.filter(
            |l: Seq<char>| !(l.len() > 0 && l[0] == '#') && trim(l).len() > 0,
        ).len(),
    decreases ls.len(),
{
    reveal(Seq::filter);
    if ls.len() > 0 {
        lemma_key_lines_filter(ls.drop_last());
    }
}

/// The authorized keys finding counts the lines of the file that are
/// neither blank nor comments (starting with `#`), zero when the file could
/// not be read, and names the file.
pub proof fn law_authorized_keys_count(path: Seq<char>, content: Option<Seq<char>>)
    ensures
        ({
            let n = match content {
                Some(c) => lines(c).filter(
                    |l: Seq<char>| !(l.len() > 0 && l[0] == '#') && trim(l).len() > 0,
                ).len(),
                None => 0,
            };
            &&& authorized_keys_finding(path, content).title == decimal(n)
                + " SSH keys configured (authorized_keys)"@
            &&& authorized_keys_finding(path, content).description == "Authorized keys file at: "@
                + path
            &&& authorized_keys_finding(path, content).raw == Some(RawView::KeyCount(n as u64))
        }),
{
    if let Some(c) = content {
        lemma_key_lines_filter(lines(c));
    }
}

/// Without a configuration there is one high finding and nothing else;
/// with one, the authorized keys finding, when the file exists, comes last,
/// after the directive findings.
pub proof fn law_ssh_shape(c: Seq<char>, path: Seq<char>, content: Option<Seq<char>>, keys: Option<(Seq<char>, Option<Seq<char>>)>)
    ensures
        ssh_findings(None, keys).len() == 1,
        ssh_findings(None, keys)[0].severity == Severity::High,
        ssh_findings(None, keys)[0].title == "SSH config not found"@,
        ssh_findings(Some(c), Some((path, content))) == ssh_findings(Some(c), None).push(
            authorized_keys_finding(path, content),
        ),
{
    assert(ssh_findings(Some(c), None) =~= ssh_directive_findings(c, 9));
}

/// What a directive whose value in the configuration is `v` contributes,
/// when `risky` says whether that value (or the daemon's default) is a
/// risk: a finding of severity `sev` that names the directive as
/// misconfigured and carries the value found (empty when there is none);
/// otherwise an informational note on the value found, and nothing when the
/// directive is absent.
pub open spec fn directive_outcome(
    d: Seq<char>,
    v: Option<Seq<char>>,
    risky: bool,
    sev: Severity,
    desc: Seq<char>,
    fix: Seq<char>,
) -> Seq<FindingView> {
    if risky {
        seq![
            FindingView {
                category: Category::Ssh,
                severity: sev,
                title: "SSH: "@ + d + " is misconfigured"@,
                description: desc,
                remediation: fix,
                raw: Some(RawView::SshDirective { directive: d, current: value_or(v, seq![]) }),
            },
        ]
    } else {
        match v {
            Some(x) => seq![
                FindingView {
                    category: Category::Ssh,
                    severity: Severity::Info,
                    title: "SSH: "@ + d + " = "@ + x,
                    description: "SSH directive '"@ + d + "' is set to recommended value."@,
                    remediation: "No action needed."@,
                    raw: None,
                },
            ],
            None => seq![],
        }
    }
}

/// The rules of the SSH audit, directive by directive and in this order:
/// `PermitRootLogin` is a risk unless it is `no` (default
/// `prohibit-password`); `PasswordAuthentication` unless it is `no`
/// (default `yes`); `PubkeyAuthentication` unless it is `yes` (default
/// `yes`); `Port` whenever a value is given; `AllowUsers`, `MaxAuthTries`
/// and `ClientAliveInterval` when they are absent; `UsePAM` when it is
/// `yes` (default `yes`); `X11Forwarding` unless it is `no` (default `no`).
/// The value of a directive is the one the first line giving it assigns.
pub proof fn law_ssh_directive_rules(c: Seq<char>)
    ensures
        ssh_findings(Some(c), None) ==
            directive_outcome("PermitRootLogin"@, directive_value(c, "PermitRootLogin"@),
                value_or(directive_value(c, "PermitRootLogin"@), "prohibit-password"@) != "no"@,
                Severity::Critical, "Root login via SSH is enabled (or not explicitly denied)"@,
                "Set: PermitRootLogin no"@)
            + directive_outcome("PasswordAuthentication"@, directive_value(c, "PasswordAuthentication"@),
                value_or(directive_value(c, "PasswordAuthentication"@), "yes"@) != "no"@,
                Severity::Critical, "Password authentication for SSH is enabled — brute force risk"@,
                "Set: PasswordAuthentication no\nThen restart SSH and use only SSH keys."@)
            + directive_outcome("PubkeyAuthentication"@, directive_value(c, "PubkeyAuthentication"@),
                value_or(directive_value(c, "PubkeyAuthentication"@), "yes"@) != "yes"@,
                Severity::High, "Public key authentication should be explicitly enabled"@,
                "Set: PubkeyAuthentication yes"@)
            + directive_outcome("Port"@, directive_value(c, "Port"@),
                directive_value(c, "Port"@) is Some,
                Severity::Low, "SSH running on default port 22 — automated attacks target this"@,
                "Consider changing to a non-standard port: Port 2222\nEnsure firewall allows the new port."@)
            + directive_outcome("AllowUsers"@, directive_value(c, "AllowUsers"@),
                directive_value(c, "AllowUsers"@) is None,
                Severity::Medium, "No AllowUsers restriction — any valid user can SSH"@,
                "Restrict to specific users: AllowUsers youruser"@)
            + directive_outcome("MaxAuthTries"@, directive_value(c, "MaxAuthTries"@),
                directive_value(c, "MaxAuthTries"@) is None,
                Severity::Medium, "No MaxAuthTries set — unlimited auth attempts per connection"@,
                "Set: MaxAuthTries 3"@)
            + directive_outcome("ClientAliveInterval"@, directive_value(c, "ClientAliveInterval"@),
                directive_value(c, "ClientAliveInterval"@) is None,
                Severity::Low, "No idle timeout set — stale SSH sessions accumulate"@,
                "Set: ClientAliveInterval 300\nSet: ClientAliveCountMax 2"@)
            + directive_outcome("UsePAM"@, directive_value(c, "UsePAM"@),
                value_or(directive_value(c, "UsePAM"@), "yes"@) == "yes"@,
                Severity::Medium, "PAM is enabled for SSH — configuration depends on PAM modules"@,
                "Ensure PAM is configured correctly. Consider disabling if not needed."@)
            + directive_outcome("X11Forwarding"@, directive_value(c, "X11Forwarding"@),
                value_or(directive_value(c, "X11Forwarding"@), "no"@) != "no"@,
                Severity::Medium, "X11 forwarding may be enabled — potential security risk"@,
                "Set: X11Forwarding no"@),
{
    reveal_with_fuel(ssh_directive_findings, 10);
    let t = ssh_check_table();
    assert(ssh_directive_findings(c, 9) =~= ssh_check_finding(t[0], 0, c) + ssh_check_finding(t[1], 1, c)
        + ssh_check_finding(t[2], 2, c) + ssh_check_finding(t[3], 3, c) + ssh_check_finding(t[4], 4, c)
        + ssh_check_finding(t[5], 5, c) + ssh_check_finding(t[6], 6, c) + ssh_check_finding(t[7], 7, c)
        + ssh_check_finding(t[8], 8, c));
    assert(ssh_findings(Some(c), None) =~= ssh_directive_findings(c, 9));
}

/// `X11Forwarding` is judged on its value, `no` when absent: any other
/// value gives a medium finding that names it as misconfigured and carries
/// the value, and `no` given explicitly is reported as recommended.
pub proof fn law_ssh_x11_forwarding(c: Seq<char>, keys: Option<(Seq<char>, Option<Seq<char>>)>)
    ensures
        value_or(directive_value(c, "X11Forwarding"@), "no"@) != "no"@ ==> ssh_findings(Some(c), keys).contains(
            FindingView {
                category: Category::Ssh,
                severity: Severity::Medium,
                title: "SSH: X11Forwarding is misconfigured"@,
                description: "X11 forwarding may be enabled — potential security risk"@,
                remediation: "Set: X11Forwarding no"@,
                raw: Some(RawView::SshDirective {
                    directive: "X11Forwarding"@,
                    current: value_or(directive_value(c, "X11Forwarding"@), seq![]),
                }),
            },
        ),
        directive_value(c, "X11Forwarding"@) == Some("no"@) ==> ssh_findings(Some(c), keys).contains(
            FindingView {
                category: Category::Ssh,
                severity: Severity::Info,
                title: "SSH: X11Forwarding = no"@,
                description: "SSH directive 'X11Forwarding' is set to recommended value."@,
                remediation: "No action needed."@,
                raw: None,
            },
        ),
{
    let f = ssh_findings(Some(c), keys);
    let head = ssh_directive_findings(c, 8);
    let row = ssh_check_finding(ssh_check_table()[8], 8, c);
    assert(ssh_directive_findings(c, 9) == head + row);
    let tail = match keys {
        Some((p, k)) => seq![authorized_keys_finding(p, k)],
        None => Seq::<FindingView>::empty(),
    };
    assert(f == head + row + tail);
    let v = directive_value(c, "X11Forwarding"@);
    reveal_strlit("SSH: ");
    reveal_strlit("X11Forwarding");
    reveal_strlit(" is misconfigured");
    reveal_strlit("SSH: X11Forwarding is misconfigured");
    reveal_strlit(" = ");
    reveal_strlit("no");
    reveal_strlit("SSH: X11Forwarding = no");
    reveal_strlit("SSH directive '");
    reveal_strlit("' is set to recommended value.");
    reveal_strlit("SSH directive 'X11Forwarding' is set to recommended value.");
    assert(ssh_check_table()[8].directive == "X11Forwarding"@);
    if value_or(v, "no"@) != "no"@ {
        assert(row.len() == 1);
        assert(f[head.len() as int] == row[0]);
        assert("SSH: "@ + "X11Forwarding"@ + " is misconfigured"@ =~= "SSH: X11Forwarding is misconfigured"@);
        assert(f.contains(row[0]));
    } else if v == Some("no"@) {
        assert(row.len() == 1);
        assert(f[head.len() as int] == row[0]);
        assert("SSH: "@ + "X11Forwarding"@ + " = "@ + "no"@ =~= "SSH: X11Forwarding = no"@);
        assert("SSH directive '"@ + "X11Forwarding"@ + "' is set to recommended value."@
            =~= "SSH directive 'X11Forwarding' is set to recommended value."@);
        assert(f.contains(row[0]));
    }
}

/// The SSH auditor.
pub struct SshScanner;

impl SshScanner {
    pub fn name(&self) -> (r: &'static str)
        ensures
            r@ == "SSH Auditor"@,
    {
        "SSH Auditor"
    }

    /// The findings for an SSH daemon whose configuration text is `config`
    /// (`None` when no configuration exists), with `authorized_keys` the
    /// authorized keys file when one exists.
    pub fn findings(config: Option<String>, authorized_keys: Option<AuthorizedKeys>) -> (r: Vec<Finding>)
        ensures
            finding_views(r@) == ssh_findings(opt_view(config), keys_view(authorized_keys)),
    {
        let mut out: Vec<Finding> = Vec::new();
        match config {
            None => {
                out.push(
                    new_finding(
                        Category::Ssh,
                        Severity::High,
                        String::from_str("SSH config not found"),
                        String::from_str(
                            "Cannot locate sshd_config. SSH may not be installed or config is in unexpected location.",
                        ),
                        String::from_str(
                            "Ensure OpenSSH server is installed: sudo apt install openssh-server",
                        ),
                    ),
                );
                assert(finding_views(out@) =~= ssh_findings(None, keys_view(authorized_keys)));
                out
            },
            Some(c) => {
                let checks = ssh_checks();
                assert(checks@.len() == checks@.map_values(|x: SshCheck| x@).len());
                assert(checks@.len() == 9);
                let mut i: usize = 0;
                assert(finding_views(out@) =~= ssh_directive_findings(c@, 0));
                while i < checks.len()
                    invariant
                        i <= checks@.len(),
                        checks@.map_values(|x: SshCheck| x@) == ssh_check_table(),
                        finding_views(out@) == ssh_directive_findings(c@, i as nat),
                    decreases checks@.len() - i,
                {
                    assert(checks@[i as int]@ == ssh_check_table()[i as int]);
                    check_finding(&checks[i], i, c.as_str(), &mut out);
                    i += 1;
                }
                let ghost before = out@;
                match authorized_keys {
                    Some(k) => {
                        let n: usize = match &k.content {
                            Some(text) => count_keys(text.as_str()),
                            None => 0,
                        };
                        let title = decimal_string(n as u64).concat(
                            " SSH keys configured (authorized_keys)",
                        );
                        let desc = String::from_str("Authorized keys file at: ").concat(
                            k.path.as_str(),
                        );
                        out.push(
                            new_raw_finding(
                                Category::Ssh,
                                Severity::Info,
                                title,
                                desc,
                                String::from_str(
                                    "Review authorized keys regularly. Remove unused keys.",
                                ),
                                RawData::KeyCount(n as u64),
                            ),
                        );
                        assert(finding_views(out@) =~= finding_views(before) + seq![
                            authorized_keys_finding(k.path@, opt_view(k.content)),
                        ]);
                    },
                    None => {
                        assert(finding_views(out@) =~= finding_views(before) + Seq::<
                            FindingView,
                        >::empty());
                    },
                }
                out
            },
        }
    }
}

} // verus!
