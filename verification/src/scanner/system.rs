//! The host audit: firewall state, root disk usage, memory usage and IP
//! forwarding.

use vstd::prelude::*;
use crate::report::{
    all_in_category, finding_views, new_finding, new_raw_finding, plain_finding, raw_finding, Category, Finding,
    FindingView, RawData, RawView, Severity,
};
use crate::text::{
    chars_of, contains, decimal, decimal_string, digit, eq_text, lines, opt_view, seqs_of, split_lines,
    split_words, string_of, text_contains, trim, trim_chars, trim_end_char, trim_end_char_chars,
    trim_str, words,
};

verus! {

/// The finding on the firewall, from the output of `ufw status`, or `None`
/// when `ufw` could not be run.
pub open spec fn ufw_finding_spec(status: Option<Seq<char>>) -> FindingView {
    match status {
        Some(s) => if contains(s, "inactive"@) || s.len() == 0 {
            raw_finding(
                Category::System,
                Severity::High,
                "Firewall is inactive"@,
                "UFW firewall is not enabled. Server has open ports with no firewall rules."@,
                "Enable UFW: sudo ufw default deny incoming, sudo ufw default allow outgoing, sudo ufw allow ssh, sudo ufw enable"@,
                RawView::UfwStatus(trim(s)),
            )
        } else {
            plain_finding(
                Category::System,
                Severity::Info,
                "Firewall is active"@,
                "UFW status:\n"@ + s,
                "Review firewall rules periodically."@,
            )
        },
        None => plain_finding(
            Category::System,
            Severity::Info,
            "UFW not installed"@,
            "UFW firewall not found on system."@,
            "Consider installing UFW: sudo apt install ufw"@,
        ),
    }
}

/// The firewall finding for the given `ufw status` output.
pub fn ufw_finding(status: Option<String>) -> (r: Finding)
    ensures
        r@ == ufw_finding_spec(opt_view(status)),
{
    match status {
        Some(s) => {
            let sc = chars_of(s.as_str());
            if text_contains(s.as_str(), "inactive") || sc.len() == 0 {
                let t = trim_str(s.as_str());
                new_raw_finding(
                    Category::System,
                    Severity::High,
                    String::from_str("Firewall is inactive"),
                    String::from_str(
                        "UFW firewall is not enabled. Server has open ports with no firewall rules.",
                    ),
                    String::from_str(
                        "Enable UFW: sudo ufw default deny incoming, sudo ufw default allow outgoing, sudo ufw allow ssh, sudo ufw enable",
                    ),
                    RawData::UfwStatus(t),
                )
            } else {
                new_finding(
                    Category::System,
                    Severity::Info,
                    String::from_str("Firewall is active"),
                    String::from_str("UFW status:\n").concat(s.as_str()),
                    String::from_str("Review firewall rules periodically."),
                )
            }
        },
        None => new_finding(
            Category::System,
            Severity::Info,
            String::from_str("UFW not installed"),
            String::from_str("UFW firewall not found on system."),
            String::from_str("Consider installing UFW: sudo apt install ufw"),
        ),
    }
}

pub open spec fn is_digit(c: char) -> bool {
    48 <= (c as u32) && (c as u32) <= 57
}

/// The number that a string of decimal digits spells.
pub open spec fn digits_value(s: Seq<char>) -> nat
    decreases s.len(),
{
    if s.len() == 0 {
        0
    } else {
        digits_value(s.drop_last()) * 10 + ((s.last() as u32) - 48) as nat
    }
}

/// The text after an optional leading `+`.
pub open spec fn unsigned_digits(s: Seq<char>) -> Seq<char> {
    if s.len() > 0 && s[0] == '+' {
        s.drop_first()
    } else {
        s
    }
}

pub open spec fn all_digits(d: Seq<char>) -> bool {
    forall|i: int| 0 <= i < d.len() ==> is_digit(#[trigger] d[i])
}

/// An unsigned byte read from text as `str::parse::<u8>` reads it: an
/// optional `+`, then at least one decimal digit, with a value up to 255.
pub open spec fn parse_u8(s: Seq<char>) -> Option<u8> {
    let d = unsigned_digits(s);
    if d.len() == 0 || !all_digits(d) || digits_value(d) > 255 {
        None
    } else {
        Some(digits_value(d) as u8)
    }
}

pub open spec fn cap256(n: nat) -> nat {
    if n > 256 {
        256
    } else {
        n
    }
}

/// Reads an unsigned byte from the characters.
pub fn parse_u8_chars(s: &[char]) -> (r: Option<u8>)
    ensures
        r == parse_u8(s@),
{
    let start: usize = if s.len() > 0 && s[0] == '+' {
        1
    } else {
        0
    };
    let ghost d = s@.skip(start as int);
    assert(d == unsigned_digits(s@));
    if start == s.len() {
        return None;
    }
    let mut acc: u32 = 0;
    let mut k: usize = start;
    while k < s.len()
        invariant
            start <= k <= s@.len(),
            d == s@.skip(start as int),
            d == unsigned_digits(s@),
            acc == cap256(digits_value(d.take(k - start))),
            forall|i: int| 0 <= i < k - start ==> is_digit(#[trigger] d[i]),
        decreases s@.len() - k,
    {
        let c = s[k];
        let n: u32 = c as u32;
        assert(d[k - start] == c);
        if n < 48 || n > 57 {
            assert(!is_digit(d[k - start]));
            return None;
        }
        assert(d.take(k - start + 1).drop_last() == d.take(k - start));
        assert(d.take(k - start + 1).last() == c);
        let next: u32 = acc * 10 + (n - 48);
        acc = if next > 256 {
            256
        } else {
            next
        };
        k += 1;
    }
    assert(d.take(s@.len() - start) == d);
    if acc > 255 {
        None
    } else {
        Some(acc as u8)
    }
}

/// The severity and message for a root disk usage percentage.
pub open spec fn disk_level(u: u8) -> (Severity, Seq<char>) {
    if u <= 50 {
        (Severity::Info, "Disk usage is healthy."@)
    } else if u <= 80 {
        (Severity::Low, "Disk usage is moderate."@)
    } else if u <= 90 {
        (Severity::Medium, "Disk usage is concerning."@)
    } else if u <= 95 {
        (Severity::High, "Disk is nearly full!"@)
    } else {
        (Severity::Critical, "Disk is critically full!"@)
    }
}

/// The usage percentage that `df -h /` reports: the fifth column of the
/// second line, without its `%` signs, when it reads as a byte.
pub open spec fn disk_usage(df: Seq<char>) -> Option<u8> {
    let ls = lines(df);
    if ls.len() > 1 && words(ls[1]).len() >= 5 {
        parse_u8(trim_end_char(words(ls[1])[4], '%'))
    } else {
        None
    }
}

/// The disk finding for a `df -h /` output, when a usage could be read.
pub open spec fn disk_finding_spec(df: Seq<char>) -> Option<FindingView> {
    match disk_usage(df) {
        Some(u) => Some(
            raw_finding(
                Category::System,
                disk_level(u).0,
                "Root disk usage: "@ + decimal(u as nat) + "%"@,
                disk_level(u).1,
                "Clean up old logs, Docker images, or unused packages. Consider expanding disk."@,
                RawView::DiskUsage(u),
            ),
        ),
        None => None,
    }
}

/// The disk usage finding for the output of `df -h /`.
pub fn disk_finding(df: &str) -> (r: Option<Finding>)
    ensures
        match r {
            Some(f) => disk_finding_spec(df@) == Some(f@),
            None => disk_finding_spec(df@) is None,
        },
{
    let dc = chars_of(df);
    let ls = split_lines(dc.as_slice());
    if ls.len() <= 1 {
        return None;
    }
    assert(seqs_of(ls@)[1] == ls@[1]@);
    let parts = split_words(ls[1].as_slice());
    if parts.len() < 5 {
        return None;
    }
    assert(seqs_of(parts@)[4] == parts@[4]@);
    let pct = trim_end_char_chars(parts[4].as_slice(), '%');
    match parse_u8_chars(pct.as_slice()) {
        None => None,
        Some(u) => {
            let (sev, msg) = if u <= 50 {
                (Severity::Info, "Disk usage is healthy.")
            } else if u <= 80 {
                (Severity::Low, "Disk usage is moderate.")
            } else if u <= 90 {
                (Severity::Medium, "Disk usage is concerning.")
            } else if u <= 95 {
                (Severity::High, "Disk is nearly full!")
            } else {
                (Severity::Critical, "Disk is critically full!")
            };
            let title = String::from_str("Root disk usage: ").concat(
                decimal_string(u as u64).as_str(),
            ).concat("%");
            Some(
                new_raw_finding(
                    Category::System,
                    sev,
                    title,
                    String::from_str(msg),
                    String::from_str(
                        "Clean up old logs, Docker images, or unused packages. Consider expanding disk.",
                    ),
                    RawData::DiskUsage(u),
                ),
            )
        },
    }
}

/// The total and available megabytes as `free -m` prints them.
pub struct MemoryColumns {
    pub total: String,
    pub available: String,
}

/// The memory columns of a `free -m` output: the second and seventh words
/// of its second line. There are none, and so no memory finding, when that
/// line is missing or has fewer than seven words.
pub fn memory_columns(free: &str) -> (r: Option<MemoryColumns>)
    ensures
        ({
            let ls = lines(free@);
            match r {
                None => !(ls.len() > 1 && words(ls[1]).len() >= 7),
                Some(c) => ls.len() > 1 && words(ls[1]).len() >= 7 && c.total@ == words(ls[1])[1]
                    && c.available@ == words(ls[1])[6],
            }
        }),
{
    let fc = chars_of(free);
    let ls = split_lines(fc.as_slice());
    if ls.len() <= 1 {
        return None;
    }
    assert(seqs_of(ls@)[1] == ls@[1]@);
    let parts = split_words(ls[1].as_slice());
    if parts.len() < 7 {
        return None;
    }
    assert(seqs_of(parts@)[1] == parts@[1]@);
    assert(seqs_of(parts@)[6] == parts@[6]@);
    Some(
        MemoryColumns {
            total: string_of(parts[1].as_slice()),
            available: string_of(parts[6].as_slice()),
        },
    )
}

/// The severity and message for a memory usage percentage.
pub open spec fn memory_level(pct: u8) -> (Severity, Seq<char>) {
    if pct <= 50 {
        (Severity::Info, "Memory usage is healthy."@)
    } else if pct <= 75 {
        (Severity::Low, "Memory usage is elevated."@)
    } else if pct <= 90 {
        (Severity::Medium, "Memory usage is high."@)
    } else {
        (Severity::High, "Memory is critically low!"@)
    }
}

/// A memory reading: the usage percentage, the used and total megabytes as
/// rendered for the title, and the total and available megabytes as numbers
/// in decimal text for the raw details.
pub struct MemoryUsage {
    pub pct: u8,
    pub used_mb: String,
    pub total_mb: String,
    pub total_value: String,
    pub available_value: String,
}

/// The memory finding for a reading.
pub open spec fn memory_finding_spec(
    pct: u8,
    used_mb: Seq<char>,
    total_mb: Seq<char>,
    total_value: Seq<char>,
    available_value: Seq<char>,
) -> FindingView {
    raw_finding(
        Category::System,
        memory_level(pct).0,
        "Memory usage: "@ + decimal(pct as nat) + "% ("@ + used_mb + "MB / "@ + total_mb + "MB)"@,
        memory_level(pct).1,
        "Close unused services. Consider adding swap or upgrading RAM."@,
        RawView::Memory { total_mb: total_value, available_mb: available_value, used_pct: pct },
    )
}

/// The memory finding for a usage percentage, with the used and total
/// megabytes as rendered for the title, and the total and available
/// megabytes as numbers in decimal text for the raw details.
pub fn memory_finding(
    pct: u8,
    used_mb: &str,
    total_mb: &str,
    total_value: String,
    available_value: String,
) -> (r: Finding)
    ensures
        r@ == memory_finding_spec(pct, used_mb@, total_mb@, total_value@, available_value@),
{
    let (sev, msg) = if pct <= 50 {
        (Severity::Info, "Memory usage is healthy.")
    } else if pct <= 75 {
        (Severity::Low, "Memory usage is elevated.")
    } else if pct <= 90 {
        (Severity::Medium, "Memory usage is high.")
    } else {
        (Severity::High, "Memory is critically low!")
    };
    let title = String::from_str("Memory usage: ").concat(decimal_string(pct as u64).as_str()).concat(
        "% (",
    ).concat(used_mb).concat("MB / ").concat(total_mb).concat("MB)");
    new_raw_finding(
        Category::System,
        sev,
        title,
        String::from_str(msg),
        String::from_str("Close unused services. Consider adding swap or upgrading RAM."),
        RawData::Memory { total_mb: total_value, available_mb: available_value, used_pct: pct },
    )
}

/// The IP forwarding finding, raised when `sysctl -n net.ipv4.ip_forward`
/// prints `1`.
pub open spec fn ip_forward_finding_spec(out: Seq<char>) -> Option<FindingView> {
    if trim(out) == "1"@ {
        Some(
            plain_finding(
                Category::System,
                Severity::Medium,
                "IP forwarding is enabled"@,
                "net.ipv4.ip_forward = 1. This allows the server to act as a router."@,
                "Disable if not needed: sudo sysctl -w net.ipv4.ip_forward=0"@,
            ),
        )
    } else {
        None
    }
}

/// The IP forwarding finding for the output of `sysctl`.
pub fn ip_forward_finding(out: &str) -> (r: Option<Finding>)
    ensures
        match r {
            Some(f) => ip_forward_finding_spec(out@) == Some(f@),
            None => ip_forward_finding_spec(out@) is None,
        },
{
    let oc = chars_of(out);
    let t = trim_chars(oc.as_slice());
    if eq_text(t.as_slice(), "1") {
        Some(
            new_finding(
                Category::System,
                Severity::Medium,
                String::from_str("IP forwarding is enabled"),
                String::from_str(
                    "net.ipv4.ip_forward = 1. This allows the server to act as a router.",
                ),
                String::from_str("Disable if not needed: sudo sysctl -w net.ipv4.ip_forward=0"),
            ),
        )
    } else {
        None
    }
}

/// An optional finding as a list of at most one.
pub open spec fn opt_seq(f: Option<FindingView>) -> Seq<FindingView> {
    match f {
        Some(x) => seq![x],
        None => seq![],
    }
}

pub open spec fn memory_usage_view(m: Option<MemoryUsage>) -> Option<FindingView> {
    match m {
        Some(u) => Some(
            memory_finding_spec(
                u.pct,
                u.used_mb@,
                u.total_mb@,
                u.total_value@,
                u.available_value@,
            ),
        ),
        None => None,
    }
}

/// All host findings, in order: the firewall, the root disk when `df` ran
/// and gave a usage, the memory when a reading was taken, and IP forwarding
/// when `sysctl` ran and reported it on.
pub open spec fn system_findings(
    ufw: Option<Seq<char>>,
    df: Option<Seq<char>>,
    memory: Option<FindingView>,
    sysctl: Option<Seq<char>>,
) -> Seq<FindingView> {
    seq![ufw_finding_spec(ufw)] + opt_seq(
        match df {
            Some(d) => disk_finding_spec(d),
            None => None,
        },
    ) + opt_seq(memory) + opt_seq(
        match sysctl {
            Some(o) => ip_forward_finding_spec(o),
            None => None,
        },
    )
}

proof fn lemma_digit(d: nat)
    requires
        d < 10,
    ensures
        is_digit(digit(d)),
        (digit(d) as u32) - 48 == d,
{
}

proof fn lemma_decimal_digits(n: nat)
    ensures
        decimal(n).len() > 0,
        all_digits(decimal(n)),
        digits_value(decimal(n)) == n,
    decreases n,
{
    if n < 10 {
        lemma_digit(n);
        assert(decimal(n).drop_last() =~= Seq::<char>::empty());
        assert(digits_value(decimal(n).drop_last()) == 0);
        assert(decimal(n).last() == digit(n));
        assert(digits_value(decimal(n)) == n);
    } else {
        lemma_decimal_digits(n / 10);
        lemma_digit(n % 10);
        let d = decimal(n);
        assert(d.drop_last() == decimal(n / 10));
        assert forall|i: int| 0 <= i < d.len() implies is_digit(#[trigger] d[i]) by {
            if i < d.len() - 1 {
                assert(d[i] == decimal(n / 10)[i]);
            }
        }
        assert(d.last() == digit(n % 10));
        assert(n == (n / 10) * 10 + n % 10) by (nonlinear_arith);
        assert(digits_value(d) == digits_value(d.drop_last()) * 10 + ((d.last() as u32) - 48) as nat);
        assert(digits_value(d) == n);
    }
}

/// Reading a byte back from its decimal text gives the byte: the usage
/// percentages that the audit prints are those it reads.
pub proof fn law_parse_reads_decimal(u: u8)
    ensures
        parse_u8(decimal(u as nat)) == Some(u),
{
    lemma_decimal_digits(u as nat);
    assert(decimal(u as nat)[0] != '+') by {
        assert(is_digit(decimal(u as nat)[0]));
    }
    assert(unsigned_digits(decimal(u as nat)) == decimal(u as nat));
}

/// The disk usage is read from the fifth column of the second line of
/// `df`: when that column is a percentage such as `42%`, the usage is that
/// number.
pub proof fn law_disk_usage_column(df: Seq<char>, u: u8)
    requires
        lines(df).len() > 1,
        words(lines(df)[1]).len() >= 5,
        words(lines(df)[1])[4] == decimal(u as nat).push('%'),
    ensures
        disk_usage(df) == Some(u),
{
    law_parse_reads_decimal(u);
    lemma_decimal_digits(u as nat);
    let w = decimal(u as nat).push('%');
    assert(w.drop_last() =~= decimal(u as nat));
    assert(decimal(u as nat).last() != '%') by {
        assert(is_digit(decimal(u as nat)[decimal(u as nat).len() - 1]));
    }
    assert(trim_end_char(decimal(u as nat), '%') == decimal(u as nat));
    assert(trim_end_char(w, '%') == decimal(u as nat));
}

/// The firewall is reported inactive (high) when `ufw status` printed
/// nothing or said `inactive`, active (informational) when it printed
/// anything else, and not installed (informational) when it could not run.
pub proof fn law_firewall_status(status: Option<Seq<char>>)
    ensures
        ({
            let f = ufw_finding_spec(status);
            match status {
                Some(s) => if contains(s, "inactive"@) || s.len() == 0 {
                    f.severity == Severity::High && f.title == "Firewall is inactive"@
                } else {
                    f.severity == Severity::Info && f.title == "Firewall is active"@
                },
                None => f.severity == Severity::Info && f.title == "UFW not installed"@,
            }
        }),
        ufw_finding_spec(status).category == Category::System,
{
}

/// The root disk finding exists exactly when a usage percentage was read,
/// names it, and grows more severe with it: informational up to 50%, low
/// up to 80%, medium up to 90%, high up to 95%, critical above.
pub proof fn law_disk_thresholds(df: Seq<char>)
    ensures
        disk_usage(df) is None ==> disk_finding_spec(df) is None,
        disk_usage(df) matches Some(u) ==> (disk_finding_spec(df) matches Some(f) && f.title
            == "Root disk usage: "@ + decimal(u as nat) + "%"@ && f.raw == Some(RawView::DiskUsage(u))
            && f.severity == if u <= 50 {
            Severity::Info
        } else if u <= 80 {
            Severity::Low
        } else if u <= 90 {
            Severity::Medium
        } else if u <= 95 {
            Severity::High
        } else {
            Severity::Critical
        }),
{
}

/// The memory finding grows more severe with the usage: informational up
/// to 50%, low up to 75%, medium up to 90%, high above.
pub proof fn law_memory_thresholds(
    pct: u8,
    used_mb: Seq<char>,
    total_mb: Seq<char>,
    total_value: Seq<char>,
    available_value: Seq<char>,
)
    ensures
        ({
            let f = memory_finding_spec(pct, used_mb, total_mb, total_value, available_value);
            &&& f.severity == if pct <= 50 {
                Severity::Info
            } else if pct <= 75 {
                Severity::Low
            } else if pct <= 90 {
                Severity::Medium
            } else {
                Severity::High
            }
            &&& f.title == "Memory usage: "@ + decimal(pct as nat) + "% ("@ + used_mb + "MB / "@ + total_mb
                + "MB)"@
        }),
{
}

/// IP forwarding is reported, as a medium finding, exactly when `sysctl`
/// printed `1` (surrounding whitespace aside).
pub proof fn law_ip_forwarding(out: Seq<char>)
    ensures
        ip_forward_finding_spec(out) is Some <==> trim(out) == "1"@,
        ip_forward_finding_spec(out) matches Some(f) ==> f.severity == Severity::Medium && f.title
            == "IP forwarding is enabled"@,
{
}

/// The host auditor.
pub struct SystemScanner;

impl SystemScanner {
    pub fn name(&self) -> (r: &'static str)
        ensures
            r@ == "System Auditor"@,
    {
        "System Auditor"
    }

    /// The host findings from the output of `ufw status` (`None` when it
    /// could not be run), of `df -h /` and of `sysctl -n net.ipv4.ip_forward`
    /// (each `None` when it could not be run), and the memory reading taken
    /// from `free -m`, if any.
    pub fn findings(
        ufw: Option<String>,
        df: Option<String>,
        memory: Option<MemoryUsage>,
        sysctl: Option<String>,
    ) -> (r: Vec<Finding>)
        ensures
            finding_views(r@) == system_findings(
                opt_view(ufw),
                opt_view(df),
                memory_usage_view(memory),
                opt_view(sysctl),
            ),
    {
        let ghost mv = memory_usage_view(memory);
        let ghost dv = opt_view(df);
        let ghost sv = opt_view(sysctl);
        let mut out: Vec<Finding> = Vec::new();
        out.push(ufw_finding(ufw));
        let ghost s0 = finding_views(out@);
        match &df {
            Some(d) => match disk_finding(d.as_str()) {
                Some(f) => out.push(f),
                None => {},
            },
            None => {},
        }
        let ghost s1 = finding_views(out@);
        assert(s1 =~= s0 + opt_seq(
            match dv {
                Some(d) => disk_finding_spec(d),
                None => None,
            },
        ));
        match memory {
            Some(u) => out.push(
                memory_finding(
                    u.pct,
                    u.used_mb.as_str(),
                    u.total_mb.as_str(),
                    u.total_value,
                    u.available_value,
                ),
            ),
            None => {},
        }
        let ghost s2 = finding_views(out@);
        assert(s2 =~= s1 + opt_seq(mv));
        match &sysctl {
            Some(o) => match ip_forward_finding(o.as_str()) {
                Some(f) => out.push(f),
                None => {},
            },
            None => {},
        }
        assert(finding_views(out@) =~= s2 + opt_seq(
            match sv {
                Some(o) => ip_forward_finding_spec(o),
                None => None,
            },
        ));
        out
    }
}

/// Every host finding is in the system category.
pub proof fn law_system_findings_category(
    ufw: Option<Seq<char>>,
    df: Option<Seq<char>>,
    memory: Option<MemoryUsage>,
    sysctl: Option<Seq<char>>,
)
    ensures
        all_in_category(system_findings(ufw, df, memory_usage_view(memory), sysctl), Category::System),
{
    let f = system_findings(ufw, df, memory_usage_view(memory), sysctl);
    assert forall|i: int| 0 <= i < f.len() implies (#[trigger] f[i]).category == Category::System by {
    }
}

} // verus!
