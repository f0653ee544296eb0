//! The scan configuration, validated once from the answers a user gave.
use vstd::prelude::*;

verus! {

/// A validated scan configuration: both counts positive, the output path not empty.
#[derive(Clone, Debug)]
pub struct ScanSettings {
    pub concurrency: usize,
    pub timeout_secs: u64,
    pub show_only_open: bool,
    pub verbose: bool,
    pub scan_udp_enabled: bool,
    pub output_file: String,
}

impl ScanSettings {
    pub open spec fn wf(&self) -> bool {
        self.concurrency > 0 && self.timeout_secs > 0 && self.output_file@.len() > 0
    }
}

/// The first answer that could not be taken.
#[derive(Clone, Copy, Debug, PartialEq, Eq, Structural)]
pub enum SettingsError {
    Concurrency,
    Timeout,
    ShowOnlyOpen,
    Verbose,
    ScanUdp,
    OutputFile,
}

pub open spec fn is_digit(c: char) -> bool {
    '0' <= c && c <= '9'
}

pub open spec fn all_digits(s: Seq<char>) -> bool {
    forall|i: int| 0 <= i < s.len() ==> is_digit(#[trigger] s[i])
}

/// The value of a string of decimal digits.
pub open spec fn digits_value(s: Seq<char>) -> nat
    decreases s.len(),
{
    if s.len() == 0 {
        0
    } else {
        digits_value(s.drop_last()) * 10 + (s.last() as nat - '0' as nat) as nat
    }
}

/// A positive decimal count not above `max`, written as digits alone.
pub open spec fn count_of(s: Seq<char>, max: nat) -> Option<nat> {
    if s.len() > 0 && all_digits(s) && 0 < digits_value(s) <= max {
        Some(digits_value(s))
    } else {
        None
    }
}

/// `c` is the letter `lower`, in either case.
pub open spec fn letter_is(c: char, lower: char, upper: char) -> bool {
    c == lower || c == upper
}

/// A yes/no answer, in any letter case: `y` or `yes`, `n` or `no`.
pub open spec fn yes_no(s: Seq<char>) -> Option<bool> {
    if (s.len() == 1 && letter_is(s[0], 'y', 'Y')) || (s.len() == 3 && letter_is(s[0], 'y', 'Y')
        && letter_is(s[1], 'e', 'E') && letter_is(s[2], 's', 'S')) {
        Some(true)
    } else if (s.len() == 1 && letter_is(s[0], 'n', 'N')) || (s.len() == 2 && letter_is(
        s[0],
        'n',
        'N',
    ) && letter_is(s[1], 'o', 'O')) {
        Some(false)
    } else {
        None
    }
}

/// Reads a positive decimal count no larger than `max`.
pub fn parse_count(s: &str, max: u64) -> (r: Option<u64>)
    ensures
        r is None <==> count_of(s@, max as nat) is None,
        r matches Some(v) ==> count_of(s@, max as nat) == Some(v as nat),
{
    let n = s.unicode_len();
    if n == 0 {
        return None;
    }
    let mut v: u64 = 0;
    let mut i: usize = 0;
    while i < n
        invariant
            n == s@.len(),
            0 < n,
            i <= n,
            all_digits(s@.subrange(0, i as int)),
            v as nat == digits_value(s@.subrange(0, i as int)),
            v <= max,
        decreases n - i,
    {
        let c = s.get_char(i);
        let ghost pre = s@.subrange(0, i as int);
        let ghost next = s@.subrange(0, i + 1);
        assert(next.drop_last() =~= pre);
        if !('0' <= c && c <= '9') {
            assert(!all_digits(s@)) by {
                assert(!is_digit(s@[i as int]));
            }
            return None;
        }
        let d = (c as u32 - '0' as u32) as u64;
        if d > max || v > (max - d) / 10 {
            proof {
                assert(digits_value(next) == v * 10 + d);
                if d <= max {
                    assert(digits_value(next) > max) by (nonlinear_arith)
                        requires
                            v > (max - d) / 10,
                            digits_value(next) == v * 10 + d,
                            d <= max,
                    ;
                }
                lemma_value_grows(s@, i as int + 1);
            }
            return None;
        }
        proof {
            assert(v * 10 + d <= max) by (nonlinear_arith)
                requires
                    v <= (max - d) / 10,
                    d <= max,
            ;
        }
        v = v * 10 + d;
        i = i + 1;
    }
    assert(s@.subrange(0, n as int) =~= s@);
    if v == 0 {
        None
    } else {
        Some(v)
    }
}

/// A longer run of digits has at least the value of its prefix.
proof fn lemma_value_grows(s: Seq<char>, k: int)
    requires
        0 <= k <= s.len(),
    ensures
        all_digits(s) ==> digits_value(s) >= digits_value(s.subrange(0, k)),
    decreases s.len() - k,
{
    if k < s.len() {
        lemma_value_grows(s, k + 1);
        let a = s.subrange(0, k + 1);
        assert(a.drop_last() =~= s.subrange(0, k));
        if all_digits(s) {
            assert(is_digit(s[k]));
        }
    } else {
        assert(s.subrange(0, k) =~= s);
    }
}

/// Reads a yes/no answer.
pub fn parse_yes_no(s: &str) -> (r: Option<bool>)
    ensures
        r == yes_no(s@),
{
    let n = s.unicode_len();
    if n == 1 {
        let c = s.get_char(0);
        if c == 'y' || c == 'Y' {
            Some(true)
        } else if c == 'n' || c == 'N' {
            Some(false)
        } else {
            None
        }
    } else if n == 2 {
        let a = s.get_char(0);
        let b = s.get_char(1);
        if (a == 'n' || a == 'N') && (b == 'o' || b == 'O') {
            Some(false)
        } else {
            None
        }
    } else if n == 3 {
        let a = s.get_char(0);
        let b = s.get_char(1);
        let c = s.get_char(2);
        if (a == 'y' || a == 'Y') && (b == 'e' || b == 'E') && (c == 's' || c == 'S') {
            Some(true)
        } else {
            None
        }
    } else {
        None
    }
}

/// Validates the six answers, in order, into a configuration: the first answer
/// that cannot be taken names the error.
pub fn prompt_settings(
    concurrency: &str,
    timeout_secs: &str,
    show_only_open: &str,
    verbose: &str,
    scan_udp_enabled: &str,
    output_file: &str,
) -> (r: Result<ScanSettings, SettingsError>)
    ensures
        count_of(concurrency@, usize::MAX as nat) is None <==> r == Err::<ScanSettings, SettingsError>(SettingsError::Concurrency),
        count_of(concurrency@, usize::MAX as nat) is Some && count_of(timeout_secs@, u64::MAX as nat) is None
            <==> r == Err::<ScanSettings, SettingsError>(SettingsError::Timeout),
        count_of(concurrency@, usize::MAX as nat) is Some && count_of(timeout_secs@, u64::MAX as nat) is Some
            && yes_no(show_only_open@) is None <==> r == Err::<ScanSettings, SettingsError>(SettingsError::ShowOnlyOpen),
        count_of(concurrency@, usize::MAX as nat) is Some && count_of(timeout_secs@, u64::MAX as nat) is Some
            && yes_no(show_only_open@) is Some && yes_no(verbose@) is None
            <==> r == Err::<ScanSettings, SettingsError>(SettingsError::Verbose),
        count_of(concurrency@, usize::MAX as nat) is Some && count_of(timeout_secs@, u64::MAX as nat) is Some
            && yes_no(show_only_open@) is Some && yes_no(verbose@) is Some && yes_no(scan_udp_enabled@) is None
            <==> r == Err::<ScanSettings, SettingsError>(SettingsError::ScanUdp),
        count_of(concurrency@, usize::MAX as nat) is Some && count_of(timeout_secs@, u64::MAX as nat) is Some
            && yes_no(show_only_open@) is Some && yes_no(verbose@) is Some && yes_no(scan_udp_enabled@) is Some
            && output_file@.len() == 0 <==> r == Err::<ScanSettings, SettingsError>(SettingsError::OutputFile),
        r matches Ok(s) ==> s.wf() && Some(s.concurrency as nat) == count_of(concurrency@, usize::MAX as nat)
            && Some(s.timeout_secs as nat) == count_of(timeout_secs@, u64::MAX as nat)
            && Some(s.show_only_open) == yes_no(show_only_open@) && Some(s.verbose) == yes_no(verbose@)
            && Some(s.scan_udp_enabled) == yes_no(scan_udp_enabled@) && s.output_file@ == output_file@,
{
    let c = match parse_count(concurrency, usize::MAX as u64) {
        Some(v) => v as usize,
        None => return Err(SettingsError::Concurrency),
    };
    let t = match parse_count(timeout_secs, u64::MAX) {
        Some(v) => v,
        None => return Err(SettingsError::Timeout),
    };
    let o = match parse_yes_no(show_only_open) {
        Some(b) => b,
        None => return Err(SettingsError::ShowOnlyOpen),
    };
    let v = match parse_yes_no(verbose) {
        Some(b) => b,
        None => return Err(SettingsError::Verbose),
    };
    let u = match parse_yes_no(scan_udp_enabled) {
        Some(b) => b,
        None => return Err(SettingsError::ScanUdp),
    };
    if output_file.unicode_len() == 0 {
        return Err(SettingsError::OutputFile);
    }
    Ok(ScanSettings {
        concurrency: c,
        timeout_secs: t,
        show_only_open: o,
        verbose: v,
        scan_udp_enabled: u,
        output_file: String::from_str(output_file),
    })
}

} // verus!
