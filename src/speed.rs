//! Throughput values, aggregate counter snapshots, and unit-scaled rate text.
use vstd::prelude::*;

use crate::text::chars_of;

verus! {

/// Milliseconds since the Unix epoch, read from the system clock.
///
/// Relies on `std::time::SystemTime::now`; nothing is known of the value.
#[verifier::external_body]
pub(crate) fn clock_millis() -> (r: u64) {
    match std::time::SystemTime::now().duration_since(std::time::UNIX_EPOCH) {
        Ok(since_epoch) => since_epoch.as_millis() as u64,
        Err(_) => 0,
    }
}

/// Upload and download rates in bytes per second, stamped with the time
/// (milliseconds) at which they were computed.
#[derive(Clone, Copy, Debug, PartialEq, Eq, Structural)]
pub struct NetworkSpeed {
    pub upload_bytes_per_sec: u64,
    pub download_bytes_per_sec: u64,
    pub timestamp: u64,
}

pub open spec fn saturating_sum(a: u64, b: u64) -> u64 {
    if a + b > u64::MAX { u64::MAX } else { (a + b) as u64 }
}

impl NetworkSpeed {
    /// Both rates, stamped with the current clock reading.
    pub fn new(upload: u64, download: u64) -> (s: NetworkSpeed)
        ensures
            s.upload_bytes_per_sec == upload,
            s.download_bytes_per_sec == download,
    {
        NetworkSpeed { upload_bytes_per_sec: upload, download_bytes_per_sec: download, timestamp: clock_millis() }
    }

    /// Both rates, stamped with the given time.
    pub fn at(upload: u64, download: u64, timestamp: u64) -> (s: NetworkSpeed)
        ensures
            s == (NetworkSpeed { upload_bytes_per_sec: upload, download_bytes_per_sec: download, timestamp }),
    {
        NetworkSpeed { upload_bytes_per_sec: upload, download_bytes_per_sec: download, timestamp }
    }

    pub fn zero() -> (s: NetworkSpeed)
        ensures
            s.upload_bytes_per_sec == 0,
            s.download_bytes_per_sec == 0,
    {
        Self::new(0, 0)
    }

    pub open spec fn total(&self) -> u64 {
        saturating_sum(self.upload_bytes_per_sec, self.download_bytes_per_sec)
    }

    pub fn upload_formatted(&self) -> (r: String)
        ensures
            r@ == rate_text(self.upload_bytes_per_sec as nat, false),
    {
        format_bytes_per_second(self.upload_bytes_per_sec)
    }

    pub fn download_formatted(&self) -> (r: String)
        ensures
            r@ == rate_text(self.download_bytes_per_sec as nat, false),
    {
        format_bytes_per_second(self.download_bytes_per_sec)
    }

    /// The upload rate in bit units; the bit count saturates at `u64::MAX`.
    pub fn upload_bits_formatted(&self) -> (r: String)
        ensures
            r@ == rate_text(saturating_bits(self.upload_bytes_per_sec) as nat, true),
    {
        format_bits_per_second(bits_of(self.upload_bytes_per_sec))
    }

    /// The download rate in bit units; the bit count saturates at `u64::MAX`.
    pub fn download_bits_formatted(&self) -> (r: String)
        ensures
            r@ == rate_text(saturating_bits(self.download_bytes_per_sec) as nat, true),
    {
        format_bits_per_second(bits_of(self.download_bytes_per_sec))
    }

    pub fn total_bytes_per_sec(&self) -> (r: u64)
        ensures
            r == self.total(),
    {
        self.upload_bytes_per_sec.saturating_add(self.download_bytes_per_sec)
    }

    pub fn is_active(&self, threshold_bytes_per_sec: u64) -> (r: bool)
        ensures
            r == (self.total() > threshold_bytes_per_sec),
    {
        self.total_bytes_per_sec() > threshold_bytes_per_sec
    }
}

impl Default for NetworkSpeed {
    /// Zero in both directions, stamped with the current clock reading.
    fn default() -> (s: NetworkSpeed)
        ensures
            s.upload_bytes_per_sec == 0,
            s.download_bytes_per_sec == 0,
    {
        Self::zero()
    }
}

/// Aggregate byte counters over the accepted interfaces at one moment
/// (milliseconds on the clock that stamped the reading).
#[derive(Clone, Copy, Debug, PartialEq, Eq, Structural)]
pub struct InterfaceStats {
    pub bytes_sent: u64,
    pub bytes_received: u64,
    pub last_update: u64,
}

impl InterfaceStats {
    /// Both counters, stamped with the current clock reading.
    pub fn new(sent: u64, received: u64) -> (s: InterfaceStats)
        ensures
            s.bytes_sent == sent,
            s.bytes_received == received,
    {
        InterfaceStats { bytes_sent: sent, bytes_received: received, last_update: clock_millis() }
    }

    /// Both counters, stamped with the given time.
    pub fn at(sent: u64, received: u64, last_update: u64) -> (s: InterfaceStats)
        ensures
            s == (InterfaceStats { bytes_sent: sent, bytes_received: received, last_update }),
    {
        InterfaceStats { bytes_sent: sent, bytes_received: received, last_update }
    }

    pub fn total_bytes(&self) -> (r: u64)
        ensures
            r == saturating_sum(self.bytes_sent, self.bytes_received),
    {
        self.bytes_sent.saturating_add(self.bytes_received)
    }
}

impl Default for InterfaceStats {
    /// Zero counters, stamped with the current clock reading.
    fn default() -> (s: InterfaceStats)
        ensures
            s.bytes_sent == 0,
            s.bytes_received == 0,
    {
        Self::new(0, 0)
    }
}

pub open spec fn saturating_bits(bytes: u64) -> u64 {
    if bytes * 8 > u64::MAX { u64::MAX } else { (bytes * 8) as u64 }
}

fn bits_of(bytes: u64) -> (r: u64)
    ensures
        r == saturating_bits(bytes),
{
    if bytes > u64::MAX / 8 {
        u64::MAX
    } else {
        bytes * 8
    }
}

/// Step between successive units: 1000 for bit units, 1024 for byte units.
pub open spec fn unit_base(bits: bool) -> nat {
    if bits { 1000 } else { 1024 }
}

pub open spec fn unit_name(bits: bool, k: nat) -> &'static str {
    if bits {
        if k == 0 { "bps" } else if k == 1 { "Kbps" } else if k == 2 { "Mbps" } else if k == 3 { "Gbps" } else { "Tbps" }
    } else {
        if k == 0 { "B/s" } else if k == 1 { "KB/s" } else if k == 2 { "MB/s" } else if k == 3 { "GB/s" } else { "TB/s" }
    }
}

/// The value of one unit of index `k`, in base units.
pub open spec fn unit_divisor(bits: bool, k: nat) -> nat
    decreases k,
{
    if k == 0 {
        1
    } else {
        unit_base(bits) * unit_divisor(bits, (k - 1) as nat)
    }
}

/// Index of the largest unit, at most the fifth, that `v` reaches, counting from `k`.
pub open spec fn scale_from(v: nat, bits: bool, k: nat) -> nat
    decreases 4 - k,
{
    if k < 4 && v >= unit_divisor(bits, k + 1) {
        scale_from(v, bits, k + 1)
    } else {
        k
    }
}

pub open spec fn digit_char(d: nat) -> char {
    if d == 0 { '0' } else if d == 1 { '1' } else if d == 2 { '2' } else if d == 3 { '3' }
    else if d == 4 { '4' } else if d == 5 { '5' } else if d == 6 { '6' } else if d == 7 { '7' }
    else if d == 8 { '8' } else { '9' }
}

/// Decimal digits of `n`, without leading zeros.
pub open spec fn decimal(n: nat) -> Seq<char>
    decreases n,
{
    if n < 10 {
        seq![digit_char(n)]
    } else {
        decimal(n / 10).push(digit_char(n % 10))
    }
}

/// A rate in the largest unit it reaches (at most the fifth): an exact integer
/// in the first unit, otherwise the scaled value rounded to the nearest
/// hundredth, halves upward, with exactly two decimals.
pub open spec fn rate_text(v: nat, bits: bool) -> Seq<char> {
    let k = scale_from(v, bits, 0);
    if k == 0 {
        decimal(v) + seq![' '] + unit_name(bits, 0)@
    } else {
        let d = unit_divisor(bits, k);
        let h = (v * 100 + d / 2) / d;
        decimal(h / 100) + seq!['.', digit_char(h % 100 / 10), digit_char(h % 10), ' '] + unit_name(
            bits,
            k,
        )@
    }
}

/// Relies on `FromIterator<char>` for `String`: the characters in order.
#[verifier::external_body]
fn string_from_chars(chars: &Vec<char>) -> (r: String)
    ensures
        r@ == chars@,
{
    chars.iter().collect()
}

fn digit(d: u64) -> (c: char)
    requires
        d < 10,
    ensures
        c == digit_char(d as nat),
{
    match d {
        0 => '0',
        1 => '1',
        2 => '2',
        3 => '3',
        4 => '4',
        5 => '5',
        6 => '6',
        7 => '7',
        8 => '8',
        _ => '9',
    }
}

fn push_decimal(out: &mut Vec<char>, n: u64)
    ensures
        final(out)@ == old(out)@ + decimal(n as nat),
    decreases n,
{
    if n >= 10 {
        push_decimal(out, n / 10);
    }
    out.push(digit(n % 10));
    if n >= 10 {
        assert(old(out)@ + decimal(n as nat) =~= old(out)@ + decimal((n / 10) as nat) + seq![
            digit_char((n % 10) as nat),
        ]);
    } else {
        assert(old(out)@ + decimal(n as nat) =~= old(out)@.push(digit_char(n as nat)));
    }
}

fn unit_label(bits: bool, k: u64) -> (r: &'static str)
    ensures
        r == unit_name(bits, k as nat),
{
    if bits {
        if k == 0 { "bps" } else if k == 1 { "Kbps" } else if k == 2 { "Mbps" } else if k == 3 { "Gbps" } else { "Tbps" }
    } else {
        if k == 0 { "B/s" } else if k == 1 { "KB/s" } else if k == 2 { "MB/s" } else if k == 3 { "GB/s" } else { "TB/s" }
    }
}

spec fn divisor_bound(k: nat) -> nat {
    if k == 0 {
        1
    } else if k == 1 {
        1024
    } else if k == 2 {
        0x10_0000
    } else if k == 3 {
        0x4000_0000
    } else {
        0x100_0000_0000
    }
}

fn format_rate(v: u64, bits: bool) -> (r: String)
    ensures
        r@ == rate_text(v as nat, bits),
{
    let base: u128 = if bits { 1000 } else { 1024 };
    let mut divisor: u128 = 1;
    let mut k: u64 = 0;
    while k < 4 && v as u128 >= divisor * base
        invariant
            base == unit_base(bits),
            k <= 4,
            divisor == unit_divisor(bits, k as nat),
            1 <= divisor <= divisor_bound(k as nat),
            scale_from(v as nat, bits, 0) == scale_from(v as nat, bits, k as nat),
        decreases 4 - k,
    {
        assert(divisor * base <= divisor_bound((k + 1) as nat)) by (nonlinear_arith)
            requires
                divisor <= divisor_bound(k as nat),
                base <= 1024,
                k < 4,
                divisor_bound((k + 1) as nat) == divisor_bound(k as nat) * 1024,
        ;
        assert(1 <= divisor * base) by (nonlinear_arith)
            requires
                1 <= divisor,
                1 <= base,
        ;
        divisor = divisor * base;
        k = k + 1;
    }
    assert(scale_from(v as nat, bits, k as nat) == k);
    let mut out: Vec<char> = Vec::new();
    if k == 0 {
        push_decimal(&mut out, v);
    } else {
        assert(divisor >= 1000);
        let h: u128 = (v as u128 * 100 + divisor / 2) / divisor;
        assert(h < 0x1_0000_0000_0000_0000) by (nonlinear_arith)
            requires
                h as int == (v as int * 100 + divisor as int / 2) / divisor as int,
                divisor >= 1000,
                v < 0x1_0000_0000_0000_0000,
        ;
        let whole = (h / 100) as u64;
        let hundredths = (h % 100) as u64;
        push_decimal(&mut out, whole);
        out.push('.');
        out.push(digit(hundredths / 10));
        out.push(digit(hundredths % 10));
    }
    out.push(' ');
    let unit = chars_of(unit_label(bits, k));
    let mut j: usize = 0;
    let ghost prefix = out@;
    while j < unit.len()
        invariant
            j <= unit@.len(),
            out@ == prefix + unit@.take(j as int),
        decreases unit@.len() - j,
    {
        out.push(unit[j]);
        assert(unit@.take(j + 1) == unit@.take(j as int).push(unit@[j as int]));
        j = j + 1;
    }
    assert(unit@.take(unit@.len() as int) == unit@);
    assert(out@ =~= rate_text(v as nat, bits));
    string_from_chars(&out)
}

/// A byte rate in `B/s`, `KB/s`, `MB/s`, `GB/s` or `TB/s` (steps of 1024).
pub fn format_bytes_per_second(bytes_per_sec: u64) -> (r: String)
    ensures
        r@ == rate_text(bytes_per_sec as nat, false),
{
    format_rate(bytes_per_sec, false)
}

/// A bit rate in `bps`, `Kbps`, `Mbps`, `Gbps` or `Tbps` (steps of 1000).
pub fn format_bits_per_second(bits_per_sec: u64) -> (r: String)
    ensures
        r@ == rate_text(bits_per_sec as nat, true),
{
    format_rate(bits_per_sec, true)
}

} // verus!
