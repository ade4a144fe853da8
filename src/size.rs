//! Human-readable file sizes, in integer arithmetic: the largest binary unit
//! in which the size is at least one, rounded half up to two decimals. The
//! unit is chosen from the size before rounding, so a size just short of a
//! unit boundary reads as 1024.00 of the smaller unit.
use vstd::prelude::*;
use crate::text::{decimal_digits, digit_char, push_char, push_decimal};

verus! {

pub const KIB: u64 = 1024;

pub const MIB: u64 = 1048576;

pub const GIB: u64 = 1073741824;

pub const TIB: u64 = 1099511627776;

#[derive(Clone, Copy, Debug, PartialEq, Eq, Structural)]
pub enum SizeUnit {
    Bytes,
    Kilobytes,
    Megabytes,
    Gigabytes,
    Terabytes,
}

pub open spec fn unit_bytes(u: SizeUnit) -> u64 {
    match u {
        SizeUnit::Bytes => 1,
        SizeUnit::Kilobytes => KIB,
        SizeUnit::Megabytes => MIB,
        SizeUnit::Gigabytes => GIB,
        SizeUnit::Terabytes => TIB,
    }
}

/// The largest unit of which `n` holds at least one; bytes below that.
pub open spec fn unit_for(n: u64) -> SizeUnit {
    if n >= TIB {
        SizeUnit::Terabytes
    } else if n >= GIB {
        SizeUnit::Gigabytes
    } else if n >= MIB {
        SizeUnit::Megabytes
    } else if n >= KIB {
        SizeUnit::Kilobytes
    } else {
        SizeUnit::Bytes
    }
}

pub open spec fn unit_name(u: SizeUnit) -> Seq<char> {
    match u {
        SizeUnit::Bytes => "B"@,
        SizeUnit::Kilobytes => "KB"@,
        SizeUnit::Megabytes => "MB"@,
        SizeUnit::Gigabytes => "GB"@,
        SizeUnit::Terabytes => "TB"@,
    }
}

/// A size as a whole number of units and hundredths of a unit.
#[derive(Clone, Copy, Debug, PartialEq, Eq, Structural)]
pub struct HumanSize {
    pub unit: SizeUnit,
    pub whole: u64,
    pub hundredths: u64,
}

/// `n` bytes in hundredths of `d`-byte units, rounded half up.
pub open spec fn rounded_hundredths(n: u64, d: u64) -> int {
    (n * 100 + d / 2) / (d as int)
}

pub open spec fn human_size_spec(n: u64) -> HumanSize {
    let u = unit_for(n);
    let t = rounded_hundredths(n, unit_bytes(u));
    HumanSize { unit: u, whole: (t / 100) as u64, hundredths: (t % 100) as u64 }
}

pub open spec fn human_text(h: HumanSize) -> Seq<char> {
    decimal_digits(h.whole as nat) + seq![
        '.',
        digit_char((h.hundredths / 10 % 10) as nat),
        digit_char((h.hundredths % 10) as nat),
        ' ',
    ] + unit_name(h.unit)
}

impl HumanSize {
    pub open spec fn wf(&self) -> bool {
        self.hundredths < 100
    }

    /// The size of `bytes` in the largest unit that holds at least one.
    pub fn from_bytes(bytes: u64) -> (r: HumanSize)
        ensures
            r == human_size_spec(bytes),
            r.wf(),
            r.whole >= 1 || bytes == 0,
    {
        let unit = if bytes >= TIB {
            SizeUnit::Terabytes
        } else if bytes >= GIB {
            SizeUnit::Gigabytes
        } else if bytes >= MIB {
            SizeUnit::Megabytes
        } else if bytes >= KIB {
            SizeUnit::Kilobytes
        } else {
            SizeUnit::Bytes
        };
        let d: u64 = match unit {
            SizeUnit::Bytes => 1,
            SizeUnit::Kilobytes => KIB,
            SizeUnit::Megabytes => MIB,
            SizeUnit::Gigabytes => GIB,
            SizeUnit::Terabytes => TIB,
        };
        let q = bytes / d;
        let rest = bytes % d;
        assert(rest * 100 + d / 2 < 101 * d) by (nonlinear_arith)
            requires
                rest < d,
                d > 0,
        ;
        let frac = (rest * 100 + d / 2) / d;
        proof {
            let t = rounded_hundredths(bytes, d);
            assert(bytes == q * d + rest) by (nonlinear_arith)
                requires
                    q == bytes / d,
                    rest == bytes % d,
                    d > 0,
            ;
            assert(frac <= 100) by (nonlinear_arith)
                requires
                    frac == (rest * 100 + d / 2) / (d as int),
                    rest * 100 + d / 2 < 101 * d,
                    d > 0,
            ;
            assert(t == q * 100 + frac) by (nonlinear_arith)
                requires
                    t == (bytes * 100 + d / 2) / (d as int),
                    bytes == q * d + rest,
                    frac == (rest * 100 + d / 2) / (d as int),
                    d > 0,
            ;
            assert(q * d <= bytes) by (nonlinear_arith)
                requires
                    bytes == q * d + rest,
                    rest >= 0,
            ;
            assert(bytes == 0 || q >= 1) by (nonlinear_arith)
                requires
                    bytes == 0 || bytes >= d,
                    bytes == q * d + rest,
                    rest < d,
                    d > 0,
            ;
            assert(d == 1 ==> frac == 0 && rest == 0);
            if d > 1 {
                assert(d >= 1024);
                assert(q < 0x40_0000_0000_0000) by (nonlinear_arith)
                    requires
                        d >= 1024,
                        q * d <= bytes,
                        bytes <= u64::MAX,
                ;
            }
        }
        let (whole, hundredths) = if frac == 100 {
            (q + 1, 0u64)
        } else {
            (q, frac)
        };
        HumanSize { unit, whole, hundredths }
    }

    /// The size as text, such as `1.50 KB`. Only the last two digits of
    /// `hundredths` are shown, which for a size built by `from_bytes` is all
    /// of them.
    pub fn text(&self) -> (r: String)
        ensures
            r@ == human_text(*self),
    {
        let mut out = String::new();
        push_decimal(&mut out, self.whole);
        push_char(&mut out, '.');
        push_char(&mut out, (48 + (self.hundredths / 10 % 10) as u8) as char);
        push_char(&mut out, (48 + (self.hundredths % 10) as u8) as char);
        push_char(&mut out, ' ');
        match self.unit {
            SizeUnit::Bytes => out.append("B"),
            SizeUnit::Kilobytes => out.append("KB"),
            SizeUnit::Megabytes => out.append("MB"),
            SizeUnit::Gigabytes => out.append("GB"),
            SizeUnit::Terabytes => out.append("TB"),
        }
        assert(out@ =~= human_text(*self));
        out
    }
}

} // verus!
