//! Settings view types and the human-readable size formatting used by the
//! Data & Storage tab.

use vstd::prelude::*;

use crate::text::{decimal, decimal_chars, digit_char, owned, push_char, push_str, string_from_chars};

verus! {

/// The six tabs in the settings sidebar.
#[derive(Debug, Clone, Copy, PartialEq, Eq, Hash, Structural)]
pub enum SettingsTab {
    General,
    Accounts,
    Bundles,
    Notifications,
    KeyboardShortcuts,
    DataStorage,
}

impl Default for SettingsTab {
    fn default() -> (t: Self)
        ensures
            t == SettingsTab::General,
    {
        SettingsTab::General
    }
}

/// Sidebar label of a tab.
pub open spec fn tab_label(t: SettingsTab) -> Seq<char> {
    match t {
        SettingsTab::General => "General"@,
        SettingsTab::Accounts => "Accounts"@,
        SettingsTab::Bundles => "Bundles"@,
        SettingsTab::Notifications => "Notifications"@,
        SettingsTab::KeyboardShortcuts => "Keyboard Shortcuts"@,
        SettingsTab::DataStorage => "Data & Storage"@,
    }
}

impl SettingsTab {
    /// Display label for the sidebar.
    pub fn label(&self) -> (r: &'static str)
        ensures
            r@ == tab_label(*self),
    {
        match self {
            SettingsTab::General => "General",
            SettingsTab::Accounts => "Accounts",
            SettingsTab::Bundles => "Bundles",
            SettingsTab::Notifications => "Notifications",
            SettingsTab::KeyboardShortcuts => "Keyboard Shortcuts",
            SettingsTab::DataStorage => "Data & Storage",
        }
    }

    /// All tabs in display order.
    pub fn all() -> (r: Vec<SettingsTab>)
        ensures
            r@ == seq![
                SettingsTab::General,
                SettingsTab::Accounts,
                SettingsTab::Bundles,
                SettingsTab::Notifications,
                SettingsTab::KeyboardShortcuts,
                SettingsTab::DataStorage,
            ],
    {
        let mut v: Vec<SettingsTab> = Vec::new();
        v.push(SettingsTab::General);
        v.push(SettingsTab::Accounts);
        v.push(SettingsTab::Bundles);
        v.push(SettingsTab::Notifications);
        v.push(SettingsTab::KeyboardShortcuts);
        v.push(SettingsTab::DataStorage);
        assert(v@ =~= seq![
            SettingsTab::General,
            SettingsTab::Accounts,
            SettingsTab::Bundles,
            SettingsTab::Notifications,
            SettingsTab::KeyboardShortcuts,
            SettingsTab::DataStorage,
        ]);
        v
    }
}

/// 2^53: integers below it are exact as `f64`.
pub const F64_EXACT: u128 = 9007199254740992;

/// The power of two that is the spacing of `f64` values around `b`
/// (searching upwards from `p`, with `fuel` doublings left).
pub open spec fn f64_unit_from(b: nat, p: nat, fuel: nat) -> nat
    decreases fuel,
{
    if fuel == 0 || b < F64_EXACT * p {
        p
    } else {
        f64_unit_from(b, 2 * p, (fuel - 1) as nat)
    }
}

/// Spacing of the `f64` values near an unsigned integer below 2^64.
pub open spec fn f64_unit(b: nat) -> nat {
    f64_unit_from(b, 1, 64)
}

/// Round `q` units plus remainder `r` of a unit of size `p` to the nearest
/// whole unit, ties to the even one.
pub open spec fn round_half_even(q: nat, r: nat, p: nat) -> nat {
    if 2 * r > p || (2 * r == p && q % 2 == 1) {
        q + 1
    } else {
        q
    }
}

/// The value of `b as f64` (round to nearest, ties to even).
pub open spec fn f64_of(b: nat) -> nat {
    let p = f64_unit(b);
    round_half_even(b / p, b % p, p) * p
}

/// Tenths of `m / d`, rounded to nearest with ties to even, as `{:.1}` does.
pub open spec fn tenths(m: nat, d: nat) -> nat {
    round_half_even((10 * m) / d, (10 * m) % d, d)
}

/// A number of tenths written with one decimal (`15` is `"1.5"`).
pub open spec fn one_decimal(t: nat) -> Seq<char> {
    decimal(t / 10) + "."@ + seq![digit_char((t % 10) as int)]
}

pub const KB: u64 = 1024;
pub const MB: u64 = 1048576;
pub const GB: u64 = 1073741824;

/// Human-readable text of a byte count: one decimal of GB, MB or KB from
/// a kibibyte up, whole bytes below.
pub open spec fn size_text(bytes: u64) -> Seq<char> {
    if bytes >= GB {
        one_decimal(tenths(f64_of(bytes as nat), GB as nat)) + " GB"@
    } else if bytes >= MB {
        one_decimal(tenths(f64_of(bytes as nat), MB as nat)) + " MB"@
    } else if bytes >= KB {
        one_decimal(tenths(f64_of(bytes as nat), KB as nat)) + " KB"@
    } else {
        decimal(bytes as nat) + " B"@
    }
}

/// The exact value of `b as f64`.
fn f64_value(b: u64) -> (m: u128)
    ensures
        m as nat == f64_of(b as nat),
        m <= b as nat + 4096,
{
    let mut p: u128 = 1;
    let mut fuel: u64 = 64;
    while fuel > 0 && (b as u128) >= F64_EXACT * p
        invariant
            1 <= p <= 4096,
            fuel <= 64,
            f64_unit(b as nat) == f64_unit_from(b as nat, p as nat, fuel as nat),
        decreases fuel,
    {
        p = p * 2;
        fuel = fuel - 1;
    }
    let q = (b as u128) / p;
    let r = (b as u128) % p;
    let q2 = if 2 * r > p || (2 * r == p && q % 2 == 1) {
        q + 1
    } else {
        q
    };
    proof {
        assert(q * p <= b) by (nonlinear_arith)
            requires
                q == (b as u128) / p,
                p >= 1,
        ;
        assert(q2 * p <= b as nat + p) by (nonlinear_arith)
            requires
                q * p <= b,
                q2 <= q + 1,
                p >= 1,
        ;
    }
    q2 * p
}

/// Tenths of `m / d`, rounded half to even.
fn tenths_of(m: u128, d: u128) -> (t: u128)
    requires
        2 <= d <= GB,
        m <= 0x1_0000_0000_0000_1000,
    ensures
        t as nat == tenths(m as nat, d as nat),
        t as int <= (10 * m as int) / (d as int) + 1,
{
    let n = (10 * m) / d;
    let rem = (10 * m) % d;
    if 2 * rem > d || (2 * rem == d && n % 2 == 1) {
        n + 1
    } else {
        n
    }
}

/// Append `t` tenths written with one decimal.
fn push_one_decimal(s: &mut String, t: u128)
    requires
        t < 0x1_0000_0000_0000_0000,
    ensures
        final(s)@ == old(s)@ + one_decimal(t as nat),
{
    let whole = (t / 10) as u64;
    push_str(s, string_from_chars(decimal_chars(whole).as_slice()).as_str());
    push_char(s, '.');
    push_char(s, ((t % 10) as u8 + 48) as char);
    proof {
        reveal_strlit(".");
        assert(final(s)@ =~= old(s)@ + one_decimal(t as nat));
    }
}

/// Format bytes as a human-readable size string.
pub fn format_size(bytes: u64) -> (s: String)
    ensures
        s@ == size_text(bytes),
{
    if bytes >= GB || bytes >= MB || bytes >= KB {
        let m = f64_value(bytes);
        let (d, unit): (u128, &str) = if bytes >= GB {
            (GB as u128, " GB")
        } else if bytes >= MB {
            (MB as u128, " MB")
        } else {
            (KB as u128, " KB")
        };
        let t = tenths_of(m, d);
        proof {
            assert((10 * m as int) / (d as int) <= (10 * m as int) / 1024) by (nonlinear_arith)
                requires
                    d >= 1024,
                    m >= 0,
            ;
        }
        let mut s = String::new();
        push_one_decimal(&mut s, t);
        push_str(&mut s, unit);
        proof {
            assert(s@ =~= size_text(bytes));
        }
        s
    } else {
        let mut s = string_from_chars(decimal_chars(bytes).as_slice());
        push_str(&mut s, " B");
        s
    }
}

} // verus!
