//! Editions, volumes and software versions.
use crate::numerals::{nat_decimal, unsigned_decimal};
use crate::unicode::EMDASH;
use ordinal::ToOrdinal;
use vstd::prelude::*;
use vstd::string::*;

verus! {

/// The English ordinal suffix: `"th"` when the number ends in 11, 12 or 13,
/// else `"st"`, `"nd"`, `"rd"` after a last digit 1, 2, 3, and `"th"`.
pub open spec fn ordinal_suffix(n: nat) -> Seq<char> {
    if 11 <= n % 100 <= 13 {
        "th"@
    } else if n % 10 == 1 {
        "st"@
    } else if n % 10 == 2 {
        "nd"@
    } else if n % 10 == 3 {
        "rd"@
    } else {
        "th"@
    }
}

/// A number written as an English ordinal (`"1st"`, `"12th"`, `"22nd"`).
pub open spec fn ordinal_spec(n: nat) -> Seq<char> {
    nat_decimal(n) + ordinal_suffix(n)
}

/// Relies on ordinal's `ToOrdinal::to_ordinal_string` for `u16`, which writes
/// the number in decimal followed by `ToOrdinal::suffix`.
#[verifier::external_body]
fn ordinal_string(n: u16) -> (r: String)
    ensures
        r@ == ordinal_spec(n as nat),
{
    n.to_ordinal_string()
}

/// A semantic version, to the precision that is known.
#[derive(Debug, Clone, Copy, PartialEq, Eq, Structural)]
pub enum SemVer {
    Major { major: u32 },
    MajorMinor { major: u32, minor: u32 },
    MajorMinorPatch { major: u32, minor: u32, patch: u32 },
}

impl SemVer {
    /// The dotted form: `"M"`, `"M.m"` or `"M.m.p"`.
    pub open spec fn dotted_spec(&self) -> Seq<char> {
        match self {
            SemVer::Major { major } => nat_decimal(*major as nat),
            SemVer::MajorMinor { major, minor } => nat_decimal(*major as nat) + "."@ + nat_decimal(
                *minor as nat,
            ),
            SemVer::MajorMinorPatch { major, minor, patch } => nat_decimal(*major as nat) + "."@
                + nat_decimal(*minor as nat) + "."@ + nat_decimal(*patch as nat),
        }
    }

    /// Version `major`.
    pub fn from_major(major: u32) -> (r: Self)
        ensures
            r == (SemVer::Major { major }),
    {
        SemVer::Major { major }
    }

    /// Version `major.minor`.
    pub fn from_major_minor(major: u32, minor: u32) -> (r: Self)
        ensures
            r == (SemVer::MajorMinor { major, minor }),
    {
        SemVer::MajorMinor { major, minor }
    }

    /// Version `major.minor.patch`.
    pub fn from_major_minor_patch(major: u32, minor: u32, patch: u32) -> (r: Self)
        ensures
            r == (SemVer::MajorMinorPatch { major, minor, patch }),
    {
        SemVer::MajorMinorPatch { major, minor, patch }
    }

    /// The dotted form, as `Display` writes it.
    pub fn as_dotted_string(&self) -> (r: String)
        ensures
            r@ == self.dotted_spec(),
    {
        match self {
            SemVer::Major { major } => unsigned_decimal(*major as u64),
            SemVer::MajorMinor { major, minor } => {
                let mut s = unsigned_decimal(*major as u64);
                s.append(".");
                let m = unsigned_decimal(*minor as u64);
                s.append(m.as_str());
                s
            },
            SemVer::MajorMinorPatch { major, minor, patch } => {
                let mut s = unsigned_decimal(*major as u64);
                s.append(".");
                let m = unsigned_decimal(*minor as u64);
                s.append(m.as_str());
                s.append(".");
                let p = unsigned_decimal(*patch as u64);
                s.append(p.as_str());
                s
            },
        }
    }
}

/// Which edition, volume or version of a work is cited.
#[derive(Debug, Clone, Copy, PartialEq, Eq, Structural)]
pub enum GenericMediaVersion {
    DigitalEdition { number: u16 },
    Edition { number: u16 },
    SemVer(SemVer),
    Volume { number: u16 },
    VolumeRange { start: u16, end: u16 },
}

impl GenericMediaVersion {
    /// IEEE form: `"2nd digital ed."`, `"2nd ed."`, `"v1.2"`, `"vol. 3"`,
    /// `"vols. 3—5"`.
    pub open spec fn ieee_spec(&self) -> Seq<char> {
        match self {
            GenericMediaVersion::DigitalEdition { number } => ordinal_spec(*number as nat)
                + " digital ed."@,
            GenericMediaVersion::Edition { number } => ordinal_spec(*number as nat) + " ed."@,
            GenericMediaVersion::SemVer(sem_ver) => "v"@ + sem_ver.dotted_spec(),
            GenericMediaVersion::Volume { number } => "vol. "@ + nat_decimal(*number as nat),
            GenericMediaVersion::VolumeRange { start, end } => "vols. "@ + nat_decimal(
                *start as nat,
            ) + EMDASH@ + nat_decimal(*end as nat),
        }
    }

    /// APA form, in parentheses: `"(2nd digital ed.)"`, `"(2nd ed.)"`,
    /// `"(v1.2)"`, `"(Vol. 3)"`, `"(Vols. 3—5)"`.
    pub open spec fn apa_spec(&self) -> Seq<char> {
        match self {
            GenericMediaVersion::DigitalEdition { number } => "("@ + ordinal_spec(*number as nat)
                + " digital ed.)"@,
            GenericMediaVersion::Edition { number } => "("@ + ordinal_spec(*number as nat)
                + " ed.)"@,
            GenericMediaVersion::SemVer(sem_ver) => "(v"@ + sem_ver.dotted_spec() + ")"@,
            GenericMediaVersion::Volume { number } => "(Vol. "@ + nat_decimal(*number as nat)
                + ")"@,
            GenericMediaVersion::VolumeRange { start, end } => "(Vols. "@ + nat_decimal(
                *start as nat,
            ) + EMDASH@ + nat_decimal(*end as nat) + ")"@,
        }
    }

    /// Renders in IEEE style.
    pub fn as_ieee_string(&self) -> (r: String)
        ensures
            r@ == self.ieee_spec(),
    {
        match self {
            GenericMediaVersion::DigitalEdition { number } => {
                ordinal_string(*number).concat(" digital ed.")
            },
            GenericMediaVersion::Edition { number } => ordinal_string(*number).concat(" ed."),
            GenericMediaVersion::SemVer(sem_ver) => {
                let dotted = sem_ver.as_dotted_string();
                String::from_str("v").concat(dotted.as_str())
            },
            GenericMediaVersion::Volume { number } => {
                let n = unsigned_decimal(*number as u64);
                String::from_str("vol. ").concat(n.as_str())
            },
            GenericMediaVersion::VolumeRange { start, end } => {
                let mut s = String::from_str("vols. ");
                let a = unsigned_decimal(*start as u64);
                s.append(a.as_str());
                s.append(EMDASH);
                let b = unsigned_decimal(*end as u64);
                s.append(b.as_str());
                s
            },
        }
    }

    /// Renders in APA style.
    pub fn as_apa_string(&self) -> (r: String)
        ensures
            r@ == self.apa_spec(),
    {
        match self {
            GenericMediaVersion::DigitalEdition { number } => {
                let ord = ordinal_string(*number);
                String::from_str("(").concat(ord.as_str()).concat(" digital ed.)")
            },
            GenericMediaVersion::Edition { number } => {
                let ord = ordinal_string(*number);
                String::from_str("(").concat(ord.as_str()).concat(" ed.)")
            },
            GenericMediaVersion::SemVer(sem_ver) => {
                let dotted = sem_ver.as_dotted_string();
                String::from_str("(v").concat(dotted.as_str()).concat(")")
            },
            GenericMediaVersion::Volume { number } => {
                let n = unsigned_decimal(*number as u64);
                String::from_str("(Vol. ").concat(n.as_str()).concat(")")
            },
            GenericMediaVersion::VolumeRange { start, end } => {
                let mut s = String::from_str("(Vols. ");
                let a = unsigned_decimal(*start as u64);
                s.append(a.as_str());
                s.append(EMDASH);
                let b = unsigned_decimal(*end as u64);
                s.append(b.as_str());
                s.append(")");
                s
            },
        }
    }
}

} // verus!
