//! Host-side core of a zero-knowledge virtual machine: the claim model, the
//! composition of receipts and their verification.

pub mod prove;
pub mod receipt;
pub mod receipt_claim;
pub mod recursion;
pub mod session;
pub mod sha;

pub use risc0_zkvm_platform::{memory::GUEST_MAX_MEM, PAGE_SIZE};

use vstd::prelude::*;
use vstd::arithmetic::power2::is_pow2;

verus! {

/// Clearing the bits below a power of two rounds down to a multiple of it.
proof fn lemma_mask_rounds_down(x: u64, a: u64)
    requires
        is_pow2(a as int),
    ensures
        a >= 1,
        x & !((a - 1) as u64) == x - x % a,
    decreases a,
{
    reveal(is_pow2);
    if a == 1 {
        assert(x & !((1u64 - 1) as u64) == x) by (bit_vector);
    } else {
        let h: u64 = a / 2;
        let y: u64 = x / 2;
        lemma_mask_rounds_down(y, h);
        let low: u64 = y & !((h - 1) as u64);
        assert(x & !((a - 1) as u64) == 2 * low) by (bit_vector)
            requires
                a % 2 == 0,
                a >= 2,
                h == a / 2,
                y == x / 2,
                low == y & !((h - 1) as u64),
        ;
        let xi: int = x as int;
        let hi: int = h as int;
        let yi: int = xi / 2;
        let q: int = yi / hi;
        let r: int = yi % hi;
        vstd::arithmetic::div_mod::lemma_fundamental_div_mod(yi, hi);
        vstd::arithmetic::div_mod::lemma_mod_bound(yi, hi);
        assert(q * (2 * hi) == 2 * (hi * q)) by (nonlinear_arith);
        vstd::arithmetic::div_mod::lemma_fundamental_div_mod_converse(
            xi,
            2 * hi,
            q,
            2 * r + xi % 2,
        );
    }
}

/// Align the given address `addr` upwards to alignment `align`.
///
/// `align` must be a power of two. The result is the least multiple of
/// `align` that is not below `addr`.
pub fn align_up(addr: usize, align: usize) -> (aligned: usize)
    requires
        is_pow2(align as int),
        addr + align - 1 <= usize::MAX,
    ensures
        aligned as int % align as int == 0,
        addr <= aligned < addr + align,
{
    proof {
        lemma_mask_rounds_down((addr + align - 1) as u64, align as u64);
    }
    let mask: usize = align - 1;
    let top: usize = addr + mask;
    let aligned: usize = top & !mask;
    proof {
        assert(aligned as u64 == (top as u64) & !((align as u64 - 1) as u64)) by (bit_vector)
            requires
                aligned == top & !mask,
                mask == (align - 1) as usize,
                align != 0,
        ;
        let a: int = align as int;
        let t: int = top as int;
        vstd::arithmetic::div_mod::lemma_mod_bound(t, a);
        vstd::arithmetic::div_mod::lemma_fundamental_div_mod(t, a);
        vstd::arithmetic::div_mod::lemma_mod_multiples_basic(t / a, a);
        assert(a * (t / a) == (t / a) * a) by (nonlinear_arith);
    }
    aligned
}

/// The version of this crate.
pub const VERSION: &'static str = "0.20.1";

/// A semantic version: three numbers, a pre-release tag and build metadata,
/// the last two empty where the text has none.
#[derive(Clone, Debug, PartialEq, Eq)]
pub struct Version {
    /// The major version.
    pub major: u64,
    /// The minor version.
    pub minor: u64,
    /// The patch version.
    pub patch: u64,
    /// The pre-release tag, without its leading hyphen.
    pub pre: String,
    /// The build metadata, without its leading plus sign.
    pub build: String,
}

impl Version {
    /// The parts of the version: major, minor, patch, pre-release, build.
    pub open spec fn parts(&self) -> (u64, u64, u64, Seq<char>, Seq<char>) {
        (self.major, self.minor, self.patch, self.pre@, self.build@)
    }
}

/// The error that semver reports for a text that is no version.
#[verifier::external_type_specification]
#[verifier::external_body]
pub struct ExSemverError(semver::Error);

/// What semver reads in a text as a version: its major, minor and patch
/// numbers, its pre-release tag and its build metadata; `None` where the text
/// is no semantic version.
pub uninterp spec fn semver_parse_of(text: Seq<char>) -> Option<
    (u64, u64, u64, Seq<char>, Seq<char>),
>;

/// Calls `semver::Version::parse`. Trusted: the call succeeds exactly on the
/// texts that semver reads as a version, and the result then holds the parts
/// that semver read.
#[verifier::external_body]
fn parse_version(text: &str) -> (parsed: Result<Version, semver::Error>)
    ensures
        parsed is Ok <==> semver_parse_of(text@) is Some,
        parsed is Ok ==> parsed->Ok_0.parts() == semver_parse_of(text@)->Some_0,
{
    match semver::Version::parse(text) {
        Ok(version) => Ok(
            Version {
                major: version.major,
                minor: version.minor,
                patch: version.patch,
                pre: version.pre.as_str().to_owned(),
                build: version.build.as_str().to_owned(),
            },
        ),
        Err(error) => Err(error),
    }
}

/// Reports the version of this crate, as semver reads [`VERSION`].
pub fn get_version() -> (version: Result<Version, semver::Error>)
    ensures
        version is Ok <==> semver_parse_of(VERSION@) is Some,
        version is Ok ==> version->Ok_0.parts() == semver_parse_of(VERSION@)->Some_0,
{
    parse_version(VERSION)
}

/// The lower-case form of a text, as `str::to_lowercase` gives it.
pub uninterp spec fn lowercase_of(text: Seq<char>) -> Seq<char>;

/// Calls `str::to_lowercase`. Trusted: the result is the lower-case form of
/// the text.
#[verifier::external_body]
fn to_lowercase(text: &str) -> (lowered: String)
    ensures
        lowered@ == lowercase_of(text@),
{
    text.to_lowercase()
}

/// Whether a lower-case text is one of the words that switch dev mode on:
/// `1`, `true` or `yes`.
pub open spec fn is_affirmative(lowered: Seq<char>) -> bool {
    lowered == "1"@ || lowered == "true"@ || lowered == "yes"@
}

/// Whether the value of the dev-mode setting, where it is set, asks for dev
/// mode: it does where its lower-case form is `1`, `true` or `yes`.
pub open spec fn dev_mode_requested(setting: Option<&str>) -> bool {
    match setting {
        Some(value) => is_affirmative(lowercase_of(value@)),
        None => false,
    }
}

/// Whether a lower-case text is `1`, `true` or `yes`.
pub fn affirmative(lowered: &String) -> (yes: bool)
    ensures
        yes == is_affirmative(lowered@),
{
    let one: String = "1".to_owned();
    let truth: String = "true".to_owned();
    let yes: String = "yes".to_owned();
    *lowered == one || *lowered == truth || *lowered == yes
}

/// Whether the value of the dev-mode setting, where it is set, asks for dev
/// mode.
pub fn requests_dev_mode(setting: Option<&str>) -> (requested: bool)
    ensures
        requested == dev_mode_requested(setting),
{
    match setting {
        Some(value) => {
            let lowered: String = to_lowercase(value);
            affirmative(&lowered)
        },
        None => false,
    }
}

/// Returns `true` if dev mode is enabled: the setting asks for it and the
/// build has not disabled it. A setting that asks for dev mode in a build
/// that has disabled it is an inconsistency, which callers must not pass.
pub fn is_dev_mode(setting: Option<&str>, disabled: bool) -> (enabled: bool)
    requires
        !(disabled && dev_mode_requested(setting)),
    ensures
        enabled == (!disabled && dev_mode_requested(setting)),
{
    !disabled && requests_dev_mode(setting)
}

/// A setting that asks for dev mode in a build that has disabled it.
#[derive(Clone, Copy, Debug, PartialEq, Eq, Structural)]
pub struct InconsistentDevMode {}

/// Whether dev mode is enabled, for any setting: the inconsistency that
/// [`is_dev_mode`] leaves out is reported as an error.
pub fn checked_dev_mode(setting: Option<&str>, disabled: bool) -> (enabled: Result<
    bool,
    InconsistentDevMode,
>)
    ensures
        disabled && dev_mode_requested(setting) ==> enabled == Err::<bool, InconsistentDevMode>(
            InconsistentDevMode {  },
        ),
        !(disabled && dev_mode_requested(setting)) ==> enabled == Ok::<bool, InconsistentDevMode>(
            !disabled && dev_mode_requested(setting),
        ),
{
    if disabled && requests_dev_mode(setting) {
        Err(InconsistentDevMode {  })
    } else {
        Ok(is_dev_mode(setting, disabled))
    }
}

} // verus!
