use vstd::prelude::*;
use crate::errors::Error;
use rog_fan_curve::Curve;

verus! {

// The board library's opaque per-fan curve representation. The core treats a
// curve as a value with one operation, "apply to (board, fan)"; its contents
// are never interpreted here.
#[verifier::external_type_specification]
#[verifier::external_body]
pub struct ExCurve(Curve);

/// Whether the board library's curve parser accepts a configuration string.
/// The outcome depends on the string alone.
pub uninterp spec fn curve_accepted(s: Seq<char>) -> bool;

/// Relies on rog_fan_curve::Curve::from_config_str: parses a fan-curve
/// configuration string of the `<t>c:<s>%,...` form; the result is a function
/// of the string alone.
#[verifier::external_body]
fn curve_parse(s: &str) -> (r: Result<Curve, String>)
    ensures
        r is Ok <==> curve_accepted(s@),
{
    Curve::from_config_str(s)
}

/// The desired settings for one profile, before the curve strings have been
/// handed to the board library: any subset of the fields may be present.
pub struct RawProfileConfig {
    pub turbo: Option<bool>,
    pub cpu_curve: Option<String>,
    pub gpu_curve: Option<String>,
}

/// The three optional per-profile entries of the configuration document.
pub struct RawProfiles {
    pub normal: Option<RawProfileConfig>,
    pub boost: Option<RawProfileConfig>,
    pub silent: Option<RawProfileConfig>,
}

/// The configuration document as plain values, exactly as read from the file.
pub struct RawConfig {
    pub waybar_notify: Option<u8>,
    pub profiles: RawProfiles,
}

/// The desired settings for one profile: an absent field means "leave that
/// subsystem untouched on transition to this profile".
pub struct ProfileConfig {
    pub turbo: Option<bool>,
    pub cpu_curve: Option<Curve>,
    pub gpu_curve: Option<Curve>,
}

/// The three optional per-profile entries, keyed by profile name.
pub struct Profiles {
    pub normal: Option<ProfileConfig>,
    pub boost: Option<ProfileConfig>,
    pub silent: Option<ProfileConfig>,
}

/// The typed configuration: the notification offset and the per-profile
/// entries, with every curve already accepted by the board library.
pub struct Config {
    pub waybar_notify: Option<u8>,
    pub profiles: Profiles,
}

/// Whether every curve string present in one raw profile entry is accepted by
/// the board library's parser.
pub open spec fn raw_profile_ok(p: Option<RawProfileConfig>) -> bool {
    match p {
        None => true,
        Some(p) => {
            &&& (p.cpu_curve matches Some(s) ==> curve_accepted(s@))
            &&& (p.gpu_curve matches Some(s) ==> curve_accepted(s@))
        },
    }
}

/// Whether a typed profile entry carries over exactly what its raw form held:
/// the same turbo flag, and a curve exactly where the raw form had a string.
pub open spec fn profile_matches_raw(p: Option<RawProfileConfig>, c: Option<ProfileConfig>) -> bool {
    match p {
        None => c is None,
        Some(p) => match c {
            None => false,
            Some(c) => {
                &&& c.turbo == p.turbo
                &&& (c.cpu_curve is Some <==> p.cpu_curve is Some)
                &&& (c.gpu_curve is Some <==> p.gpu_curve is Some)
            },
        },
    }
}

fn profile_from_raw(p: &Option<RawProfileConfig>) -> (r: Result<Option<ProfileConfig>, Error>)
    ensures
        match r {
            Ok(c) => raw_profile_ok(*p) && profile_matches_raw(*p, c),
            Err(e) => !raw_profile_ok(*p) && e == Error::ConfigMalformed,
        },
{
    match p {
        None => Ok(None),
        Some(p) => {
            let cpu_curve = match &p.cpu_curve {
                None => None,
                Some(s) => match curve_parse(s.as_str()) {
                    Ok(c) => Some(c),
                    Err(_) => {
                        return Err(Error::ConfigMalformed);
                    },
                },
            };
            let gpu_curve = match &p.gpu_curve {
                None => None,
                Some(s) => match curve_parse(s.as_str()) {
                    Ok(c) => Some(c),
                    Err(_) => {
                        return Err(Error::ConfigMalformed);
                    },
                },
            };
            let turbo = match p.turbo {
                None => None,
                Some(b) => Some(b),
            };
            Ok(Some(ProfileConfig { turbo, cpu_curve, gpu_curve }))
        },
    }
}

impl Config {
    /// Builds the typed configuration from the raw document: succeeds exactly
    /// when every curve string present is accepted by the board library, and
    /// then carries every recognized option over unchanged.
    pub fn from_raw(raw: &RawConfig) -> (r: Result<Config, Error>)
        ensures
            match r {
                Ok(c) => {
                    &&& raw_profile_ok(raw.profiles.normal)
                    &&& raw_profile_ok(raw.profiles.boost)
                    &&& raw_profile_ok(raw.profiles.silent)
                    &&& c.waybar_notify == raw.waybar_notify
                    &&& profile_matches_raw(raw.profiles.normal, c.profiles.normal)
                    &&& profile_matches_raw(raw.profiles.boost, c.profiles.boost)
                    &&& profile_matches_raw(raw.profiles.silent, c.profiles.silent)
                },
                Err(e) => {
                    &&& !(raw_profile_ok(raw.profiles.normal) && raw_profile_ok(raw.profiles.boost)
                        && raw_profile_ok(raw.profiles.silent))
                    &&& e == Error::ConfigMalformed
                },
            },
    {
        let normal = profile_from_raw(&raw.profiles.normal)?;
        let boost = profile_from_raw(&raw.profiles.boost)?;
        let silent = profile_from_raw(&raw.profiles.silent)?;
        let waybar_notify = match raw.waybar_notify {
            None => None,
            Some(n) => Some(n),
        };
        Ok(Config { waybar_notify, profiles: Profiles { normal, boost, silent } })
    }
}

} // verus!
