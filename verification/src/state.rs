use vstd::prelude::*;
use crate::errors::Error;

verus! {

/// Kernel control file holding the fan-profile index, decimal ASCII `0|1|2`.
pub const FAN_PROFILE: &'static str = "/sys/devices/platform/asus-nb-wmi/throttle_thermal_policy";

/// Kernel control file holding the CPU turbo flag, decimal ASCII `0|1`.
pub const TURBO_SETTING: &'static str = "/sys/devices/system/cpu/cpufreq/boost";

pub open spec fn is_space_char(c: char) -> bool {
    c == ' ' || c == '\n' || c == '\t' || c == '\r'
}

pub open spec fn is_digit_char(c: char) -> bool {
    '0' as u32 <= c as u32 && c as u32 <= '9' as u32
}

pub open spec fn digit_value(c: char) -> int {
    c as u32 - '0' as u32
}

pub open spec fn trim_start_spec(s: Seq<char>) -> Seq<char>
    decreases s.len(),
{
    if s.len() == 0 {
        s
    } else if is_space_char(s[0]) {
        trim_start_spec(s.drop_first())
    } else {
        s
    }
}

pub open spec fn trim_end_spec(s: Seq<char>) -> Seq<char>
    decreases s.len(),
{
    if s.len() == 0 {
        s
    } else if is_space_char(s.last()) {
        trim_end_spec(s.drop_last())
    } else {
        s
    }
}

/// The characters of `s` with surrounding whitespace removed.
pub open spec fn trim_spec(s: Seq<char>) -> Seq<char> {
    trim_end_spec(trim_start_spec(s))
}

pub open spec fn all_digits(s: Seq<char>) -> bool {
    forall|i: int| 0 <= i < s.len() ==> is_digit_char(s[i])
}

/// The number a string of decimal digits denotes, most significant first.
pub open spec fn digits_value(s: Seq<char>) -> int
    decreases s.len(),
{
    if s.len() == 0 {
        0
    } else {
        digits_value(s.drop_last()) * 10 + digit_value(s.last())
    }
}

/// What `u8` parsing of an already-trimmed string yields: the denoted number
/// when the string is a nonempty run of digits and the number fits in `u8`.
pub open spec fn spec_parse_u8(t: Seq<char>) -> Option<u8> {
    if t.len() > 0 && all_digits(t) && digits_value(t) <= 255 {
        Some(digits_value(t) as u8)
    } else {
        None
    }
}

proof fn lemma_trim_start_prefix(s: Seq<char>, i: int)
    requires
        0 <= i <= s.len(),
        forall|j: int| 0 <= j < i ==> is_space_char(s[j]),
        i < s.len() ==> !is_space_char(s[i]),
    ensures
        trim_start_spec(s) == s.subrange(i, s.len() as int),
    decreases i,
{
    if i == 0 {
        if s.len() == 0 {
            assert(trim_start_spec(s) =~= s.subrange(0, s.len() as int));
        } else {
            assert(s.subrange(0, s.len() as int) =~= s);
        }
    } else {
        assert(is_space_char(s[0]));
        let s1 = s.drop_first();
        assert(forall|j: int| 0 <= j < i - 1 ==> is_space_char(s1[j]));
        lemma_trim_start_prefix(s1, i - 1);
        assert(s1.subrange(i - 1, s1.len() as int) =~= s.subrange(i, s.len() as int));
    }
}

proof fn lemma_trim_end_suffix(s: Seq<char>, e: int)
    requires
        0 <= e <= s.len(),
        forall|j: int| e <= j < s.len() ==> is_space_char(s[j]),
        e > 0 ==> !is_space_char(s[e - 1]),
    ensures
        trim_end_spec(s) == s.subrange(0, e),
    decreases s.len() - e,
{
    if e == s.len() {
        if s.len() == 0 {
            assert(trim_end_spec(s) =~= s.subrange(0, e));
        } else {
            assert(s.subrange(0, e) =~= s);
        }
    } else {
        assert(is_space_char(s.last()));
        let s1 = s.drop_last();
        lemma_trim_end_suffix(s1, e);
        assert(s1.subrange(0, e) =~= s.subrange(0, e));
    }
}

/// Appending one more digit can only grow the denoted number.
proof fn lemma_digits_value_grows(s: Seq<char>, i: int)
    requires
        0 <= i <= s.len(),
        all_digits(s),
    ensures
        digits_value(s.subrange(0, i)) <= digits_value(s),
    decreases s.len() - i,
{
    if i == s.len() {
        assert(s.subrange(0, i) =~= s);
    } else {
        lemma_digits_value_grows(s, i + 1);
        let t = s.subrange(0, i + 1);
        assert(t.drop_last() =~= s.subrange(0, i));
        assert(t.last() == s[i]);
        assert(is_digit_char(s[i]));
        assert(digits_value(t) == digits_value(s.subrange(0, i)) * 10 + digit_value(s[i]));
        assert(digits_value(s.subrange(0, i)) >= 0) by {
            lemma_digits_value_nonneg(s.subrange(0, i));
        }
    }
}

proof fn lemma_digits_value_nonneg(s: Seq<char>)
    requires
        all_digits(s),
    ensures
        digits_value(s) >= 0,
    decreases s.len(),
{
    if s.len() > 0 {
        assert(all_digits(s.drop_last()));
        lemma_digits_value_nonneg(s.drop_last());
        assert(is_digit_char(s.last()));
    }
}

fn is_space(c: char) -> (r: bool)
    ensures
        r == is_space_char(c),
{
    c == ' ' || c == '\n' || c == '\t' || c == '\r'
}

/// Trims surrounding whitespace from `s` and parses the rest as a `u8`,
/// exactly when it is a nonempty run of decimal digits denoting at most 255.
pub fn parse_trimmed_u8(s: &str) -> (r: Option<u8>)
    ensures
        r == spec_parse_u8(trim_spec(s@)),
{
    let n = s.unicode_len();
    let mut start: usize = 0;
    while start < n && is_space(s.get_char(start))
        invariant
            0 <= start <= n,
            n == s@.len(),
            forall|j: int| 0 <= j < start ==> is_space_char(s@[j]),
        decreases n - start,
    {
        start = start + 1;
    }
    let mut end: usize = n;
    while end > start && is_space(s.get_char(end - 1))
        invariant
            start <= end <= n,
            n == s@.len(),
            forall|j: int| 0 <= j < start ==> is_space_char(s@[j]),
            forall|j: int| end <= j < n ==> is_space_char(s@[j]),
        decreases end,
    {
        end = end - 1;
    }
    proof {
        lemma_trim_start_prefix(s@, start as int);
        let tail = s@.subrange(start as int, n as int);
        if end == start {
            lemma_trim_end_suffix(tail, 0);
        } else {
            assert(!is_space_char(tail[end - start - 1]));
            lemma_trim_end_suffix(tail, end - start);
        }
        assert(tail.subrange(0, end - start) =~= s@.subrange(start as int, end as int));
        assert(trim_spec(s@) == s@.subrange(start as int, end as int));
    }
    let ghost t = s@.subrange(start as int, end as int);
    if end == start {
        assert(t.len() == 0);
        return None;
    }
    let mut val: u32 = 0;
    let mut i: usize = start;
    while i < end
        invariant
            start <= i <= end <= n,
            n == s@.len(),
            t == s@.subrange(start as int, end as int),
            trim_spec(s@) == t,
            end > start,
            all_digits(t.subrange(0, i - start)),
            val <= 255,
            val == digits_value(t.subrange(0, i - start)),
        decreases end - i,
    {
        let c = s.get_char(i);
        let cv = c as u32;
        proof {
            assert(c == t[i - start]);
        }
        if cv < 48 || cv > 57 {
            proof {
                assert(!is_digit_char(t[i - start]));
                assert(!all_digits(t));
            }
            return None;
        }
        let d = cv - 48;
        let newval = val * 10 + d;
        proof {
            let pre = t.subrange(0, i - start);
            let cur = t.subrange(0, i + 1 - start);
            assert(cur.drop_last() =~= pre);
            assert(cur.last() == t[i - start]);
            assert(digits_value(cur) == newval);
            assert(all_digits(cur)) by {
                assert(forall|j: int| 0 <= j < cur.len() ==> cur[j] == t[j]);
            }
        }
        if newval > 255 {
            proof {
                if all_digits(t) {
                    lemma_digits_value_grows(t, i + 1 - start);
                }
            }
            return None;
        }
        val = newval;
        i = i + 1;
    }
    proof {
        assert(t.subrange(0, end - start) =~= t);
    }
    Some(val as u8)
}

/// Character-for-character string equality.
pub(crate) fn str_eq(a: &str, b: &str) -> (r: bool)
    ensures
        r == (a@ == b@),
{
    let an = a.unicode_len();
    let bn = b.unicode_len();
    if an != bn {
        return false;
    }
    let mut i: usize = 0;
    while i < an
        invariant
            0 <= i <= an,
            an == a@.len(),
            an == b@.len(),
            forall|j: int| 0 <= j < i ==> a@[j] == b@[j],
        decreases an - i,
    {
        if a.get_char(i) != b.get_char(i) {
            proof {
                assert(a@[i as int] != b@[i as int]);
            }
            return false;
        }
        i = i + 1;
    }
    proof {
        assert(a@ =~= b@);
    }
    true
}

/// The kernel-reported system state at one point in time: the fan-profile
/// index and the CPU turbo flag.
#[derive(Clone, Copy, PartialEq, Eq, Structural, Debug)]
pub struct State {
    fan_profile: u8,
    turbo: bool,
}

/// The fixed, bijective mapping from fan-profile index to profile name.
pub open spec fn spec_profile_name(i: int) -> Seq<char> {
    if i == 0 {
        "normal"@
    } else if i == 1 {
        "boost"@
    } else {
        "silent"@
    }
}

pub open spec fn spec_bool_str(b: bool) -> Seq<char> {
    if b {
        "true"@
    } else {
        "false"@
    }
}

/// The single-line JSON rendering of a state: exactly the keys `fan_profile`
/// (the profile name) and `turbo` (a boolean literal), in that order.
pub open spec fn spec_json(s: State) -> Seq<char> {
    "{\"fan_profile\": \""@ + spec_profile_name(s.spec_fan_profile() as int) + "\", \"turbo\": "@
        + spec_bool_str(s.spec_turbo()) + "}"@
}

/// The human rendering of a state.
pub open spec fn spec_human(s: State) -> Seq<char> {
    "Fan profile: "@ + spec_profile_name(s.spec_fan_profile() as int) + ", Turbo: "@
        + spec_bool_str(s.spec_turbo())
}

impl State {
    pub closed spec fn spec_fan_profile(self) -> u8 {
        self.fan_profile
    }

    pub closed spec fn spec_turbo(self) -> bool {
        self.turbo
    }

    /// The kernel can only report one of the three known profiles.
    pub open spec fn wf(self) -> bool {
        self.spec_fan_profile() < 3
    }

    /// Builds the state from the textual contents of the two kernel control
    /// files: both are trimmed and parsed as unsigned integers, the turbo
    /// value read as a boolean (zero is false, anything else true). Rejects
    /// contents that do not parse, and a fan profile outside the three known
    /// ones, as malformed.
    pub fn from_contents(fan: &str, turbo: &str) -> (r: Result<State, Error>)
        ensures
            match r {
                Ok(st) => {
                    &&& st.wf()
                    &&& spec_parse_u8(trim_spec(fan@)) == Some(st.spec_fan_profile())
                    &&& st.spec_fan_profile() < 3
                    &&& spec_parse_u8(trim_spec(turbo@)) matches Some(t) && st.spec_turbo() == (t
                        != 0)
                },
                Err(e) => {
                    &&& e == Error::StateMalformed
                    &&& (match spec_parse_u8(trim_spec(fan@)) {
                        Some(f) => f >= 3 || spec_parse_u8(trim_spec(turbo@)) is None,
                        None => true,
                    })
                },
            },
    {
        let fan_value = match parse_trimmed_u8(fan) {
            Some(v) => v,
            None => {
                return Err(Error::StateMalformed);
            },
        };
        if fan_value >= 3 {
            return Err(Error::StateMalformed);
        }
        let turbo_value = match parse_trimmed_u8(turbo) {
            Some(v) => v,
            None => {
                return Err(Error::StateMalformed);
            },
        };
        Ok(State { fan_profile: fan_value, turbo: turbo_value != 0 })
    }

    /// The current fan-profile index, in `{0, 1, 2}`.
    pub fn fan_profile(&self) -> (r: u8)
        ensures
            r == self.spec_fan_profile(),
    {
        self.fan_profile
    }

    /// The textual form of the current fan-profile index.
    pub fn fan_profile_str(&self) -> (r: &'static str)
        requires
            self.wf(),
        ensures
            r@ == spec_profile_name(self.spec_fan_profile() as int),
    {
        if self.fan_profile == 0 {
            "normal"
        } else if self.fan_profile == 1 {
            "boost"
        } else {
            "silent"
        }
    }

    /// The machine rendering: one line of JSON with exactly the keys
    /// `fan_profile` and `turbo`, in that order.
    pub fn json_string(&self) -> (r: String)
        requires
            self.wf(),
        ensures
            r@ == spec_json(*self),
    {
        let mut out = String::from_str("{\"fan_profile\": \"");
        out.append(self.fan_profile_str());
        out.append("\", \"turbo\": ");
        out.append(if self.turbo {
            "true"
        } else {
            "false"
        });
        out.append("}");
        out
    }

    /// The human rendering: `Fan profile: <name>, Turbo: <true|false>`.
    pub fn human_string(&self) -> (r: String)
        requires
            self.wf(),
        ensures
            r@ == spec_human(*self),
    {
        let mut out = String::from_str("Fan profile: ");
        out.append(self.fan_profile_str());
        out.append(", Turbo: ");
        out.append(if self.turbo {
            "true"
        } else {
            "false"
        });
        out
    }
}

/// The JSON rendering loses nothing: two well-formed states that render to
/// the same document hold the same fan profile and the same turbo flag, so a
/// reader parsing the document back recovers exactly what the probe read.
pub proof fn lemma_json_injective(a: State, b: State)
    requires
        a.wf(),
        b.wf(),
        spec_json(a) == spec_json(b),
    ensures
        a == b,
{
    reveal_strlit("{\"fan_profile\": \"");
    reveal_strlit("normal");
    reveal_strlit("boost");
    reveal_strlit("silent");
    reveal_strlit("\", \"turbo\": ");
    reveal_strlit("true");
    reveal_strlit("false");
    reveal_strlit("}");
    let ja = spec_json(a);
    let jb = spec_json(b);
    assert(ja[17] == spec_profile_name(a.spec_fan_profile() as int)[0]);
    assert(jb[17] == spec_profile_name(b.spec_fan_profile() as int)[0]);
    assert(a.spec_fan_profile() == b.spec_fan_profile());
    let n = spec_profile_name(a.spec_fan_profile() as int).len() as int;
    assert(ja[17 + n + 12] == spec_bool_str(a.spec_turbo())[0]);
    assert(jb[17 + n + 12] == spec_bool_str(b.spec_turbo())[0]);
    assert(a.spec_turbo() == b.spec_turbo());
}

} // verus!
