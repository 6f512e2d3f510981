use vstd::prelude::*;
use vstd::string::StrSliceExecFns;
use vstd::string::StringExecFns;

use crate::error::ProfileError;

verus! {

/// One independently controllable fan of the chassis.
#[derive(Debug, Hash, PartialEq, Eq, Structural, Clone, Copy)]
pub enum FanCurvePU {
    CPU,
    GPU,
    MID,
}

/// The hwmon index character of a fan: `1`, `2` or `3`.
pub open spec fn index_char(fan: FanCurvePU) -> char {
    match fan {
        FanCurvePU::CPU => '1',
        FanCurvePU::GPU => '2',
        FanCurvePU::MID => '3',
    }
}

/// The lower case name of a fan.
pub open spec fn fan_name(fan: FanCurvePU) -> Seq<char> {
    match fan {
        FanCurvePU::CPU => seq!['c', 'p', 'u'],
        FanCurvePU::GPU => seq!['g', 'p', 'u'],
        FanCurvePU::MID => seq!['m', 'i', 'd'],
    }
}

/// The name of the hwmon attribute that holds a fan's enable (mode) value.
pub open spec fn enable_attr(fan: FanCurvePU) -> Seq<char> {
    seq!['p', 'w', 'm', index_char(fan)] + seq!['_', 'e', 'n', 'a', 'b', 'l', 'e']
}

/// The characters that `char::is_whitespace` accepts (Unicode White_Space).
pub open spec fn is_ws(c: char) -> bool {
    ('\u{9}' <= c && c <= '\u{d}') || c == ' ' || c == '\u{85}' || c == '\u{a0}'
        || c == '\u{1680}' || ('\u{2000}' <= c && c <= '\u{200a}') || c == '\u{2028}'
        || c == '\u{2029}' || c == '\u{202f}' || c == '\u{205f}' || c == '\u{3000}'
}

/// ASCII lower case of one character; others are kept.
pub open spec fn ascii_lower(c: char) -> char {
    if 'A' <= c && c <= 'Z' {
        ((c as u8) + 32) as char
    } else {
        c
    }
}

/// `s` without its leading white space.
pub open spec fn trim_start(s: Seq<char>) -> Seq<char>
    decreases s.len(),
{
    if s.len() > 0 && is_ws(s[0]) {
        trim_start(s.drop_first())
    } else {
        s
    }
}

/// `s` without its trailing white space.
pub open spec fn trim_end(s: Seq<char>) -> Seq<char>
    decreases s.len(),
{
    if s.len() > 0 && is_ws(s.last()) {
        trim_end(s.drop_last())
    } else {
        s
    }
}

/// `s` without leading and trailing white space.
pub open spec fn trim(s: Seq<char>) -> Seq<char> {
    trim_end(trim_start(s))
}

/// `t` equals `name` when ASCII case is ignored in `t`.
pub open spec fn equal_ignoring_case(t: Seq<char>, name: Seq<char>) -> bool {
    t.len() == name.len() && forall|i: int| 0 <= i < t.len() ==> ascii_lower(#[trigger] t[i]) == name[i]
}

/// The fan that a text names: `cpu`, `gpu` or `mid` in any ASCII case, with
/// white space around it tolerated.
pub open spec fn fan_from_text(s: Seq<char>) -> Option<FanCurvePU> {
    if equal_ignoring_case(trim(s), fan_name(FanCurvePU::CPU)) {
        Some(FanCurvePU::CPU)
    } else if equal_ignoring_case(trim(s), fan_name(FanCurvePU::GPU)) {
        Some(FanCurvePU::GPU)
    } else if equal_ignoring_case(trim(s), fan_name(FanCurvePU::MID)) {
        Some(FanCurvePU::MID)
    } else {
        None
    }
}

/// `p` occurs in `s` as a contiguous part.
pub open spec fn contains(s: Seq<char>, p: Seq<char>) -> bool {
    exists|i: int| 0 <= i && i + p.len() <= s.len() && #[trigger] s.subrange(i, i + p.len()) == p
}

/// Some attribute name contains the enable attribute of `fan`.
pub open spec fn has_enable_attr(attrs: Seq<Seq<char>>, fan: FanCurvePU) -> bool {
    exists|k: int| 0 <= k < attrs.len() && contains(#[trigger] attrs[k], enable_attr(fan))
}

/// `fan` alone if the attributes show it, else nothing.
pub open spec fn detected_one(attrs: Seq<Seq<char>>, fan: FanCurvePU) -> Seq<FanCurvePU> {
    if has_enable_attr(attrs, fan) {
        seq![fan]
    } else {
        seq![]
    }
}

/// The fans that a node with these attribute names controls, in the order
/// CPU, GPU, MID.
pub open spec fn detected_fans(attrs: Seq<Seq<char>>) -> Seq<FanCurvePU> {
    detected_one(attrs, FanCurvePU::CPU) + detected_one(attrs, FanCurvePU::GPU) + detected_one(
        attrs,
        FanCurvePU::MID,
    )
}

/// No fan occurs twice.
pub open spec fn fans_unique(fans: Seq<FanCurvePU>) -> bool {
    forall|i: int, j: int| 0 <= i < j < fans.len() ==> fans[i] != fans[j]
}

/// Whether the character at `i` starts an occurrence of `p` in `s`.
fn matches_at(s: &str, p: &str, i: usize) -> (r: bool)
    requires
        i as int + p@.len() <= s@.len(),
        s@.len() <= usize::MAX,
    ensures
        r == (s@.subrange(i as int, i + p@.len()) == p@),
{
    let plen = p.unicode_len();
    let mut k: usize = 0;
    while k < plen
        invariant
            plen == p@.len(),
            i as int + plen <= s@.len(),
            s@.len() <= usize::MAX,
            k <= plen,
            forall|m: int| 0 <= m < k ==> s@[i + m] == p@[m],
        decreases plen - k,
    {
        if s.get_char(i + k) != p.get_char(k) {
            assert(s@.subrange(i as int, i + p@.len())[k as int] != p@[k as int]);
            return false;
        }
        k = k + 1;
    }
    assert(s@.subrange(i as int, i + p@.len()) =~= p@);
    true
}

/// Whether `p` occurs in `s`.
pub fn str_contains(s: &str, p: &str) -> (r: bool)
    ensures
        r == contains(s@, p@),
{
    let slen = s.unicode_len();
    let plen = p.unicode_len();
    if plen > slen {
        return false;
    }
    if plen == 0 {
        assert(s@.subrange(0int, 0int + p@.len()) =~= p@);
        return true;
    }
    let mut i: usize = 0;
    while i <= slen - plen
        invariant
            slen == s@.len(),
            plen == p@.len(),
            0 < plen <= slen,
            i <= slen - plen + 1,
            forall|j: int| 0 <= j < i ==> #[trigger] s@.subrange(j, j + p@.len()) != p@,
        decreases slen - plen + 1 - i,
    {
        if matches_at(s, p, i) {
            return true;
        }
        i = i + 1;
    }
    false
}

/// The `name` attribute of the hwmon node that exposes custom fan curves.
pub open spec fn fan_curve_node_name() -> Seq<char> {
    seq!['a', 's', 'u', 's', '_', 'c', 'u', 's', 't', 'o', 'm', '_', 'f', 'a', 'n', '_', 'c', 'u', 'r', 'v', 'e']
}

/// Whether a hwmon node's `name` attribute marks it as the custom fan curve
/// node.
pub fn is_fan_curve_node_name(name: &str) -> (r: bool)
    ensures
        r == (name@ == fan_curve_node_name()),
{
    let sentinel = "asus_custom_fan_curve";
    proof {
        reveal_strlit("asus_custom_fan_curve");
        assert(sentinel@ =~= fan_curve_node_name());
    }
    let n = name.unicode_len();
    if n != sentinel.unicode_len() {
        return false;
    }
    let r = matches_at(name, sentinel, 0);
    assert(name@.subrange(0int, 0int + sentinel@.len()) =~= name@);
    r
}

impl FanCurvePU {
    /// The hwmon index character of this fan.
    pub fn index(self) -> (r: char)
        ensures
            r == index_char(self),
    {
        match self {
            FanCurvePU::CPU => '1',
            FanCurvePU::GPU => '2',
            FanCurvePU::MID => '3',
        }
    }

    /// The lower case name of this fan.
    pub fn name(self) -> (r: &'static str)
        ensures
            r@ == fan_name(self),
    {
        proof {
            reveal_strlit("cpu");
            reveal_strlit("gpu");
            reveal_strlit("mid");
        }
        let r = match self {
            FanCurvePU::CPU => "cpu",
            FanCurvePU::GPU => "gpu",
            FanCurvePU::MID => "mid",
        };
        assert(r@ =~= fan_name(self));
        r
    }

    /// The name of the hwmon attribute that holds this fan's enable value,
    /// `pwm<index>_enable`.
    pub fn enable_attribute(self) -> (r: String)
        ensures
            r@ == enable_attr(self),
    {
        proof {
            reveal_strlit("pwm1_enable");
            reveal_strlit("pwm2_enable");
            reveal_strlit("pwm3_enable");
        }
        let s = match self {
            FanCurvePU::CPU => "pwm1_enable",
            FanCurvePU::GPU => "pwm2_enable",
            FanCurvePU::MID => "pwm3_enable",
        };
        assert(s@ =~= enable_attr(self));
        String::from_str(s)
    }

    /// Whether some attribute name contains the enable attribute of `fan`.
    fn shown_by(attrs: &Vec<String>, fan: FanCurvePU) -> (r: bool)
        ensures
            r == has_enable_attr(attrs@.map_values(|a: String| a@), fan),
    {
        let ghost names = attrs@.map_values(|a: String| a@);
        let pwm_enable = fan.enable_attribute();
        let mut k: usize = 0;
        while k < attrs.len()
            invariant
                k <= attrs.len(),
                names == attrs@.map_values(|a: String| a@),
                pwm_enable@ == enable_attr(fan),
                forall|m: int| 0 <= m < k ==> !contains(#[trigger] names[m], enable_attr(fan)),
            decreases attrs.len() - k,
        {
            if str_contains(attrs[k].as_str(), pwm_enable.as_str()) {
                assert(contains(names[k as int], enable_attr(fan)));
                return true;
            }
            k = k + 1;
        }
        false
    }

    /// The fans whose enable attribute some of the node's attribute names
    /// contain, in the order CPU, GPU, MID. An empty result means that the
    /// node controls no fan curve.
    pub fn which_fans(attrs: &Vec<String>) -> (r: Vec<FanCurvePU>)
        ensures
            r@ == detected_fans(attrs@.map_values(|a: String| a@)),
            fans_unique(r@),
    {
        let mut fans: Vec<FanCurvePU> = Vec::new();
        if Self::shown_by(attrs, FanCurvePU::CPU) {
            fans.push(FanCurvePU::CPU);
        }
        if Self::shown_by(attrs, FanCurvePU::GPU) {
            fans.push(FanCurvePU::GPU);
        }
        if Self::shown_by(attrs, FanCurvePU::MID) {
            fans.push(FanCurvePU::MID);
        }
        let ghost names = attrs@.map_values(|a: String| a@);
        assert(fans@ =~= detected_fans(names));
        fans
    }

    /// Parse a fan name: `cpu`, `gpu` or `mid` in any ASCII case, with white
    /// space around it tolerated.
    pub fn parse_name(s: &str) -> (r: Result<FanCurvePU, ProfileError>)
        ensures
            match fan_from_text(s@) {
                Some(f) => r == Ok::<FanCurvePU, ProfileError>(f),
                None => r == Err::<FanCurvePU, ProfileError>(ProfileError::ParseProfileName),
            },
    {
        proof {
            reveal_strlit("cpu");
            reveal_strlit("gpu");
            reveal_strlit("mid");
            assert("cpu"@ =~= fan_name(FanCurvePU::CPU));
            assert("gpu"@ =~= fan_name(FanCurvePU::GPU));
            assert("mid"@ =~= fan_name(FanCurvePU::MID));
        }
        let (start, end) = trimmed_bounds(s);
        if name_at(s, start, end, "cpu") {
            Ok(FanCurvePU::CPU)
        } else if name_at(s, start, end, "gpu") {
            Ok(FanCurvePU::GPU)
        } else if name_at(s, start, end, "mid") {
            Ok(FanCurvePU::MID)
        } else {
            Err(ProfileError::ParseProfileName)
        }
    }
}

impl std::str::FromStr for FanCurvePU {
    type Err = ProfileError;

    fn from_str(fan: &str) -> (r: Result<Self, Self::Err>)
        ensures
            match fan_from_text(fan@) {
                Some(f) => r == Ok::<FanCurvePU, ProfileError>(f),
                None => r == Err::<FanCurvePU, ProfileError>(ProfileError::ParseProfileName),
            },
    {
        Self::parse_name(fan)
    }
}

impl From<FanCurvePU> for &str {
    fn from(pu: FanCurvePU) -> (r: &'static str)
        ensures
            r@ == fan_name(pu),
    {
        proof {
            reveal_strlit("cpu");
            reveal_strlit("gpu");
            reveal_strlit("mid");
        }
        let r = match pu {
            FanCurvePU::CPU => "cpu",
            FanCurvePU::GPU => "gpu",
            FanCurvePU::MID => "mid",
        };
        assert(r@ =~= fan_name(pu));
        r
    }
}

impl vstd::std_specs::convert::FromSpecImpl<FanCurvePU> for &str {
    open spec fn obeys_from_spec() -> bool {
        true
    }

    open spec fn from_spec(pu: FanCurvePU) -> &'static str {
        match pu {
            FanCurvePU::CPU => "cpu",
            FanCurvePU::GPU => "gpu",
            FanCurvePU::MID => "mid",
        }
    }
}

impl From<FanCurvePU> for char {
    fn from(pu: FanCurvePU) -> (r: char) {
        pu.index()
    }
}

impl vstd::std_specs::convert::FromSpecImpl<FanCurvePU> for char {
    open spec fn obeys_from_spec() -> bool {
        true
    }

    open spec fn from_spec(pu: FanCurvePU) -> char {
        index_char(pu)
    }
}

impl Default for FanCurvePU {
    fn default() -> (r: Self)
        ensures
            r == FanCurvePU::CPU,
    {
        FanCurvePU::CPU
    }
}

/// Whether `c` is white space as `char::is_whitespace` has it.
fn is_whitespace(c: char) -> (r: bool)
    ensures
        r == is_ws(c),
{
    ('\u{9}' <= c && c <= '\u{d}') || c == ' ' || c == '\u{85}' || c == '\u{a0}' || c == '\u{1680}'
        || ('\u{2000}' <= c && c <= '\u{200a}') || c == '\u{2028}' || c == '\u{2029}' || c
        == '\u{202f}' || c == '\u{205f}' || c == '\u{3000}'
}

fn lower(c: char) -> (r: char)
    ensures
        r == ascii_lower(c),
{
    if 'A' <= c && c <= 'Z' {
        ((c as u8) + 32) as char
    } else {
        c
    }
}

/// The bounds of `s` without leading and trailing white space.
fn trimmed_bounds(s: &str) -> (r: (usize, usize))
    ensures
        r.0 <= r.1 <= s@.len(),
        s@.subrange(r.0 as int, r.1 as int) == trim(s@),
{
    let n = s.unicode_len();
    let mut i: usize = 0;
    assert(s@.subrange(0, n as int) =~= s@);
    while i < n && is_whitespace(s.get_char(i))
        invariant
            n == s@.len(),
            i <= n,
            trim_start(s@) == trim_start(s@.subrange(i as int, n as int)),
        decreases n - i,
    {
        assert(s@.subrange(i as int, n as int).drop_first() =~= s@.subrange(i + 1, n as int));
        i = i + 1;
    }
    assert(trim_start(s@.subrange(i as int, n as int)) == s@.subrange(i as int, n as int));
    let mut j: usize = n;
    while j > i && is_whitespace(s.get_char(j - 1))
        invariant
            n == s@.len(),
            i <= j <= n,
            trim(s@) == trim_end(s@.subrange(i as int, j as int)),
        decreases j - i,
    {
        assert(s@.subrange(i as int, j as int).drop_last() =~= s@.subrange(i as int, j - 1));
        j = j - 1;
    }
    (i, j)
}

/// Whether the characters of `s` from `start` to `end` equal `name`, ASCII
/// case ignored on the side of `s`.
fn name_at(s: &str, start: usize, end: usize, name: &str) -> (r: bool)
    requires
        start <= end <= s@.len(),
    ensures
        r == equal_ignoring_case(s@.subrange(start as int, end as int), name@),
{
    let ghost t = s@.subrange(start as int, end as int);
    if end - start != name.unicode_len() {
        return false;
    }
    let mut k: usize = 0;
    while k < end - start
        invariant
            start <= end <= s@.len(),
            t == s@.subrange(start as int, end as int),
            t.len() == name@.len(),
            k <= end - start,
            forall|m: int| 0 <= m < k ==> ascii_lower(#[trigger] t[m]) == name@[m],
        decreases end - start - k,
    {
        if lower(s.get_char(start + k)) != name.get_char(k) {
            assert(t[k as int] == s@[start + k]);
            return false;
        }
        k = k + 1;
    }
    true
}

} // verus!
