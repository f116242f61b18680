use vstd::prelude::*;

verus! {

/// The literal that starts the package name of every service client.
pub open spec fn sdk_prefix() -> Seq<char> {
    seq!['a', 'w', 's', '-', 's', 'd', 'k', '-']
}

pub open spec fn is_digit(c: char) -> bool {
    '0' <= c && c <= '9'
}

/// A non-empty run of decimal digits.
pub open spec fn is_digits(d: Seq<char>) -> bool {
    d.len() > 0 && forall|i: int| 0 <= i < d.len() ==> is_digit(#[trigger] d[i])
}

pub open spec fn digit_value(c: char) -> nat {
    (c as u32 - '0' as u32) as nat
}

/// The number that a run of decimal digits denotes; leading zeros add nothing.
pub open spec fn digits_value(d: Seq<char>) -> nat
    decreases d.len(),
{
    if d.len() == 0 {
        0
    } else {
        digits_value(d.drop_last()) * 10 + digit_value(d.last())
    }
}

/// `aws-sdk-<name>@<major>.<minor>.<patch>`
pub open spec fn package_suffix(
    name: Seq<char>,
    major: Seq<char>,
    minor: Seq<char>,
    patch: Seq<char>,
) -> Seq<char> {
    sdk_prefix() + name + seq!['@'] + major + seq!['.'] + minor + seq!['.'] + patch
}

/// `id` ends with the package name for `name`, followed by `@` and three digit runs
/// separated by dots. Whatever stands before is allowed.
pub open spec fn matches_with(
    id: Seq<char>,
    name: Seq<char>,
    major: Seq<char>,
    minor: Seq<char>,
    patch: Seq<char>,
) -> bool {
    &&& is_digits(major)
    &&& is_digits(minor)
    &&& is_digits(patch)
    &&& exists|lead: Seq<char>| id == lead + package_suffix(name, major, minor, patch)
}

/// `id` matches the package pattern for `name` in any way.
pub open spec fn is_package_id(id: Seq<char>, name: Seq<char>) -> bool {
    exists|major: Seq<char>, minor: Seq<char>, patch: Seq<char>|
        matches_with(id, name, major, minor, patch)
}

/// An exact version of a package.
#[derive(Debug, Clone, Copy, PartialEq, Eq, Structural)]
pub struct Version {
    pub major: u64,
    pub minor: u64,
    pub patch: u64,
}

/// `id` matches the package pattern for `name`, and its digit runs denote `v`.
pub open spec fn has_version(id: Seq<char>, name: Seq<char>, v: Version) -> bool {
    exists|major: Seq<char>, minor: Seq<char>, patch: Seq<char>|
        #![trigger matches_with(id, name, major, minor, patch)]
        {
            &&& matches_with(id, name, major, minor, patch)
            &&& digits_value(major) == v.major
            &&& digits_value(minor) == v.minor
            &&& digits_value(patch) == v.patch
        }
}

/// Where the run of digits that ends at `e` begins.
pub open spec fn run_start(s: Seq<char>, e: int) -> int
    decreases e,
{
    if 0 < e && e <= s.len() && is_digit(s[e - 1]) {
        run_start(s, e - 1)
    } else {
        e
    }
}

proof fn lemma_run_start(s: Seq<char>, k: int, e: int)
    requires
        0 <= k <= e <= s.len(),
        forall|j: int| k <= j < e ==> is_digit(#[trigger] s[j]),
        k == 0 || !is_digit(s[k - 1]),
    ensures
        run_start(s, e) == k,
    decreases e - k,
{
    if e > k {
        lemma_run_start(s, k, e - 1);
    }
}

/// The layout of a match: where each part of the package suffix sits in `id`.
proof fn lemma_match_layout(
    id: Seq<char>,
    name: Seq<char>,
    major: Seq<char>,
    minor: Seq<char>,
    patch: Seq<char>,
)
    requires
        matches_with(id, name, major, minor, patch),
    ensures
        ({
            let r3 = run_start(id, id.len() as int);
            let r2 = run_start(id, r3 - 1);
            let r1 = run_start(id, r2 - 1);
            &&& r1 - 1 - name.len() - 8 >= 0
            &&& r3 == id.len() - patch.len()
            &&& r2 == r3 - 1 - minor.len()
            &&& r1 == r2 - 1 - major.len()
            &&& id[r3 - 1] == '.'
            &&& id[r2 - 1] == '.'
            &&& id[r1 - 1] == '@'
            &&& patch == id.subrange(r3, id.len() as int)
            &&& minor == id.subrange(r2, r3 - 1)
            &&& major == id.subrange(r1, r2 - 1)
            &&& id.subrange(r1 - 1 - name.len() - 8, r1 - 1) == sdk_prefix() + name
        }),
{
    let lead = choose|lead: Seq<char>| id == lead + package_suffix(name, major, minor, patch);
    let at: int = lead.len() + 8 + name.len() as int;
    let d1: int = at + 1 + major.len();
    let d2: int = d1 + 1 + minor.len();
    let l: int = id.len() as int;
    assert(id.subrange(d2 + 1, l) =~= patch);
    assert(id.subrange(d1 + 1, d2) =~= minor);
    assert(id.subrange(at + 1, d1) =~= major);
    assert(id.subrange(lead.len() as int, at) =~= sdk_prefix() + name);
    assert(id[d2] == '.');
    assert(id[d1] == '.');
    assert(id[at] == '@');
    assert forall|j: int| d2 + 1 <= j < l implies is_digit(#[trigger] id[j]) by {
        assert(id[j] == patch[j - d2 - 1]);
    }
    lemma_run_start(id, d2 + 1, l);
    assert forall|j: int| d1 + 1 <= j < d2 implies is_digit(#[trigger] id[j]) by {
        assert(id[j] == minor[j - d1 - 1]);
    }
    lemma_run_start(id, d1 + 1, d2);
    assert forall|j: int| at + 1 <= j < d1 implies is_digit(#[trigger] id[j]) by {
        assert(id[j] == major[j - at - 1]);
    }
    lemma_run_start(id, at + 1, d1);
}

/// The digit runs of a match, located as `try_match` finds them.
proof fn lemma_version_layout(id: Seq<char>, name: Seq<char>, v: Version)
    requires
        has_version(id, name, v),
    ensures
        ({
            let r3 = run_start(id, id.len() as int);
            let r2 = run_start(id, r3 - 1);
            let r1 = run_start(id, r2 - 1);
            &&& r1 - 1 - name.len() - 8 >= 0
            &&& r1 < r2 - 1 && r2 < r3 - 1 && r3 < id.len()
            &&& id[r3 - 1] == '.'
            &&& id[r2 - 1] == '.'
            &&& id[r1 - 1] == '@'
            &&& id.subrange(r1 - 1 - name.len() - 8, r1 - 1) == sdk_prefix() + name
            &&& digits_value(id.subrange(r1, r2 - 1)) == v.major
            &&& digits_value(id.subrange(r2, r3 - 1)) == v.minor
            &&& digits_value(id.subrange(r3, id.len() as int)) == v.patch
        }),
{
    let (major, minor, patch) = choose|major: Seq<char>, minor: Seq<char>, patch: Seq<char>|
        {
            &&& matches_with(id, name, major, minor, patch)
            &&& digits_value(major) == v.major
            &&& digits_value(minor) == v.minor
            &&& digits_value(patch) == v.patch
        };
    lemma_match_layout(id, name, major, minor, patch);
}

/// Where the package name must begin in `id` for it to match the pattern for `name`.
pub open spec fn lead_start(id: Seq<char>, name: Seq<char>) -> int {
    at_index(id) - name.len() - 8
}

proof fn lemma_lead_fixed(id: Seq<char>, name: Seq<char>, v: Version, k: int)
    requires
        has_version(id, name, v),
        0 <= k < 8 + name.len(),
    ensures
        lead_start(id, name) >= 0,
        id[lead_start(id, name) + k] == (sdk_prefix() + name)[k],
{
    let (major, minor, patch) = choose|major: Seq<char>, minor: Seq<char>, patch: Seq<char>|
        {
            &&& matches_with(id, name, major, minor, patch)
            &&& digits_value(major) == v.major
            &&& digits_value(minor) == v.minor
            &&& digits_value(patch) == v.patch
        };
    lemma_match_lead(id, name, major, minor, patch, k);
}

/// An identifier names at most one version of a given package: the pattern
/// leaves no choice in where its digit runs begin and end.
pub proof fn lemma_version_unique(id: Seq<char>, name: Seq<char>, v1: Version, v2: Version)
    requires
        has_version(id, name, v1),
        has_version(id, name, v2),
    ensures
        v1 == v2,
{
    lemma_version_layout(id, name, v1);
    lemma_version_layout(id, name, v2);
}

/// A longer run of digits never denotes a smaller number than its prefix.
proof fn lemma_digits_value_prefix(d: Seq<char>, k: int)
    requires
        0 <= k <= d.len(),
    ensures
        digits_value(d.subrange(0, k)) <= digits_value(d),
    decreases d.len(),
{
    if k < d.len() {
        lemma_digits_value_prefix(d.drop_last(), k);
        assert(d.drop_last().subrange(0, k) =~= d.subrange(0, k));
    } else {
        assert(d.subrange(0, k) =~= d);
    }
}

/// The characters of `s`, one by one.
fn chars_of(s: &str) -> (r: Vec<char>)
    ensures
        r@ == s@,
{
    let n = s.unicode_len();
    let mut r: Vec<char> = Vec::new();
    let mut i: usize = 0;
    while i < n
        invariant
            n == s@.len(),
            i <= n,
            r@ == s@.subrange(0, i as int),
        decreases n - i,
    {
        r.push(s.get_char(i));
        i = i + 1;
    }
    assert(r@ =~= s@);
    r
}

/// Where the run of digits in `s` that ends at `e` begins.
fn digit_run_start(s: &Vec<char>, e: usize) -> (r: usize)
    requires
        e <= s@.len(),
    ensures
        r == run_start(s@, e as int),
        r <= e,
        forall|j: int| r <= j < e ==> is_digit(#[trigger] s@[j]),
{
    let mut i = e;
    while i > 0 && '0' <= s[i - 1] && s[i - 1] <= '9'
        invariant
            i <= e <= s@.len(),
            run_start(s@, i as int) == run_start(s@, e as int),
            forall|j: int| i <= j < e ==> is_digit(#[trigger] s@[j]),
        decreases i,
    {
        i = i - 1;
    }
    i
}

/// The number denoted by the digits of `s` in `[start, end)`, if it fits in a `u64`.
fn parse_digits(s: &Vec<char>, start: usize, end: usize) -> (r: Option<u64>)
    requires
        start <= end <= s@.len(),
        forall|j: int| start <= j < end ==> is_digit(#[trigger] s@[j]),
    ensures
        match r {
            Some(x) => x == digits_value(s@.subrange(start as int, end as int)),
            None => digits_value(s@.subrange(start as int, end as int)) > u64::MAX,
        },
{
    let mut value: u64 = 0;
    let mut i = start;
    while i < end
        invariant
            start <= i <= end <= s@.len(),
            forall|j: int| start <= j < end ==> is_digit(#[trigger] s@[j]),
            value == digits_value(s@.subrange(start as int, i as int)),
        decreases end - i,
    {
        let c = s[i];
        let d = (c as u32 - '0' as u32) as u64;
        assert(s@.subrange(start as int, i + 1).drop_last() =~= s@.subrange(start as int, i as int));
        if value > (u64::MAX - d) / 10 {
            proof {
                let whole = s@.subrange(start as int, end as int);
                assert(value * 10 + d > u64::MAX) by (nonlinear_arith)
                    requires
                        value > (u64::MAX - d) / 10,
                        d <= 9,
                ;
                lemma_digits_value_prefix(whole, i + 1 - start);
                assert(whole.subrange(0, i + 1 - start) =~= s@.subrange(start as int, i + 1));
            }
            return None;
        }
        assert(value * 10 + d <= u64::MAX) by (nonlinear_arith)
            requires
                value <= (u64::MAX - d) / 10,
                d <= 9,
        ;
        value = value * 10 + d;
        i = i + 1;
    }
    Some(value)
}

/// The `j`-th character of `aws-sdk-`.
fn sdk_char(j: usize) -> (c: char)
    requires
        j < 8,
    ensures
        c == sdk_prefix()[j as int],
{
    match j {
        0 => 'a',
        1 => 'w',
        2 => 's',
        3 => '-',
        4 => 's',
        5 => 'd',
        6 => 'k',
        _ => '-',
    }
}

/// Recognises the package identifiers of one service's client library.
pub struct Pattern {
    name: Vec<char>,
}

impl View for Pattern {
    type V = Seq<char>;

    /// The canonical name the pattern was built for.
    closed spec fn view(&self) -> Seq<char> {
        self.name@
    }
}

/// The pattern for the client package of the service named `canonical_name`.
pub fn build_pattern(canonical_name: &str) -> (r: Pattern)
    ensures
        r@ == canonical_name@,
{
    Pattern { name: chars_of(canonical_name) }
}

impl Pattern {
    /// The version that `id` names, if it is an identifier of this pattern's
    /// package whose version parts each fit in a `u64`.
    pub fn try_match(&self, id: &str) -> (r: Option<Version>)
        ensures
            match r {
                Some(v) => has_version(id@, self@, v),
                None => forall|v: Version| !has_version(id@, self@, v),
            },
    {
        let cs = chars_of(id);
        let l = cs.len();
        let r3 = digit_run_start(&cs, l);
        if r3 == l || r3 == 0 || cs[r3 - 1] != '.' {
            proof {
                assert forall|v: Version| !has_version(id@, self@, v) by {
                    if has_version(id@, self@, v) {
                        lemma_version_layout(id@, self@, v);
                    }
                }
            }
            return None;
        }
        let r2 = digit_run_start(&cs, r3 - 1);
        if r2 == r3 - 1 || r2 == 0 || cs[r2 - 1] != '.' {
            proof {
                assert forall|v: Version| !has_version(id@, self@, v) by {
                    if has_version(id@, self@, v) {
                        lemma_version_layout(id@, self@, v);
                    }
                }
            }
            return None;
        }
        let r1 = digit_run_start(&cs, r2 - 1);
        if r1 == r2 - 1 || r1 == 0 || cs[r1 - 1] != '@' {
            proof {
                assert forall|v: Version| !has_version(id@, self@, v) by {
                    if has_version(id@, self@, v) {
                        lemma_version_layout(id@, self@, v);
                    }
                }
            }
            return None;
        }
        let at = r1 - 1;
        let n = self.name.len();
        if at < 8 || at - 8 < n {
            proof {
                assert forall|v: Version| !has_version(id@, self@, v) by {
                    if has_version(id@, self@, v) {
                        lemma_version_layout(id@, self@, v);
                    }
                }
            }
            return None;
        }
        let start = at - 8 - n;
        assert(start == lead_start(id@, self@));
        let ghost lead = sdk_prefix() + self@;
        let mut j: usize = 0;
        while j < 8 + n
            invariant
                n == self@.len(),
                start + 8 + n == at,
                at < cs@.len(),
                cs@ == id@,
                start == lead_start(id@, self@),
                lead == sdk_prefix() + self@,
                j <= 8 + n,
                forall|k: int| 0 <= k < j ==> cs@[start + k] == #[trigger] lead[k],
            decreases 8 + n - j,
        {
            let expected = if j < 8 {
                sdk_char(j)
            } else {
                self.name[j - 8]
            };
            assert(expected == lead[j as int]);
            if cs[start + j] != expected {
                proof {
                    assert forall|v: Version| !has_version(id@, self@, v) by {
                        if has_version(id@, self@, v) {
                            lemma_lead_fixed(id@, self@, v, j as int);
                        }
                    }
                }
                return None;
            }
            j = j + 1;
        }
        assert(cs@.subrange(start as int, at as int) =~= lead);
        let major = parse_digits(&cs, r1, r2 - 1);
        let minor = parse_digits(&cs, r2, r3 - 1);
        let patch = parse_digits(&cs, r3, l);
        match (major, minor, patch) {
            (Some(major), Some(minor), Some(patch)) => {
                let v = Version { major, minor, patch };
                proof {
                    let a = cs@.subrange(r1 as int, r2 - 1);
                    let b = cs@.subrange(r2 as int, r3 - 1);
                    let c = cs@.subrange(r3 as int, l as int);
                    let front = cs@.subrange(0, start as int);
                    assert(id@ =~= front + package_suffix(self@, a, b, c));
                    assert(matches_with(id@, self@, a, b, c));
                }
                Some(v)
            },
            _ => {
                proof {
                    assert forall|v: Version| !has_version(id@, self@, v) by {
                        if has_version(id@, self@, v) {
                            lemma_version_layout(id@, self@, v);
                        }
                    }
                }
                None
            },
        }
    }
}

/// A character that may appear in a canonical name.
pub open spec fn is_name_char(c: char) -> bool {
    ('a' <= c && c <= 'z') || is_digit(c)
}

/// A possible canonical name: non-empty, lowercase letters and digits only.
pub open spec fn is_name(name: Seq<char>) -> bool {
    name.len() > 0 && forall|i: int| 0 <= i < name.len() ==> is_name_char(#[trigger] name[i])
}

/// An identifier of the exact shape `aws-sdk-<name>@<major>.<minor>.<patch>` is
/// matched by the pattern for `name`, which reads back exactly the numbers
/// written, leading zeros or not.
pub proof fn lemma_package_id_matches(
    name: Seq<char>,
    major: Seq<char>,
    minor: Seq<char>,
    patch: Seq<char>,
)
    requires
        is_digits(major),
        is_digits(minor),
        is_digits(patch),
        digits_value(major) <= u64::MAX,
        digits_value(minor) <= u64::MAX,
        digits_value(patch) <= u64::MAX,
    ensures
        forall|v: Version|
            has_version(package_suffix(name, major, minor, patch), name, v) <==> v == (Version {
                major: digits_value(major) as u64,
                minor: digits_value(minor) as u64,
                patch: digits_value(patch) as u64,
            }),
{
    let id = package_suffix(name, major, minor, patch);
    let w = Version {
        major: digits_value(major) as u64,
        minor: digits_value(minor) as u64,
        patch: digits_value(patch) as u64,
    };
    assert(id == Seq::<char>::empty() + id);
    assert(matches_with(id, name, major, minor, patch));
    assert(has_version(id, name, w));
    assert forall|v: Version| has_version(id, name, v) implies v == w by {
        lemma_version_unique(id, name, v, w);
    }
}

/// Where the `@` of a match must stand in `id`.
pub open spec fn at_index(id: Seq<char>) -> int {
    let r3 = run_start(id, id.len() as int);
    let r2 = run_start(id, r3 - 1);
    run_start(id, r2 - 1) - 1
}

proof fn lemma_match_lead(
    id: Seq<char>,
    name: Seq<char>,
    major: Seq<char>,
    minor: Seq<char>,
    patch: Seq<char>,
    k: int,
)
    requires
        matches_with(id, name, major, minor, patch),
        0 <= k < 8 + name.len(),
    ensures
        at_index(id) - name.len() - 8 >= 0,
        at_index(id) < id.len(),
        id[at_index(id) - name.len() - 8 + k] == (sdk_prefix() + name)[k],
{
    lemma_match_layout(id, name, major, minor, patch);
    let s = at_index(id) - name.len() - 8;
    assert(id.subrange(s, s + 8 + name.len())[k] == id[s + k]);
}

/// Two canonical names whose patterns both match one identifier are the same
/// name: a name is never taken for a longer one that it begins or ends.
#[verifier::rlimit(50)]
pub proof fn lemma_name_determined(
    id: Seq<char>,
    name1: Seq<char>,
    name2: Seq<char>,
)
    requires
        is_name(name1),
        is_name(name2),
        is_package_id(id, name1),
        is_package_id(id, name2),
    ensures
        name1 == name2,
{
    let (a1, b1, c1) = choose|a: Seq<char>, b: Seq<char>, c: Seq<char>|
        matches_with(id, name1, a, b, c);
    let (a2, b2, c2) = choose|a: Seq<char>, b: Seq<char>, c: Seq<char>|
        matches_with(id, name2, a, b, c);
    let at = at_index(id);
    if name1.len() < name2.len() {
        let k = 7int;
        lemma_match_lead(id, name1, a1, b1, c1, k);
        let k2 = name2.len() - name1.len() + k;
        lemma_match_lead(id, name2, a2, b2, c2, k2);
        assert(is_name_char(name2[k2 - 8]));
    } else if name2.len() < name1.len() {
        let k = 7int;
        lemma_match_lead(id, name2, a2, b2, c2, k);
        let k1 = name1.len() - name2.len() + k;
        lemma_match_lead(id, name1, a1, b1, c1, k1);
        assert(is_name_char(name1[k1 - 8]));
    } else {
        assert forall|i: int| 0 <= i < name1.len() implies name1[i] == name2[i] by {
            lemma_match_lead(id, name1, a1, b1, c1, i + 8);
            lemma_match_lead(id, name2, a2, b2, c2, i + 8);
        }
        assert(name1 =~= name2);
    }
}

} // verus!
