//! Semantic versions: a numeric triple plus optional pre-release and
//! build-metadata labels, rendered as `MAJOR.MINOR.PATCH[-PRE][+BUILD]`.

use vstd::prelude::*;
use vstd::string::StringExecFns;

verus! {

/// The character that renders a single decimal digit.
pub open spec fn dec_digit(d: nat) -> char {
    if d == 0 {
        '0'
    } else if d == 1 {
        '1'
    } else if d == 2 {
        '2'
    } else if d == 3 {
        '3'
    } else if d == 4 {
        '4'
    } else if d == 5 {
        '5'
    } else if d == 6 {
        '6'
    } else if d == 7 {
        '7'
    } else if d == 8 {
        '8'
    } else {
        '9'
    }
}

/// The standard decimal rendering of a natural number, without leading
/// zeroes (`0` itself renders as the single character `'0'`).
pub open spec fn dec_text(n: nat) -> Seq<char>
    decreases n,
{
    if n < 10 {
        seq![dec_digit(n)]
    } else {
        dec_text(n / 10) + seq![dec_digit(n % 10)]
    }
}

/// Appends the single digit `d` to `s`.
fn append_digit(s: &mut String, d: u64)
    requires
        d < 10,
    ensures
        final(s)@ == old(s)@ + seq![dec_digit(d as nat)],
{
    if d == 0 {
        proof {
            reveal_strlit("0");
        }
        s.append("0");
    } else if d == 1 {
        proof {
            reveal_strlit("1");
        }
        s.append("1");
    } else if d == 2 {
        proof {
            reveal_strlit("2");
        }
        s.append("2");
    } else if d == 3 {
        proof {
            reveal_strlit("3");
        }
        s.append("3");
    } else if d == 4 {
        proof {
            reveal_strlit("4");
        }
        s.append("4");
    } else if d == 5 {
        proof {
            reveal_strlit("5");
        }
        s.append("5");
    } else if d == 6 {
        proof {
            reveal_strlit("6");
        }
        s.append("6");
    } else if d == 7 {
        proof {
            reveal_strlit("7");
        }
        s.append("7");
    } else if d == 8 {
        proof {
            reveal_strlit("8");
        }
        s.append("8");
    } else {
        proof {
            reveal_strlit("9");
        }
        s.append("9");
    }
    proof {
        assert(s@ =~= old(s)@ + seq![dec_digit(d as nat)]);
    }
}

/// Appends the decimal rendering of `n` to `s`.
fn append_dec(s: &mut String, n: u64)
    ensures
        final(s)@ == old(s)@ + dec_text(n as nat),
    decreases n,
{
    if n < 10 {
        append_digit(s, n);
    } else {
        append_dec(s, n / 10);
        append_digit(s, n % 10);
        proof {
            assert(s@ =~= old(s)@ + dec_text(n as nat));
        }
    }
}

/// A character allowed inside a pre-release or build identifier:
/// ASCII alphanumerics and the hyphen.
pub open spec fn label_char(c: char) -> bool {
    ('0' <= c && c <= '9') || ('a' <= c && c <= 'z') || ('A' <= c && c <= 'Z') || c == '-'
}

/// The characters of `s` at positions `a ..= b - 1` are all decimal digits.
pub open spec fn all_digits(s: Seq<char>, a: int, b: int) -> bool {
    forall|i: int| a <= i < b ==> '0' <= #[trigger] s[i] && s[i] <= '9'
}

/// The run `a .. b` of `s` is one dot-separated identifier: it is bounded by
/// the ends of `s` or by dots, and holds no dot itself.
pub open spec fn ident_run(s: Seq<char>, a: int, b: int) -> bool {
    &&& 0 <= a <= b <= s.len()
    &&& (a == 0 || s[a - 1] == '.')
    &&& (b == s.len() || s[b] == '.')
    &&& forall|i: int| a <= i < b ==> #[trigger] s[i] != '.'
}

/// The grammar of a non-empty dot-separated label: every character is an
/// identifier character or a dot, every identifier between dots is non-empty,
/// and, when `numeric_rule` holds (the pre-release grammar), an all-numeric
/// identifier of two or more digits may not start with `'0'`.
pub open spec fn valid_label(s: Seq<char>, numeric_rule: bool) -> bool {
    &&& s.len() > 0
    &&& forall|i: int| 0 <= i < s.len() ==> label_char(#[trigger] s[i]) || s[i] == '.'
    &&& forall|a: int, b: int| #[trigger] ident_run(s, a, b) ==> b - a >= 1
    &&& numeric_rule ==> forall|a: int, b: int|
        #[trigger] ident_run(s, a, b) && all_digits(s, a, b) && b - a >= 2 ==> s[a] != '0'
}

/// The pre-release label grammar: absent (empty) or a valid dotted label
/// whose all-numeric identifiers carry no leading zero.
pub open spec fn valid_pre(s: Seq<char>) -> bool {
    s.len() == 0 || valid_label(s, true)
}

/// The build-metadata label grammar: absent (empty) or a valid dotted label;
/// leading zeroes are allowed.
pub open spec fn valid_build(s: Seq<char>) -> bool {
    s.len() == 0 || valid_label(s, false)
}

/// Relies on semver::Prerelease::new: it accepts exactly the empty string and
/// the dot-separated identifiers of ASCII alphanumerics and hyphens, each
/// non-empty, an all-numeric one without a leading zero.
#[verifier::external_body]
fn semver_accepts_pre(text: &str) -> (r: bool)
    ensures
        r == valid_pre(text@),
{
    semver::Prerelease::new(text).is_ok()
}

/// Relies on semver::BuildMetadata::new: it accepts exactly the empty string
/// and the dot-separated identifiers of ASCII alphanumerics and hyphens, each
/// non-empty; leading zeroes are allowed.
#[verifier::external_body]
fn semver_accepts_build(text: &str) -> (r: bool)
    ensures
        r == valid_build(text@),
{
    semver::BuildMetadata::new(text).is_ok()
}

/// An optional pre-release label, valid by construction: either absent
/// (empty text) or a label in the pre-release grammar.
pub struct Prerelease {
    text: String,
}

impl View for Prerelease {
    type V = Seq<char>;

    closed spec fn view(&self) -> Seq<char> {
        self.text@
    }
}

impl Prerelease {
    /// Every reachable value is absent or grammatical.
    #[verifier::type_invariant]
    pub open spec fn wf(self) -> bool {
        valid_pre(self@)
    }

    /// The absent pre-release label.
    pub fn empty() -> (r: Self)
        ensures
            r@ == Seq::<char>::empty(),
    {
        Prerelease { text: String::new() }
    }

    /// Validates `text` against the pre-release grammar; returns the label
    /// exactly when `text` is empty or grammatical.
    pub fn new(text: &str) -> (r: Option<Self>)
        ensures
            r is Some <==> valid_pre(text@),
            r is Some ==> (r->0)@ == text@,
    {
        if semver_accepts_pre(text) {
            Some(Prerelease { text: String::from_str(text) })
        } else {
            None
        }
    }

    /// The label's text.
    pub fn as_str(&self) -> (r: &str)
        ensures
            r@ == self@,
    {
        self.text.as_str()
    }

    /// Whether the label is absent.
    pub fn is_empty(&self) -> (r: bool)
        ensures
            r == (self@.len() == 0),
    {
        self.text.as_str().is_empty()
    }
}

/// An optional build-metadata label, valid by construction: either absent
/// (empty text) or a label in the build grammar.
pub struct BuildMetadata {
    text: String,
}

impl View for BuildMetadata {
    type V = Seq<char>;

    closed spec fn view(&self) -> Seq<char> {
        self.text@
    }
}

impl BuildMetadata {
    /// Every reachable value is absent or grammatical.
    #[verifier::type_invariant]
    pub open spec fn wf(self) -> bool {
        valid_build(self@)
    }

    /// The absent build-metadata label.
    pub fn empty() -> (r: Self)
        ensures
            r@ == Seq::<char>::empty(),
    {
        BuildMetadata { text: String::new() }
    }

    /// Validates `text` against the build grammar; returns the label exactly
    /// when `text` is empty or grammatical.
    pub fn new(text: &str) -> (r: Option<Self>)
        ensures
            r is Some <==> valid_build(text@),
            r is Some ==> (r->0)@ == text@,
    {
        if semver_accepts_build(text) {
            Some(BuildMetadata { text: String::from_str(text) })
        } else {
            None
        }
    }

    /// The label's text.
    pub fn as_str(&self) -> (r: &str)
        ensures
            r@ == self@,
    {
        self.text.as_str()
    }

    /// Whether the label is absent.
    pub fn is_empty(&self) -> (r: bool)
        ensures
            r == (self@.len() == 0),
    {
        self.text.as_str().is_empty()
    }
}

/// The mathematical model of a semantic version: the numeric triple and the
/// two label texts (empty means absent).
pub ghost struct VersionView {
    pub major: nat,
    pub minor: nat,
    pub patch: nat,
    pub pre: Seq<char>,
    pub build: Seq<char>,
}

/// A semantic version: `major.minor.patch` with optional pre-release and
/// build-metadata labels.
pub struct Version {
    /// The major version number.
    pub major: u64,
    /// The minor version number.
    pub minor: u64,
    /// The patch version number.
    pub patch: u64,
    /// The pre-release label, empty when absent.
    pub pre: Prerelease,
    /// The build-metadata label, empty when absent.
    pub build: BuildMetadata,
}

impl View for Version {
    type V = VersionView;

    open spec fn view(&self) -> VersionView {
        VersionView {
            major: self.major as nat,
            minor: self.minor as nat,
            patch: self.patch as nat,
            pre: self.pre@,
            build: self.build@,
        }
    }
}

/// `v` with its major number replaced.
pub open spec fn with_major(v: VersionView, major: nat) -> VersionView {
    VersionView { major, ..v }
}

/// `v` with its minor number replaced.
pub open spec fn with_minor(v: VersionView, minor: nat) -> VersionView {
    VersionView { minor, ..v }
}

/// `v` with its patch number replaced.
pub open spec fn with_patch(v: VersionView, patch: nat) -> VersionView {
    VersionView { patch, ..v }
}

/// `v` with its pre-release label replaced.
pub open spec fn with_pre(v: VersionView, pre: Seq<char>) -> VersionView {
    VersionView { pre, ..v }
}

/// `v` with its build-metadata label replaced.
pub open spec fn with_build(v: VersionView, build: Seq<char>) -> VersionView {
    VersionView { build, ..v }
}

/// The standard textual form of a version: `MAJOR.MINOR.PATCH`, then `-PRE`
/// when a pre-release label is present, then `+BUILD` when a build-metadata
/// label is present.
pub open spec fn version_text(v: VersionView) -> Seq<char> {
    dec_text(v.major) + "."@ + dec_text(v.minor) + "."@ + dec_text(v.patch) + (if v.pre.len()
        == 0 {
        Seq::<char>::empty()
    } else {
        "-"@ + v.pre
    }) + (if v.build.len() == 0 {
        Seq::<char>::empty()
    } else {
        "+"@ + v.build
    })
}

impl Version {
    /// A version with the given numeric triple and no labels.
    pub fn new(major: u64, minor: u64, patch: u64) -> (r: Self)
        ensures
            r@ == (VersionView {
                major: major as nat,
                minor: minor as nat,
                patch: patch as nat,
                pre: Seq::<char>::empty(),
                build: Seq::<char>::empty(),
            }),
    {
        Version { major, minor, patch, pre: Prerelease::empty(), build: BuildMetadata::empty() }
    }

    /// Renders the version in its standard textual form.
    pub fn to_text(&self) -> (r: String)
        ensures
            r@ == version_text(self@),
    {
        let mut s = String::new();
        append_dec(&mut s, self.major);
        s.append(".");
        append_dec(&mut s, self.minor);
        s.append(".");
        append_dec(&mut s, self.patch);
        if !self.pre.is_empty() {
            s.append("-");
            s.append(self.pre.as_str());
        }
        if !self.build.is_empty() {
            s.append("+");
            s.append(self.build.as_str());
        }
        proof {
            assert(s@ =~= version_text(self@));
        }
        s
    }
}

/// Updates to distinct version fields commute: composing any two of the five
/// single-field replacements in either order yields the same version.
pub proof fn lemma_version_updates_commute(
    v: VersionView,
    major: nat,
    minor: nat,
    patch: nat,
    pre: Seq<char>,
    build: Seq<char>,
)
    ensures
        with_minor(with_major(v, major), minor) == with_major(with_minor(v, minor), major),
        with_patch(with_major(v, major), patch) == with_major(with_patch(v, patch), major),
        with_pre(with_major(v, major), pre) == with_major(with_pre(v, pre), major),
        with_build(with_major(v, major), build) == with_major(with_build(v, build), major),
        with_patch(with_minor(v, minor), patch) == with_minor(with_patch(v, patch), minor),
        with_pre(with_minor(v, minor), pre) == with_minor(with_pre(v, pre), minor),
        with_build(with_minor(v, minor), build) == with_minor(with_build(v, build), minor),
        with_pre(with_patch(v, patch), pre) == with_patch(with_pre(v, pre), patch),
        with_build(with_patch(v, patch), build) == with_patch(with_build(v, build), patch),
        with_build(with_pre(v, pre), build) == with_pre(with_build(v, build), pre),
{
}

} // verus!
