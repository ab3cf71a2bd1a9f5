//! Semantic versions and their precedence.
//!
//! A version is held as plain values: three numbers, the pre-release string
//! and the build metadata string. Parsing, the text form, and the order of
//! two pre-release strings are done by the `semver` crate; the precedence of
//! whole versions is decided here from the numbers and the pre-release.
//! Build metadata is kept and written out, and takes no part in precedence.

use vstd::prelude::*;

verus! {

/// How one value stands to another in an order.
#[derive(Clone, Copy, Debug, PartialEq, Eq, Structural)]
pub enum Precedence {
    Lower,
    Same,
    Higher,
}

/// The mathematical value of a [`SemanticVersion`].
pub struct VersionModel {
    pub major: nat,
    pub minor: nat,
    pub patch: nat,
    pub pre: Seq<char>,
    pub build: Seq<char>,
}

/// Why a text is not a version.
#[derive(Clone, Copy, Debug, PartialEq, Eq, Structural)]
pub enum VersionError {
    /// The text does not follow `major.minor.patch[-prerelease][+build]`.
    Syntax,
}

/// A semantic version: `major.minor.patch`, an optional pre-release and
/// optional build metadata. Its two strings are always ones that `semver`
/// accepts: see [`prerelease_accepted`] and [`build_accepted`].
///
/// `==` on two versions asks whether all five parts are the same, the build
/// metadata too; whether one is newer than the other is asked of
/// [`is_newer`].
#[derive(Debug, PartialEq, Eq)]
pub struct SemanticVersion {
    major: u64,
    minor: u64,
    patch: u64,
    pre: String,
    build: String,
}

#[verifier::external_type_specification]
#[verifier::external_body]
pub struct ExSemverError(semver::Error);

/// The version that `semver::Version::parse` reads from a text, if it reads one.
pub uninterp spec fn parsed_version(text: Seq<char>) -> Option<VersionModel>;

/// Whether `semver::Prerelease::new` accepts a text as a pre-release string.
pub uninterp spec fn prerelease_accepted(text: Seq<char>) -> bool;

/// Whether `semver::BuildMetadata::new` accepts a text as build metadata.
pub uninterp spec fn build_accepted(text: Seq<char>) -> bool;

/// The order in which `Ord::cmp` puts the two `semver::Prerelease` values
/// made of two accepted texts.
pub uninterp spec fn prerelease_precedence(left: Seq<char>, right: Seq<char>) -> Precedence;

/// The release `major.minor.patch`: no pre-release, no build metadata.
pub open spec fn release(major: u64, minor: u64, patch: u64) -> VersionModel {
    VersionModel {
        major: major as nat,
        minor: minor as nat,
        patch: patch as nat,
        pre: Seq::empty(),
        build: Seq::empty(),
    }
}

/// The character of a digit.
pub open spec fn digit(value: nat) -> char {
    if value == 0 {
        '0'
    } else if value == 1 {
        '1'
    } else if value == 2 {
        '2'
    } else if value == 3 {
        '3'
    } else if value == 4 {
        '4'
    } else if value == 5 {
        '5'
    } else if value == 6 {
        '6'
    } else if value == 7 {
        '7'
    } else if value == 8 {
        '8'
    } else {
        '9'
    }
}

/// A number written in decimal, without leading zeros.
pub open spec fn decimal(value: nat) -> Seq<char>
    decreases value,
{
    if value < 10 {
        seq![digit(value)]
    } else {
        decimal(value / 10).push(digit(value % 10))
    }
}

/// The text form of a version: the three numbers in decimal with dots
/// between them, then `-` and the pre-release where there is one, then `+`
/// and the build metadata where there is some.
pub open spec fn version_text(version: VersionModel) -> Seq<char> {
    decimal(version.major) + seq!['.'] + decimal(version.minor) + seq!['.'] + decimal(
        version.patch,
    ) + (if version.pre.len() > 0 {
        seq!['-'] + version.pre
    } else {
        Seq::empty()
    }) + (if version.build.len() > 0 {
        seq!['+'] + version.build
    } else {
        Seq::empty()
    })
}

/// Calls `semver::Version::parse` and moves the fields of its result into a
/// [`SemanticVersion`]. Trusted: the version returned is the one that
/// [`parsed_version`] names for this text, and the call fails exactly where
/// that name is `None`; and the two strings of a version that was read are
/// ones that `semver::Prerelease::new` and `semver::BuildMetadata::new`
/// accept, which read them by the very rules by which they were read here.
#[verifier::external_body]
fn semver_parse(text: &str) -> (parsed: Result<SemanticVersion, semver::Error>)
    ensures
        parsed is Ok <==> parsed_version(text@) is Some,
        parsed matches Ok(version) ==> parsed_version(text@) == Some(version@),
        parsed matches Ok(version) ==> (prerelease_accepted(version@.pre) && build_accepted(
            version@.build,
        )),
{
    let version = semver::Version::parse(text)?;
    Ok(SemanticVersion {
        major: version.major,
        minor: version.minor,
        patch: version.patch,
        pre: version.pre.as_str().to_string(),
        build: version.build.as_str().to_string(),
    })
}

/// Calls `semver::Version::new` and moves the fields of its result into a
/// [`SemanticVersion`]. Trusted: the version returned holds the three
/// numbers, and its two strings are empty, as `semver` documents; and the
/// empty string is one that `semver::Prerelease::new` and
/// `semver::BuildMetadata::new` accept.
#[verifier::external_body]
fn semver_release(major: u64, minor: u64, patch: u64) -> (version: SemanticVersion)
    ensures
        version@ == release(major, minor, patch),
        prerelease_accepted(version@.pre),
        build_accepted(version@.build),
{
    let version = semver::Version::new(major, minor, patch);
    SemanticVersion {
        major: version.major,
        minor: version.minor,
        patch: version.patch,
        pre: version.pre.as_str().to_string(),
        build: version.build.as_str().to_string(),
    }
}

/// Builds two `semver::Prerelease` values with `semver::Prerelease::new` and
/// compares them with their `Ord::cmp`. Trusted: the call fails exactly where
/// one of the texts is not accepted; the answer is the one that
/// [`prerelease_precedence`] names; and, as `semver` documents, the empty
/// pre-release, which marks a release, stands above every other.
#[verifier::external_body]
fn semver_prerelease_order(left: &str, right: &str) -> (order: Result<Precedence, semver::Error>)
    ensures
        order is Ok <==> (prerelease_accepted(left@) && prerelease_accepted(right@)),
        order matches Ok(found) ==> found == prerelease_precedence(left@, right@),
        order matches Ok(found) ==> (left@.len() == 0 && right@.len() > 0 ==> found
            == Precedence::Higher),
        order matches Ok(found) ==> (left@.len() > 0 && right@.len() == 0 ==> found
            == Precedence::Lower),
{
    let left = semver::Prerelease::new(left)?;
    let right = semver::Prerelease::new(right)?;
    Ok(match left.cmp(&right) {
        std::cmp::Ordering::Less => Precedence::Lower,
        std::cmp::Ordering::Equal => Precedence::Same,
        std::cmp::Ordering::Greater => Precedence::Higher,
    })
}

/// Builds a `semver::Version` of the five parts and writes it out with its
/// `Display`. Trusted: the call fails exactly where one of the two strings is
/// not accepted; the text is the one that [`version_text`] states; and, the
/// text being written in the very form that `semver::Version::parse` reads,
/// that function reads the same version from it.
#[verifier::external_body]
fn semver_text(version: &SemanticVersion) -> (text: Result<String, semver::Error>)
    ensures
        text is Ok <==> (prerelease_accepted(version@.pre) && build_accepted(version@.build)),
        text matches Ok(written) ==> written@ == version_text(version@),
        text matches Ok(written) ==> parsed_version(written@) == Some(version@),
{
    let pre = semver::Prerelease::new(&version.pre)?;
    let build = semver::BuildMetadata::new(&version.build)?;
    let (major, minor, patch) = (version.major, version.minor, version.patch);
    Ok(semver::Version { major, minor, patch, pre, build }.to_string())
}

/// The order of two numbers.
pub open spec fn number_precedence(left: nat, right: nat) -> Precedence {
    if left < right {
        Precedence::Lower
    } else if left == right {
        Precedence::Same
    } else {
        Precedence::Higher
    }
}

/// The order of two versions by their numbers alone: by major, then minor,
/// then patch number; the first that differs decides.
pub open spec fn triple_precedence(left: VersionModel, right: VersionModel) -> Precedence {
    if left.major != right.major {
        number_precedence(left.major, right.major)
    } else if left.minor != right.minor {
        number_precedence(left.minor, right.minor)
    } else {
        number_precedence(left.patch, right.patch)
    }
}

/// The order of two pre-release strings: equal strings stand the same; the
/// empty string, which marks a release, stands above every other; any other
/// pair stands as `semver` orders it.
pub open spec fn prerelease_rank(left: Seq<char>, right: Seq<char>) -> Precedence {
    if left == right {
        Precedence::Same
    } else if left.len() == 0 {
        Precedence::Higher
    } else if right.len() == 0 {
        Precedence::Lower
    } else {
        prerelease_precedence(left, right)
    }
}

/// Puts the two partial orders together: the numbers decide unless they are
/// the same, then the pre-release.
pub open spec fn settled(numbers: Precedence, pre: Precedence) -> Precedence {
    if numbers != Precedence::Same {
        numbers
    } else {
        pre
    }
}

/// The precedence of two versions: by major, minor and patch number, then by
/// pre-release; the first part that differs decides. Build metadata takes no
/// part: two versions that differ only there stand the same.
pub open spec fn version_precedence(left: VersionModel, right: VersionModel) -> Precedence {
    settled(triple_precedence(left, right), prerelease_rank(left.pre, right.pre))
}

/// Whether `candidate` stands strictly above `baseline`.
pub open spec fn newer(candidate: VersionModel, baseline: VersionModel) -> bool {
    version_precedence(candidate, baseline) == Precedence::Higher
}

impl View for SemanticVersion {
    type V = VersionModel;

    closed spec fn view(&self) -> VersionModel {
        VersionModel {
            major: self.major as nat,
            minor: self.minor as nat,
            patch: self.patch as nat,
            pre: self.pre@,
            build: self.build@,
        }
    }
}

impl Clone for SemanticVersion {
    fn clone(&self) -> (copy: SemanticVersion)
        ensures
            copy@ == self@,
    {
        proof {
            use_type_invariant(self);
        }
        SemanticVersion {
            major: self.major,
            minor: self.minor,
            patch: self.patch,
            pre: self.pre.clone(),
            build: self.build.clone(),
        }
    }
}

impl SemanticVersion {
    /// Every version holds strings that `semver` accepts.
    #[verifier::type_invariant]
    spec fn accepted(&self) -> bool {
        prerelease_accepted(self.pre@) && build_accepted(self.build@)
    }

    /// The release `major.minor.patch`, with no pre-release and no build
    /// metadata.
    pub fn new(major: u64, minor: u64, patch: u64) -> (version: SemanticVersion)
        ensures
            version@ == release(major, minor, patch),
    {
        semver_release(major, minor, patch)
    }

    /// Reads a version from its text. Fails with [`VersionError::Syntax`] on
    /// every text that is no semantic version.
    pub fn parse(text: &str) -> (parsed: Result<SemanticVersion, VersionError>)
        ensures
            parsed is Ok <==> parsed_version(text@) is Some,
            parsed matches Ok(version) ==> parsed_version(text@) == Some(version@),
    {
        match semver_parse(text) {
            Ok(version) => Ok(version),
            Err(_) => Err(VersionError::Syntax),
        }
    }

    /// Writes the version out: see [`version_text`]. The text is one that
    /// [`SemanticVersion::parse`] reads, and it reads this version from it.
    pub fn to_text(&self) -> (text: String)
        ensures
            text@ == version_text(self@),
            parsed_version(text@) == Some(self@),
    {
        proof {
            use_type_invariant(self);
        }
        match semver_text(self) {
            Ok(written) => written,
            Err(_) => vstd::pervasive::unreached(),
        }
    }

    /// The major number.
    pub fn major(&self) -> (major: u64)
        ensures
            major == self@.major,
    {
        self.major
    }

    /// The minor number.
    pub fn minor(&self) -> (minor: u64)
        ensures
            minor == self@.minor,
    {
        self.minor
    }

    /// The patch number.
    pub fn patch(&self) -> (patch: u64)
        ensures
            patch == self@.patch,
    {
        self.patch
    }

    /// The pre-release string, empty for a release.
    pub fn pre(&self) -> (pre: &str)
        ensures
            pre@ == self@.pre,
    {
        self.pre.as_str()
    }

    /// The build metadata string, empty where there is none.
    pub fn build(&self) -> (build: &str)
        ensures
            build@ == self@.build,
    {
        self.build.as_str()
    }

    /// The order of this version and another by major, minor and patch number.
    pub fn number_order(&self, other: &SemanticVersion) -> (order: Precedence)
        ensures
            order == triple_precedence(self@, other@),
    {
        if self.major != other.major {
            order_numbers(self.major, other.major)
        } else if self.minor != other.minor {
            order_numbers(self.minor, other.minor)
        } else {
            order_numbers(self.patch, other.patch)
        }
    }

    /// The order of the two pre-release strings: see [`prerelease_rank`].
    pub fn prerelease_order(&self, other: &SemanticVersion) -> (order: Precedence)
        ensures
            order == prerelease_rank(self@.pre, other@.pre),
    {
        if self.pre == other.pre {
            Precedence::Same
        } else {
            proof {
                use_type_invariant(self);
                use_type_invariant(other);
                if self.pre@.len() == 0 && other.pre@.len() == 0 {
                    assert(self.pre@ =~= other.pre@);
                }
            }
            match semver_prerelease_order(self.pre.as_str(), other.pre.as_str()) {
                Ok(found) => found,
                Err(_) => vstd::pervasive::unreached(),
            }
        }
    }

    /// The precedence of this version and another: see
    /// [`version_precedence`].
    pub fn precedence(&self, other: &SemanticVersion) -> (order: Precedence)
        ensures
            order == version_precedence(self@, other@),
    {
        settle(self.number_order(other), self.prerelease_order(other))
    }
}

/// The order of two numbers.
pub fn order_numbers(left: u64, right: u64) -> (order: Precedence)
    ensures
        order == number_precedence(left as nat, right as nat),
{
    if left < right {
        Precedence::Lower
    } else if left == right {
        Precedence::Same
    } else {
        Precedence::Higher
    }
}

/// Puts the two partial orders of two versions together: see [`settled`].
pub fn settle(numbers: Precedence, pre: Precedence) -> (order: Precedence)
    ensures
        order == settled(numbers, pre),
{
    if numbers != Precedence::Same {
        numbers
    } else {
        pre
    }
}

/// Whether `candidate` is strictly newer than `baseline`: whether it stands
/// above it in precedence. Versions that stand the same are not newer.
pub fn is_newer(candidate: &SemanticVersion, baseline: &SemanticVersion) -> (answer: bool)
    ensures
        answer == newer(candidate@, baseline@),
{
    match candidate.precedence(baseline) {
        Precedence::Higher => true,
        _ => false,
    }
}

/// No version is newer than itself, nor than a version with the same parts.
pub proof fn lemma_equal_is_not_newer(candidate: VersionModel, baseline: VersionModel)
    requires
        candidate == baseline,
    ensures
        !newer(candidate, baseline),
{
}

/// Build metadata does not decide: of two versions with the same numbers
/// and the same pre-release neither is newer than the other, whatever their
/// build metadata.
pub proof fn lemma_build_metadata_does_not_decide(left: VersionModel, right: VersionModel)
    requires
        left.major == right.major,
        left.minor == right.minor,
        left.patch == right.patch,
        left.pre == right.pre,
    ensures
        version_precedence(left, right) == Precedence::Same,
        !newer(left, right),
        !newer(right, left),
{
}

/// Precedence looks at the numbers and the pre-release alone: a version
/// stands to any other as does each version that differs from it only in
/// build metadata.
pub proof fn lemma_precedence_ignores_build(
    left: VersionModel,
    right: VersionModel,
    build: Seq<char>,
)
    ensures
        version_precedence(VersionModel { build, ..left }, right) == version_precedence(
            left,
            right,
        ),
        version_precedence(left, VersionModel { build, ..right }) == version_precedence(
            left,
            right,
        ),
{
}

/// A release is newer than each of its pre-releases, and no pre-release is
/// newer than its release: with the same three numbers, the version without
/// pre-release stands above the one with.
pub proof fn lemma_release_is_newer_than_prerelease(release: VersionModel, early: VersionModel)
    requires
        triple_precedence(release, early) == Precedence::Same,
        release.pre.len() == 0,
        early.pre.len() > 0,
    ensures
        newer(release, early),
        !newer(early, release),
{
}

/// Two versions that differ in their numbers are ordered by them alone, and
/// exactly one of the two is newer.
pub proof fn lemma_numbers_decide(left: VersionModel, right: VersionModel)
    requires
        triple_precedence(left, right) != Precedence::Same,
    ensures
        newer(left, right) <==> triple_precedence(left, right) == Precedence::Higher,
        newer(left, right) <==> !newer(right, left),
{
}

} // verus!
