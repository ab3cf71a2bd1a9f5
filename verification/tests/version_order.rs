use ota_agent::version::{
    is_newer, order_numbers, settle, Precedence, SemanticVersion, VersionError,
};

fn version(text: &str) -> SemanticVersion {
    SemanticVersion::parse(text).expect("a semantic version")
}

#[test]
fn parse_reads_the_three_numbers() {
    let parsed = version("1.2.3");
    assert_eq!(parsed.major(), 1);
    assert_eq!(parsed.minor(), 2);
    assert_eq!(parsed.patch(), 3);
    assert_eq!(parsed.pre(), "");
    assert_eq!(parsed.build(), "");
    assert_eq!(parsed, SemanticVersion::new(1, 2, 3));
}

#[test]
fn parse_reads_prerelease_and_build() {
    let parsed = version("10.20.30-rc.1+build.5");
    assert_eq!(parsed.major(), 10);
    assert_eq!(parsed.minor(), 20);
    assert_eq!(parsed.patch(), 30);
    assert_eq!(parsed.pre(), "rc.1");
    assert_eq!(parsed.build(), "build.5");
}

#[test]
fn parse_reads_the_largest_number() {
    let parsed = version("18446744073709551615.0.0");
    assert_eq!(parsed.major(), u64::MAX);
}

#[test]
fn parse_refuses_what_is_no_version() {
    for text in [
        "",
        "1",
        "1.2",
        "1.2.3.4",
        "01.2.3",
        "1.2.3-",
        "1.2.3+",
        "1.2.3-01",
        "1.q.r",
        "v1.2.3",
        " 1.2.3",
        "1.2.3 ",
        "18446744073709551616.0.0",
        "1.2.3-a..b",
    ] {
        assert_eq!(SemanticVersion::parse(text), Err(VersionError::Syntax), "{:?}", text);
    }
}

#[test]
fn clone_keeps_every_part() {
    let parsed = version("4.5.6-beta.2+exp.sha.5114f85");
    let copy = parsed.clone();
    assert_eq!(copy, parsed);
    assert_eq!(copy.pre(), "beta.2");
    assert_eq!(copy.build(), "exp.sha.5114f85");
}

#[test]
fn numbers_are_ordered_as_numbers() {
    assert_eq!(order_numbers(5, 19), Precedence::Lower);
    assert_eq!(order_numbers(19, 5), Precedence::Higher);
    assert_eq!(order_numbers(7, 7), Precedence::Same);
    assert_eq!(order_numbers(0, u64::MAX), Precedence::Lower);
    assert_eq!(version("1.5.0").number_order(&version("1.19.0")), Precedence::Lower);
    assert_eq!(version("2.0.0").number_order(&version("1.99.99")), Precedence::Higher);
    assert_eq!(version("1.2.3").number_order(&version("1.2.4")), Precedence::Lower);
    assert_eq!(version("1.2.3-a").number_order(&version("1.2.3+b")), Precedence::Same);
}

#[test]
fn settle_takes_the_first_part_that_differs() {
    let (lower, same, higher) = (Precedence::Lower, Precedence::Same, Precedence::Higher);
    assert_eq!(settle(higher, lower), higher);
    assert_eq!(settle(higher, same), higher);
    assert_eq!(settle(lower, higher), lower);
    assert_eq!(settle(lower, same), lower);
    assert_eq!(settle(same, higher), higher);
    assert_eq!(settle(same, lower), lower);
    assert_eq!(settle(same, same), same);
}

#[test]
fn newer_follows_the_numbers() {
    assert!(is_newer(&version("0.2.0"), &version("0.1.0")));
    assert!(!is_newer(&version("0.1.0"), &version("0.2.0")));
    assert!(is_newer(&version("1.19.0"), &version("1.5.0")));
    assert!(is_newer(&version("2.0.0"), &version("1.999.999")));
    assert!(is_newer(&version("1.0.1"), &version("1.0.0")));
    assert!(!is_newer(&version("1.0.0"), &version("1.0.1")));
}

#[test]
fn equal_versions_are_not_newer() {
    for text in ["0.1.0", "1.2.3", "1.0.0-alpha.1", "1.0.0+build.7", "3.1.4-rc.2+sha.abc"] {
        let one = version(text);
        let other = version(text);
        assert!(!is_newer(&one, &other), "{}", text);
        assert!(!is_newer(&one, &one), "{}", text);
        assert_eq!(one.precedence(&other), Precedence::Same, "{}", text);
    }
}

#[test]
fn a_prerelease_stands_below_its_release() {
    let release = version("1.0.0");
    let early = version("1.0.0-alpha.1");
    assert!(is_newer(&release, &early));
    assert!(!is_newer(&early, &release));
    assert_eq!(early.prerelease_order(&release), Precedence::Lower);
    assert_eq!(release.prerelease_order(&early), Precedence::Higher);
    assert!(is_newer(&version("1.0.1-alpha"), &release));
}

#[test]
fn prereleases_stand_in_the_documented_order() {
    let chain = [
        "1.0.0-alpha",
        "1.0.0-alpha.1",
        "1.0.0-alpha.beta",
        "1.0.0-beta",
        "1.0.0-beta.2",
        "1.0.0-beta.11",
        "1.0.0-rc.1",
        "1.0.0",
    ];
    for low in 0..chain.len() {
        for high in 0..chain.len() {
            let lower = version(chain[low]);
            let higher = version(chain[high]);
            assert_eq!(is_newer(&higher, &lower), high > low, "{} over {}", chain[high], chain[low]);
        }
    }
}

#[test]
fn numeric_identifiers_are_compared_as_numbers() {
    assert!(is_newer(&version("1.0.0-pre.12"), &version("1.0.0-pre.8")));
    assert!(is_newer(&version("1.0.0-pre8"), &version("1.0.0-pre12")));
    assert!(is_newer(&version("1.0.0-pre.x"), &version("1.0.0-pre.1")));
}

#[test]
fn build_metadata_does_not_decide() {
    let first = version("1.0.0+1");
    let second = version("1.0.0+2");
    let bare = version("1.0.0");
    assert!(!is_newer(&second, &first));
    assert!(!is_newer(&first, &second));
    assert!(!is_newer(&first, &bare));
    assert!(!is_newer(&bare, &first));
    assert_eq!(first.precedence(&second), Precedence::Same);
    assert_eq!(second.precedence(&first), Precedence::Same);
    assert_eq!(bare.precedence(&second), Precedence::Same);
    assert_ne!(first, second);
    let early = version("1.0.0-rc.1+build.10");
    let other = version("1.0.0-rc.1+build.2");
    assert_eq!(early.precedence(&other), Precedence::Same);
    assert!(!is_newer(&early, &other));
    assert!(!is_newer(&other, &early));
}

#[test]
fn build_metadata_leaves_the_order_of_the_rest() {
    assert!(is_newer(&version("1.0.1+a"), &version("1.0.0+z")));
    assert!(!is_newer(&version("1.0.0+z"), &version("1.0.1+a")));
    assert!(is_newer(&version("1.0.0+a"), &version("1.0.0-rc.1+z")));
    assert!(!is_newer(&version("1.0.0-rc.1+z"), &version("1.0.0+a")));
    assert!(is_newer(&version("1.0.0-rc.2+a"), &version("1.0.0-rc.1+z")));
}

#[test]
fn to_text_writes_the_parts_in_order() {
    assert_eq!(SemanticVersion::new(1, 2, 3).to_text(), "1.2.3");
    assert_eq!(SemanticVersion::new(0, 0, 0).to_text(), "0.0.0");
    assert_eq!(SemanticVersion::new(10, 200, 3000).to_text(), "10.200.3000");
    assert_eq!(
        SemanticVersion::new(u64::MAX, 0, 109).to_text(),
        "18446744073709551615.0.109"
    );
    assert_eq!(version("1.0.0-alpha.1").to_text(), "1.0.0-alpha.1");
    assert_eq!(version("1.0.0+build.5").to_text(), "1.0.0+build.5");
    assert_eq!(version("4.5.6-rc.1+exp.sha.5114f85").to_text(), "4.5.6-rc.1+exp.sha.5114f85");
    assert_eq!(version("1.2.3----a.-.0+-.00").to_text(), "1.2.3----a.-.0+-.00");
}

#[test]
fn text_and_version_go_round() {
    for text in [
        "0.0.0",
        "1.2.3",
        "18446744073709551615.18446744073709551615.18446744073709551615",
        "1.0.0-alpha",
        "1.0.0-alpha.1",
        "1.0.0-0.3.7",
        "1.0.0-x.7.z.92",
        "1.0.0-x-y-z.--",
        "1.0.0+20130313144700",
        "1.0.0-beta+exp.sha.5114f85",
        "1.0.0+21AF26D3----117B344092BD",
        "1.0.0+007",
    ] {
        let parsed = version(text);
        assert_eq!(parsed.to_text(), text);
        assert_eq!(SemanticVersion::parse(&parsed.to_text()), Ok(parsed));
    }
    let made = SemanticVersion::new(7, 0, 12);
    assert_eq!(SemanticVersion::parse(&made.to_text()), Ok(made));
}

#[test]
fn precedence_names_all_three_outcomes() {
    assert_eq!(version("1.0.0").precedence(&version("2.0.0")), Precedence::Lower);
    assert_eq!(version("2.0.0").precedence(&version("2.0.0")), Precedence::Same);
    assert_eq!(version("2.0.0").precedence(&version("2.0.0-rc.1")), Precedence::Higher);
    assert_eq!(version("2.0.0-a.b").precedence(&version("2.0.0-a")), Precedence::Higher);
    assert_eq!(version("2.0.0-a").prerelease_order(&version("1.0.0-a.b")), Precedence::Lower);
    assert_eq!(version("2.0.0-a").prerelease_order(&version("1.0.0-a+x")), Precedence::Same);
}
