use radicle_terminal::git::{check_version, Version, VersionError};
use std::str::FromStr;

#[test]
fn test_version_ord() {
    assert!(
        Version {
            major: 2,
            minor: 34,
            patch: 1
        } > Version {
            major: 2,
            minor: 34,
            patch: 0
        }
    );
    assert!(
        Version {
            major: 2,
            minor: 24,
            patch: 12
        } < Version {
            major: 2,
            minor: 34,
            patch: 0
        }
    );
}

#[test]
fn test_version_from_str() {
    assert_eq!(
        Version::from_str("git version 2.34.1\n").ok(),
        Some(Version {
            major: 2,
            minor: 34,
            patch: 1
        })
    );

    assert_eq!(
        Version::from_str("git version 2.34.1 (macOS)").ok(),
        Some(Version {
            major: 2,
            minor: 34,
            patch: 1
        })
    );

    assert_eq!(
        Version::from_str("git version 2.34").ok(),
        Some(Version {
            major: 2,
            minor: 34,
            patch: 0
        })
    );

    assert!(Version::from_str("2.34").is_err());
}

#[test]
fn version_errors_tell_the_cause() {
    assert_eq!(Version::parse("2.34"), Err(VersionError::Malformed));
    assert_eq!(Version::parse("git version 2"), Err(VersionError::Malformed));
    assert_eq!(Version::parse("git version "), Err(VersionError::NotANumber));
    assert_eq!(Version::parse("git version 2.x"), Err(VersionError::NotANumber));
    assert_eq!(Version::parse("git version 2.256.0"), Err(VersionError::NotANumber));
    assert_eq!(Version::parse("git version 2.34.-1"), Err(VersionError::NotANumber));
    assert_eq!(Version::parse("git version x"), Err(VersionError::NotANumber));
}

#[test]
fn version_numbers_are_read_as_the_standard_library_reads_them() {
    let expected = Version { major: 2, minor: 7, patch: 255 };
    assert_eq!(Version::parse("git version +2.007.255.9.x"), Ok(expected));
    assert_eq!("+2".parse::<u8>().ok(), Some(2));
    assert_eq!("007".parse::<u8>().ok(), Some(7));
    assert!("256".parse::<u8>().is_err());
    assert!("".parse::<u8>().is_err());
    assert!("+".parse::<u8>().is_err());
    assert_eq!(Version::parse("git version 2.34.1\t\r\n"), Ok(Version { major: 2, minor: 34, patch: 1 }));
    assert_eq!("2.34.1\u{a0}\u{2003}".trim_end(), "2.34.1");
    assert_eq!(
        Version::parse("git version 2.34.1\u{a0}\u{2003}"),
        Ok(Version { major: 2, minor: 34, patch: 1 })
    );
}

#[test]
fn version_is_older_exactly_as_the_derived_order_says() {
    let versions = [
        Version { major: 1, minor: 99, patch: 99 },
        Version { major: 2, minor: 33, patch: 200 },
        Version { major: 2, minor: 34, patch: 0 },
        Version { major: 2, minor: 34, patch: 1 },
        Version { major: 3, minor: 0, patch: 0 },
    ];
    for a in versions.iter() {
        for b in versions.iter() {
            assert_eq!(a.is_before(b), a < b);
        }
    }
}

#[test]
fn check_version_wants_2_34_0() {
    let old = Version { major: 2, minor: 33, patch: 9 };
    let exact = Version { major: 2, minor: 34, patch: 0 };
    let new = Version { major: 10, minor: 0, patch: 0 };
    assert_eq!(check_version(old), Err(VersionError::TooOld));
    assert_eq!(check_version(exact), Ok(exact));
    assert_eq!(check_version(new), Ok(new));
    assert_eq!(Version::required(), exact);
}

#[test]
fn version_prints_its_three_numbers() {
    assert_eq!(Version { major: 2, minor: 34, patch: 0 }.to_string(), "2.34.0");
    assert_eq!(Version { major: 0, minor: 9, patch: 10 }.to_string(), "0.9.10");
    assert_eq!(Version { major: 255, minor: 100, patch: 199 }.to_string(), "255.100.199");
}
