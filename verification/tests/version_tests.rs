use guest_bridge::version::__str_hash;
use guest_bridge::version::__str_to_u16;
use guest_bridge::version::Version;

#[test]
fn packs_components_into_lanes() {
    let v = Version { name_hash: 0xBEEF, major: 1, minor: 2, patch: 3 };
    assert_eq!(v.to_u64(), 0x0003_0002_0001_BEEF);
}

#[test]
fn unpacks_lanes_into_components() {
    let v = Version::from_u64(0x0003_0002_0001_BEEF);
    assert_eq!(v.name_hash, 0xBEEF);
    assert_eq!(v.major, 1);
    assert_eq!(v.minor, 2);
    assert_eq!(v.patch, 3);
}

#[test]
fn round_trips_every_lane_pattern() {
    let samples: [u16; 5] = [0, 1, 0x00FF, 0x8000, 0xFFFF];
    for &name_hash in &samples {
        for &major in &samples {
            for &minor in &samples {
                for &patch in &samples {
                    let v = Version { name_hash, major, minor, patch };
                    assert_eq!(Version::from_u64(v.to_u64()), v);
                }
            }
        }
    }
    let packed: u64 = 0xDEAD_BEEF_CAFE_0123;
    assert_eq!(Version::from_u64(packed).to_u64(), packed);
}

#[test]
fn compatibility_needs_name_and_major_only() {
    let host = Version { name_hash: 7, major: 1, minor: 0, patch: 0 };
    let newer_minor = Version { name_hash: 7, major: 1, minor: 9, patch: 4 };
    let newer_major = Version { name_hash: 7, major: 2, minor: 0, patch: 0 };
    let other_name = Version { name_hash: 8, major: 1, minor: 0, patch: 0 };
    assert!(host.compatible_with(&newer_minor));
    assert!(!host.compatible_with(&newer_major));
    assert!(!host.compatible_with(&other_name));
}

#[test]
fn reads_version_component_strings() {
    assert_eq!(__str_to_u16("3"), 30);
    assert_eq!(__str_to_u16("12"), 120);
    assert_eq!(__str_to_u16("0"), 0);
    assert_eq!(__str_to_u16("145"), 1450);
}

#[test]
fn hashes_protocol_names() {
    assert_eq!(__str_hash(""), 0);
    assert_eq!(__str_hash("a"), 14823);
    assert_eq!(__str_hash("protocol"), 50339);
    assert_ne!(__str_hash("protocol"), __str_hash("protocoL"));
}
