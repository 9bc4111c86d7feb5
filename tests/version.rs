use citation_station::api::media::version::{GenericMediaVersion, SemVer};
use citation_station::numerals::{signed_decimal, unsigned_decimal};

#[test]
fn editions_use_ordinals() {
    let cases = [
        (1, "1st"),
        (2, "2nd"),
        (3, "3rd"),
        (4, "4th"),
        (11, "11th"),
        (12, "12th"),
        (13, "13th"),
        (21, "21st"),
        (22, "22nd"),
        (101, "101st"),
        (111, "111th"),
    ];
    for (n, ord) in cases {
        assert_eq!(
            GenericMediaVersion::Edition { number: n }.as_ieee_string(),
            format!("{} ed.", ord)
        );
        assert_eq!(
            GenericMediaVersion::Edition { number: n }.as_apa_string(),
            format!("({} ed.)", ord)
        );
    }
    assert_eq!(
        GenericMediaVersion::DigitalEdition { number: 3 }.as_ieee_string(),
        "3rd digital ed."
    );
    assert_eq!(
        GenericMediaVersion::DigitalEdition { number: 3 }.as_apa_string(),
        "(3rd digital ed.)"
    );
}

#[test]
fn volumes_and_versions() {
    assert_eq!(GenericMediaVersion::Volume { number: 4 }.as_ieee_string(), "vol. 4");
    assert_eq!(GenericMediaVersion::Volume { number: 4 }.as_apa_string(), "(Vol. 4)");
    assert_eq!(
        GenericMediaVersion::VolumeRange { start: 1, end: 3 }.as_ieee_string(),
        "vols. 1\u{2014}3"
    );
    assert_eq!(
        GenericMediaVersion::VolumeRange { start: 1, end: 3 }.as_apa_string(),
        "(Vols. 1\u{2014}3)"
    );
    let v = GenericMediaVersion::SemVer(SemVer::from_major_minor_patch(1, 20, 3));
    assert_eq!(v.as_ieee_string(), "v1.20.3");
    assert_eq!(v.as_apa_string(), "(v1.20.3)");
    assert_eq!(SemVer::from_major(7).as_dotted_string(), "7");
    assert_eq!(SemVer::from_major_minor(4, 0).as_dotted_string(), "4.0");
}

#[test]
fn decimal_rendering() {
    assert_eq!(unsigned_decimal(0), "0");
    assert_eq!(unsigned_decimal(907), "907");
    assert_eq!(unsigned_decimal(u64::MAX), u64::MAX.to_string());
    assert_eq!(signed_decimal(-12), "-12");
    assert_eq!(signed_decimal(i32::MIN), i32::MIN.to_string());
    assert_eq!(signed_decimal(i32::MAX), i32::MAX.to_string());
}
