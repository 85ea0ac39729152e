use keplemon::enums::{
    Classification, CovarianceType, EquinoxType, GeodeticModel, KeplerianType, ReferenceFrame,
    SAALKeyMode, TimeSystem,
};
use std::convert::TryFrom;
use std::str::FromStr;

#[test]
fn keplerian_type_codes() {
    assert_eq!(KeplerianType::MeanKozaiGP.value(), 0);
    assert_eq!(KeplerianType::MeanBrouwerGP.value(), 2);
    assert_eq!(KeplerianType::MeanBrouwerXP.value(), 4);
    assert_eq!(KeplerianType::Osculating.value(), 4);
}

#[test]
fn keplerian_type_try_from() {
    assert_eq!(KeplerianType::try_from(0), Ok(KeplerianType::MeanKozaiGP));
    assert_eq!(KeplerianType::try_from(2), Ok(KeplerianType::MeanBrouwerGP));
    assert_eq!(KeplerianType::try_from(4), Ok(KeplerianType::MeanBrouwerXP));
    assert_eq!(KeplerianType::try_from(1), Err("Invalid KeplerianType value"));
    assert_eq!(KeplerianType::try_from(6), Err("Invalid KeplerianType value"));
    assert_eq!(KeplerianType::try_from(-1), Err("Invalid KeplerianType value"));
}

#[test]
fn keplerian_type_srp_and_propagation() {
    assert!(!KeplerianType::MeanKozaiGP.has_srp_term());
    assert!(!KeplerianType::MeanBrouwerGP.has_srp_term());
    assert!(KeplerianType::MeanBrouwerXP.has_srp_term());
    assert!(KeplerianType::Osculating.has_srp_term());
    assert!(KeplerianType::MeanKozaiGP.is_propagable());
    assert!(!KeplerianType::Osculating.is_propagable());
}

#[test]
fn keplerian_type_repr() {
    assert_eq!(KeplerianType::MeanKozaiGP.__repr__(), "KeplerianType.MeanKozaiGP");
    assert_eq!(KeplerianType::Osculating.__repr__(), "KeplerianType.Osculating");
}

#[test]
fn classification_codes() {
    assert_eq!(Classification::Unclassified.as_char(), "U");
    assert_eq!(Classification::Confidential.as_char(), "C");
    assert_eq!(Classification::Secret.value(), "S");
    assert_eq!(Classification::Secret.__repr__(), "Classification.Secret");
}

#[test]
fn classification_from_str_trims() {
    assert_eq!(Classification::from_str("U"), Ok(Classification::Unclassified));
    assert_eq!(Classification::from_str(" C "), Ok(Classification::Confidential));
    assert_eq!(Classification::from_str("S\n"), Ok(Classification::Secret));
}

#[test]
fn classification_from_str_rejects() {
    assert_eq!(
        Classification::from_str("X"),
        Err("Invalid TLE classification: X".to_string())
    );
    assert_eq!(
        Classification::from_str(""),
        Err("Invalid TLE classification: ".to_string())
    );
    assert_eq!(
        Classification::from_str("UU"),
        Err("Invalid TLE classification: UU".to_string())
    );
}

#[test]
fn classification_from_code_exact() {
    assert_eq!(Classification::from_code("U"), Some(Classification::Unclassified));
    assert_eq!(Classification::from_code(" U"), None);
    assert_eq!(Classification::from_code("u"), None);
}

#[test]
fn other_enum_values() {
    assert_eq!(CovarianceType::Relative.get_value(), "Relative");
    assert_eq!(CovarianceType::Inertial.__repr__(), "CovarianceType.Inertial");
    assert_eq!(EquinoxType::MeanOfDate.get_value(), 1);
    assert_eq!(EquinoxType::J2000.get_value(), 2);
    assert_eq!(GeodeticModel::WGS72.value(), 72);
    assert_eq!(GeodeticModel::WGS84.value(), 84);
    assert_eq!(GeodeticModel::EGM96.value(), 96);
    assert_eq!(GeodeticModel::EGM96.__repr__(), "GeodeticModel.EGM96");
    assert_eq!(ReferenceFrame::TEME.value(), "TEME");
    assert_eq!(ReferenceFrame::J2000.__repr__(), "ReferenceFrame.J2000");
    assert_eq!(SAALKeyMode::NoDuplicates.value(), 0);
    assert_eq!(SAALKeyMode::DirectMemoryAccess.value(), 1);
    assert_eq!(SAALKeyMode::DirectMemoryAccess.__repr__(), "SAALKeyMode.DirectMemoryAccess");
    assert_eq!(TimeSystem::UT1.value(), "UT1");
    assert_eq!(TimeSystem::TT.__repr__(), "TimeSystem.TT");
    assert_eq!(TimeSystem::TAI.to_string(), "TAI".to_string());
}
