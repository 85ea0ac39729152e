use vstd::prelude::*;
use vstd::string::StrSliceExecFns;
use vstd::string::StringExecFns;

verus! {

/// Element-set code of Kozai mean (SGP) elements in the propagation library.
pub const TLETYPE_SGP: i32 = 0;

/// Element-set code of Brouwer mean (SGP4) elements.
pub const TLETYPE_SGP4: i32 = 2;

/// Element-set code of Brouwer mean XP elements.
pub const TLETYPE_XP: i32 = 4;

/// Element-set code of osculating (SP) elements.
pub const TLETYPE_SP: i32 = 6;

/// The four element-set variants an orbit state may carry.
#[derive(Debug, Clone, Copy, PartialEq, Eq, Structural)]
pub enum KeplerianType {
    MeanKozaiGP,
    MeanBrouwerGP,
    MeanBrouwerXP,
    Osculating,
}

/// The variant named by an integer code, if any (osculating elements have no
/// code that can be read back).
pub open spec fn keplerian_type_of_code(value: int) -> Option<KeplerianType> {
    if value == 0 {
        Some(KeplerianType::MeanKozaiGP)
    } else if value == 2 {
        Some(KeplerianType::MeanBrouwerGP)
    } else if value == 4 {
        Some(KeplerianType::MeanBrouwerXP)
    } else {
        None
    }
}

impl KeplerianType {
    /// The integer code handed to the propagation library.
    pub open spec fn spec_value(self) -> i32 {
        match self {
            KeplerianType::MeanKozaiGP => TLETYPE_SGP,
            KeplerianType::MeanBrouwerGP => TLETYPE_SGP4,
            KeplerianType::MeanBrouwerXP => TLETYPE_XP,
            KeplerianType::Osculating => TLETYPE_XP,
        }
    }

    /// Whether the variant carries a native solar-radiation-pressure term
    /// (the XP and osculating variants); the other two carry a mean-motion
    /// derivative in its place.
    pub open spec fn spec_has_srp_term(self) -> bool {
        self == KeplerianType::MeanBrouwerXP || self == KeplerianType::Osculating
    }

    pub fn value(&self) -> (r: i32)
        ensures
            r == self.spec_value(),
    {
        match self {
            KeplerianType::MeanKozaiGP => TLETYPE_SGP,
            KeplerianType::MeanBrouwerGP => TLETYPE_SGP4,
            KeplerianType::MeanBrouwerXP => TLETYPE_XP,
            KeplerianType::Osculating => TLETYPE_XP,
        }
    }

    pub fn has_srp_term(&self) -> (r: bool)
        ensures
            r == self.spec_has_srp_term(),
    {
        match self {
            KeplerianType::MeanBrouwerXP | KeplerianType::Osculating => true,
            _ => false,
        }
    }

    /// Whether a mean-element propagator can be bound to elements of this
    /// variant; propagation of osculating elements is not available.
    pub fn is_propagable(&self) -> (r: bool)
        ensures
            r == (*self != KeplerianType::Osculating),
    {
        match self {
            KeplerianType::Osculating => false,
            _ => true,
        }
    }

    pub fn __repr__(&self) -> (r: &'static str)
        ensures
            r@ == self.spec_repr()@,
    {
        match self {
            KeplerianType::MeanKozaiGP => "KeplerianType.MeanKozaiGP",
            KeplerianType::MeanBrouwerGP => "KeplerianType.MeanBrouwerGP",
            KeplerianType::MeanBrouwerXP => "KeplerianType.MeanBrouwerXP",
            KeplerianType::Osculating => "KeplerianType.Osculating",
        }
    }

    pub open spec fn spec_repr(self) -> &'static str {
        match self {
            KeplerianType::MeanKozaiGP => "KeplerianType.MeanKozaiGP",
            KeplerianType::MeanBrouwerGP => "KeplerianType.MeanBrouwerGP",
            KeplerianType::MeanBrouwerXP => "KeplerianType.MeanBrouwerXP",
            KeplerianType::Osculating => "KeplerianType.Osculating",
        }
    }
}

impl TryFrom<i32> for KeplerianType {
    type Error = &'static str;

    fn try_from(value: i32) -> (r: Result<Self, Self::Error>) {
        match value {
            0 => Ok(KeplerianType::MeanKozaiGP),
            2 => Ok(KeplerianType::MeanBrouwerGP),
            4 => Ok(KeplerianType::MeanBrouwerXP),
            _ => Err("Invalid KeplerianType value"),
        }
    }
}

impl vstd::std_specs::convert::TryFromSpecImpl<i32> for KeplerianType {
    open spec fn obeys_try_from_spec() -> bool {
        true
    }

    open spec fn try_from_spec(value: i32) -> Result<Self, Self::Error> {
        match keplerian_type_of_code(value as int) {
            Some(t) => Ok(t),
            None => Err("Invalid KeplerianType value"),
        }
    }
}


/// Equinox code for the mean equinox of date.
pub const YROFEQNX_CURR: i32 = 1;

/// Equinox code for the J2000 equinox.
pub const YROFEQNX_2000: i32 = 2;

/// Earth-model code for WGS-72.
pub const XF_GEOMOD_WGS72: i32 = 72;

/// Earth-model code for WGS-84.
pub const XF_GEOMOD_WGS84: i32 = 84;

/// Earth-model code for EGM-96.
pub const XF_GEOMOD_EGM96: i32 = 96;

/// Key-mode code that refuses duplicate element sets.
pub const ALL_KEYMODE_NODUP: i32 = 0;

/// Key-mode code that hands out direct memory addresses as keys.
pub const ALL_KEYMODE_DMA: i32 = 1;

/// The frame a covariance matrix is expressed in.
#[derive(Debug, Clone, Copy, PartialEq, Eq, Structural)]
pub enum CovarianceType {
    Inertial,
    Relative,
    Equinoctial,
}

impl CovarianceType {
    /// The variant's name.
    pub open spec fn spec_value(self) -> &'static str {
        match self {
            CovarianceType::Inertial => "Inertial",
            CovarianceType::Relative => "Relative",
            CovarianceType::Equinoctial => "Equinoctial",
        }
    }

    pub fn get_value(&self) -> (r: &'static str)
        ensures
            r@ == self.spec_value()@,
    {
        match self {
            CovarianceType::Inertial => "Inertial",
            CovarianceType::Relative => "Relative",
            CovarianceType::Equinoctial => "Equinoctial",
        }
    }

    /// The qualified name of the variant.
    pub open spec fn spec_repr(self) -> &'static str {
        match self {
            CovarianceType::Inertial => "CovarianceType.Inertial",
            CovarianceType::Relative => "CovarianceType.Relative",
            CovarianceType::Equinoctial => "CovarianceType.Equinoctial",
        }
    }

    pub fn __repr__(&self) -> (r: &'static str)
        ensures
            r@ == self.spec_repr()@,
    {
        match self {
            CovarianceType::Inertial => "CovarianceType.Inertial",
            CovarianceType::Relative => "CovarianceType.Relative",
            CovarianceType::Equinoctial => "CovarianceType.Equinoctial",
        }
    }
}

/// The equinox a topocentric or inertial direction refers to.
#[derive(Debug, Clone, Copy, PartialEq, Eq, Structural)]
pub enum EquinoxType {
    MeanOfDate,
    J2000,
}

impl EquinoxType {
    /// The equinox code handed to the propagation library.
    pub open spec fn spec_value(self) -> i32 {
        match self {
            EquinoxType::MeanOfDate => YROFEQNX_CURR,
            EquinoxType::J2000 => YROFEQNX_2000,
        }
    }

    pub fn get_value(&self) -> (r: i32)
        ensures
            r == self.spec_value(),
    {
        match self {
            EquinoxType::MeanOfDate => YROFEQNX_CURR,
            EquinoxType::J2000 => YROFEQNX_2000,
        }
    }

    /// The qualified name of the variant.
    pub open spec fn spec_repr(self) -> &'static str {
        match self {
            EquinoxType::MeanOfDate => "EquinoxType.MeanOfDate",
            EquinoxType::J2000 => "EquinoxType.J2000",
        }
    }

    pub fn __repr__(&self) -> (r: &'static str)
        ensures
            r@ == self.spec_repr()@,
    {
        match self {
            EquinoxType::MeanOfDate => "EquinoxType.MeanOfDate",
            EquinoxType::J2000 => "EquinoxType.J2000",
        }
    }
}

/// The Earth model the propagation library is configured with.
#[derive(Debug, Clone, Copy, PartialEq, Eq, Structural)]
pub enum GeodeticModel {
    WGS72,
    WGS84,
    EGM96,
}

impl GeodeticModel {
    /// The model code handed to the propagation library.
    pub open spec fn spec_value(self) -> i32 {
        match self {
            GeodeticModel::WGS72 => XF_GEOMOD_WGS72,
            GeodeticModel::WGS84 => XF_GEOMOD_WGS84,
            GeodeticModel::EGM96 => XF_GEOMOD_EGM96,
        }
    }

    pub fn value(&self) -> (r: i32)
        ensures
            r == self.spec_value(),
    {
        match self {
            GeodeticModel::WGS72 => XF_GEOMOD_WGS72,
            GeodeticModel::WGS84 => XF_GEOMOD_WGS84,
            GeodeticModel::EGM96 => XF_GEOMOD_EGM96,
        }
    }

    /// The qualified name of the variant.
    pub open spec fn spec_repr(self) -> &'static str {
        match self {
            GeodeticModel::WGS72 => "GeodeticModel.WGS72",
            GeodeticModel::WGS84 => "GeodeticModel.WGS84",
            GeodeticModel::EGM96 => "GeodeticModel.EGM96",
        }
    }

    pub fn __repr__(&self) -> (r: &'static str)
        ensures
            r@ == self.spec_repr()@,
    {
        match self {
            GeodeticModel::WGS72 => "GeodeticModel.WGS72",
            GeodeticModel::WGS84 => "GeodeticModel.WGS84",
            GeodeticModel::EGM96 => "GeodeticModel.EGM96",
        }
    }
}

/// The four frames a Cartesian state may be expressed in.
#[derive(Debug, Clone, Copy, PartialEq, Eq, Structural)]
pub enum ReferenceFrame {
    TEME,
    EFG,
    ECR,
    J2000,
}

impl ReferenceFrame {
    /// The frame's name.
    pub open spec fn spec_value(self) -> &'static str {
        match self {
            ReferenceFrame::TEME => "TEME",
            ReferenceFrame::EFG => "EFG",
            ReferenceFrame::ECR => "ECR",
            ReferenceFrame::J2000 => "J2000",
        }
    }

    pub fn value(&self) -> (r: &'static str)
        ensures
            r@ == self.spec_value()@,
    {
        match self {
            ReferenceFrame::TEME => "TEME",
            ReferenceFrame::EFG => "EFG",
            ReferenceFrame::ECR => "ECR",
            ReferenceFrame::J2000 => "J2000",
        }
    }

    /// The qualified name of the variant.
    pub open spec fn spec_repr(self) -> &'static str {
        match self {
            ReferenceFrame::TEME => "ReferenceFrame.TEME",
            ReferenceFrame::EFG => "ReferenceFrame.EFG",
            ReferenceFrame::ECR => "ReferenceFrame.ECR",
            ReferenceFrame::J2000 => "ReferenceFrame.J2000",
        }
    }

    pub fn __repr__(&self) -> (r: &'static str)
        ensures
            r@ == self.spec_repr()@,
    {
        match self {
            ReferenceFrame::TEME => "ReferenceFrame.TEME",
            ReferenceFrame::EFG => "ReferenceFrame.EFG",
            ReferenceFrame::ECR => "ReferenceFrame.ECR",
            ReferenceFrame::J2000 => "ReferenceFrame.J2000",
        }
    }
}

/// How the propagation library hands out keys for loaded element sets.
#[derive(Debug, Clone, Copy, PartialEq, Eq, Structural)]
pub enum SAALKeyMode {
    NoDuplicates,
    DirectMemoryAccess,
}

impl SAALKeyMode {
    /// The key-mode code handed to the propagation library.
    pub open spec fn spec_value(self) -> i32 {
        match self {
            SAALKeyMode::NoDuplicates => ALL_KEYMODE_NODUP,
            SAALKeyMode::DirectMemoryAccess => ALL_KEYMODE_DMA,
        }
    }

    pub fn value(&self) -> (r: i32)
        ensures
            r == self.spec_value(),
    {
        match self {
            SAALKeyMode::NoDuplicates => ALL_KEYMODE_NODUP,
            SAALKeyMode::DirectMemoryAccess => ALL_KEYMODE_DMA,
        }
    }

    /// The qualified name of the variant.
    pub open spec fn spec_repr(self) -> &'static str {
        match self {
            SAALKeyMode::NoDuplicates => "SAALKeyMode.NoDuplicates",
            SAALKeyMode::DirectMemoryAccess => "SAALKeyMode.DirectMemoryAccess",
        }
    }

    pub fn __repr__(&self) -> (r: &'static str)
        ensures
            r@ == self.spec_repr()@,
    {
        match self {
            SAALKeyMode::NoDuplicates => "SAALKeyMode.NoDuplicates",
            SAALKeyMode::DirectMemoryAccess => "SAALKeyMode.DirectMemoryAccess",
        }
    }
}

/// The time system an epoch is expressed in.
#[derive(Debug, Clone, Copy, PartialEq, Eq, Structural)]
pub enum TimeSystem {
    UTC,
    TAI,
    UT1,
    TT,
}

impl TimeSystem {
    /// The system's name.
    pub open spec fn spec_value(self) -> &'static str {
        match self {
            TimeSystem::UTC => "UTC",
            TimeSystem::TAI => "TAI",
            TimeSystem::UT1 => "UT1",
            TimeSystem::TT => "TT",
        }
    }

    pub fn value(&self) -> (r: &'static str)
        ensures
            r@ == self.spec_value()@,
    {
        match self {
            TimeSystem::UTC => "UTC",
            TimeSystem::TAI => "TAI",
            TimeSystem::UT1 => "UT1",
            TimeSystem::TT => "TT",
        }
    }

    /// The qualified name of the variant.
    pub open spec fn spec_repr(self) -> &'static str {
        match self {
            TimeSystem::UTC => "TimeSystem.UTC",
            TimeSystem::TAI => "TimeSystem.TAI",
            TimeSystem::UT1 => "TimeSystem.UT1",
            TimeSystem::TT => "TimeSystem.TT",
        }
    }

    pub fn __repr__(&self) -> (r: &'static str)
        ensures
            r@ == self.spec_repr()@,
    {
        match self {
            TimeSystem::UTC => "TimeSystem.UTC",
            TimeSystem::TAI => "TimeSystem.TAI",
            TimeSystem::UT1 => "TimeSystem.UT1",
            TimeSystem::TT => "TimeSystem.TT",
        }
    }

    /// The system's name as an owned string, as it is printed.
    pub fn to_string(&self) -> (r: String)
        ensures
            r@ == self.spec_value()@,
    {
        String::from_str(self.value())
    }
}


/// Security classification of an element set.
#[derive(Debug, Clone, Copy, PartialEq, Eq, Structural)]
pub enum Classification {
    Unclassified,
    Confidential,
    Secret,
}

/// The classification written as the given (already trimmed) code, if any.
pub open spec fn classification_of_code(code: Seq<char>) -> Option<Classification> {
    if code == seq!['U'] {
        Some(Classification::Unclassified)
    } else if code == seq!['C'] {
        Some(Classification::Confidential)
    } else if code == seq!['S'] {
        Some(Classification::Secret)
    } else {
        None
    }
}

/// What `str::trim` returns for a string.
pub uninterp spec fn trim_of(s: Seq<char>) -> Seq<char>;

/// Relies on `str::trim`: the string without its leading and trailing
/// Unicode white space.
#[verifier::external_body]
pub(crate) fn trimmed(s: &str) -> (r: &str)
    ensures
        r@ == trim_of(s@),
{
    s.trim()
}

impl Classification {
    /// The one-letter code of the classification.
    pub open spec fn spec_as_char(self) -> &'static str {
        match self {
            Classification::Unclassified => "U",
            Classification::Confidential => "C",
            Classification::Secret => "S",
        }
    }

    pub fn as_char(&self) -> (r: &'static str)
        ensures
            r@ == self.spec_as_char()@,
    {
        match self {
            Classification::Unclassified => "U",
            Classification::Confidential => "C",
            Classification::Secret => "S",
        }
    }

    pub fn value(&self) -> (r: &'static str)
        ensures
            r@ == self.spec_as_char()@,
    {
        self.as_char()
    }

    /// The qualified name of the variant.
    pub open spec fn spec_repr(self) -> &'static str {
        match self {
            Classification::Unclassified => "Classification.Unclassified",
            Classification::Confidential => "Classification.Confidential",
            Classification::Secret => "Classification.Secret",
        }
    }

    pub fn __repr__(&self) -> (r: &'static str)
        ensures
            r@ == self.spec_repr()@,
    {
        match self {
            Classification::Unclassified => "Classification.Unclassified",
            Classification::Confidential => "Classification.Confidential",
            Classification::Secret => "Classification.Secret",
        }
    }

    /// Reads a one-letter code that has already been trimmed.
    pub fn from_code(code: &str) -> (r: Option<Classification>)
        ensures
            r == classification_of_code(code@),
    {
        proof {
            reveal_strlit("U");
            reveal_strlit("C");
            reveal_strlit("S");
        }
        if code.unicode_len() != 1 {
            return None;
        }
        let c = code.get_char(0);
        assert(code@ == seq![c]);
        if c == 'U' {
            Some(Classification::Unclassified)
        } else if c == 'C' {
            Some(Classification::Confidential)
        } else if c == 'S' {
            Some(Classification::Secret)
        } else {
            None
        }
    }

    /// Reads a classification code, ignoring surrounding white space.
    pub fn from_text(s: &str) -> (r: Result<Classification, String>)
        ensures
            r matches Ok(c) ==> classification_of_code(trim_of(s@)) == Some(c),
            r matches Err(m) ==> classification_of_code(trim_of(s@)) is None
                && m@ == "Invalid TLE classification: "@ + s@,
    {
        match Classification::from_code(trimmed(s)) {
            Some(c) => Ok(c),
            None => {
                let mut m = String::from_str("Invalid TLE classification: ");
                m.append(s);
                Err(m)
            },
        }
    }
}

impl std::str::FromStr for Classification {
    type Err = String;

    fn from_str(s: &str) -> Result<Classification, String> {
        Classification::from_text(s)
    }
}

} // verus!
