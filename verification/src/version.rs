//! Firmware versions, read from dash-joined four-component texts.

use vstd::prelude::*;
use vstd::string::StringExecFns;

use crate::error::ErrorView;
use crate::error::MPXError;
use crate::text::dec_digits_of;
use crate::text::dec_u8;
use crate::text::parse_u8_dec;
use crate::text::split_dash;
use crate::text::split_dash_str;
use crate::text::strings_view;
use crate::text::u32_to_string;

verus! {

/// A firmware version, four eight-bit components.
#[derive(Copy, Clone, Debug, PartialEq, Eq, Structural)]
pub struct FWVersion {
    /// First (most significant) component.
    pub p0: u8,
    /// Second component.
    pub p1: u8,
    /// Third component.
    pub p2: u8,
    /// Fourth component.
    pub p3: u8,
}

impl FWVersion {
    /// What parsing a firmware-version text returns: exactly four
    /// dash-separated components, each an eight-bit decimal number.  A text
    /// with any other number of components lacks required data; a component
    /// that is no eight-bit decimal number is a malformed magnitude.
    pub open spec fn spec_from_str(s: Seq<char>) -> Result<FWVersion, ErrorView> {
        let parts = split_dash(s);
        if parts.len() != 4 {
            Err(ErrorView::Missing { label: s })
        } else {
            match (dec_u8(parts[0]), dec_u8(parts[1]), dec_u8(parts[2]), dec_u8(parts[3])) {
                (Ok(p0), Ok(p1), Ok(p2), Ok(p3)) => Ok(FWVersion { p0, p1, p2, p3 }),
                _ => Err(ErrorView::NumberFormat),
            }
        }
    }

    /// Parses a firmware-version text such as `1-2-3-4`.
    pub fn from_str(input: &str) -> (r: Result<FWVersion, MPXError>)
        ensures
            match r {
                Ok(v) => Self::spec_from_str(input@) == Ok::<FWVersion, ErrorView>(v),
                Err(e) => Self::spec_from_str(input@) == Err::<FWVersion, ErrorView>(e@),
            },
    {
        let parts = split_dash_str(input);
        proof {
            assert(forall|k: int|
                0 <= k < parts@.len() ==> strings_view(parts@)[k] == #[trigger] parts@[k]@);
        }
        if parts.len() != 4 {
            return Err(MPXError::missing(input));
        }
        let p0 = match parse_u8_dec(parts[0].as_str()) {
            Ok(v) => v,
            Err(e) => {
                return Err(e);
            },
        };
        let p1 = match parse_u8_dec(parts[1].as_str()) {
            Ok(v) => v,
            Err(e) => {
                return Err(e);
            },
        };
        let p2 = match parse_u8_dec(parts[2].as_str()) {
            Ok(v) => v,
            Err(e) => {
                return Err(e);
            },
        };
        let p3 = match parse_u8_dec(parts[3].as_str()) {
            Ok(v) => v,
            Err(e) => {
                return Err(e);
            },
        };
        Ok(FWVersion { p0, p1, p2, p3 })
    }

    /// The dotted rendering of this version.
    pub open spec fn spec_text(self) -> Seq<char> {
        dec_digits_of(self.p0 as nat) + seq!['.'] + dec_digits_of(self.p1 as nat) + seq!['.']
            + dec_digits_of(self.p2 as nat) + seq!['.'] + dec_digits_of(self.p3 as nat)
    }

    /// Renders this version with dots between the components.
    pub fn to_string(&self) -> (r: String)
        ensures
            r@ == self.spec_text(),
    {
        proof {
            reveal_strlit(".");
            assert("."@ =~= seq!['.']);
        }
        let mut s = u32_to_string(self.p0 as u32);
        s.append(".");
        let t1 = u32_to_string(self.p1 as u32);
        s.append(t1.as_str());
        s.append(".");
        let t2 = u32_to_string(self.p2 as u32);
        s.append(t2.as_str());
        s.append(".");
        let t3 = u32_to_string(self.p3 as u32);
        s.append(t3.as_str());
        s
    }
}

/// A version text parses exactly when it has four dash-joined components
/// and each is an eight-bit decimal number; any other component count lacks
/// required data, and a malformed component is a malformed magnitude.
pub proof fn lemma_fw_version_shape(s: Seq<char>)
    ensures
        split_dash(s).len() != 4 ==> FWVersion::spec_from_str(s) == Err::<FWVersion, ErrorView>(
            ErrorView::Missing { label: s },
        ),
        (FWVersion::spec_from_str(s) is Ok) <==> (split_dash(s).len() == 4 && forall|i: int|
            0 <= i < 4 ==> #[trigger] dec_u8(split_dash(s)[i]) is Ok),
        FWVersion::spec_from_str(s) matches Ok(v) ==> (Ok::<u8, MPXError>(v.p0) == dec_u8(
            split_dash(s)[0],
        ) && Ok::<u8, MPXError>(v.p1) == dec_u8(split_dash(s)[1]) && Ok::<u8, MPXError>(v.p2)
            == dec_u8(split_dash(s)[2]) && Ok::<u8, MPXError>(v.p3) == dec_u8(split_dash(s)[3])),
{
    let parts = split_dash(s);
    if parts.len() == 4 {
        if dec_u8(parts[0]) is Ok && dec_u8(parts[1]) is Ok && dec_u8(parts[2]) is Ok && dec_u8(
            parts[3],
        ) is Ok {
            assert(FWVersion::spec_from_str(s) is Ok);
        }
        if FWVersion::spec_from_str(s) is Ok {
            assert forall|i: int| 0 <= i < 4 implies #[trigger] dec_u8(parts[i]) is Ok by {
                assert(i == 0 || i == 1 || i == 2 || i == 3);
            }
        }
    }
}

} // verus!
