//! The closed enumerations of the vendor's vocabulary.
//!
//! Each enumeration decodes from the exact words (or icon references) the
//! device's pages use; decoding is by exact string equality against the
//! vocabulary, with no trimming, case folding or partial matching, and any
//! word outside the vocabulary is rejected.  Each vocabulary is stated once
//! as a spec function, the decoder is proved against it, and a lemma per
//! enumeration shows the vocabulary exhaustive: every word decodes to its
//! own variant and everything else is rejected.

use vstd::prelude::*;

use crate::error::EnumParseError;
use crate::text::str_eq;

verus! {

/// Wiring type of the unit's input (1-phase or 3-phase).
#[derive(Copy, Clone, Debug, PartialEq, Eq, Structural)]
pub enum WiringType {
    /// 1-phase / 3 wire (L, N, PE).
    OnePhase,
    /// 3-phase / 5 wire (L1, L2, L3, N, PE).
    ThreePhase,
}

impl WiringType {
    /// The vendor's word for this variant.
    pub open spec fn vocab(self) -> Seq<char> {
        match self {
            WiringType::OnePhase => "1-Phase / 3-Wire (L, N, PE)"@,
            WiringType::ThreePhase => "3-Phase / 5-Wire (L1, L2, L3, N, PE)"@,
        }
    }

    /// What decoding a word returns: the variant whose vendor word it is,
    /// or a rejection for a word outside the vocabulary.
    pub open spec fn spec_from_str(s: Seq<char>) -> Result<WiringType, EnumParseError> {
        if s == WiringType::OnePhase.vocab() {
            Ok(WiringType::OnePhase)
        } else         if s == WiringType::ThreePhase.vocab() {
            Ok(WiringType::ThreePhase)
        } else {
            Err(())
        }
    }

    /// Decodes the vendor's word into its variant.
    pub fn from_str(input: &str) -> (r: Result<WiringType, EnumParseError>)
        ensures
            r == WiringType::spec_from_str(input@),
    {
        if str_eq(input, "1-Phase / 3-Wire (L, N, PE)") {
            Ok(WiringType::OnePhase)
        } else         if str_eq(input, "3-Phase / 5-Wire (L1, L2, L3, N, PE)") {
            Ok(WiringType::ThreePhase)
        } else {
            Err(())
        }
    }

    /// The short human label for this variant.
    pub open spec fn spec_text(self) -> Seq<char> {
        match self {
            WiringType::OnePhase => "1-Phase"@,
            WiringType::ThreePhase => "3-Phase"@,
        }
    }

    /// Renders the short human label.
    pub fn to_string(&self) -> (r: String)
        ensures
            r@ == self.spec_text(),
    {
        match self {
            WiringType::OnePhase => "1-Phase".to_owned(),
            WiringType::ThreePhase => "3-Phase".to_owned(),
        }
    }
}

/// The vocabulary is exhaustive: every vendor word decodes to its own
/// variant, and any word outside the vocabulary is rejected.
pub proof fn lemma_wiring_type_vocabulary()
    ensures
        forall|v: WiringType| #![auto] WiringType::spec_from_str(v.vocab()) == Ok::<WiringType, EnumParseError>(v),
        forall|s: Seq<char>|
            (forall|v: WiringType| s != #[trigger] v.vocab()) ==> WiringType::spec_from_str(s)
                == Err::<WiringType, EnumParseError>(()),
{
    reveal_strlit("1-Phase / 3-Wire (L, N, PE)");
    assert("1-Phase / 3-Wire (L, N, PE)"@.len() == 27);
    reveal_strlit("3-Phase / 5-Wire (L1, L2, L3, N, PE)");
    assert("3-Phase / 5-Wire (L1, L2, L3, N, PE)"@.len() == 36);
    assert forall|v: WiringType| #![auto] WiringType::spec_from_str(v.vocab()) == Ok::<WiringType, EnumParseError>(v) by {
        match v {
            WiringType::OnePhase => {
                assert(WiringType::spec_from_str(WiringType::OnePhase.vocab()) == Ok::<WiringType, EnumParseError>(WiringType::OnePhase));
            },
            WiringType::ThreePhase => {
                assert(WiringType::spec_from_str(WiringType::ThreePhase.vocab()) == Ok::<WiringType, EnumParseError>(WiringType::ThreePhase));
            },
        }
    }
    assert forall|s: Seq<char>| (forall|v: WiringType| s != #[trigger] v.vocab()) implies WiringType::spec_from_str(s) == Err::<WiringType, EnumParseError>(()) by {
        assert(s != WiringType::OnePhase.vocab());
        assert(s != WiringType::ThreePhase.vocab());
    }
}

/// The connector a receptacle offers.
#[derive(Copy, Clone, Debug, PartialEq, Eq, Structural)]
pub enum ReceptacleType {
    /// Receptacle for a C13 connector.
    C13,
    /// Receptacle for a C19 connector.
    C19,
    /// Receptacle for a Schuko connector.
    Schuko,
}

impl ReceptacleType {
    /// The vendor's word for this variant.
    pub open spec fn vocab(self) -> Seq<char> {
        match self {
            ReceptacleType::C13 => "IEC 60320 Sheet F C13"@,
            ReceptacleType::C19 => "C19"@,
            ReceptacleType::Schuko => "Schuko"@,
        }
    }

    /// What decoding a word returns: the variant whose vendor word it is,
    /// or a rejection for a word outside the vocabulary.
    pub open spec fn spec_from_str(s: Seq<char>) -> Result<ReceptacleType, EnumParseError> {
        if s == ReceptacleType::C13.vocab() {
            Ok(ReceptacleType::C13)
        } else         if s == ReceptacleType::C19.vocab() {
            Ok(ReceptacleType::C19)
        } else         if s == ReceptacleType::Schuko.vocab() {
            Ok(ReceptacleType::Schuko)
        } else {
            Err(())
        }
    }

    /// Decodes the vendor's word into its variant.
    pub fn from_str(input: &str) -> (r: Result<ReceptacleType, EnumParseError>)
        ensures
            r == ReceptacleType::spec_from_str(input@),
    {
        if str_eq(input, "IEC 60320 Sheet F C13") {
            Ok(ReceptacleType::C13)
        } else         if str_eq(input, "C19") {
            Ok(ReceptacleType::C19)
        } else         if str_eq(input, "Schuko") {
            Ok(ReceptacleType::Schuko)
        } else {
            Err(())
        }
    }

    /// The short human label for this variant.
    pub open spec fn spec_text(self) -> Seq<char> {
        match self {
            ReceptacleType::C13 => "C13"@,
            ReceptacleType::C19 => "C19"@,
            ReceptacleType::Schuko => "Schuko"@,
        }
    }

    /// Renders the short human label.
    pub fn to_string(&self) -> (r: String)
        ensures
            r@ == self.spec_text(),
    {
        match self {
            ReceptacleType::C13 => "C13".to_owned(),
            ReceptacleType::C19 => "C19".to_owned(),
            ReceptacleType::Schuko => "Schuko".to_owned(),
        }
    }
}

/// The vocabulary is exhaustive: every vendor word decodes to its own
/// variant, and any word outside the vocabulary is rejected.
pub proof fn lemma_receptacle_type_vocabulary()
    ensures
        forall|v: ReceptacleType| #![auto] ReceptacleType::spec_from_str(v.vocab()) == Ok::<ReceptacleType, EnumParseError>(v),
        forall|s: Seq<char>|
            (forall|v: ReceptacleType| s != #[trigger] v.vocab()) ==> ReceptacleType::spec_from_str(s)
                == Err::<ReceptacleType, EnumParseError>(()),
{
    reveal_strlit("IEC 60320 Sheet F C13");
    assert("IEC 60320 Sheet F C13"@.len() == 21);
    reveal_strlit("C19");
    assert("C19"@.len() == 3);
    reveal_strlit("Schuko");
    assert("Schuko"@.len() == 6);
    assert forall|v: ReceptacleType| #![auto] ReceptacleType::spec_from_str(v.vocab()) == Ok::<ReceptacleType, EnumParseError>(v) by {
        match v {
            ReceptacleType::C13 => {
                assert(ReceptacleType::spec_from_str(ReceptacleType::C13.vocab()) == Ok::<ReceptacleType, EnumParseError>(ReceptacleType::C13));
            },
            ReceptacleType::C19 => {
                assert(ReceptacleType::spec_from_str(ReceptacleType::C19.vocab()) == Ok::<ReceptacleType, EnumParseError>(ReceptacleType::C19));
            },
            ReceptacleType::Schuko => {
                assert(ReceptacleType::spec_from_str(ReceptacleType::Schuko.vocab()) == Ok::<ReceptacleType, EnumParseError>(ReceptacleType::Schuko));
            },
        }
    }
    assert forall|s: Seq<char>| (forall|v: ReceptacleType| s != #[trigger] v.vocab()) implies ReceptacleType::spec_from_str(s) == Err::<ReceptacleType, EnumParseError>(()) by {
        assert(s != ReceptacleType::C13.vocab());
        assert(s != ReceptacleType::C19.vocab());
        assert(s != ReceptacleType::Schuko.vocab());
    }
}

/// Model of the power entry module (PEM).
#[derive(Copy, Clone, Debug, PartialEq, Eq, Structural)]
pub enum PEMModel {
    /// 1 phase 32 A, elementary.
    EHAEXQ30,
    /// 1 phase 32 A, monitored.
    EHAXXQ30,
    /// 3 phase 16 A, elementary.
    EHAEXT30,
    /// 3 phase 16 A, monitored.
    EHAXXT30,
    /// 3 phase 32 A, elementary.
    EHAEXR30,
    /// 3 phase 32 A, monitored.
    EHAXXR30,
    /// 3 phase 63 A, elementary.
    EHBEXZ30,
    /// 3 phase 63 A, monitored.
    EHBXXZ30,
}

impl PEMModel {
    /// The vendor's word for this variant.
    pub open spec fn vocab(self) -> Seq<char> {
        match self {
            PEMModel::EHAEXQ30 => "MPXPEM-EHAEXQ30"@,
            PEMModel::EHAXXQ30 => "MPXPEM-EHAXXQ30"@,
            PEMModel::EHAEXT30 => "MPXPEM-EHAEXT30"@,
            PEMModel::EHAXXT30 => "MPXPEM-EHAXXT30"@,
            PEMModel::EHAEXR30 => "MPXPEM-EHAEXR30"@,
            PEMModel::EHAXXR30 => "MPXPEM-EHAXXR30"@,
            PEMModel::EHBEXZ30 => "MPXPEM-EHBEXZ30"@,
            PEMModel::EHBXXZ30 => "MPXPEM-EHBXXZ30"@,
        }
    }

    /// What decoding a word returns: the variant whose vendor word it is,
    /// or a rejection for a word outside the vocabulary.
    pub open spec fn spec_from_str(s: Seq<char>) -> Result<PEMModel, EnumParseError> {
        if s == PEMModel::EHAEXQ30.vocab() {
            Ok(PEMModel::EHAEXQ30)
        } else         if s == PEMModel::EHAXXQ30.vocab() {
            Ok(PEMModel::EHAXXQ30)
        } else         if s == PEMModel::EHAEXT30.vocab() {
            Ok(PEMModel::EHAEXT30)
        } else         if s == PEMModel::EHAXXT30.vocab() {
            Ok(PEMModel::EHAXXT30)
        } else         if s == PEMModel::EHAEXR30.vocab() {
            Ok(PEMModel::EHAEXR30)
        } else         if s == PEMModel::EHAXXR30.vocab() {
            Ok(PEMModel::EHAXXR30)
        } else         if s == PEMModel::EHBEXZ30.vocab() {
            Ok(PEMModel::EHBEXZ30)
        } else         if s == PEMModel::EHBXXZ30.vocab() {
            Ok(PEMModel::EHBXXZ30)
        } else {
            Err(())
        }
    }

    /// Decodes the vendor's word into its variant.
    pub fn from_str(input: &str) -> (r: Result<PEMModel, EnumParseError>)
        ensures
            r == PEMModel::spec_from_str(input@),
    {
        if str_eq(input, "MPXPEM-EHAEXQ30") {
            Ok(PEMModel::EHAEXQ30)
        } else         if str_eq(input, "MPXPEM-EHAXXQ30") {
            Ok(PEMModel::EHAXXQ30)
        } else         if str_eq(input, "MPXPEM-EHAEXT30") {
            Ok(PEMModel::EHAEXT30)
        } else         if str_eq(input, "MPXPEM-EHAXXT30") {
            Ok(PEMModel::EHAXXT30)
        } else         if str_eq(input, "MPXPEM-EHAEXR30") {
            Ok(PEMModel::EHAEXR30)
        } else         if str_eq(input, "MPXPEM-EHAXXR30") {
            Ok(PEMModel::EHAXXR30)
        } else         if str_eq(input, "MPXPEM-EHBEXZ30") {
            Ok(PEMModel::EHBEXZ30)
        } else         if str_eq(input, "MPXPEM-EHBXXZ30") {
            Ok(PEMModel::EHBXXZ30)
        } else {
            Err(())
        }
    }
}

/// The vocabulary is exhaustive: every vendor word decodes to its own
/// variant, and any word outside the vocabulary is rejected.
pub proof fn lemma_pem_model_vocabulary()
    ensures
        forall|v: PEMModel| #![auto] PEMModel::spec_from_str(v.vocab()) == Ok::<PEMModel, EnumParseError>(v),
        forall|s: Seq<char>|
            (forall|v: PEMModel| s != #[trigger] v.vocab()) ==> PEMModel::spec_from_str(s)
                == Err::<PEMModel, EnumParseError>(()),
{
    reveal_strlit("MPXPEM-EHAEXQ30");
    assert("MPXPEM-EHAEXQ30"@.len() == 15);
    reveal_strlit("MPXPEM-EHAXXQ30");
    assert("MPXPEM-EHAXXQ30"@.len() == 15);
    reveal_strlit("MPXPEM-EHAEXT30");
    assert("MPXPEM-EHAEXT30"@.len() == 15);
    reveal_strlit("MPXPEM-EHAXXT30");
    assert("MPXPEM-EHAXXT30"@.len() == 15);
    reveal_strlit("MPXPEM-EHAEXR30");
    assert("MPXPEM-EHAEXR30"@.len() == 15);
    reveal_strlit("MPXPEM-EHAXXR30");
    assert("MPXPEM-EHAXXR30"@.len() == 15);
    reveal_strlit("MPXPEM-EHBEXZ30");
    assert("MPXPEM-EHBEXZ30"@.len() == 15);
    reveal_strlit("MPXPEM-EHBXXZ30");
    assert("MPXPEM-EHBXXZ30"@.len() == 15);
    assert("MPXPEM-EHAEXQ30"@[10] == 'E');
    assert("MPXPEM-EHAEXQ30"@[12] == 'Q');
    assert("MPXPEM-EHAXXQ30"@[10] == 'X');
    assert("MPXPEM-EHAXXQ30"@[12] == 'Q');
    assert("MPXPEM-EHAEXT30"@[10] == 'E');
    assert("MPXPEM-EHAEXT30"@[12] == 'T');
    assert("MPXPEM-EHAXXT30"@[10] == 'X');
    assert("MPXPEM-EHAXXT30"@[12] == 'T');
    assert("MPXPEM-EHAEXR30"@[10] == 'E');
    assert("MPXPEM-EHAEXR30"@[12] == 'R');
    assert("MPXPEM-EHAXXR30"@[10] == 'X');
    assert("MPXPEM-EHAXXR30"@[12] == 'R');
    assert("MPXPEM-EHBEXZ30"@[10] == 'E');
    assert("MPXPEM-EHBEXZ30"@[12] == 'Z');
    assert("MPXPEM-EHBXXZ30"@[10] == 'X');
    assert("MPXPEM-EHBXXZ30"@[12] == 'Z');
    assert forall|v: PEMModel| #![auto] PEMModel::spec_from_str(v.vocab()) == Ok::<PEMModel, EnumParseError>(v) by {
        match v {
            PEMModel::EHAEXQ30 => {
                assert(PEMModel::spec_from_str(PEMModel::EHAEXQ30.vocab()) == Ok::<PEMModel, EnumParseError>(PEMModel::EHAEXQ30));
            },
            PEMModel::EHAXXQ30 => {
                assert(PEMModel::spec_from_str(PEMModel::EHAXXQ30.vocab()) == Ok::<PEMModel, EnumParseError>(PEMModel::EHAXXQ30));
            },
            PEMModel::EHAEXT30 => {
                assert(PEMModel::spec_from_str(PEMModel::EHAEXT30.vocab()) == Ok::<PEMModel, EnumParseError>(PEMModel::EHAEXT30));
            },
            PEMModel::EHAXXT30 => {
                assert(PEMModel::spec_from_str(PEMModel::EHAXXT30.vocab()) == Ok::<PEMModel, EnumParseError>(PEMModel::EHAXXT30));
            },
            PEMModel::EHAEXR30 => {
                assert(PEMModel::spec_from_str(PEMModel::EHAEXR30.vocab()) == Ok::<PEMModel, EnumParseError>(PEMModel::EHAEXR30));
            },
            PEMModel::EHAXXR30 => {
                assert(PEMModel::spec_from_str(PEMModel::EHAXXR30.vocab()) == Ok::<PEMModel, EnumParseError>(PEMModel::EHAXXR30));
            },
            PEMModel::EHBEXZ30 => {
                assert(PEMModel::spec_from_str(PEMModel::EHBEXZ30.vocab()) == Ok::<PEMModel, EnumParseError>(PEMModel::EHBEXZ30));
            },
            PEMModel::EHBXXZ30 => {
                assert(PEMModel::spec_from_str(PEMModel::EHBXXZ30.vocab()) == Ok::<PEMModel, EnumParseError>(PEMModel::EHBXXZ30));
            },
        }
    }
    assert forall|s: Seq<char>| (forall|v: PEMModel| s != #[trigger] v.vocab()) implies PEMModel::spec_from_str(s) == Err::<PEMModel, EnumParseError>(()) by {
        assert(s != PEMModel::EHAEXQ30.vocab());
        assert(s != PEMModel::EHAXXQ30.vocab());
        assert(s != PEMModel::EHAEXT30.vocab());
        assert(s != PEMModel::EHAXXT30.vocab());
        assert(s != PEMModel::EHAEXR30.vocab());
        assert(s != PEMModel::EHAXXR30.vocab());
        assert(s != PEMModel::EHBEXZ30.vocab());
        assert(s != PEMModel::EHBXXZ30.vocab());
    }
}

/// Model of a branch receptacle module (BRM).
#[derive(Copy, Clone, Debug, PartialEq, Eq, Structural)]
pub enum BRMModel {
    /// C13 L1, elementary.
    EEBC7N1N,
    /// C13 L2, elementary.
    EEBC7N2N,
    /// C13 L3, elementary.
    EEBC7N3N,
    /// C19 L1, elementary.
    EEBC4O1N,
    /// C19 L2, elementary.
    EEBC4O2N,
    /// C19 L3, elementary.
    EEBC4O3N,
    /// Schuko L1, elementary.
    EEBC3P1N,
    /// Schuko L2, elementary.
    EEBC3P2N,
    /// Schuko L3, elementary.
    EEBC3P3N,
    /// C13 L1, branch-monitored.
    EBBC6N1N,
    /// C13 L2, branch-monitored.
    EBBC6N2N,
    /// C13 L3, branch-monitored.
    EBBC6N3N,
    /// C19 L1, branch-monitored.
    EBBC4O1N,
    /// C19 L2, branch-monitored.
    EBBC4O2N,
    /// C19 L3, branch-monitored.
    EBBC4O3N,
    /// Schuko L1, branch-monitored.
    EBBC3P1N,
    /// Schuko L2, branch-monitored.
    EBBC3P2N,
    /// Schuko L3, branch-monitored.
    EBBC3P3N,
    /// C13 L1, receptacle-managed.
    ERBC6N1N,
    /// C13 L2, receptacle-managed.
    ERBC6N2N,
    /// C13 L3, receptacle-managed.
    ERBC6N3N,
    /// C19 L1, receptacle-managed.
    ERBC4O1N,
    /// C19 L2, receptacle-managed.
    ERBC4O2N,
    /// C19 L3, receptacle-managed.
    ERBC4O3N,
    /// Schuko L1, receptacle-managed.
    ERBC3P1N,
    /// Schuko L2, receptacle-managed.
    ERBC3P2N,
    /// Schuko L3, receptacle-managed.
    ERBC3P3N,
}

impl BRMModel {
    /// The vendor's word for this variant.
    pub open spec fn vocab(self) -> Seq<char> {
        match self {
            BRMModel::EEBC7N1N => "MPXBRM-EEBC7N1N"@,
            BRMModel::EEBC7N2N => "MPXBRM-EEBC7N2N"@,
            BRMModel::EEBC7N3N => "MPXBRM-EEBC7N3N"@,
            BRMModel::EEBC4O1N => "MPXBRM-EEBC4O1N"@,
            BRMModel::EEBC4O2N => "MPXBRM-EEBC4O2N"@,
            BRMModel::EEBC4O3N => "MPXBRM-EEBC4O3N"@,
            BRMModel::EEBC3P1N => "MPXBRM-EEBC3P1N"@,
            BRMModel::EEBC3P2N => "MPXBRM-EEBC3P2N"@,
            BRMModel::EEBC3P3N => "MPXBRM-EEBC3P3N"@,
            BRMModel::EBBC6N1N => "MPXBRM-EBBC6N1N"@,
            BRMModel::EBBC6N2N => "MPXBRM-EBBC6N2N"@,
            BRMModel::EBBC6N3N => "MPXBRM-EBBC6N3N"@,
            BRMModel::EBBC4O1N => "MPXBRM-EBBC4O1N"@,
            BRMModel::EBBC4O2N => "MPXBRM-EBBC4O2N"@,
            BRMModel::EBBC4O3N => "MPXBRM-EBBC4O3N"@,
            BRMModel::EBBC3P1N => "MPXBRM-EBBC3P1N"@,
            BRMModel::EBBC3P2N => "MPXBRM-EBBC3P2N"@,
            BRMModel::EBBC3P3N => "MPXBRM-EBBC3P3N"@,
            BRMModel::ERBC6N1N => "MPXBRM-ERBC6N1N"@,
            BRMModel::ERBC6N2N => "MPXBRM-ERBC6N2N"@,
            BRMModel::ERBC6N3N => "MPXBRM-ERBC6N3N"@,
            BRMModel::ERBC4O1N => "MPXBRM-ERBC4O1N"@,
            BRMModel::ERBC4O2N => "MPXBRM-ERBC4O2N"@,
            BRMModel::ERBC4O3N => "MPXBRM-ERBC4O3N"@,
            BRMModel::ERBC3P1N => "MPXBRM-ERBC3P1N"@,
            BRMModel::ERBC3P2N => "MPXBRM-ERBC3P2N"@,
            BRMModel::ERBC3P3N => "MPXBRM-ERBC3P3N"@,
        }
    }

    /// What decoding a word returns: the variant whose vendor word it is,
    /// or a rejection for a word outside the vocabulary.
    pub open spec fn spec_from_str(s: Seq<char>) -> Result<BRMModel, EnumParseError> {
        if s == BRMModel::EEBC7N1N.vocab() {
            Ok(BRMModel::EEBC7N1N)
        } else         if s == BRMModel::EEBC7N2N.vocab() {
            Ok(BRMModel::EEBC7N2N)
        } else         if s == BRMModel::EEBC7N3N.vocab() {
            Ok(BRMModel::EEBC7N3N)
        } else         if s == BRMModel::EEBC4O1N.vocab() {
            Ok(BRMModel::EEBC4O1N)
        } else         if s == BRMModel::EEBC4O2N.vocab() {
            Ok(BRMModel::EEBC4O2N)
        } else         if s == BRMModel::EEBC4O3N.vocab() {
            Ok(BRMModel::EEBC4O3N)
        } else         if s == BRMModel::EEBC3P1N.vocab() {
            Ok(BRMModel::EEBC3P1N)
        } else         if s == BRMModel::EEBC3P2N.vocab() {
            Ok(BRMModel::EEBC3P2N)
        } else         if s == BRMModel::EEBC3P3N.vocab() {
            Ok(BRMModel::EEBC3P3N)
        } else         if s == BRMModel::EBBC6N1N.vocab() {
            Ok(BRMModel::EBBC6N1N)
        } else         if s == BRMModel::EBBC6N2N.vocab() {
            Ok(BRMModel::EBBC6N2N)
        } else         if s == BRMModel::EBBC6N3N.vocab() {
            Ok(BRMModel::EBBC6N3N)
        } else         if s == BRMModel::EBBC4O1N.vocab() {
            Ok(BRMModel::EBBC4O1N)
        } else         if s == BRMModel::EBBC4O2N.vocab() {
            Ok(BRMModel::EBBC4O2N)
        } else         if s == BRMModel::EBBC4O3N.vocab() {
            Ok(BRMModel::EBBC4O3N)
        } else         if s == BRMModel::EBBC3P1N.vocab() {
            Ok(BRMModel::EBBC3P1N)
        } else         if s == BRMModel::EBBC3P2N.vocab() {
            Ok(BRMModel::EBBC3P2N)
        } else         if s == BRMModel::EBBC3P3N.vocab() {
            Ok(BRMModel::EBBC3P3N)
        } else         if s == BRMModel::ERBC6N1N.vocab() {
            Ok(BRMModel::ERBC6N1N)
        } else         if s == BRMModel::ERBC6N2N.vocab() {
            Ok(BRMModel::ERBC6N2N)
        } else         if s == BRMModel::ERBC6N3N.vocab() {
            Ok(BRMModel::ERBC6N3N)
        } else         if s == BRMModel::ERBC4O1N.vocab() {
            Ok(BRMModel::ERBC4O1N)
        } else         if s == BRMModel::ERBC4O2N.vocab() {
            Ok(BRMModel::ERBC4O2N)
        } else         if s == BRMModel::ERBC4O3N.vocab() {
            Ok(BRMModel::ERBC4O3N)
        } else         if s == BRMModel::ERBC3P1N.vocab() {
            Ok(BRMModel::ERBC3P1N)
        } else         if s == BRMModel::ERBC3P2N.vocab() {
            Ok(BRMModel::ERBC3P2N)
        } else         if s == BRMModel::ERBC3P3N.vocab() {
            Ok(BRMModel::ERBC3P3N)
        } else {
            Err(())
        }
    }

    /// Decodes the vendor's word into its variant.
    pub fn from_str(input: &str) -> (r: Result<BRMModel, EnumParseError>)
        ensures
            r == BRMModel::spec_from_str(input@),
    {
        if str_eq(input, "MPXBRM-EEBC7N1N") {
            Ok(BRMModel::EEBC7N1N)
        } else         if str_eq(input, "MPXBRM-EEBC7N2N") {
            Ok(BRMModel::EEBC7N2N)
        } else         if str_eq(input, "MPXBRM-EEBC7N3N") {
            Ok(BRMModel::EEBC7N3N)
        } else         if str_eq(input, "MPXBRM-EEBC4O1N") {
            Ok(BRMModel::EEBC4O1N)
        } else         if str_eq(input, "MPXBRM-EEBC4O2N") {
            Ok(BRMModel::EEBC4O2N)
        } else         if str_eq(input, "MPXBRM-EEBC4O3N") {
            Ok(BRMModel::EEBC4O3N)
        } else         if str_eq(input, "MPXBRM-EEBC3P1N") {
            Ok(BRMModel::EEBC3P1N)
        } else         if str_eq(input, "MPXBRM-EEBC3P2N") {
            Ok(BRMModel::EEBC3P2N)
        } else         if str_eq(input, "MPXBRM-EEBC3P3N") {
            Ok(BRMModel::EEBC3P3N)
        } else         if str_eq(input, "MPXBRM-EBBC6N1N") {
            Ok(BRMModel::EBBC6N1N)
        } else         if str_eq(input, "MPXBRM-EBBC6N2N") {
            Ok(BRMModel::EBBC6N2N)
        } else         if str_eq(input, "MPXBRM-EBBC6N3N") {
            Ok(BRMModel::EBBC6N3N)
        } else         if str_eq(input, "MPXBRM-EBBC4O1N") {
            Ok(BRMModel::EBBC4O1N)
        } else         if str_eq(input, "MPXBRM-EBBC4O2N") {
            Ok(BRMModel::EBBC4O2N)
        } else         if str_eq(input, "MPXBRM-EBBC4O3N") {
            Ok(BRMModel::EBBC4O3N)
        } else         if str_eq(input, "MPXBRM-EBBC3P1N") {
            Ok(BRMModel::EBBC3P1N)
        } else         if str_eq(input, "MPXBRM-EBBC3P2N") {
            Ok(BRMModel::EBBC3P2N)
        } else         if str_eq(input, "MPXBRM-EBBC3P3N") {
            Ok(BRMModel::EBBC3P3N)
        } else         if str_eq(input, "MPXBRM-ERBC6N1N") {
            Ok(BRMModel::ERBC6N1N)
        } else         if str_eq(input, "MPXBRM-ERBC6N2N") {
            Ok(BRMModel::ERBC6N2N)
        } else         if str_eq(input, "MPXBRM-ERBC6N3N") {
            Ok(BRMModel::ERBC6N3N)
        } else         if str_eq(input, "MPXBRM-ERBC4O1N") {
            Ok(BRMModel::ERBC4O1N)
        } else         if str_eq(input, "MPXBRM-ERBC4O2N") {
            Ok(BRMModel::ERBC4O2N)
        } else         if str_eq(input, "MPXBRM-ERBC4O3N") {
            Ok(BRMModel::ERBC4O3N)
        } else         if str_eq(input, "MPXBRM-ERBC3P1N") {
            Ok(BRMModel::ERBC3P1N)
        } else         if str_eq(input, "MPXBRM-ERBC3P2N") {
            Ok(BRMModel::ERBC3P2N)
        } else         if str_eq(input, "MPXBRM-ERBC3P3N") {
            Ok(BRMModel::ERBC3P3N)
        } else {
            Err(())
        }
    }
}

/// The vocabulary is exhaustive: every vendor word decodes to its own
/// variant, and any word outside the vocabulary is rejected.
pub proof fn lemma_brm_model_vocabulary()
    ensures
        forall|v: BRMModel| #![auto] BRMModel::spec_from_str(v.vocab()) == Ok::<BRMModel, EnumParseError>(v),
        forall|s: Seq<char>|
            (forall|v: BRMModel| s != #[trigger] v.vocab()) ==> BRMModel::spec_from_str(s)
                == Err::<BRMModel, EnumParseError>(()),
{
    reveal_strlit("MPXBRM-EEBC7N1N");
    assert("MPXBRM-EEBC7N1N"@.len() == 15);
    reveal_strlit("MPXBRM-EEBC7N2N");
    assert("MPXBRM-EEBC7N2N"@.len() == 15);
    reveal_strlit("MPXBRM-EEBC7N3N");
    assert("MPXBRM-EEBC7N3N"@.len() == 15);
    reveal_strlit("MPXBRM-EEBC4O1N");
    assert("MPXBRM-EEBC4O1N"@.len() == 15);
    reveal_strlit("MPXBRM-EEBC4O2N");
    assert("MPXBRM-EEBC4O2N"@.len() == 15);
    reveal_strlit("MPXBRM-EEBC4O3N");
    assert("MPXBRM-EEBC4O3N"@.len() == 15);
    reveal_strlit("MPXBRM-EEBC3P1N");
    assert("MPXBRM-EEBC3P1N"@.len() == 15);
    reveal_strlit("MPXBRM-EEBC3P2N");
    assert("MPXBRM-EEBC3P2N"@.len() == 15);
    reveal_strlit("MPXBRM-EEBC3P3N");
    assert("MPXBRM-EEBC3P3N"@.len() == 15);
    reveal_strlit("MPXBRM-EBBC6N1N");
    assert("MPXBRM-EBBC6N1N"@.len() == 15);
    reveal_strlit("MPXBRM-EBBC6N2N");
    assert("MPXBRM-EBBC6N2N"@.len() == 15);
    reveal_strlit("MPXBRM-EBBC6N3N");
    assert("MPXBRM-EBBC6N3N"@.len() == 15);
    reveal_strlit("MPXBRM-EBBC4O1N");
    assert("MPXBRM-EBBC4O1N"@.len() == 15);
    reveal_strlit("MPXBRM-EBBC4O2N");
    assert("MPXBRM-EBBC4O2N"@.len() == 15);
    reveal_strlit("MPXBRM-EBBC4O3N");
    assert("MPXBRM-EBBC4O3N"@.len() == 15);
    reveal_strlit("MPXBRM-EBBC3P1N");
    assert("MPXBRM-EBBC3P1N"@.len() == 15);
    reveal_strlit("MPXBRM-EBBC3P2N");
    assert("MPXBRM-EBBC3P2N"@.len() == 15);
    reveal_strlit("MPXBRM-EBBC3P3N");
    assert("MPXBRM-EBBC3P3N"@.len() == 15);
    reveal_strlit("MPXBRM-ERBC6N1N");
    assert("MPXBRM-ERBC6N1N"@.len() == 15);
    reveal_strlit("MPXBRM-ERBC6N2N");
    assert("MPXBRM-ERBC6N2N"@.len() == 15);
    reveal_strlit("MPXBRM-ERBC6N3N");
    assert("MPXBRM-ERBC6N3N"@.len() == 15);
    reveal_strlit("MPXBRM-ERBC4O1N");
    assert("MPXBRM-ERBC4O1N"@.len() == 15);
    reveal_strlit("MPXBRM-ERBC4O2N");
    assert("MPXBRM-ERBC4O2N"@.len() == 15);
    reveal_strlit("MPXBRM-ERBC4O3N");
    assert("MPXBRM-ERBC4O3N"@.len() == 15);
    reveal_strlit("MPXBRM-ERBC3P1N");
    assert("MPXBRM-ERBC3P1N"@.len() == 15);
    reveal_strlit("MPXBRM-ERBC3P2N");
    assert("MPXBRM-ERBC3P2N"@.len() == 15);
    reveal_strlit("MPXBRM-ERBC3P3N");
    assert("MPXBRM-ERBC3P3N"@.len() == 15);
    assert("MPXBRM-EEBC7N1N"@[8] == 'E');
    assert("MPXBRM-EEBC7N1N"@[11] == '7');
    assert("MPXBRM-EEBC7N1N"@[13] == '1');
    assert("MPXBRM-EEBC7N2N"@[8] == 'E');
    assert("MPXBRM-EEBC7N2N"@[11] == '7');
    assert("MPXBRM-EEBC7N2N"@[13] == '2');
    assert("MPXBRM-EEBC7N3N"@[8] == 'E');
    assert("MPXBRM-EEBC7N3N"@[11] == '7');
    assert("MPXBRM-EEBC7N3N"@[13] == '3');
    assert("MPXBRM-EEBC4O1N"@[8] == 'E');
    assert("MPXBRM-EEBC4O1N"@[11] == '4');
    assert("MPXBRM-EEBC4O1N"@[13] == '1');
    assert("MPXBRM-EEBC4O2N"@[8] == 'E');
    assert("MPXBRM-EEBC4O2N"@[11] == '4');
    assert("MPXBRM-EEBC4O2N"@[13] == '2');
    assert("MPXBRM-EEBC4O3N"@[8] == 'E');
    assert("MPXBRM-EEBC4O3N"@[11] == '4');
    assert("MPXBRM-EEBC4O3N"@[13] == '3');
    assert("MPXBRM-EEBC3P1N"@[8] == 'E');
    assert("MPXBRM-EEBC3P1N"@[11] == '3');
    assert("MPXBRM-EEBC3P1N"@[13] == '1');
    assert("MPXBRM-EEBC3P2N"@[8] == 'E');
    assert("MPXBRM-EEBC3P2N"@[11] == '3');
    assert("MPXBRM-EEBC3P2N"@[13] == '2');
    assert("MPXBRM-EEBC3P3N"@[8] == 'E');
    assert("MPXBRM-EEBC3P3N"@[11] == '3');
    assert("MPXBRM-EEBC3P3N"@[13] == '3');
    assert("MPXBRM-EBBC6N1N"@[8] == 'B');
    assert("MPXBRM-EBBC6N1N"@[11] == '6');
    assert("MPXBRM-EBBC6N1N"@[13] == '1');
    assert("MPXBRM-EBBC6N2N"@[8] == 'B');
    assert("MPXBRM-EBBC6N2N"@[11] == '6');
    assert("MPXBRM-EBBC6N2N"@[13] == '2');
    assert("MPXBRM-EBBC6N3N"@[8] == 'B');
    assert("MPXBRM-EBBC6N3N"@[11] == '6');
    assert("MPXBRM-EBBC6N3N"@[13] == '3');
    assert("MPXBRM-EBBC4O1N"@[8] == 'B');
    assert("MPXBRM-EBBC4O1N"@[11] == '4');
    assert("MPXBRM-EBBC4O1N"@[13] == '1');
    assert("MPXBRM-EBBC4O2N"@[8] == 'B');
    assert("MPXBRM-EBBC4O2N"@[11] == '4');
    assert("MPXBRM-EBBC4O2N"@[13] == '2');
    assert("MPXBRM-EBBC4O3N"@[8] == 'B');
    assert("MPXBRM-EBBC4O3N"@[11] == '4');
    assert("MPXBRM-EBBC4O3N"@[13] == '3');
    assert("MPXBRM-EBBC3P1N"@[8] == 'B');
    assert("MPXBRM-EBBC3P1N"@[11] == '3');
    assert("MPXBRM-EBBC3P1N"@[13] == '1');
    assert("MPXBRM-EBBC3P2N"@[8] == 'B');
    assert("MPXBRM-EBBC3P2N"@[11] == '3');
    assert("MPXBRM-EBBC3P2N"@[13] == '2');
    assert("MPXBRM-EBBC3P3N"@[8] == 'B');
    assert("MPXBRM-EBBC3P3N"@[11] == '3');
    assert("MPXBRM-EBBC3P3N"@[13] == '3');
    assert("MPXBRM-ERBC6N1N"@[8] == 'R');
    assert("MPXBRM-ERBC6N1N"@[11] == '6');
    assert("MPXBRM-ERBC6N1N"@[13] == '1');
    assert("MPXBRM-ERBC6N2N"@[8] == 'R');
    assert("MPXBRM-ERBC6N2N"@[11] == '6');
    assert("MPXBRM-ERBC6N2N"@[13] == '2');
    assert("MPXBRM-ERBC6N3N"@[8] == 'R');
    assert("MPXBRM-ERBC6N3N"@[11] == '6');
    assert("MPXBRM-ERBC6N3N"@[13] == '3');
    assert("MPXBRM-ERBC4O1N"@[8] == 'R');
    assert("MPXBRM-ERBC4O1N"@[11] == '4');
    assert("MPXBRM-ERBC4O1N"@[13] == '1');
    assert("MPXBRM-ERBC4O2N"@[8] == 'R');
    assert("MPXBRM-ERBC4O2N"@[11] == '4');
    assert("MPXBRM-ERBC4O2N"@[13] == '2');
    assert("MPXBRM-ERBC4O3N"@[8] == 'R');
    assert("MPXBRM-ERBC4O3N"@[11] == '4');
    assert("MPXBRM-ERBC4O3N"@[13] == '3');
    assert("MPXBRM-ERBC3P1N"@[8] == 'R');
    assert("MPXBRM-ERBC3P1N"@[11] == '3');
    assert("MPXBRM-ERBC3P1N"@[13] == '1');
    assert("MPXBRM-ERBC3P2N"@[8] == 'R');
    assert("MPXBRM-ERBC3P2N"@[11] == '3');
    assert("MPXBRM-ERBC3P2N"@[13] == '2');
    assert("MPXBRM-ERBC3P3N"@[8] == 'R');
    assert("MPXBRM-ERBC3P3N"@[11] == '3');
    assert("MPXBRM-ERBC3P3N"@[13] == '3');
    assert forall|v: BRMModel| #![auto] BRMModel::spec_from_str(v.vocab()) == Ok::<BRMModel, EnumParseError>(v) by {
        match v {
            BRMModel::EEBC7N1N => {
                assert(BRMModel::spec_from_str(BRMModel::EEBC7N1N.vocab()) == Ok::<BRMModel, EnumParseError>(BRMModel::EEBC7N1N));
            },
            BRMModel::EEBC7N2N => {
                assert(BRMModel::spec_from_str(BRMModel::EEBC7N2N.vocab()) == Ok::<BRMModel, EnumParseError>(BRMModel::EEBC7N2N));
            },
            BRMModel::EEBC7N3N => {
                assert(BRMModel::spec_from_str(BRMModel::EEBC7N3N.vocab()) == Ok::<BRMModel, EnumParseError>(BRMModel::EEBC7N3N));
            },
            BRMModel::EEBC4O1N => {
                assert(BRMModel::spec_from_str(BRMModel::EEBC4O1N.vocab()) == Ok::<BRMModel, EnumParseError>(BRMModel::EEBC4O1N));
            },
            BRMModel::EEBC4O2N => {
                assert(BRMModel::spec_from_str(BRMModel::EEBC4O2N.vocab()) == Ok::<BRMModel, EnumParseError>(BRMModel::EEBC4O2N));
            },
            BRMModel::EEBC4O3N => {
                assert(BRMModel::spec_from_str(BRMModel::EEBC4O3N.vocab()) == Ok::<BRMModel, EnumParseError>(BRMModel::EEBC4O3N));
            },
            BRMModel::EEBC3P1N => {
                assert(BRMModel::spec_from_str(BRMModel::EEBC3P1N.vocab()) == Ok::<BRMModel, EnumParseError>(BRMModel::EEBC3P1N));
            },
            BRMModel::EEBC3P2N => {
                assert(BRMModel::spec_from_str(BRMModel::EEBC3P2N.vocab()) == Ok::<BRMModel, EnumParseError>(BRMModel::EEBC3P2N));
            },
            BRMModel::EEBC3P3N => {
                assert(BRMModel::spec_from_str(BRMModel::EEBC3P3N.vocab()) == Ok::<BRMModel, EnumParseError>(BRMModel::EEBC3P3N));
            },
            BRMModel::EBBC6N1N => {
                assert(BRMModel::spec_from_str(BRMModel::EBBC6N1N.vocab()) == Ok::<BRMModel, EnumParseError>(BRMModel::EBBC6N1N));
            },
            BRMModel::EBBC6N2N => {
                assert(BRMModel::spec_from_str(BRMModel::EBBC6N2N.vocab()) == Ok::<BRMModel, EnumParseError>(BRMModel::EBBC6N2N));
            },
            BRMModel::EBBC6N3N => {
                assert(BRMModel::spec_from_str(BRMModel::EBBC6N3N.vocab()) == Ok::<BRMModel, EnumParseError>(BRMModel::EBBC6N3N));
            },
            BRMModel::EBBC4O1N => {
                assert(BRMModel::spec_from_str(BRMModel::EBBC4O1N.vocab()) == Ok::<BRMModel, EnumParseError>(BRMModel::EBBC4O1N));
            },
            BRMModel::EBBC4O2N => {
                assert(BRMModel::spec_from_str(BRMModel::EBBC4O2N.vocab()) == Ok::<BRMModel, EnumParseError>(BRMModel::EBBC4O2N));
            },
            BRMModel::EBBC4O3N => {
                assert(BRMModel::spec_from_str(BRMModel::EBBC4O3N.vocab()) == Ok::<BRMModel, EnumParseError>(BRMModel::EBBC4O3N));
            },
            BRMModel::EBBC3P1N => {
                assert(BRMModel::spec_from_str(BRMModel::EBBC3P1N.vocab()) == Ok::<BRMModel, EnumParseError>(BRMModel::EBBC3P1N));
            },
            BRMModel::EBBC3P2N => {
                assert(BRMModel::spec_from_str(BRMModel::EBBC3P2N.vocab()) == Ok::<BRMModel, EnumParseError>(BRMModel::EBBC3P2N));
            },
            BRMModel::EBBC3P3N => {
                assert(BRMModel::spec_from_str(BRMModel::EBBC3P3N.vocab()) == Ok::<BRMModel, EnumParseError>(BRMModel::EBBC3P3N));
            },
            BRMModel::ERBC6N1N => {
                assert(BRMModel::spec_from_str(BRMModel::ERBC6N1N.vocab()) == Ok::<BRMModel, EnumParseError>(BRMModel::ERBC6N1N));
            },
            BRMModel::ERBC6N2N => {
                assert(BRMModel::spec_from_str(BRMModel::ERBC6N2N.vocab()) == Ok::<BRMModel, EnumParseError>(BRMModel::ERBC6N2N));
            },
            BRMModel::ERBC6N3N => {
                assert(BRMModel::spec_from_str(BRMModel::ERBC6N3N.vocab()) == Ok::<BRMModel, EnumParseError>(BRMModel::ERBC6N3N));
            },
            BRMModel::ERBC4O1N => {
                assert(BRMModel::spec_from_str(BRMModel::ERBC4O1N.vocab()) == Ok::<BRMModel, EnumParseError>(BRMModel::ERBC4O1N));
            },
            BRMModel::ERBC4O2N => {
                assert(BRMModel::spec_from_str(BRMModel::ERBC4O2N.vocab()) == Ok::<BRMModel, EnumParseError>(BRMModel::ERBC4O2N));
            },
            BRMModel::ERBC4O3N => {
                assert(BRMModel::spec_from_str(BRMModel::ERBC4O3N.vocab()) == Ok::<BRMModel, EnumParseError>(BRMModel::ERBC4O3N));
            },
            BRMModel::ERBC3P1N => {
                assert(BRMModel::spec_from_str(BRMModel::ERBC3P1N.vocab()) == Ok::<BRMModel, EnumParseError>(BRMModel::ERBC3P1N));
            },
            BRMModel::ERBC3P2N => {
                assert(BRMModel::spec_from_str(BRMModel::ERBC3P2N.vocab()) == Ok::<BRMModel, EnumParseError>(BRMModel::ERBC3P2N));
            },
            BRMModel::ERBC3P3N => {
                assert(BRMModel::spec_from_str(BRMModel::ERBC3P3N.vocab()) == Ok::<BRMModel, EnumParseError>(BRMModel::ERBC3P3N));
            },
        }
    }
    assert forall|s: Seq<char>| (forall|v: BRMModel| s != #[trigger] v.vocab()) implies BRMModel::spec_from_str(s) == Err::<BRMModel, EnumParseError>(()) by {
        assert(s != BRMModel::EEBC7N1N.vocab());
        assert(s != BRMModel::EEBC7N2N.vocab());
        assert(s != BRMModel::EEBC7N3N.vocab());
        assert(s != BRMModel::EEBC4O1N.vocab());
        assert(s != BRMModel::EEBC4O2N.vocab());
        assert(s != BRMModel::EEBC4O3N.vocab());
        assert(s != BRMModel::EEBC3P1N.vocab());
        assert(s != BRMModel::EEBC3P2N.vocab());
        assert(s != BRMModel::EEBC3P3N.vocab());
        assert(s != BRMModel::EBBC6N1N.vocab());
        assert(s != BRMModel::EBBC6N2N.vocab());
        assert(s != BRMModel::EBBC6N3N.vocab());
        assert(s != BRMModel::EBBC4O1N.vocab());
        assert(s != BRMModel::EBBC4O2N.vocab());
        assert(s != BRMModel::EBBC4O3N.vocab());
        assert(s != BRMModel::EBBC3P1N.vocab());
        assert(s != BRMModel::EBBC3P2N.vocab());
        assert(s != BRMModel::EBBC3P3N.vocab());
        assert(s != BRMModel::ERBC6N1N.vocab());
        assert(s != BRMModel::ERBC6N2N.vocab());
        assert(s != BRMModel::ERBC6N3N.vocab());
        assert(s != BRMModel::ERBC4O1N.vocab());
        assert(s != BRMModel::ERBC4O2N.vocab());
        assert(s != BRMModel::ERBC4O3N.vocab());
        assert(s != BRMModel::ERBC3P1N.vocab());
        assert(s != BRMModel::ERBC3P2N.vocab());
        assert(s != BRMModel::ERBC3P3N.vocab());
    }
}

/// The kind of an event or alarm the unit reports.
#[derive(Copy, Clone, Debug, PartialEq, Eq, Structural)]
pub enum EventType {
    /// Over-current at one receptacle.
    ReceptacleOverCurrent,
    /// Low current at one receptacle.
    ReceptacleLowCurrent,
    /// Low voltage on one branch.
    BranchLowVoltage,
    /// Over-current on one branch.
    BranchOverCurrent,
    /// Low current on one branch.
    BranchLowCurrent,
    /// Failure of a branch module.
    BranchFailure,
    /// Open breaker on one branch.
    BranchBreakerOpen,
    /// Low voltage on line L1.
    PDULowVoltageL1,
    /// Low voltage on line L2.
    PDULowVoltageL2,
    /// Low voltage on line L3.
    PDULowVoltageL3,
    /// Over-current on line L1.
    PDUOverCurrentL1,
    /// Over-current on line L2.
    PDUOverCurrentL2,
    /// Over-current on line L3.
    PDUOverCurrentL3,
    /// Low current on line L1.
    PDULowCurrentL1,
    /// Low current on line L2.
    PDULowCurrentL2,
    /// Low current on line L3.
    PDULowCurrentL3,
    /// Failure of the input module.
    PDUFailure,
    /// Lost communication with the input module.
    PDUCommunicationFail,
    /// Over-current on the neutral line.
    PDUOverCurrentN,
}

impl EventType {
    /// The vendor's word for this variant.
    pub open spec fn vocab(self) -> Seq<char> {
        match self {
            EventType::ReceptacleOverCurrent => "Receptacle Over Current"@,
            EventType::ReceptacleLowCurrent => "Receptacle Low Current"@,
            EventType::BranchLowVoltage => "Branch Low Voltage (LN)"@,
            EventType::BranchOverCurrent => "Branch Over Current"@,
            EventType::BranchLowCurrent => "Branch Low Current"@,
            EventType::BranchFailure => "Branch Failure"@,
            EventType::BranchBreakerOpen => "Branch Breaker Open"@,
            EventType::PDULowVoltageL1 => "PDU Low Voltage L1-N"@,
            EventType::PDULowVoltageL2 => "PDU Low Voltage L2-N"@,
            EventType::PDULowVoltageL3 => "PDU Low Voltage L3-N"@,
            EventType::PDUOverCurrentL1 => "PDU Over Current L1"@,
            EventType::PDUOverCurrentL2 => "PDU Over Current L2"@,
            EventType::PDUOverCurrentL3 => "PDU Over Current L3"@,
            EventType::PDULowCurrentL1 => "PDU Low Current L1"@,
            EventType::PDULowCurrentL2 => "PDU Low Current L2"@,
            EventType::PDULowCurrentL3 => "PDU Low Current L3"@,
            EventType::PDUFailure => "PDU Failure"@,
            EventType::PDUCommunicationFail => "PDU Communication Fail"@,
            EventType::PDUOverCurrentN => "PDU Neutral Over Current"@,
        }
    }

    /// What decoding a word returns: the variant whose vendor word it is,
    /// or a rejection for a word outside the vocabulary.
    pub open spec fn spec_from_str(s: Seq<char>) -> Result<EventType, EnumParseError> {
        if s == EventType::ReceptacleOverCurrent.vocab() {
            Ok(EventType::ReceptacleOverCurrent)
        } else         if s == EventType::ReceptacleLowCurrent.vocab() {
            Ok(EventType::ReceptacleLowCurrent)
        } else         if s == EventType::BranchLowVoltage.vocab() {
            Ok(EventType::BranchLowVoltage)
        } else         if s == EventType::BranchOverCurrent.vocab() {
            Ok(EventType::BranchOverCurrent)
        } else         if s == EventType::BranchLowCurrent.vocab() {
            Ok(EventType::BranchLowCurrent)
        } else         if s == EventType::BranchFailure.vocab() {
            Ok(EventType::BranchFailure)
        } else         if s == EventType::BranchBreakerOpen.vocab() {
            Ok(EventType::BranchBreakerOpen)
        } else         if s == EventType::PDULowVoltageL1.vocab() {
            Ok(EventType::PDULowVoltageL1)
        } else         if s == EventType::PDULowVoltageL2.vocab() {
            Ok(EventType::PDULowVoltageL2)
        } else         if s == EventType::PDULowVoltageL3.vocab() {
            Ok(EventType::PDULowVoltageL3)
        } else         if s == EventType::PDUOverCurrentL1.vocab() {
            Ok(EventType::PDUOverCurrentL1)
        } else         if s == EventType::PDUOverCurrentL2.vocab() {
            Ok(EventType::PDUOverCurrentL2)
        } else         if s == EventType::PDUOverCurrentL3.vocab() {
            Ok(EventType::PDUOverCurrentL3)
        } else         if s == EventType::PDULowCurrentL1.vocab() {
            Ok(EventType::PDULowCurrentL1)
        } else         if s == EventType::PDULowCurrentL2.vocab() {
            Ok(EventType::PDULowCurrentL2)
        } else         if s == EventType::PDULowCurrentL3.vocab() {
            Ok(EventType::PDULowCurrentL3)
        } else         if s == EventType::PDUFailure.vocab() {
            Ok(EventType::PDUFailure)
        } else         if s == EventType::PDUCommunicationFail.vocab() {
            Ok(EventType::PDUCommunicationFail)
        } else         if s == EventType::PDUOverCurrentN.vocab() {
            Ok(EventType::PDUOverCurrentN)
        } else {
            Err(())
        }
    }

    /// Decodes the vendor's word into its variant.
    pub fn from_str(input: &str) -> (r: Result<EventType, EnumParseError>)
        ensures
            r == EventType::spec_from_str(input@),
    {
        if str_eq(input, "Receptacle Over Current") {
            Ok(EventType::ReceptacleOverCurrent)
        } else         if str_eq(input, "Receptacle Low Current") {
            Ok(EventType::ReceptacleLowCurrent)
        } else         if str_eq(input, "Branch Low Voltage (LN)") {
            Ok(EventType::BranchLowVoltage)
        } else         if str_eq(input, "Branch Over Current") {
            Ok(EventType::BranchOverCurrent)
        } else         if str_eq(input, "Branch Low Current") {
            Ok(EventType::BranchLowCurrent)
        } else         if str_eq(input, "Branch Failure") {
            Ok(EventType::BranchFailure)
        } else         if str_eq(input, "Branch Breaker Open") {
            Ok(EventType::BranchBreakerOpen)
        } else         if str_eq(input, "PDU Low Voltage L1-N") {
            Ok(EventType::PDULowVoltageL1)
        } else         if str_eq(input, "PDU Low Voltage L2-N") {
            Ok(EventType::PDULowVoltageL2)
        } else         if str_eq(input, "PDU Low Voltage L3-N") {
            Ok(EventType::PDULowVoltageL3)
        } else         if str_eq(input, "PDU Over Current L1") {
            Ok(EventType::PDUOverCurrentL1)
        } else         if str_eq(input, "PDU Over Current L2") {
            Ok(EventType::PDUOverCurrentL2)
        } else         if str_eq(input, "PDU Over Current L3") {
            Ok(EventType::PDUOverCurrentL3)
        } else         if str_eq(input, "PDU Low Current L1") {
            Ok(EventType::PDULowCurrentL1)
        } else         if str_eq(input, "PDU Low Current L2") {
            Ok(EventType::PDULowCurrentL2)
        } else         if str_eq(input, "PDU Low Current L3") {
            Ok(EventType::PDULowCurrentL3)
        } else         if str_eq(input, "PDU Failure") {
            Ok(EventType::PDUFailure)
        } else         if str_eq(input, "PDU Communication Fail") {
            Ok(EventType::PDUCommunicationFail)
        } else         if str_eq(input, "PDU Neutral Over Current") {
            Ok(EventType::PDUOverCurrentN)
        } else {
            Err(())
        }
    }
}

/// The vocabulary is exhaustive: every vendor word decodes to its own
/// variant, and any word outside the vocabulary is rejected.
pub proof fn lemma_event_type_vocabulary()
    ensures
        forall|v: EventType| #![auto] EventType::spec_from_str(v.vocab()) == Ok::<EventType, EnumParseError>(v),
        forall|s: Seq<char>|
            (forall|v: EventType| s != #[trigger] v.vocab()) ==> EventType::spec_from_str(s)
                == Err::<EventType, EnumParseError>(()),
{
    reveal_strlit("Receptacle Over Current");
    assert("Receptacle Over Current"@.len() == 23);
    reveal_strlit("Receptacle Low Current");
    assert("Receptacle Low Current"@.len() == 22);
    reveal_strlit("Branch Low Voltage (LN)");
    assert("Branch Low Voltage (LN)"@.len() == 23);
    reveal_strlit("Branch Over Current");
    assert("Branch Over Current"@.len() == 19);
    reveal_strlit("Branch Low Current");
    assert("Branch Low Current"@.len() == 18);
    reveal_strlit("Branch Failure");
    assert("Branch Failure"@.len() == 14);
    reveal_strlit("Branch Breaker Open");
    assert("Branch Breaker Open"@.len() == 19);
    reveal_strlit("PDU Low Voltage L1-N");
    assert("PDU Low Voltage L1-N"@.len() == 20);
    reveal_strlit("PDU Low Voltage L2-N");
    assert("PDU Low Voltage L2-N"@.len() == 20);
    reveal_strlit("PDU Low Voltage L3-N");
    assert("PDU Low Voltage L3-N"@.len() == 20);
    reveal_strlit("PDU Over Current L1");
    assert("PDU Over Current L1"@.len() == 19);
    reveal_strlit("PDU Over Current L2");
    assert("PDU Over Current L2"@.len() == 19);
    reveal_strlit("PDU Over Current L3");
    assert("PDU Over Current L3"@.len() == 19);
    reveal_strlit("PDU Low Current L1");
    assert("PDU Low Current L1"@.len() == 18);
    reveal_strlit("PDU Low Current L2");
    assert("PDU Low Current L2"@.len() == 18);
    reveal_strlit("PDU Low Current L3");
    assert("PDU Low Current L3"@.len() == 18);
    reveal_strlit("PDU Failure");
    assert("PDU Failure"@.len() == 11);
    reveal_strlit("PDU Communication Fail");
    assert("PDU Communication Fail"@.len() == 22);
    reveal_strlit("PDU Neutral Over Current");
    assert("PDU Neutral Over Current"@.len() == 24);
    assert("Receptacle Over Current"@[0] == 'R');
    assert("Branch Low Voltage (LN)"@[0] == 'B');
    assert("Receptacle Low Current"@[0] == 'R');
    assert("PDU Communication Fail"@[0] == 'P');
    assert("Branch Over Current"@[7] == 'O');
    assert("Branch Over Current"@[18] == 't');
    assert("Branch Breaker Open"@[7] == 'B');
    assert("Branch Breaker Open"@[18] == 'n');
    assert("PDU Over Current L1"@[7] == 'r');
    assert("PDU Over Current L1"@[18] == '1');
    assert("PDU Over Current L2"@[7] == 'r');
    assert("PDU Over Current L2"@[18] == '2');
    assert("PDU Over Current L3"@[7] == 'r');
    assert("PDU Over Current L3"@[18] == '3');
    assert("Branch Low Current"@[0] == 'B');
    assert("Branch Low Current"@[17] == 't');
    assert("PDU Low Current L1"@[0] == 'P');
    assert("PDU Low Current L1"@[17] == '1');
    assert("PDU Low Current L2"@[0] == 'P');
    assert("PDU Low Current L2"@[17] == '2');
    assert("PDU Low Current L3"@[0] == 'P');
    assert("PDU Low Current L3"@[17] == '3');
    assert("PDU Low Voltage L1-N"@[17] == '1');
    assert("PDU Low Voltage L2-N"@[17] == '2');
    assert("PDU Low Voltage L3-N"@[17] == '3');
    assert forall|v: EventType| #![auto] EventType::spec_from_str(v.vocab()) == Ok::<EventType, EnumParseError>(v) by {
        match v {
            EventType::ReceptacleOverCurrent => {
                assert(EventType::spec_from_str(EventType::ReceptacleOverCurrent.vocab()) == Ok::<EventType, EnumParseError>(EventType::ReceptacleOverCurrent));
            },
            EventType::ReceptacleLowCurrent => {
                assert(EventType::spec_from_str(EventType::ReceptacleLowCurrent.vocab()) == Ok::<EventType, EnumParseError>(EventType::ReceptacleLowCurrent));
            },
            EventType::BranchLowVoltage => {
                assert(EventType::spec_from_str(EventType::BranchLowVoltage.vocab()) == Ok::<EventType, EnumParseError>(EventType::BranchLowVoltage));
            },
            EventType::BranchOverCurrent => {
                assert(EventType::spec_from_str(EventType::BranchOverCurrent.vocab()) == Ok::<EventType, EnumParseError>(EventType::BranchOverCurrent));
            },
            EventType::BranchLowCurrent => {
                assert(EventType::spec_from_str(EventType::BranchLowCurrent.vocab()) == Ok::<EventType, EnumParseError>(EventType::BranchLowCurrent));
            },
            EventType::BranchFailure => {
                assert(EventType::spec_from_str(EventType::BranchFailure.vocab()) == Ok::<EventType, EnumParseError>(EventType::BranchFailure));
            },
            EventType::BranchBreakerOpen => {
                assert(EventType::spec_from_str(EventType::BranchBreakerOpen.vocab()) == Ok::<EventType, EnumParseError>(EventType::BranchBreakerOpen));
            },
            EventType::PDULowVoltageL1 => {
                assert(EventType::spec_from_str(EventType::PDULowVoltageL1.vocab()) == Ok::<EventType, EnumParseError>(EventType::PDULowVoltageL1));
            },
            EventType::PDULowVoltageL2 => {
                assert(EventType::spec_from_str(EventType::PDULowVoltageL2.vocab()) == Ok::<EventType, EnumParseError>(EventType::PDULowVoltageL2));
            },
            EventType::PDULowVoltageL3 => {
                assert(EventType::spec_from_str(EventType::PDULowVoltageL3.vocab()) == Ok::<EventType, EnumParseError>(EventType::PDULowVoltageL3));
            },
            EventType::PDUOverCurrentL1 => {
                assert(EventType::spec_from_str(EventType::PDUOverCurrentL1.vocab()) == Ok::<EventType, EnumParseError>(EventType::PDUOverCurrentL1));
            },
            EventType::PDUOverCurrentL2 => {
                assert(EventType::spec_from_str(EventType::PDUOverCurrentL2.vocab()) == Ok::<EventType, EnumParseError>(EventType::PDUOverCurrentL2));
            },
            EventType::PDUOverCurrentL3 => {
                assert(EventType::spec_from_str(EventType::PDUOverCurrentL3.vocab()) == Ok::<EventType, EnumParseError>(EventType::PDUOverCurrentL3));
            },
            EventType::PDULowCurrentL1 => {
                assert(EventType::spec_from_str(EventType::PDULowCurrentL1.vocab()) == Ok::<EventType, EnumParseError>(EventType::PDULowCurrentL1));
            },
            EventType::PDULowCurrentL2 => {
                assert(EventType::spec_from_str(EventType::PDULowCurrentL2.vocab()) == Ok::<EventType, EnumParseError>(EventType::PDULowCurrentL2));
            },
            EventType::PDULowCurrentL3 => {
                assert(EventType::spec_from_str(EventType::PDULowCurrentL3.vocab()) == Ok::<EventType, EnumParseError>(EventType::PDULowCurrentL3));
            },
            EventType::PDUFailure => {
                assert(EventType::spec_from_str(EventType::PDUFailure.vocab()) == Ok::<EventType, EnumParseError>(EventType::PDUFailure));
            },
            EventType::PDUCommunicationFail => {
                assert(EventType::spec_from_str(EventType::PDUCommunicationFail.vocab()) == Ok::<EventType, EnumParseError>(EventType::PDUCommunicationFail));
            },
            EventType::PDUOverCurrentN => {
                assert(EventType::spec_from_str(EventType::PDUOverCurrentN.vocab()) == Ok::<EventType, EnumParseError>(EventType::PDUOverCurrentN));
            },
        }
    }
    assert forall|s: Seq<char>| (forall|v: EventType| s != #[trigger] v.vocab()) implies EventType::spec_from_str(s) == Err::<EventType, EnumParseError>(()) by {
        assert(s != EventType::ReceptacleOverCurrent.vocab());
        assert(s != EventType::ReceptacleLowCurrent.vocab());
        assert(s != EventType::BranchLowVoltage.vocab());
        assert(s != EventType::BranchOverCurrent.vocab());
        assert(s != EventType::BranchLowCurrent.vocab());
        assert(s != EventType::BranchFailure.vocab());
        assert(s != EventType::BranchBreakerOpen.vocab());
        assert(s != EventType::PDULowVoltageL1.vocab());
        assert(s != EventType::PDULowVoltageL2.vocab());
        assert(s != EventType::PDULowVoltageL3.vocab());
        assert(s != EventType::PDUOverCurrentL1.vocab());
        assert(s != EventType::PDUOverCurrentL2.vocab());
        assert(s != EventType::PDUOverCurrentL3.vocab());
        assert(s != EventType::PDULowCurrentL1.vocab());
        assert(s != EventType::PDULowCurrentL2.vocab());
        assert(s != EventType::PDULowCurrentL3.vocab());
        assert(s != EventType::PDUFailure.vocab());
        assert(s != EventType::PDUCommunicationFail.vocab());
        assert(s != EventType::PDUOverCurrentN.vocab());
    }
}

/// Severity of an event, decoded from the page's icon reference.
#[derive(Copy, Clone, Debug, PartialEq, Eq, Structural)]
pub enum EventLevel {
    /// No problem present.
    OK,
    /// A warning threshold was passed.
    WARNING,
    /// Informational only.
    INFO,
    /// An alarm threshold was passed.
    ALARM,
}

impl EventLevel {
    /// The vendor's word for this variant.
    pub open spec fn vocab(self) -> Seq<char> {
        match self {
            EventLevel::OK => "../../../images/accept.png"@,
            EventLevel::WARNING => "../../../images/warn.png"@,
            EventLevel::INFO => "../../../images/information.png"@,
            EventLevel::ALARM => "../../../images/err.png"@,
        }
    }

    /// What decoding a word returns: the variant whose vendor word it is,
    /// or a rejection for a word outside the vocabulary.
    pub open spec fn spec_from_str(s: Seq<char>) -> Result<EventLevel, EnumParseError> {
        if s == EventLevel::OK.vocab() {
            Ok(EventLevel::OK)
        } else         if s == EventLevel::WARNING.vocab() {
            Ok(EventLevel::WARNING)
        } else         if s == EventLevel::INFO.vocab() {
            Ok(EventLevel::INFO)
        } else         if s == EventLevel::ALARM.vocab() {
            Ok(EventLevel::ALARM)
        } else {
            Err(())
        }
    }

    /// Decodes the vendor's word into its variant.
    pub fn from_str(input: &str) -> (r: Result<EventLevel, EnumParseError>)
        ensures
            r == EventLevel::spec_from_str(input@),
    {
        if str_eq(input, "../../../images/accept.png") {
            Ok(EventLevel::OK)
        } else         if str_eq(input, "../../../images/warn.png") {
            Ok(EventLevel::WARNING)
        } else         if str_eq(input, "../../../images/information.png") {
            Ok(EventLevel::INFO)
        } else         if str_eq(input, "../../../images/err.png") {
            Ok(EventLevel::ALARM)
        } else {
            Err(())
        }
    }
}

/// The vocabulary is exhaustive: every vendor word decodes to its own
/// variant, and any word outside the vocabulary is rejected.
pub proof fn lemma_event_level_vocabulary()
    ensures
        forall|v: EventLevel| #![auto] EventLevel::spec_from_str(v.vocab()) == Ok::<EventLevel, EnumParseError>(v),
        forall|s: Seq<char>|
            (forall|v: EventLevel| s != #[trigger] v.vocab()) ==> EventLevel::spec_from_str(s)
                == Err::<EventLevel, EnumParseError>(()),
{
    reveal_strlit("../../../images/accept.png");
    assert("../../../images/accept.png"@.len() == 26);
    reveal_strlit("../../../images/warn.png");
    assert("../../../images/warn.png"@.len() == 24);
    reveal_strlit("../../../images/information.png");
    assert("../../../images/information.png"@.len() == 31);
    reveal_strlit("../../../images/err.png");
    assert("../../../images/err.png"@.len() == 23);
    assert forall|v: EventLevel| #![auto] EventLevel::spec_from_str(v.vocab()) == Ok::<EventLevel, EnumParseError>(v) by {
        match v {
            EventLevel::OK => {
                assert(EventLevel::spec_from_str(EventLevel::OK.vocab()) == Ok::<EventLevel, EnumParseError>(EventLevel::OK));
            },
            EventLevel::WARNING => {
                assert(EventLevel::spec_from_str(EventLevel::WARNING.vocab()) == Ok::<EventLevel, EnumParseError>(EventLevel::WARNING));
            },
            EventLevel::INFO => {
                assert(EventLevel::spec_from_str(EventLevel::INFO.vocab()) == Ok::<EventLevel, EnumParseError>(EventLevel::INFO));
            },
            EventLevel::ALARM => {
                assert(EventLevel::spec_from_str(EventLevel::ALARM.vocab()) == Ok::<EventLevel, EnumParseError>(EventLevel::ALARM));
            },
        }
    }
    assert forall|s: Seq<char>| (forall|v: EventLevel| s != #[trigger] v.vocab()) implies EventLevel::spec_from_str(s) == Err::<EventLevel, EnumParseError>(()) by {
        assert(s != EventLevel::OK.vocab());
        assert(s != EventLevel::WARNING.vocab());
        assert(s != EventLevel::INFO.vocab());
        assert(s != EventLevel::ALARM.vocab());
    }
}

/// The supply line a branch or receptacle is fed from.
#[derive(Copy, Clone, Debug, PartialEq, Eq, Structural)]
pub enum LineSource {
    /// Fed from L1 against N.
    L1toN,
    /// Fed from L2 against N.
    L2toN,
    /// Fed from L3 against N.
    L3toN,
}

impl LineSource {
    /// The vendor's word for this variant.
    pub open spec fn vocab(self) -> Seq<char> {
        match self {
            LineSource::L1toN => "Type L1-N"@,
            LineSource::L2toN => "Type L2-N"@,
            LineSource::L3toN => "Type L3-N"@,
        }
    }

    /// What decoding a word returns: the variant whose vendor word it is,
    /// or a rejection for a word outside the vocabulary.
    pub open spec fn spec_from_str(s: Seq<char>) -> Result<LineSource, EnumParseError> {
        if s == LineSource::L1toN.vocab() {
            Ok(LineSource::L1toN)
        } else         if s == LineSource::L2toN.vocab() {
            Ok(LineSource::L2toN)
        } else         if s == LineSource::L3toN.vocab() {
            Ok(LineSource::L3toN)
        } else {
            Err(())
        }
    }

    /// Decodes the vendor's word into its variant.
    pub fn from_str(input: &str) -> (r: Result<LineSource, EnumParseError>)
        ensures
            r == LineSource::spec_from_str(input@),
    {
        if str_eq(input, "Type L1-N") {
            Ok(LineSource::L1toN)
        } else         if str_eq(input, "Type L2-N") {
            Ok(LineSource::L2toN)
        } else         if str_eq(input, "Type L3-N") {
            Ok(LineSource::L3toN)
        } else {
            Err(())
        }
    }

    /// The short human label for this variant.
    pub open spec fn spec_text(self) -> Seq<char> {
        match self {
            LineSource::L1toN => "L1-N"@,
            LineSource::L2toN => "L2-N"@,
            LineSource::L3toN => "L3-N"@,
        }
    }

    /// Renders the short human label.
    pub fn to_string(&self) -> (r: String)
        ensures
            r@ == self.spec_text(),
    {
        match self {
            LineSource::L1toN => "L1-N".to_owned(),
            LineSource::L2toN => "L2-N".to_owned(),
            LineSource::L3toN => "L3-N".to_owned(),
        }
    }
}

/// The vocabulary is exhaustive: every vendor word decodes to its own
/// variant, and any word outside the vocabulary is rejected.
pub proof fn lemma_line_source_vocabulary()
    ensures
        forall|v: LineSource| #![auto] LineSource::spec_from_str(v.vocab()) == Ok::<LineSource, EnumParseError>(v),
        forall|s: Seq<char>|
            (forall|v: LineSource| s != #[trigger] v.vocab()) ==> LineSource::spec_from_str(s)
                == Err::<LineSource, EnumParseError>(()),
{
    reveal_strlit("Type L1-N");
    assert("Type L1-N"@.len() == 9);
    reveal_strlit("Type L2-N");
    assert("Type L2-N"@.len() == 9);
    reveal_strlit("Type L3-N");
    assert("Type L3-N"@.len() == 9);
    assert("Type L1-N"@[6] == '1');
    assert("Type L2-N"@[6] == '2');
    assert("Type L3-N"@[6] == '3');
    assert forall|v: LineSource| #![auto] LineSource::spec_from_str(v.vocab()) == Ok::<LineSource, EnumParseError>(v) by {
        match v {
            LineSource::L1toN => {
                assert(LineSource::spec_from_str(LineSource::L1toN.vocab()) == Ok::<LineSource, EnumParseError>(LineSource::L1toN));
            },
            LineSource::L2toN => {
                assert(LineSource::spec_from_str(LineSource::L2toN.vocab()) == Ok::<LineSource, EnumParseError>(LineSource::L2toN));
            },
            LineSource::L3toN => {
                assert(LineSource::spec_from_str(LineSource::L3toN.vocab()) == Ok::<LineSource, EnumParseError>(LineSource::L3toN));
            },
        }
    }
    assert forall|s: Seq<char>| (forall|v: LineSource| s != #[trigger] v.vocab()) implies LineSource::spec_from_str(s) == Err::<LineSource, EnumParseError>(()) by {
        assert(s != LineSource::L1toN.vocab());
        assert(s != LineSource::L2toN.vocab());
        assert(s != LineSource::L3toN.vocab());
    }
}

/// What a module can measure and control.
#[derive(Copy, Clone, Debug, PartialEq, Eq, Structural)]
pub enum Capability {
    /// Receptacles can be measured and controlled.
    MeasureAndControl,
}

impl Capability {
    /// The vendor's word for this variant.
    pub open spec fn vocab(self) -> Seq<char> {
        match self {
            Capability::MeasureAndControl => "All Measurements/Control"@,
        }
    }

    /// What decoding a word returns: the variant whose vendor word it is,
    /// or a rejection for a word outside the vocabulary.
    pub open spec fn spec_from_str(s: Seq<char>) -> Result<Capability, EnumParseError> {
        if s == Capability::MeasureAndControl.vocab() {
            Ok(Capability::MeasureAndControl)
        } else {
            Err(())
        }
    }

    /// Decodes the vendor's word into its variant.
    pub fn from_str(input: &str) -> (r: Result<Capability, EnumParseError>)
        ensures
            r == Capability::spec_from_str(input@),
    {
        if str_eq(input, "All Measurements/Control") {
            Ok(Capability::MeasureAndControl)
        } else {
            Err(())
        }
    }

    /// The short human label for this variant.
    pub open spec fn spec_text(self) -> Seq<char> {
        match self {
            Capability::MeasureAndControl => "Measure & Control"@,
        }
    }

    /// Renders the short human label.
    pub fn to_string(&self) -> (r: String)
        ensures
            r@ == self.spec_text(),
    {
        match self {
            Capability::MeasureAndControl => "Measure & Control".to_owned(),
        }
    }
}

/// The vocabulary is exhaustive: every vendor word decodes to its own
/// variant, and any word outside the vocabulary is rejected.
pub proof fn lemma_capability_vocabulary()
    ensures
        forall|v: Capability| #![auto] Capability::spec_from_str(v.vocab()) == Ok::<Capability, EnumParseError>(v),
        forall|s: Seq<char>|
            (forall|v: Capability| s != #[trigger] v.vocab()) ==> Capability::spec_from_str(s)
                == Err::<Capability, EnumParseError>(()),
{
    reveal_strlit("All Measurements/Control");
    assert("All Measurements/Control"@.len() == 24);
    assert forall|v: Capability| #![auto] Capability::spec_from_str(v.vocab()) == Ok::<Capability, EnumParseError>(v) by {
        match v {
            Capability::MeasureAndControl => {
                assert(Capability::spec_from_str(Capability::MeasureAndControl.vocab()) == Ok::<Capability, EnumParseError>(Capability::MeasureAndControl));
            },
        }
    }
    assert forall|s: Seq<char>| (forall|v: Capability| s != #[trigger] v.vocab()) implies Capability::spec_from_str(s) == Err::<Capability, EnumParseError>(()) by {
        assert(s != Capability::MeasureAndControl.vocab());
    }
}

} // verus!
