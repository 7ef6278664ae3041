//! Moderation request/response shapes and the label and model registries.

use vstd::prelude::*;

use crate::errors::EnumParseError;
use crate::text::{ci_seq_eq, str_eq, str_eq_ignore_case};

verus! {

/// A single-text classification request, as handed to the classifier
/// boundary.
#[derive(Clone, Debug)]
pub struct ModerationRequest {
    pub text: String,
    pub model: Option<ModerationModel>,
    pub enabled_labels: Option<Vec<ModerationLabel>>,
    pub include_context: bool,
}

/// A classification request for several texts at once.
#[derive(Clone, Debug)]
pub struct BatchModerationRequest {
    pub texts: Vec<String>,
    pub model: Option<ModerationModel>,
    pub enabled_labels: Option<Vec<ModerationLabel>>,
    pub include_context: bool,
}

/// What the classifier reports for one text. The per-label scores are
/// floating-point values owned by the service boundary; the decision logic
/// here reads only the flagged labels and the context signal, so the scores
/// are not carried in this type.
#[derive(Clone, Debug)]
pub struct ModerationResponse {
    pub flagged: bool,
    pub labels: Vec<ModerationLabel>,
    pub needs_context: Option<bool>,
    pub context_labels: Option<Vec<ModerationLabel>>,
}

/// A moderation category that the classifier can flag.
#[derive(Clone, Copy, Debug, PartialEq, Eq, Structural)]
pub enum ModerationLabel {
    S,
    H,
    V,
    HR,
    SH,
    S3,
    SP,
    SE,
    T,
}

/// A classification model tier. `Auto` is a request-time placeholder that
/// the model resolver replaces with a concrete model before any cost or
/// classification logic runs.
#[derive(Clone, Copy, Debug, PartialEq, Eq, Structural)]
pub enum ModerationModel {
    Auto,
    Observer,
    Sentinel,
    Arbiter,
}

/// Credits charged per byte of classified text, by model. `Auto` carries no
/// cost of its own: it must be resolved first, and the executable accessor
/// `credits_per_byte` refuses it.
pub open spec fn model_cost(m: ModerationModel) -> int {
    match m {
        ModerationModel::Auto => 0,
        ModerationModel::Observer => 1,
        ModerationModel::Sentinel => 3,
        ModerationModel::Arbiter => 9,
    }
}

/// The wire code of each label. Label codes are matched exactly (no case
/// folding).
pub open spec fn label_wire(l: ModerationLabel) -> Seq<char> {
    match l {
        ModerationLabel::S => "S"@,
        ModerationLabel::H => "H"@,
        ModerationLabel::V => "V"@,
        ModerationLabel::HR => "HR"@,
        ModerationLabel::SH => "SH"@,
        ModerationLabel::S3 => "S3"@,
        ModerationLabel::SP => "SP"@,
        ModerationLabel::SE => "SE"@,
        ModerationLabel::T => "T"@,
    }
}

/// The human-readable display name of each label.
pub open spec fn label_name(l: ModerationLabel) -> Seq<char> {
    match l {
        ModerationLabel::S => "Sexual"@,
        ModerationLabel::H => "Harassment"@,
        ModerationLabel::V => "Violence"@,
        ModerationLabel::HR => "Hate/Racism"@,
        ModerationLabel::SH => "Self-Harm"@,
        ModerationLabel::S3 => "Sexual (Severe/Minors)"@,
        ModerationLabel::SP => "Spam"@,
        ModerationLabel::SE => "Sensitive Content"@,
        ModerationLabel::T => "Toxicity"@,
    }
}

/// Parsing a label code is exact-case; anything else is an unknown variant.
pub open spec fn label_from_wire(s: Seq<char>) -> Result<ModerationLabel, EnumParseError> {
    if s == "S"@ {
        Ok(ModerationLabel::S)
    } else if s == "H"@ {
        Ok(ModerationLabel::H)
    } else if s == "V"@ {
        Ok(ModerationLabel::V)
    } else if s == "HR"@ {
        Ok(ModerationLabel::HR)
    } else if s == "SH"@ {
        Ok(ModerationLabel::SH)
    } else if s == "S3"@ {
        Ok(ModerationLabel::S3)
    } else if s == "SP"@ {
        Ok(ModerationLabel::SP)
    } else if s == "SE"@ {
        Ok(ModerationLabel::SE)
    } else if s == "T"@ {
        Ok(ModerationLabel::T)
    } else {
        Err(EnumParseError::UnknownVariant)
    }
}

impl ModerationLabel {
    /// The default label set: every label except `T`, in declaration order.
    pub fn all_labels() -> (r: Vec<ModerationLabel>)
        ensures
            r@ == seq![
                ModerationLabel::S,
                ModerationLabel::H,
                ModerationLabel::V,
                ModerationLabel::HR,
                ModerationLabel::SH,
                ModerationLabel::S3,
                ModerationLabel::SP,
                ModerationLabel::SE,
            ],
    {
        let mut v: Vec<ModerationLabel> = Vec::new();
        v.push(ModerationLabel::S);
        v.push(ModerationLabel::H);
        v.push(ModerationLabel::V);
        v.push(ModerationLabel::HR);
        v.push(ModerationLabel::SH);
        v.push(ModerationLabel::S3);
        v.push(ModerationLabel::SP);
        v.push(ModerationLabel::SE);
        assert(v@ =~= seq![
            ModerationLabel::S,
            ModerationLabel::H,
            ModerationLabel::V,
            ModerationLabel::HR,
            ModerationLabel::SH,
            ModerationLabel::S3,
            ModerationLabel::SP,
            ModerationLabel::SE,
        ]);
        v
    }

    /// The wire code of this label.
    pub fn to_wire_string(&self) -> (r: &'static str)
        ensures
            r@ == label_wire(*self),
    {
        match self {
            ModerationLabel::S => "S",
            ModerationLabel::H => "H",
            ModerationLabel::V => "V",
            ModerationLabel::HR => "HR",
            ModerationLabel::SH => "SH",
            ModerationLabel::S3 => "S3",
            ModerationLabel::SP => "SP",
            ModerationLabel::SE => "SE",
            ModerationLabel::T => "T",
        }
    }

    /// The human-readable display name of this label.
    pub fn to_name(&self) -> (r: &'static str)
        ensures
            r@ == label_name(*self),
    {
        match self {
            ModerationLabel::S => "Sexual",
            ModerationLabel::H => "Harassment",
            ModerationLabel::V => "Violence",
            ModerationLabel::HR => "Hate/Racism",
            ModerationLabel::SH => "Self-Harm",
            ModerationLabel::S3 => "Sexual (Severe/Minors)",
            ModerationLabel::SP => "Spam",
            ModerationLabel::SE => "Sensitive Content",
            ModerationLabel::T => "Toxicity",
        }
    }

    /// Parses a label from its exact-case wire code.
    pub fn parse(s: &str) -> (r: Result<ModerationLabel, EnumParseError>)
        ensures
            r == label_from_wire(s@),
    {
        if str_eq(s, "S") {
            Ok(ModerationLabel::S)
        } else if str_eq(s, "H") {
            Ok(ModerationLabel::H)
        } else if str_eq(s, "V") {
            Ok(ModerationLabel::V)
        } else if str_eq(s, "HR") {
            Ok(ModerationLabel::HR)
        } else if str_eq(s, "SH") {
            Ok(ModerationLabel::SH)
        } else if str_eq(s, "S3") {
            Ok(ModerationLabel::S3)
        } else if str_eq(s, "SP") {
            Ok(ModerationLabel::SP)
        } else if str_eq(s, "SE") {
            Ok(ModerationLabel::SE)
        } else if str_eq(s, "T") {
            Ok(ModerationLabel::T)
        } else {
            Err(EnumParseError::UnknownVariant)
        }
    }
}

/// Whether a label list contains the given label.
pub fn labels_contain(v: &Vec<ModerationLabel>, l: ModerationLabel) -> (r: bool)
    ensures
        r == v@.contains(l),
{
    let mut i: usize = 0;
    while i < v.len()
        invariant
            i <= v@.len(),
            forall|j: int| 0 <= j < i ==> v@[j] != l,
        decreases v@.len() - i,
    {
        if v[i] == l {
            return true;
        }
        i = i + 1;
    }
    false
}

/// Law: for every label, parsing the wire code gives the label back.
pub proof fn lemma_label_wire_round_trip(l: ModerationLabel)
    ensures
        label_from_wire(label_wire(l)) == Ok::<ModerationLabel, EnumParseError>(l),
{
    reveal_strlit("S");
    reveal_strlit("H");
    reveal_strlit("V");
    reveal_strlit("HR");
    reveal_strlit("SH");
    reveal_strlit("S3");
    reveal_strlit("SP");
    reveal_strlit("SE");
    reveal_strlit("T");
    match l {
        ModerationLabel::S => {
        },
        ModerationLabel::H => {
            assert("H"@[0] != "S"@[0]);
        },
        ModerationLabel::V => {
            assert("V"@[0] != "S"@[0]);
            assert("V"@[0] != "H"@[0]);
        },
        ModerationLabel::HR => {
            assert("HR"@.len() != "S"@.len());
            assert("HR"@.len() != "H"@.len());
            assert("HR"@.len() != "V"@.len());
        },
        ModerationLabel::SH => {
            assert("SH"@.len() != "S"@.len());
            assert("SH"@[0] != "HR"@[0]);
        },
        ModerationLabel::S3 => {
            assert("S3"@.len() != "S"@.len());
            assert("S3"@[0] != "HR"@[0]);
            assert("S3"@[1] != "SH"@[1]);
        },
        ModerationLabel::SP => {
            assert("SP"@.len() != "S"@.len());
            assert("SP"@[0] != "HR"@[0]);
            assert("SP"@[1] != "SH"@[1]);
            assert("SP"@[1] != "S3"@[1]);
        },
        ModerationLabel::SE => {
            assert("SE"@.len() != "S"@.len());
            assert("SE"@[0] != "HR"@[0]);
            assert("SE"@[1] != "SH"@[1]);
            assert("SE"@[1] != "S3"@[1]);
            assert("SE"@[1] != "SP"@[1]);
        },
        ModerationLabel::T => {
            assert("T"@[0] != "S"@[0]);
            assert("T"@[0] != "H"@[0]);
            assert("T"@[0] != "V"@[0]);
            assert("T"@.len() != "HR"@.len());
        },
    }
}

/// The machine-readable (lowercase) wire form of each model.
pub open spec fn model_wire(m: ModerationModel) -> Seq<char> {
    match m {
        ModerationModel::Auto => "auto"@,
        ModerationModel::Observer => "observer"@,
        ModerationModel::Sentinel => "sentinel"@,
        ModerationModel::Arbiter => "arbiter"@,
    }
}

/// The human-readable display name of each model.
pub open spec fn model_name(m: ModerationModel) -> Seq<char> {
    match m {
        ModerationModel::Auto => "Auto"@,
        ModerationModel::Observer => "Observer"@,
        ModerationModel::Sentinel => "Sentinel"@,
        ModerationModel::Arbiter => "Arbiter"@,
    }
}

/// Parsing a model wire string is case-insensitive; anything that matches no
/// variant is an unknown variant.
pub open spec fn model_from_wire(s: Seq<char>) -> Result<ModerationModel, EnumParseError> {
    if ci_seq_eq(s, "auto"@) {
        Ok(ModerationModel::Auto)
    } else if ci_seq_eq(s, "observer"@) {
        Ok(ModerationModel::Observer)
    } else if ci_seq_eq(s, "sentinel"@) {
        Ok(ModerationModel::Sentinel)
    } else if ci_seq_eq(s, "arbiter"@) {
        Ok(ModerationModel::Arbiter)
    } else {
        Err(EnumParseError::UnknownVariant)
    }
}

impl ModerationModel {
    /// All concrete (non-`Auto`) models, cheapest first.
    pub fn all_models() -> (r: Vec<ModerationModel>)
        ensures
            r@ == seq![
                ModerationModel::Observer,
                ModerationModel::Sentinel,
                ModerationModel::Arbiter,
            ],
    {
        let mut v: Vec<ModerationModel> = Vec::new();
        v.push(ModerationModel::Observer);
        v.push(ModerationModel::Sentinel);
        v.push(ModerationModel::Arbiter);
        assert(v@ =~= seq![
            ModerationModel::Observer,
            ModerationModel::Sentinel,
            ModerationModel::Arbiter,
        ]);
        v
    }

    /// Credits charged per byte when classifying with this model.
    /// Calling this on `Auto` is a caller error, so `Auto` is excluded here.
    pub fn credits_per_byte(&self) -> (r: i64)
        requires
            *self !is Auto,
        ensures
            r == model_cost(*self),
    {
        match self {
            ModerationModel::Auto => unreached(),
            ModerationModel::Observer => 1,
            ModerationModel::Sentinel => 3,
            ModerationModel::Arbiter => 9,
        }
    }

    /// The machine-readable (lowercase) wire form of this model.
    pub fn to_wire_string(&self) -> (r: &'static str)
        ensures
            r@ == model_wire(*self),
    {
        match self {
            ModerationModel::Auto => "auto",
            ModerationModel::Observer => "observer",
            ModerationModel::Sentinel => "sentinel",
            ModerationModel::Arbiter => "arbiter",
        }
    }

    /// The human-readable display name of this model.
    pub fn to_name(&self) -> (r: &'static str)
        ensures
            r@ == model_name(*self),
    {
        match self {
            ModerationModel::Auto => "Auto",
            ModerationModel::Observer => "Observer",
            ModerationModel::Sentinel => "Sentinel",
            ModerationModel::Arbiter => "Arbiter",
        }
    }

    /// Parses a model from its wire string, ignoring ASCII case.
    pub fn parse(s: &str) -> (r: Result<ModerationModel, EnumParseError>)
        ensures
            r == model_from_wire(s@),
    {
        if str_eq_ignore_case(s, "auto") {
            Ok(ModerationModel::Auto)
        } else if str_eq_ignore_case(s, "observer") {
            Ok(ModerationModel::Observer)
        } else if str_eq_ignore_case(s, "sentinel") {
            Ok(ModerationModel::Sentinel)
        } else if str_eq_ignore_case(s, "arbiter") {
            Ok(ModerationModel::Arbiter)
        } else {
            Err(EnumParseError::UnknownVariant)
        }
    }
}

/// Law: for every model, parsing the wire string gives the model back.
pub proof fn lemma_model_wire_round_trip(m: ModerationModel)
    ensures
        model_from_wire(model_wire(m)) == Ok::<ModerationModel, EnumParseError>(m),
{
    reveal_strlit("auto");
    reveal_strlit("observer");
    reveal_strlit("sentinel");
    reveal_strlit("arbiter");
    match m {
        ModerationModel::Auto => {
            assert(ci_seq_eq("auto"@, "auto"@));
        },
        ModerationModel::Observer => {
            assert(!ci_seq_eq("observer"@, "auto"@));
            assert(ci_seq_eq("observer"@, "observer"@));
        },
        ModerationModel::Sentinel => {
            assert(!ci_seq_eq("sentinel"@, "auto"@));
            assert(!crate::text::ci_char_eq("sentinel"@[0], "observer"@[0]));
            assert(!ci_seq_eq("sentinel"@, "observer"@));
            assert(ci_seq_eq("sentinel"@, "sentinel"@));
        },
        ModerationModel::Arbiter => {
            assert(!ci_seq_eq("arbiter"@, "auto"@));
            assert(!ci_seq_eq("arbiter"@, "observer"@));
            assert(!ci_seq_eq("arbiter"@, "sentinel"@));
            assert(ci_seq_eq("arbiter"@, "arbiter"@));
        },
    }
}

} // verus!
