use vstd::prelude::*;

verus! {

/// Rate control modes available for video encoding.
///
/// In command payloads a mode travels as the lowercase string given by
/// [`RateControlMode::as_str`].
#[derive(Debug, Clone, Copy, PartialEq, Eq, Structural)]
pub enum RateControlMode {
    /// Constant bitrate.
    Cbr,
    /// Variable bitrate.
    Vbr,
    /// Constant rate factor: constant quality, varying bitrate.
    Crf,
    /// Constant quantizer parameter.
    Cqp,
}

/// A rate control mode together with a label fit for display.
#[derive(Debug, Clone, Copy)]
pub struct RateControlOption {
    pub label: &'static str,
    pub value: RateControlMode,
}

impl Default for RateControlMode {
    fn default() -> (r: Self)
        ensures
            r == RateControlMode::Cbr,
    {
        RateControlMode::Cbr
    }
}

impl RateControlMode {
    /// All rate control modes, each with its display label.
    pub fn all() -> (r: [RateControlOption; 4])
        ensures
            r@.len() == 4,
            r@[0].value == RateControlMode::Cbr,
            r@[0].label@ == "Default (Constant Bitrate)"@,
            r@[1].value == RateControlMode::Vbr,
            r@[1].label@ == "Variable Bitrate (VBR)"@,
            r@[2].value == RateControlMode::Crf,
            r@[2].label@ == "Constant Quality (CRF)"@,
            r@[3].value == RateControlMode::Cqp,
            r@[3].label@ == "Constant Quantizer Parameter (CQP)"@,
    {
        [
            RateControlOption { label: "Default (Constant Bitrate)", value: RateControlMode::Cbr },
            RateControlOption { label: "Variable Bitrate (VBR)", value: RateControlMode::Vbr },
            RateControlOption { label: "Constant Quality (CRF)", value: RateControlMode::Crf },
            RateControlOption {
                label: "Constant Quantizer Parameter (CQP)",
                value: RateControlMode::Cqp,
            },
        ]
    }

    /// The lowercase wire spelling of this mode.
    pub fn as_str(&self) -> (r: &'static str)
        ensures
            r@ == self.spec_str(),
    {
        match self {
            RateControlMode::Cbr => "cbr",
            RateControlMode::Vbr => "vbr",
            RateControlMode::Crf => "crf",
            RateControlMode::Cqp => "cqp",
        }
    }

    /// The wire spelling of each mode.
    pub open spec fn spec_str(self) -> Seq<char> {
        match self {
            RateControlMode::Cbr => "cbr"@,
            RateControlMode::Vbr => "vbr"@,
            RateControlMode::Crf => "crf"@,
            RateControlMode::Cqp => "cqp"@,
        }
    }
}

} // verus!
