//! The quantities a pricing request can ask for, and their numeric codes.
use vstd::prelude::*;

verus! {

/// The payoff whose quantities are computed.
#[derive(Clone, Copy, Debug, PartialEq, Eq, Structural)]
pub enum OptionKind {
    Put,
    Call,
}

/// The quantity of an option that is computed: its price or one of its Greeks.
#[derive(Clone, Copy, Debug, PartialEq, Eq, Structural)]
pub enum Sensitivity {
    Price,
    Delta,
    Gamma,
    Theta,
}

/// What one invocation of the engine produces.
#[derive(Clone, Copy, Debug, PartialEq, Eq, Structural)]
pub enum Operation {
    /// A price or Greek of a put or call, one value per strike.
    OptionSeries(OptionKind, Sensitivity),
    /// The risk-neutral density on a grid of log-returns.
    Density,
    /// Value-at-Risk and Expected Shortfall at a confidence level.
    RiskMeasures,
}

/// How the values of an operation are presented.
#[derive(Clone, Copy, Debug, PartialEq, Eq, Structural)]
pub enum Presentation {
    /// Interior strikes, each with its price and Black-Scholes implied volatility.
    PricesWithImpliedVol,
    /// Interior evaluation points with their values (the two boundary points dropped).
    InteriorSeries,
    /// Every evaluation point with its value.
    FullSeries,
    /// One pair: Value-at-Risk and Expected Shortfall.
    RiskPair,
}

pub open spec fn kind_index(k: OptionKind) -> int {
    match k {
        OptionKind::Put => 0,
        OptionKind::Call => 1,
    }
}

pub open spec fn sensitivity_index(s: Sensitivity) -> int {
    match s {
        Sensitivity::Price => 0,
        Sensitivity::Delta => 1,
        Sensitivity::Gamma => 2,
        Sensitivity::Theta => 3,
    }
}

/// The numeric code of an operation: puts take even codes, calls odd ones,
/// price 0-1, delta 2-3, gamma 4-5, theta 6-7; density 8 and risk measures 9.
pub open spec fn code_of(op: Operation) -> int {
    match op {
        Operation::OptionSeries(k, s) => 2 * sensitivity_index(s) + kind_index(k),
        Operation::Density => 8,
        Operation::RiskMeasures => 9,
    }
}

/// The codes that name an operation.
pub open spec fn is_operation_code(code: int) -> bool {
    0 <= code <= 9
}

/// The operation that a code names, if any.
pub open spec fn operation_of_code(code: int) -> Option<Operation> {
    if 0 <= code <= 7 {
        Some(Operation::OptionSeries(kind_of_index(code % 2), sensitivity_of_index(code / 2)))
    } else if code == 8 {
        Some(Operation::Density)
    } else if code == 9 {
        Some(Operation::RiskMeasures)
    } else {
        None
    }
}

pub open spec fn kind_of_index(i: int) -> OptionKind {
    if i == 0 {
        OptionKind::Put
    } else {
        OptionKind::Call
    }
}

pub open spec fn sensitivity_of_index(i: int) -> Sensitivity {
    if i == 0 {
        Sensitivity::Price
    } else if i == 1 {
        Sensitivity::Delta
    } else if i == 2 {
        Sensitivity::Gamma
    } else {
        Sensitivity::Theta
    }
}

pub open spec fn presentation_of(op: Operation) -> Presentation {
    match op {
        Operation::OptionSeries(OptionKind::Call, Sensitivity::Price) => Presentation::PricesWithImpliedVol,
        Operation::OptionSeries(_, _) => Presentation::InteriorSeries,
        Operation::Density => Presentation::FullSeries,
        Operation::RiskMeasures => Presentation::RiskPair,
    }
}

/// Option quantities are evaluated over the wide (option) truncation range;
/// the density and the risk measures over the narrower density range.
pub open spec fn uses_option_range_spec(op: Operation) -> bool {
    op is OptionSeries
}

/// Every code is taken by at most one operation.
pub proof fn lemma_code_injective(a: Operation, b: Operation)
    requires
        code_of(a) == code_of(b),
    ensures
        a == b,
{
}

/// Every operation has a code in the accepted range.
pub proof fn lemma_code_in_range(op: Operation)
    ensures
        is_operation_code(code_of(op)),
{
}

impl OptionKind {
    fn from_index(i: i32) -> (r: OptionKind)
        requires
            0 <= i <= 1,
        ensures
            r == kind_of_index(i as int),
    {
        if i == 0 {
            OptionKind::Put
        } else {
            OptionKind::Call
        }
    }
}

impl Sensitivity {
    fn from_index(i: i32) -> (r: Sensitivity)
        requires
            0 <= i <= 3,
        ensures
            r == sensitivity_of_index(i as int),
    {
        if i == 0 {
            Sensitivity::Price
        } else if i == 1 {
            Sensitivity::Delta
        } else if i == 2 {
            Sensitivity::Gamma
        } else {
            Sensitivity::Theta
        }
    }
}

impl Operation {
    /// The operation that a numeric code selects; `None` for a code that names none.
    pub fn from_code(code: i32) -> (r: Option<Operation>)
        ensures
            r == operation_of_code(code as int),
    {
        if 0 <= code && code <= 7 {
            let k = OptionKind::from_index(code % 2);
            let s = Sensitivity::from_index(code / 2);
            Some(Operation::OptionSeries(k, s))
        } else if code == 8 {
            Some(Operation::Density)
        } else if code == 9 {
            Some(Operation::RiskMeasures)
        } else {
            None
        }
    }

    /// The numeric code of this operation.
    pub fn code(&self) -> (r: i32)
        ensures
            r == code_of(*self),
    {
        match *self {
            Operation::OptionSeries(k, s) => {
                let ki: i32 = match k {
                    OptionKind::Put => 0,
                    OptionKind::Call => 1,
                };
                let si: i32 = match s {
                    Sensitivity::Price => 0,
                    Sensitivity::Delta => 1,
                    Sensitivity::Gamma => 2,
                    Sensitivity::Theta => 3,
                };
                2 * si + ki
            },
            Operation::Density => 8,
            Operation::RiskMeasures => 9,
        }
    }

    /// How the values of this operation are presented.
    pub fn presentation(&self) -> (r: Presentation)
        ensures
            r == presentation_of(*self),
    {
        match *self {
            Operation::OptionSeries(OptionKind::Call, Sensitivity::Price) => Presentation::PricesWithImpliedVol,
            Operation::OptionSeries(_, _) => Presentation::InteriorSeries,
            Operation::Density => Presentation::FullSeries,
            Operation::RiskMeasures => Presentation::RiskPair,
        }
    }

    /// Whether this operation is evaluated over the option truncation range
    /// (twice as wide as the density range).
    pub fn uses_option_range(&self) -> (r: bool)
        ensures
            r == uses_option_range_spec(*self),
    {
        match *self {
            Operation::OptionSeries(_, _) => true,
            _ => false,
        }
    }
}

/// Reading an operation's code back gives the operation.
pub proof fn lemma_code_round_trip(op: Operation)
    ensures
        operation_of_code(code_of(op)) == Some(op),
{
}

/// A code that names an operation is that operation's code.
pub proof fn lemma_operation_has_code(code: int)
    ensures
        operation_of_code(code) matches Some(op) ==> code_of(op) == code,
        operation_of_code(code) is Some <==> is_operation_code(code),
{
}

} // verus!
